//! Sockets kept by the driver: their receive buffers, states and the set
//! that holds them.

pub mod endpoint;
pub mod ref_;
pub mod ring_buffer;
pub mod tcp;
pub mod set;
pub mod udp;

use tcp::TcpSocket;
use udp::UdpSocket;

use vstd::prelude::*;

verus! {

/// The error type for the networking stack.
#[derive(Debug, Clone, Copy, PartialEq, Eq, Structural)]
pub enum Error {
    /// An operation cannot proceed because a buffer is empty or full.
    Exhausted,
    /// An operation is not permitted in the current state.
    Illegal,
    /// An endpoint or address of a remote host could not be translated to a lower level address.
    Unaddressable,
    /// An incoming packet could not be parsed because some of its fields were out of bounds
    /// of the received data.
    Truncated,
    /// An incoming packet had an incorrect checksum and was dropped.
    Checksum,
    /// An incoming packet could not be recognized and was dropped.
    Unrecognized,
    /// An incoming IP packet has been split into several IP fragments and was dropped.
    Fragmented,
    /// An incoming packet was recognized but was self-contradictory.
    Malformed,
    /// An incoming packet was recognized but contradicted internal state.
    Dropped,
    /// Every slot of the socket set is taken.
    SocketSetFull,
    /// No socket of the set has the given handle.
    InvalidSocket,
    /// A socket with the given handle is already in the set.
    DuplicateSocket,
    /// The socket is closed, or not connected.
    SocketClosed,
}

/// A handle, identifying a socket in a set.
#[derive(Debug, Clone, Copy, PartialEq, Eq, PartialOrd, Ord, Hash, Default, Structural)]
pub struct Handle(pub u8);

/// The kinds of socket.
#[derive(Debug, Clone, Copy, PartialEq, Eq, Structural)]
pub enum SocketType {
    Udp,
    Tcp,
}

/// A network socket.
///
/// This enumeration abstracts the various types of sockets based on the IP protocol.
/// To downcast a `Socket` value to a concrete socket, use the [AnySocket] trait.
pub enum Socket<const FREQ_HZ: u32, const L: usize> {
    Udp(UdpSocket<FREQ_HZ, L>),
    Tcp(TcpSocket<FREQ_HZ, L>),
}

impl<const FREQ_HZ: u32, const L: usize> Socket<FREQ_HZ, L> {
    /// The handle of the socket.
    pub open spec fn spec_handle(&self) -> Handle {
        match self {
            Socket::Udp(s) => s.spec_handle(),
            Socket::Tcp(s) => s.spec_handle(),
        }
    }

    /// How much data the module reported waiting for the socket.
    pub open spec fn spec_available_data(&self) -> usize {
        match self {
            Socket::Udp(s) => s.spec_available_data(),
            Socket::Tcp(s) => s.spec_available_data(),
        }
    }

    /// The kind of the socket.
    pub open spec fn spec_type(&self) -> SocketType {
        match self {
            Socket::Udp(_) => SocketType::Udp,
            Socket::Tcp(_) => SocketType::Tcp,
        }
    }

    /// The socket's receive buffer is well formed.
    pub open spec fn wf(&self) -> bool {
        match self {
            Socket::Udp(s) => s.wf(),
            Socket::Tcp(s) => s.wf(),
        }
    }

    /// The socket is open (see the `is_open` of each kind of socket).
    pub open spec fn spec_is_open(&self) -> bool {
        match self {
            Socket::Udp(s) => s.spec_is_open(),
            Socket::Tcp(s) => s.spec_is_open(),
        }
    }

    /// The socket once closed: a UDP socket's endpoint loses its port; a TCP
    /// socket goes to the `CLOSED` state.
    pub open spec fn spec_closed(self) -> Self {
        match self {
            Socket::Udp(s) => Socket::Udp(s.with_endpoint(s.spec_endpoint().with_port(0))),
            Socket::Tcp(s) => Socket::Tcp(s.with_state(tcp::State::Closed)),
        }
    }

    /// Whether the socket is open.
    pub fn is_open(&self) -> (r: bool)
        ensures
            r == self.spec_is_open(),
    {
        match self {
            Socket::Udp(s) => s.is_open(),
            Socket::Tcp(s) => s.is_open(),
        }
    }

    /// Close the socket (see [spec_closed](Self::spec_closed)).
    pub fn close(&mut self)
        ensures
            *final(self) == old(self).spec_closed(),
            !final(self).spec_is_open(),
            final(self).spec_handle() == old(self).spec_handle(),
            final(self).wf() == old(self).wf(),
    {
        match self {
            Socket::Udp(s) => s.close(),
            Socket::Tcp(s) => s.close(),
        }
    }

    pub fn get_type(&self) -> (r: SocketType)
        ensures
            r == self.spec_type(),
    {
        match self {
            Socket::Tcp(_) => SocketType::Tcp,
            Socket::Udp(_) => SocketType::Udp,
        }
    }

    /// Return the socket handle.
    pub fn handle(&self) -> (r: Handle)
        ensures
            r == self.spec_handle(),
    {
        match self {
            Socket::Udp(s) => s.handle(),
            Socket::Tcp(s) => s.handle(),
        }
    }
}

impl<const FREQ_HZ: u32, const L: usize> From<TcpSocket<FREQ_HZ, L>> for Socket<FREQ_HZ, L> {
    fn from(s: TcpSocket<FREQ_HZ, L>) -> (r: Self) {
        Socket::Tcp(s)
    }
}

impl<const FREQ_HZ: u32, const L: usize> vstd::std_specs::convert::FromSpecImpl<TcpSocket<FREQ_HZ, L>> for Socket<FREQ_HZ, L> {
    open spec fn obeys_from_spec() -> bool {
        true
    }

    open spec fn from_spec(s: TcpSocket<FREQ_HZ, L>) -> Self {
        Socket::Tcp(s)
    }
}

impl<const FREQ_HZ: u32, const L: usize> From<UdpSocket<FREQ_HZ, L>> for Socket<FREQ_HZ, L> {
    fn from(s: UdpSocket<FREQ_HZ, L>) -> (r: Self) {
        Socket::Udp(s)
    }
}

impl<const FREQ_HZ: u32, const L: usize> vstd::std_specs::convert::FromSpecImpl<UdpSocket<FREQ_HZ, L>> for Socket<FREQ_HZ, L> {
    open spec fn obeys_from_spec() -> bool {
        true
    }

    open spec fn from_spec(s: UdpSocket<FREQ_HZ, L>) -> Self {
        Socket::Udp(s)
    }
}

/// In-place analog of Default.
pub trait Resettable {
    fn reset(&mut self);
}

/// A conversion trait for network sockets: access to the concrete socket
/// inside a [Socket].
pub trait AnySocket<const FREQ_HZ: u32, const L: usize>: Sized {
    /// The concrete socket inside `s`, if `s` is of this kind.
    spec fn project(s: Socket<FREQ_HZ, L>) -> Option<Self>;

    /// The socket of this kind that holds `x`.
    spec fn inject(x: Self) -> Socket<FREQ_HZ, L>;

    /// The concrete socket inside `socket`, or `Err(Error::Illegal)` if the
    /// socket is of another kind.
    fn downcast(socket: &mut Socket<FREQ_HZ, L>) -> (r: Result<&mut Self, Error>)
        ensures
            match Self::project(*old(socket)) {
                Some(x) => r is Ok && *r->Ok_0 == x && *final(socket) == Self::inject(*final(r->Ok_0)),
                None => r is Err && r->Err_0 == Error::Illegal && *final(socket) == *old(socket),
            },
    ;
}

impl<const FREQ_HZ: u32, const L: usize> AnySocket<FREQ_HZ, L> for TcpSocket<FREQ_HZ, L> {
    open spec fn project(s: Socket<FREQ_HZ, L>) -> Option<Self> {
        match s {
            Socket::Tcp(t) => Some(t),
            _ => None,
        }
    }

    open spec fn inject(x: Self) -> Socket<FREQ_HZ, L> {
        Socket::Tcp(x)
    }

    fn downcast(socket: &mut Socket<FREQ_HZ, L>) -> (r: Result<&mut Self, Error>) {
        match socket {
            Socket::Tcp(s) => Ok(s),
            _ => Err(Error::Illegal),
        }
    }
}

impl<const FREQ_HZ: u32, const L: usize> AnySocket<FREQ_HZ, L> for UdpSocket<FREQ_HZ, L> {
    open spec fn project(s: Socket<FREQ_HZ, L>) -> Option<Self> {
        match s {
            Socket::Udp(u) => Some(u),
            _ => None,
        }
    }

    open spec fn inject(x: Self) -> Socket<FREQ_HZ, L> {
        Socket::Udp(x)
    }

    fn downcast(socket: &mut Socket<FREQ_HZ, L>) -> (r: Result<&mut Self, Error>) {
        match socket {
            Socket::Udp(s) => Ok(s),
            _ => Err(Error::Illegal),
        }
    }
}

} // verus!
