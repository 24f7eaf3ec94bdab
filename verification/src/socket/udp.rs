//! UDP sockets: the bound endpoint, the data the module holds for the
//! socket, and the receive buffer.

use super::endpoint::SocketAddr;
use super::ring_buffer::RingBuffer;
use super::{Error, Handle};
use crate::hex::{all_hex_digits, decode_hex, from_hex};
use crate::network::lies_secs_before;
use crate::services::data::ingress::{plan_ingress, IngressPlan, read_length};
use crate::services::data::Error as DataError;
use crate::time::Instant;
use vstd::prelude::*;

verus! {

/// A User Datagram Protocol socket.
///
/// A UDP socket is bound to a specific endpoint, and owns a receive buffer.
pub struct UdpSocket<const FREQ_HZ: u32, const L: usize> {
    handle: Handle,
    endpoint: SocketAddr,
    check_interval: u32,
    read_timeout: Option<u32>,
    available_data: usize,
    rx_buffer: RingBuffer<u8, L>,
    last_check_time: Option<Instant<FREQ_HZ>>,
    closed_time: Option<Instant<FREQ_HZ>>,
}

impl<const FREQ_HZ: u32, const L: usize> UdpSocket<FREQ_HZ, L> {
    pub closed spec fn spec_handle(&self) -> Handle {
        self.handle
    }

    pub closed spec fn spec_endpoint(&self) -> SocketAddr {
        self.endpoint
    }

    /// How often, in seconds, the module is asked for data when no URC told of any.
    pub closed spec fn spec_check_interval(&self) -> u32 {
        self.check_interval
    }

    /// How long, in seconds, a socket closed by the remote end is kept.
    pub closed spec fn spec_read_timeout(&self) -> Option<u32> {
        self.read_timeout
    }

    /// How many bytes the module holds for this socket.
    pub closed spec fn spec_available_data(&self) -> usize {
        self.available_data
    }

    /// The receive buffer.
    pub closed spec fn rx(&self) -> RingBuffer<u8, L> {
        self.rx_buffer
    }

    pub closed spec fn spec_last_check_time(&self) -> Option<Instant<FREQ_HZ>> {
        self.last_check_time
    }

    pub closed spec fn spec_closed_time(&self) -> Option<Instant<FREQ_HZ>> {
        self.closed_time
    }

    pub open spec fn wf(&self) -> bool {
        self.rx().wf()
    }

    /// The socket with its last check instant replaced.
    pub closed spec fn with_last_check_time(self, t: Option<Instant<FREQ_HZ>>) -> Self {
        UdpSocket { last_check_time: t, ..self }
    }

    /// The socket with its remote close instant replaced.
    pub closed spec fn with_closed_time(self, t: Option<Instant<FREQ_HZ>>) -> Self {
        UdpSocket { closed_time: t, ..self }
    }

    /// The socket with its count of available bytes replaced.
    pub closed spec fn with_available_data(self, n: usize) -> Self {
        UdpSocket { available_data: n, ..self }
    }

    /// The socket with its endpoint replaced.
    pub closed spec fn with_endpoint(self, e: SocketAddr) -> Self {
        UdpSocket { endpoint: e, ..self }
    }

    /// The socket with its receive buffer replaced.
    pub closed spec fn with_rx(self, rx: RingBuffer<u8, L>) -> Self {
        UdpSocket { rx_buffer: rx, ..self }
    }

    /// The socket is open when its endpoint has a port.
    pub open spec fn spec_is_open(&self) -> bool {
        self.spec_endpoint().spec_port() != 0
    }

    /// Create an UDP socket with the given buffers.
    pub fn new(socket_id: u8) -> (r: UdpSocket<FREQ_HZ, L>)
        requires
            L <= usize::MAX / 2,
        ensures
            r.wf(),
            r.spec_handle() == Handle(socket_id),
            r.spec_endpoint() == SocketAddr::spec_unspecified(),
            r.spec_check_interval() == 15,
            r.spec_read_timeout() == Some(15u32),
            r.spec_available_data() == 0,
            r.rx()@ == Seq::<u8>::empty(),
            r.spec_last_check_time() is None,
            r.spec_closed_time() is None,
    {
        UdpSocket {
            handle: Handle(socket_id),
            endpoint: SocketAddr::unspecified(),
            check_interval: 15,
            read_timeout: Some(15),
            available_data: 0,
            rx_buffer: RingBuffer::new(),
            last_check_time: None,
            closed_time: None,
        }
    }

    /// Return the socket handle.
    pub fn handle(&self) -> (r: Handle)
        ensures
            r == self.spec_handle(),
    {
        self.handle
    }

    /// Return the bound endpoint.
    pub fn endpoint(&self) -> (r: SocketAddr)
        ensures
            r == self.spec_endpoint(),
    {
        self.endpoint
    }

    /// Note a check for data at `ts`, and return whether the previous check
    /// lies at least the check interval before `ts`.
    pub fn should_update_available_data(&mut self, ts: Instant<FREQ_HZ>) -> (r: bool)
        ensures
            r == match old(self).spec_last_check_time() {
                Some(t) => lies_secs_before(t, ts, old(self).spec_check_interval() as int, false),
                None => false,
            },
            *final(self) == old(self).with_last_check_time(Some(ts)),
    {
        let previous = self.last_check_time;
        self.last_check_time = Some(ts);
        match previous {
            Some(last_check_time) => match ts.checked_duration_since(last_check_time) {
                Some(dur) => dur.at_least_secs(self.check_interval),
                None => false,
            },
            None => false,
        }
    }

    /// Whether the socket was closed by the remote end at least the read
    /// timeout before `ts`, so that its slot may be reused.
    pub fn recycle(&self, ts: Instant<FREQ_HZ>) -> (r: bool)
        ensures
            r == match (self.spec_read_timeout(), self.spec_closed_time()) {
                (Some(timeout), Some(t)) => lies_secs_before(t, ts, timeout as int, false),
                _ => false,
            },
    {
        match self.read_timeout {
            Some(read_timeout) => match self.closed_time {
                Some(closed_time) => match ts.checked_duration_since(closed_time) {
                    Some(dur) => dur.at_least_secs(read_timeout),
                    None => false,
                },
                None => false,
            },
            None => false,
        }
    }

    /// Note that the remote end closed the socket at `ts`.
    pub fn closed_by_remote(&mut self, ts: Instant<FREQ_HZ>)
        ensures
            *final(self) == old(self).with_closed_time(Some(ts)),
    {
        self.closed_time = Some(ts);
    }

    /// Set available data.
    pub fn set_available_data(&mut self, available_data: usize)
        ensures
            *final(self) == old(self).with_available_data(available_data),
    {
        self.available_data = available_data;
    }

    /// Get the number of bytes available to ingress.
    pub fn get_available_data(&self) -> (r: usize)
        ensures
            r == self.spec_available_data(),
    {
        self.available_data
    }

    /// The free space of the receive buffer.
    pub fn rx_window(&self) -> (r: usize)
        requires
            self.wf(),
        ensures
            r == L - self.rx()@.len(),
    {
        self.rx_buffer.window()
    }

    /// Bind the socket to the given endpoint.
    ///
    /// This function returns `Err(Error::Illegal)` if the socket was open
    /// (see [is_open](#method.is_open)), and `Err(Error::Unaddressable)`
    /// if the port in the given endpoint is zero.
    pub fn bind(&mut self, endpoint: SocketAddr) -> (r: Result<(), Error>)
        ensures
            old(self).spec_is_open() ==> r == Err::<(), Error>(Error::Illegal) && *final(self) == *old(self),
            !old(self).spec_is_open() && endpoint.spec_port() == 0 ==> r == Err::<(), Error>(
                Error::Unaddressable,
            ) && *final(self) == *old(self),
            !old(self).spec_is_open() && endpoint.spec_port() != 0 ==> r is Ok && *final(self) == old(self).with_endpoint(endpoint),
    {
        if self.is_open() {
            return Err(Error::Illegal);
        }
        if endpoint.port() == 0 {
            return Err(Error::Unaddressable);
        }
        self.endpoint = endpoint;
        Ok(())
    }

    /// Check whether the socket is open.
    pub fn is_open(&self) -> (r: bool)
        ensures
            r == self.spec_is_open(),
    {
        self.endpoint.port() != 0
    }

    /// Check whether the receive buffer is not full.
    pub fn can_recv(&self) -> (r: bool)
        requires
            self.wf(),
        ensures
            r == (self.rx()@.len() < L),
    {
        !self.rx_buffer.is_full()
    }

    /// Call `f` with the largest contiguous slice of octets in the receive
    /// buffer, and dequeue the amount of octets returned by `f`.
    ///
    /// This function returns `Err(Error::Illegal)` if the socket is not open,
    /// and `Err(Error::Exhausted)` if the receive buffer is empty.
    pub fn recv<R, F>(&mut self, f: F) -> (r: Result<R, Error>)
        where
            F: FnOnce(&mut [u8]) -> (usize, R),
        requires
            old(self).wf(),
            forall|x: &mut [u8]| #[trigger] f.requires((x,)),
            forall|x: &mut [u8], out: (usize, R)| #[trigger] f.ensures((x,), out) ==> out.0 <= x@.len(),
        ensures
            !old(self).spec_is_open() ==> r == Err::<R, Error>(Error::Illegal) && *final(self) == *old(self),
            old(self).spec_is_open() && old(self).rx()@.len() == 0 ==> r == Err::<R, Error>(Error::Exhausted)
                && *final(self) == *old(self),
            old(self).spec_is_open() && old(self).rx()@.len() > 0 ==> r is Ok && exists|x: &mut [u8], out: (usize, R)|
                {
                    &&& out.1 == r->Ok_0
                    &&& x@ == old(self).rx()@.subrange(0, old(self).rx().dequeue_window())
                    &&& #[trigger] f.ensures((x,), out)
                    &&& final(self).rx().count() == old(self).rx().count() - out.0
                    &&& final(x)@.len() == x@.len() ==> final(self).wf() && final(self).rx()@
                        == final(x)@.subrange(out.0 as int, x@.len() as int) + old(self).rx()@.subrange(
                        old(self).rx().dequeue_window(),
                        old(self).rx()@.len() as int,
                    )
                },
            final(self).spec_handle() == old(self).spec_handle(),
            final(self).spec_endpoint() == old(self).spec_endpoint(),
    {
        if !self.is_open() {
            return Err(Error::Illegal);
        }
        if self.rx_buffer.is_empty() {
            return Err(Error::Exhausted);
        }
        let pair = self.rx_buffer.dequeue_many_with(f);
        let (_size, result) = pair;
        Ok(result)
    }

    /// Dequeue received octets into the given slice, as many as fit, and
    /// return their number.
    ///
    /// This function returns `Err(Error::Illegal)` if the socket is not open.
    pub fn recv_slice(&mut self, data: &mut [u8]) -> (r: Result<usize, Error>)
        requires
            old(self).wf(),
        ensures
            final(self).wf(),
            !old(self).spec_is_open() ==> r == Err::<usize, Error>(Error::Illegal) && *final(self)
                == *old(self) && final(data)@ == old(data)@,
            old(self).spec_is_open() ==> {
                let n = if old(data)@.len() <= old(self).rx()@.len() {
                    old(data)@.len() as int
                } else {
                    old(self).rx()@.len() as int
                };
                &&& r == Ok::<usize, Error>(n as usize)
                &&& final(data)@ == old(self).rx()@.subrange(0, n) + old(data)@.subrange(
                    n,
                    old(data)@.len() as int,
                )
                &&& final(self).rx()@ == old(self).rx()@.subrange(n, old(self).rx()@.len() as int)
                &&& *final(self) == old(self).with_rx(final(self).rx())
            },
    {
        if !self.is_open() {
            return Err(Error::Illegal);
        }
        let size = self.rx_buffer.dequeue_slice(data);
        Ok(size)
    }

    /// Enqueue received octets into the receive buffer, as many as fit, and
    /// return how many did.
    pub fn rx_enqueue_slice(&mut self, data: &[u8]) -> (r: usize)
        requires
            old(self).wf(),
        ensures
            final(self).wf(),
            r == (if data@.len() <= L - old(self).rx()@.len() {
                data@.len() as int
            } else {
                L - old(self).rx()@.len()
            }),
            final(self).rx()@ == old(self).rx()@ + data@.subrange(0, r as int),
            *final(self) == old(self).with_rx(final(self).rx()),
    {
        self.rx_buffer.enqueue_slice(data)
    }

    /// Peek at the received octets, as many as lie contiguously up to `size`,
    /// without removing them from the receive buffer.
    ///
    /// This function returns `Err(Error::Illegal)` if the socket is not open,
    /// and `Err(Error::Exhausted)` if the receive buffer is empty.
    pub fn peek(&mut self, size: usize) -> (r: Result<&[u8], Error>)
        requires
            old(self).wf(),
        ensures
            *final(self) == *old(self),
            !old(self).spec_is_open() ==> r is Err && r->Err_0 == Error::Illegal,
            old(self).spec_is_open() && old(self).rx()@.len() == 0 ==> r is Err && r->Err_0 == Error::Exhausted,
            old(self).spec_is_open() && old(self).rx()@.len() > 0 ==> r is Ok && r->Ok_0@.len() == old(self).rx().allocated_run(
                0,
                size as int,
            ) && r->Ok_0@ == old(self).rx()@.subrange(0, r->Ok_0@.len() as int),
    {
        if !self.is_open() {
            return Err(Error::Illegal);
        }
        if self.rx_buffer.is_empty() {
            return Err(Error::Exhausted);
        }
        Ok(self.rx_buffer.get_allocated(0, size))
    }

    /// Peek at the received octets and copy as many as lie contiguously into
    /// the given slice, without removing them from the receive buffer.
    ///
    /// This function returns `Err(Error::Illegal)` if the socket is not open,
    /// and `Err(Error::Exhausted)` if the receive buffer is empty.
    pub fn peek_slice(&mut self, data: &mut [u8]) -> (r: Result<usize, Error>)
        requires
            old(self).wf(),
        ensures
            *final(self) == *old(self),
            !old(self).spec_is_open() ==> r == Err::<usize, Error>(Error::Illegal) && final(data)@ == old(
                data,
            )@,
            old(self).spec_is_open() && old(self).rx()@.len() == 0 ==> r == Err::<usize, Error>(Error::Exhausted)
                && final(data)@ == old(data)@,
            old(self).spec_is_open() && old(self).rx()@.len() > 0 ==> {
                let n = old(self).rx().allocated_run(0, old(data)@.len() as int);
                &&& r == Ok::<usize, Error>(n as usize)
                &&& final(data)@ == old(self).rx()@.subrange(0, n) + old(data)@.subrange(
                    n,
                    old(data)@.len() as int,
                )
            },
    {
        let buffer = match self.peek(data.len()) {
            Ok(b) => b,
            Err(e) => {
                return Err(e);
            },
        };
        let length = if data.len() <= buffer.len() {
            data.len()
        } else {
            buffer.len()
        };
        let ghost orig = data@;
        let mut k: usize = 0;
        while k < length
            invariant
                0 <= k <= length,
                length <= buffer@.len(),
                length <= orig.len(),
                data@.len() == orig.len(),
                forall|j: int| k <= j < orig.len() ==> data@[j] == orig[j],
                forall|j: int| 0 <= j < k ==> data@[j] == buffer@[j],
            decreases length - k,
        {
            data[k] = buffer[k];
            k = k + 1;
        }
        assert(data@ =~= buffer@.subrange(0, length as int) + orig.subrange(length as int, orig.len() as int));
        Ok(length)
    }

    /// Close the socket: its endpoint loses its port.
    pub fn close(&mut self)
        ensures
            *final(self) == old(self).with_endpoint(old(self).spec_endpoint().with_port(0)),
            !final(self).spec_is_open(),
            final(self).spec_handle() == old(self).spec_handle(),
            final(self).wf() == old(self).wf(),
    {
        self.endpoint.set_port(0);
    }
}

impl<const FREQ_HZ: u32, const L: usize> UdpSocket<FREQ_HZ, L> {
    /// Decide what to ask the module for this socket's incoming data at
    /// `now`. Only when no data is known to wait is the poll check made
    /// (and noted, as [should_update_available_data](#method.should_update_available_data) notes it).
    pub fn plan_ingress(&mut self, now: Instant<FREQ_HZ>) -> (r: Result<IngressPlan, DataError>)
        requires
            old(self).wf(),
        ensures
            final(self).wf(),
            old(self).spec_available_data() == 0 ==> {
                &&& *final(self) == old(self).with_last_check_time(Some(now))
                &&& r == Ok::<IngressPlan, DataError>(
                    if (match old(self).spec_last_check_time() {
                        Some(t) => lies_secs_before(t, now, old(self).spec_check_interval() as int, false),
                        None => false,
                    }) {
                        IngressPlan::Poll
                    } else {
                        IngressPlan::Idle
                    },
                )
            },
            old(self).spec_available_data() > 0 ==> {
                &&& *final(self) == *old(self)
                &&& old(self).rx()@.len() == L ==> r == Err::<IngressPlan, DataError>(DataError::BufferFull)
                &&& old(self).rx()@.len() < L ==> r == Ok::<IngressPlan, DataError>(
                    IngressPlan::Read(read_length(old(self).spec_available_data(), (L - old(self).rx()@.len()) as usize)),
                )
            },
    {
        let available = self.available_data;
        if available == 0 {
            let due = self.should_update_available_data(now);
            return plan_ingress(0, due, true, 0);
        }
        plan_ingress(available, false, self.can_recv(), self.rx_window())
    }

    /// Take in the module's reply to a read of this socket's data: the
    /// handle it names, the length it gives and the data as hexadecimal text.
    /// A reply for another socket is refused; a length of 0 means nothing
    /// more waits; the text must hold `length` bytes (when `length` is not 0)
    /// in hexadecimal, and the decoded bytes go into the receive buffer, as
    /// many as fit.
    pub fn ingest(&mut self, reply_socket: Handle, length: usize, data: Option<Vec<u8>>) -> (r: Result<(), DataError>)
        requires
            old(self).wf(),
        ensures
            final(self).wf(),
            reply_socket != old(self).spec_handle() ==> r == Err::<(), DataError>(DataError::WrongSocketType)
                && *final(self) == *old(self),
            reply_socket == old(self).spec_handle() ==> ({
                let s1 = if length == 0 {
                    old(self).with_available_data(0)
                } else {
                    *old(self)
                };
                match data {
                    None => r == Err::<(), DataError>(DataError::Socket(Error::Exhausted)) && *final(self) == s1,
                    Some(d) => if length > 0 && d@.len() / 2 != length {
                        r == Err::<(), DataError>(DataError::BadLength) && *final(self) == s1
                    } else if d@.len() % 2 != 0 || !all_hex_digits(d@) {
                        r == Err::<(), DataError>(DataError::InvalidHex) && *final(self) == s1
                    } else {
                        let bytes = decode_hex(d@);
                        let n = if bytes.len() <= L - s1.rx()@.len() {
                            bytes.len() as int
                        } else {
                            L - s1.rx()@.len()
                        };
                        &&& r is Ok
                        &&& final(self).rx()@ == s1.rx()@ + bytes.subrange(0, n)
                        &&& *final(self) == s1.with_rx(final(self).rx())
                    },
                }
            }),
    {
        if reply_socket != self.handle {
            return Err(DataError::WrongSocketType);
        }
        if length == 0 {
            self.set_available_data(0);
        }
        match data {
            Some(mut d) => {
                if length > 0 && d.len() / 2 != length {
                    return Err(DataError::BadLength);
                }
                let ghost text = d@;
                let decoded = match from_hex(d.as_mut_slice()) {
                    Ok(bytes) => bytes,
                    Err(_) => {
                        return Err(DataError::InvalidHex);
                    },
                };
                assert(decoded@ == decode_hex(text));
                self.rx_enqueue_slice(decoded);
                Ok(())
            },
            None => Err(DataError::Socket(Error::Exhausted)),
        }
    }
}

impl<const FREQ_HZ: u32, const L: usize> UdpSocket<FREQ_HZ, L> {
    /// Noting the data available or the closing instant leaves the socket's
    /// handle and buffer as they are.
    pub proof fn lemma_notes_keep_the_socket(self, n: usize, t: Option<Instant<FREQ_HZ>>)
        ensures
            self.with_available_data(n).spec_handle() == self.spec_handle(),
            self.with_available_data(n).rx() == self.rx(),
            self.with_closed_time(t).spec_handle() == self.spec_handle(),
            self.with_closed_time(t).rx() == self.rx(),
            self.with_available_data(n).spec_available_data() == n,
            self.with_closed_time(t).spec_closed_time() == t,
    {
    }
}

} // verus!
