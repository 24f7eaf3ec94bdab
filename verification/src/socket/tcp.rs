//! TCP sockets: the connection state and the receive buffer.

use super::endpoint::SocketAddr;
use super::ring_buffer::RingBuffer;
use super::{Error, Handle};
use crate::hex::{all_hex_digits, decode_hex, from_hex};
use crate::network::lies_secs_before;
use crate::services::data::ingress::{plan_ingress, IngressPlan, read_length};
use crate::services::data::Error as DataError;
use crate::time::Instant;
use vstd::prelude::*;

verus! {

/// The state of a TCP connection.
#[derive(Debug, PartialEq, Eq, Clone, Copy, Structural)]
pub enum State {
    /// Made on the module by the client stack, and not connected yet.
    Created,
    Closed,
    Listen,
    Established,
    CloseWait,
    TimeWait,
}

impl Default for State {
    fn default() -> (r: Self)
        ensures
            r == State::Closed,
    {
        State::Closed
    }
}

/// The data received from the remote end can still be taken: the connection
/// is established, or there is data in the receive buffer.
pub open spec fn spec_may_recv<const L: usize>(state: State, rx: RingBuffer<u8, L>) -> bool {
    state == State::Established || rx@.len() > 0
}

/// A Transmission Control Protocol socket.
///
/// A TCP socket may passively listen for connections or actively connect to another endpoint.
pub struct TcpSocket<const FREQ_HZ: u32, const L: usize> {
    handle: Handle,
    state: State,
    remote: Option<SocketAddr>,
    check_interval: u32,
    available_data: usize,
    rx_buffer: RingBuffer<u8, L>,
    last_check_time: Option<Instant<FREQ_HZ>>,
}

impl<const FREQ_HZ: u32, const L: usize> TcpSocket<FREQ_HZ, L> {
    /// The remote end that the socket was connected to, if any.
    pub closed spec fn spec_remote(&self) -> Option<SocketAddr> {
        self.remote
    }

    /// How often, in seconds, the module is asked for data when no URC told of any.
    pub closed spec fn spec_check_interval(&self) -> u32 {
        self.check_interval
    }

    /// How many bytes the module holds for this socket.
    pub closed spec fn spec_available_data(&self) -> usize {
        self.available_data
    }

    pub closed spec fn spec_last_check_time(&self) -> Option<Instant<FREQ_HZ>> {
        self.last_check_time
    }

    /// The socket with its last check instant replaced.
    pub closed spec fn with_last_check_time(self, t: Option<Instant<FREQ_HZ>>) -> Self {
        TcpSocket { last_check_time: t, ..self }
    }

    /// The socket with its count of available bytes replaced.
    pub closed spec fn with_available_data(self, n: usize) -> Self {
        TcpSocket { available_data: n, ..self }
    }

    /// The socket with its receive buffer replaced.
    pub closed spec fn with_rx(self, rx: RingBuffer<u8, L>) -> Self {
        TcpSocket { rx_buffer: rx, ..self }
    }

    /// The socket connected to `remote`.
    pub closed spec fn connected_to(self, remote: SocketAddr) -> Self {
        TcpSocket { state: State::Established, remote: Some(remote), ..self }
    }

    pub closed spec fn spec_handle(&self) -> Handle {
        self.handle
    }

    pub closed spec fn spec_state(&self) -> State {
        self.state
    }

    /// The socket in the state `state`, all else kept.
    pub closed spec fn with_state(self, state: State) -> Self {
        TcpSocket { state, ..self }
    }

    /// The socket is open: not in the `CLOSED` or `TIME-WAIT` states.
    pub open spec fn spec_is_open(&self) -> bool {
        !(self.spec_state() == State::Closed || self.spec_state() == State::TimeWait)
    }

    /// The receive buffer.
    pub closed spec fn rx(&self) -> RingBuffer<u8, L> {
        self.rx_buffer
    }

    pub open spec fn wf(&self) -> bool {
        self.rx().wf()
    }

    /// Create a socket using the given buffers.
    pub fn new(socket_id: u8) -> (r: TcpSocket<FREQ_HZ, L>)
        requires
            L <= usize::MAX / 2,
        ensures
            r.wf(),
            r.spec_handle() == Handle(socket_id),
            r.spec_state() == State::Closed,
            r.rx()@ == Seq::<u8>::empty(),
            r.spec_remote() is None,
            r.spec_check_interval() == 15,
            r.spec_available_data() == 0,
            r.spec_last_check_time() is None,
    {
        TcpSocket {
            handle: Handle(socket_id),
            state: State::Closed,
            remote: None,
            check_interval: 15,
            available_data: 0,
            rx_buffer: RingBuffer::new(),
            last_check_time: None,
        }
    }

    /// Return the socket handle.
    pub fn handle(&self) -> (r: Handle)
        ensures
            r == self.spec_handle(),
    {
        self.handle
    }

    /// Return the connection state, in terms of the TCP state machine.
    pub fn state(&self) -> (r: State)
        ensures
            r == self.spec_state(),
    {
        self.state
    }

    /// Close the connection.
    pub fn close(&mut self)
        ensures
            *final(self) == old(self).with_state(State::Closed),
            final(self).spec_state() == State::Closed,
            final(self).spec_handle() == old(self).spec_handle(),
            final(self).rx() == old(self).rx(),
    {
        self.set_state(State::Closed);
    }

    /// Return whether the socket is passively listening for incoming connections.
    pub fn is_listening(&self) -> (r: bool)
        ensures
            r == (self.spec_state() == State::Listen),
    {
        match self.state {
            State::Listen => true,
            _ => false,
        }
    }

    /// Return whether the socket is open: not in the `CLOSED` or `TIME-WAIT` states.
    pub fn is_open(&self) -> (r: bool)
        ensures
            r == !(self.spec_state() == State::Closed || self.spec_state() == State::TimeWait),
    {
        match self.state {
            State::Closed => false,
            State::TimeWait => false,
            _ => true,
        }
    }

    /// Return whether a connection is active: not in the `CLOSED`, `TIME-WAIT`
    /// or `LISTEN` states.
    pub fn is_active(&self) -> (r: bool)
        ensures
            r == !(self.spec_state() == State::Closed || self.spec_state() == State::TimeWait
                || self.spec_state() == State::Listen),
    {
        match self.state {
            State::Closed => false,
            State::TimeWait => false,
            State::Listen => false,
            _ => true,
        }
    }

    /// Return whether the transmit half of the full-duplex connection is open:
    /// in the `ESTABLISHED` or `CLOSE-WAIT` state.
    pub fn may_send(&self) -> (r: bool)
        ensures
            r == (self.spec_state() == State::Established || self.spec_state() == State::CloseWait),
    {
        match self.state {
            State::Established => true,
            // In CLOSE-WAIT, the remote endpoint has closed our receive half of the connection
            // but we still can transmit indefinitely.
            State::CloseWait => true,
            _ => false,
        }
    }

    /// Return whether the receive half of the full-duplex connection is open:
    /// the connection is established, or there is data in the receive buffer.
    pub fn may_recv(&self) -> (r: bool)
        requires
            self.wf(),
        ensures
            r == spec_may_recv(self.spec_state(), self.rx()),
    {
        match self.state {
            State::Established => true,
            // If we have something in the receive buffer, we can receive that.
            _ => !self.rx_buffer.is_empty(),
        }
    }

    /// Check whether the receive half of the full-duplex connection buffer is open
    /// (see [may_recv](#method.may_recv)), and the receive buffer is not full.
    pub fn can_recv(&self) -> (r: bool)
        requires
            self.wf(),
        ensures
            r == (spec_may_recv(self.spec_state(), self.rx()) && self.rx()@.len() < L),
    {
        if !self.may_recv() {
            return false;
        }
        !self.rx_buffer.is_full()
    }

    /// Call `f` with the largest contiguous slice of octets in the receive buffer,
    /// and dequeue the amount of elements returned by `f`.
    ///
    /// This function returns `Err(Error::Illegal)` if the receive half of
    /// the connection is not open; see [may_recv](#method.may_recv).
    pub fn recv<R, F>(&mut self, f: F) -> (r: Result<R, Error>)
        where
            F: FnOnce(&mut [u8]) -> (usize, R),
        requires
            old(self).wf(),
            forall|x: &mut [u8]| #[trigger] f.requires((x,)),
            forall|x: &mut [u8], out: (usize, R)| #[trigger] f.ensures((x,), out) ==> out.0 <= x@.len(),
        ensures
            !spec_may_recv(old(self).spec_state(), old(self).rx()) ==> r == Err::<R, Error>(Error::Illegal)
                && *final(self) == *old(self),
            spec_may_recv(old(self).spec_state(), old(self).rx()) ==> r is Ok && exists|
                x: &mut [u8],
                out: (usize, R),
            |
                {
                    &&& out.1 == r->Ok_0
                    &&& x@ == old(self).rx()@.subrange(0, old(self).rx().dequeue_window())
                    &&& #[trigger] f.ensures((x,), out)
                    &&& final(self).rx().count() == old(self).rx().count() - out.0
                    &&& final(x)@.len() == x@.len() ==> final(self).wf() && final(self).rx()@
                        == final(x)@.subrange(out.0 as int, x@.len() as int) + old(self).rx()@.subrange(
                        old(self).rx().dequeue_window(),
                        old(self).rx()@.len() as int,
                    )
                },
            final(self).spec_state() == old(self).spec_state(),
            final(self).spec_handle() == old(self).spec_handle(),
    {
        // We may have received some data inside the initial SYN, but until the connection
        // is fully open we must not dequeue any data, as it may be overwritten by e.g.
        // another (stale) SYN. (We do not support TCP Fast Open.)
        if !self.may_recv() {
            return Err(Error::Illegal);
        }
        let pair = self.rx_buffer.dequeue_many_with(f);
        let (_size, result) = pair;
        Ok(result)
    }

    /// Call `f` with the octets in the receive buffer, oldest first, and
    /// dequeue the amount of octets returned by `f`.
    ///
    /// If the buffer read wraps around, the second argument of `f` will be
    /// `Some()` with the remainder of the buffer, such that the combined slice
    /// of the two arguments, makes up the full buffer.
    ///
    /// This function returns `Err(Error::Illegal)` if the receive half of the
    /// connection is not open; see [may_recv](#method.may_recv).
    pub fn recv_wrapping<F>(&mut self, f: F) -> (r: Result<usize, Error>)
        where
            F: FnOnce(&[u8], Option<&[u8]>) -> usize,
        requires
            old(self).wf(),
            forall|a: &[u8], b: Option<&[u8]>| #[trigger] f.requires((a, b)),
            forall|a: &[u8], b: Option<&[u8]>, n: usize| #[trigger] f.ensures((a, b), n) ==> n <= a@.len() + (
            match b {
                Some(b) => b@.len() as int,
                None => 0int,
            }),
        ensures
            !spec_may_recv(old(self).spec_state(), old(self).rx()) ==> r == Err::<usize, Error>(Error::Illegal)
                && *final(self) == *old(self),
            spec_may_recv(old(self).spec_state(), old(self).rx()) ==> {
                &&& r is Ok
                &&& final(self).wf()
                &&& final(self).rx()@ == old(self).rx()@.subrange(r->Ok_0 as int, old(self).rx()@.len() as int)
                &&& exists|a: &[u8], b: Option<&[u8]>|
                    {
                        &&& a@ == old(self).rx()@.subrange(0, old(self).rx().dequeue_window())
                        &&& (match b {
                            Some(b) => b@ == old(self).rx()@.subrange(
                                old(self).rx().dequeue_window(),
                                old(self).rx()@.len() as int,
                            ),
                            None => old(self).rx().dequeue_window() == old(self).rx()@.len(),
                        })
                        &&& #[trigger] f.ensures((a, b), r->Ok_0)
                    }
            },
            final(self).spec_state() == old(self).spec_state(),
            final(self).spec_handle() == old(self).spec_handle(),
    {
        if !self.may_recv() {
            return Err(Error::Illegal);
        }
        let g = move |a: &[u8], b: Option<&[u8]>| -> (out: (usize, usize))
            requires
                f.requires((a, b)),
            ensures
                f.ensures((a, b), out.0),
                out.1 == out.0,
            {
                let len = f(a, b);
                (len, len)
            };
        let (_size, result) = self.rx_buffer.dequeue_many_with_wrapping(g);
        Ok(result)
    }

    /// Dequeue a sequence of received octets, and fill a slice from it.
    ///
    /// This function returns the amount of bytes actually dequeued, which is limited
    /// by the amount of octets in the receive buffer; down to zero.
    pub fn recv_slice(&mut self, data: &mut [u8]) -> (r: Result<usize, Error>)
        requires
            old(self).wf(),
        ensures
            final(self).wf(),
            !spec_may_recv(old(self).spec_state(), old(self).rx()) ==> r == Err::<usize, Error>(Error::Illegal)
                && *final(self) == *old(self) && final(data)@ == old(data)@,
            spec_may_recv(old(self).spec_state(), old(self).rx()) ==> {
                let n = if old(data)@.len() <= old(self).rx()@.len() {
                    old(data)@.len() as int
                } else {
                    old(self).rx()@.len() as int
                };
                &&& r == Ok::<usize, Error>(n as usize)
                &&& final(data)@ == old(self).rx()@.subrange(0, n) + old(data)@.subrange(
                    n,
                    old(data)@.len() as int,
                )
                &&& final(self).rx()@ == old(self).rx()@.subrange(n, old(self).rx()@.len() as int)
            },
            final(self).spec_state() == old(self).spec_state(),
            final(self).spec_handle() == old(self).spec_handle(),
    {
        if !self.may_recv() {
            return Err(Error::Illegal);
        }
        let size = self.rx_buffer.dequeue_slice(data);
        Ok(size)
    }

    /// Peek at a sequence of received octets without removing them from
    /// the receive buffer, and return a pointer to it.
    ///
    /// This function otherwise behaves identically to [recv](#method.recv).
    pub fn peek(&mut self, size: usize) -> (r: Result<&[u8], Error>)
        requires
            old(self).wf(),
        ensures
            *final(self) == *old(self),
            !spec_may_recv(old(self).spec_state(), old(self).rx()) ==> r is Err && r->Err_0 == Error::Illegal,
            spec_may_recv(old(self).spec_state(), old(self).rx()) ==> r is Ok && r->Ok_0@.len()
                == old(self).rx().allocated_run(0, size as int) && r->Ok_0@ == old(self).rx()@.subrange(
                0,
                r->Ok_0@.len() as int,
            ),
    {
        // See recv() above.
        if !self.may_recv() {
            return Err(Error::Illegal);
        }
        Ok(self.rx_buffer.get_allocated(0, size))
    }

    /// Peek at a sequence of received octets without removing them from
    /// the receive buffer, and fill a slice from it.
    ///
    /// This function otherwise behaves identically to [recv_slice](#method.recv_slice).
    pub fn peek_slice(&mut self, data: &mut [u8]) -> (r: Result<usize, Error>)
        requires
            old(self).wf(),
        ensures
            *final(self) == *old(self),
            !spec_may_recv(old(self).spec_state(), old(self).rx()) ==> r == Err::<usize, Error>(Error::Illegal)
                && final(data)@ == old(data)@,
            spec_may_recv(old(self).spec_state(), old(self).rx()) ==> {
                let n = old(self).rx().allocated_run(0, old(data)@.len() as int);
                &&& r == Ok::<usize, Error>(n as usize)
                &&& final(data)@ == old(self).rx()@.subrange(0, n) + old(data)@.subrange(
                    n,
                    old(data)@.len() as int,
                )
            },
    {
        let buffer = match self.peek(data.len()) {
            Ok(b) => b,
            Err(e) => {
                return Err(e);
            },
        };
        let n = buffer.len();
        let ghost orig = data@;
        let mut k: usize = 0;
        while k < n
            invariant
                0 <= k <= n,
                n == buffer@.len(),
                n <= orig.len(),
                data@.len() == orig.len(),
                forall|j: int| k <= j < orig.len() ==> data@[j] == orig[j],
                forall|j: int| 0 <= j < k ==> data@[j] == buffer@[j],
            decreases n - k,
        {
            data[k] = buffer[k];
            k = k + 1;
        }
        assert(data@ =~= buffer@ + orig.subrange(n as int, orig.len() as int));
        Ok(n)
    }

    /// Enqueue received octets into the receive buffer, as many as fit, and
    /// return how many did.
    pub fn rx_enqueue_slice(&mut self, data: &[u8]) -> (r: usize)
        requires
            old(self).wf(),
        ensures
            final(self).wf(),
            r == (if data@.len() <= L - old(self).rx()@.len() {
                data@.len() as int
            } else {
                L - old(self).rx()@.len()
            }),
            final(self).rx()@ == old(self).rx()@ + data@.subrange(0, r as int),
            final(self).spec_state() == old(self).spec_state(),
            final(self).spec_handle() == old(self).spec_handle(),
    {
        self.rx_buffer.enqueue_slice(data)
    }

    /// Return the amount of octets queued in the receive buffer.
    pub fn recv_queue(&self) -> (r: usize)
        requires
            self.wf(),
        ensures
            r == self.rx()@.len(),
    {
        self.rx_buffer.len()
    }

    pub fn set_state(&mut self, state: State)
        ensures
            *final(self) == old(self).with_state(state),
            final(self).spec_state() == state,
            final(self).spec_handle() == old(self).spec_handle(),
            final(self).rx() == old(self).rx(),
    {
        self.state = state
    }
}


impl<const FREQ_HZ: u32, const L: usize> TcpSocket<FREQ_HZ, L> {
    /// Whether the socket is connected to a remote end.
    pub fn is_connected(&self) -> (r: bool)
        ensures
            r == (self.spec_state() == State::Established),
    {
        match self.state {
            State::Established => true,
            _ => false,
        }
    }

    /// The remote end that the socket was connected to, if any.
    pub fn remote(&self) -> (r: Option<SocketAddr>)
        ensures
            r == self.spec_remote(),
    {
        self.remote
    }

    /// Note that the socket is connected to `remote`.
    pub fn set_connected(&mut self, remote: SocketAddr)
        ensures
            *final(self) == old(self).connected_to(remote),
            final(self).spec_state() == State::Established,
            final(self).spec_remote() == Some(remote),
            final(self).spec_handle() == old(self).spec_handle(),
            final(self).rx() == old(self).rx(),
    {
        self.state = State::Established;
        self.remote = Some(remote);
    }

    /// Note that the remote end closed the socket: it is closed.
    pub fn closed_by_remote(&mut self)
        ensures
            *final(self) == old(self).with_state(State::Closed),
    {
        self.state = State::Closed;
    }

    /// Note a check for data at `ts`, and return whether the previous check
    /// lies at least the check interval before `ts`.
    pub fn should_update_available_data(&mut self, ts: Instant<FREQ_HZ>) -> (r: bool)
        ensures
            r == match old(self).spec_last_check_time() {
                Some(t) => lies_secs_before(t, ts, old(self).spec_check_interval() as int, false),
                None => false,
            },
            *final(self) == old(self).with_last_check_time(Some(ts)),
    {
        let previous = self.last_check_time;
        self.last_check_time = Some(ts);
        match previous {
            Some(last_check_time) => match ts.checked_duration_since(last_check_time) {
                Some(dur) => dur.at_least_secs(self.check_interval),
                None => false,
            },
            None => false,
        }
    }

    /// Set available data.
    pub fn set_available_data(&mut self, available_data: usize)
        ensures
            *final(self) == old(self).with_available_data(available_data),
    {
        self.available_data = available_data;
    }

    /// Get the number of bytes available to ingress.
    pub fn get_available_data(&self) -> (r: usize)
        ensures
            r == self.spec_available_data(),
    {
        self.available_data
    }

    /// The free space of the receive buffer.
    pub fn rx_window(&self) -> (r: usize)
        requires
            self.wf(),
        ensures
            r == L - self.rx()@.len(),
    {
        self.rx_buffer.window()
    }

    /// Decide what to ask the module for this socket's incoming data at
    /// `now`, as for a UDP socket: only when no data is known to wait is the
    /// poll check made (and noted); when data waits, a read of
    /// [read_length] bytes, or `Err(BufferFull)` if the receive buffer is
    /// full.
    pub fn plan_ingress(&mut self, now: Instant<FREQ_HZ>) -> (r: Result<IngressPlan, DataError>)
        requires
            old(self).wf(),
        ensures
            final(self).wf(),
            old(self).spec_available_data() == 0 ==> {
                &&& *final(self) == old(self).with_last_check_time(Some(now))
                &&& r == Ok::<IngressPlan, DataError>(
                    if (match old(self).spec_last_check_time() {
                        Some(t) => lies_secs_before(t, now, old(self).spec_check_interval() as int, false),
                        None => false,
                    }) {
                        IngressPlan::Poll
                    } else {
                        IngressPlan::Idle
                    },
                )
            },
            old(self).spec_available_data() > 0 ==> {
                &&& *final(self) == *old(self)
                &&& old(self).rx()@.len() == L ==> r == Err::<IngressPlan, DataError>(DataError::BufferFull)
                &&& old(self).rx()@.len() < L ==> r == Ok::<IngressPlan, DataError>(
                    IngressPlan::Read(read_length(old(self).spec_available_data(), (L - old(self).rx()@.len()) as usize)),
                )
            },
    {
        let available = self.available_data;
        if available == 0 {
            let due = self.should_update_available_data(now);
            return plan_ingress(0, due, true, 0);
        }
        plan_ingress(available, false, !self.rx_buffer.is_full(), self.rx_window())
    }

    /// Take in the module's reply to a read of this socket's data (`+USORD`),
    /// as for a UDP socket: a reply for another socket is refused; a length
    /// of 0 means nothing more waits; the text must hold `length` bytes
    /// (when `length` is not 0) in hexadecimal, and the decoded bytes go into
    /// the receive buffer, as many as fit.
    pub fn ingest(&mut self, reply_socket: Handle, length: usize, data: Option<Vec<u8>>) -> (r: Result<(), DataError>)
        requires
            old(self).wf(),
        ensures
            final(self).wf(),
            reply_socket != old(self).spec_handle() ==> r == Err::<(), DataError>(DataError::WrongSocketType)
                && *final(self) == *old(self),
            reply_socket == old(self).spec_handle() ==> ({
                let s1 = if length == 0 {
                    old(self).with_available_data(0)
                } else {
                    *old(self)
                };
                match data {
                    None => r == Err::<(), DataError>(DataError::Socket(Error::Exhausted)) && *final(self) == s1,
                    Some(d) => if length > 0 && d@.len() / 2 != length {
                        r == Err::<(), DataError>(DataError::BadLength) && *final(self) == s1
                    } else if d@.len() % 2 != 0 || !all_hex_digits(d@) {
                        r == Err::<(), DataError>(DataError::InvalidHex) && *final(self) == s1
                    } else {
                        let bytes = decode_hex(d@);
                        let n = if bytes.len() <= L - s1.rx()@.len() {
                            bytes.len() as int
                        } else {
                            L - s1.rx()@.len()
                        };
                        &&& r is Ok
                        &&& final(self).rx()@ == s1.rx()@ + bytes.subrange(0, n)
                        &&& *final(self) == s1.with_rx(final(self).rx())
                    },
                }
            }),
    {
        if reply_socket != self.handle {
            return Err(DataError::WrongSocketType);
        }
        if length == 0 {
            self.set_available_data(0);
        }
        match data {
            Some(mut d) => {
                if length > 0 && d.len() / 2 != length {
                    return Err(DataError::BadLength);
                }
                let ghost text = d@;
                let decoded = match from_hex(d.as_mut_slice()) {
                    Ok(bytes) => bytes,
                    Err(_) => {
                        return Err(DataError::InvalidHex);
                    },
                };
                assert(decoded@ == decode_hex(text));
                self.rx_buffer.enqueue_slice(decoded);
                Ok(())
            },
            None => Err(DataError::Socket(Error::Exhausted)),
        }
    }
}


impl<const FREQ_HZ: u32, const L: usize> TcpSocket<FREQ_HZ, L> {
    /// Noting the data available or a new state leaves the socket's handle
    /// and buffer as they are.
    pub proof fn lemma_notes_keep_the_socket(self, n: usize, state: State)
        ensures
            self.with_available_data(n).spec_handle() == self.spec_handle(),
            self.with_available_data(n).rx() == self.rx(),
            self.with_state(state).spec_handle() == self.spec_handle(),
            self.with_state(state).rx() == self.rx(),
            self.with_available_data(n).spec_available_data() == n,
            self.with_state(state).spec_state() == state,
    {
    }
}

} // verus!
