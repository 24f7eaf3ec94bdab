//! A fixed number of socket slots, each holding at most one socket.

use super::ref_::Ref;
use super::tcp::{State, TcpSocket};
use super::udp::UdpSocket;
use crate::command::Urc;
use crate::time::Instant;
use super::{AnySocket, Error, Handle, Socket, SocketType};
use vstd::prelude::*;

verus! {

/// An item of a socket set: a socket and its reference count.
pub struct Item<const FREQ_HZ: u32, const L: usize> {
    pub socket: Socket<FREQ_HZ, L>,
    pub refs: usize,
}

/// The number of occupied slots in `s`.
pub open spec fn occupied<const FREQ_HZ: u32, const L: usize>(s: Seq<Option<Item<FREQ_HZ, L>>>) -> nat
    decreases s.len(),
{
    if s.len() == 0 {
        0
    } else {
        occupied(s.drop_last()) + if s.last() is Some {
            1nat
        } else {
            0nat
        }
    }
}

/// The handle of the socket in slot `i` of `s`.
pub open spec fn handle_at<const FREQ_HZ: u32, const L: usize>(s: Seq<Option<Item<FREQ_HZ, L>>>, i: int) -> Handle {
    s[i]->Some_0.socket.spec_handle()
}

/// The handles of the sockets in the occupied slots of `s`, in slot order.
pub open spec fn handles_of<const FREQ_HZ: u32, const L: usize>(s: Seq<Option<Item<FREQ_HZ, L>>>) -> Seq<Handle>
    decreases s.len(),
{
    if s.len() == 0 {
        Seq::empty()
    } else {
        handles_of(s.drop_last()) + match s.last() {
            Some(item) => seq![item.socket.spec_handle()],
            None => Seq::empty(),
        }
    }
}

/// The sockets in the occupied slots of `s`, in slot order.
pub open spec fn sockets_of<const FREQ_HZ: u32, const L: usize>(s: Seq<Option<Item<FREQ_HZ, L>>>) -> Seq<Socket<FREQ_HZ, L>>
    decreases s.len(),
{
    if s.len() == 0 {
        Seq::empty()
    } else {
        sockets_of(s.drop_last()) + match s.last() {
            Some(item) => seq![item.socket],
            None => Seq::empty(),
        }
    }
}

/// The slot `i` of `s` holds a socket with handle `h`.
pub open spec fn holds<const FREQ_HZ: u32, const L: usize>(
    s: Seq<Option<Item<FREQ_HZ, L>>>,
    i: int,
    h: Handle,
) -> bool {
    0 <= i < s.len() && s[i] is Some && handle_at(s, i) == h
}

/// No two occupied slots of `s` hold sockets with the same handle.
pub open spec fn unique_handles<const FREQ_HZ: u32, const L: usize>(s: Seq<Option<Item<FREQ_HZ, L>>>) -> bool {
    forall|i: int, j: int|
        #![trigger s[i], s[j]]
        0 <= i < s.len() && 0 <= j < s.len() && i != j && s[i] is Some && s[j] is Some ==> handle_at(s, i)
            != handle_at(s, j)
}

/// The socket that a URC is about, if it is about one.
pub open spec fn urc_socket(urc: Urc) -> Option<Handle> {
    match urc {
        Urc::SocketDataAvailable(d) => Some(d.socket),
        Urc::SocketDataAvailableUDP(d) => Some(d.socket),
        Urc::SocketClosed(c) => Some(c.socket),
        _ => None,
    }
}

/// What a socket URC, received at `now`, does to the UDP socket it is
/// about: a notice of data notes how many bytes wait; a close by the remote
/// end notes when it happened.
pub open spec fn udp_after_urc<const FREQ_HZ: u32, const L: usize>(
    u: UdpSocket<FREQ_HZ, L>,
    urc: Urc,
    now: Instant<FREQ_HZ>,
) -> UdpSocket<FREQ_HZ, L> {
    match urc {
        Urc::SocketDataAvailable(d) => u.with_available_data(d.length),
        Urc::SocketDataAvailableUDP(d) => u.with_available_data(d.length),
        Urc::SocketClosed(_) => u.with_closed_time(Some(now)),
        _ => u,
    }
}

/// What pruning does to a slot: a socket without references is closed if
/// it is open, and removed if it is closed; a socket with references, and
/// an empty slot, stay as they are.
pub open spec fn pruned<const FREQ_HZ: u32, const L: usize>(slot: Option<Item<FREQ_HZ, L>>) -> Option<Item<FREQ_HZ, L>> {
    match slot {
        Some(item) => if item.refs == 0 {
            if item.socket.spec_is_open() {
                Some(Item { socket: item.socket.spec_closed(), refs: 0 })
            } else {
                None
            }
        } else {
            Some(item)
        },
        None => None,
    }
}

/// What a socket URC does to the TCP socket it is about: a notice of data
/// notes how many bytes wait; a close by the remote end closes it.
pub open spec fn tcp_after_urc<const FREQ_HZ: u32, const L: usize>(t: TcpSocket<FREQ_HZ, L>, urc: Urc) -> TcpSocket<FREQ_HZ, L> {
    match urc {
        Urc::SocketDataAvailable(d) => t.with_available_data(d.length),
        Urc::SocketDataAvailableUDP(d) => t.with_available_data(d.length),
        Urc::SocketClosed(_) => t.with_state(State::Closed),
        _ => t,
    }
}

/// A socket URC lands on the socket it names: after a notice of data of
/// either kind (`+UUSORD`, `+UUSORF`), a UDP or TCP socket has as much data
/// available as the notice reports; after a close by the remote end, a UDP
/// socket notes the instant and a TCP socket is closed. The socket keeps its
/// handle and its received data.
pub proof fn lemma_urc_lands<const FREQ_HZ: u32, const L: usize>(
    u: UdpSocket<FREQ_HZ, L>,
    t: TcpSocket<FREQ_HZ, L>,
    urc: Urc,
    now: Instant<FREQ_HZ>,
)
    ensures
        match urc {
            Urc::SocketDataAvailable(d) => udp_after_urc(u, urc, now).spec_available_data() == d.length
                && tcp_after_urc(t, urc).spec_available_data() == d.length,
            Urc::SocketDataAvailableUDP(d) => udp_after_urc(u, urc, now).spec_available_data() == d.length
                && tcp_after_urc(t, urc).spec_available_data() == d.length,
            Urc::SocketClosed(_) => udp_after_urc(u, urc, now).spec_closed_time() == Some(now)
                && tcp_after_urc(t, urc).spec_state() == State::Closed,
            _ => udp_after_urc(u, urc, now) == u && tcp_after_urc(t, urc) == t,
        },
        udp_after_urc(u, urc, now).spec_handle() == u.spec_handle(),
        udp_after_urc(u, urc, now).rx() == u.rx(),
        tcp_after_urc(t, urc).spec_handle() == t.spec_handle(),
        tcp_after_urc(t, urc).rx() == t.rx(),
{
    match urc {
        Urc::SocketDataAvailable(d) => {
            u.lemma_notes_keep_the_socket(d.length, None);
            t.lemma_notes_keep_the_socket(d.length, State::Closed);
        },
        Urc::SocketDataAvailableUDP(d) => {
            u.lemma_notes_keep_the_socket(d.length, None);
            t.lemma_notes_keep_the_socket(d.length, State::Closed);
        },
        Urc::SocketClosed(_) => {
            u.lemma_notes_keep_the_socket(0, Some(now));
            t.lemma_notes_keep_the_socket(0, State::Closed);
        },
        _ => {},
    }
}

/// An extensible set of sockets, with `N` slots.
pub struct SocketSet<const N: usize, const FREQ_HZ: u32, const L: usize> {
    sockets: Vec<Option<Item<FREQ_HZ, L>>>,
}

impl<const N: usize, const FREQ_HZ: u32, const L: usize> SocketSet<N, FREQ_HZ, L> {
    /// The slots, in order.
    pub closed spec fn slots(&self) -> Seq<Option<Item<FREQ_HZ, L>>> {
        self.sockets@
    }

    /// `N` slots; no two sockets share a handle; every socket is well formed.
    pub open spec fn wf(&self) -> bool {
        &&& self.slots().len() == N
        &&& unique_handles(self.slots())
        &&& forall|i: int| 0 <= i < N && #[trigger] self.slots()[i] is Some ==> self.slots()[i]->Some_0.socket.wf()
    }

    /// Some slot holds a socket with handle `h`.
    pub open spec fn contains(&self, h: Handle) -> bool {
        exists|i: int| holds(self.slots(), i, h)
    }

    /// Create a socket set with `N` empty slots.
    pub fn new() -> (r: Self)
        ensures
            r.wf(),
            forall|i: int| 0 <= i < N ==> r.slots()[i] is None,
    {
        let mut sockets: Vec<Option<Item<FREQ_HZ, L>>> = Vec::new();
        while sockets.len() < N
            invariant
                sockets@.len() <= N,
                forall|i: int| 0 <= i < sockets@.len() ==> sockets@[i] is None,
            decreases N - sockets@.len(),
        {
            sockets.push(None);
        }
        SocketSet { sockets }
    }

    /// Get the maximum number of sockets the set can hold
    pub fn capacity(&self) -> (r: usize)
        ensures
            r == N,
    {
        N
    }

    /// Get the current number of initialized sockets, the set is holding
    pub fn len(&self) -> (r: usize)
        requires
            self.wf(),
        ensures
            r == occupied(self.slots()),
    {
        let mut n: usize = 0;
        let mut i: usize = 0;
        while i < self.sockets.len()
            invariant
                0 <= i <= self.sockets@.len(),
                n == occupied(self.slots().subrange(0, i as int)),
                n <= i,
            decreases self.sockets@.len() - i,
        {
            assert(self.slots().subrange(0, i + 1).drop_last() =~= self.slots().subrange(0, i as int));
            if self.sockets[i].is_some() {
                n = n + 1;
            }
            i = i + 1;
        }
        assert(self.slots().subrange(0, i as int) =~= self.slots());
        n
    }

    /// Check if the set is currently holding no active sockets
    pub fn is_empty(&self) -> (r: bool)
        requires
            self.wf(),
        ensures
            r == (occupied(self.slots()) == 0),
    {
        self.len() == 0
    }

    /// The index of the slot that holds the socket with the given handle.
    pub fn index_of(&self, handle: Handle) -> (r: Result<usize, Error>)
        requires
            self.wf(),
        ensures
            match r {
                Ok(i) => holds(self.slots(), i as int, handle),
                Err(e) => e == Error::InvalidSocket && !self.contains(handle),
            },
    {
        let mut i: usize = 0;
        while i < self.sockets.len()
            invariant
                0 <= i <= self.sockets@.len(),
                forall|j: int| 0 <= j < i ==> !holds(self.slots(), j, handle),
            decreases self.sockets@.len() - i,
        {
            match &self.sockets[i] {
                Some(item) => {
                    if item.socket.handle() == handle {
                        return Ok(i);
                    }
                },
                None => {},
            }
            i = i + 1;
        }
        Err(Error::InvalidSocket)
    }

    /// Get the type of a specific socket in the set.
    pub fn socket_type(&self, handle: Handle) -> (r: Option<SocketType>)
        requires
            self.wf(),
        ensures
            !self.contains(handle) ==> r is None,
            forall|i: int| holds(self.slots(), i, handle) ==> r == Some(self.slots()[i]->Some_0.socket.spec_type()),
    {
        match self.index_of(handle) {
            Ok(index) => match &self.sockets[index] {
                Some(item) => Some(item.socket.get_type()),
                None => None,
            },
            Err(_) => None,
        }
    }

    /// Add a socket to the set with the reference count 1, and return its handle.
    pub fn add(&mut self, socket: Socket<FREQ_HZ, L>) -> (r: Result<Handle, Error>)
        requires
            old(self).wf(),
            socket.wf(),
        ensures
            final(self).wf(),
            old(self).contains(socket.spec_handle()) ==> r == Err::<Handle, Error>(Error::DuplicateSocket)
                && final(self).slots() == old(self).slots(),
            !old(self).contains(socket.spec_handle()) && (forall|i: int| 0 <= i < N ==> old(self).slots()[i] is Some)
                ==> r == Err::<Handle, Error>(Error::SocketSetFull) && final(self).slots() == old(self).slots(),
            r is Ok ==> r->Ok_0 == socket.spec_handle() && exists|i: int|
                {
                    &&& 0 <= i < N
                    &&& old(self).slots()[i] is None
                    &&& (forall|j: int| 0 <= j < i ==> old(self).slots()[j] is Some)
                    &&& final(self).slots() == old(self).slots().update(i, Some(Item { socket, refs: 1 }))
                },
            !old(self).contains(socket.spec_handle()) && (exists|i: int| 0 <= i < N && old(self).slots()[i] is None)
                ==> r is Ok,
    {
        let handle = socket.handle();
        if self.index_of(handle).is_ok() {
            return Err(Error::DuplicateSocket);
        }
        let mut i: usize = 0;
        while i < self.sockets.len()
            invariant
                *self == *old(self),
                old(self).wf(),
                socket.wf(),
                handle == socket.spec_handle(),
                !old(self).contains(handle),
                0 <= i <= self.sockets@.len(),
                forall|j: int| 0 <= j < i ==> self.slots()[j] is Some,
            decreases self.sockets@.len() - i,
        {
            if self.sockets[i].is_none() {
                self.sockets.set(i, Some(Item { socket, refs: 1 }));
                proof {
                    let s = self.slots();
                    let o = old(self).slots();
                    assert forall|a: int, b: int|
                        #![trigger s[a], s[b]]
                        0 <= a < s.len() && 0 <= b < s.len() && a != b && s[a] is Some && s[b] is Some implies handle_at(s, a)
                        != handle_at(s, b) by {
                        if a == i {
                            assert(!holds(o, b, handle));
                        } else if b == i {
                            assert(!holds(o, a, handle));
                        } else {
                            assert(o[a] == s[a] && o[b] == s[b]);
                        }
                    }
                }
                return Ok(handle);
            }
            i = i + 1;
        }
        Err(Error::SocketSetFull)
    }

    /// Get a socket from the set by its handle, as mutable.
    ///
    /// (The set stays well formed as long as the socket keeps its handle
    /// and stays well formed, which no method of a socket can break.)
    pub fn get<T: AnySocket<FREQ_HZ, L>>(&mut self, handle: Handle) -> (r: Result<Ref<'_, T>, Error>)
        requires
            old(self).wf(),
        ensures
            !old(self).contains(handle) ==> r == Err::<Ref<'_, T>, Error>(Error::InvalidSocket) && *final(self)
                == *old(self),
            forall|i: int| #[trigger]
                holds(old(self).slots(), i, handle) ==> match T::project(old(self).slots()[i]->Some_0.socket) {
                    Some(x) => r is Ok && *r->Ok_0.socket == x && !r->Ok_0.consumed && final(self).slots() == old(self).slots().update(
                        i,
                        Some(
                            Item {
                                socket: T::inject(*final(r->Ok_0.socket)),
                                refs: old(self).slots()[i]->Some_0.refs,
                            },
                        ),
                    ),
                    None => r == Err::<Ref<'_, T>, Error>(Error::Illegal) && final(self).slots() == old(self).slots(),
                },
    {
        let index = match self.index_of(handle) {
            Ok(i) => i,
            Err(e) => {
                return Err(e);
            },
        };
        proof {
            let o = self.slots();
            assert forall|i: int| holds(o, i, handle) implies i == index by {
                if i != index {
                    assert(handle_at(o, i) != handle_at(o, index as int));
                }
            }
        }
        let slot = &mut self.sockets[index];
        match slot {
            Some(item) => match T::downcast(&mut item.socket) {
                Ok(socket) => Ok(Ref::new(socket)),
                Err(e) => Err(e),
            },
            None => Err(Error::InvalidSocket),
        }
    }

    /// Remove a socket from the set, without changing its state.
    pub fn remove(&mut self, handle: Handle) -> (r: Result<Socket<FREQ_HZ, L>, Error>)
        requires
            old(self).wf(),
        ensures
            final(self).wf(),
            !old(self).contains(handle) ==> r == Err::<Socket<FREQ_HZ, L>, Error>(Error::InvalidSocket)
                && final(self).slots() == old(self).slots(),
            forall|i: int| #[trigger]
                holds(old(self).slots(), i, handle) ==> r == Ok::<Socket<FREQ_HZ, L>, Error>(
                    old(self).slots()[i]->Some_0.socket,
                ) && final(self).slots() == old(self).slots().update(i, None),
    {
        let index = match self.index_of(handle) {
            Ok(i) => i,
            Err(e) => {
                return Err(e);
            },
        };
        let mut item: Option<Item<FREQ_HZ, L>> = None;
        self.sockets.set_and_swap(index, &mut item);
        match item {
            Some(item) => Ok(item.socket),
            None => Err(Error::InvalidSocket),
        }
    }

    /// Increase reference count by 1.
    pub fn retain(&mut self, handle: Handle) -> (r: Result<(), Error>)
        requires
            old(self).wf(),
            forall|i: int| #[trigger] holds(old(self).slots(), i, handle) ==> old(self).slots()[i]->Some_0.refs < usize::MAX,
        ensures
            final(self).wf(),
            !old(self).contains(handle) ==> r == Err::<(), Error>(Error::InvalidSocket) && final(self).slots()
                == old(self).slots(),
            forall|i: int| #[trigger]
                holds(old(self).slots(), i, handle) ==> r is Ok && final(self).slots() == old(self).slots().update(
                    i,
                    Some(
                        Item {
                            socket: old(self).slots()[i]->Some_0.socket,
                            refs: (old(self).slots()[i]->Some_0.refs + 1) as usize,
                        },
                    ),
                ),
    {
        let index = match self.index_of(handle) {
            Ok(i) => i,
            Err(e) => {
                return Err(e);
            },
        };
        let mut slot: Option<Item<FREQ_HZ, L>> = None;
        self.sockets.set_and_swap(index, &mut slot);
        match slot {
            Some(item) => {
                self.sockets.set(index, Some(Item { socket: item.socket, refs: item.refs + 1 }));
                Ok(())
            },
            None => Err(Error::InvalidSocket),
        }
    }

    /// Decrease reference count by 1; `Err(Error::Illegal)` if it is 0.
    pub fn release(&mut self, handle: Handle) -> (r: Result<(), Error>)
        requires
            old(self).wf(),
        ensures
            final(self).wf(),
            !old(self).contains(handle) ==> r == Err::<(), Error>(Error::InvalidSocket) && final(self).slots()
                == old(self).slots(),
            forall|i: int| #[trigger]
                holds(old(self).slots(), i, handle) ==> if old(self).slots()[i]->Some_0.refs == 0 {
                    r == Err::<(), Error>(Error::Illegal) && final(self).slots() == old(self).slots()
                } else {
                    r is Ok && final(self).slots() == old(self).slots().update(
                        i,
                        Some(
                            Item {
                                socket: old(self).slots()[i]->Some_0.socket,
                                refs: (old(self).slots()[i]->Some_0.refs - 1) as usize,
                            },
                        ),
                    )
                },
    {
        let index = match self.index_of(handle) {
            Ok(i) => i,
            Err(e) => {
                return Err(e);
            },
        };
        let mut slot: Option<Item<FREQ_HZ, L>> = None;
        self.sockets.set_and_swap(index, &mut slot);
        match slot {
            Some(item) => {
                if item.refs == 0 {
                    self.sockets.set(index, Some(item));
                    return Err(Error::Illegal);
                }
                self.sockets.set(index, Some(Item { socket: item.socket, refs: item.refs - 1 }));
                Ok(())
            },
            None => Err(Error::InvalidSocket),
        }
    }

    /// Prune the sockets in this set: only sockets with reference count 0
    /// are affected; open ones are closed, closed ones are removed (see
    /// [pruned]).
    pub fn prune(&mut self)
        requires
            old(self).wf(),
        ensures
            final(self).wf(),
            final(self).slots() == old(self).slots().map_values(|s: Option<Item<FREQ_HZ, L>>| pruned(s)),
    {
        let ghost start = self.slots();
        let mut i: usize = 0;
        while i < self.sockets.len()
            invariant
                self.wf(),
                start.len() == N,
                unique_handles(start),
                0 <= i <= N,
                forall|j: int| 0 <= j < i ==> #[trigger] self.slots()[j] == pruned(start[j]),
                forall|j: int| i <= j < N ==> #[trigger] self.slots()[j] == start[j],
                forall|j: int|
                    0 <= j < N && #[trigger] self.slots()[j] is Some ==> start[j] is Some && handle_at(
                        self.slots(),
                        j,
                    ) == handle_at(start, j),
            decreases N - i,
        {
            let ghost before = self.slots();
            let mut slot: Option<Item<FREQ_HZ, L>> = None;
            self.sockets.set_and_swap(i, &mut slot);
            assert(slot == before[i as int]);
            match slot {
                Some(item) => {
                    if item.refs == 0 {
                        let mut socket = item.socket;
                        if socket.is_open() {
                            socket.close();
                            self.sockets.set(i, Some(Item { socket, refs: 0 }));
                        }
                    } else {
                        self.sockets.set(i, Some(item));
                    }
                },
                None => {},
            }
            proof {
                assert forall|j: int| 0 <= j < N && j != i implies #[trigger] self.slots()[j] == before[j] by {}
                assert forall|a: int, b: int|
                    #![trigger self.slots()[a], self.slots()[b]]
                    0 <= a < N && 0 <= b < N && a != b && self.slots()[a] is Some && self.slots()[b] is Some
                        implies handle_at(self.slots(), a) != handle_at(self.slots(), b) by {
                    assert(start[a] is Some && start[b] is Some);
                    assert(start[a] is Some && start[b] is Some ==> handle_at(start, a) != handle_at(start, b));
                }
            }
            i = i + 1;
        }
        assert(self.slots() =~= start.map_values(|s: Option<Item<FREQ_HZ, L>>| pruned(s)));
    }

    /// Apply a socket URC received at `now` to the socket it is about (see
    /// [udp_after_urc] and [tcp_after_urc]); other URCs and unknown handles
    /// are left alone.
    pub fn handle_urc(&mut self, urc: Urc, now: Instant<FREQ_HZ>)
        requires
            old(self).wf(),
        ensures
            final(self).wf(),
            match urc_socket(urc) {
                None => final(self).slots() == old(self).slots(),
                Some(h) => {
                    &&& !old(self).contains(h) ==> final(self).slots() == old(self).slots()
                    &&& forall|i: int| #[trigger]
                        holds(old(self).slots(), i, h) ==> match old(self).slots()[i]->Some_0.socket {
                            Socket::Udp(u) => final(self).slots() == old(self).slots().update(
                                i,
                                Some(
                                    Item {
                                        socket: Socket::Udp(udp_after_urc(u, urc, now)),
                                        refs: old(self).slots()[i]->Some_0.refs,
                                    },
                                ),
                            ),
                            Socket::Tcp(t) => final(self).slots() == old(self).slots().update(
                                i,
                                Some(
                                    Item {
                                        socket: Socket::Tcp(tcp_after_urc(t, urc)),
                                        refs: old(self).slots()[i]->Some_0.refs,
                                    },
                                ),
                            ),
                        }
                },
            },
            forall|i: int| #[trigger]
                holds(old(self).slots(), i, urc_socket(urc)->0) ==> match urc {
                    Urc::SocketDataAvailable(d) => final(self).slots()[i]->Some_0.socket.spec_available_data()
                        == d.length,
                    Urc::SocketDataAvailableUDP(d) => final(self).slots()[i]->Some_0.socket.spec_available_data()
                        == d.length,
                    _ => true,
                },
    {
        let handle = match urc {
            Urc::SocketDataAvailable(d) => d.socket,
            Urc::SocketDataAvailableUDP(d) => d.socket,
            Urc::SocketClosed(c) => c.socket,
            _ => {
                return;
            },
        };
        let ghost o = self.slots();
        match self.get::<UdpSocket<FREQ_HZ, L>>(handle) {
            Ok(r) => {
                let ghost before = *r.socket;
                match urc {
                    Urc::SocketDataAvailable(d) => r.socket.set_available_data(d.length),
                    Urc::SocketDataAvailableUDP(d) => r.socket.set_available_data(d.length),
                    _ => r.socket.closed_by_remote(now),
                }
                proof {
                    before.lemma_notes_keep_the_socket(0, None);
                    match urc {
                        Urc::SocketDataAvailable(d) => before.lemma_notes_keep_the_socket(d.length, None),
                        Urc::SocketDataAvailableUDP(d) => before.lemma_notes_keep_the_socket(d.length, None),
                        _ => before.lemma_notes_keep_the_socket(0, Some(now)),
                    }
                }
            },
            Err(_) => match self.get::<TcpSocket<FREQ_HZ, L>>(handle) {
                Ok(r) => {
                    let ghost before = *r.socket;
                    match urc {
                        Urc::SocketDataAvailable(d) => r.socket.set_available_data(d.length),
                        Urc::SocketDataAvailableUDP(d) => r.socket.set_available_data(d.length),
                        _ => r.socket.closed_by_remote(),
                    }
                    proof {
                        match urc {
                            Urc::SocketDataAvailable(d) => before.lemma_notes_keep_the_socket(d.length, State::Closed),
                            Urc::SocketDataAvailableUDP(d) => before.lemma_notes_keep_the_socket(d.length, State::Closed),
                            _ => before.lemma_notes_keep_the_socket(0, State::Closed),
                        }
                    }
                },
                Err(_) => {},
            },
        }
    }

    /// The sockets in the set, each with its handle, in slot order.
    pub fn iter(&self) -> (r: Vec<(Handle, &Socket<FREQ_HZ, L>)>)
        ensures
            r@.len() == sockets_of(self.slots()).len(),
            forall|i: int| 0 <= i < r@.len() ==> #[trigger] r@[i].1 == sockets_of(self.slots())[i] && r@[i].0 == r@[i].1.spec_handle(),
    {
        let mut r: Vec<(Handle, &Socket<FREQ_HZ, L>)> = Vec::new();
        let mut i: usize = 0;
        while i < self.sockets.len()
            invariant
                0 <= i <= self.sockets@.len(),
                self.sockets@ == self.slots(),
                r@.len() == sockets_of(self.slots().subrange(0, i as int)).len(),
                forall|k: int| 0 <= k < r@.len() ==> #[trigger] r@[k].1 == sockets_of(self.slots().subrange(0, i as int))[k] && r@[k].0 == r@[k].1.spec_handle(),
            decreases self.sockets@.len() - i,
        {
            let ghost prev = sockets_of(self.slots().subrange(0, i as int));
            assert(self.slots().subrange(0, i + 1).drop_last() =~= self.slots().subrange(0, i as int));
            match &self.sockets[i] {
                Some(item) => {
                    let h = item.socket.handle();
                    r.push((h, &item.socket));
                    proof {
                        let next = sockets_of(self.slots().subrange(0, i + 1));
                        assert(next == prev.push(item.socket));
                        assert forall|k: int| 0 <= k < r@.len() implies #[trigger] r@[k].1 == next[k] && r@[k].0 == r@[k].1.spec_handle() by {
                            if k < prev.len() {
                                assert(next[k] == prev[k]);
                            }
                        }
                    }
                },
                None => {
                    proof {
                        assert(sockets_of(self.slots().subrange(0, i + 1)) =~= prev);
                    }
                },
            }
            i = i + 1;
        }
        assert(self.slots().subrange(0, i as int) =~= self.slots());
        r
    }

    /// The handles of the sockets in the set, in slot order.
    pub fn handles(&self) -> (r: Vec<Handle>)
        ensures
            r@ == handles_of(self.slots()),
    {
        let mut r: Vec<Handle> = Vec::new();
        let mut i: usize = 0;
        while i < self.sockets.len()
            invariant
                0 <= i <= self.sockets@.len(),
                r@ == handles_of(self.slots().subrange(0, i as int)),
            decreases self.sockets@.len() - i,
        {
            assert(self.slots().subrange(0, i + 1).drop_last() =~= self.slots().subrange(0, i as int));
            match &self.sockets[i] {
                Some(item) => {
                    let h = item.socket.handle();
                    r.push(h);
                },
                None => {},
            }
            i = i + 1;
        }
        assert(self.slots().subrange(0, i as int) =~= self.slots());
        r
    }
}

/// Removing the socket that was just added leaves the slots as they were:
/// an add fills a free slot, and the remove of its handle empties that slot.
pub proof fn lemma_remove_undoes_add<const FREQ_HZ: u32, const L: usize>(
    before: Seq<Option<Item<FREQ_HZ, L>>>,
    socket: Socket<FREQ_HZ, L>,
    i: int,
)
    requires
        0 <= i < before.len(),
        before[i] is None,
    ensures
        holds(before.update(i, Some(Item { socket, refs: 1 })), i, socket.spec_handle()),
        before.update(i, Some(Item { socket, refs: 1 })).update(i, None) == before,
{
    assert(before.update(i, Some(Item { socket, refs: 1 })).update(i, None) =~= before);
}

} // verus!
