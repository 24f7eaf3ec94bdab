//! A smart pointer to a socket.

use vstd::prelude::*;

verus! {

/// A smart pointer to a socket.
///
/// Allows the network stack to determine whether the socket was handed out
/// for good (see [Ref::into_inner]).
pub struct Ref<'a, T: 'a> {
    pub socket: &'a mut T,
    pub consumed: bool,
}

impl<'a, T: 'a> Ref<'a, T> {
    /// Wrap a pointer to a socket to make a smart pointer.
    pub fn new(socket: &'a mut T) -> (r: Self)
        ensures
            *r.socket == *old(socket),
            *final(r.socket) == *final(socket),
            !r.consumed,
    {
        Ref { socket, consumed: false }
    }

    /// Unwrap a smart pointer to a socket.
    ///
    /// The pointer is marked as consumed and the reference it held is
    /// handed back.
    pub fn into_inner(ref_: Self) -> (r: &'a mut T)
        ensures
            *r == *old(ref_.socket),
            *final(r) == *final(ref_.socket),
    {
        let mut ref_ = ref_;
        ref_.consumed = true;
        ref_.socket
    }
}

} // verus!
