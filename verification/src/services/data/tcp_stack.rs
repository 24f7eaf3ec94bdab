//! The decisions of the TCP client stack: when a socket may be connected,
//! which chunks data is sent in, and the check of the module's answer to
//! each chunk.

use super::egress::{check_write_reply, chunks_of, egress_chunks};
use super::Error;
use crate::socket::tcp::State;
use crate::socket::{Error as SocketError, Handle};
use vstd::prelude::*;

verus! {

/// What connecting a TCP socket takes.
#[derive(Debug, Clone, Copy, PartialEq, Eq, Structural)]
pub enum TcpConnectAction {
    /// Enable SSL/TLS on the socket with the security profile 0, then
    /// connect it to the remote end.
    EnableSslThenConnect,
}

/// How to connect a socket in state `state`: only a socket that was just
/// made (`Created`) may be connected; any other is refused
/// (`Err(Illegal)`).
pub fn tcp_connect_step(state: State) -> (r: Result<TcpConnectAction, SocketError>)
    ensures
        state == State::Created ==> r == Ok::<TcpConnectAction, SocketError>(TcpConnectAction::EnableSslThenConnect),
        state != State::Created ==> r == Err::<TcpConnectAction, SocketError>(SocketError::Illegal),
{
    match state {
        State::Created => Ok(TcpConnectAction::EnableSslThenConnect),
        _ => Err(SocketError::Illegal),
    }
}

/// The chunks that `len` bytes are written in on a TCP socket (see
/// [egress_chunks]), when it is connected; `Err(SocketClosed)` when it is
/// not.
pub fn tcp_send_chunks(connected: bool, len: usize) -> (r: Result<Vec<(usize, usize)>, SocketError>)
    ensures
        !connected ==> r == Err::<Vec<(usize, usize)>, SocketError>(SocketError::SocketClosed),
        connected ==> (r matches Ok(c) && chunks_of(len, c@)),
{
    if !connected {
        return Err(SocketError::SocketClosed);
    }
    Ok(egress_chunks(len))
}

/// Check the module's answer to the write of a chunk of `chunk_len` bytes
/// on the TCP socket `socket` (see [check_write_reply]): it must report that
/// many bytes (else `Err(BadLength)`), written on that socket (else
/// `Err(Socket(InvalidSocket))`).
pub fn check_tcp_write_reply(socket: Handle, chunk_len: usize, reply_socket: Handle, reply_len: usize) -> (r: Result<
    (),
    Error,
>)
    ensures
        reply_len != chunk_len ==> r == Err::<(), Error>(Error::BadLength),
        reply_len == chunk_len && reply_socket != socket ==> r == Err::<(), Error>(
            Error::Socket(SocketError::InvalidSocket),
        ),
        reply_len == chunk_len && reply_socket == socket ==> r is Ok,
{
    match check_write_reply(socket, chunk_len, reply_socket, reply_len) {
        Ok(()) => Ok(()),
        Err(Error::WrongSocketType) => Err(Error::Socket(SocketError::InvalidSocket)),
        Err(e) => Err(e),
    }
}

} // verus!
