//! The packet data service: the PDP context and its sockets.

pub mod apn;
pub mod context;
pub mod dns;
pub mod egress;
pub mod ingress;
pub mod ssl;
pub mod tcp_stack;
pub mod tls;

use crate::error::GenericError;
use crate::network::Error as NetworkError;
use crate::socket::Error as SocketError;
use vstd::prelude::*;

verus! {

/// The state of the PDP context that carries the data connection.
#[derive(Debug, Clone, Copy, PartialEq, Eq, Structural)]
pub enum ContextState {
    Setup,
    Activating,
    Active,
}

/// Why a data service operation failed.
#[derive(Debug, Clone, Copy, PartialEq, Eq, Structural)]
pub enum Error {
    InvalidApn,
    SocketMemory,
    WrongSocketType,
    BadLength,
    Dns,
    BufferFull,
    InvalidHex,
    Socket(SocketError),
    Network(NetworkError),
    Generic(GenericError),
    _Unknown,
}

/// A network error as a data service error: generic errors are lifted out of it.
pub open spec fn from_network(e: NetworkError) -> Error {
    match e {
        NetworkError::Generic(g) => Error::Generic(g),
        _ => Error::Network(e),
    }
}

impl From<NetworkError> for Error {
    fn from(e: NetworkError) -> (r: Self) {
        match e {
            NetworkError::Generic(g) => Self::Generic(g),
            _ => Self::Network(e),
        }
    }
}

impl vstd::std_specs::convert::FromSpecImpl<NetworkError> for Error {
    open spec fn obeys_from_spec() -> bool {
        true
    }

    open spec fn from_spec(e: NetworkError) -> Error {
        from_network(e)
    }
}

impl From<SocketError> for Error {
    fn from(e: SocketError) -> (r: Self) {
        Self::Socket(e)
    }
}

impl vstd::std_specs::convert::FromSpecImpl<SocketError> for Error {
    open spec fn obeys_from_spec() -> bool {
        true
    }

    open spec fn from_spec(e: SocketError) -> Error {
        Error::Socket(e)
    }
}

} // verus!
