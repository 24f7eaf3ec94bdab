//! Errors of the driver as a whole.

use crate::network::Error as NetworkError;
use crate::services::data::Error as DataServiceError;
use vstd::prelude::*;

verus! {

/// Errors shared by every part of the driver.
#[derive(Debug, Clone, Copy, PartialEq, Eq, Structural)]
pub enum GenericError {
    Timeout,
    Clock,
    Unsupported,
}

/// Errors of the device.
#[derive(Debug, Clone, Copy, PartialEq, Eq, Structural)]
pub enum Error {
    // General device errors
    BaudDetection,
    BaudConfiguration,
    Busy,
    Uninitialized,
    StateTimeout,
    // Network errors
    Network(NetworkError),
    // Service specific errors
    DataService(DataServiceError),
    // Generic shared errors
    Generic(GenericError),
    _Unknown,
}

/// A data service error as a device error: generic and network errors are
/// lifted out of it.
pub open spec fn from_data_service(e: DataServiceError) -> Error {
    match e {
        DataServiceError::Generic(g) => Error::Generic(g),
        DataServiceError::Network(n) => Error::Network(n),
        _ => Error::DataService(e),
    }
}

/// A network error as a device error: generic errors are lifted out of it.
pub open spec fn from_network(e: NetworkError) -> Error {
    match e {
        NetworkError::Generic(g) => Error::Generic(g),
        _ => Error::Network(e),
    }
}

impl From<DataServiceError> for Error {
    fn from(e: DataServiceError) -> (r: Self) {
        // Unwrap generic and network errors
        match e {
            DataServiceError::Generic(g) => Error::Generic(g),
            DataServiceError::Network(g) => Error::Network(g),
            _ => Error::DataService(e),
        }
    }
}

impl vstd::std_specs::convert::FromSpecImpl<DataServiceError> for Error {
    open spec fn obeys_from_spec() -> bool {
        true
    }

    open spec fn from_spec(e: DataServiceError) -> Error {
        from_data_service(e)
    }
}

impl From<NetworkError> for Error {
    fn from(e: NetworkError) -> (r: Self) {
        // Unwrap generic errors
        match e {
            NetworkError::Generic(g) => Error::Generic(g),
            _ => Error::Network(e),
        }
    }
}

impl vstd::std_specs::convert::FromSpecImpl<NetworkError> for Error {
    open spec fn obeys_from_spec() -> bool {
        true
    }

    open spec fn from_spec(e: NetworkError) -> Error {
        from_network(e)
    }
}

/// The error that a failing clock reports: the clock's own error is dropped.
pub fn from_clock<E>(_error: E) -> (r: Error)
    ensures
        r == Error::Generic(GenericError::Clock),
{
    Error::Generic(GenericError::Clock)
}

} // verus!
