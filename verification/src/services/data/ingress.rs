//! Moving socket data from the module into the sockets' receive buffers:
//! what to ask the module for, in how large a chunk.

use super::Error;
use vstd::prelude::*;

verus! {

/// The most bytes asked of the module in one read.
pub const INGRESS_CHUNK_SIZE: usize = 256;

/// What to ask the module for a socket's incoming data.
#[derive(Debug, Clone, Copy, PartialEq, Eq, Structural)]
pub enum IngressPlan {
    /// Nothing, for now.
    Idle,
    /// How much data waits for the socket (a read of no bytes): the regular
    /// check that catches a missed URC.
    Poll,
    /// A read of this many bytes.
    Read(usize),
}

/// The length of the next read: as much as waits, but no more than a chunk
/// and no more than the receive buffer has room for.
pub open spec fn read_length(available_data: usize, rx_window: usize) -> usize {
    let wanted = if available_data < INGRESS_CHUNK_SIZE {
        available_data
    } else {
        INGRESS_CHUNK_SIZE
    };
    if wanted < rx_window {
        wanted
    } else {
        rx_window
    }
}

/// What to ask the module for a socket with `available_data` bytes waiting
/// at the module: when none wait, a poll if one is due (`poll_due`); when
/// some wait, `Err(Error::BufferFull)` if the socket cannot take data
/// (`can_recv`), or else a read of [read_length] bytes.
pub fn plan_ingress(available_data: usize, poll_due: bool, can_recv: bool, rx_window: usize) -> (r: Result<
    IngressPlan,
    Error,
>)
    ensures
        available_data == 0 ==> r == Ok::<IngressPlan, Error>(
            if poll_due {
                IngressPlan::Poll
            } else {
                IngressPlan::Idle
            },
        ),
        available_data > 0 && !can_recv ==> r == Err::<IngressPlan, Error>(Error::BufferFull),
        available_data > 0 && can_recv ==> r == Ok::<IngressPlan, Error>(
            IngressPlan::Read(read_length(available_data, rx_window)),
        ),
{
    if available_data == 0 {
        return Ok(
            if poll_due {
                IngressPlan::Poll
            } else {
                IngressPlan::Idle
            },
        );
    }
    if !can_recv {
        return Err(Error::BufferFull);
    }
    let wanted = if available_data < INGRESS_CHUNK_SIZE {
        available_data
    } else {
        INGRESS_CHUNK_SIZE
    };
    let requested = if wanted < rx_window {
        wanted
    } else {
        rx_window
    };
    Ok(IngressPlan::Read(requested))
}

} // verus!
