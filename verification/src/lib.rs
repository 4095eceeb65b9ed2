//! A model of an HSA-style command-submission runtime: agents and their
//! memory regions, allocations, the dispatch ring with its write index and
//! doorbell, and completion signals.
//!
//! The library performs no calls into a driver. Every operation that depends
//! on the driver takes what the driver answered as a plain value (a
//! [`Status`], a [`Reply`]) and decides from it; the state that the driver
//! would hold (ring indices, signal values, access lists) is kept in the
//! library's own types, so that each operation has an exact contract.

pub mod agent;
pub mod context;
pub mod error;
pub mod executable;
pub mod log;
pub mod memory;
pub mod packet;
pub mod queue;
pub mod signal;
pub mod status;
pub mod text;

pub use agent::{Agent, DeviceType};
pub use context::HsaContext;
pub use error::HsaError;
pub use executable::{Executable, KernelSymbol};
pub use memory::{Memory, MemoryRegion};
pub use packet::{DispatchPacket, KernelDispatch};
pub use queue::Queue;
pub use signal::Signal;
pub use status::{Reply, Status};

use error::translated;
use vstd::prelude::*;

verus! {

/// Takes the status with which the runtime answered its initialization.
pub fn init(status: Status) -> (r: Result<(), HsaError>)
    ensures
        match r {
            Ok(_) => status.succeeded(),
            Err(e) => !status.succeeded() && e@ == translated(status),
        },
{
    if !status.is_success() {
        return Err(HsaError::from_status(status));
    }
    Ok(())
}

/// Takes the status with which the runtime answered its shutdown.
pub fn shutdown(status: Status) -> (r: Result<(), HsaError>)
    ensures
        match r {
            Ok(_) => status.succeeded(),
            Err(e) => !status.succeeded() && e@ == translated(status),
        },
{
    if !status.is_success() {
        return Err(HsaError::from_status(status));
    }
    Ok(())
}

} // verus!
