//! Device context: the owning handle to a GPU and its command queue,
//! created once per process from the driver's adapter request.

use vstd::prelude::*;
use crate::error::SetupError;

verus! {

/// What the driver's adapter-and-device request yielded: a device
/// satisfying the high-performance preference, identified by the handle the
/// driver assigned, or no suitable adapter at all.
#[derive(Clone, Copy, PartialEq, Eq, Debug)]
pub enum DeviceOutcome {
    Available(u64),
    NoAdapter,
}

/// Owning handle to a GPU and the command queue bound to it. Created once;
/// everything built on it is discarded with it if the device is lost.
#[derive(Clone, Copy, PartialEq, Eq, Debug)]
pub struct DeviceContext {
    /// Identity of the device the driver granted.
    pub device_id: u64,
}

/// Establish the device context from the driver's request outcome. A
/// granted device becomes the context; no suitable adapter is fatal to the
/// whole pipeline, with no fallback enumeration.
pub fn create(outcome: &DeviceOutcome) -> (r: Result<DeviceContext, SetupError>)
    ensures
        r is Ok <==> outcome is Available,
        outcome matches DeviceOutcome::Available(id) ==> r->Ok_0.device_id == id,
        outcome is NoAdapter ==> r->Err_0 is NoSuitableDevice,
{
    match outcome {
        DeviceOutcome::Available(id) => Ok(DeviceContext { device_id: *id }),
        DeviceOutcome::NoAdapter => Err(SetupError::NoSuitableDevice),
    }
}

} // verus!
