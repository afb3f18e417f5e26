//! Error taxonomy: failures at one-time setup are fatal to the pipeline,
//! while a failed readback is reported per call as an absent result.

use vstd::prelude::*;

verus! {

/// A fatal failure during one-time pipeline setup.
#[derive(Debug)]
pub enum SetupError {
    /// No GPU satisfying the performance preference was found.
    NoSuitableDevice,
    /// The compute kernel failed to compile; carries the toolchain's
    /// diagnostics.
    CompileError(String),
    /// A buffer configuration was rejected before any allocation: a zero
    /// vector length or element size, or a total byte size too large to
    /// address.
    InvalidConfig,
}

} // verus!
