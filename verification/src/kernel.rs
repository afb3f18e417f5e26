//! Kernel compiler front: accepts what the shading-language toolchain
//! produced for the kernel source and turns it into a device-loadable
//! program object, or a fatal compile error carrying the diagnostics.

use vstd::prelude::*;
use crate::binder::{KernelLayout, LayoutSlot, expected_layout};
use crate::error::SetupError;

verus! {

/// What the shading-language toolchain produced for a kernel source text:
/// either the device-loadable binary, or its diagnostics (line, column and
/// message) for a malformed source.
#[derive(Clone, PartialEq, Eq, Debug)]
pub enum CompileOutcome {
    Binary(Vec<u8>),
    Diagnostics(String),
}

/// A compiled compute kernel: the device-loadable binary and the argument
/// layout the kernel declares. Immutable once built.
#[derive(Clone, PartialEq, Eq, Debug)]
pub struct CompiledKernel {
    pub binary: Vec<u8>,
    pub layout: KernelLayout,
}

/// The argument layout every kernel of this library declares: slot 0 the
/// read-write output, slots 1 and 2 the read-only inputs.
pub fn kernel_argument_layout() -> (r: KernelLayout)
    ensures
        r.slots@ == expected_layout(),
{
    let mut slots: Vec<LayoutSlot> = Vec::new();
    slots.push(LayoutSlot { slot: 0, read_only: false });
    slots.push(LayoutSlot { slot: 1, read_only: true });
    slots.push(LayoutSlot { slot: 2, read_only: true });
    proof {
        assert(slots@ =~= expected_layout());
    }
    KernelLayout { slots }
}

/// Accept the toolchain's outcome for the kernel source. A produced binary
/// becomes the compiled kernel, with the declared argument layout; any
/// diagnostics become a fatal `CompileError` carrying them unchanged, and
/// the pipeline cannot proceed.
pub fn accept_compile(outcome: CompileOutcome) -> (r: Result<CompiledKernel, SetupError>)
    ensures
        r is Ok <==> outcome is Binary,
        outcome matches CompileOutcome::Binary(b) ==> r->Ok_0.binary@ == b@
            && r->Ok_0.layout.slots@ == expected_layout(),
        outcome matches CompileOutcome::Diagnostics(d) ==> r->Err_0 matches
            SetupError::CompileError(m) && m@ == d@,
{
    match outcome {
        CompileOutcome::Binary(binary) => Ok(
            CompiledKernel { binary, layout: kernel_argument_layout() },
        ),
        CompileOutcome::Diagnostics(diagnostics) => Err(SetupError::CompileError(diagnostics)),
    }
}

} // verus!
