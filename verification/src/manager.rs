//! The pipeline manager: the single aggregate owning every piece of GPU
//! state — device context, persistent buffers, binding descriptor and
//! compute pipeline — built once and reused by every dispatch.

use vstd::prelude::*;
use crate::{ELEMENT_SIZE, VECTOR_LENGTH, buffer_byte_size_spec};
use crate::binder::{
    BindingDescriptor, BufferSet, allocate_buffers, binding_spec, build_binding, expected_layout,
};
use crate::device::{DeviceContext, DeviceOutcome, create};
use crate::error::SetupError;
use crate::kernel::{CompileOutcome, CompiledKernel, accept_compile};

verus! {

/// A compiled kernel combined with its binding layout, attached to the
/// device it was built for. A pure value object once built: it holds no
/// per-call state and is safe to reuse across any number of dispatches.
#[derive(Clone, PartialEq, Eq, Debug)]
pub struct ComputePipeline {
    /// The device the pipeline was built on; the pipeline shares its
    /// lifetime.
    pub device_id: u64,
    /// The compiled kernel, whose declared layout is the binding layout.
    pub kernel: CompiledKernel,
}

impl ComputePipeline {
    /// One-time construction of the executable pipeline from the compiled
    /// kernel, on the given device.
    pub fn build(device: &DeviceContext, kernel: CompiledKernel) -> (r: ComputePipeline)
        ensures
            r.device_id == device.device_id,
            r.kernel == kernel,
    {
        ComputePipeline { device_id: device.device_id, kernel }
    }
}

/// Exclusive owner of all GPU state: the device context and queue, the
/// three persistent vector buffers, the binding descriptor and the compute
/// pipeline. Constructed once; every computation reuses it.
pub struct PipelineManager {
    pub device: DeviceContext,
    pub buffers: BufferSet,
    pub bind_group: BindingDescriptor,
    pub compute_pipeline: ComputePipeline,
}

impl PipelineManager {
    /// The manager's invariant, established by construction and never
    /// broken afterwards: the buffers are sized for one vector each with
    /// the right usage classes, the binding descriptor maps slot 0 to the
    /// output and slots 1 and 2 to the inputs, the kernel declares exactly
    /// that layout, and the pipeline belongs to the owned device.
    pub open spec fn wf(self) -> bool {
        &&& self.buffers.wf(buffer_byte_size_spec())
        &&& self.bind_group.entries@ == binding_spec(self.buffers)
        &&& self.compute_pipeline.kernel.layout.slots@ == expected_layout()
        &&& self.compute_pipeline.device_id == self.device.device_id
    }

    /// One-time setup of the whole pipeline from the driver's device
    /// request and the toolchain's compile outcome for the kernel source.
    /// Succeeds exactly when a device was granted and the kernel compiled;
    /// a missing device or a compile failure is fatal and yields the
    /// corresponding setup error, device failure first.
    pub fn new(device_outcome: &DeviceOutcome, compile_outcome: CompileOutcome) -> (r: Result<
        PipelineManager,
        SetupError,
    >)
        ensures
            r is Ok <==> device_outcome is Available && compile_outcome is Binary,
            device_outcome is NoAdapter ==> r->Err_0 is NoSuitableDevice,
            compile_outcome matches CompileOutcome::Diagnostics(d) ==> device_outcome is Available
                ==> (r->Err_0 matches SetupError::CompileError(m) && m@ == d@),
            r is Ok ==> r->Ok_0.wf(),
            r is Ok ==> r->Ok_0.device.device_id == device_outcome->Available_0,
            r is Ok ==> r->Ok_0.compute_pipeline.kernel.binary@ == compile_outcome->Binary_0@,
    {
        let ctx = match create(device_outcome) {
            Ok(c) => c,
            Err(e) => {
                return Err(e);
            },
        };
        let kernel = match accept_compile(compile_outcome) {
            Ok(k) => k,
            Err(e) => {
                return Err(e);
            },
        };
        let buffers = match allocate_buffers(VECTOR_LENGTH, ELEMENT_SIZE) {
            Ok(b) => b,
            Err(e) => {
                return Err(e);
            },
        };
        let bind_group = build_binding(&kernel.layout, &buffers);
        let compute_pipeline = ComputePipeline::build(&ctx, kernel);
        Ok(PipelineManager { device: ctx, buffers, bind_group, compute_pipeline })
    }
}

} // verus!
