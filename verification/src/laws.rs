//! Library-wide laws relating the dispatch functions, each proved from the
//! contracts the functions themselves state.

use vstd::prelude::*;
use crate::buffer_byte_size_spec;
use crate::binder::binding_spec;
use crate::dispatch::{Command, DispatchPlan, DOWNLOAD_BUFFER_ID, UPLOAD_A_BUFFER_ID,
    UPLOAD_B_BUFFER_ID};
use crate::manager::PipelineManager;
use crate::simulator::{KernelOp, elementwise};

verus! {

/// For every pair of input vectors of one length, the elementwise result a
/// successful dispatch returns has exactly that length.
pub proof fn lemma_result_length(op: KernelOp, a: Seq<u32>, b: Seq<u32>)
    requires
        a.len() == b.len(),
    ensures
        elementwise(op, a, b).len() == a.len(),
{
}

/// Re-invoking a dispatch is idempotent: two computations over identical
/// inputs, each completing without an intervening device loss, return
/// identical results — the premises here are exactly what the compute
/// contract ensures of each of the two calls.
pub proof fn lemma_compute_idempotent(
    op: KernelOp,
    a: Seq<u32>,
    b: Seq<u32>,
    r1: Seq<u32>,
    r2: Seq<u32>,
)
    requires
        r1 == elementwise(op, a, b),
        r2 == elementwise(op, a, b),
    ensures
        r1 == r2,
{
}

/// The slot-to-buffer mapping never changes after pipeline construction:
/// any two dispatch plans recorded against one manager carry identical
/// command batches, their copies target exactly the manager's own
/// persistent buffers — no per-call reallocation — and the binding
/// descriptor stays the fixed mapping of the manager's buffer set.
pub proof fn lemma_persistent_buffers_reused(
    m: PipelineManager,
    plan1: DispatchPlan,
    plan2: DispatchPlan,
)
    requires
        m.wf(),
        plan1.wf_for(m),
        plan2.wf_for(m),
    ensures
        plan1.commands@ == plan2.commands@,
        plan1.commands@[0] == (Command::CopyBuffer {
            source_id: UPLOAD_A_BUFFER_ID,
            dest_id: m.buffers.input_a.id,
            size: buffer_byte_size_spec(),
        }),
        plan1.commands@[1] == (Command::CopyBuffer {
            source_id: UPLOAD_B_BUFFER_ID,
            dest_id: m.buffers.input_b.id,
            size: buffer_byte_size_spec(),
        }),
        plan1.commands@[5] == (Command::CopyBuffer {
            source_id: m.buffers.output.id,
            dest_id: DOWNLOAD_BUFFER_ID,
            size: buffer_byte_size_spec(),
        }),
        m.bind_group.entries@ == binding_spec(m.buffers),
{
}

} // verus!
