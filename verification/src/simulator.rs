//! A host-side reference device: executes one dispatch plan exactly as the
//! recorded batch orders — copy-in, elementwise kernel over one work unit
//! per element, copy-out, map — entirely in host memory. It stands in for
//! the GPU wherever one is absent, and models device loss.

use vstd::prelude::*;
use crate::codec::{bytes_vector, decode_vector, encode_vector, lemma_codec_round_trip,
    lemma_vector_bytes_len, vector_bytes};
use crate::dispatch::{DispatchPlan, ReadbackOutcome};
use crate::manager::PipelineManager;
use crate::VECTOR_LENGTH;

verus! {

/// The elementwise binary operation a compute kernel applies, one work
/// unit per element. Pluggable: the pipeline itself fixes no operation.
#[derive(Clone, Copy, PartialEq, Eq, Debug)]
pub enum KernelOp {
    /// Elementwise addition, wrapping at the element type's precision.
    Add,
}

/// The value one work unit computes from the two input elements at its
/// index, within the precision of the element type.
pub open spec fn apply_op(op: KernelOp, x: u32, y: u32) -> u32 {
    match op {
        KernelOp::Add => ((x + y) % 0x1_0000_0000) as u32,
    }
}

/// The whole output vector of an elementwise kernel: the operation applied
/// at every index.
pub open spec fn elementwise(op: KernelOp, a: Seq<u32>, b: Seq<u32>) -> Seq<u32>
    recommends
        a.len() == b.len(),
{
    Seq::new(a.len(), |i: int| apply_op(op, a[i], b[i]))
}

/// Element `i` of an elementwise kernel's output is the operation applied
/// to element `i` of each input.
pub proof fn lemma_elementwise_index(op: KernelOp, a: Seq<u32>, b: Seq<u32>, i: int)
    requires
        a.len() == b.len(),
        0 <= i < a.len(),
    ensures
        elementwise(op, a, b)[i] == apply_op(op, a[i], b[i]),
{
}

/// Apply the kernel operation to one pair of elements.
fn apply_elem(op: KernelOp, x: u32, y: u32) -> (r: u32)
    ensures
        r == apply_op(op, x, y),
{
    match op {
        KernelOp::Add => {
            let s: u64 = (x as u64) + (y as u64);
            (s % 4294967296) as u32
        },
    }
}

/// Run the kernel over the whole grid: one work unit per element.
fn apply_kernel(op: KernelOp, a: &Vec<u32>, b: &Vec<u32>) -> (r: Vec<u32>)
    requires
        a@.len() == b@.len(),
    ensures
        r@ == elementwise(op, a@, b@),
{
    let mut r: Vec<u32> = Vec::new();
    let mut i: usize = 0;
    while i < a.len()
        invariant
            a@.len() == b@.len(),
            i <= a@.len(),
            r@.len() == i,
            forall|j: int| 0 <= j < i ==> r@[j] == apply_op(op, a@[j], b@[j]),
        decreases a@.len() - i,
    {
        r.push(apply_elem(op, a[i], b[i]));
        i += 1;
    }
    proof {
        assert(r@ =~= elementwise(op, a@, b@));
    }
    r
}

/// Copy a byte run, as a buffer-to-buffer copy moves it.
fn copy_bytes(src: &Vec<u8>) -> (r: Vec<u8>)
    ensures
        r@ == src@,
{
    let mut r: Vec<u8> = Vec::new();
    let mut i: usize = 0;
    while i < src.len()
        invariant
            i <= src@.len(),
            r@ == src@.take(i as int),
        decreases src@.len() - i,
    {
        r.push(src[i]);
        i += 1;
    }
    proof {
        assert(src@.take(src@.len() as int) =~= src@);
    }
    r
}

/// A reference device: the contents of the three persistent buffers, the
/// kernel operation its loaded pipeline applies, and whether the device
/// has been lost. Lost is unrecoverable: every later submission fails.
pub struct ReferenceDevice {
    /// The elementwise operation of the loaded kernel.
    pub op: KernelOp,
    /// Once true, the device answers every submission with loss.
    pub lost: bool,
    /// Contents of the persistent input buffer A.
    pub input_a: Vec<u8>,
    /// Contents of the persistent input buffer B.
    pub input_b: Vec<u8>,
    /// Contents of the persistent output buffer.
    pub output: Vec<u8>,
}

impl ReferenceDevice {
    /// A fresh device with the given kernel operation loaded, not lost,
    /// all buffers empty.
    pub fn new(op: KernelOp) -> (r: ReferenceDevice)
        ensures
            r.op == op,
            !r.lost,
            r.input_a@.len() == 0,
            r.input_b@.len() == 0,
            r.output@.len() == 0,
    {
        ReferenceDevice {
            op,
            lost: false,
            input_a: Vec::new(),
            input_b: Vec::new(),
            output: Vec::new(),
        }
    }

    /// Simulate losing the device mid-flight: an unrecoverable state; the
    /// buffer contents are left as they were.
    pub fn lose(&mut self)
        ensures
            final(self).lost,
            final(self).op == old(self).op,
            final(self).input_a@ == old(self).input_a@,
            final(self).input_b@ == old(self).input_b@,
            final(self).output@ == old(self).output@,
    {
        self.lost = true;
    }

    /// Submit one recorded batch and await the readback mapping. On a live
    /// device the batch runs to completion in its strict order: the staged
    /// bytes land in the persistent input buffers, the kernel writes the
    /// elementwise result into the persistent output buffer, and the
    /// mapping yields the output's bytes. A lost device changes nothing
    /// and answers with loss.
    pub fn submit(&mut self, manager: &PipelineManager, plan: &DispatchPlan) -> (r:
        ReadbackOutcome)
        requires
            manager.wf(),
            plan.wf_for(*manager),
        ensures
            final(self).op == old(self).op,
            final(self).lost == old(self).lost,
            old(self).lost ==> r is DeviceLost && final(self).input_a@ == old(self).input_a@
                && final(self).input_b@ == old(self).input_b@ && final(self).output@ == old(
                self,
            ).output@,
            !old(self).lost ==> final(self).input_a@ == plan.staged_a@ && final(self).input_b@
                == plan.staged_b@ && final(self).output@ == vector_bytes(
                elementwise(
                    old(self).op,
                    bytes_vector(plan.staged_a@),
                    bytes_vector(plan.staged_b@),
                ),
            ),
            !old(self).lost ==> r is Mapped && r->Mapped_0@ == final(self).output@,
    {
        if self.lost {
            return ReadbackOutcome::DeviceLost;
        }
        self.input_a = copy_bytes(&plan.staged_a);
        self.input_b = copy_bytes(&plan.staged_b);
        let a = decode_vector(&self.input_a);
        let b = decode_vector(&self.input_b);
        let out = apply_kernel(self.op, &a, &b);
        self.output = encode_vector(&out);
        let mapped = copy_bytes(&self.output);
        ReadbackOutcome::Mapped(mapped)
    }
}

impl PipelineManager {
    /// One full computation against a reference device: stage and record,
    /// submit and await the readback, decode the mapped bytes. On a live
    /// device the result is exactly the kernel's elementwise output over
    /// the two input vectors; on a lost device it is absent and the device
    /// is left untouched.
    pub fn compute(&self, device: &mut ReferenceDevice, input_a: &Vec<u32>, input_b: &Vec<u32>)
        -> (r: Option<Vec<u32>>)
        requires
            self.wf(),
            input_a@.len() == VECTOR_LENGTH,
            input_b@.len() == VECTOR_LENGTH,
        ensures
            final(device).op == old(device).op,
            final(device).lost == old(device).lost,
            !old(device).lost ==> r is Some && r->0@ == elementwise(
                old(device).op,
                input_a@,
                input_b@,
            ),
            old(device).lost ==> r is None,
    {
        let plan = self.begin_dispatch(input_a, input_b);
        let outcome = device.submit(self, &plan);
        proof {
            if !old(device).lost {
                lemma_codec_round_trip(input_a@);
                lemma_codec_round_trip(input_b@);
                let ew = elementwise(old(device).op, input_a@, input_b@);
                lemma_vector_bytes_len(ew);
                lemma_codec_round_trip(ew);
            }
        }
        self.get_result(&outcome)
    }
}

} // verus!
