//! Resource binder: persistent GPU buffer records for the two inputs and the
//! output, and the binding descriptor that ties them to the kernel's
//! argument slots.

use vstd::prelude::*;
use crate::error::SetupError;

verus! {

/// Usage class of a buffer: which operations the device permits on it.
#[derive(Clone, Copy, PartialEq, Eq, Debug)]
pub struct BufferUsage {
    /// Device-storage binding for kernel access.
    pub storage: bool,
    /// May serve as the source of a buffer-to-buffer copy.
    pub copy_src: bool,
    /// May serve as the destination of a buffer-to-buffer copy.
    pub copy_dst: bool,
    /// May be mapped for host reads after submitted work completes.
    pub map_read: bool,
}

/// Usage of a persistent input buffer: kernel storage, filled by copy.
pub open spec fn input_usage() -> BufferUsage {
    BufferUsage { storage: true, copy_src: false, copy_dst: true, map_read: false }
}

/// Usage of the persistent output buffer: kernel storage, read back by copy.
pub open spec fn output_usage() -> BufferUsage {
    BufferUsage { storage: true, copy_src: true, copy_dst: false, map_read: false }
}

/// Usage of a transient upload buffer: source of the staging copy.
pub open spec fn upload_usage() -> BufferUsage {
    BufferUsage { storage: false, copy_src: true, copy_dst: false, map_read: false }
}

/// Usage of a transient download buffer: copy destination, host-mappable.
pub open spec fn download_usage() -> BufferUsage {
    BufferUsage { storage: false, copy_src: false, copy_dst: true, map_read: true }
}

/// A GPU-resident memory region: identity, fixed byte size, usage class.
/// The size is set at construction and never changes.
#[derive(Clone, Copy, PartialEq, Eq, Debug)]
pub struct Buffer {
    /// Identity of the underlying device allocation; distinct live buffers
    /// have distinct identities.
    pub id: u64,
    /// Byte size, always `element_size * vector_length` for vector buffers.
    pub size: u64,
    /// Usage class fixed at allocation.
    pub usage: BufferUsage,
}

/// The three persistent buffers a pipeline owns.
#[derive(Clone, Copy, PartialEq, Eq, Debug)]
pub struct BufferSet {
    pub input_a: Buffer,
    pub input_b: Buffer,
    pub output: Buffer,
}

/// Identity of the persistent buffer holding input A.
pub const INPUT_A_BUFFER_ID: u64 = 1;

/// Identity of the persistent buffer holding input B.
pub const INPUT_B_BUFFER_ID: u64 = 2;

/// Identity of the persistent output buffer.
pub const OUTPUT_BUFFER_ID: u64 = 3;

impl BufferSet {
    /// The buffers are correctly sized and usable as §allocation promises:
    /// each holds exactly `byte_size` bytes, inputs receive copies and serve
    /// the kernel, the output serves the kernel and sources the readback
    /// copy, and the three are distinct allocations.
    pub open spec fn wf(self, byte_size: u64) -> bool {
        &&& self.input_a.size == byte_size
        &&& self.input_b.size == byte_size
        &&& self.output.size == byte_size
        &&& self.input_a.usage == input_usage()
        &&& self.input_b.usage == input_usage()
        &&& self.output.usage == output_usage()
        &&& self.input_a.id != self.input_b.id
        &&& self.input_a.id != self.output.id
        &&& self.input_b.id != self.output.id
    }
}

/// Allocate the three persistent buffers for vectors of `vector_length`
/// elements of `element_size` bytes each. A zero length, a zero element
/// size, or a total byte size beyond the addressable range is rejected
/// before any allocation.
pub fn allocate_buffers(vector_length: usize, element_size: usize) -> (r: Result<
    BufferSet,
    SetupError,
>)
    ensures
        r is Ok <==> vector_length > 0 && element_size > 0 && vector_length * element_size
            <= u64::MAX,
        r is Ok ==> r->Ok_0.wf((vector_length * element_size) as u64),
        r is Ok ==> r->Ok_0.input_a.id == INPUT_A_BUFFER_ID && r->Ok_0.input_b.id
            == INPUT_B_BUFFER_ID && r->Ok_0.output.id == OUTPUT_BUFFER_ID,
        r is Err ==> r->Err_0 is InvalidConfig,
{
    if vector_length == 0 || element_size == 0 {
        return Err(SetupError::InvalidConfig);
    }
    let byte_size: u64 = match (vector_length as u64).checked_mul(element_size as u64) {
        Some(s) => s,
        None => {
            return Err(SetupError::InvalidConfig);
        },
    };
    let input_desc = BufferUsage { storage: true, copy_src: false, copy_dst: true, map_read: false };
    let output_desc = BufferUsage {
        storage: true,
        copy_src: true,
        copy_dst: false,
        map_read: false,
    };
    Ok(
        BufferSet {
            input_a: Buffer { id: INPUT_A_BUFFER_ID, size: byte_size, usage: input_desc },
            input_b: Buffer { id: INPUT_B_BUFFER_ID, size: byte_size, usage: input_desc },
            output: Buffer { id: OUTPUT_BUFFER_ID, size: byte_size, usage: output_desc },
        },
    )
}

/// One argument slot a kernel declares: its index and whether the kernel
/// only reads the buffer bound there.
#[derive(Clone, Copy, PartialEq, Eq, Debug)]
pub struct LayoutSlot {
    pub slot: u32,
    pub read_only: bool,
}

/// The ordered argument layout a compute kernel declares.
#[derive(Clone, PartialEq, Eq, Debug)]
pub struct KernelLayout {
    pub slots: Vec<LayoutSlot>,
}

/// The argument layout this library's kernels must declare: slot 0 the
/// read-write output, slots 1 and 2 the read-only inputs.
pub open spec fn expected_layout() -> Seq<LayoutSlot> {
    seq![
        (LayoutSlot { slot: 0, read_only: false }),
        (LayoutSlot { slot: 1, read_only: true }),
        (LayoutSlot { slot: 2, read_only: true }),
    ]
}

/// One entry of a binding descriptor: a kernel argument slot, the buffer
/// bound to it, and the kernel's access to it.
#[derive(Clone, Copy, PartialEq, Eq, Debug)]
pub struct BindingEntry {
    pub slot: u32,
    pub buffer_id: u64,
    pub read_only: bool,
}

/// The ordered slot-to-buffer mapping a pipeline dispatches with. It must
/// match the kernel's declared argument layout exactly; it is fixed at
/// construction and never changes afterwards.
#[derive(Clone, PartialEq, Eq, Debug)]
pub struct BindingDescriptor {
    pub entries: Vec<BindingEntry>,
}

/// The slot-to-buffer mapping for a buffer set: slot 0 reads and writes the
/// output buffer, slots 1 and 2 read the input buffers.
pub open spec fn binding_spec(buffers: BufferSet) -> Seq<BindingEntry> {
    seq![
        (BindingEntry { slot: 0, buffer_id: buffers.output.id, read_only: false }),
        (BindingEntry { slot: 1, buffer_id: buffers.input_a.id, read_only: true }),
        (BindingEntry { slot: 2, buffer_id: buffers.input_b.id, read_only: true }),
    ]
}

/// Build the binding descriptor tying the buffer set to the kernel's
/// argument slots. The caller must present the exact layout the kernel
/// declares: a mismatched layout would make the kernel read the wrong
/// buffers, which no backend reports as a catchable error.
pub fn build_binding(layout: &KernelLayout, buffers: &BufferSet) -> (r: BindingDescriptor)
    requires
        layout.slots@ == expected_layout(),
    ensures
        r.entries@ == binding_spec(*buffers),
{
    let mut entries: Vec<BindingEntry> = Vec::new();
    entries.push(BindingEntry { slot: 0, buffer_id: buffers.output.id, read_only: false });
    entries.push(BindingEntry { slot: 1, buffer_id: buffers.input_a.id, read_only: true });
    entries.push(BindingEntry { slot: 2, buffer_id: buffers.input_b.id, read_only: true });
    proof {
        assert(entries@ =~= binding_spec(*buffers));
    }
    BindingDescriptor { entries }
}

} // verus!
