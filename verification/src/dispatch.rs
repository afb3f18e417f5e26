//! Dispatch orchestrator: for each computation, stage the host vectors,
//! record the single-use command batch in strict dependency order, and turn
//! the awaited readback into the host-owned result vector.

use vstd::prelude::*;
use crate::{ELEMENT_SIZE, VECTOR_LENGTH, buffer_byte_size, buffer_byte_size_spec};
use crate::binder::{Buffer, BufferSet, download_usage, upload_usage};
use crate::codec::{bytes_vector, decode_vector, encode_vector, lemma_vector_bytes_len,
    vector_bytes};
use crate::manager::PipelineManager;

verus! {

/// Identity of the transient upload buffer staging input A. At most one
/// dispatch is in flight at a time, so each call's transient buffers may
/// reuse these identities; they never collide with the persistent buffers.
pub const UPLOAD_A_BUFFER_ID: u64 = 4;

/// Identity of the transient upload buffer staging input B.
pub const UPLOAD_B_BUFFER_ID: u64 = 5;

/// Identity of the transient download buffer the result is read back from.
pub const DOWNLOAD_BUFFER_ID: u64 = 6;

/// One recorded operation of a command batch.
#[derive(Clone, Copy, PartialEq, Eq, Debug)]
pub enum Command {
    /// Copy `size` bytes from the start of one buffer to the start of
    /// another.
    CopyBuffer { source_id: u64, dest_id: u64, size: u64 },
    /// Bind the compute pipeline for the following dispatch.
    SetPipeline,
    /// Bind the binding descriptor for the following dispatch.
    SetBindGroup,
    /// Run the kernel over a grid of `x` by `y` by `z` work units.
    DispatchWorkUnits { x: u32, y: u32, z: u32 },
}

/// Everything one dispatch submits: the staged bytes of both inputs, the
/// three transient buffers of this call, and the recorded command batch.
/// Transient and single-use; the batch is submitted as one atomic unit.
pub struct DispatchPlan {
    /// Bytes staged into the upload buffer for input A.
    pub staged_a: Vec<u8>,
    /// Bytes staged into the upload buffer for input B.
    pub staged_b: Vec<u8>,
    pub upload_a: Buffer,
    pub upload_b: Buffer,
    pub download: Buffer,
    pub commands: Vec<Command>,
}

/// The command batch of one dispatch, in strict dependency order: copy both
/// staged inputs into the persistent input buffers, bind pipeline and
/// binding descriptor, dispatch one work unit per element along one axis,
/// then copy the persistent output into the download buffer.
pub open spec fn dispatch_commands(buffers: BufferSet) -> Seq<Command> {
    seq![
        (Command::CopyBuffer {
            source_id: UPLOAD_A_BUFFER_ID,
            dest_id: buffers.input_a.id,
            size: buffer_byte_size_spec(),
        }),
        (Command::CopyBuffer {
            source_id: UPLOAD_B_BUFFER_ID,
            dest_id: buffers.input_b.id,
            size: buffer_byte_size_spec(),
        }),
        Command::SetPipeline,
        Command::SetBindGroup,
        (Command::DispatchWorkUnits { x: VECTOR_LENGTH as u32, y: 1, z: 1 }),
        (Command::CopyBuffer {
            source_id: buffers.output.id,
            dest_id: DOWNLOAD_BUFFER_ID,
            size: buffer_byte_size_spec(),
        }),
    ]
}

impl DispatchPlan {
    /// The plan is exactly what one dispatch against `m` submits: both
    /// staged byte runs hold one full vector, the transient buffers carry
    /// the staging identities with upload and download usage and the fixed
    /// vector byte size, and the batch is the strict command order.
    pub open spec fn wf_for(self, m: PipelineManager) -> bool {
        &&& self.staged_a@.len() == buffer_byte_size_spec()
        &&& self.staged_b@.len() == buffer_byte_size_spec()
        &&& self.upload_a == (Buffer {
            id: UPLOAD_A_BUFFER_ID,
            size: buffer_byte_size_spec(),
            usage: upload_usage(),
        })
        &&& self.upload_b == (Buffer {
            id: UPLOAD_B_BUFFER_ID,
            size: buffer_byte_size_spec(),
            usage: upload_usage(),
        })
        &&& self.download == (Buffer {
            id: DOWNLOAD_BUFFER_ID,
            size: buffer_byte_size_spec(),
            usage: download_usage(),
        })
        &&& self.commands@ == dispatch_commands(m.buffers)
    }
}

/// What awaiting the mapping of the download buffer yielded: the mapped
/// bytes once the device signalled that all submitted work affecting the
/// buffer completed, a mapping failure, or a lost device.
pub enum ReadbackOutcome {
    Mapped(Vec<u8>),
    MapFailed,
    DeviceLost,
}

impl PipelineManager {
    /// Stage both input vectors and record the command batch of one
    /// dispatch. Reuses the persistent buffers and the binding descriptor
    /// unchanged: the plan's copies target exactly the manager's own
    /// buffers, so no per-call reallocation of persistent state happens.
    pub fn begin_dispatch(&self, input_a: &Vec<u32>, input_b: &Vec<u32>) -> (r: DispatchPlan)
        requires
            self.wf(),
            input_a@.len() == VECTOR_LENGTH,
            input_b@.len() == VECTOR_LENGTH,
        ensures
            r.wf_for(*self),
            r.staged_a@ == vector_bytes(input_a@),
            r.staged_b@ == vector_bytes(input_b@),
    {
        proof {
            lemma_vector_bytes_len(input_a@);
            lemma_vector_bytes_len(input_b@);
        }
        let staged_a = encode_vector(input_a);
        let staged_b = encode_vector(input_b);
        let byte_size: u64 = (VECTOR_LENGTH * ELEMENT_SIZE) as u64;
        let upload_desc = crate::binder::BufferUsage {
            storage: false,
            copy_src: true,
            copy_dst: false,
            map_read: false,
        };
        let download_desc = crate::binder::BufferUsage {
            storage: false,
            copy_src: false,
            copy_dst: true,
            map_read: true,
        };
        let mut commands: Vec<Command> = Vec::new();
        commands.push(
            Command::CopyBuffer {
                source_id: UPLOAD_A_BUFFER_ID,
                dest_id: self.buffers.input_a.id,
                size: byte_size,
            },
        );
        commands.push(
            Command::CopyBuffer {
                source_id: UPLOAD_B_BUFFER_ID,
                dest_id: self.buffers.input_b.id,
                size: byte_size,
            },
        );
        commands.push(Command::SetPipeline);
        commands.push(Command::SetBindGroup);
        commands.push(Command::DispatchWorkUnits { x: VECTOR_LENGTH as u32, y: 1, z: 1 });
        commands.push(
            Command::CopyBuffer {
                source_id: self.buffers.output.id,
                dest_id: DOWNLOAD_BUFFER_ID,
                size: byte_size,
            },
        );
        proof {
            assert(commands@ =~= dispatch_commands(self.buffers));
        }
        DispatchPlan {
            staged_a,
            staged_b,
            upload_a: Buffer { id: UPLOAD_A_BUFFER_ID, size: byte_size, usage: upload_desc },
            upload_b: Buffer { id: UPLOAD_B_BUFFER_ID, size: byte_size, usage: upload_desc },
            download: Buffer { id: DOWNLOAD_BUFFER_ID, size: byte_size, usage: download_desc },
            commands,
        }
    }

    /// Turn the awaited readback of the download buffer into the host
    /// result. A mapping of exactly one vector's bytes decodes into the
    /// result vector; any failure — lost device, failed mapping, or a
    /// mapping of the wrong size — produces an absent result, never a
    /// partial or zero-filled vector.
    pub fn get_result(&self, readback: &ReadbackOutcome) -> (r: Option<Vec<u32>>)
        requires
            self.wf(),
        ensures
            readback matches ReadbackOutcome::Mapped(bytes) ==> if bytes@.len()
                == buffer_byte_size_spec() {
                r is Some && r->0@ == bytes_vector(bytes@)
            } else {
                r is None
            },
            !(readback is Mapped) ==> r is None,
    {
        match readback {
            ReadbackOutcome::Mapped(bytes) => {
                if bytes.len() == buffer_byte_size() {
                    Some(decode_vector(bytes))
                } else {
                    None
                }
            },
            ReadbackOutcome::MapFailed => None,
            ReadbackOutcome::DeviceLost => None,
        }
    }
}

} // verus!
