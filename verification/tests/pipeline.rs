use gpu_dispatch::binder::{allocate_buffers, build_binding, BufferSet};
use gpu_dispatch::device::{create, DeviceOutcome};
use gpu_dispatch::dispatch::ReadbackOutcome;
use gpu_dispatch::error::SetupError;
use gpu_dispatch::kernel::{accept_compile, kernel_argument_layout, CompileOutcome};
use gpu_dispatch::manager::PipelineManager;
use gpu_dispatch::simulator::{KernelOp, ReferenceDevice};
use gpu_dispatch::{buffer_byte_size, ELEMENT_SIZE, VECTOR_LENGTH};

fn manager() -> PipelineManager {
    PipelineManager::new(
        &DeviceOutcome::Available(7),
        CompileOutcome::Binary(vec![3, 2, 35, 7]),
    )
    .unwrap()
}

#[test]
fn byte_size_is_element_size_times_length() {
    assert_eq!(buffer_byte_size(), VECTOR_LENGTH * ELEMENT_SIZE);
    assert_eq!(buffer_byte_size(), 20);
}

#[test]
fn encode_is_little_endian_four_bytes_per_element() {
    let v: Vec<u32> = vec![1, 0x12345678];
    let bytes = gpu_dispatch::codec::encode_vector(&v);
    assert_eq!(bytes, vec![1, 0, 0, 0, 0x78, 0x56, 0x34, 0x12]);
}

#[test]
fn decode_reads_aligned_groups() {
    let bytes: Vec<u8> = vec![0x78, 0x56, 0x34, 0x12, 255, 255, 255, 255];
    let v = gpu_dispatch::codec::decode_vector(&bytes);
    assert_eq!(v, vec![0x12345678, u32::MAX]);
}

#[test]
fn codec_round_trip_concrete() {
    let v: Vec<u32> = vec![0, 1, u32::MAX, 0x8000_0000, 42];
    let back = gpu_dispatch::codec::decode_vector(&gpu_dispatch::codec::encode_vector(&v));
    assert_eq!(back, v);
}

#[test]
fn allocate_buffers_sizes_usages_identities() {
    let set: BufferSet = allocate_buffers(VECTOR_LENGTH, ELEMENT_SIZE).unwrap();
    assert_eq!(set.input_a.size, 20);
    assert_eq!(set.input_b.size, 20);
    assert_eq!(set.output.size, 20);
    assert!(set.input_a.usage.storage && set.input_a.usage.copy_dst);
    assert!(!set.input_a.usage.copy_src && !set.input_a.usage.map_read);
    assert!(set.output.usage.storage && set.output.usage.copy_src);
    assert!(!set.output.usage.copy_dst && !set.output.usage.map_read);
    assert_ne!(set.input_a.id, set.input_b.id);
    assert_ne!(set.input_a.id, set.output.id);
    assert_ne!(set.input_b.id, set.output.id);
}

#[test]
fn allocate_buffers_rejects_zero_length() {
    assert!(matches!(
        allocate_buffers(0, ELEMENT_SIZE),
        Err(SetupError::InvalidConfig)
    ));
}

#[test]
fn allocate_buffers_rejects_zero_element_size() {
    assert!(matches!(
        allocate_buffers(VECTOR_LENGTH, 0),
        Err(SetupError::InvalidConfig)
    ));
}

#[test]
fn allocate_buffers_rejects_unaddressable_size() {
    assert!(matches!(
        allocate_buffers(usize::MAX, 2),
        Err(SetupError::InvalidConfig)
    ));
}

#[test]
fn binding_maps_slots_to_buffers() {
    let set = allocate_buffers(VECTOR_LENGTH, ELEMENT_SIZE).unwrap();
    let binding = build_binding(&kernel_argument_layout(), &set);
    assert_eq!(binding.entries.len(), 3);
    assert_eq!(binding.entries[0].slot, 0);
    assert_eq!(binding.entries[0].buffer_id, set.output.id);
    assert!(!binding.entries[0].read_only);
    assert_eq!(binding.entries[1].slot, 1);
    assert_eq!(binding.entries[1].buffer_id, set.input_a.id);
    assert!(binding.entries[1].read_only);
    assert_eq!(binding.entries[2].slot, 2);
    assert_eq!(binding.entries[2].buffer_id, set.input_b.id);
    assert!(binding.entries[2].read_only);
}

#[test]
fn compile_binary_is_accepted_unchanged() {
    let kernel = accept_compile(CompileOutcome::Binary(vec![9, 8, 7])).unwrap();
    assert_eq!(kernel.binary, vec![9, 8, 7]);
    assert_eq!(kernel.layout, kernel_argument_layout());
}

#[test]
fn compile_diagnostics_become_compile_error() {
    let r = accept_compile(CompileOutcome::Diagnostics(String::from(
        "1:3 expected expression",
    )));
    match r {
        Err(SetupError::CompileError(m)) => assert_eq!(m, "1:3 expected expression"),
        _ => panic!("expected a compile error"),
    }
}

#[test]
fn device_outcomes_map_to_context_or_fatal_error() {
    assert_eq!(create(&DeviceOutcome::Available(11)).unwrap().device_id, 11);
    assert!(matches!(
        create(&DeviceOutcome::NoAdapter),
        Err(SetupError::NoSuitableDevice)
    ));
}

#[test]
fn setup_fails_without_device() {
    let r = PipelineManager::new(&DeviceOutcome::NoAdapter, CompileOutcome::Binary(vec![1]));
    assert!(matches!(r, Err(SetupError::NoSuitableDevice)));
}

#[test]
fn setup_fails_on_malformed_kernel_source() {
    let r = PipelineManager::new(
        &DeviceOutcome::Available(7),
        CompileOutcome::Diagnostics(String::from("3:1 unknown identifier")),
    );
    match r {
        Err(SetupError::CompileError(m)) => assert_eq!(m, "3:1 unknown identifier"),
        _ => panic!("expected setup to fail with a compile error"),
    }
}

#[test]
fn setup_builds_manager_with_consistent_state() {
    let m = manager();
    assert_eq!(m.device.device_id, 7);
    assert_eq!(m.compute_pipeline.device_id, 7);
    assert_eq!(m.compute_pipeline.kernel.binary, vec![3, 2, 35, 7]);
    assert_eq!(m.bind_group.entries[0].buffer_id, m.buffers.output.id);
    assert_eq!(m.bind_group.entries[1].buffer_id, m.buffers.input_a.id);
    assert_eq!(m.bind_group.entries[2].buffer_id, m.buffers.input_b.id);
}

#[test]
fn elementwise_add_scenario() {
    let m = manager();
    let mut device = ReferenceDevice::new(KernelOp::Add);
    let a: Vec<u32> = vec![1, 2, 3, 4, 5];
    let b: Vec<u32> = vec![10, 20, 30, 40, 50];
    let r = m.compute(&mut device, &a, &b).unwrap();
    assert_eq!(r, vec![11, 22, 33, 44, 55]);
}

#[test]
fn result_has_input_length() {
    let m = manager();
    let mut device = ReferenceDevice::new(KernelOp::Add);
    let a: Vec<u32> = vec![5, 4, 3, 2, 1];
    let b: Vec<u32> = vec![9, 9, 9, 9, 9];
    let r = m.compute(&mut device, &a, &b).unwrap();
    assert_eq!(r.len(), a.len());
}

#[test]
fn addition_wraps_at_element_precision() {
    let m = manager();
    let mut device = ReferenceDevice::new(KernelOp::Add);
    let a: Vec<u32> = vec![u32::MAX, u32::MAX, 0, 1, 2];
    let b: Vec<u32> = vec![1, 5, 0, 1, 2];
    let r = m.compute(&mut device, &a, &b).unwrap();
    assert_eq!(r, vec![0, 4, 0, 2, 4]);
}

#[test]
fn repeated_dispatch_is_idempotent() {
    let m = manager();
    let mut device = ReferenceDevice::new(KernelOp::Add);
    let a: Vec<u32> = vec![7, 0, 1, u32::MAX, 12];
    let b: Vec<u32> = vec![1, 2, 3, 4, 5];
    let first = m.compute(&mut device, &a, &b).unwrap();
    let second = m.compute(&mut device, &a, &b).unwrap();
    assert_eq!(first, second);
}

#[test]
fn lost_device_yields_absence() {
    let m = manager();
    let mut device = ReferenceDevice::new(KernelOp::Add);
    device.lose();
    let a: Vec<u32> = vec![1, 2, 3, 4, 5];
    let b: Vec<u32> = vec![10, 20, 30, 40, 50];
    assert!(m.compute(&mut device, &a, &b).is_none());
}

#[test]
fn loss_mid_sequence_leaves_no_result_and_stays_fatal() {
    let m = manager();
    let mut device = ReferenceDevice::new(KernelOp::Add);
    let a: Vec<u32> = vec![1, 2, 3, 4, 5];
    let b: Vec<u32> = vec![10, 20, 30, 40, 50];
    assert!(m.compute(&mut device, &a, &b).is_some());
    device.lose();
    assert!(m.compute(&mut device, &a, &b).is_none());
    assert!(m.compute(&mut device, &a, &b).is_none());
}

#[test]
fn readback_failures_yield_absence() {
    let m = manager();
    assert!(m.get_result(&ReadbackOutcome::MapFailed).is_none());
    assert!(m.get_result(&ReadbackOutcome::DeviceLost).is_none());
    assert!(m.get_result(&ReadbackOutcome::Mapped(vec![0, 0, 0])).is_none());
}

#[test]
fn readback_of_mapped_bytes_decodes_result() {
    let m = manager();
    let bytes = gpu_dispatch::codec::encode_vector(&vec![11, 22, 33, 44, 55]);
    let r = m.get_result(&ReadbackOutcome::Mapped(bytes)).unwrap();
    assert_eq!(r, vec![11, 22, 33, 44, 55]);
}

#[test]
fn repeated_dispatches_reuse_persistent_buffers() {
    let m = manager();
    let a: Vec<u32> = vec![1, 2, 3, 4, 5];
    let b: Vec<u32> = vec![10, 20, 30, 40, 50];
    let plan1 = m.begin_dispatch(&a, &b);
    let plan2 = m.begin_dispatch(&a, &b);
    assert_eq!(plan1.commands, plan2.commands);
    assert_eq!(plan1.upload_a.id, plan2.upload_a.id);
    assert_eq!(plan1.upload_b.id, plan2.upload_b.id);
    assert_eq!(plan1.download.id, plan2.download.id);
    let persistent = [m.buffers.input_a.id, m.buffers.input_b.id, m.buffers.output.id];
    for plan in [&plan1, &plan2] {
        match plan.commands[0] {
            gpu_dispatch::dispatch::Command::CopyBuffer { dest_id, .. } => {
                assert_eq!(dest_id, persistent[0])
            }
            _ => panic!("first command must copy into input A"),
        }
        match plan.commands[1] {
            gpu_dispatch::dispatch::Command::CopyBuffer { dest_id, .. } => {
                assert_eq!(dest_id, persistent[1])
            }
            _ => panic!("second command must copy into input B"),
        }
        match plan.commands[5] {
            gpu_dispatch::dispatch::Command::CopyBuffer { source_id, .. } => {
                assert_eq!(source_id, persistent[2])
            }
            _ => panic!("last command must copy out of the output buffer"),
        }
    }
}

#[test]
fn dispatch_grid_is_one_work_unit_per_element() {
    let m = manager();
    let a: Vec<u32> = vec![1, 2, 3, 4, 5];
    let b: Vec<u32> = vec![10, 20, 30, 40, 50];
    let plan = m.begin_dispatch(&a, &b);
    match plan.commands[4] {
        gpu_dispatch::dispatch::Command::DispatchWorkUnits { x, y, z } => {
            assert_eq!(x, VECTOR_LENGTH as u32);
            assert_eq!(y, 1);
            assert_eq!(z, 1);
        }
        _ => panic!("fifth command must dispatch the grid"),
    }
}

#[test]
fn staging_copies_inputs_into_device_buffers() {
    let m = manager();
    let mut device = ReferenceDevice::new(KernelOp::Add);
    let a: Vec<u32> = vec![1, 2, 3, 4, 5];
    let b: Vec<u32> = vec![10, 20, 30, 40, 50];
    let plan = m.begin_dispatch(&a, &b);
    assert_eq!(plan.staged_a, gpu_dispatch::codec::encode_vector(&a));
    assert_eq!(plan.staged_b, gpu_dispatch::codec::encode_vector(&b));
    device.submit(&m, &plan);
    assert_eq!(device.input_a, plan.staged_a);
    assert_eq!(device.input_b, plan.staged_b);
    assert_eq!(
        device.output,
        gpu_dispatch::codec::encode_vector(&vec![11, 22, 33, 44, 55])
    );
}
