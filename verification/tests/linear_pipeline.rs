use wgpu_isosurface::codec::bytes_from_words;
use wgpu_isosurface::error::ConfigurationError;
use wgpu_isosurface::error::ConsumeError;
use wgpu_isosurface::error::MappingError;
use wgpu_isosurface::linear::SingleBufferPipeline;
use wgpu_isosurface::linear::StagedBufferPipeline;
use wgpu_isosurface::plan::INPUT_BINDING;
use wgpu_isosurface::plan::OUTPUT_BINDING;

#[test]
fn staged_capacity_must_be_whole_positive_elements() {
    assert_eq!(
        StagedBufferPipeline::new(0).err(),
        Some(ConfigurationError::InvalidCapacity)
    );
    assert_eq!(
        StagedBufferPipeline::new(10).err(),
        Some(ConfigurationError::InvalidCapacity)
    );
    assert!(StagedBufferPipeline::new(40).is_ok());
}

#[test]
fn staged_resource_plan_roles() {
    let (pipe, plan) = StagedBufferPipeline::new(40).unwrap();
    assert_eq!(pipe.capacity(), 40);
    for buffer in [
        &plan.upload_staging,
        &plan.input_buffer,
        &plan.output_buffer,
        &plan.read_staging,
    ] {
        assert_eq!(buffer.size, 40);
        assert!(!buffer.mapped_at_creation);
    }
    assert!(plan.upload_staging.usage.map_write && plan.upload_staging.usage.copy_src);
    assert!(plan.input_buffer.usage.copy_dst && plan.input_buffer.usage.storage);
    assert!(plan.output_buffer.usage.copy_src && plan.output_buffer.usage.storage);
    assert!(plan.read_staging.usage.copy_dst && plan.read_staging.usage.map_read);
    assert!(!plan.read_staging.usage.map_write);
}

#[test]
fn staged_dispatch_validates_before_any_submission() {
    let (pipe, _plan) = StagedBufferPipeline::new(40).unwrap();
    assert_eq!(
        pipe.dispatch(&Vec::new()).err(),
        Some(ConfigurationError::EmptyInput)
    );
    // 11 elements need 44 bytes: over the declared 40-byte capacity, and no
    // dispatch plan (the only thing the shell could submit) is produced.
    let over: Vec<u32> = (0..11).collect();
    let r = pipe.dispatch(&over);
    assert_eq!(r.err(), Some(ConfigurationError::CapacityMismatch));
}

#[test]
fn staged_dispatch_plan_moves_the_exact_bytes() {
    let (pipe, _plan) = StagedBufferPipeline::new(40).unwrap();
    let input = vec![1u32, 2, 3, 4, 5];
    let (plan, handle) = pipe.dispatch(&input).unwrap();
    assert_eq!(plan.host_write, bytes_from_words(&input));
    assert_eq!(plan.upload_copy_bytes, 20);
    assert_eq!(plan.input_binding, INPUT_BINDING);
    assert_eq!(plan.output_binding, OUTPUT_BINDING);
    assert_eq!((plan.grid.x, plan.grid.y, plan.grid.z), (5, 1, 1));
    assert_eq!(plan.readback_copy_bytes, 20);
    assert_eq!(plan.map_bytes, 20);
    assert_eq!(handle.len(), 5);
    assert!(!handle.is_consumed());
}

#[test]
fn single_buffer_is_created_from_the_initial_contents() {
    let initial = vec![9u32, 8, 7];
    let (pipe, plan) = SingleBufferPipeline::new(&initial).unwrap();
    assert_eq!(pipe.capacity(), 12);
    assert_eq!(plan.buffer.size, 12);
    assert!(plan.buffer.usage.storage && plan.buffer.usage.copy_src && plan.buffer.usage.copy_dst);
    assert_eq!(plan.initial_contents, bytes_from_words(&initial));
    assert_eq!(
        SingleBufferPipeline::new(&Vec::new()).err(),
        Some(ConfigurationError::EmptyInput)
    );
}

#[test]
fn identity_kernel_round_trips_through_the_single_buffer() {
    // A kernel defined as identity hands the staged bytes back unchanged:
    // the consumed output is exactly the input.
    let input = vec![1u32, 2, 3, 4, 5];
    let (pipe, _resources) = SingleBufferPipeline::new(&input).unwrap();
    let (plan, mut handle) = pipe.dispatch(&input).unwrap();
    assert_eq!((plan.grid.x, plan.grid.y, plan.grid.z), (5, 1, 1));
    assert_eq!(plan.staging.size, 20);
    assert!(plan.staging.usage.map_read && plan.staging.usage.copy_dst);
    let device_bytes = plan.host_write.clone();
    let out = handle.unwrap(Ok(device_bytes)).unwrap();
    assert_eq!(out, vec![1, 2, 3, 4, 5]);
}

#[test]
fn single_buffer_rejects_inputs_over_its_capacity() {
    let initial = vec![1u32, 2, 3];
    let (pipe, _plan) = SingleBufferPipeline::new(&initial).unwrap();
    assert!(pipe.dispatch(&vec![4, 5]).is_ok());
    assert_eq!(
        pipe.dispatch(&vec![4, 5, 6, 7]).err(),
        Some(ConfigurationError::CapacityMismatch)
    );
    assert_eq!(
        pipe.dispatch(&Vec::new()).err(),
        Some(ConfigurationError::EmptyInput)
    );
}

#[test]
fn linear_second_consume_is_rejected() {
    let input = vec![42u32];
    let (pipe, _plan) = SingleBufferPipeline::new(&input).unwrap();
    let (plan, mut handle) = pipe.dispatch(&input).unwrap();
    assert_eq!(handle.unwrap(Ok(plan.host_write.clone())).unwrap(), vec![42]);
    assert!(handle.is_consumed());
    assert_eq!(
        handle.unwrap(Ok(plan.host_write.clone())).err(),
        Some(ConsumeError::AlreadyConsumed)
    );
}

#[test]
fn linear_mapping_failure_is_propagated() {
    let input = vec![42u32];
    let (pipe, _plan) = SingleBufferPipeline::new(&input).unwrap();
    let (_dispatch, mut handle) = pipe.dispatch(&input).unwrap();
    let r = handle.unwrap(Err(MappingError::MappingFailed));
    assert_eq!(r.err(), Some(ConsumeError::Mapping(MappingError::MappingFailed)));
    assert!(handle.is_consumed());
}
