use wgpu_isosurface::codec::bytes_from_words;
use wgpu_isosurface::dual_contour::DualContourPipeline;
use wgpu_isosurface::dual_contour::DualContourPipelinePool;
use wgpu_isosurface::dual_contour::TEXEL_SIZE;
use wgpu_isosurface::error::ConfigurationError;
use wgpu_isosurface::error::ConsumeError;
use wgpu_isosurface::error::MappingError;
use wgpu_isosurface::extent::Extent;
use wgpu_isosurface::plan::TexelFormat;
use wgpu_isosurface::plan::INPUT_BINDING;
use wgpu_isosurface::plan::OUTPUT_BINDING;

/// Fabricates the raw contents of the staging buffer of an `extent`-shaped
/// dispatch: each row holds `width` real elements from `rows` and is padded
/// to the hardware pitch with the word `filler`.
fn padded_staging_bytes(extent: &Extent, rows: &[Vec<u32>], filler: u32) -> Vec<u8> {
    let row_words = 256 / TEXEL_SIZE as usize; // width * 4 < 256 in these tests
    let mut words: Vec<u32> = Vec::new();
    for row in rows {
        assert_eq!(row.len(), extent.width as usize);
        words.extend_from_slice(row);
        for _ in row.len()..row_words {
            words.push(filler);
        }
    }
    assert_eq!(words.len(), row_words * (extent.height * extent.depth) as usize);
    bytes_from_words(&words)
}

#[test]
fn zero_dimension_extent_is_rejected() {
    assert_eq!(
        DualContourPipeline::new(Extent::new(0, 4, 4)).err(),
        Some(ConfigurationError::InvalidExtent)
    );
    assert_eq!(
        DualContourPipeline::new(Extent::new(4, 0, 4)).err(),
        Some(ConfigurationError::InvalidExtent)
    );
    assert_eq!(
        DualContourPipeline::new(Extent::new(4, 4, 0)).err(),
        Some(ConfigurationError::InvalidExtent)
    );
}

#[test]
fn oversized_extent_is_rejected() {
    // A row this wide cannot declare a 32-bit padded pitch.
    let too_wide = (u32::MAX - 255) / TEXEL_SIZE + 1;
    assert_eq!(
        DualContourPipeline::new(Extent::new(too_wide, 1, 1)).err(),
        Some(ConfigurationError::InvalidExtent)
    );
    assert!(DualContourPipeline::new(Extent::new(too_wide - 1, 1, 1)).is_ok());
    // A staging size beyond 64 bits is rejected outright.
    assert_eq!(
        DualContourPipeline::new(Extent::new(u32::MAX / 4, u32::MAX, u32::MAX)).err(),
        Some(ConfigurationError::InvalidExtent)
    );
}

#[test]
fn resource_plan_sizes_and_roles() {
    let extent = Extent::new(3, 2, 2);
    let (_pipe, plan) = DualContourPipeline::new(extent).unwrap();
    assert_eq!(plan.sdf_texture.extent, extent);
    assert_eq!(plan.sdf_texture.format, TexelFormat::R32Float);
    assert!(plan.sdf_texture.usage.copy_dst && plan.sdf_texture.usage.storage);
    assert!(!plan.sdf_texture.usage.copy_src && !plan.sdf_texture.usage.map_read);
    assert_eq!(plan.surface_texture.format, TexelFormat::R32Uint);
    assert!(plan.surface_texture.usage.copy_src && plan.surface_texture.usage.storage);
    // Rows of 3 texels pad from 12 bytes to one 256-byte block; 4 rows.
    assert_eq!(plan.surface_staging_buffer.size, 256 * 4);
    assert!(plan.surface_staging_buffer.usage.copy_dst && plan.surface_staging_buffer.usage.map_read);
    assert!(!plan.surface_staging_buffer.mapped_at_creation);
}

#[test]
fn capacity_mismatch_fails_before_any_submission() {
    let extent = Extent::new(3, 2, 2);
    let (pipe, _plan) = DualContourPipeline::new(extent).unwrap();
    // Volume is 12; a 5-element field is rejected and no dispatch plan (the
    // only thing the shell could submit) is ever produced.
    let r = pipe.dispatch(&vec![1, 2, 3, 4, 5]);
    assert_eq!(r.err(), Some(ConfigurationError::CapacityMismatch));
}

#[test]
fn dispatch_plan_grid_and_layouts() {
    let extent = Extent::new(3, 2, 2);
    let (pipe, _plan) = DualContourPipeline::new(extent).unwrap();
    let field: Vec<u32> = (0..12).collect();
    let (plan, handle) = pipe.dispatch(&field).unwrap();
    assert_eq!(plan.extent, extent);
    // Host writes declare the unpadded pitch; the driver repacks.
    assert_eq!(plan.write_layout.offset, 0);
    assert_eq!(plan.write_layout.bytes_per_row, 3 * 4);
    assert_eq!(plan.write_layout.rows_per_image, 2);
    assert_eq!(plan.input_binding, INPUT_BINDING);
    assert_eq!(plan.output_binding, OUTPUT_BINDING);
    // One invocation per cell of extent - 1 on each axis.
    assert_eq!((plan.grid.x, plan.grid.y, plan.grid.z), (2, 1, 1));
    // The copy out declares the padded pitch.
    assert_eq!(plan.copy_layout.bytes_per_row, 256);
    assert_eq!(plan.copy_layout.rows_per_image, 2);
    assert_eq!(plan.map_bytes, 256 * 4);
    assert!(!handle.is_consumed());
}

#[test]
fn padding_is_stripped_from_extracted_output() {
    // Width 3 is not a multiple of alignment / element size (64): every row
    // carries padding, and the padding bytes are not zero here.
    let extent = Extent::new(3, 2, 2);
    let (pipe, _plan) = DualContourPipeline::new(extent).unwrap();
    let field: Vec<u32> = (0..12).collect();
    let (_dispatch, mut handle) = pipe.dispatch(&field).unwrap();
    let rows: Vec<Vec<u32>> = (0..4).map(|r| vec![100 * r, 100 * r + 1, 100 * r + 2]).collect();
    let bytes = padded_staging_bytes(&extent, &rows, 0xDEAD_BEEF);
    let out = handle.unwrap(Ok(bytes)).unwrap();
    // The logical volume, not the padded staging count.
    assert_eq!(out.len(), 12);
    assert_eq!(
        out,
        vec![0, 1, 2, 100, 101, 102, 200, 201, 202, 300, 301, 302]
    );
}

#[test]
fn second_consume_is_rejected() {
    let extent = Extent::new(3, 1, 1);
    let (pipe, _plan) = DualContourPipeline::new(extent).unwrap();
    let (_dispatch, mut handle) = pipe.dispatch(&vec![7, 8, 9]).unwrap();
    let rows = vec![vec![1, 2, 3]];
    let bytes = padded_staging_bytes(&extent, &rows, 0);
    assert_eq!(handle.unwrap(Ok(bytes.clone())).unwrap(), vec![1, 2, 3]);
    assert!(handle.is_consumed());
    // The second consume is rejected outright; it does not return stale or
    // empty data.
    assert_eq!(handle.unwrap(Ok(bytes)).err(), Some(ConsumeError::AlreadyConsumed));
}

#[test]
fn mapping_failure_is_propagated() {
    let extent = Extent::new(3, 1, 1);
    let (pipe, _plan) = DualContourPipeline::new(extent).unwrap();
    let (_dispatch, mut handle) = pipe.dispatch(&vec![7, 8, 9]).unwrap();
    let r = handle.unwrap(Err(MappingError::DeviceLost));
    assert_eq!(r.err(), Some(ConsumeError::Mapping(MappingError::DeviceLost)));
    assert!(handle.is_consumed());
}

#[test]
fn pool_rotates_through_independent_sets() {
    let extent = Extent::new(3, 1, 1);
    assert_eq!(
        DualContourPipelinePool::new(extent, 0).err(),
        Some(ConfigurationError::InvalidCapacity)
    );
    assert_eq!(
        DualContourPipelinePool::new(Extent::new(0, 1, 1), 2).err(),
        Some(ConfigurationError::InvalidExtent)
    );
    let (mut pool, plans) = DualContourPipelinePool::new(extent, 2).unwrap();
    assert_eq!(pool.len(), 2);
    assert_eq!(plans.len(), 2);
    assert_eq!(plans[0], plans[1]);
    let field = vec![1, 2, 3];
    // Successive dispatches rotate over the sets, so each set has at most
    // one handle outstanding.
    let (i0, _p0, h0) = pool.dispatch(&field).unwrap();
    let (i1, _p1, h1) = pool.dispatch(&field).unwrap();
    let (i2, _p2, _h2) = pool.dispatch(&field).unwrap();
    assert_eq!((i0, i1, i2), (0, 1, 0));
    assert!(!h0.is_consumed() && !h1.is_consumed());
    // A rejected request does not move the rotation.
    assert_eq!(
        pool.dispatch(&vec![1]).err(),
        Some(ConfigurationError::CapacityMismatch)
    );
    let (i3, _p3, _h3) = pool.dispatch(&field).unwrap();
    assert_eq!(i3, 1);
}

#[test]
fn consuming_in_issue_order_is_deterministic() {
    // Two whole dispatch-then-consume rounds with the same input and the
    // same device bytes: with no overlap between dispatches, the outputs
    // are reproducible.
    let extent = Extent::new(3, 2, 1);
    let field: Vec<u32> = (5..11).collect();
    let rows: Vec<Vec<u32>> = vec![vec![10, 11, 12], vec![13, 14, 15]];
    let mut outputs = Vec::new();
    for _ in 0..2 {
        let (pipe, _plan) = DualContourPipeline::new(extent).unwrap();
        let mut round = Vec::new();
        for filler in [0u32, 0xFFFF_FFFF] {
            let (_dispatch, mut handle) = pipe.dispatch(&field).unwrap();
            let bytes = padded_staging_bytes(&extent, &rows, filler);
            round.push(handle.unwrap(Ok(bytes)).unwrap());
        }
        outputs.push(round);
    }
    assert_eq!(outputs[0], outputs[1]);
    assert_eq!(outputs[0][0], outputs[0][1]);
}
