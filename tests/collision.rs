use sdf_sculpt::bit_field::{BitField, NUM_OF_BITMASK_VALUES};
use sdf_sculpt::collision::{CollisionShape, NUM_OF_BLOCKS};
use sdf_sculpt::cord::ICord;
use sdf_sculpt::gpu::{
    Buffer, FilterMode, MipMapFilterMode, TextureAccess, Usage, UsageFrequency, UsagePattern,
};
use sdf_sculpt::triangulation::{triangulate_centers, tri_row, Triangle};

fn c(x: i32, y: i32, z: i32) -> ICord {
    ICord { x, y, z }
}

#[test]
fn every_case_gives_at_most_five_triangles() {
    let mut total = 0;
    for config in 0..=255u8 {
        let tris = triangulate_centers(config, c(3, 4, 5));
        assert!(tris.len() <= 5);
        total += tris.len();
    }
    assert!(total > 0);
    assert_eq!(triangulate_centers(0, c(0, 0, 0)).len(), 0);
    assert_eq!(triangulate_centers(255, c(0, 0, 0)).len(), 0);
}

#[test]
fn case_one_is_the_corner_triangle() {
    // Corner 0 inside: edges 0, 8 and 3 around the origin corner.
    assert_eq!(&tri_row(1)[0..4], &[0, 8, 3, -1]);
    let tris = triangulate_centers(1, c(2, 0, 1));
    assert_eq!(
        tris,
        vec![Triangle { a: c(5, 0, 2), b: c(4, 0, 3), c: c(4, 1, 2) }]
    );
}

#[test]
fn complementary_cases_have_equal_triangle_counts_for_single_corners() {
    for corner in 0..8u8 {
        let single = 1u8 << corner;
        assert_eq!(triangulate_centers(single, c(0, 0, 0)).len(), 1);
        assert_eq!(triangulate_centers(!single, c(0, 0, 0)).len(), 1);
    }
}

#[test]
fn new_shape_is_empty() {
    let mut shape = CollisionShape::new(Buffer::from_id(7));
    assert_eq!(shape.buffer().id(), 7);
    assert!(shape.get(c(0, 0, 0)).is_empty());
    assert!(shape.get(c(47, 47, 47)).is_empty());
}

#[test]
fn readback_decodes_packed_bytes() {
    let mut shape = CollisionShape::new(Buffer::from_id(1));
    let mut data = vec![0u32; NUM_OF_BLOCKS];
    // Cell 1 (x = 1) is byte 1 of word 0; cell 48 (y = 1) is byte 0 of word 12.
    data[0] = 0x0000_0100;
    data[12] = 0x0000_00FF;
    shape.readback(&data);
    assert!(shape.get(c(0, 0, 0)).is_empty());
    let one = shape.get(c(1, 0, 0));
    assert_eq!(one, triangulate_centers(1, c(1, 0, 0)));
    assert_eq!(one.len(), 1);
    // 0xFF: every corner inside, no surface.
    assert!(shape.get(c(0, 1, 0)).is_empty());
}

#[test]
fn repeated_get_returns_cached_triangles() {
    let mut shape = CollisionShape::new(Buffer::from_id(1));
    let mut data = vec![0u32; NUM_OF_BLOCKS];
    data[0] = 0x0000_6900;
    shape.readback(&data);
    let first = shape.get(c(1, 0, 0));
    let second = shape.get(c(1, 0, 0));
    assert_eq!(first, second);
    assert_eq!(first.len(), 4);
    // A new readback replaces the cached triangles.
    data[0] = 0;
    shape.readback(&data);
    assert!(shape.get(c(1, 0, 0)).is_empty());
}

#[test]
fn bit_field_reads_cell_bits() {
    let mut field = BitField::new(Buffer::from_id(3));
    assert!(!field.get(c(5, 0, 0)));
    let mut data = vec![0u32; NUM_OF_BITMASK_VALUES];
    data[0] = 1 << 5;
    data[1] = 1 << 16; // cell 48: x = 0, y = 1
    field.readback(&data);
    assert!(field.get(c(5, 0, 0)));
    assert!(!field.get(c(4, 0, 0)));
    assert!(field.get(c(0, 1, 0)));
    assert_eq!(field.buffer().id(), 3);
    *field.buffer_mut() = Buffer::from_id(4);
    assert_eq!(field.buffer().id(), 4);
}

#[test]
fn gpu_descriptor_values() {
    assert_eq!(Usage::static_draw().gl_usage(), 0x88E4);
    assert_eq!(Usage::dynamic_read().gl_usage(), 0x88E9);
    assert_eq!(Usage::dynamic_copy().gl_usage(), 0x88EA);
    assert_eq!(Usage(UsageFrequency::Stream, UsagePattern::Copy).gl_usage(), 0x88E2);
    assert_eq!(TextureAccess::ReadWrite.gl_access(), 0x88BA);
    assert_eq!(FilterMode::Linear.param_value(), 0x2601);
    let trilinear = MipMapFilterMode { tex_filter: FilterMode::Linear, mip_filter: FilterMode::Linear };
    assert_eq!(trilinear.param_value(), 0x2703);
    let m = MipMapFilterMode { tex_filter: FilterMode::Nearest, mip_filter: FilterMode::Linear };
    assert_eq!(m.param_value(), 0x2702);
}
