use sdf_sculpt::bounds::Bounds;
use sdf_sculpt::chunk::{brush_dispatch, chunk_space_cords, Chunk};
use sdf_sculpt::collision::{CollisionShape, NUM_OF_BLOCKS};
use sdf_sculpt::cord::ICord;
use sdf_sculpt::field::{chunk_range, BrushStroke, ChunkAction, Field};
use sdf_sculpt::gpu::Buffer;
use sdf_sculpt::marching::{BlockCubeMarcher, CubeMarcher, FullCubeMarcher, GpuAction};
use sdf_sculpt::sync::{MemBarrierBits, SynchronizationContext};

fn c(x: i32, y: i32, z: i32) -> ICord {
    ICord { x, y, z }
}

fn full() -> CubeMarcher {
    CubeMarcher::Full(FullCubeMarcher::new(Buffer::from_id(10)))
}

fn block() -> CubeMarcher {
    CubeMarcher::Block(BlockCubeMarcher::new(Buffer::from_id(11), Buffer::from_id(12), Buffer::from_id(13)))
}

fn new_chunk(marcher: CubeMarcher) -> Chunk {
    Chunk::new(marcher, CollisionShape::new(Buffer::from_id(20)))
}

#[test]
fn step_counts() {
    assert_eq!(full().march_steps_count(), 1);
    assert_eq!(block().march_steps_count(), 2);
    assert_eq!(FullCubeMarcher::new(Buffer::from_id(5)).command_buffer().id(), 5);
    let (a, b, d) = BlockCubeMarcher::new(Buffer::from_id(1), Buffer::from_id(2), Buffer::from_id(3)).buffers();
    assert_eq!((a.id(), b.id(), d.id()), (1, 2, 3));
}

#[test]
fn empty_dirty_region_skips_the_march() {
    let mut sync = SynchronizationContext::new();
    assert!(full().march(0, &Bounds::empty(), &mut sync).is_empty());
    assert!(block().march(0, &Bounds::empty(), &mut sync).is_empty());
    assert!(block().march(1, &Bounds::empty(), &mut sync).is_empty());
    assert_eq!(sync.sync(MemBarrierBits::all()), None);
}

#[test]
fn full_march_covers_the_chunk() {
    let mut sync = SynchronizationContext::new();
    let dirty = Bounds::min_max(c(4, 4, 4), c(8, 8, 8));
    let actions = full().march(0, &dirty, &mut sync);
    assert_eq!(
        actions,
        vec![
            GpuAction::ResetDrawCommand,
            GpuAction::Barrier(MemBarrierBits::buffer_update()),
            GpuAction::DispatchMarch { start: c(0, 0, 0), groups: c(12, 12, 12) },
        ]
    );
    let outstanding = MemBarrierBits::shader_storage().union(MemBarrierBits::command());
    assert_eq!(sync.sync(MemBarrierBits::all()), Some(outstanding));
}

#[test]
fn block_march_dispatches_the_dirty_region_then_indexes() {
    let mut sync = SynchronizationContext::new();
    let dirty = Bounds::min_max(c(2, 0, 10), c(11, 4, 10));
    let m = block();
    let first = m.march(0, &dirty, &mut sync);
    assert_eq!(
        first,
        vec![
            GpuAction::ResetDrawCommand,
            GpuAction::Barrier(MemBarrierBits::buffer_update()),
            GpuAction::DispatchMarch { start: c(2, 0, 10), groups: c(3, 1, 0) },
        ]
    );
    let second = m.march(1, &dirty, &mut sync);
    assert_eq!(
        second,
        vec![
            GpuAction::Barrier(MemBarrierBits::shader_storage()),
            GpuAction::DispatchIndexer { groups: c(12, 12, 12) },
        ]
    );
    let draw = m.draw(&mut sync);
    let both = MemBarrierBits::shader_storage().union(MemBarrierBits::command());
    assert_eq!(draw, vec![GpuAction::Barrier(both), GpuAction::DrawIndirect]);
}

#[test]
fn chunk_space_cords_pads_and_clamps() {
    let b = chunk_space_cords(c(10, 20, 30), c(4, 4, 4));
    assert_eq!((b.min(), b.max()), (c(7, 17, 27), c(17, 27, 37)));
    let clamped = chunk_space_cords(c(-2, 45, 0), c(4, 4, 4));
    assert_eq!((clamped.min(), clamped.max()), (c(0, 42, 0), c(5, 48, 7)));
    assert!(!chunk_space_cords(c(-20, 0, 0), c(4, 4, 4)).has_values());
    assert!(!chunk_space_cords(c(0, 60, 0), c(4, 4, 4)).has_values());
}

#[test]
fn chunk_brush_and_march_lifecycle() {
    let mut sync = SynchronizationContext::new();
    let mut chunk = new_chunk(block());
    chunk.fill_written(&mut sync);
    let actions = chunk.march(&mut sync);
    assert_eq!(actions[0], GpuAction::Barrier(MemBarrierBits::shader_image_access()));
    assert!(actions.contains(&GpuAction::DispatchMarch { start: c(0, 0, 0), groups: c(12, 12, 12) }));
    assert_eq!(actions.last(), Some(&GpuAction::DispatchIndexer { groups: c(12, 12, 12) }));
    // The collision shape now needs a readback.
    let barrier = chunk.begin_readback(&mut sync);
    assert_eq!(barrier, Some(Some(MemBarrierBits::shader_storage())));
    let mut data = vec![0u32; NUM_OF_BLOCKS];
    data[0] = 1;
    chunk.finish_readback(&data);
    assert_eq!(chunk.begin_readback(&mut sync), None);
    assert_eq!(chunk.cell_triangles(c(0, 0, 0)).len(), 1);
    // Nothing dirty: a second march does no GPU work but the image barrier.
    let again = chunk.march(&mut sync);
    assert!(again.iter().all(|a| matches!(a, GpuAction::Barrier(_))));
    let draw = chunk.draw(&mut sync);
    assert_eq!(draw.last(), Some(&GpuAction::DrawIndirect));
    assert!(draw.contains(&GpuAction::GenerateMipmaps));
}

#[test]
fn chunk_range_covers_neighbours_within_margin() {
    let r = chunk_range(&BrushStroke { cell_min: c(20, 20, 20), cell_extent: c(8, 8, 8) });
    assert_eq!((r.min(), r.max()), (c(0, 0, 0), c(0, 0, 0)));
    let r = chunk_range(&BrushStroke { cell_min: c(2, 44, -1), cell_extent: c(4, 4, 4) });
    assert_eq!((r.min(), r.max()), (c(-1, 0, -1), c(0, 1, 0)));
}

#[test]
fn field_brush_at_center_marches_one_chunk() {
    let mut field = Field::new();
    let stroke = BrushStroke { cell_min: c(20, 20, 20), cell_extent: c(8, 8, 8) };
    assert_eq!(field.missing_chunks(&stroke), vec![c(0, 0, 0)]);
    let actions = field.apply_brush(&stroke, vec![new_chunk(block())]);
    assert!(field.missing_chunks(&stroke).is_empty());
    assert!(field.contains_key(c(0, 0, 0)));
    assert_eq!(actions[0], ChunkAction { cord: c(0, 0, 0), action: GpuAction::ApplyBrush });
    let dispatch = ChunkAction {
        cord: c(0, 0, 0),
        action: GpuAction::DispatchMarch { start: c(17, 17, 17), groups: c(4, 4, 4) },
    };
    assert!(actions.contains(&dispatch));
    assert!(actions.iter().any(|a| matches!(a.action, GpuAction::DispatchIndexer { .. })));
}

#[test]
fn field_multi_chunk_stroke_runs_steps_in_lockstep() {
    let mut field = Field::new();
    let stroke = BrushStroke { cell_min: c(44, 20, 20), cell_extent: c(6, 2, 2) };
    let missing = field.missing_chunks(&stroke);
    assert_eq!(missing, vec![c(0, 0, 0), c(1, 0, 0)]);
    field.insert_chunk_at(c(0, 0, 0), new_chunk(block()));
    assert_eq!(field.missing_chunks(&stroke), vec![c(1, 0, 0)]);
    let actions = field.apply_brush(&stroke, vec![new_chunk(full())]);
    assert!(field.contains_key(c(1, 0, 0)));
    let again = field.apply_brush(&stroke, Vec::new());
    assert_eq!(again[0].action, GpuAction::ApplyBrush);
    assert_eq!(actions[0].action, GpuAction::ApplyBrush);
    assert_eq!(actions[1], ChunkAction { cord: c(1, 0, 0), action: GpuAction::ApplyBrush });
    let last_march = actions.iter().rposition(|a| matches!(a.action, GpuAction::DispatchMarch { .. })).unwrap();
    let first_index = actions.iter().position(|a| matches!(a.action, GpuAction::DispatchIndexer { .. })).unwrap();
    assert!(last_march < first_index);
    let marches = actions.iter().filter(|a| matches!(a.action, GpuAction::DispatchMarch { .. })).count();
    assert_eq!(marches, 2);
}

#[test]
fn brush_dispatch_clamps_and_counts_groups() {
    let (start, groups) = brush_dispatch(c(-3, 10, 60), c(20, 30, 70), c(65, 65, 65));
    assert_eq!(start, c(0, 10, 60));
    assert_eq!(groups, c(3, 3, 1));
}
