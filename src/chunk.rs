use vstd::prelude::*;

use crate::bounds::{box_encapsulate, Bounds, BoundsView};
use crate::collision::{cell_triangles, in_chunk, CollisionShape, CHUNK_SIZE, NUM_OF_BLOCKS};
use crate::cord::{fits_i32, ICord};
use crate::marching::{barrier_actions, march_plan, region_in_chunk, steps_of, CubeMarcher, GpuAction};
use crate::sync::{
    after_dirty, after_sync, sync_issued, MemBarrierBits, SynchronizationContext,
    SHADER_IMAGE_ACCESS_BARRIER_BIT, SHADER_STORAGE_BARRIER_BIT, COMMAND_BARRIER_BIT,
};
use crate::triangulation::Triangle;

verus! {

/// Cells of reach that a brush's footprint is padded by on each side.
pub const BRUSH_MARGIN: i32 = 3;

/// The chunk-local dirty cells of a brush whose footprint starts at cell
/// `min` and spans `extent` cells: the footprint padded by the margin on
/// each side and clamped to `[0, CHUNK_SIZE]`, or nothing when on some axis it
/// lies wholly outside the chunk.
pub open spec fn brush_cells(min: ICord, extent: ICord) -> BoundsView {
    let lo = ICord { x: (min.x - BRUSH_MARGIN) as i32, y: (min.y - BRUSH_MARGIN) as i32, z: (min.z - BRUSH_MARGIN) as i32 };
    let hi = ICord {
        x: (min.x + extent.x + BRUSH_MARGIN) as i32,
        y: (min.y + extent.y + BRUSH_MARGIN) as i32,
        z: (min.z + extent.z + BRUSH_MARGIN) as i32,
    };
    if outside_axis(lo.x as int, hi.x as int) || outside_axis(lo.y as int, hi.y as int) || outside_axis(lo.z as int, hi.z as int) {
        None
    } else {
        Some((
            ICord { x: clamp_axis(lo.x as int) as i32, y: clamp_axis(lo.y as int) as i32, z: clamp_axis(lo.z as int) as i32 },
            ICord { x: clamp_axis(hi.x as int) as i32, y: clamp_axis(hi.y as int) as i32, z: clamp_axis(hi.z as int) as i32 },
        ))
    }
}

/// Both ends below the chunk or both above it.
pub open spec fn outside_axis(lo: int, hi: int) -> bool {
    (lo < 0 && hi < 0) || (lo > CHUNK_SIZE && hi > CHUNK_SIZE)
}

/// Clamped to `[0, CHUNK_SIZE]`.
pub open spec fn clamp_axis(v: int) -> int {
    if v < 0 { 0 } else if v > CHUNK_SIZE { CHUNK_SIZE as int } else { v }
}

/// Footprints whose padded corners stay well inside `i32`.
pub open spec fn footprint_fits(min: ICord, extent: ICord) -> bool {
    &&& 0 <= extent.x && 0 <= extent.y && 0 <= extent.z
    &&& -0x1000_0000 <= min.x <= 0x1000_0000 && -0x1000_0000 <= min.y <= 0x1000_0000 && -0x1000_0000 <= min.z <= 0x1000_0000
    &&& extent.x <= 0x1000_0000 && extent.y <= 0x1000_0000 && extent.z <= 0x1000_0000
}

fn clamp_axis_exec(v: i32) -> (r: i32)
    ensures
        r == clamp_axis(v as int),
{
    if v < 0 {
        0
    } else if v > CHUNK_SIZE {
        CHUNK_SIZE
    } else {
        v
    }
}

fn outside_axis_exec(lo: i32, hi: i32) -> (r: bool)
    ensures
        r == outside_axis(lo as int, hi as int),
{
    (lo < 0 && hi < 0) || (lo > CHUNK_SIZE && hi > CHUNK_SIZE)
}

/// The cells of a chunk that a brush touches, from its footprint in the
/// chunk's cell units (`min` rounded down, `extent` rounded up).
pub fn chunk_space_cords(min: ICord, extent: ICord) -> (r: Bounds)
    requires
        footprint_fits(min, extent),
    ensures
        r@ == brush_cells(min, extent),
        r.wf(),
        region_in_chunk(r@),
{
    let lo = ICord { x: min.x - BRUSH_MARGIN, y: min.y - BRUSH_MARGIN, z: min.z - BRUSH_MARGIN };
    let hi = ICord {
        x: min.x + extent.x + BRUSH_MARGIN,
        y: min.y + extent.y + BRUSH_MARGIN,
        z: min.z + extent.z + BRUSH_MARGIN,
    };
    if outside_axis_exec(lo.x, hi.x) || outside_axis_exec(lo.y, hi.y) || outside_axis_exec(lo.z, hi.z) {
        Bounds::empty()
    } else {
        let a = ICord { x: clamp_axis_exec(lo.x), y: clamp_axis_exec(lo.y), z: clamp_axis_exec(lo.z) };
        let b = ICord { x: clamp_axis_exec(hi.x), y: clamp_axis_exec(hi.y), z: clamp_axis_exec(hi.z) };
        let r = Bounds::min_max(a, b);
        assert(r@ == brush_cells(min, extent));
        r
    }
}

/// Invocations of a brush kernel along each axis of one work group.
pub const BRUSH_WORK_GROUP: i32 = 8;

/// One axis of a brush's texture dispatch: the texel range `[lo, hi]` of the
/// footprint `[v_min, v_max]` clamped to `[0, tex]`, and the work groups that
/// cover `hi - lo` texels.
pub open spec fn dispatch_axis(v_min: int, v_max: int, tex: int) -> (int, int, int) {
    let a = if v_min < 0 { 0 } else { v_min };
    let b = if v_max > tex { tex } else { v_max };
    let lo = if a < b { a } else { b };
    let hi = if a < b { b } else { a };
    (lo, hi, (hi - lo + BRUSH_WORK_GROUP - 1) / (BRUSH_WORK_GROUP as int))
}

fn dispatch_axis_exec(v_min: i32, v_max: i32, tex: i32) -> (r: (i32, i32))
    requires
        -0x1000_0000 <= v_min <= 0x1000_0000,
        -0x1000_0000 <= v_max <= 0x1000_0000,
        0 < tex <= 0x1000_0000,
    ensures
        r.0 == dispatch_axis(v_min as int, v_max as int, tex as int).0,
        r.1 == dispatch_axis(v_min as int, v_max as int, tex as int).2,
{
    let a = if v_min < 0 { 0 } else { v_min };
    let b = if v_max > tex { tex } else { v_max };
    let lo = if a < b { a } else { b };
    let hi = if a < b { b } else { a };
    let g = crate::cord::ceil_div((hi - lo) as usize, BRUSH_WORK_GROUP as usize);
    assert(g == (hi - lo + 7) / 8) by (nonlinear_arith)
        requires
            g as int * 8 >= hi - lo,
            (g as int - 1) * 8 < hi - lo,
            hi - lo >= 0,
    ;
    (lo, g as i32)
}

/// The texels of a chunk's padded texture that a brush's compute pass must
/// cover, from the texture-space footprint `[min, max]` (rounded outwards):
/// the footprint clamped to `[0, tex_dim]`, as its first texel and the work
/// groups along each axis.
pub fn brush_dispatch(min: ICord, max: ICord, tex_dim: ICord) -> (r: (ICord, ICord))
    requires
        -0x1000_0000 <= min.x <= 0x1000_0000 && -0x1000_0000 <= min.y <= 0x1000_0000 && -0x1000_0000 <= min.z <= 0x1000_0000,
        -0x1000_0000 <= max.x <= 0x1000_0000 && -0x1000_0000 <= max.y <= 0x1000_0000 && -0x1000_0000 <= max.z <= 0x1000_0000,
        0 < tex_dim.x <= 0x1000_0000 && 0 < tex_dim.y <= 0x1000_0000 && 0 < tex_dim.z <= 0x1000_0000,
    ensures
        r.0.x == dispatch_axis(min.x as int, max.x as int, tex_dim.x as int).0,
        r.0.y == dispatch_axis(min.y as int, max.y as int, tex_dim.y as int).0,
        r.0.z == dispatch_axis(min.z as int, max.z as int, tex_dim.z as int).0,
        r.1.x == dispatch_axis(min.x as int, max.x as int, tex_dim.x as int).2,
        r.1.y == dispatch_axis(min.y as int, max.y as int, tex_dim.y as int).2,
        r.1.z == dispatch_axis(min.z as int, max.z as int, tex_dim.z as int).2,
{
    let (sx, gx) = dispatch_axis_exec(min.x, max.x, tex_dim.x);
    let (sy, gy) = dispatch_axis_exec(min.y, max.y, tex_dim.y);
    let (sz, gz) = dispatch_axis_exec(min.z, max.z, tex_dim.z);
    (ICord { x: sx, y: sy, z: sz }, ICord { x: gx, y: gy, z: gz })
}

/// One chunk of the field: its marcher, its collision shape, the region
/// written by brushes since the last march, and whether the collision shape
/// and the field texture's mipmaps are behind the GPU.
#[derive(Debug)]
pub struct Chunk {
    marcher: CubeMarcher,
    collision: CollisionShape,
    dirty_area: Bounds,
    is_collision_shape_dirty: bool,
    is_sdf_top_level_dirty: bool,
}

impl Chunk {
    pub closed spec fn wf(&self) -> bool {
        &&& self.collision.wf()
        &&& self.dirty_area.wf()
        &&& region_in_chunk(self.dirty_area@)
    }

    /// Cells written since the last march.
    pub closed spec fn dirty(&self) -> BoundsView {
        self.dirty_area@
    }

    /// Whether the classification must be read back before the collision
    /// shape is used.
    pub closed spec fn collision_dirty(&self) -> bool {
        self.is_collision_shape_dirty
    }

    /// Whether the field texture's mipmaps must be rebuilt before it is sampled.
    pub closed spec fn sdf_dirty(&self) -> bool {
        self.is_sdf_top_level_dirty
    }

    pub closed spec fn spec_marcher(&self) -> &CubeMarcher {
        &self.marcher
    }

    pub closed spec fn spec_collision(&self) -> CollisionShape {
        self.collision
    }

    /// A chunk whose texture has not been written yet.
    pub fn new(marcher: CubeMarcher, collision: CollisionShape) -> (r: Chunk)
        requires
            collision.wf(),
        ensures
            r.wf(),
            r.dirty() == None::<(ICord, ICord)>,
            !r.collision_dirty(),
            !r.sdf_dirty(),
            r.spec_marcher() == &marcher,
            r.spec_collision() == collision,
    {
        Chunk {
            marcher,
            collision,
            dirty_area: Bounds::empty(),
            is_collision_shape_dirty: false,
            is_sdf_top_level_dirty: false,
        }
    }

    /// Records that the whole field texture was just written (the initial
    /// fill): every cell is dirty and the mipmaps are stale.
    pub fn fill_written(&mut self, sync: &mut SynchronizationContext)
        requires
            old(self).wf(),
        ensures
            final(self).wf(),
            final(self).dirty() == Some((ICord { x: 0, y: 0, z: 0 }, ICord { x: CHUNK_SIZE, y: CHUNK_SIZE, z: CHUNK_SIZE })),
            final(self).sdf_dirty(),
            final(self).collision_dirty() == old(self).collision_dirty(),
            final(self).spec_marcher() == old(self).spec_marcher(),
            final(self).spec_collision() == old(self).spec_collision(),
            final(sync)@ == after_dirty(old(sync)@, SHADER_IMAGE_ACCESS_BARRIER_BIT),
    {
        sync.dirty(MemBarrierBits::shader_image_access());
        self.is_sdf_top_level_dirty = true;
        self.dirty_area = Bounds::min_max(ICord::zero(), ICord { x: CHUNK_SIZE, y: CHUNK_SIZE, z: CHUNK_SIZE });
    }

    /// Records a brush applied to the chunk's texture over `cells`: they join
    /// the dirty region, and the image writes become outstanding.
    pub fn apply_brush(&mut self, cells: &Bounds, sync: &mut SynchronizationContext)
        requires
            old(self).wf(),
            cells.wf(),
            region_in_chunk(cells@),
        ensures
            final(self).wf(),
            final(self).dirty() == match cells@ {
                Some((lo, hi)) => box_encapsulate(box_encapsulate(old(self).dirty(), lo), hi),
                None => old(self).dirty(),
            },
            final(self).sdf_dirty() == final(self).dirty().is_some(),
            final(self).collision_dirty() == old(self).collision_dirty(),
            final(self).spec_marcher() == old(self).spec_marcher(),
            final(self).spec_collision() == old(self).spec_collision(),
            final(sync)@ == after_dirty(old(sync)@, SHADER_IMAGE_ACCESS_BARRIER_BIT),
    {
        self.dirty_area.encapsulate_other(cells);
        self.is_sdf_top_level_dirty = self.dirty_area.has_values();
        sync.dirty(MemBarrierBits::shader_image_access());
    }

    /// Before a brush or a march reads the field texture, earlier image
    /// writes must be visible: the barrier to issue, if any.
    pub fn before_march(&self, sync: &mut SynchronizationContext) -> (r: Option<MemBarrierBits>)
        ensures
            final(sync)@ == after_sync(old(sync)@, SHADER_IMAGE_ACCESS_BARRIER_BIT),
            r == if sync_issued(old(sync)@, SHADER_IMAGE_ACCESS_BARRIER_BIT) != 0 {
                Some(MemBarrierBits(sync_issued(old(sync)@, SHADER_IMAGE_ACCESS_BARRIER_BIT)))
            } else {
                None::<MemBarrierBits>
            },
    {
        sync.sync(MemBarrierBits::shader_image_access())
    }

    pub fn march_steps_count(&self) -> (r: usize)
        ensures
            r == steps_of(self.spec_marcher()),
    {
        self.marcher.march_steps_count()
    }

    /// Step `step` of the march over the dirty region.
    pub fn march_step(&self, step: usize, sync: &mut SynchronizationContext) -> (r: Vec<GpuAction>)
        requires
            self.wf(),
            step < steps_of(self.spec_marcher()),
        ensures
            (r@, final(sync)@) == march_plan(self.spec_marcher().is_full(), step as nat, self.dirty(), old(sync)@),
    {
        self.marcher.march(step, &self.dirty_area, sync)
    }

    /// After every step of a march: the surface now covers the dirty region,
    /// which is cleared, and the collision shape must be read back.
    pub fn after_march(&mut self)
        requires
            old(self).wf(),
        ensures
            final(self).wf(),
            final(self).dirty() == None::<(ICord, ICord)>,
            final(self).collision_dirty(),
            final(self).sdf_dirty() == old(self).sdf_dirty(),
            final(self).spec_marcher() == old(self).spec_marcher(),
            final(self).spec_collision() == old(self).spec_collision(),
    {
        self.is_collision_shape_dirty = true;
        self.dirty_area = Bounds::empty();
    }

    /// A whole march of this chunk alone: the barrier for earlier image
    /// writes, then every step in order.
    pub fn march(&mut self, sync: &mut SynchronizationContext) -> (r: Vec<GpuAction>)
        requires
            old(self).wf(),
        ensures
            final(self).wf(),
            final(self).dirty() == None::<(ICord, ICord)>,
            final(self).collision_dirty(),
            final(self).sdf_dirty() == old(self).sdf_dirty(),
            final(self).spec_marcher() == old(self).spec_marcher(),
            final(self).spec_collision() == old(self).spec_collision(),
            ({
                let s0 = after_sync(old(sync)@, SHADER_IMAGE_ACCESS_BARRIER_BIT);
                let first_plan = march_plan(old(self).spec_marcher().is_full(), 0, old(self).dirty(), s0);
                let second_plan = march_plan(old(self).spec_marcher().is_full(), 1, old(self).dirty(), first_plan.1);
                if old(self).spec_marcher().is_full() {
                    r@ == barrier_actions(sync_issued(old(sync)@, SHADER_IMAGE_ACCESS_BARRIER_BIT)) + first_plan.0
                        && final(sync)@ == first_plan.1
                } else {
                    r@ == barrier_actions(sync_issued(old(sync)@, SHADER_IMAGE_ACCESS_BARRIER_BIT)) + first_plan.0 + second_plan.0
                        && final(sync)@ == second_plan.1
                }
            }),
    {
        let mut actions: Vec<GpuAction> = Vec::new();
        match self.before_march(sync) {
            Some(b) => actions.push(GpuAction::Barrier(b)),
            None => {},
        }
        let ghost a0 = actions@;
        assert(a0 =~= barrier_actions(sync_issued(old(sync)@, SHADER_IMAGE_ACCESS_BARRIER_BIT)));
        let mut first = self.march_step(0, sync);
        actions.append(&mut first);
        let ghost a1 = actions@;
        if self.march_steps_count() > 1 {
            let mut second = self.march_step(1, sync);
            actions.append(&mut second);
        }
        self.after_march();
        actions
    }

    /// Before the collision shape is used: when the classification changed
    /// since it was last read back, the barrier that makes the marching
    /// writes visible (possibly none) is returned, and the caller must read
    /// the classification buffer back and hand it to `finish_readback`.
    /// `None` when no readback is needed.
    pub fn begin_readback(&self, sync: &mut SynchronizationContext) -> (r: Option<Option<MemBarrierBits>>)
        ensures
            self.collision_dirty() ==> {
                &&& final(sync)@ == after_sync(old(sync)@, SHADER_STORAGE_BARRIER_BIT)
                &&& r == Some(if sync_issued(old(sync)@, SHADER_STORAGE_BARRIER_BIT) != 0 {
                    Some(MemBarrierBits(sync_issued(old(sync)@, SHADER_STORAGE_BARRIER_BIT)))
                } else {
                    None::<MemBarrierBits>
                })
            },
            !self.collision_dirty() ==> final(sync)@ == old(sync)@ && r == None::<Option<MemBarrierBits>>,
    {
        if self.is_collision_shape_dirty {
            Some(sync.sync(MemBarrierBits::shader_storage()))
        } else {
            None
        }
    }

    /// Whether the collision shape waits for a readback.
    pub fn collision_needs_readback(&self) -> (r: bool)
        ensures
            r == self.collision_dirty(),
    {
        self.is_collision_shape_dirty
    }

    /// Takes the classification read back after `begin_readback`.
    pub fn finish_readback(&mut self, data: &[u32])
        requires
            old(self).wf(),
            data@.len() == NUM_OF_BLOCKS,
        ensures
            final(self).wf(),
            !final(self).collision_dirty(),
            final(self).spec_collision().raw() == data@,
            final(self).dirty() == old(self).dirty(),
            final(self).sdf_dirty() == old(self).sdf_dirty(),
            final(self).spec_marcher() == old(self).spec_marcher(),
    {
        self.collision.readback(data);
        self.is_collision_shape_dirty = false;
    }

    /// The collision triangles of one cell of the chunk.
    pub fn cell_triangles(&mut self, cell: ICord) -> (r: Vec<Triangle>)
        requires
            old(self).wf(),
            !old(self).collision_dirty(),
            in_chunk(cell),
        ensures
            final(self).wf(),
            r@ == cell_triangles(old(self).spec_collision().raw(), cell),
            final(self).spec_collision().raw() == old(self).spec_collision().raw(),
            final(self).dirty() == old(self).dirty(),
            final(self).collision_dirty() == old(self).collision_dirty(),
            final(self).sdf_dirty() == old(self).sdf_dirty(),
            final(self).spec_marcher() == old(self).spec_marcher(),
    {
        self.collision.get(cell)
    }

    /// Before the field texture is sampled (drawing): the barrier for image
    /// writes, then a mipmap rebuild when the texture changed.
    pub fn actualise_texture(&mut self, sync: &mut SynchronizationContext) -> (r: Vec<GpuAction>)
        requires
            old(self).wf(),
        ensures
            final(self).wf(),
            !final(self).sdf_dirty(),
            final(self).dirty() == old(self).dirty(),
            final(self).collision_dirty() == old(self).collision_dirty(),
            final(self).spec_marcher() == old(self).spec_marcher(),
            final(self).spec_collision() == old(self).spec_collision(),
            final(sync)@ == after_sync(old(sync)@, SHADER_IMAGE_ACCESS_BARRIER_BIT),
            r@ == barrier_actions(sync_issued(old(sync)@, SHADER_IMAGE_ACCESS_BARRIER_BIT)) + if old(self).sdf_dirty() {
                seq![GpuAction::GenerateMipmaps]
            } else {
                Seq::empty()
            },
    {
        let mut actions: Vec<GpuAction> = Vec::new();
        match sync.sync(MemBarrierBits::shader_image_access()) {
            Some(b) => actions.push(GpuAction::Barrier(b)),
            None => {},
        }
        if self.is_sdf_top_level_dirty {
            actions.push(GpuAction::GenerateMipmaps);
            self.is_sdf_top_level_dirty = false;
        }
        assert(actions@ =~= barrier_actions(sync_issued(old(sync)@, SHADER_IMAGE_ACCESS_BARRIER_BIT)) + if old(self).sdf_dirty() {
                seq![GpuAction::GenerateMipmaps]
            } else {
                Seq::empty()
            });
        actions
    }

    /// Drawing the chunk: its texture brought up to date, then the marcher's draw.
    pub fn draw(&mut self, sync: &mut SynchronizationContext) -> (r: Vec<GpuAction>)
        requires
            old(self).wf(),
        ensures
            final(self).wf(),
            !final(self).sdf_dirty(),
            final(self).dirty() == old(self).dirty(),
            final(self).collision_dirty() == old(self).collision_dirty(),
            final(self).spec_marcher() == old(self).spec_marcher(),
            final(self).spec_collision() == old(self).spec_collision(),
            final(sync)@ == after_sync(
                after_sync(old(sync)@, SHADER_IMAGE_ACCESS_BARRIER_BIT),
                SHADER_STORAGE_BARRIER_BIT | COMMAND_BARRIER_BIT,
            ),
            r@ == barrier_actions(sync_issued(old(sync)@, SHADER_IMAGE_ACCESS_BARRIER_BIT)) + (if old(
                self,
            ).sdf_dirty() {
                seq![GpuAction::GenerateMipmaps]
            } else {
                Seq::empty()
            }) + barrier_actions(
                sync_issued(
                    after_sync(old(sync)@, SHADER_IMAGE_ACCESS_BARRIER_BIT),
                    SHADER_STORAGE_BARRIER_BIT | COMMAND_BARRIER_BIT,
                ),
            ) + seq![GpuAction::DrawIndirect],
    {
        let mut actions = self.actualise_texture(sync);
        let ghost first = actions@;
        let mut d = self.marcher.draw(sync);
        let ghost second = d@;
        actions.append(&mut d);
        assert(actions@ =~= first + second);
        actions
    }
}

} // verus!
