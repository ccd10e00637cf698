use vstd::prelude::*;

use crate::bounds::Bounds;
use crate::collision::CHUNK_SIZE;
use crate::cord::{ceil_div, ICord};
use crate::gpu::Buffer;
use crate::sync::{
    after_dirty, after_sync, sync_issued, MemBarrierBits, SynchronizationContext,
    BUFFER_UPDATE_BARRIER_BIT, COMMAND_BARRIER_BIT, SHADER_STORAGE_BARRIER_BIT,
};

verus! {

/// Invocations of the marching kernels along each axis of one work group.
pub const WORK_GROUP: i32 = 4;

/// Work groups along each axis that cover a whole chunk.
pub const CHUNK_GROUPS: i32 = 12;

/// One piece of GPU work that a march or a draw asks the caller to perform,
/// in the order given.
#[derive(Clone, Copy, Debug, PartialEq, Eq, Structural)]
pub enum GpuAction {
    /// Zero the indirect draw command (its vertex or index count).
    ResetDrawCommand,
    /// Issue a memory barrier for these kinds.
    Barrier(MemBarrierBits),
    /// Run the marching kernel on the cells from `start`, with `groups` work
    /// groups along each axis.
    DispatchMarch { start: ICord, groups: ICord },
    /// Run the indexing (compaction) kernel over the whole chunk.
    DispatchIndexer { groups: ICord },
    /// Draw the triangles with the counts held in the indirect command.
    DrawIndirect,
    /// Rebuild the mipmap levels of the chunk's field texture.
    GenerateMipmaps,
    /// Run the brush's kernel on the chunk's field texture.
    ApplyBrush,
}

/// The barrier action for the kinds `bits` when any is to be issued.
pub open spec fn barrier_actions(bits: u32) -> Seq<GpuAction> {
    if bits != 0 {
        seq![GpuAction::Barrier(MemBarrierBits(bits))]
    } else {
        Seq::empty()
    }
}

/// Work groups that cover `n` cells.
pub open spec fn groups_for(n: int) -> int {
    (n + WORK_GROUP - 1) / (WORK_GROUP as int)
}

/// Work groups for a whole chunk.
pub open spec fn chunk_groups() -> ICord {
    ICord { x: CHUNK_GROUPS, y: CHUNK_GROUPS, z: CHUNK_GROUPS }
}

/// A dirty region lies in the chunk: `0 <= min <= max <= CHUNK_SIZE`.
pub open spec fn region_in_chunk(b: Option<(ICord, ICord)>) -> bool {
    match b {
        Some((lo, hi)) => {
            &&& lo.le(hi)
            &&& 0 <= lo.x && 0 <= lo.y && 0 <= lo.z
            &&& hi.x <= CHUNK_SIZE && hi.y <= CHUNK_SIZE && hi.z <= CHUNK_SIZE
        },
        None => true,
    }
}

/// Work groups for a region, from its extent `max - min`.
pub open spec fn region_groups(lo: ICord, hi: ICord) -> ICord {
    ICord {
        x: groups_for(hi.x - lo.x) as i32,
        y: groups_for(hi.y - lo.y) as i32,
        z: groups_for(hi.z - lo.z) as i32,
    }
}

fn groups(n: i32) -> (r: i32)
    requires
        0 <= n <= CHUNK_SIZE,
    ensures
        r == groups_for(n as int),
        0 <= r <= CHUNK_GROUPS,
{
    let r = ceil_div(n as usize, WORK_GROUP as usize);
    assert(r == groups_for(n as int)) by (nonlinear_arith)
        requires
            r as int * 4 >= n,
            (r as int - 1) * 4 < n,
            0 <= n,
    ;
    r as i32
}

fn chunk_groups_exec() -> (r: ICord)
    ensures
        r == chunk_groups(),
{
    ICord { x: CHUNK_GROUPS, y: CHUNK_GROUPS, z: CHUNK_GROUPS }
}

fn push_barrier(actions: &mut Vec<GpuAction>, barrier: Option<MemBarrierBits>)
    ensures
        final(actions)@ == old(actions)@ + match barrier {
            Some(b) => seq![GpuAction::Barrier(b)],
            None => Seq::empty(),
        },
{
    match barrier {
        Some(b) => {
            actions.push(GpuAction::Barrier(b));
        },
        None => {
            assert(actions@ =~= actions@ + Seq::<GpuAction>::empty());
        },
    }
}

/// Regenerates the whole chunk in one pass: the kernel appends every
/// triangle to the vertex buffer and counts them in the draw command.
#[derive(Debug)]
pub struct FullCubeMarcher {
    command_buffer: Buffer,
}

/// Regenerates only the dirty region, then compacts per-cell counts over the
/// whole chunk into an index buffer and the draw command.
#[derive(Debug)]
pub struct BlockCubeMarcher {
    command_buffer: Buffer,
    counter_buffer: Buffer,
    model_index_buffer: Buffer,
}

impl FullCubeMarcher {
    pub fn new(command_buffer: Buffer) -> (r: FullCubeMarcher)
        ensures
            r.spec_command_buffer() == command_buffer,
    {
        FullCubeMarcher { command_buffer }
    }

    pub closed spec fn spec_command_buffer(&self) -> Buffer {
        self.command_buffer
    }

    /// The buffer that holds the indirect draw command.
    pub fn command_buffer(&self) -> (r: Buffer)
        ensures
            r == self.spec_command_buffer(),
    {
        self.command_buffer
    }
}

impl BlockCubeMarcher {
    pub fn new(command_buffer: Buffer, counter_buffer: Buffer, model_index_buffer: Buffer) -> (r:
        BlockCubeMarcher)
        ensures
            r.spec_buffers() == (command_buffer, counter_buffer, model_index_buffer),
    {
        BlockCubeMarcher { command_buffer, counter_buffer, model_index_buffer }
    }

    pub closed spec fn spec_buffers(&self) -> (Buffer, Buffer, Buffer) {
        (self.command_buffer, self.counter_buffer, self.model_index_buffer)
    }

    /// The draw command, per-cell counter and index buffers.
    pub fn buffers(&self) -> (r: (Buffer, Buffer, Buffer))
        ensures
            r == self.spec_buffers(),
    {
        (self.command_buffer, self.counter_buffer, self.model_index_buffer)
    }
}

/// The two ways of turning a chunk's field into triangles.
#[derive(Debug)]
pub enum CubeMarcher {
    Full(FullCubeMarcher),
    Block(BlockCubeMarcher),
}

/// How many steps a march of this kind takes.
pub open spec fn steps_of(m: &CubeMarcher) -> nat {
    match m {
        CubeMarcher::Full(_) => 1,
        CubeMarcher::Block(_) => 2,
    }
}

/// The actions of step `step` of a march over the dirty region `dirty`, and
/// the outstanding barrier kinds after it, from those before it.
pub open spec fn march_plan(full: bool, step: nat, dirty: Option<(ICord, ICord)>, outstanding: u32) -> (
    Seq<GpuAction>,
    u32,
) {
    match dirty {
        None => (Seq::empty(), outstanding),
        Some((lo, hi)) => if full {
            (
                seq![
                    GpuAction::ResetDrawCommand,
                    GpuAction::Barrier(MemBarrierBits(BUFFER_UPDATE_BARRIER_BIT)),
                    GpuAction::DispatchMarch {
                        start: ICord { x: 0, y: 0, z: 0 },
                        groups: chunk_groups(),
                    },
                ],
                after_dirty(
                    after_sync(outstanding, BUFFER_UPDATE_BARRIER_BIT),
                    SHADER_STORAGE_BARRIER_BIT | COMMAND_BARRIER_BIT,
                ),
            )
        } else if step == 0 {
            (
                seq![
                    GpuAction::ResetDrawCommand,
                    GpuAction::Barrier(MemBarrierBits(BUFFER_UPDATE_BARRIER_BIT)),
                    GpuAction::DispatchMarch { start: lo, groups: region_groups(lo, hi) },
                ],
                after_dirty(
                    after_sync(outstanding, BUFFER_UPDATE_BARRIER_BIT),
                    SHADER_STORAGE_BARRIER_BIT,
                ),
            )
        } else {
            (
                barrier_actions(sync_issued(outstanding, SHADER_STORAGE_BARRIER_BIT)) + seq![
                    GpuAction::DispatchIndexer { groups: chunk_groups() },
                ],
                after_dirty(
                    after_sync(outstanding, SHADER_STORAGE_BARRIER_BIT),
                    SHADER_STORAGE_BARRIER_BIT | COMMAND_BARRIER_BIT,
                ),
            )
        },
    }
}

/// A first step never runs the indexing pass, and a second step of the
/// block marcher never runs the marching pass.
pub proof fn lemma_plan_passes(full: bool, step: nat, dirty: Option<(ICord, ICord)>, outstanding: u32)
    ensures
        step == 0 ==> forall|t: int|
            0 <= t < march_plan(full, step, dirty, outstanding).0.len() ==> !((#[trigger] march_plan(
                full,
                step,
                dirty,
                outstanding,
            ).0[t]) is DispatchIndexer),
        !full && step >= 1 ==> forall|t: int|
            0 <= t < march_plan(full, step, dirty, outstanding).0.len() ==> !((#[trigger] march_plan(
                full,
                step,
                dirty,
                outstanding,
            ).0[t]) is DispatchMarch),
{
    if !full && step >= 1 {
        if let Some((lo, hi)) = dirty {
            let b = barrier_actions(sync_issued(outstanding, SHADER_STORAGE_BARRIER_BIT));
            let p = march_plan(full, step, dirty, outstanding).0;
            assert forall|t: int| 0 <= t < p.len() implies !((#[trigger] p[t]) is DispatchMarch) by {
                if t < b.len() {
                    assert(p[t] == b[t]);
                }
            }
        }
    }
}

impl CubeMarcher {
    pub open spec fn is_full(&self) -> bool {
        self is Full
    }

    pub fn march_steps_count(&self) -> (r: usize)
        ensures
            r == steps_of(self),
    {
        match self {
            CubeMarcher::Full(_) => 1,
            CubeMarcher::Block(_) => 2,
        }
    }

    /// Step `step` of a march over the chunk's dirty region: the GPU work to
    /// perform, in order. Nothing at all when the region is empty. The full
    /// marcher regenerates the whole chunk; the block marcher regenerates the
    /// region in step 0 and compacts the whole chunk in step 1, which needs
    /// the shader storage writes of step 0 to be visible.
    pub fn march(&self, step: usize, dirty_area: &Bounds, sync: &mut SynchronizationContext) -> (r:
        Vec<GpuAction>)
        requires
            step < steps_of(self),
            dirty_area.wf(),
            region_in_chunk(dirty_area@),
        ensures
            (r@, final(sync)@) == march_plan(self.is_full(), step as nat, dirty_area@, old(sync)@),
    {
        let mut actions: Vec<GpuAction> = Vec::new();
        if !dirty_area.has_values() {
            return actions;
        }
        let buffer_update = MemBarrierBits::buffer_update();
        let storage = MemBarrierBits::shader_storage();
        let command = MemBarrierBits::command();
        match self {
            CubeMarcher::Full(_) => {
                actions.push(GpuAction::ResetDrawCommand);
                let b = sync.force_sync(buffer_update);
                push_barrier(&mut actions, b);
                actions.push(
                    GpuAction::DispatchMarch { start: ICord::zero(), groups: chunk_groups_exec() },
                );
                sync.dirty(storage.union(command));
            },
            CubeMarcher::Block(_) => {
                if step == 0 {
                    actions.push(GpuAction::ResetDrawCommand);
                    let b = sync.force_sync(buffer_update);
                    push_barrier(&mut actions, b);
                    let lo = dirty_area.min();
                    let hi = dirty_area.max();
                    let g = ICord {
                        x: groups(hi.x - lo.x),
                        y: groups(hi.y - lo.y),
                        z: groups(hi.z - lo.z),
                    };
                    actions.push(GpuAction::DispatchMarch { start: lo, groups: g });
                    sync.dirty(storage);
                } else {
                    let b = sync.sync(storage);
                    push_barrier(&mut actions, b);
                    actions.push(GpuAction::DispatchIndexer { groups: chunk_groups_exec() });
                    sync.dirty(storage.union(command));
                }
            },
        }
        assert(actions@ =~= march_plan(self.is_full(), step as nat, dirty_area@, old(sync)@).0);
        actions
    }

    /// Drawing the chunk: the marching writes and the draw command must be
    /// visible first.
    pub fn draw(&self, sync: &mut SynchronizationContext) -> (r: Vec<GpuAction>)
        ensures
            final(sync)@ == after_sync(
                old(sync)@,
                SHADER_STORAGE_BARRIER_BIT | COMMAND_BARRIER_BIT,
            ),
            r@ == barrier_actions(
                sync_issued(old(sync)@, SHADER_STORAGE_BARRIER_BIT | COMMAND_BARRIER_BIT),
            ) + seq![GpuAction::DrawIndirect],
    {
        let mut actions: Vec<GpuAction> = Vec::new();
        let b = sync.sync(MemBarrierBits::shader_storage().union(MemBarrierBits::command()));
        push_barrier(&mut actions, b);
        actions.push(GpuAction::DrawIndirect);
        assert(actions@ =~= barrier_actions(
            sync_issued(old(sync)@, SHADER_STORAGE_BARRIER_BIT | COMMAND_BARRIER_BIT),
        ) + seq![GpuAction::DrawIndirect]);
        actions
    }
}

} // verus!
