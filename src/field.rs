use vstd::prelude::*;

use crate::bounds::{
    box_contains, box_encapsulate, cells_of, lemma_cells_within, lemma_encapsulate_one, Bounds,
    BoundsView,
};
use crate::chunk::{brush_cells, chunk_space_cords, footprint_fits, Chunk};
use crate::collision::CHUNK_SIZE;
use crate::cord::ICord;
use crate::marching::{barrier_actions, lemma_plan_passes, march_plan, steps_of, GpuAction};
use crate::sync::{
    after_dirty, after_sync, sync_issued, SynchronizationContext, SHADER_IMAGE_ACCESS_BARRIER_BIT,
};

verus! {

/// Cells by which a brush's footprint is widened when choosing the chunks it
/// touches: half the texture padding, rounded up.
pub const CHUNK_MARGIN: i32 = 9;

/// A brush stroke's footprint in cells of the whole field: its minimum
/// corner rounded down and its extent rounded up.
#[derive(Clone, Copy, Debug, PartialEq, Eq, Structural)]
pub struct BrushStroke {
    pub cell_min: ICord,
    pub cell_extent: ICord,
}

/// Strokes whose coordinates stay far from the limits of `i32`.
pub open spec fn stroke_fits(s: BrushStroke) -> bool {
    &&& 0 <= s.cell_extent.x <= 0x0800_0000 && 0 <= s.cell_extent.y <= 0x0800_0000 && 0 <= s.cell_extent.z <= 0x0800_0000
    &&& -0x0800_0000 <= s.cell_min.x <= 0x0800_0000
    &&& -0x0800_0000 <= s.cell_min.y <= 0x0800_0000
    &&& -0x0800_0000 <= s.cell_min.z <= 0x0800_0000
}

/// The chunk holding cell `v` along one axis.
pub open spec fn chunk_of(v: int) -> int {
    v / (CHUNK_SIZE as int)
}

/// The chunks that a stroke touches: those within the margin of its footprint.
pub open spec fn stroke_chunks(s: BrushStroke) -> BoundsView {
    Some((
        ICord {
            x: chunk_of(s.cell_min.x - CHUNK_MARGIN) as i32,
            y: chunk_of(s.cell_min.y - CHUNK_MARGIN) as i32,
            z: chunk_of(s.cell_min.z - CHUNK_MARGIN) as i32,
        },
        ICord {
            x: chunk_of(s.cell_min.x + s.cell_extent.x + CHUNK_MARGIN) as i32,
            y: chunk_of(s.cell_min.y + s.cell_extent.y + CHUNK_MARGIN) as i32,
            z: chunk_of(s.cell_min.z + s.cell_extent.z + CHUNK_MARGIN) as i32,
        },
    ))
}

/// The stroke's footprint in the cells of chunk `cord`.
pub open spec fn local_min(s: BrushStroke, cord: ICord) -> ICord {
    ICord {
        x: (s.cell_min.x - cord.x * CHUNK_SIZE) as i32,
        y: (s.cell_min.y - cord.y * CHUNK_SIZE) as i32,
        z: (s.cell_min.z - cord.z * CHUNK_SIZE) as i32,
    }
}

fn floor_div_chunk(v: i32) -> (r: i32)
    requires
        -0x2000_0000 <= v <= 0x2000_0000,
    ensures
        r == chunk_of(v as int),
{
    if v >= 0 {
        v / CHUNK_SIZE
    } else {
        let q = (-v + CHUNK_SIZE - 1) / CHUNK_SIZE;
        assert(-(q as int) == chunk_of(v as int)) by (nonlinear_arith)
            requires
                q == (-v + 47) / 48,
                v < 0,
        ;
        -q
    }
}

/// The chunks that a stroke touches, as a box of chunk coordinates.
pub fn chunk_range(stroke: &BrushStroke) -> (r: Bounds)
    requires
        stroke_fits(*stroke),
    ensures
        r@ == stroke_chunks(*stroke),
        r.wf(),
{
    let s = stroke.cell_min;
    let e = stroke.cell_extent;
    let lo = ICord {
        x: floor_div_chunk(s.x - CHUNK_MARGIN),
        y: floor_div_chunk(s.y - CHUNK_MARGIN),
        z: floor_div_chunk(s.z - CHUNK_MARGIN),
    };
    let hi = ICord {
        x: floor_div_chunk(s.x + e.x + CHUNK_MARGIN),
        y: floor_div_chunk(s.y + e.y + CHUNK_MARGIN),
        z: floor_div_chunk(s.z + e.z + CHUNK_MARGIN),
    };
    proof {
        vstd::arithmetic::div_mod::lemma_div_is_ordered(s.x - CHUNK_MARGIN, s.x + e.x + CHUNK_MARGIN, 48);
        vstd::arithmetic::div_mod::lemma_div_is_ordered(s.y - CHUNK_MARGIN, s.y + e.y + CHUNK_MARGIN, 48);
        vstd::arithmetic::div_mod::lemma_div_is_ordered(s.z - CHUNK_MARGIN, s.z + e.z + CHUNK_MARGIN, 48);
    }
    let r = Bounds::min_max(lo, hi);
    assert(r@ == stroke_chunks(*stroke));
    r
}

proof fn lemma_axis_local(min: int, ext: int, c: int)
    requires
        -0x0800_0000 <= min <= 0x0800_0000,
        0 <= ext <= 0x0800_0000,
        chunk_of(min - CHUNK_MARGIN) <= c <= chunk_of(min + ext + CHUNK_MARGIN),
    ensures
        -0x1000_0000 <= min - c * CHUNK_SIZE <= 0x1000_0000,
{
    let a = min - CHUNK_MARGIN;
    let b = min + ext + CHUNK_MARGIN;
    vstd::arithmetic::div_mod::lemma_fundamental_div_mod(a, 48);
    vstd::arithmetic::div_mod::lemma_fundamental_div_mod(b, 48);
    vstd::arithmetic::div_mod::lemma_mod_bound(a, 48);
    vstd::arithmetic::div_mod::lemma_mod_bound(b, 48);
    let qa = a / 48;
    let qb = b / 48;
    assert(c * 48 >= qa * 48) by (nonlinear_arith)
        requires
            c >= qa,
    ;
    assert(c * 48 <= qb * 48) by (nonlinear_arith)
        requires
            c <= qb,
    ;
}

/// A chunk that a stroke touches sees the footprint close to its own cells.
proof fn lemma_local_fits(s: BrushStroke, c: ICord)
    requires
        stroke_fits(s),
        box_contains(stroke_chunks(s), c),
    ensures
        footprint_fits(local_min(s, c), s.cell_extent),
{
    lemma_axis_local(s.cell_min.x as int, s.cell_extent.x as int, c.x as int);
    lemma_axis_local(s.cell_min.y as int, s.cell_extent.y as int, c.y as int);
    lemma_axis_local(s.cell_min.z as int, s.cell_extent.z as int, c.z as int);
}

/// A piece of GPU work for one chunk of the field.
#[derive(Clone, Copy, Debug, PartialEq, Eq, Structural)]
pub struct ChunkAction {
    pub cord: ICord,
    pub action: GpuAction,
}

/// No indexing pass comes before a marching pass: every chunk's first step
/// is done before any chunk's second step.
pub open spec fn steps_in_lockstep(actions: Seq<ChunkAction>) -> bool {
    forall|i: int, j: int|
        0 <= i < j < actions.len() ==> !((#[trigger] actions[i]).action is DispatchIndexer
            && (#[trigger] actions[j]).action is DispatchMarch)
}

/// The dirty region `d` of the chunk at `k` after the brushes of a stroke
/// were applied to the chunks `cs` in order.
pub open spec fn brushed(d: BoundsView, stroke: BrushStroke, cs: Seq<ICord>, k: ICord) -> BoundsView
    decreases cs.len(),
{
    if cs.len() == 0 {
        d
    } else {
        let prev = brushed(d, stroke, cs.drop_last(), k);
        if cs.last() == k {
            match brush_cells(local_min(stroke, k), stroke.cell_extent) {
                Some((lo, hi)) => box_encapsulate(box_encapsulate(prev, lo), hi),
                None => prev,
            }
        } else {
            prev
        }
    }
}

/// Actions of one chunk.
pub open spec fn tagged(c: ICord, p: Seq<GpuAction>) -> Seq<ChunkAction> {
    p.map_values(|a: GpuAction| ChunkAction { cord: c, action: a })
}

/// The brush actions of the touched chunks, in order.
pub open spec fn brush_prefix(cs: Seq<ICord>) -> Seq<ChunkAction> {
    cs.map_values(|c: ICord| ChunkAction { cord: c, action: GpuAction::ApplyBrush })
}

/// The barriers before marching, chunk by chunk over the first `j` touched
/// chunks, and the outstanding kinds after them.
pub open spec fn barrier_pass(cs: Seq<ICord>, j: nat, s: u32) -> (Seq<ChunkAction>, u32)
    decreases j,
{
    if j == 0 {
        (Seq::empty(), s)
    } else {
        let prev = barrier_pass(cs, (j - 1) as nat, s);
        (
            prev.0 + tagged(cs[j - 1], barrier_actions(sync_issued(prev.1, SHADER_IMAGE_ACCESS_BARRIER_BIT))),
            after_sync(prev.1, SHADER_IMAGE_ACCESS_BARRIER_BIT),
        )
    }
}

/// Whether the `j`-th touched chunk marches in one pass, and its dirty
/// region once the stroke's brushes are applied.
pub open spec fn touched_state(f: Field, stroke: BrushStroke, cs: Seq<ICord>, j: int) -> (bool, BoundsView) {
    let m = f.keys().index_of(cs[j]);
    (f.chunk(m).spec_marcher().is_full(), brushed(f.chunk(m).dirty(), stroke, cs, cs[j]))
}

pub open spec fn step_count(full: bool) -> nat {
    if full { 1 } else { 2 }
}

/// March step `step` of the first `j` touched chunks (those that have it),
/// and the outstanding kinds after them.
pub open spec fn step_pass(f: Field, stroke: BrushStroke, cs: Seq<ICord>, step: nat, j: nat, s: u32) -> (
    Seq<ChunkAction>,
    u32,
)
    decreases j,
{
    if j == 0 {
        (Seq::empty(), s)
    } else {
        let prev = step_pass(f, stroke, cs, step, (j - 1) as nat, s);
        let st = touched_state(f, stroke, cs, j - 1);
        if step < step_count(st.0) {
            let p = march_plan(st.0, step, st.1, prev.1);
            (prev.0 + tagged(cs[j - 1], p.0), p.1)
        } else {
            prev
        }
    }
}

/// Steps `0 .. k` of every touched chunk, step by step.
pub open spec fn steps_upto(f: Field, stroke: BrushStroke, cs: Seq<ICord>, k: nat, s: u32) -> (
    Seq<ChunkAction>,
    u32,
)
    decreases k,
{
    if k == 0 {
        (Seq::empty(), s)
    } else {
        let prev = steps_upto(f, stroke, cs, (k - 1) as nat, s);
        let cur = step_pass(f, stroke, cs, (k - 1) as nat, cs.len(), prev.1);
        (prev.0 + cur.0, cur.1)
    }
}

/// The most steps that any of the first `j` touched chunks takes.
pub open spec fn max_steps_of(f: Field, stroke: BrushStroke, cs: Seq<ICord>, j: nat) -> nat
    decreases j,
{
    if j == 0 {
        0
    } else {
        let prev = max_steps_of(f, stroke, cs, (j - 1) as nat);
        let c = step_count(touched_state(f, stroke, cs, j - 1).0);
        if c > prev { c } else { prev }
    }
}

/// The outstanding kinds once the stroke's brushes are applied.
pub open spec fn sync_after_brushes(s: u32, n: nat) -> u32 {
    if n > 0 { after_dirty(s, SHADER_IMAGE_ACCESS_BARRIER_BIT) } else { s }
}

/// Everything a stroke asks of the GPU on a field that holds every chunk it
/// touches: the brushes, the barriers, then the march steps in lockstep;
/// and the outstanding kinds afterwards.
pub open spec fn stroke_plan(f: Field, stroke: BrushStroke) -> (Seq<ChunkAction>, u32) {
    let cs = cells_of(stroke_chunks(stroke));
    let bp = barrier_pass(cs, cs.len(), sync_after_brushes(f.spec_sync(), cs.len()));
    let sp = steps_upto(f, stroke, cs, max_steps_of(f, stroke, cs, cs.len()), bp.1);
    (brush_prefix(cs) + bp.0 + sp.0, sp.1)
}

proof fn lemma_unique_index_of(keys: Seq<ICord>, m: int)
    requires
        0 <= m < keys.len(),
        forall|i: int, j: int| 0 <= i < j < keys.len() ==> keys[i] != keys[j],
    ensures
        keys.index_of(keys[m]) == m,
{
    assert(keys.contains(keys[m]));
    let i = keys.index_of(keys[m]);
    assert(0 <= i < keys.len() && keys[i] == keys[m]);
}

/// A sparse field of chunks, keyed by chunk coordinate, with the box of the
/// coordinates that hold a chunk.
pub struct Field {
    cords: Vec<ICord>,
    chunks: Vec<Chunk>,
    chunk_bounds: Bounds,
    sync_context: SynchronizationContext,
}

impl Field {
    /// The coordinates that hold a chunk, each once.
    pub closed spec fn keys(&self) -> Seq<ICord> {
        self.cords@
    }

    /// The chunk at place `i` of `keys`.
    pub closed spec fn chunk(&self, i: int) -> Chunk {
        self.chunks@[i]
    }

    pub closed spec fn spec_chunk_bounds(&self) -> BoundsView {
        self.chunk_bounds@
    }

    pub closed spec fn wf(&self) -> bool {
        &&& self.cords@.len() == self.chunks@.len()
        &&& forall|i: int, j: int|
            0 <= i < j < self.cords@.len() ==> self.cords@[i] != self.cords@[j]
        &&& forall|i: int| 0 <= i < self.chunks@.len() ==> (#[trigger] self.chunks@[i]).wf()
        &&& self.chunk_bounds.wf()
        &&& forall|i: int|
            0 <= i < self.cords@.len() ==> box_contains(self.chunk_bounds@, #[trigger] self.cords@[i])
    }

    /// A field with no chunk.
    pub fn new() -> (r: Field)
        ensures
            r.wf(),
            r.keys() == Seq::<ICord>::empty(),
    {
        Field {
            cords: Vec::new(),
            chunks: Vec::new(),
            chunk_bounds: Bounds::empty(),
            sync_context: SynchronizationContext::new(),
        }
    }

    /// The place of the chunk at `cord`, if there is one.
    pub fn find(&self, cord: ICord) -> (r: Option<usize>)
        requires
            self.wf(),
        ensures
            match r {
                Some(i) => i < self.keys().len() && self.keys()[i as int] == cord,
                None => !self.keys().contains(cord),
            },
    {
        let mut i: usize = 0;
        while i < self.cords.len()
            invariant
                i <= self.cords@.len(),
                forall|k: int| 0 <= k < i ==> self.cords@[k] != cord,
            decreases self.cords@.len() - i,
        {
            if self.cords[i] == cord {
                return Some(i);
            }
            i = i + 1;
        }
        None
    }

    pub fn contains_key(&self, cord: ICord) -> (r: bool)
        requires
            self.wf(),
        ensures
            r == self.keys().contains(cord),
    {
        self.find(cord).is_some()
    }

    /// The outstanding barrier kinds of the field's synchronization context.
    pub closed spec fn spec_sync(&self) -> u32 {
        self.sync_context@
    }

    /// The synchronization context that the field's chunks share.
    pub fn sync_context(&mut self) -> (r: &mut SynchronizationContext)
        ensures
            r@ == old(self).spec_sync(),
            final(self).spec_sync() == final(r)@,
            final(self).keys() == old(self).keys(),
            final(self).spec_chunk_bounds() == old(self).spec_chunk_bounds(),
            forall|i: int| 0 <= i < old(self).keys().len() ==> final(self).chunk(i) == old(self).chunk(i),
            old(self).wf() ==> final(self).wf(),
    {
        &mut self.sync_context
    }

    /// Adds a chunk at a coordinate that holds none yet.
    pub fn insert_chunk_at(&mut self, cord: ICord, chunk: Chunk)
        requires
            old(self).wf(),
            !old(self).keys().contains(cord),
            chunk.wf(),
        ensures
            final(self).wf(),
            final(self).keys() == old(self).keys().push(cord),
            final(self).spec_chunk_bounds() == box_encapsulate(old(self).spec_chunk_bounds(), cord),
            forall|i: int| 0 <= i < old(self).keys().len() ==> final(self).chunk(i) == old(self).chunk(i),
            final(self).chunk(old(self).keys().len() as int) == chunk,
            final(self).spec_sync() == old(self).spec_sync(),
    {
        proof {
            lemma_encapsulate_one(self.chunk_bounds@, cord);
        }
        self.cords.push(cord);
        self.chunks.push(chunk);
        self.chunk_bounds.encapsulate(cord);
        assert forall|i: int, j: int| 0 <= i < j < self.cords@.len() implies self.cords@[i] != self.cords@[j] by {
            if j == self.cords@.len() - 1 {
                assert(old(self).keys()[i] == self.cords@[i]);
            }
        }
    }

    /// The chunk coordinates that a stroke touches and that hold no chunk yet,
    /// in iteration order: the caller creates those chunks first.
    pub fn missing_chunks(&self, stroke: &BrushStroke) -> (r: Vec<ICord>)
        requires
            self.wf(),
            stroke_fits(*stroke),
        ensures
            r@ == cells_of(stroke_chunks(*stroke)).filter(|c: ICord| !self.keys().contains(c)),
    {
        let cells = chunk_range(stroke).iterate_cords();
        let mut out: Vec<ICord> = Vec::new();
        let mut i: usize = 0;
        while i < cells.len()
            invariant
                self.wf(),
                i <= cells@.len(),
                out@ == cells@.subrange(0, i as int).filter(|c: ICord| !self.keys().contains(c)),
            decreases cells@.len() - i,
        {
            let c = cells[i];
            proof {
                reveal(Seq::filter);
                assert(cells@.subrange(0, i + 1).drop_last() =~= cells@.subrange(0, i as int));
            }
            if !self.contains_key(c) {
                out.push(c);
            }
            i = i + 1;
        }
        assert(cells@.subrange(0, cells@.len() as int) =~= cells@);
        out
    }
    /// Applies a stroke to every chunk it touches, then marches them together.
    /// The chunks it touches that do not exist yet are inserted first: `fresh`
    /// holds a newly made chunk for each coordinate that `missing_chunks`
    /// lists, in that order. Then the brush is applied to each touched chunk
    /// in iteration order, the barriers before marching are issued, every
    /// chunk's first step runs, then every chunk's second step, so that one
    /// pass of barriers separates the two. The touched chunks end with an
    /// empty dirty region and a collision shape to read back; the others are
    /// left as they were.
    pub fn apply_brush(&mut self, stroke: &BrushStroke, fresh: Vec<Chunk>) -> (r: Vec<ChunkAction>)
        requires
            old(self).wf(),
            stroke_fits(*stroke),
            fresh@.len() == cells_of(stroke_chunks(*stroke)).filter(|c: ICord| !old(self).keys().contains(c)).len(),
            forall|i: int| 0 <= i < fresh@.len() ==> (#[trigger] fresh@[i]).wf(),
        ensures
            final(self).wf(),
            old(self).keys().len() <= final(self).keys().len(),
            forall|i: int| 0 <= i < old(self).keys().len() ==> final(self).keys()[i] == old(self).keys()[i],
            forall|c: ICord| cells_of(stroke_chunks(*stroke)).contains(c) ==> final(self).keys().contains(c),
            forall|i: int|
                old(self).keys().len() <= i < final(self).keys().len() ==> cells_of(stroke_chunks(*stroke)).contains(
                    #[trigger] final(self).keys()[i],
                ),
            forall|i: int|
                0 <= i < final(self).keys().len() ==> box_contains(final(self).spec_chunk_bounds(), #[trigger] final(self).keys()[i]),
            exists|mid: Field|
                #![trigger stroke_plan(mid, *stroke)]
                mid.keys() == final(self).keys() && mid.spec_sync() == old(self).spec_sync() && (forall|i: int|
                    0 <= i < old(self).keys().len() ==> mid.chunk(i) == old(self).chunk(i)) && r@ == stroke_plan(mid, *stroke).0
                    && final(self).spec_sync() == stroke_plan(mid, *stroke).1 && (forall|m: int|
                    0 <= m < mid.keys().len() ==> if cells_of(stroke_chunks(*stroke)).contains(mid.keys()[m]) {
                        (#[trigger] final(self).chunk(m)).dirty() == None::<(ICord, ICord)>
                            && final(self).chunk(m).collision_dirty()
                    } else {
                        final(self).chunk(m) == mid.chunk(m)
                    }),
            steps_in_lockstep(r@),
            forall|i: int|
                0 <= i < cells_of(stroke_chunks(*stroke)).len() ==> r@[i] == (ChunkAction {
                    cord: #[trigger] cells_of(stroke_chunks(*stroke))[i],
                    action: GpuAction::ApplyBrush,
                }),
    {
        let ghost cs = cells_of(stroke_chunks(*stroke));
        let ghost pred = |c: ICord| !old(self).keys().contains(c);
        let missing = self.missing_chunks(stroke);
        let mut fresh = fresh;
        while fresh.len() > 0
            invariant
                self.wf(),
                stroke_fits(*stroke),
                missing@ == cs.filter(pred),
                pred == (|c: ICord| !old(self).keys().contains(c)),
                fresh@.len() <= missing@.len(),
                forall|i: int| 0 <= i < fresh@.len() ==> (#[trigger] fresh@[i]).wf(),
                forall|j: int| fresh@.len() <= j < missing@.len() ==> self.keys().contains(#[trigger] missing@[j]),
                old(self).keys().len() <= self.keys().len(),
                forall|i: int| 0 <= i < old(self).keys().len() ==> self.keys()[i] == old(self).keys()[i],
                forall|i: int| 0 <= i < old(self).keys().len() ==> self.chunk(i) == old(self).chunk(i),
                forall|i: int|
                    old(self).keys().len() <= i < self.keys().len() ==> cs.contains(#[trigger] self.keys()[i]),
                self.spec_sync() == old(self).spec_sync(),
            decreases fresh@.len(),
        {
            let chunk = fresh.pop().unwrap();
            let j = fresh.len();
            let c = missing[j];
            proof {
                cs.lemma_filter_contains_rev(pred, c);
            }
            if !self.contains_key(c) {
                let ghost before = self.keys();
                self.insert_chunk_at(c, chunk);
                assert forall|jj: int| fresh@.len() <= jj < missing@.len() implies self.keys().contains(#[trigger] missing@[jj]) by {
                    if jj > j {
                        assert(before.contains(missing@[jj]));
                        let w = choose|w: int| 0 <= w < before.len() && before[w] == missing@[jj];
                        assert(self.keys()[w] == missing@[jj]);
                    } else {
                        assert(self.keys()[before.len() as int] == c);
                    }
                }
            }
        }
        assert forall|c: ICord| cs.contains(c) implies self.keys().contains(c) by {
            if !old(self).keys().contains(c) {
                let i = choose|i: int| 0 <= i < cs.len() && cs[i] == c;
                cs.lemma_filter_contains(pred, i);
                let j = choose|j: int| 0 <= j < missing@.len() && missing@[j] == c;
                assert(self.keys().contains(missing@[j]));
            } else {
                let w = choose|w: int| 0 <= w < old(self).keys().len() && old(self).keys()[w] == c;
                assert(self.keys()[w] == c);
            }
        }
        let ghost mid = *self;
        let r = self.brush_present(stroke);
        assert(stroke_plan(mid, *stroke).0 == r@);
        r
    }

    /// Applies a stroke to every chunk it touches, once the chunks that do not
    /// exist yet have been inserted. The first stroke actions and the march are
    /// as `brush_present` describes them.
    fn brush_present(&mut self, stroke: &BrushStroke) -> (r: Vec<ChunkAction>)
        requires
            old(self).wf(),
            stroke_fits(*stroke),
            forall|c: ICord|
                cells_of(stroke_chunks(*stroke)).contains(c) ==> old(self).keys().contains(c),
        ensures
            final(self).wf(),
            final(self).keys() == old(self).keys(),
            final(self).spec_chunk_bounds() == old(self).spec_chunk_bounds(),
            forall|m: int|
                0 <= m < old(self).keys().len() ==> if cells_of(stroke_chunks(*stroke)).contains(
                    old(self).keys()[m],
                ) {
                    (#[trigger] final(self).chunk(m)).dirty() == None::<(ICord, ICord)>
                        && final(self).chunk(m).collision_dirty()
                } else {
                    final(self).chunk(m) == old(self).chunk(m)
                },
            r@.len() >= cells_of(stroke_chunks(*stroke)).len(),
            forall|i: int|
                0 <= i < cells_of(stroke_chunks(*stroke)).len() ==> r@[i] == (ChunkAction {
                    cord: #[trigger] cells_of(stroke_chunks(*stroke))[i],
                    action: GpuAction::ApplyBrush,
                }),
            steps_in_lockstep(r@),
            r@ == stroke_plan(*old(self), *stroke).0,
            final(self).spec_sync() == stroke_plan(*old(self), *stroke).1,
    {
        let range = chunk_range(stroke);
        let cells = range.iterate_cords();
        let ghost cs = cells@;
        proof {
            lemma_cells_within(range@);
        }
        let n = cells.len();
        let mut places: Vec<usize> = Vec::new();
        let mut actions: Vec<ChunkAction> = Vec::new();
        let mut i: usize = 0;
        while i < n
            invariant
                self.wf(),
                n == cs.len(),
                cells@ == cs,
                cs == cells_of(stroke_chunks(*stroke)),
                stroke_fits(*stroke),
                forall|k: int| 0 <= k < n ==> box_contains(stroke_chunks(*stroke), #[trigger] cs[k]),
                forall|c: ICord| cs.contains(c) ==> self.keys().contains(c),
                self.keys() == old(self).keys(),
                self.chunk_bounds == old(self).chunk_bounds,
                i <= n,
                places@.len() == i,
                actions@.len() == i,
                forall|j: int|
                    0 <= j < i ==> (#[trigger] places@[j]) < self.keys().len() && self.keys()[places@[j] as int] == cs[j],
                forall|j: int|
                    0 <= j < i ==> #[trigger] actions@[j] == (ChunkAction { cord: cs[j], action: GpuAction::ApplyBrush }),
                forall|m: int|
                    0 <= m < self.keys().len() && (forall|j: int| 0 <= j < i ==> places@[j] != m) ==> #[trigger] self.chunks@[m] == old(self).chunks@[m],
                actions@ == brush_prefix(cs.take(i as int)),
                self.sync_context@ == sync_after_brushes(old(self).sync_context@, i as nat),
                forall|m: int|
                    0 <= m < self.keys().len() ==> (#[trigger] self.chunks@[m]).dirty() == brushed(
                        old(self).chunks@[m].dirty(),
                        *stroke,
                        cs.take(i as int),
                        self.keys()[m],
                    ) && self.chunks@[m].spec_marcher() == old(self).chunks@[m].spec_marcher(),
            decreases n - i,
        {
            let c = cells[i];
            assert(cs.contains(c)) by {
                assert(cs[i as int] == c);
            }
            let k = match self.find(c) {
                Some(k) => k,
                None => {
                    assert(false);
                    0
                },
            };
            assert(box_contains(stroke_chunks(*stroke), cs[i as int]));
            proof {
                lemma_local_fits(*stroke, c);
            }
            let local = ICord {
                x: stroke.cell_min.x - c.x * CHUNK_SIZE,
                y: stroke.cell_min.y - c.y * CHUNK_SIZE,
                z: stroke.cell_min.z - c.z * CHUNK_SIZE,
            };
            let cells_here = chunk_space_cords(local, stroke.cell_extent);
            actions.push(ChunkAction { cord: c, action: GpuAction::ApplyBrush });
            let ghost places_before = places@;
            places.push(k);
            let ghost before = self.chunks@;
            let ghost sync_before = self.sync_context@;
            self.chunks[k].apply_brush(&cells_here, &mut self.sync_context);
            proof {
                let a = SHADER_IMAGE_ACCESS_BARRIER_BIT;
                let s0 = old(self).sync_context@;
                assert((s0 | a) | a == s0 | a) by (bit_vector);
                assert(actions@ =~= brush_prefix(cs.take(i + 1)));
                assert(cs.take(i + 1).drop_last() =~= cs.take(i as int));
                assert forall|m: int|
                    0 <= m < self.keys().len() implies (#[trigger] self.chunks@[m]).dirty() == brushed(
                        old(self).chunks@[m].dirty(),
                        *stroke,
                        cs.take(i + 1),
                        self.keys()[m],
                    ) && self.chunks@[m].spec_marcher() == old(self).chunks@[m].spec_marcher() by {
                    if m != k {
                        assert(self.chunks@[m] == before[m]);
                        assert(self.keys()[m] != c);
                    } else {
                        assert(local == local_min(*stroke, c));
                    }
                }
            }
            assert forall|j: int| 0 <= j < self.chunks@.len() implies (#[trigger] self.chunks@[j]).wf() by {
                if j != k {
                    assert(self.chunks@[j] == before[j]);
                }
            }
            assert forall|m: int|
                0 <= m < self.keys().len() && (forall|j: int| 0 <= j < i + 1 ==> places@[j] != m) implies #[trigger] self.chunks@[m] == old(self).chunks@[m] by {
                assert(places@[i as int] != m);
                assert forall|j: int| 0 <= j < i implies places_before[j] != m by {
                    assert(places_before[j] == places@[j]);
                }
                assert(before[m] == old(self).chunks@[m]);
                assert(self.chunks@[m] == before[m]);
            }
            i = i + 1;
        }
        // The barriers that make the brushes' image writes visible.
        let ghost after_brush = self.chunks@;
        let ghost sb = self.sync_context@;
        assert(cs.take(n as int) =~= cs);
        assert(actions@ == brush_prefix(cs));
        assert forall|j: int| 0 <= j < n implies touched_state(*old(self), *stroke, cs, j) == (
            (#[trigger] after_brush[places@[j] as int]).spec_marcher().is_full(),
            after_brush[places@[j] as int].dirty(),
        ) by {
            lemma_unique_index_of(self.keys(), places@[j] as int);
        }
        assert(forall|m: int|
            0 <= m < self.keys().len() && (forall|j: int| 0 <= j < n ==> places@[j] != m) ==> #[trigger] after_brush[m] == old(self).chunks@[m]);
        let mut max_steps: usize = 0;
        let mut i: usize = 0;
        while i < n
            invariant
                self.wf(),
                self.keys() == old(self).keys(),
                self.chunk_bounds == old(self).chunk_bounds,
                self.chunks@ == after_brush,
                n == places@.len(),
                n == cs.len(),
                cells@ == cs,
                i <= n,
                forall|j: int|
                    0 <= j < n ==> self.keys()[#[trigger] places@[j] as int] == cs[j],
                forall|m: int|
                    0 <= m < self.keys().len() && (forall|j: int| 0 <= j < n ==> places@[j] != m) ==> #[trigger] after_brush[m] == old(self).chunks@[m],
                forall|j: int| 0 <= j < n ==> (#[trigger] places@[j]) < self.keys().len(),
                actions@.len() >= n,
                forall|j: int| n <= j < actions@.len() ==> (#[trigger] actions@[j]).action is Barrier,
                forall|j: int|
                    0 <= j < n ==> #[trigger] actions@[j] == (ChunkAction { cord: cs[j], action: GpuAction::ApplyBrush }),
                max_steps <= 2,
                forall|j: int| 0 <= j < n ==> touched_state(*old(self), *stroke, cs, j) == (
                    (#[trigger] after_brush[places@[j] as int]).spec_marcher().is_full(),
                    after_brush[places@[j] as int].dirty(),
                ),
                sb == sync_after_brushes(old(self).sync_context@, cs.len()),
                actions@ == brush_prefix(cs) + barrier_pass(cs, i as nat, sb).0,
                self.sync_context@ == barrier_pass(cs, i as nat, sb).1,
                max_steps == max_steps_of(*old(self), *stroke, cs, i as nat),
            decreases n - i,
        {
            let k = places[i];
            let ghost a_before = actions@;
            match self.chunks[k].before_march(&mut self.sync_context) {
                Some(b) => actions.push(ChunkAction { cord: cells[i], action: GpuAction::Barrier(b) }),
                None => {},
            }
            assert(actions@ =~= a_before + tagged(
                cs[i as int],
                barrier_actions(sync_issued(barrier_pass(cs, i as nat, sb).1, SHADER_IMAGE_ACCESS_BARRIER_BIT)),
            ));
            let count = self.chunks[k].march_steps_count();
            proof {
                assert(steps_of(self.chunks@[k as int].spec_marcher()) <= 2);
            }
            if count > max_steps {
                max_steps = count;
            }
            i = i + 1;
        }
        let ghost bp = barrier_pass(cs, n as nat, sb);
        assert(actions@ =~= brush_prefix(cs) + bp.0 + steps_upto(*old(self), *stroke, cs, 0, bp.1).0);
        // Every chunk's first step, then every chunk's second step.
        let mut step: usize = 0;
        while step < max_steps
            invariant
                self.wf(),
                self.keys() == old(self).keys(),
                self.chunk_bounds == old(self).chunk_bounds,
                self.chunks@ == after_brush,
                n == places@.len(),
                n == cs.len(),
                cells@ == cs,
                forall|j: int| 0 <= j < n ==> (#[trigger] places@[j]) < self.keys().len(),
                forall|j: int|
                    0 <= j < n ==> self.keys()[#[trigger] places@[j] as int] == cs[j],
                forall|m: int|
                    0 <= m < self.keys().len() && (forall|j: int| 0 <= j < n ==> places@[j] != m) ==> #[trigger] after_brush[m] == old(self).chunks@[m],
                actions@.len() >= n,
                forall|j: int|
                    0 <= j < n ==> #[trigger] actions@[j] == (ChunkAction { cord: cs[j], action: GpuAction::ApplyBrush }),
                steps_in_lockstep(actions@),
                step == 0 ==> forall|j: int| 0 <= j < actions@.len() ==> !((#[trigger] actions@[j]).action is DispatchIndexer),
                forall|j: int| 0 <= j < n ==> touched_state(*old(self), *stroke, cs, j) == (
                    (#[trigger] after_brush[places@[j] as int]).spec_marcher().is_full(),
                    after_brush[places@[j] as int].dirty(),
                ),
                step <= max_steps,
                max_steps == max_steps_of(*old(self), *stroke, cs, n as nat),
                actions@ == brush_prefix(cs) + bp.0 + steps_upto(*old(self), *stroke, cs, step as nat, bp.1).0,
                self.sync_context@ == steps_upto(*old(self), *stroke, cs, step as nat, bp.1).1,
            decreases max_steps - step,
        {
            let ghost a0 = actions@;
            let ghost s0 = self.sync_context@;
            let mut i: usize = 0;
            while i < n
                invariant
                    self.wf(),
                    self.keys() == old(self).keys(),
                self.chunk_bounds == old(self).chunk_bounds,
                    self.chunks@ == after_brush,
                    n == places@.len(),
                    n == cs.len(),
                    cells@ == cs,
                    i <= n,
                    forall|j: int|
                        0 <= j < n ==> self.keys()[#[trigger] places@[j] as int] == cs[j],
                    forall|m: int|
                        0 <= m < self.keys().len() && (forall|j: int| 0 <= j < n ==> places@[j] != m) ==> #[trigger] after_brush[m] == old(self).chunks@[m],
                    forall|j: int| 0 <= j < n ==> (#[trigger] places@[j]) < self.keys().len(),
                    actions@.len() >= n,
                    forall|j: int|
                        0 <= j < n ==> #[trigger] actions@[j] == (ChunkAction { cord: cs[j], action: GpuAction::ApplyBrush }),
                    steps_in_lockstep(actions@),
                    step == 0 ==> forall|j: int| 0 <= j < actions@.len() ==> !((#[trigger] actions@[j]).action is DispatchIndexer),
                    forall|j: int| 0 <= j < n ==> touched_state(*old(self), *stroke, cs, j) == (
                    (#[trigger] after_brush[places@[j] as int]).spec_marcher().is_full(),
                    after_brush[places@[j] as int].dirty(),
                ),
                    actions@ == a0 + step_pass(*old(self), *stroke, cs, step as nat, i as nat, s0).0,
                    self.sync_context@ == step_pass(*old(self), *stroke, cs, step as nat, i as nat, s0).1,
                decreases n - i,
            {
                let k = places[i];
                let ghost ai = actions@;
                proof {
                    assert(touched_state(*old(self), *stroke, cs, i as int) == (
                        after_brush[places@[i as int] as int].spec_marcher().is_full(),
                        after_brush[places@[i as int] as int].dirty(),
                    ));
                }
                if step < self.chunks[k].march_steps_count() {
                    let ghost o = self.sync_context@;
                    let produced = self.chunks[k].march_step(step, &mut self.sync_context);
                    proof {
                        let ch = self.chunks@[k as int];
                        lemma_plan_passes(ch.spec_marcher().is_full(), step as nat, ch.dirty(), o);
                    }
                    let mut t: usize = 0;
                    while t < produced.len()
                        invariant
                            t <= produced@.len(),
                            n == cs.len(),
                            i < n,
                            cells@ == cs,
                            actions@.len() >= n,
                            forall|j: int|
                                0 <= j < n ==> #[trigger] actions@[j] == (ChunkAction { cord: cs[j], action: GpuAction::ApplyBrush }),
                            steps_in_lockstep(actions@),
                            step == 0 ==> forall|j: int| 0 <= j < produced@.len() ==> !((#[trigger] produced@[j]) is DispatchIndexer),
                            step >= 1 ==> forall|j: int| 0 <= j < produced@.len() ==> !((#[trigger] produced@[j]) is DispatchMarch),
                            step == 0 ==> forall|j: int| 0 <= j < actions@.len() ==> !((#[trigger] actions@[j]).action is DispatchIndexer),
                            actions@ == ai + tagged(cs[i as int], produced@.take(t as int)),
                        decreases produced@.len() - t,
                    {
                        let a = produced[t];
                        let ghost prev = actions@;
                        actions.push(ChunkAction { cord: cells[i], action: a });
                        assert forall|x: int, y: int|
                            0 <= x < y < actions@.len() implies !((#[trigger] actions@[x]).action is DispatchIndexer
                                && (#[trigger] actions@[y]).action is DispatchMarch) by {
                            if y < prev.len() {
                                assert(actions@[x] == prev[x] && actions@[y] == prev[y]);
                            } else {
                                assert(actions@[x] == prev[x]);
                            }
                        }
                        assert(actions@ =~= ai + tagged(cs[i as int], produced@.take(t + 1)));
                        t = t + 1;
                    }
                    assert(produced@.take(t as int) =~= produced@);
                }
                i = i + 1;
            }
            assert(cs.len() == n);
            step = step + 1;
        }
        assert(actions@ == stroke_plan(*old(self), *stroke).0);
        assert(self.sync_context@ == stroke_plan(*old(self), *stroke).1);
        let ghost final_sync = self.sync_context@;
        // The march is complete on every touched chunk.
        assert(forall|m: int|
            0 <= m < self.keys().len() && (forall|j: int| 0 <= j < n ==> places@[j] != m) ==> #[trigger] self.chunks@[m] == old(self).chunks@[m]);
        let mut i: usize = 0;
        while i < n
            invariant
                self.wf(),
                self.keys() == old(self).keys(),
                self.chunk_bounds == old(self).chunk_bounds,
                n == places@.len(),
                n == cs.len(),
                i <= n,
                forall|j: int|
                    0 <= j < n ==> (#[trigger] places@[j]) < self.keys().len() && self.keys()[places@[j] as int] == cs[j],
                forall|j: int|
                    0 <= j < i ==> (#[trigger] self.chunks@[places@[j] as int]).dirty() == None::<(ICord, ICord)>
                        && self.chunks@[places@[j] as int].collision_dirty(),
                forall|m: int|
                    0 <= m < self.keys().len() && (forall|j: int| 0 <= j < n ==> places@[j] != m) ==> #[trigger] self.chunks@[m] == old(self).chunks@[m],
                self.sync_context@ == final_sync,
            decreases n - i,
        {
            let k = places[i];
            let ghost before = self.chunks@;
            self.chunks[k].after_march();
            assert forall|j: int| 0 <= j < self.chunks@.len() implies (#[trigger] self.chunks@[j]).wf() by {
                if j != k {
                    assert(self.chunks@[j] == before[j]);
                }
            }
            assert forall|j: int| 0 <= j < i + 1 implies (#[trigger] self.chunks@[places@[j] as int]).dirty() == None::<(ICord, ICord)>
                && self.chunks@[places@[j] as int].collision_dirty() by {
                if places@[j] != k {
                    assert(self.chunks@[places@[j] as int] == before[places@[j] as int]);
                    assert(before[places@[j] as int].dirty() == None::<(ICord, ICord)>);
                }
            }
            assert forall|m: int|
                0 <= m < self.keys().len() && (forall|j: int| 0 <= j < n ==> places@[j] != m) implies #[trigger] self.chunks@[m] == old(self).chunks@[m] by {
                assert(places@[i as int] != m);
                assert(self.chunks@[m] == before[m]);
            }
            i = i + 1;
        }
        assert forall|m: int|
            0 <= m < old(self).keys().len() implies if cs.contains(old(self).keys()[m]) {
                (#[trigger] self.chunk(m)).dirty() == None::<(ICord, ICord)> && self.chunk(m).collision_dirty()
            } else {
                self.chunk(m) == old(self).chunk(m)
            } by {
            if cs.contains(old(self).keys()[m]) {
                let j = choose|j: int| 0 <= j < cs.len() && cs[j] == old(self).keys()[m];
                assert(self.keys()[places@[j] as int] == self.keys()[m]);
                assert(places@[j] as int == m);
            } else {
                assert forall|j: int| 0 <= j < n implies places@[j] != m by {
                    if places@[j] == m {
                        assert(cs[j] == old(self).keys()[m]);
                    }
                }
            }
        }
        actions
    }
}

} // verus!
