use vstd::prelude::*;

use crate::cord::ICord;
use crate::gpu::Buffer;
use crate::triangulation::{
    case_row, case_triangles, lemma_triangle_count_bound, triangle_count, triangulate_centers,
    Triangle, MAX_TRIANGLES_PER_CELL,
};

verus! {

/// Cells along each axis of a chunk.
pub const CHUNK_SIZE: i32 = 48;

/// Cells in a chunk.
pub const TOTAL_NUM_OF_CUBES: usize = 110592;

/// 32-bit words of the packed classification: four cells share a word.
pub const NUM_OF_BLOCKS: usize = 27648;

/// Whether the cell lies in a chunk.
pub open spec fn in_chunk(c: ICord) -> bool {
    0 <= c.x < CHUNK_SIZE && 0 <= c.y < CHUNK_SIZE && 0 <= c.z < CHUNK_SIZE
}

/// The cell's place in the chunk's cell order: x fastest, then y, then z.
pub open spec fn cell_position(c: ICord) -> int {
    c.x + c.y * CHUNK_SIZE + c.z * CHUNK_SIZE * CHUNK_SIZE
}

/// The classification byte of the cell at `pos`: byte `pos % 4` of word
/// `pos / 4`, lowest byte first.
pub open spec fn packed_config(raw: Seq<u32>, pos: int) -> u8 {
    ((raw[pos / 4] >> ((pos % 4) * 8) as u32) & 0xffu32) as u8
}

/// The collision triangles of cell `c` under the packed classification `raw`.
pub open spec fn cell_triangles(raw: Seq<u32>, c: ICord) -> Seq<Triangle> {
    case_triangles(packed_config(raw, cell_position(c)), c)
}

/// Distinct cells of a chunk have distinct places, all below the cell count.
pub proof fn lemma_cell_position(c: ICord, d: ICord)
    requires
        in_chunk(c),
        in_chunk(d),
    ensures
        0 <= cell_position(c) < TOTAL_NUM_OF_CUBES,
        cell_position(c) == cell_position(d) ==> c == d,
{
    assert(0 <= cell_position(c) < TOTAL_NUM_OF_CUBES) by (nonlinear_arith)
        requires
            0 <= c.x < 48,
            0 <= c.y < 48,
            0 <= c.z < 48,
    ;
    assert(cell_position(c) == cell_position(d) ==> c.x == d.x && c.y == d.y && c.z == d.z)
        by (nonlinear_arith)
        requires
            0 <= c.x < 48,
            0 <= c.y < 48,
            0 <= c.z < 48,
            0 <= d.x < 48,
            0 <= d.y < 48,
            0 <= d.z < 48,
    ;
}

fn position(index: ICord) -> (r: usize)
    requires
        in_chunk(index),
    ensures
        r == cell_position(index),
        r < TOTAL_NUM_OF_CUBES,
{
    proof {
        lemma_cell_position(index, index);
    }
    (index.x + index.y * CHUNK_SIZE + index.z * CHUNK_SIZE * CHUNK_SIZE) as usize
}

/// Every cell has between zero and five triangles, whatever its
/// classification byte.
pub proof fn lemma_cell_triangles_bounded(raw: Seq<u32>, c: ICord)
    ensures
        cell_triangles(raw, c).len() <= MAX_TRIANGLES_PER_CELL,
{
    lemma_triangle_count_bound(packed_config(raw, cell_position(c)));
}

/// A cell whose word is zero has no triangles.
proof fn lemma_zero_field_is_empty(raw: Seq<u32>, pos: int)
    requires
        0 <= pos,
        pos / 4 < raw.len(),
        raw[pos / 4] == 0,
    ensures
        triangle_count(packed_config(raw, pos)) == 0,
{
    let s = ((pos % 4) * 8) as u32;
    assert((0u32 >> s) & 0xffu32 == 0u32) by (bit_vector);
    assert(case_row(0u8)[0] == -1);
}

/// The triangles of one cell, and the readback generation they were made for.
#[derive(Debug)]
struct BlockTriangles {
    triangles: Vec<Triangle>,
    update_iteration: u64,
}

/// The CPU side of a chunk's surface: the packed per-cell classification read
/// back from the GPU, and a cache of the triangles of each cell, rebuilt from
/// its classification byte when first asked for after a readback.
#[derive(Debug)]
pub struct CollisionShape {
    raw_field: Vec<u32>,
    buffer: Buffer,
    triangles: Vec<BlockTriangles>,
    update_iteration: u64,
}

impl View for CollisionShape {
    /// The packed classification and the readback generation.
    type V = (Seq<u32>, u64);

    closed spec fn view(&self) -> (Seq<u32>, u64) {
        (self.raw_field@, self.update_iteration)
    }
}

impl CollisionShape {
    /// A cache entry counts only when it was made in the current generation,
    /// and then it holds exactly the cell's triangles.
    pub closed spec fn wf(&self) -> bool {
        &&& self.raw_field@.len() == NUM_OF_BLOCKS
        &&& self.triangles@.len() == TOTAL_NUM_OF_CUBES
        &&& forall|i: int|
            0 <= i < TOTAL_NUM_OF_CUBES ==> #[trigger] self.triangles@[i].update_iteration
                <= self.update_iteration
        &&& forall|c: ICord|
            in_chunk(c) && #[trigger] self.triangles@[cell_position(c)].update_iteration
                == self.update_iteration ==> self.triangles@[cell_position(
                c,
            )].triangles@ == cell_triangles(self.raw_field@, c)
    }

    /// The packed classification as last read back.
    pub open spec fn raw(&self) -> Seq<u32> {
        self@.0
    }

    /// A shape whose cells are all empty, tied to the GPU buffer that the
    /// marching pass writes the classification to.
    pub fn new(buffer: Buffer) -> (r: CollisionShape)
        ensures
            r.wf(),
            r.raw() == Seq::new(NUM_OF_BLOCKS as nat, |i: int| 0u32),
            r@.1 == 0,
            r.spec_buffer() == buffer,
    {
        let mut raw_field: Vec<u32> = Vec::new();
        let mut i: usize = 0;
        while i < NUM_OF_BLOCKS
            invariant
                i <= NUM_OF_BLOCKS,
                raw_field@ == Seq::new(i as nat, |k: int| 0u32),
            decreases NUM_OF_BLOCKS - i,
        {
            raw_field.push(0);
            assert(raw_field@ =~= Seq::new((i + 1) as nat, |k: int| 0u32));
            i = i + 1;
        }
        let mut triangles: Vec<BlockTriangles> = Vec::new();
        let mut j: usize = 0;
        while j < TOTAL_NUM_OF_CUBES
            invariant
                j <= TOTAL_NUM_OF_CUBES,
                triangles@.len() == j,
                forall|k: int|
                    0 <= k < j ==> (#[trigger] triangles@[k]).update_iteration == 0
                        && triangles@[k].triangles@.len() == 0,
            decreases TOTAL_NUM_OF_CUBES - j,
        {
            triangles.push(BlockTriangles { triangles: Vec::new(), update_iteration: 0 });
            j = j + 1;
        }
        let shape = CollisionShape { raw_field, buffer, triangles, update_iteration: 0 };
        assert forall|c: ICord|
            in_chunk(c) && #[trigger] shape.triangles@[cell_position(c)].update_iteration
                == shape.update_iteration implies shape.triangles@[cell_position(
            c,
        )].triangles@ == cell_triangles(shape.raw_field@, c) by {
            lemma_cell_position(c, c);
            lemma_zero_field_is_empty(shape.raw_field@, cell_position(c));
            assert(shape.triangles@[cell_position(c)].triangles@ =~= cell_triangles(
                shape.raw_field@,
                c,
            ));
        }
        shape
    }

    /// Takes the classification just read back from the GPU buffer and starts
    /// a new generation, which makes every cached cell stale at once.
    pub fn readback(&mut self, data: &[u32])
        requires
            old(self).wf(),
            data@.len() == NUM_OF_BLOCKS,
        ensures
            final(self).wf(),
            final(self).raw() == data@,
            final(self)@.1 == if old(self)@.1 < u64::MAX {
                old(self)@.1 + 1
            } else {
                1
            },
            final(self).spec_buffer() == old(self).spec_buffer(),
    {
        let mut i: usize = 0;
        while i < NUM_OF_BLOCKS
            invariant
                i <= NUM_OF_BLOCKS,
                data@.len() == NUM_OF_BLOCKS,
                self.raw_field@.len() == NUM_OF_BLOCKS,
                forall|k: int| 0 <= k < i ==> self.raw_field@[k] == data@[k],
                self.triangles@ == old(self).triangles@,
                self.update_iteration == old(self).update_iteration,
                self.buffer == old(self).buffer,
            decreases NUM_OF_BLOCKS - i,
        {
            self.raw_field[i] = data[i];
            i = i + 1;
        }
        assert(self.raw_field@ =~= data@);
        if self.update_iteration < u64::MAX {
            self.update_iteration = self.update_iteration + 1;
        } else {
            let mut j: usize = 0;
            while j < TOTAL_NUM_OF_CUBES
                invariant
                    j <= TOTAL_NUM_OF_CUBES,
                    self.raw_field@ == data@,
                    self.buffer == old(self).buffer,
                    self.update_iteration == u64::MAX,
                    self.triangles@.len() == TOTAL_NUM_OF_CUBES,
                    forall|k: int|
                        0 <= k < j ==> (#[trigger] self.triangles@[k]).update_iteration == 0,
                decreases TOTAL_NUM_OF_CUBES - j,
            {
                self.triangles[j] = BlockTriangles { triangles: Vec::new(), update_iteration: 0 };
                j = j + 1;
            }
            self.update_iteration = 1;
        }
        assert forall|c: ICord|
            in_chunk(c) implies #[trigger] self.triangles@[cell_position(c)].update_iteration
                != self.update_iteration by {
            lemma_cell_position(c, c);
        }
    }

    /// The triangles of cell `index`: taken from the cache when it was filled
    /// in the current generation, otherwise built from the cell's
    /// classification byte and cached.
    pub fn get(&mut self, index: ICord) -> (r: Vec<Triangle>)
        requires
            old(self).wf(),
            in_chunk(index),
        ensures
            final(self).wf(),
            final(self)@ == old(self)@,
            final(self).spec_buffer() == old(self).spec_buffer(),
            r@ == cell_triangles(old(self).raw(), index),
            r@.len() <= MAX_TRIANGLES_PER_CELL,
    {
        proof {
            lemma_cell_triangles_bounded(old(self).raw(), index);
        }
        let position = position(index);
        if self.triangles[position].update_iteration != self.update_iteration {
            let word = self.raw_field[position / 4];
            let shift = ((position % 4) * 8) as u32;
            let config = ((word >> shift) & 0xff) as u8;
            let tris = triangulate_centers(config, index);
            let ghost before = self.triangles@;
            self.triangles[position] = BlockTriangles {
                triangles: tris,
                update_iteration: self.update_iteration,
            };
            assert forall|c: ICord|
                in_chunk(c) && #[trigger] self.triangles@[cell_position(c)].update_iteration
                    == self.update_iteration implies self.triangles@[cell_position(
                c,
            )].triangles@ == cell_triangles(self.raw_field@, c) by {
                lemma_cell_position(c, index);
                if c != index {
                    assert(self.triangles@[cell_position(c)] == before[cell_position(c)]);
                }
            }
            assert forall|i: int|
                0 <= i < TOTAL_NUM_OF_CUBES implies #[trigger] self.triangles@[i].update_iteration
                    <= self.update_iteration by {
                if i != position {
                    assert(self.triangles@[i] == before[i]);
                }
            }
        }
        let cached = &self.triangles[position].triangles;
        let mut out: Vec<Triangle> = Vec::new();
        let mut k: usize = 0;
        while k < cached.len()
            invariant
                k <= cached@.len(),
                out@ == cached@.subrange(0, k as int),
            decreases cached@.len() - k,
        {
            out.push(cached[k]);
            assert(out@ =~= cached@.subrange(0, k + 1));
            k = k + 1;
        }
        assert(out@ =~= cached@);
        out
    }

    /// The GPU buffer that holds the classification.
    pub closed spec fn spec_buffer(&self) -> Buffer {
        self.buffer
    }

    pub fn buffer(&self) -> (r: Buffer)
        ensures
            r == self.spec_buffer(),
    {
        self.buffer
    }
}

} // verus!
