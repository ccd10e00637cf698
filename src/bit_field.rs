use vstd::prelude::*;

use crate::collision::{cell_position, in_chunk, lemma_cell_position};
use crate::cord::ICord;
use crate::gpu::Buffer;

verus! {

/// 32-bit words of a chunk's bit mask: one bit per cell.
pub const NUM_OF_BITMASK_VALUES: usize = 3456;

/// Bit `pos % 32` of word `pos / 32`.
pub open spec fn mask_bit(field: Seq<u32>, pos: int) -> bool {
    field[pos / 32] & (1u32 << (pos % 32) as u32) != 0
}

/// One flag per cell of a chunk, packed 32 to a word, as read back from the
/// GPU buffer that a compute pass fills.
pub struct BitField {
    field: Vec<u32>,
    buffer: Buffer,
}

impl View for BitField {
    type V = Seq<u32>;

    /// The packed words.
    closed spec fn view(&self) -> Seq<u32> {
        self.field@
    }
}

impl BitField {
    pub closed spec fn spec_buffer(&self) -> Buffer {
        self.buffer
    }

    /// All flags clear, tied to the GPU buffer that holds the mask.
    pub fn new(buffer: Buffer) -> (r: BitField)
        ensures
            r@ == Seq::new(NUM_OF_BITMASK_VALUES as nat, |i: int| 0u32),
            r.spec_buffer() == buffer,
    {
        let mut field: Vec<u32> = Vec::new();
        let mut i: usize = 0;
        while i < NUM_OF_BITMASK_VALUES
            invariant
                i <= NUM_OF_BITMASK_VALUES,
                field@ == Seq::new(i as nat, |k: int| 0u32),
            decreases NUM_OF_BITMASK_VALUES - i,
        {
            field.push(0);
            assert(field@ =~= Seq::new((i + 1) as nat, |k: int| 0u32));
            i = i + 1;
        }
        BitField { field, buffer }
    }

    /// Takes the mask just read back from the GPU buffer.
    pub fn readback(&mut self, data: &[u32])
        requires
            data@.len() == NUM_OF_BITMASK_VALUES,
        ensures
            final(self)@ == data@,
            final(self).spec_buffer() == old(self).spec_buffer(),
    {
        let mut field: Vec<u32> = Vec::new();
        let mut i: usize = 0;
        while i < data.len()
            invariant
                i <= data@.len(),
                field@ == data@.subrange(0, i as int),
            decreases data@.len() - i,
        {
            field.push(data[i]);
            assert(field@ =~= data@.subrange(0, i + 1));
            i = i + 1;
        }
        assert(field@ =~= data@);
        self.field = field;
    }

    pub fn buffer(&self) -> (r: &Buffer)
        ensures
            *r == self.spec_buffer(),
    {
        &self.buffer
    }

    pub fn buffer_mut(&mut self) -> (r: &mut Buffer)
        ensures
            *r == old(self).spec_buffer(),
            final(self)@ == old(self)@,
            final(self).spec_buffer() == *final(r),
    {
        &mut self.buffer
    }

    /// The flag of cell `index`.
    pub fn get(&self, index: ICord) -> (r: bool)
        requires
            in_chunk(index),
            self@.len() == NUM_OF_BITMASK_VALUES,
        ensures
            r == mask_bit(self@, cell_position(index)),
    {
        proof {
            lemma_cell_position(index, index);
        }
        let position = (index.x + index.y * 48 + index.z * 48 * 48) as usize;
        let block_id = position / 32;
        let mask: u32 = 1u32 << ((position % 32) as u32);
        self.field[block_id] & mask != 0
    }
}

} // verus!
