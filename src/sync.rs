use vstd::prelude::*;

verus! {

/// Barrier kind: writes to shader storage blocks.
pub const SHADER_STORAGE_BARRIER_BIT: u32 = 0x2000;

/// Barrier kind: image loads and stores from shaders.
pub const SHADER_IMAGE_ACCESS_BARRIER_BIT: u32 = 0x20;

/// Barrier kind: indirect command arguments read from a buffer.
pub const COMMAND_BARRIER_BIT: u32 = 0x40;

/// Barrier kind: buffer updates and readbacks.
pub const BUFFER_UPDATE_BARRIER_BIT: u32 = 0x200;

/// Every barrier kind.
pub const ALL_BARRIER_BITS: u32 = 0xFFFF_FFFF;

/// The kinds that a `sync` with `bits` covers when `outstanding` are not yet
/// synchronized: zero means that no barrier is issued.
pub open spec fn sync_issued(outstanding: u32, bits: u32) -> u32 {
    outstanding & bits
}

/// What is left outstanding after a `sync` with `bits`.
pub open spec fn after_sync(outstanding: u32, bits: u32) -> u32 {
    outstanding & !bits
}

/// What is outstanding after `dirty` with `bits`.
pub open spec fn after_dirty(outstanding: u32, bits: u32) -> u32 {
    outstanding | bits
}

/// A set of memory barrier kinds, as a bit set.
#[derive(Clone, Copy, Debug, PartialEq, Eq, Structural)]
pub struct MemBarrierBits(pub u32);

impl MemBarrierBits {
    pub fn shader_storage() -> (r: MemBarrierBits)
        ensures
            r.0 == SHADER_STORAGE_BARRIER_BIT,
    {
        MemBarrierBits(SHADER_STORAGE_BARRIER_BIT)
    }

    pub fn shader_image_access() -> (r: MemBarrierBits)
        ensures
            r.0 == SHADER_IMAGE_ACCESS_BARRIER_BIT,
    {
        MemBarrierBits(SHADER_IMAGE_ACCESS_BARRIER_BIT)
    }

    pub fn command() -> (r: MemBarrierBits)
        ensures
            r.0 == COMMAND_BARRIER_BIT,
    {
        MemBarrierBits(COMMAND_BARRIER_BIT)
    }

    pub fn buffer_update() -> (r: MemBarrierBits)
        ensures
            r.0 == BUFFER_UPDATE_BARRIER_BIT,
    {
        MemBarrierBits(BUFFER_UPDATE_BARRIER_BIT)
    }

    pub fn all() -> (r: MemBarrierBits)
        ensures
            r.0 == ALL_BARRIER_BITS,
    {
        MemBarrierBits(ALL_BARRIER_BITS)
    }

    pub fn bit_field(&self) -> (r: u32)
        ensures
            r == self.0,
    {
        self.0
    }

    /// The kinds of both sets.
    pub fn union(self, other: MemBarrierBits) -> (r: MemBarrierBits)
        ensures
            r.0 == self.0 | other.0,
    {
        MemBarrierBits(self.0 | other.0)
    }
}

/// Tracks which kinds of GPU writes have not yet been made visible to later
/// stages, and decides which barrier to issue when a stage needs them.
///
/// The context never issues a barrier itself: `sync` returns the barrier that
/// the caller must issue, or `None` when no barrier is needed.
#[derive(Debug)]
pub struct SynchronizationContext {
    value: u32,
}

impl View for SynchronizationContext {
    type V = u32;

    /// The outstanding barrier kinds.
    closed spec fn view(&self) -> u32 {
        self.value
    }
}

impl SynchronizationContext {
    pub fn new() -> (r: SynchronizationContext)
        ensures
            r@ == 0,
    {
        SynchronizationContext { value: 0 }
    }

    /// Marks the kinds in `val` as written and not yet synchronized.
    pub fn dirty(&mut self, val: MemBarrierBits)
        ensures
            final(self)@ == after_dirty(old(self)@, val.0),
    {
        self.value = self.value | val.0;
    }

    /// Synchronizes the kinds in `val`: returns the barrier to issue, which
    /// covers exactly the outstanding kinds among them, or `None` when none of
    /// them is outstanding; those kinds are then no longer outstanding.
    pub fn sync(&mut self, val: MemBarrierBits) -> (r: Option<MemBarrierBits>)
        ensures
            final(self)@ == after_sync(old(self)@, val.0),
            r == if sync_issued(old(self)@, val.0) != 0 {
                Some(MemBarrierBits(sync_issued(old(self)@, val.0)))
            } else {
                None::<MemBarrierBits>
            },
    {
        let bits = val.0;
        let old_value = self.value;
        let to_sync = old_value & bits;
        if to_sync > 0 {
            self.value = old_value & !to_sync;
            assert(old_value & !(old_value & bits) == old_value & !bits) by (bit_vector);
            Some(MemBarrierBits(to_sync))
        } else {
            assert(old_value & bits == 0u32 ==> old_value & !bits == old_value) by (bit_vector);
            None
        }
    }

    /// `dirty` followed by `sync` with the same kinds: the barrier for all of
    /// `val` is issued whatever was outstanding before.
    pub fn force_sync(&mut self, val: MemBarrierBits) -> (r: Option<MemBarrierBits>)
        ensures
            final(self)@ == after_sync(old(self)@, val.0),
            r == if val.0 != 0 {
                Some(val)
            } else {
                None::<MemBarrierBits>
            },
    {
        let ghost o = self@;
        self.dirty(val);
        let r = self.sync(val);
        let v = val.0;
        assert((o | v) & v == v) by (bit_vector);
        assert((o | v) & !v == o & !v) by (bit_vector);
        r
    }
}

/// `dirty(A | B)` then `sync(A)` issues the barrier for exactly `A` and
/// clears `A` alone; a second `sync(A)` then issues nothing, and a following
/// `sync(B)` issues one barrier for exactly `B`, after which neither kind is
/// outstanding.
pub proof fn lemma_sync_clears_only_requested(s: u32, a: u32, b: u32)
    requires
        a & b == 0,
        a != 0,
        b != 0,
    ensures
        sync_issued(after_dirty(s, a | b), a) == a,
        after_sync(after_dirty(s, a | b), a) == after_dirty(s, b) & !a,
        sync_issued(after_sync(after_dirty(s, a | b), a), a) == 0,
        sync_issued(after_sync(after_sync(after_dirty(s, a | b), a), a), b) == b,
        after_sync(after_sync(after_sync(after_dirty(s, a | b), a), a), b) & (a | b) == 0,
{
    assert(((s | (a | b)) & a) == a) by (bit_vector);
    assert((s | (a | b)) & !a == (s | b) & !a) by (bit_vector);
    assert(((s | (a | b)) & !a) & a == 0) by (bit_vector);
    assert(a & b == 0 ==> (((s | (a | b)) & !a) & !a) & b == b) by (bit_vector);
    assert(((((s | (a | b)) & !a) & !a) & !b) & (a | b) == 0) by (bit_vector);
}

} // verus!
