//! Verified core of a sculpting engine for a chunked signed-distance field:
//! integer boxes, GPU barrier bookkeeping, the marching-cubes table and the
//! per-cell collision cache, the plans for marching a chunk in one or two
//! steps, the sparse field of chunks, and an exact grid walk along a ray.
//! The GPU work itself is described by the plans and performed by the caller.

use vstd::prelude::*;

pub mod bit_field;
pub mod bounds;
pub mod chunk;
pub mod collision;
pub mod cord;
pub mod field;
pub mod gpu;
pub mod grid;
pub mod hit;
pub mod marching;
pub mod sync;
pub mod triangulation;

verus! {

} // verus!
