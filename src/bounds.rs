use vstd::prelude::*;

use crate::cord::{fits_i32, max_int, min_int, CordOps, ICord};

verus! {

/// What a `Bounds` holds: `None` when empty, otherwise its inclusive
/// minimum and maximum corners.
pub type BoundsView = Option<(ICord, ICord)>;

/// Component-wise minimum.
pub open spec fn cord_min(a: ICord, b: ICord) -> ICord {
    ICord {
        x: min_int(a.x as int, b.x as int) as i32,
        y: min_int(a.y as int, b.y as int) as i32,
        z: min_int(a.z as int, b.z as int) as i32,
    }
}

/// Component-wise maximum.
pub open spec fn cord_max(a: ICord, b: ICord) -> ICord {
    ICord {
        x: max_int(a.x as int, b.x as int) as i32,
        y: max_int(a.y as int, b.y as int) as i32,
        z: max_int(a.z as int, b.z as int) as i32,
    }
}

/// A non-empty box has its minimum below its maximum on every axis.
pub open spec fn box_wf(b: BoundsView) -> bool {
    match b {
        Some((lo, hi)) => lo.le(hi),
        None => true,
    }
}

/// Whether the box holds the point.
pub open spec fn box_contains(b: BoundsView, p: ICord) -> bool {
    match b {
        Some((lo, hi)) => p.within(lo, hi),
        None => false,
    }
}

/// The least box that holds `b` and the point `v`.
pub open spec fn box_encapsulate(b: BoundsView, v: ICord) -> BoundsView {
    match b {
        Some((lo, hi)) => Some((cord_min(lo, v), cord_max(hi, v))),
        None => Some((v, v)),
    }
}

/// The box that results from encapsulating the points one after another.
pub open spec fn box_encapsulate_all(b: BoundsView, pts: Seq<ICord>) -> BoundsView
    decreases pts.len(),
{
    if pts.len() == 0 {
        b
    } else {
        box_encapsulate(box_encapsulate_all(b, pts.drop_last()), pts.last())
    }
}

/// Cells `(x, y, z0 + k)` for `k < n`.
pub open spec fn z_run(x: i32, y: i32, z0: i32, n: nat) -> Seq<ICord> {
    Seq::new(n, |k: int| ICord { x, y, z: (z0 + k) as i32 })
}

/// Runs along z for the rows `y0 .. y0 + ny` of the slice at `x`, in order of `y`.
pub open spec fn yz_plane(x: i32, y0: i32, ny: nat, z0: i32, nz: nat) -> Seq<ICord>
    decreases ny,
{
    if ny == 0 {
        Seq::empty()
    } else {
        yz_plane(x, y0, (ny - 1) as nat, z0, nz) + z_run(x, (y0 + ny - 1) as i32, z0, nz)
    }
}

/// All cells of the box with corner `lo` and extents `nx, ny, nz`:
/// x outermost, then y, then z innermost.
pub open spec fn box_cells(lo: ICord, nx: nat, ny: nat, nz: nat) -> Seq<ICord>
    decreases nx,
{
    if nx == 0 {
        Seq::empty()
    } else {
        box_cells(lo, (nx - 1) as nat, ny, nz) + yz_plane(
            (lo.x + nx - 1) as i32,
            lo.y,
            ny,
            lo.z,
            nz,
        )
    }
}

/// The cells of a box, inclusive of both corners, in iteration order.
pub open spec fn cells_of(b: BoundsView) -> Seq<ICord> {
    match b {
        Some((lo, hi)) => box_cells(
            lo,
            (hi.x - lo.x + 1) as nat,
            (hi.y - lo.y + 1) as nat,
            (hi.z - lo.z + 1) as nat,
        ),
        None => Seq::empty(),
    }
}


/// Encapsulating one point keeps the box well formed, makes it hold the
/// point, and keeps every point that it held.
pub proof fn lemma_encapsulate_one(b: BoundsView, v: ICord)
    requires
        box_wf(b),
    ensures
        box_wf(box_encapsulate(b, v)),
        box_contains(box_encapsulate(b, v), v),
        forall|p: ICord| box_contains(b, p) ==> box_contains(box_encapsulate(b, v), p),
{
}

/// A box built by encapsulating points one after another holds every one of
/// them (and every point that it held before), and its minimum stays below
/// its maximum on every axis.
pub proof fn lemma_encapsulated_points_contained(b: BoundsView, pts: Seq<ICord>)
    requires
        box_wf(b),
    ensures
        box_wf(box_encapsulate_all(b, pts)),
        forall|i: int| 0 <= i < pts.len() ==> box_contains(box_encapsulate_all(b, pts), #[trigger] pts[i]),
        forall|p: ICord| box_contains(b, p) ==> box_contains(box_encapsulate_all(b, pts), p),
        pts.len() > 0 ==> box_encapsulate_all(b, pts).is_some(),
    decreases pts.len(),
{
    if pts.len() > 0 {
        let prev = box_encapsulate_all(b, pts.drop_last());
        lemma_encapsulated_points_contained(b, pts.drop_last());
        lemma_encapsulate_one(prev, pts.last());
        assert forall|i: int| 0 <= i < pts.len() implies box_contains(box_encapsulate_all(b, pts), #[trigger] pts[i]) by {
            if i < pts.len() - 1 {
                assert(pts[i] == pts.drop_last()[i]);
            }
        }
    }
}

/// Encapsulating both corners of a box into an empty box gives that box.
pub proof fn lemma_empty_is_union_identity(b: BoundsView)
    requires
        box_wf(b),
    ensures
        b matches Some((lo, hi)) ==> box_encapsulate(box_encapsulate(None, lo), hi) == b,
{
}

proof fn lemma_yz_plane_within(x: i32, y0: i32, ny: nat, z0: i32, nz: nat)
    requires
        y0 + ny <= i32::MAX + 1,
        z0 + nz <= i32::MAX + 1,
    ensures
        forall|k: int|
            0 <= k < yz_plane(x, y0, ny, z0, nz).len() ==> {
                let e = #[trigger] yz_plane(x, y0, ny, z0, nz)[k];
                e.x == x && y0 <= e.y < y0 + ny && z0 <= e.z < z0 + nz
            },
    decreases ny,
{
    if ny > 0 {
        lemma_yz_plane_within(x, y0, (ny - 1) as nat, z0, nz);
        let prev = yz_plane(x, y0, (ny - 1) as nat, z0, nz);
        let run = z_run(x, (y0 + ny - 1) as i32, z0, nz);
        assert forall|k: int| 0 <= k < yz_plane(x, y0, ny, z0, nz).len() implies {
            let e = #[trigger] yz_plane(x, y0, ny, z0, nz)[k];
            e.x == x && y0 <= e.y < y0 + ny && z0 <= e.z < z0 + nz
        } by {
            if k < prev.len() {
                assert(yz_plane(x, y0, ny, z0, nz)[k] == prev[k]);
            } else {
                assert(yz_plane(x, y0, ny, z0, nz)[k] == run[k - prev.len()]);
            }
        }
    }
}

proof fn lemma_box_cells_within(lo: ICord, nx: nat, ny: nat, nz: nat)
    requires
        lo.x + nx <= i32::MAX + 1,
        lo.y + ny <= i32::MAX + 1,
        lo.z + nz <= i32::MAX + 1,
    ensures
        forall|k: int|
            0 <= k < box_cells(lo, nx, ny, nz).len() ==> {
                let e = #[trigger] box_cells(lo, nx, ny, nz)[k];
                lo.x <= e.x < lo.x + nx && lo.y <= e.y < lo.y + ny && lo.z <= e.z < lo.z + nz
            },
    decreases nx,
{
    if nx > 0 {
        lemma_box_cells_within(lo, (nx - 1) as nat, ny, nz);
        let prev = box_cells(lo, (nx - 1) as nat, ny, nz);
        let x = (lo.x + nx - 1) as i32;
        let plane = yz_plane(x, lo.y, ny, lo.z, nz);
        lemma_yz_plane_within(x, lo.y, ny, lo.z, nz);
        assert forall|k: int| 0 <= k < box_cells(lo, nx, ny, nz).len() implies {
            let e = #[trigger] box_cells(lo, nx, ny, nz)[k];
            lo.x <= e.x < lo.x + nx && lo.y <= e.y < lo.y + ny && lo.z <= e.z < lo.z + nz
        } by {
            if k < prev.len() {
                assert(box_cells(lo, nx, ny, nz)[k] == prev[k]);
            } else {
                assert(box_cells(lo, nx, ny, nz)[k] == plane[k - prev.len()]);
            }
        }
    }
}

/// Every cell that `iterate_cords` lists lies in the box.
pub proof fn lemma_cells_within(b: BoundsView)
    requires
        box_wf(b),
    ensures
        forall|k: int| 0 <= k < cells_of(b).len() ==> box_contains(b, #[trigger] cells_of(b)[k]),
{
    if let Some((lo, hi)) = b {
        lemma_box_cells_within(
            lo,
            (hi.x - lo.x + 1) as nat,
            (hi.y - lo.y + 1) as nat,
            (hi.z - lo.z + 1) as nat,
        );
    }
}

/// An axis-aligned box over integer coordinates, possibly empty.
#[derive(Debug, Clone, Copy)]
pub struct Bounds {
    min_max: Option<(ICord, ICord)>,
}

impl View for Bounds {
    type V = BoundsView;

    closed spec fn view(&self) -> BoundsView {
        self.min_max
    }
}

impl Bounds {
    pub open spec fn wf(&self) -> bool {
        box_wf(self@)
    }

    pub fn empty() -> (r: Bounds)
        ensures
            r@ == None::<(ICord, ICord)>,
            r.wf(),
    {
        Bounds { min_max: None }
    }

    pub fn new(v: ICord) -> (r: Bounds)
        ensures
            r@ == Some((v, v)),
            r.wf(),
    {
        Bounds { min_max: Some((v, v)) }
    }

    /// Grows the box to hold `vec`.
    pub fn encapsulate(&mut self, vec: ICord)
        requires
            old(self).wf(),
        ensures
            final(self)@ == box_encapsulate(old(self)@, vec),
            final(self).wf(),
    {
        match self.min_max {
            Some((mi, ma)) => {
                let new_min = ICord::min(&mi, &vec);
                let new_max = ICord::max(&ma, &vec);
                self.min_max = Some((new_min, new_max));
            },
            None => self.min_max = Some((vec, vec)),
        }
    }

    /// Grows the box to hold every point of `other`.
    pub fn encapsulate_other(&mut self, other: &Bounds)
        requires
            old(self).wf(),
            other.wf(),
        ensures
            final(self).wf(),
            final(self)@ == match other@ {
                Some((lo, hi)) => box_encapsulate(box_encapsulate(old(self)@, lo), hi),
                None => old(self)@,
            },
    {
        match other.min_max {
            Some((mi, ma)) => {
                self.encapsulate(mi);
                self.encapsulate(ma);
            },
            None => (),
        }
    }

    /// The least box that holds both points.
    pub fn min_max(v1: ICord, v2: ICord) -> (r: Bounds)
        ensures
            r@ == box_encapsulate(Some((v1, v1)), v2),
            r.wf(),
    {
        let mut b = Bounds::new(v1);
        b.encapsulate(v2);
        b
    }

    pub fn has_values(&self) -> (r: bool)
        ensures
            r == self@.is_some(),
    {
        self.min_max.is_some()
    }

    pub fn contains(&self, cord: ICord) -> (r: bool)
        ensures
            r == box_contains(self@, cord),
    {
        match &self.min_max {
            Some((mi, ma)) => ICord::contains(&cord, mi, ma),
            None => false,
        }
    }

    /// The minimum corner; zero for an empty box.
    pub fn min(&self) -> (r: ICord)
        ensures
            r == match self@ {
                Some((lo, _)) => lo,
                None => ICord { x: 0, y: 0, z: 0 },
            },
    {
        match &self.min_max {
            Some((min, _)) => *min,
            None => ICord::zero(),
        }
    }

    /// The maximum corner; zero for an empty box.
    pub fn max(&self) -> (r: ICord)
        ensures
            r == match self@ {
                Some((_, hi)) => hi,
                None => ICord { x: 0, y: 0, z: 0 },
            },
    {
        match &self.min_max {
            Some((_, max)) => *max,
            None => ICord::zero(),
        }
    }

    /// The box moved by `offset`; empty stays empty.
    pub fn offset(&self, offset: ICord) -> (r: Bounds)
        requires
            self.wf(),
            self@ matches Some((lo, hi)) ==> {
                &&& fits_i32(lo.x + offset.x) && fits_i32(lo.y + offset.y) && fits_i32(lo.z + offset.z)
                &&& fits_i32(hi.x + offset.x) && fits_i32(hi.y + offset.y) && fits_i32(hi.z + offset.z)
            },
        ensures
            r.wf(),
            r@ == match self@ {
                Some((lo, hi)) => Some((
                    ICord { x: (lo.x + offset.x) as i32, y: (lo.y + offset.y) as i32, z: (lo.z + offset.z) as i32 },
                    ICord { x: (hi.x + offset.x) as i32, y: (hi.y + offset.y) as i32, z: (hi.z + offset.z) as i32 },
                )),
                None => None,
            },
    {
        match self.min_max {
            Some((mi, ma)) => Bounds::min_max(mi.add_cord(offset), ma.add_cord(offset)),
            None => Bounds::empty(),
        }
    }

    /// The extent `max - min`; zero for an empty box.
    pub fn size(&self) -> (r: ICord)
        requires
            self@ matches Some((lo, hi)) ==> {
                fits_i32(hi.x - lo.x) && fits_i32(hi.y - lo.y) && fits_i32(hi.z - lo.z)
            },
        ensures
            r == match self@ {
                Some((lo, hi)) => ICord { x: (hi.x - lo.x) as i32, y: (hi.y - lo.y) as i32, z: (hi.z - lo.z) as i32 },
                None => ICord { x: 0, y: 0, z: 0 },
            },
    {
        match self.min_max {
            Some((mi, ma)) => ma.sub_cord(mi),
            None => ICord::zero(),
        }
    }

    /// The box spanned by both corners scaled by `scale_factor`; empty stays empty.
    pub fn scale(&self, scale_factor: ICord) -> (r: Bounds)
        requires
            self@ matches Some((lo, hi)) ==> {
                &&& fits_i32(lo.x * scale_factor.x) && fits_i32(lo.y * scale_factor.y) && fits_i32(lo.z * scale_factor.z)
                &&& fits_i32(hi.x * scale_factor.x) && fits_i32(hi.y * scale_factor.y) && fits_i32(hi.z * scale_factor.z)
            },
        ensures
            r.wf(),
            r@ == match self@ {
                Some((lo, hi)) => box_encapsulate(
                    Some((
                        ICord { x: (lo.x * scale_factor.x) as i32, y: (lo.y * scale_factor.y) as i32, z: (lo.z * scale_factor.z) as i32 },
                        ICord { x: (lo.x * scale_factor.x) as i32, y: (lo.y * scale_factor.y) as i32, z: (lo.z * scale_factor.z) as i32 },
                    )),
                    ICord { x: (hi.x * scale_factor.x) as i32, y: (hi.y * scale_factor.y) as i32, z: (hi.z * scale_factor.z) as i32 },
                ),
                None => None,
            },
    {
        match self.min_max {
            Some((mi, ma)) => Bounds::min_max(mi.mul_cord(scale_factor), ma.mul_cord(scale_factor)),
            None => Bounds::empty(),
        }
    }
    /// Every cell of the box, both corners included: x outermost, then y,
    /// then z innermost. Empty for an empty box.
    pub fn iterate_cords(&self) -> (r: Vec<ICord>)
        requires
            self.wf(),
        ensures
            r@ == cells_of(self@),
    {
        let mut out: Vec<ICord> = Vec::new();
        match self.min_max {
            None => out,
            Some((lo, hi)) => {
                let nx: i64 = hi.x as i64 - lo.x as i64 + 1;
                let ny: i64 = hi.y as i64 - lo.y as i64 + 1;
                let nz: i64 = hi.z as i64 - lo.z as i64 + 1;
                let mut i: i64 = 0;
                while i < nx
                    invariant
                        0 <= i <= nx,
                        nx == hi.x - lo.x + 1,
                        ny == hi.y - lo.y + 1,
                        nz == hi.z - lo.z + 1,
                        lo.le(hi),
                        out@ == box_cells(lo, i as nat, ny as nat, nz as nat),
                    decreases nx - i,
                {
                    let x: i32 = (lo.x as i64 + i) as i32;
                    let ghost before = out@;
                    let mut j: i64 = 0;
                    while j < ny
                        invariant
                            0 <= j <= ny,
                            0 <= i < nx,
                            x == lo.x + i,
                            nx == hi.x - lo.x + 1,
                            ny == hi.y - lo.y + 1,
                            nz == hi.z - lo.z + 1,
                            lo.le(hi),
                            before == box_cells(lo, i as nat, ny as nat, nz as nat),
                            out@ == before + yz_plane(x, lo.y, j as nat, lo.z, nz as nat),
                        decreases ny - j,
                    {
                        let y: i32 = (lo.y as i64 + j) as i32;
                        let ghost row_start = out@;
                        let mut k: i64 = 0;
                        while k < nz
                            invariant
                                0 <= k <= nz,
                                0 <= j < ny,
                                y == lo.y + j,
                                ny == hi.y - lo.y + 1,
                                nz == hi.z - lo.z + 1,
                                lo.le(hi),
                                out@ == row_start + z_run(x, y, lo.z, k as nat),
                            decreases nz - k,
                        {
                            let z: i32 = (lo.z as i64 + k) as i32;
                            out.push(ICord { x, y, z });
                            assert(out@ =~= row_start + z_run(x, y, lo.z, (k + 1) as nat));
                            k = k + 1;
                        }
                        assert(yz_plane(x, lo.y, (j + 1) as nat, lo.z, nz as nat) == yz_plane(
                            x,
                            lo.y,
                            j as nat,
                            lo.z,
                            nz as nat,
                        ) + z_run(x, y, lo.z, nz as nat));
                        assert(out@ =~= before + yz_plane(x, lo.y, (j + 1) as nat, lo.z, nz as nat));
                        j = j + 1;
                    }
                    assert(box_cells(lo, (i + 1) as nat, ny as nat, nz as nat) == box_cells(
                        lo,
                        i as nat,
                        ny as nat,
                        nz as nat,
                    ) + yz_plane(x, lo.y, ny as nat, lo.z, nz as nat));
                    i = i + 1;
                }
                out
            },
        }
    }
}

} // verus!
