use vstd::prelude::*;

verus! {

/// Whether a mathematical integer fits in an `i32`.
pub open spec fn fits_i32(v: int) -> bool {
    i32::MIN <= v <= i32::MAX
}

/// The smaller of two integers.
pub open spec fn min_int(a: int, b: int) -> int {
    if a < b { a } else { b }
}

/// The larger of two integers.
pub open spec fn max_int(a: int, b: int) -> int {
    if a > b { a } else { b }
}

/// `v` limited to the closed range `[lo, hi]`.
pub open spec fn clamp_int(v: int, lo: int, hi: int) -> int {
    if v < lo { lo } else if v > hi { hi } else { v }
}

/// An integer 3-component coordinate: a cell of a grid, a chunk of the field,
/// or a point measured in half cells.
#[derive(Clone, Copy, Debug, PartialEq, Eq, Structural, Hash)]
pub struct ICord {
    pub x: i32,
    pub y: i32,
    pub z: i32,
}

impl ICord {
    /// `lo <= self <= hi` on every component.
    pub open spec fn within(self, lo: ICord, hi: ICord) -> bool {
        &&& lo.x <= self.x <= hi.x
        &&& lo.y <= self.y <= hi.y
        &&& lo.z <= self.z <= hi.z
    }

    /// `self <= o` on every component.
    pub open spec fn le(self, o: ICord) -> bool {
        self.x <= o.x && self.y <= o.y && self.z <= o.z
    }

    pub fn zero() -> (r: ICord)
        ensures
            r == (ICord { x: 0, y: 0, z: 0 }),
    {
        ICord { x: 0, y: 0, z: 0 }
    }

    pub fn one() -> (r: ICord)
        ensures
            r == (ICord { x: 1, y: 1, z: 1 }),
    {
        ICord { x: 1, y: 1, z: 1 }
    }

    /// Component-wise sum.
    pub fn add_cord(self, o: ICord) -> (r: ICord)
        requires
            fits_i32(self.x + o.x),
            fits_i32(self.y + o.y),
            fits_i32(self.z + o.z),
        ensures
            r.x == self.x + o.x,
            r.y == self.y + o.y,
            r.z == self.z + o.z,
    {
        ICord { x: self.x + o.x, y: self.y + o.y, z: self.z + o.z }
    }

    /// Component-wise difference.
    pub fn sub_cord(self, o: ICord) -> (r: ICord)
        requires
            fits_i32(self.x - o.x),
            fits_i32(self.y - o.y),
            fits_i32(self.z - o.z),
        ensures
            r.x == self.x - o.x,
            r.y == self.y - o.y,
            r.z == self.z - o.z,
    {
        ICord { x: self.x - o.x, y: self.y - o.y, z: self.z - o.z }
    }

    /// Component-wise product.
    pub fn mul_cord(self, o: ICord) -> (r: ICord)
        requires
            fits_i32(self.x * o.x),
            fits_i32(self.y * o.y),
            fits_i32(self.z * o.z),
        ensures
            r.x == self.x * o.x,
            r.y == self.y * o.y,
            r.z == self.z * o.z,
    {
        ICord { x: self.x * o.x, y: self.y * o.y, z: self.z * o.z }
    }
}

/// Access to the three components of a coordinate type.
pub trait Cord3D: Sized {
    fn x(&self) -> i32;

    fn y(&self) -> i32;

    fn z(&self) -> i32;

    fn new(x: i32, y: i32, z: i32) -> Self;
}

/// Component-wise operations on a coordinate type.
pub trait CordOps: Sized {
    fn max(v1: &Self, v2: &Self) -> Self;

    fn min(v1: &Self, v2: &Self) -> Self;

    fn contains(val: &Self, min: &Self, max: &Self) -> bool;
}

impl Cord3D for ICord {
    fn x(&self) -> (r: i32)
        ensures
            r == self.x,
    {
        self.x
    }

    fn y(&self) -> (r: i32)
        ensures
            r == self.y,
    {
        self.y
    }

    fn z(&self) -> (r: i32)
        ensures
            r == self.z,
    {
        self.z
    }

    fn new(x: i32, y: i32, z: i32) -> (r: ICord)
        ensures
            r == (ICord { x, y, z }),
    {
        ICord { x, y, z }
    }
}

impl CordOps for ICord {
    fn max(v1: &ICord, v2: &ICord) -> (r: ICord)
        ensures
            r.x == max_int(v1.x as int, v2.x as int),
            r.y == max_int(v1.y as int, v2.y as int),
            r.z == max_int(v1.z as int, v2.z as int),
    {
        ICord {
            x: *part_max(&v1.x, &v2.x),
            y: *part_max(&v1.y, &v2.y),
            z: *part_max(&v1.z, &v2.z),
        }
    }

    fn min(v1: &ICord, v2: &ICord) -> (r: ICord)
        ensures
            r.x == min_int(v1.x as int, v2.x as int),
            r.y == min_int(v1.y as int, v2.y as int),
            r.z == min_int(v1.z as int, v2.z as int),
    {
        ICord {
            x: *part_min(&v1.x, &v2.x),
            y: *part_min(&v1.y, &v2.y),
            z: *part_min(&v1.z, &v2.z),
        }
    }

    fn contains(val: &ICord, min: &ICord, max: &ICord) -> (r: bool)
        ensures
            r == val.within(*min, *max),
    {
        val.x >= min.x && val.x <= max.x && val.y >= min.y && val.y <= max.y && val.z >= min.z
            && val.z <= max.z
    }
}

/// The smaller of two values; the second one when they are equal.
pub fn part_min<'a>(v1: &'a i32, v2: &'a i32) -> (r: &'a i32)
    ensures
        *r == min_int(*v1 as int, *v2 as int),
{
    if *v1 < *v2 {
        v1
    } else {
        v2
    }
}

/// The larger of two values; the second one when they are equal.
pub fn part_max<'a>(v1: &'a i32, v2: &'a i32) -> (r: &'a i32)
    ensures
        *r == max_int(*v1 as int, *v2 as int),
{
    if *v1 > *v2 {
        v1
    } else {
        v2
    }
}

/// `val` limited to `[lo, hi]`.
pub fn clamp(val: i32, lo: i32, hi: i32) -> (r: i32)
    requires
        lo <= hi,
    ensures
        r == clamp_int(val as int, lo as int, hi as int),
{
    if val < lo {
        lo
    } else if val > hi {
        hi
    } else {
        val
    }
}

/// Integer division rounding up: the least `r` with `r * divider >= val`.
pub fn ceil_div(val: usize, divider: usize) -> (r: usize)
    requires
        divider > 0,
    ensures
        r as int * divider as int >= val as int,
        (r as int - 1) * (divider as int) < (val as int),
{
    let div = val / divider;
    let rem = val % divider;
    proof {
        vstd::arithmetic::div_mod::lemma_fundamental_div_mod(val as int, divider as int);
    }
    assert(val as int == divider as int * div as int + rem as int);
    assert(0 <= rem < divider);
    if rem > 0 {
        assert(div < usize::MAX) by (nonlinear_arith)
            requires
                val as int == divider as int * div as int + rem as int,
                rem > 0,
                divider > 0,
                val <= usize::MAX,
        ;
        assert((div as int + 1) * divider as int >= val as int) by (nonlinear_arith)
            requires
                val as int == divider as int * div as int + rem as int,
                rem < divider,
        ;
        assert((div as int) * (divider as int) < (val as int)) by (nonlinear_arith)
            requires
                val as int == divider as int * div as int + rem as int,
                rem > 0,
        ;
        div + 1
    } else {
        assert(div as int * divider as int >= val as int) by (nonlinear_arith)
            requires
                val as int == divider as int * div as int + rem as int,
                rem == 0,
        ;
        assert((div as int - 1) * (divider as int) < (val as int)) by (nonlinear_arith)
            requires
                val as int == divider as int * div as int + rem as int,
                divider > 0,
        ;
        div
    }
}

} // verus!
