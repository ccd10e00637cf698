use vstd::prelude::*;

use crate::cord::ICord;
use crate::grid::Ray;
use crate::triangulation::Triangle;

verus! {

/// Bound on the coordinates that the triangle test takes.
pub const HIT_LIMIT: i32 = 0x10_0000;

pub type V3 = (int, int, int);

pub open spec fn tiny(v: i32) -> bool {
    -HIT_LIMIT <= v <= HIT_LIMIT
}

pub open spec fn tiny_cord(c: ICord) -> bool {
    tiny(c.x) && tiny(c.y) && tiny(c.z)
}

pub open spec fn cross(a: V3, b: V3) -> V3 {
    (a.1 * b.2 - a.2 * b.1, a.2 * b.0 - a.0 * b.2, a.0 * b.1 - a.1 * b.0)
}

pub open spec fn dot(a: V3, b: V3) -> int {
    a.0 * b.0 + a.1 * b.1 + a.2 * b.2
}

pub open spec fn diff(a: V3, b: V3) -> V3 {
    (a.0 - b.0, a.1 - b.1, a.2 - b.2)
}

pub open spec fn v3(c: ICord) -> V3 {
    (c.x as int, c.y as int, c.z as int)
}

/// From the ray's origin to the triangle corner `p`, in half cells scaled by
/// the ray's denominator: `p * den - 2 * origin`.
pub open spec fn from_origin(r: Ray, p: ICord) -> V3 {
    (
        p.x * r.denominator - 2 * r.origin.x,
        p.y * r.denominator - 2 * r.origin.y,
        p.z * r.denominator - 2 * r.origin.z,
    )
}

/// Which side of the line through the ray the edge from `p` to `q` passes.
pub open spec fn side(r: Ray, p: ICord, q: ICord) -> int {
    dot(cross(from_origin(r, p), from_origin(r, q)), v3(r.direction))
}

/// The triangle's normal, from the order of its corners.
pub open spec fn normal(t: Triangle) -> V3 {
    cross(diff(v3(t.b), v3(t.a)), diff(v3(t.c), v3(t.a)))
}

/// The ray meets the triangle's plane at time `t_num / t_den` (in the ray's
/// direction units): with `t_den` of the sign of the normal along the ray.
pub open spec fn plane_time_num(r: Ray, t: Triangle) -> int {
    dot(normal(t), from_origin(r, t.a))
}

pub open spec fn plane_time_den(r: Ray, t: Triangle) -> int {
    2 * r.denominator * dot(normal(t), v3(r.direction))
}

/// The ray, going forward from its origin, passes through the triangle
/// (edges included): it is not parallel to the plane, meets the plane at a
/// time after its origin, and passes on the same side of all three edges.
pub open spec fn ray_hits(r: Ray, t: Triangle) -> bool {
    let den = plane_time_den(r, t);
    let num = plane_time_num(r, t);
    &&& den != 0
    &&& (den > 0 ==> num > 0) && (den < 0 ==> num < 0)
    &&& {
        ||| (side(r, t.a, t.b) >= 0 && side(r, t.b, t.c) >= 0 && side(r, t.c, t.a) >= 0)
        ||| (side(r, t.a, t.b) <= 0 && side(r, t.b, t.c) <= 0 && side(r, t.c, t.a) <= 0)
    }
}

/// A ray whose direction points away from the triangle's plane, seen from
/// its origin, or runs parallel to it, or starts on it, misses the triangle.
pub proof fn lemma_pointing_away_misses(r: Ray, t: Triangle)
    requires
        plane_time_num(r, t) * plane_time_den(r, t) <= 0,
    ensures
        !ray_hits(r, t),
{
    let n = plane_time_num(r, t);
    let d = plane_time_den(r, t);
    assert(d > 0 ==> n <= 0) by (nonlinear_arith)
        requires
            n * d <= 0,
    ;
    assert(d < 0 ==> n >= 0) by (nonlinear_arith)
        requires
            n * d <= 0,
    ;
}

/// Where a ray meets a triangle: at time `t_num / t_den`, `t_den > 0`, that is
/// at `origin / denominator + (t_num / t_den) * direction`.
#[derive(Clone, Copy, Debug, PartialEq, Eq, Structural)]
pub struct RayHit {
    pub t_num: i128,
    pub t_den: i128,
}

pub open spec fn bounded(v: (i128, i128, i128), b: int) -> bool {
    -b <= v.0 <= b && -b <= v.1 <= b && -b <= v.2 <= b
}

pub open spec fn as_v3(v: (i128, i128, i128)) -> V3 {
    (v.0 as int, v.1 as int, v.2 as int)
}

fn cross_exec(a: (i128, i128, i128), b: (i128, i128, i128)) -> (r: (i128, i128, i128))
    requires
        bounded(a, 0x400_0000_0000),
        bounded(b, 0x400_0000_0000),
    ensures
        as_v3(r) == cross(as_v3(a), as_v3(b)),
        bounded(r, 0x20_0000_0000_0000_0000_0000),
{
    let (a0, a1, a2) = a;
    let (b0, b1, b2) = b;
    assert(forall|x: i128, y: i128|
        -0x400_0000_0000 <= x <= 0x400_0000_0000 && -0x400_0000_0000 <= y <= 0x400_0000_0000 ==> -0x10_0000_0000_0000_0000_0000 <= #[trigger] (x * y) <= 0x10_0000_0000_0000_0000_0000) by {
        assert forall|x: i128, y: i128|
            -0x400_0000_0000 <= x <= 0x400_0000_0000 && -0x400_0000_0000 <= y <= 0x400_0000_0000 implies -0x10_0000_0000_0000_0000_0000 <= #[trigger] (x * y) <= 0x10_0000_0000_0000_0000_0000 by {
            assert(-0x10_0000_0000_0000_0000_0000 <= x * y <= 0x10_0000_0000_0000_0000_0000) by (nonlinear_arith)
                requires
                    -0x400_0000_0000 <= x <= 0x400_0000_0000,
                    -0x400_0000_0000 <= y <= 0x400_0000_0000,
            ;
        }
    }
    let xa = a1 * b2;
    let xb = a2 * b1;
    let ya = a2 * b0;
    let yb = a0 * b2;
    let za = a0 * b1;
    let zb = a1 * b0;
    (xa - xb, ya - yb, za - zb)
}

fn cross_small(a: (i128, i128, i128), b: (i128, i128, i128)) -> (r: (i128, i128, i128))
    requires
        bounded(a, 0x20_0000),
        bounded(b, 0x20_0000),
    ensures
        as_v3(r) == cross(as_v3(a), as_v3(b)),
        bounded(r, 0x800_0000_0000),
{
    let (a0, a1, a2) = a;
    let (b0, b1, b2) = b;
    assert(forall|x: i128, y: i128|
        -0x20_0000 <= x <= 0x20_0000 && -0x20_0000 <= y <= 0x20_0000 ==> -0x400_0000_0000 <= #[trigger] (x * y) <= 0x400_0000_0000) by {
        assert forall|x: i128, y: i128|
            -0x20_0000 <= x <= 0x20_0000 && -0x20_0000 <= y <= 0x20_0000 implies -0x400_0000_0000 <= #[trigger] (x * y) <= 0x400_0000_0000 by {
            assert(-0x400_0000_0000 <= x * y <= 0x400_0000_0000) by (nonlinear_arith)
                requires
                    -0x20_0000 <= x <= 0x20_0000,
                    -0x20_0000 <= y <= 0x20_0000,
            ;
        }
    }
    let xa = a1 * b2;
    let xb = a2 * b1;
    let ya = a2 * b0;
    let yb = a0 * b2;
    let za = a0 * b1;
    let zb = a1 * b0;
    (xa - xb, ya - yb, za - zb)
}

fn dot_wide(a: (i128, i128, i128), b: (i128, i128, i128)) -> (r: i128)
    requires
        bounded(a, 0x40_0000_0000_0000_0000_0000),
        bounded(b, 0x20_0000),
    ensures
        r as int == dot(as_v3(a), as_v3(b)),
        -0x2000_0000_0000_0000_0000_0000_0000 <= r <= 0x2000_0000_0000_0000_0000_0000_0000,
{
    let (a0, a1, a2) = a;
    let (b0, b1, b2) = b;
    assert(forall|x: i128, y: i128|
        -0x40_0000_0000_0000_0000_0000 <= x <= 0x40_0000_0000_0000_0000_0000 && -0x20_0000 <= y <= 0x20_0000 ==> -0x800_0000_0000_0000_0000_0000_0000 <= #[trigger] (x * y) <= 0x800_0000_0000_0000_0000_0000_0000) by {
        assert forall|x: i128, y: i128|
            -0x40_0000_0000_0000_0000_0000 <= x <= 0x40_0000_0000_0000_0000_0000 && -0x20_0000 <= y <= 0x20_0000 implies -0x800_0000_0000_0000_0000_0000_0000 <= #[trigger] (x * y) <= 0x800_0000_0000_0000_0000_0000_0000 by {
            assert(-0x800_0000_0000_0000_0000_0000_0000 <= x * y <= 0x800_0000_0000_0000_0000_0000_0000) by (nonlinear_arith)
                requires
                    -0x40_0000_0000_0000_0000_0000 <= x <= 0x40_0000_0000_0000_0000_0000,
                    -0x20_0000 <= y <= 0x20_0000,
            ;
        }
    }
    let m0 = a0 * b0;
    let m1 = a1 * b1;
    let m2 = a2 * b2;
    m0 + m1 + m2
}

fn dot_narrow(a: (i128, i128, i128), b: (i128, i128, i128)) -> (r: i128)
    requires
        bounded(a, 0x1000_0000_0000),
        bounded(b, 0x1000_0000_0000),
    ensures
        r as int == dot(as_v3(a), as_v3(b)),
        -0x400_0000_0000_0000_0000_0000 <= r <= 0x400_0000_0000_0000_0000_0000,
{
    let (a0, a1, a2) = a;
    let (b0, b1, b2) = b;
    assert(forall|x: i128, y: i128|
        -0x1000_0000_0000 <= x <= 0x1000_0000_0000 && -0x1000_0000_0000 <= y <= 0x1000_0000_0000 ==> -0x100_0000_0000_0000_0000_0000 <= #[trigger] (x * y) <= 0x100_0000_0000_0000_0000_0000) by {
        assert forall|x: i128, y: i128|
            -0x1000_0000_0000 <= x <= 0x1000_0000_0000 && -0x1000_0000_0000 <= y <= 0x1000_0000_0000 implies -0x100_0000_0000_0000_0000_0000 <= #[trigger] (x * y) <= 0x100_0000_0000_0000_0000_0000 by {
            assert(-0x100_0000_0000_0000_0000_0000 <= x * y <= 0x100_0000_0000_0000_0000_0000) by (nonlinear_arith)
                requires
                    -0x1000_0000_0000 <= x <= 0x1000_0000_0000,
                    -0x1000_0000_0000 <= y <= 0x1000_0000_0000,
            ;
        }
    }
    let m0 = a0 * b0;
    let m1 = a1 * b1;
    let m2 = a2 * b2;
    m0 + m1 + m2
}

fn widen(c: ICord) -> (r: (i128, i128, i128))
    ensures
        as_v3(r) == v3(c),
{
    (c.x as i128, c.y as i128, c.z as i128)
}

fn from_origin_exec(r: &Ray, p: ICord) -> (w: (i128, i128, i128))
    requires
        0 < r.denominator <= HIT_LIMIT,
        tiny_cord(r.origin),
        tiny_cord(p),
    ensures
        as_v3(w) == from_origin(*r, p),
        bounded(w, 0x400_0000_0000),
{
    let d = r.denominator as i128;
    assert(forall|x: i128| -0x10_0000 <= x <= 0x10_0000 ==> -0x100_0000_0000 <= #[trigger] (x * d) <= 0x100_0000_0000) by {
        assert forall|x: i128| -0x10_0000 <= x <= 0x10_0000 implies -0x100_0000_0000 <= #[trigger] (x * d) <= 0x100_0000_0000 by {
            assert(-0x100_0000_0000 <= x * d <= 0x100_0000_0000) by (nonlinear_arith)
                requires
                    -0x10_0000 <= x <= 0x10_0000,
                    0 < d <= 0x10_0000,
            ;
        }
    }
    let px = p.x as i128 * d;
    let py = p.y as i128 * d;
    let pz = p.z as i128 * d;
    (px - 2 * r.origin.x as i128, py - 2 * r.origin.y as i128, pz - 2 * r.origin.z as i128)
}

/// Whether and when a ray meets a triangle (edges included), in front of its
/// origin. Both are in the same units: cells for the ray, half cells for the
/// triangle. `None` for a ray parallel to the triangle's plane, for one that
/// meets the plane behind its origin, and for one that passes beside the
/// triangle.
pub fn ray_triangle_intersection(ray: &Ray, triangle: &Triangle) -> (r: Option<RayHit>)
    requires
        0 < ray.denominator <= HIT_LIMIT,
        tiny_cord(ray.origin),
        tiny_cord(ray.direction),
        tiny_cord(triangle.a),
        tiny_cord(triangle.b),
        tiny_cord(triangle.c),
    ensures
        r is Some <==> ray_hits(*ray, *triangle),
        r matches Some(h) ==> h.t_den > 0 && (
            (h.t_num as int, h.t_den as int) == (plane_time_num(*ray, *triangle), plane_time_den(*ray, *triangle))
            || (h.t_num as int, h.t_den as int) == (-plane_time_num(*ray, *triangle), -plane_time_den(*ray, *triangle))),
{
    let dir = widen(ray.direction);
    let a = widen(triangle.a);
    let b = widen(triangle.b);
    let c = widen(triangle.c);
    let ab = (b.0 - a.0, b.1 - a.1, b.2 - a.2);
    let ac = (c.0 - a.0, c.1 - a.1, c.2 - a.2);
    let n = cross_small(ab, ac);
    assert(as_v3(ab) == diff(v3(triangle.b), v3(triangle.a)));
    assert(as_v3(ac) == diff(v3(triangle.c), v3(triangle.a)));
    let wa = from_origin_exec(ray, triangle.a);
    let wb = from_origin_exec(ray, triangle.b);
    let wc = from_origin_exec(ray, triangle.c);
    let along = dot_narrow(n, dir);
    let num = dot_narrow(n, wa);
    let s_ab = dot_wide(cross_exec(wa, wb), dir);
    let s_bc = dot_wide(cross_exec(wb, wc), dir);
    let s_ca = dot_wide(cross_exec(wc, wa), dir);
    let ghost full_den = plane_time_den(*ray, *triangle);
    assert(full_den == 2 * (ray.denominator as int) * (along as int));
    assert(along == 0 ==> full_den == 0) by (nonlinear_arith)
        requires
            full_den == 2 * (ray.denominator as int) * (along as int),
    ;
    assert(along != 0 ==> (full_den > 0) == (along > 0) && (full_den < 0) == (along < 0)) by (nonlinear_arith)
        requires
            full_den == 2 * (ray.denominator as int) * (along as int),
            ray.denominator > 0,
    ;
    if along == 0 {
        return None;
    }
    if (along > 0 && num <= 0) || (along < 0 && num >= 0) {
        return None;
    }
    let same_side = (s_ab >= 0 && s_bc >= 0 && s_ca >= 0) || (s_ab <= 0 && s_bc <= 0 && s_ca <= 0);
    if !same_side {
        return None;
    }
    let d = ray.denominator as i128;
    assert((2 * d * along > 0) == (along > 0) && (2 * d * along < 0) == (along < 0) && 2 * d * along != 0) by (nonlinear_arith)
        requires
            0 < d,
            along != 0,
    ;
    assert(-0x1_0000_0000_0000_0000_0000_0000_0000 <= 2 * d * along <= 0x1_0000_0000_0000_0000_0000_0000_0000) by (nonlinear_arith)
        requires
            0 < d <= 0x10_0000,
            -0x400_0000_0000_0000_0000_0000 <= along <= 0x400_0000_0000_0000_0000_0000,
    ;
    let den = 2 * d * along;
    if den > 0 {
        Some(RayHit { t_num: num, t_den: den })
    } else {
        Some(RayHit { t_num: -num, t_den: -den })
    }
}

} // verus!
