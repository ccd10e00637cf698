use vstd::prelude::*;

use crate::cord::{clamp_int, ICord};

verus! {

/// Bound on the magnitude of every coordinate that the grid walk takes.
pub const GRID_LIMIT: i32 = 0x4000_0000;

/// A ray in grid units with an exact rational origin: it passes through
/// `origin / denominator + t * direction` for `t >= 0`.
#[derive(Clone, Copy, Debug, PartialEq, Eq, Structural)]
pub struct Ray {
    pub origin: ICord,
    pub denominator: i32,
    pub direction: ICord,
}

pub open spec fn small(v: i32) -> bool {
    -GRID_LIMIT <= v <= GRID_LIMIT
}

pub open spec fn small_cord(c: ICord) -> bool {
    small(c.x) && small(c.y) && small(c.z)
}

/// A ray that the walk accepts: a positive denominator, a direction other
/// than zero, and coordinates within the limit.
pub open spec fn ray_ok(r: Ray) -> bool {
    &&& 0 < r.denominator <= GRID_LIMIT
    &&& small_cord(r.origin)
    &&& small_cord(r.direction)
    &&& (r.direction.x != 0 || r.direction.y != 0 || r.direction.z != 0)
}

pub open spec fn sign_of(v: int) -> int {
    if v > 0 { 1 } else if v < 0 { -1 } else { 0 }
}

/// `b` is the cell after `a` one step along a single axis, in the direction
/// in which the ray moves on that axis.
pub open spec fn forward_step(a: ICord, b: ICord, dir: ICord) -> bool {
    ||| (dir.x != 0 && b.x == a.x + sign_of(dir.x as int) && b.y == a.y && b.z == a.z)
    ||| (dir.y != 0 && b.y == a.y + sign_of(dir.y as int) && b.x == a.x && b.z == a.z)
    ||| (dir.z != 0 && b.z == a.z + sign_of(dir.z as int) && b.x == a.x && b.y == a.y)
}

/// A walk of cells: it starts somewhere in the box, each cell lies in the box,
/// and each comes one forward step after the one before.
pub open spec fn is_walk(cells: Seq<ICord>, dir: ICord, lo: ICord, hi: ICord) -> bool {
    &&& cells.len() >= 1
    &&& forall|i: int| 0 <= i < cells.len() ==> (#[trigger] cells[i]).within(lo, hi)
    &&& forall|i: int| 0 <= i < cells.len() - 1 ==> forward_step(#[trigger] cells[i], cells[i + 1], dir)
}

/// A time on the ray as a fraction `(numerator, denominator)`, denominator positive.
pub type Frac = (int, int);

pub open spec fn abs_int(v: int) -> int {
    if v < 0 { -v } else { v }
}

pub open spec fn frac_before(a: Frac, b: Frac) -> bool {
    a.0 * b.1 < b.0 * a.1
}

pub open spec fn lift(f: (i128, i128)) -> Frac {
    (f.0 as int, f.1 as int)
}

pub open spec fn lift_opt(f: Option<(i128, i128)>) -> Option<Frac> {
    match f {
        Some(x) => Some(lift(x)),
        None => None,
    }
}

/// The times `[t_lo, t_hi]` (no upper end for `None`) narrowed to those at
/// which the ray lies in the closed slab `lo <= p <= hi + 1` of one axis, where the
/// ray's coordinate is `o / den + t * d`; `None` when it never does.
pub open spec fn clip(o: int, den: int, d: int, lo: int, hi: int, t_lo: Frac, t_hi: Option<Frac>) -> Option<
    (Frac, Option<Frac>),
> {
    let low = lo * den;
    let high = (hi + 1) * den;
    if d == 0 {
        if o < low || o > high {
            None
        } else {
            Some((t_lo, t_hi))
        }
    } else {
        let q = den * abs_int(d);
        let n1 = if d > 0 { low - o } else { o - low };
        let n2 = if d > 0 { high - o } else { o - high };
        let enter = if d > 0 { n1 } else { n2 };
        let exit = if d > 0 { n2 } else { n1 };
        let new_lo = if frac_before(t_lo, (enter, q)) { (enter, q) } else { t_lo };
        let new_hi = match t_hi {
            Some(f) => if frac_before((exit, q), f) { (exit, q) } else { f },
            None => (exit, q),
        };
        Some((new_lo, Some(new_hi)))
    }
}

/// The times `t >= 0` at which the ray lies in the closed box `[lo, hi + 1]`, as an
/// interval, from the three slabs in turn.
pub open spec fn ray_interval(r: Ray, lo: ICord, hi: ICord) -> Option<(Frac, Option<Frac>)> {
    let den = r.denominator as int;
    match clip(r.origin.x as int, den, r.direction.x as int, lo.x as int, hi.x as int, (0, 1), None) {
        None => None,
        Some((a, b)) => match clip(r.origin.y as int, den, r.direction.y as int, lo.y as int, hi.y as int, a, b) {
            None => None,
            Some((a2, b2)) => clip(r.origin.z as int, den, r.direction.z as int, lo.z as int, hi.z as int, a2, b2),
        },
    }
}

/// The forward ray meets the box: every slab holds it over a common,
/// non-empty interval of times `t >= 0`.
pub open spec fn ray_meets_box(r: Ray, lo: ICord, hi: ICord) -> bool {
    match ray_interval(r, lo, hi) {
        None => false,
        Some((enter, exit)) => match exit {
            Some(e) => !frac_before(e, enter),
            None => true,
        },
    }
}

/// The cell coordinate, clamped to `[lo, hi]`, of the ray's point at time `t`.
pub open spec fn entry_axis(o: int, den: int, d: int, t: Frac, lo: int, hi: int) -> int {
    clamp_int((o * t.1 + t.0 * d * den) / (den * t.1), lo, hi)
}

/// The cell where the walk starts: the one holding the point where the ray
/// enters the box (its origin when that lies inside).
pub open spec fn entry_cell(r: Ray, lo: ICord, hi: ICord) -> ICord {
    let t = ray_interval(r, lo, hi)->Some_0.0;
    let den = r.denominator as int;
    ICord {
        x: entry_axis(r.origin.x as int, den, r.direction.x as int, t, lo.x as int, hi.x as int) as i32,
        y: entry_axis(r.origin.y as int, den, r.direction.y as int, t, lo.y as int, hi.y as int) as i32,
        z: entry_axis(r.origin.z as int, den, r.direction.z as int, t, lo.z as int, hi.z as int) as i32,
    }
}

/// Numerator of the time at which the ray crosses the far boundary of cell
/// coordinate `c` along an axis (over `den * |d|`); zero when the axis does not move.
pub open spec fn crossing_num(c: int, o: int, den: int, d: int) -> int {
    if d > 0 {
        (c + 1) * den - o
    } else if d < 0 {
        o - c * den
    } else {
        0
    }
}

/// The first axis's boundary is crossed strictly before the second's; an axis
/// that does not move never crosses.
pub open spec fn earlier_spec(n1: int, d1: int, n2: int, d2: int) -> bool {
    d1 != 0 && (d2 == 0 || n1 * abs_int(d2) < n2 * abs_int(d1))
}

/// The axis (0, 1 or 2 for x, y, z) whose boundary the ray leaving cell `c`
/// crosses first; ties go to the later axis.
pub open spec fn next_axis(r: Ray, c: ICord) -> int {
    let den = r.denominator as int;
    let d = r.direction;
    let nx = crossing_num(c.x as int, r.origin.x as int, den, d.x as int);
    let ny = crossing_num(c.y as int, r.origin.y as int, den, d.y as int);
    let nz = crossing_num(c.z as int, r.origin.z as int, den, d.z as int);
    if earlier_spec(nx, d.x as int, ny, d.y as int) {
        if earlier_spec(nx, d.x as int, nz, d.z as int) { 0 } else { 2 }
    } else {
        if earlier_spec(ny, d.y as int, nz, d.z as int) { 1 } else { 2 }
    }
}

/// The cell after `c`: one step along the next axis, in the ray's direction.
pub open spec fn step_from(r: Ray, c: ICord) -> ICord {
    let a = next_axis(r, c);
    if a == 0 {
        ICord { x: (c.x + sign_of(r.direction.x as int)) as i32, y: c.y, z: c.z }
    } else if a == 1 {
        ICord { x: c.x, y: (c.y + sign_of(r.direction.y as int)) as i32, z: c.z }
    } else {
        ICord { x: c.x, y: c.y, z: (c.z + sign_of(r.direction.z as int)) as i32 }
    }
}

/// At most `fuel` more steps of the walk from `c`, stopping before the first
/// cell outside `[lo, hi]`.
pub open spec fn walk_steps(r: Ray, lo: ICord, hi: ICord, c: ICord, fuel: nat) -> Seq<ICord>
    decreases fuel,
{
    if fuel > 0 && step_from(r, c).within(lo, hi) {
        seq![c] + walk_steps(r, lo, hi, step_from(r, c), (fuel - 1) as nat)
    } else {
        seq![c]
    }
}

/// The walk from cell `c` until the ray leaves the box.
pub open spec fn walk_from(r: Ray, lo: ICord, hi: ICord, c: ICord) -> Seq<ICord> {
    walk_steps(r, lo, hi, c, cells_left(c, r.direction, lo, hi) as nat)
}

/// The cells that the ray passes through, from its entry cell on.
pub open spec fn dda_walk(r: Ray, lo: ICord, hi: ICord) -> Seq<ICord> {
    walk_from(r, lo, hi, entry_cell(r, lo, hi))
}

proof fn lemma_walk_unfold(r: Ray, lo: ICord, hi: ICord, c: ICord)
    requires
        ray_ok(r),
        small_cord(lo),
        small_cord(hi),
        c.within(lo, hi),
    ensures
        walk_from(r, lo, hi, c) == if step_from(r, c).within(lo, hi) {
            seq![c] + walk_from(r, lo, hi, step_from(r, c))
        } else {
            seq![c]
        },
{
    let n = step_from(r, c);
    let a = next_axis(r, c);
    let d = r.direction;
    assert(a == 0 ==> d.x != 0);
    assert(a == 1 ==> d.y != 0);
    assert(a == 2 ==> d.z != 0);
    if n.within(lo, hi) {
        if a == 0 {
            assert(n.x == c.x + sign_of(d.x as int) && n.y == c.y && n.z == c.z);
        } else if a == 1 {
            assert(n.y == c.y + sign_of(d.y as int) && n.x == c.x && n.z == c.z);
        } else {
            assert(n.z == c.z + sign_of(d.z as int) && n.x == c.x && n.y == c.y);
        }
        assert(cells_left(n, d, lo, hi) == cells_left(c, d, lo, hi) - 1);
    }
}

fn sign(v: i32) -> (r: i32)
    ensures
        r == sign_of(v as int),
{
    if v == 0 {
        0
    } else if v < 0 {
        -1
    } else {
        1
    }
}

/// Rounds `n / d` down, for `d > 0`.
fn floor_div(n: i128, d: i128) -> (r: i128)
    requires
        0 < d <= 0x10_0000_0000_0000_0000_0000_0000,
        -0x2000_0000_0000_0000_0000_0000_0000_0000 <= n <= 0x2000_0000_0000_0000_0000_0000_0000_0000,
    ensures
        r == n as int / d as int,
{
    if n >= 0 {
        n / d
    } else {
        let q = (-n + d - 1) / d;
        assert(-(q as int) == n as int / d as int) by (nonlinear_arith)
            requires
                q as int == (-(n as int) + d as int - 1) / (d as int),
                n < 0,
                d > 0,
        ;
        -q
    }
}

/// The crossing time of the next cell boundary along one axis from cell
/// coordinate `c`, as a fraction `num / (den * |d|)` (its numerator is
/// returned; the axis must move).
fn crossing(c: i32, o: i32, den: i32, d: i32) -> (r: i128)
    requires
        small(c),
        small(o),
        0 < den <= GRID_LIMIT,
        d != 0,
    ensures
        -0x10_0000_0000_0000_0000 <= r <= 0x10_0000_0000_0000_0000,
        r == crossing_num(c as int, o as int, den as int, d as int),
{
    let b: i128 = if d > 0 { c as i128 + 1 } else { c as i128 };
    assert(-0x4000_0001 <= b <= 0x4000_0001);
    assert(-0x1000_0000_4000_0000 <= b * den <= 0x1000_0000_4000_0000) by (nonlinear_arith)
        requires
            -0x4000_0001 <= b <= 0x4000_0001,
            0 < den <= 0x4000_0000,
    ;
    let prod = b * (den as i128);
    let n = prod - o as i128;
    if d > 0 {
        n
    } else {
        -n
    }
}

/// Whether the boundary on the first axis is crossed strictly before the one
/// on the second. An axis that does not move never crosses.
fn earlier(n1: i128, d1: i32, n2: i128, d2: i32) -> (r: bool)
    requires
        -0x10_0000_0000_0000_0000 <= n1 <= 0x10_0000_0000_0000_0000,
        -0x10_0000_0000_0000_0000 <= n2 <= 0x10_0000_0000_0000_0000,
        small(d1),
        small(d2),
    ensures
        r == earlier_spec(n1 as int, d1 as int, n2 as int, d2 as int),
{
    if d1 == 0 {
        false
    } else if d2 == 0 {
        true
    } else {
        let a1: i128 = if d1 > 0 { d1 as i128 } else { -(d1 as i128) };
        let a2: i128 = if d2 > 0 { d2 as i128 } else { -(d2 as i128) };
        assert(-0x4_0000_0000_0000_0000_0000_0000 <= n1 * a2 <= 0x4_0000_0000_0000_0000_0000_0000) by (nonlinear_arith)
            requires
                -0x10_0000_0000_0000_0000 <= n1 <= 0x10_0000_0000_0000_0000,
                0 < a2 <= 0x4000_0000,
        ;
        assert(-0x4_0000_0000_0000_0000_0000_0000 <= n2 * a1 <= 0x4_0000_0000_0000_0000_0000_0000) by (nonlinear_arith)
            requires
                -0x10_0000_0000_0000_0000 <= n2 <= 0x10_0000_0000_0000_0000,
                0 < a1 <= 0x4000_0000,
        ;
        let l = n1 * a2;
        let rr = n2 * a1;
        l < rr
    }
}

/// Bound on the numerators of crossing times.
pub const NUM_LIMIT: i128 = 0x4000_0000_0000_0000;

/// Bound on the denominators of crossing times.
pub const DEN_LIMIT: i128 = 0x1000_0000_0000_0000;

pub open spec fn frac_ok(f: (i128, i128)) -> bool {
    -NUM_LIMIT <= f.0 <= NUM_LIMIT && 0 < f.1 <= DEN_LIMIT
}

/// `a.0 / a.1 < b.0 / b.1`.
fn frac_lt(a: (i128, i128), b: (i128, i128)) -> (r: bool)
    requires
        frac_ok(a),
        frac_ok(b),
    ensures
        r == frac_before(lift(a), lift(b)),
{
    let (num_a, den_a) = a;
    let (num_b, den_b) = b;
    assert(-0x400_0000_0000_0000_0000_0000_0000_0000 <= num_a * den_b <= 0x400_0000_0000_0000_0000_0000_0000_0000) by (nonlinear_arith)
        requires
            -0x4000_0000_0000_0000 <= num_a <= 0x4000_0000_0000_0000,
            0 < den_b <= 0x1000_0000_0000_0000,
    ;
    assert(-0x400_0000_0000_0000_0000_0000_0000_0000 <= num_b * den_a <= 0x400_0000_0000_0000_0000_0000_0000_0000) by (nonlinear_arith)
        requires
            -0x4000_0000_0000_0000 <= num_b <= 0x4000_0000_0000_0000,
            0 < den_a <= 0x1000_0000_0000_0000,
    ;
    num_a * den_b < num_b * den_a
}

/// Narrows the interval of ray times `[t_lo, t_hi]` (no upper end when
/// `t_hi` is `None`) to the closed slab `lo <= p <= hi + 1` of one axis; `None` when
/// the ray never lies in the slab.
fn clip_axis(o: i32, den: i32, d: i32, lo: i32, hi: i32, t_lo: (i128, i128), t_hi: Option<(i128, i128)>) -> (r:
    Option<((i128, i128), Option<(i128, i128)>)>)
    requires
        small(o),
        0 < den <= GRID_LIMIT,
        small(d),
        small(lo),
        small(hi),
        lo <= hi < GRID_LIMIT,
        frac_ok(t_lo),
        t_hi matches Some(f) ==> frac_ok(f),
    ensures
        r matches Some((a, b)) ==> frac_ok(a) && (b matches Some(f) ==> frac_ok(f)),
        match r {
            None => clip(o as int, den as int, d as int, lo as int, hi as int, lift(t_lo), lift_opt(t_hi)) is None,
            Some((a, b)) => clip(o as int, den as int, d as int, lo as int, hi as int, lift(t_lo), lift_opt(t_hi))
                == Some((lift(a), lift_opt(b))),
        },
{
    let dn = den as i128;
    assert(-0x1000_0000_4000_0000 <= (lo as i128) * dn <= 0x1000_0000_4000_0000) by (nonlinear_arith)
        requires
            small(lo),
            0 < dn <= 0x4000_0000,
    ;
    assert(-0x1000_0000_4000_0000 <= (hi as i128 + 1) * dn <= 0x1000_0000_4000_0000) by (nonlinear_arith)
        requires
            small(hi),
            hi < GRID_LIMIT,
            0 < dn <= 0x4000_0000,
    ;
    let low_edge = (lo as i128) * dn;
    let high_edge = (hi as i128 + 1) * dn;
    if d == 0 {
        if (o as i128) < low_edge || (o as i128) > high_edge {
            None
        } else {
            Some((t_lo, t_hi))
        }
    } else {
        let a: i128 = if d > 0 { d as i128 } else { -(d as i128) };
        assert(0 < dn * a <= 0x1000_0000_0000_0000) by (nonlinear_arith)
            requires
                0 < dn <= 0x4000_0000,
                0 < a <= 0x4000_0000,
        ;
        let q = dn * a;
        let n1 = if d > 0 { low_edge - o as i128 } else { o as i128 - low_edge };
        let n2 = if d > 0 { high_edge - o as i128 } else { o as i128 - high_edge };
        let (enter, exit) = if d > 0 { (n1, n2) } else { (n2, n1) };
        let new_lo = if frac_lt(t_lo, (enter, q)) { (enter, q) } else { t_lo };
        let new_hi = match t_hi {
            Some(f) => if frac_lt((exit, q), f) { (exit, q) } else { f },
            None => (exit, q),
        };
        Some((new_lo, Some(new_hi)))
    }
}

/// The cell that holds the ray's point at time `t` along one axis, clamped
/// to `[lo, hi]`.
fn entry_coordinate(o: i32, den: i32, d: i32, t: (i128, i128), lo: i32, hi: i32) -> (r: i32)
    requires
        small(o),
        0 < den <= GRID_LIMIT,
        small(d),
        frac_ok(t),
        lo <= hi,
    ensures
        lo <= r <= hi,
        r == entry_axis(o as int, den as int, d as int, lift(t), lo as int, hi as int),
{
    let dn = den as i128;
    assert(-0x800_0000_0000_0000_0000_0000 <= (o as i128) * t.1 <= 0x800_0000_0000_0000_0000_0000) by (nonlinear_arith)
        requires
            small(o),
            0 < t.1 <= 0x1000_0000_0000_0000,
    ;
    let (tn, tq) = t;
    let di = d as i128;
    assert(-0x1000_0000_0000_0000_0000_0000 <= tn * di <= 0x1000_0000_0000_0000_0000_0000) by (nonlinear_arith)
        requires
            -0x4000_0000_0000_0000 <= tn <= 0x4000_0000_0000_0000,
            -0x4000_0000 <= di <= 0x4000_0000,
    ;
    let nd = tn * di;
    assert(-0x400_0000_0000_0000_0000_0000_0000_0000 <= nd * dn <= 0x400_0000_0000_0000_0000_0000_0000_0000) by (nonlinear_arith)
        requires
            -0x1000_0000_0000_0000_0000_0000 <= nd <= 0x1000_0000_0000_0000_0000_0000,
            0 < dn <= 0x4000_0000,
    ;
    assert(0 < dn * t.1 <= 0x4_0000_0000_0000_0000_0000_0000) by (nonlinear_arith)
        requires
            0 < dn <= 0x4000_0000,
            frac_ok(t),
    ;
    let num = (o as i128) * t.1 + nd * dn;
    let f = floor_div(num, dn * t.1);
    if f < lo as i128 {
        lo
    } else if f > hi as i128 {
        hi
    } else {
        f as i32
    }
}

/// Cells left to walk on one axis before leaving `[lo, hi]`.
pub open spec fn axis_left(c: int, d: int, lo: int, hi: int) -> int {
    if d > 0 { hi - c } else if d < 0 { c - lo } else { 0 }
}

pub open spec fn cells_left(c: ICord, dir: ICord, lo: ICord, hi: ICord) -> int {
    axis_left(c.x as int, dir.x as int, lo.x as int, hi.x as int) + axis_left(c.y as int, dir.y as int, lo.y as int, hi.y as int)
        + axis_left(c.z as int, dir.z as int, lo.z as int, hi.z as int)
}

/// The slab test: the times at which the forward ray lies in the closed box
/// `[grid_bounds_min, grid_bounds_max + 1]`, as the entry time and the exit
/// time (none when the ray never leaves), each a fraction `(num, den)`.
/// `None` when the ray misses the box.
pub fn ray_box_intersection(ray: &Ray, grid_bounds_min: ICord, grid_bounds_max: ICord) -> (r: Option<
    ((i128, i128), Option<(i128, i128)>),
>)
    requires
        ray_ok(*ray),
        small_cord(grid_bounds_min),
        small_cord(grid_bounds_max),
        grid_bounds_min.le(grid_bounds_max),
        grid_bounds_max.x < GRID_LIMIT && grid_bounds_max.y < GRID_LIMIT && grid_bounds_max.z < GRID_LIMIT,
    ensures
        r is Some <==> ray_meets_box(*ray, grid_bounds_min, grid_bounds_max),
        r matches Some((a, b)) ==> frac_ok(a) && ray_interval(*ray, grid_bounds_min, grid_bounds_max) == Some(
            (lift(a), lift_opt(b)),
        ),
{
    let o = ray.origin;
    let d = ray.direction;
    let den = ray.denominator;
    let lo = grid_bounds_min;
    let hi = grid_bounds_max;
    let t0: (i128, i128) = (0, 1);
    let (t1, h1) = match clip_axis(o.x, den, d.x, lo.x, hi.x, t0, None) {
        Some(v) => v,
        None => return None,
    };
    let (t2, h2) = match clip_axis(o.y, den, d.y, lo.y, hi.y, t1, h1) {
        Some(v) => v,
        None => return None,
    };
    let (t_enter, t_exit) = match clip_axis(o.z, den, d.z, lo.z, hi.z, t2, h2) {
        Some(v) => v,
        None => return None,
    };
    match t_exit {
        Some(e) => {
            if frac_lt(e, t_enter) {
                return None;
            }
        },
        None => {},
    }
    Some((t_enter, t_exit))
}

/// The cells of the box `[grid_bounds_min, grid_bounds_max]` that the ray
/// passes through, in the order in which it reaches them (a 3D DDA): the walk
/// starts in the cell where the ray enters the box (or holds its origin) and
/// at each step crosses the cell boundary that the ray reaches first, until
/// the next cell would lie outside the box. `None` when the ray misses the box.
pub fn march_grid_by_ray(ray: &Ray, grid_bounds_min: ICord, grid_bounds_max: ICord) -> (r: Option<Vec<ICord>>)
    requires
        ray_ok(*ray),
        small_cord(grid_bounds_min),
        small_cord(grid_bounds_max),
        grid_bounds_min.le(grid_bounds_max),
        grid_bounds_max.x < GRID_LIMIT && grid_bounds_max.y < GRID_LIMIT && grid_bounds_max.z < GRID_LIMIT,
    ensures
        r is Some <==> ray_meets_box(*ray, grid_bounds_min, grid_bounds_max),
        r matches Some(cells) ==> cells@ == dda_walk(*ray, grid_bounds_min, grid_bounds_max),
        r matches Some(cells) ==> is_walk(cells@, ray.direction, grid_bounds_min, grid_bounds_max),
{
    let o = ray.origin;
    let d = ray.direction;
    let den = ray.denominator;
    let lo = grid_bounds_min;
    let hi = grid_bounds_max;
    let (t_enter, _t_exit) = match ray_box_intersection(ray, lo, hi) {
        Some(v) => v,
        None => return None,
    };
    let mut cur = ICord {
        x: entry_coordinate(o.x, den, d.x, t_enter, lo.x, hi.x),
        y: entry_coordinate(o.y, den, d.y, t_enter, lo.y, hi.y),
        z: entry_coordinate(o.z, den, d.z, t_enter, lo.z, hi.z),
    };
    assert(cur == entry_cell(*ray, lo, hi));
    let sx = sign(d.x);
    let sy = sign(d.y);
    let sz = sign(d.z);
    let mut cells: Vec<ICord> = Vec::new();
    let mut done = false;
    while !done
        invariant
            ray_ok(*ray),
            o == ray.origin,
            d == ray.direction,
            den == ray.denominator,
            lo == grid_bounds_min,
            hi == grid_bounds_max,
            small_cord(lo),
            small_cord(hi),
            lo.le(hi),
            sx == sign_of(d.x as int),
            sy == sign_of(d.y as int),
            sz == sign_of(d.z as int),
            cur.within(lo, hi),
            forall|i: int| 0 <= i < cells@.len() ==> (#[trigger] cells@[i]).within(lo, hi),
            forall|i: int| 0 <= i < cells@.len() - 1 ==> forward_step(#[trigger] cells@[i], cells@[i + 1], d),
            !done && cells@.len() > 0 ==> forward_step(cells@.last(), cur, d),
            done ==> cells@.len() >= 1,
            !done ==> cells@ + walk_from(*ray, lo, hi, cur) == dda_walk(*ray, lo, hi),
            done ==> cells@ == dda_walk(*ray, lo, hi),
        decreases 2 * cells_left(cur, d, lo, hi) + if done { 0int } else { 1int },
    {
        let ghost before = cells@;
        proof {
            lemma_walk_unfold(*ray, lo, hi, cur);
        }
        cells.push(cur);
        assert forall|i: int| 0 <= i < cells@.len() - 1 implies forward_step(#[trigger] cells@[i], cells@[i + 1], d) by {
            if i < before.len() - 1 {
                assert(cells@[i] == before[i] && cells@[i + 1] == before[i + 1]);
            } else {
                assert(cells@[i] == before.last());
            }
        }
        let nx: i128 = if d.x != 0 { crossing(cur.x, o.x, den, d.x) } else { 0 };
        let ny: i128 = if d.y != 0 { crossing(cur.y, o.y, den, d.y) } else { 0 };
        let nz: i128 = if d.z != 0 { crossing(cur.z, o.z, den, d.z) } else { 0 };
        let x_before_y = earlier(nx, d.x, ny, d.y);
        let axis: u8 = if x_before_y {
            if earlier(nx, d.x, nz, d.z) { 0 } else { 2 }
        } else {
            if earlier(ny, d.y, nz, d.z) { 1 } else { 2 }
        };
        assert(axis == next_axis(*ray, cur));
        let ghost nxt = step_from(*ray, cur);
        let ghost prev_cur = cur;
        if axis == 0 {
            let next = cur.x as i64 + sx as i64;
            if next < lo.x as i64 || next > hi.x as i64 {
                done = true;
            } else {
                cur = ICord { x: next as i32, y: cur.y, z: cur.z };
            }
        } else if axis == 1 {
            let next = cur.y as i64 + sy as i64;
            if next < lo.y as i64 || next > hi.y as i64 {
                done = true;
            } else {
                cur = ICord { x: cur.x, y: next as i32, z: cur.z };
            }
        } else {
            let next = cur.z as i64 + sz as i64;
            if next < lo.z as i64 || next > hi.z as i64 {
                done = true;
            } else {
                cur = ICord { x: cur.x, y: cur.y, z: next as i32 };
            }
        }
        proof {
            if done {
                assert(!nxt.within(lo, hi));
                assert(cells@ =~= before + seq![prev_cur]);
            } else {
                assert(cur == nxt);
                assert(cells@ + walk_from(*ray, lo, hi, cur) =~= before + (seq![prev_cur] + walk_from(*ray, lo, hi, cur)));
            }
        }
    }
    Some(cells)
}

} // verus!
