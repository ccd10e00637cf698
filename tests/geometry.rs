use sdf_sculpt::bounds::Bounds;
use sdf_sculpt::cord::{ceil_div, clamp, part_max, part_min, CordOps, ICord};

fn c(x: i32, y: i32, z: i32) -> ICord {
    ICord { x, y, z }
}

#[test]
fn ceil_div_rounds_up() {
    assert_eq!(ceil_div(0, 4), 0);
    assert_eq!(ceil_div(1, 4), 1);
    assert_eq!(ceil_div(4, 4), 1);
    assert_eq!(ceil_div(5, 4), 2);
    assert_eq!(ceil_div(110592, 4), 27648);
    assert_eq!(ceil_div(110592, 32), 3456);
}

#[test]
fn part_min_max_and_clamp() {
    assert_eq!(*part_min(&3, &-2), -2);
    assert_eq!(*part_max(&3, &-2), 3);
    assert_eq!(clamp(-5, 0, 10), 0);
    assert_eq!(clamp(15, 0, 10), 10);
    assert_eq!(clamp(7, 0, 10), 7);
}

#[test]
fn cord_ops_componentwise() {
    assert_eq!(ICord::max(&c(1, 5, -3), &c(2, 4, -4)), c(2, 5, -3));
    assert_eq!(ICord::min(&c(1, 5, -3), &c(2, 4, -4)), c(1, 4, -4));
    assert!(ICord::contains(&c(1, 1, 1), &c(0, 0, 0), &c(2, 2, 2)));
    assert!(!ICord::contains(&c(3, 1, 1), &c(0, 0, 0), &c(2, 2, 2)));
}

#[test]
fn empty_bounds_contain_nothing() {
    let b = Bounds::empty();
    assert!(!b.has_values());
    assert!(!b.contains(c(0, 0, 0)));
    assert_eq!(b.min(), c(0, 0, 0));
    assert_eq!(b.max(), c(0, 0, 0));
    assert_eq!(b.size(), c(0, 0, 0));
    assert!(b.iterate_cords().is_empty());
}

#[test]
fn encapsulated_points_are_contained() {
    let points = [c(3, -1, 7), c(-2, 4, 0), c(5, 5, -6), c(0, 0, 0), c(-2, -1, 7)];
    let mut b = Bounds::empty();
    for p in points.iter() {
        b.encapsulate(*p);
        let (mi, ma) = (b.min(), b.max());
        assert!(mi.x <= ma.x && mi.y <= ma.y && mi.z <= ma.z);
    }
    for p in points.iter() {
        assert!(b.contains(*p));
    }
    assert_eq!(b.min(), c(-2, -1, -6));
    assert_eq!(b.max(), c(5, 5, 7));
    assert!(!b.contains(c(6, 0, 0)));
}

#[test]
fn encapsulate_other_unions_and_empty_is_identity() {
    let mut a = Bounds::min_max(c(0, 0, 0), c(1, 1, 1));
    a.encapsulate_other(&Bounds::empty());
    assert_eq!((a.min(), a.max()), (c(0, 0, 0), c(1, 1, 1)));
    a.encapsulate_other(&Bounds::min_max(c(4, -2, 0), c(5, 0, 3)));
    assert_eq!((a.min(), a.max()), (c(0, -2, 0), c(5, 1, 3)));
    let mut e = Bounds::empty();
    e.encapsulate_other(&Bounds::min_max(c(2, 2, 2), c(3, 3, 3)));
    assert_eq!((e.min(), e.max()), (c(2, 2, 2), c(3, 3, 3)));
}

#[test]
fn min_max_orders_corners() {
    let b = Bounds::min_max(c(5, 0, 2), c(1, 3, -1));
    assert_eq!(b.min(), c(1, 0, -1));
    assert_eq!(b.max(), c(5, 3, 2));
    assert_eq!(b.size(), c(4, 3, 3));
}

#[test]
fn offset_and_scale() {
    let b = Bounds::min_max(c(1, 2, 3), c(4, 5, 6));
    let o = b.offset(c(-1, 10, 0));
    assert_eq!((o.min(), o.max()), (c(0, 12, 3), c(3, 15, 6)));
    let s = b.scale(c(2, -1, 1));
    assert_eq!((s.min(), s.max()), (c(2, -5, 3), c(8, -2, 6)));
    assert!(!Bounds::empty().offset(c(1, 1, 1)).has_values());
}

#[test]
fn iterate_cords_inclusive_x_outer_z_inner() {
    let b = Bounds::min_max(c(0, 0, 0), c(1, 1, 1));
    let cells = b.iterate_cords();
    assert_eq!(
        cells,
        vec![
            c(0, 0, 0),
            c(0, 0, 1),
            c(0, 1, 0),
            c(0, 1, 1),
            c(1, 0, 0),
            c(1, 0, 1),
            c(1, 1, 0),
            c(1, 1, 1)
        ]
    );
    let single = Bounds::new(c(-3, 2, 9)).iterate_cords();
    assert_eq!(single, vec![c(-3, 2, 9)]);
    let row = Bounds::min_max(c(0, 0, 0), c(0, 0, 3)).iterate_cords();
    assert_eq!(row.len(), 4);
    assert_eq!(row[3], c(0, 0, 3));
}
