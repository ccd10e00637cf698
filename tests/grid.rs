use sdf_sculpt::cord::ICord;
use sdf_sculpt::grid::{march_grid_by_ray, ray_box_intersection, Ray};
use sdf_sculpt::hit::ray_triangle_intersection;
use sdf_sculpt::triangulation::Triangle;

fn c(x: i32, y: i32, z: i32) -> ICord {
    ICord { x, y, z }
}

#[test]
fn ray_along_x_visits_the_row() {
    // Origin (0, 0, 0.5), direction +x, grid (0,0,0)..(2,2,2).
    let ray = Ray { origin: c(0, 0, 1), denominator: 2, direction: c(1, 0, 0) };
    let cells = march_grid_by_ray(&ray, c(0, 0, 0), c(2, 2, 2)).unwrap();
    assert_eq!(cells, vec![c(0, 0, 0), c(1, 0, 0), c(2, 0, 0)]);
}

#[test]
fn ray_from_outside_enters_at_the_face() {
    // Origin (-1, 0.5, 1.5), direction +x.
    let ray = Ray { origin: c(-2, 1, 3), denominator: 2, direction: c(1, 0, 0) };
    let cells = march_grid_by_ray(&ray, c(0, 0, 0), c(2, 2, 2)).unwrap();
    assert_eq!(cells, vec![c(0, 0, 1), c(1, 0, 1), c(2, 0, 1)]);
}

#[test]
fn ray_going_backwards_walks_down() {
    // Origin (5.5, 1.5, 0.5), direction -x.
    let ray = Ray { origin: c(11, 3, 1), denominator: 2, direction: c(-1, 0, 0) };
    let cells = march_grid_by_ray(&ray, c(0, 0, 0), c(2, 2, 2)).unwrap();
    assert_eq!(cells, vec![c(2, 1, 0), c(1, 1, 0), c(0, 1, 0)]);
}

#[test]
fn diagonal_ray_steps_one_axis_at_a_time() {
    // Origin (0.25, 0.5, 0.5), direction (1, 1, 0): crosses y = 1 before x = 1.
    let ray = Ray { origin: c(1, 2, 2), denominator: 4, direction: c(1, 1, 0) };
    let cells = march_grid_by_ray(&ray, c(0, 0, 0), c(1, 1, 0)).unwrap();
    assert_eq!(cells, vec![c(0, 0, 0), c(0, 1, 0), c(1, 1, 0)]);
    for w in cells.windows(2) {
        let d = (w[1].x - w[0].x) + (w[1].y - w[0].y) + (w[1].z - w[0].z);
        assert_eq!(d, 1);
    }
}

#[test]
fn ray_missing_the_box_gives_none() {
    let away = Ray { origin: c(-2, 1, 1), denominator: 2, direction: c(-1, 0, 0) };
    assert!(march_grid_by_ray(&away, c(0, 0, 0), c(2, 2, 2)).is_none());
    let beside = Ray { origin: c(-2, 20, 1), denominator: 2, direction: c(1, 0, 0) };
    assert!(march_grid_by_ray(&beside, c(0, 0, 0), c(2, 2, 2)).is_none());
}

#[test]
fn long_walk_stays_in_the_box() {
    let ray = Ray { origin: c(-7, 3, -5), denominator: 3, direction: c(5, 2, 3) };
    let lo = c(0, 0, 0);
    let hi = c(47, 47, 47);
    let cells = march_grid_by_ray(&ray, lo, hi).unwrap();
    assert!(cells.len() > 47);
    for p in cells.iter() {
        assert!(p.x >= 0 && p.x <= 47 && p.y >= 0 && p.y <= 47 && p.z >= 0 && p.z <= 47);
    }
    assert_eq!(cells[0], c(0, 2, 0));
}

fn unit_triangle() -> Triangle {
    // (0,0,0), (1,0,0), (0,1,0) in cells, given in half cells.
    Triangle { a: c(0, 0, 0), b: c(2, 0, 0), c: c(0, 2, 0) }
}

#[test]
fn ray_hits_unit_triangle_inside_its_edges() {
    // From (0.25, 0.25, 1) toward -z.
    let ray = Ray { origin: c(1, 1, 4), denominator: 4, direction: c(0, 0, -1) };
    let hit = ray_triangle_intersection(&ray, &unit_triangle()).unwrap();
    assert!(hit.t_den > 0);
    // t = 1: the point (0.25, 0.25, 0).
    assert_eq!(hit.t_num, hit.t_den);
}

#[test]
fn ray_pointing_away_from_the_plane_misses() {
    let ray = Ray { origin: c(1, 1, 4), denominator: 4, direction: c(0, 0, 1) };
    assert!(ray_triangle_intersection(&ray, &unit_triangle()).is_none());
}

#[test]
fn ray_beside_the_triangle_misses() {
    let ray = Ray { origin: c(8, 8, 4), denominator: 4, direction: c(0, 0, -1) };
    assert!(ray_triangle_intersection(&ray, &unit_triangle()).is_none());
    let parallel = Ray { origin: c(1, 1, 4), denominator: 4, direction: c(1, 0, 0) };
    assert!(ray_triangle_intersection(&parallel, &unit_triangle()).is_none());
}

#[test]
fn ray_hits_on_an_edge_and_from_below() {
    // Through the midpoint of the hypotenuse, from below.
    let ray = Ray { origin: c(1, 1, -2), denominator: 2, direction: c(0, 0, 3) };
    let hit = ray_triangle_intersection(&ray, &unit_triangle()).unwrap();
    // t = 1/3: z = -1 + 3t = 0.
    assert_eq!(hit.t_num * 3, hit.t_den);
}

#[test]
fn ray_in_the_far_face_walks_the_last_column() {
    let ray = Ray { origin: c(3, 0, 0), denominator: 1, direction: c(0, 1, 0) };
    let cells = march_grid_by_ray(&ray, c(0, 0, 0), c(2, 2, 2)).unwrap();
    assert_eq!(cells, vec![c(2, 0, 0), c(2, 1, 0), c(2, 2, 0)]);
    assert!(ray_box_intersection(&ray, c(0, 0, 0), c(2, 2, 2)).is_some());
}

#[test]
fn slab_test_gives_entry_and_exit_times() {
    // From (-1, 0.5, 0.5) along +x through the unit cell: enters at t = 1, leaves at t = 2.
    let ray = Ray { origin: c(-2, 1, 1), denominator: 2, direction: c(1, 0, 0) };
    let (enter, exit) = ray_box_intersection(&ray, c(0, 0, 0), c(0, 0, 0)).unwrap();
    assert_eq!(enter.0, enter.1);
    let exit = exit.unwrap();
    assert_eq!(exit.0, 2 * exit.1);
}
