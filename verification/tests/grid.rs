use ramiel::grid::{Grid, Line};
use ramiel::point::{Point, COORD_MAX, COORD_MIN};

fn grid(size: i32) -> Grid {
    Grid::new(size).unwrap()
}

#[test]
fn grid_needs_a_positive_size() {
    assert!(Grid::new(0).is_none());
    assert!(Grid::new(-3).is_none());
    assert_eq!(Grid::new(40).unwrap().size(), 40);
    assert_eq!(Grid::new(1).unwrap().size(), 1);
}

#[test]
fn exact_half_rounds_up() {
    assert_eq!(grid(40).nearest(20), 40);
}

#[test]
fn nearest_rounds_to_the_nearer_line() {
    let g = grid(40);
    assert_eq!(g.nearest(0), 0);
    assert_eq!(g.nearest(19), 0);
    assert_eq!(g.nearest(21), 40);
    assert_eq!(g.nearest(40), 40);
    assert_eq!(g.nearest(41), 40);
    assert_eq!(g.nearest(59), 40);
    assert_eq!(g.nearest(60), 80);
    assert_eq!(g.nearest(639), 640);
}

#[test]
fn nearest_on_an_odd_cell_size() {
    let g = grid(5);
    assert_eq!(g.nearest(1), 0);
    assert_eq!(g.nearest(2), 5);
    assert_eq!(g.nearest(3), 5);
    assert_eq!(g.nearest(7), 10);
}

#[test]
fn negative_coordinates_snap_toward_zero() {
    let g = grid(40);
    assert_eq!(g.nearest(-1), 0);
    assert_eq!(g.nearest(-20), 0);
    assert_eq!(g.nearest(-39), 0);
    assert_eq!(g.nearest(-40), -40);
    assert_eq!(g.nearest(-41), -40);
    assert_eq!(g.nearest(-79), -40);
    assert_eq!(g.nearest(-80), -80);
}

#[test]
fn cells_one_wide_always_step_up() {
    let g = grid(1);
    assert_eq!(g.nearest(0), 1);
    assert_eq!(g.nearest(5), 6);
    assert_eq!(g.nearest(-5), -4);
}

#[test]
fn nearest_at_the_ends_of_the_range() {
    assert_eq!(grid(40).nearest(i32::MIN), -2147483640);
    assert_eq!(grid(40).nearest(2147483640), 2147483640);
    assert_eq!(grid(i32::MAX).nearest(5), 0);
    assert_eq!(grid(i32::MAX).nearest(i32::MAX / 2), i32::MAX);
}

#[test]
fn snapping_twice_is_snapping_once() {
    for size in [2, 3, 5, 40, 41] {
        let g = grid(size);
        for i in -200..200 {
            let once = g.nearest(i);
            assert_eq!(g.nearest(once), once, "size {} i {}", size, i);
        }
    }
}

#[test]
fn snapping_lands_on_a_grid_line() {
    for size in [1, 2, 3, 5, 40, 41] {
        let g = grid(size);
        for i in -200..200 {
            assert_eq!(g.nearest(i) % size, 0, "size {} i {}", size, i);
        }
    }
}

#[test]
fn snapping_moves_at_most_half_a_cell() {
    for size in [1, 2, 3, 5, 40, 41] {
        let g = grid(size);
        for i in 0..400 {
            let moved = (g.nearest(i) - i).abs();
            assert!(moved <= (size + 1) / 2, "size {} i {}", size, i);
        }
    }
    assert_eq!(grid(40).nearest(-39) - -39, 39);
}

#[test]
fn nearest_vertex_snaps_each_axis() {
    let g = grid(40);
    assert_eq!(g.nearest_vertex(&Point::new(41, 19)), Point::new(40, 0));
    assert_eq!(g.nearest_vertex(&Point::new(20, 20)), Point::new(40, 40));
    assert_eq!(g.nearest_vertex(&Point::new(-41, 100)), Point::new(-40, 120));
    assert_eq!(g.nearest_vertex(&Point::new(0, 0)), Point::new(0, 0));
}

#[test]
fn nearest_vertex_stays_in_the_range_of_points() {
    let g = grid(40);
    let p = g.nearest_vertex(&Point::new(COORD_MAX, COORD_MIN));
    assert_eq!(p.x(), COORD_MAX);
    assert_eq!(p.y(), -1073741800);
    let low = grid(1).nearest_vertex(&Point::new(COORD_MIN, COORD_MAX));
    assert_eq!(low, Point::new(COORD_MIN + 1, COORD_MAX));
    let q = grid(i32::MAX).nearest_vertex(&Point::new(COORD_MAX, 7));
    assert_eq!(q, Point::new(COORD_MAX, 0));
}

#[test]
fn lines_run_verticals_then_horizontals() {
    let lines = grid(40).lines(100, 50);
    let expected = vec![
        Line { start: Point::new(0, 0), end: Point::new(0, 50) },
        Line { start: Point::new(40, 0), end: Point::new(40, 50) },
        Line { start: Point::new(80, 0), end: Point::new(80, 50) },
        Line { start: Point::new(0, 0), end: Point::new(100, 0) },
        Line { start: Point::new(0, 40), end: Point::new(100, 40) },
    ];
    assert_eq!(lines, expected);
}

#[test]
fn lines_stop_before_the_far_edge() {
    let lines = grid(40).lines(80, 40);
    let expected = vec![
        Line { start: Point::new(0, 0), end: Point::new(0, 40) },
        Line { start: Point::new(40, 0), end: Point::new(40, 40) },
        Line { start: Point::new(0, 0), end: Point::new(80, 0) },
    ];
    assert_eq!(lines, expected);
}

#[test]
fn lines_of_an_empty_canvas() {
    assert!(grid(40).lines(0, 0).is_empty());
    assert!(grid(40).lines(-5, -1).is_empty());
    assert_eq!(grid(40).lines(1, 0).len(), 1);
    assert_eq!(grid(40).lines(0, 41).len(), 2);
    assert_eq!(grid(40).lines(640, 480).len(), 16 + 12);
}

#[test]
fn lines_on_a_canvas_as_wide_as_integers_go() {
    let lines = grid(i32::MAX).lines(i32::MAX, 1);
    let expected = vec![
        Line { start: Point::new(0, 0), end: Point::new(0, 1) },
        Line { start: Point::new(0, 0), end: Point::new(COORD_MAX, 0) },
    ];
    assert_eq!(lines, expected);
}

#[test]
fn points_clamp_their_coordinates() {
    let p = Point::new(i32::MAX, i32::MIN);
    assert_eq!(p.x(), 1073741823);
    assert_eq!(p.y(), -1073741824);
    assert_eq!(COORD_MAX, 1073741823);
    assert_eq!(COORD_MIN, -1073741824);
    let q = Point::new(COORD_MAX, COORD_MIN);
    assert_eq!(p, q);
    let r = Point::new(-7, 9);
    assert_eq!((r.x(), r.y()), (-7, 9));
    assert_ne!(Point::new(1, 2), Point::new(2, 1));
}

#[test]
fn relative_distance_is_the_squared_distance() {
    assert_eq!(Point::new(0, 0).relative_distance(&Point::new(3, 4)), 25);
    assert_eq!(Point::new(100, 100).relative_distance(&Point::new(115, 100)), 225);
    assert_eq!(Point::new(100, 100).relative_distance(&Point::new(125, 100)), 625);
    assert_eq!(Point::new(-2, 5).relative_distance(&Point::new(-2, 5)), 0);
    let far = Point::new(COORD_MAX, COORD_MAX).relative_distance(&Point::new(COORD_MIN, COORD_MIN));
    assert_eq!(far, 2 * 2147483647i64 * 2147483647i64);
}
