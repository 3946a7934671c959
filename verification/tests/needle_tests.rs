use compass_gauge::needle::{hub, needle_points, project, GaugeGeometry, Hub, NeedlePoints, Point};

fn dial() -> GaugeGeometry {
    GaugeGeometry { center: Point { x: 32, y: 36 }, needle_length: 20, gauge_width: 3 }
}

fn doubled_area(n: &NeedlePoints) -> i64 {
    let (tx, ty) = (i64::from(n.tip.x), i64::from(n.tip.y));
    let (lx, ly) = (i64::from(n.left.x), i64::from(n.left.y));
    let (rx, ry) = (i64::from(n.right.x), i64::from(n.right.y));
    (lx - tx) * (ry - ty) - (ly - ty) * (rx - tx)
}

#[test]
fn needle_at_heading_zero_points_up() {
    let needle = needle_points(0, &dial());
    assert_eq!(needle.tip, Point { x: 32, y: 16 });
    assert_eq!(needle.left, Point { x: 29, y: 36 });
    assert_eq!(needle.right, Point { x: 35, y: 36 });
}

#[test]
fn needle_at_the_quarter_turns() {
    let east = needle_points(90, &dial());
    assert_eq!(east.tip, Point { x: 52, y: 36 });
    assert_eq!(east.left, Point { x: 32, y: 33 });
    assert_eq!(east.right, Point { x: 32, y: 39 });
    let south = needle_points(180, &dial());
    assert_eq!(south.tip, Point { x: 32, y: 56 });
    assert_eq!(south.left, Point { x: 35, y: 36 });
    assert_eq!(south.right, Point { x: 29, y: 36 });
    let west = needle_points(270, &dial());
    assert_eq!(west.tip, Point { x: 12, y: 36 });
    assert_eq!(west.left, Point { x: 32, y: 39 });
    assert_eq!(west.right, Point { x: 32, y: 33 });
}

#[test]
fn needle_at_oblique_headings() {
    let north_east = needle_points(45, &dial());
    assert_eq!(north_east.tip, Point { x: 46, y: 22 });
    assert_eq!(north_east.left, Point { x: 30, y: 34 });
    assert_eq!(north_east.right, Point { x: 34, y: 38 });
    let thirty = needle_points(30, &dial());
    assert_eq!(thirty.tip, Point { x: 42, y: 19 });
    assert_eq!(thirty.left, Point { x: 29, y: 34 });
    assert_eq!(thirty.right, Point { x: 35, y: 38 });
}

#[test]
fn needle_normalizes_the_heading() {
    let g = dial();
    for angle in [-720, -359, -1, 0, 17, 359] {
        assert_eq!(needle_points(angle, &g), needle_points(angle + 360, &g));
    }
    assert_eq!(needle_points(i32::MAX, &g), needle_points(127, &g));
    assert_eq!(needle_points(i32::MIN, &g), needle_points(232, &g));
    assert_eq!(needle_points(-90, &g), needle_points(270, &g));
}

#[test]
fn needle_tip_is_within_half_a_pixel_of_the_true_point() {
    let g = dial();
    for angle in 0..360 {
        let needle = needle_points(angle, &g);
        let radians = f64::from(angle).to_radians();
        let x = 32.0 + 20.0 * radians.sin();
        let y = 36.0 - 20.0 * radians.cos();
        assert!((f64::from(needle.tip.x) - x).abs() <= 0.5 + 1e-3, "x at {angle}");
        assert!((f64::from(needle.tip.y) - y).abs() <= 0.5 + 1e-3, "y at {angle}");
    }
}

#[test]
fn needle_is_a_triangle_at_every_heading() {
    let geometries = [
        dial(),
        GaugeGeometry { center: Point { x: 0, y: 0 }, needle_length: 1, gauge_width: 1 },
        GaugeGeometry { center: Point { x: -5, y: 7 }, needle_length: 1, gauge_width: 200 },
        GaugeGeometry { center: Point { x: 100, y: 100 }, needle_length: 1000, gauge_width: 1 },
        GaugeGeometry { center: Point { x: 0, y: -1 }, needle_length: 2_000_000_000, gauge_width: 2 },
    ];
    for g in geometries {
        assert!(g.is_valid());
        for angle in 0..360 {
            let n = needle_points(angle, &g);
            assert_ne!(n.tip, n.left, "{g:?} at {angle}");
            assert_ne!(n.tip, n.right, "{g:?} at {angle}");
            assert_ne!(n.left, n.right, "{g:?} at {angle}");
            assert!(doubled_area(&n) < 0, "{g:?} at {angle}");
        }
    }
}

#[test]
fn needle_base_is_centered_on_the_gauge() {
    let g = dial();
    for angle in 0..360 {
        let n = needle_points(angle, &g);
        assert_eq!(n.left.x + n.right.x, 2 * g.center.x);
        assert_eq!(n.left.y + n.right.y, 2 * g.center.y);
    }
}

#[test]
fn project_follows_the_screen_clockwise_from_down() {
    let center = Point { x: 10, y: 10 };
    assert_eq!(project(center, 0, 5), Point { x: 10, y: 15 });
    assert_eq!(project(center, 90, 5), Point { x: 5, y: 10 });
    assert_eq!(project(center, 180, 5), Point { x: 10, y: 5 });
    assert_eq!(project(center, 270, 5), Point { x: 15, y: 10 });
    assert_eq!(project(center, 45, 10), Point { x: 3, y: 17 });
    assert_eq!(project(center, 123, 0), center);
}

#[test]
fn project_reaches_the_ends_of_the_pixel_range() {
    let center = Point { x: 0, y: -1 };
    let radius = i32::MAX as u32;
    assert_eq!(project(center, 0, radius), Point { x: 0, y: i32::MAX - 1 });
    assert_eq!(project(center, 90, radius), Point { x: -i32::MAX, y: -1 });
    assert_eq!(project(center, 180, radius), Point { x: 0, y: i32::MIN });
    assert_eq!(project(center, 270, radius), Point { x: i32::MAX, y: -1 });
}

#[test]
fn geometry_is_made_only_where_well_formed() {
    let center = Point { x: 32, y: 36 };
    assert_eq!(GaugeGeometry::new(center, 20, 3), Some(dial()));
    assert_eq!(GaugeGeometry::new(center, 0, 3), None);
    assert_eq!(GaugeGeometry::new(center, 20, 0), None);
    assert_eq!(GaugeGeometry::new(center, 0, 0), None);
    assert!(GaugeGeometry::new(center, 1, 1).is_some());
}

#[test]
fn geometry_must_keep_the_needle_among_the_pixels() {
    let far = Point { x: i32::MAX - 10, y: 0 };
    assert!(GaugeGeometry::new(far, 10, 3).is_some());
    assert_eq!(GaugeGeometry::new(far, 11, 3), None);
    assert_eq!(GaugeGeometry::new(far, 3, 11), None);
    let low = Point { x: 0, y: i32::MIN + 4 };
    assert!(GaugeGeometry::new(low, 4, 4).is_some());
    assert_eq!(GaugeGeometry::new(low, 5, 1), None);
    assert_eq!(GaugeGeometry::new(Point { x: 0, y: 0 }, u32::MAX, 1), None);
    assert!(!GaugeGeometry { center: far, needle_length: 11, gauge_width: 3 }.is_valid());
    assert!(dial().is_valid());
}

#[test]
fn hub_is_centered_and_half_the_needle_wide() {
    assert_eq!(hub(&dial()), Hub { top_left: Point { x: 28, y: 32 }, diameter: 10 });
    let odd = GaugeGeometry { center: Point { x: 32, y: 36 }, needle_length: 23, gauge_width: 3 };
    assert_eq!(hub(&odd), Hub { top_left: Point { x: 27, y: 31 }, diameter: 11 });
    let small = GaugeGeometry { center: Point { x: -4, y: 9 }, needle_length: 2, gauge_width: 1 };
    assert_eq!(hub(&small), Hub { top_left: Point { x: -4, y: 9 }, diameter: 1 });
    let least = GaugeGeometry { center: Point { x: -4, y: 9 }, needle_length: 1, gauge_width: 1 };
    assert_eq!(hub(&least), Hub { top_left: Point { x: -4, y: 9 }, diameter: 0 });
}

#[test]
fn hub_is_the_circle_that_the_graphics_library_centers() {
    for length in 1..60u32 {
        let g = GaugeGeometry { center: Point { x: 32, y: 36 }, needle_length: length, gauge_width: 3 };
        let h = hub(&g);
        let circle = embedded_graphics::primitives::Circle::new(
            embedded_graphics::geometry::Point::new(h.top_left.x, h.top_left.y),
            h.diameter,
        );
        assert_eq!(circle.diameter, length / 2);
        if h.diameter > 0 {
            assert_eq!(circle.center(), embedded_graphics::geometry::Point::new(32, 36));
        }
    }
}
