use asteroids::geom::test_circle_point;
use asteroids::geom::test_circle_triangle;
use asteroids::math::Vec2D;

#[test]
fn circle_point_boundary() {
    let center = Vec2D { x: 0, y: 0 };
    // (3, 4) lies exactly on the circle of radius 5: touching counts
    assert!(test_circle_point(center, 5_000_000, Vec2D { x: 3_000_000, y: 4_000_000 }));
    assert!(!test_circle_point(center, 5_000_000, Vec2D { x: 4_000_000, y: 4_000_000 }));
    assert!(test_circle_point(center, 0, center));
}

#[test]
fn circle_triangle_center_inside() {
    // A center inside the triangle lands in the region of the far edge
    // (the region walk compares a dot product where the textbook
    // algorithm takes a cross product, kept as the source behavior):
    // here the closest point reported is (4, 2), at distance sqrt(20).
    let a = Vec2D { x: -10_000_000, y: -10_000_000 };
    let b = Vec2D { x: 10_000_000, y: -10_000_000 };
    let c = Vec2D { x: 0, y: 10_000_000 };
    assert!(test_circle_triangle(Vec2D { x: 0, y: 0 }, 4_472_136, a, b, c));
    assert!(!test_circle_triangle(Vec2D { x: 0, y: 0 }, 4_472_135, a, b, c));
}

#[test]
fn circle_triangle_vertex_region() {
    let a = Vec2D { x: 0, y: 0 };
    let b = Vec2D { x: 10_000_000, y: 0 };
    let c = Vec2D { x: 0, y: 10_000_000 };
    // closest feature is the corner at the origin, 5 units away
    let center = Vec2D { x: -3_000_000, y: -4_000_000 };
    assert!(test_circle_triangle(center, 5_000_000, a, b, c));
    assert!(!test_circle_triangle(center, 4_999_999, a, b, c));
}

#[test]
fn circle_triangle_edge_region() {
    let a = Vec2D { x: 0, y: 0 };
    let b = Vec2D { x: 10_000_000, y: 0 };
    let c = Vec2D { x: 0, y: 10_000_000 };
    // closest feature is the bottom edge, 2 units below the center
    let center = Vec2D { x: 5_000_000, y: -2_000_000 };
    assert!(test_circle_triangle(center, 2_000_000, a, b, c));
    assert!(!test_circle_triangle(center, 1_999_999, a, b, c));
}

#[test]
fn circle_triangle_far_away() {
    let a = Vec2D { x: 0, y: 0 };
    let b = Vec2D { x: 10_000_000, y: 0 };
    let c = Vec2D { x: 0, y: 10_000_000 };
    assert!(!test_circle_triangle(Vec2D { x: 500_000_000, y: 500_000_000 }, 50_000_000, a, b, c));
}
