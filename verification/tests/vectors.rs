use asteroids::fixed::HALF_TURN;
use asteroids::fixed::QUARTER;
use asteroids::fixed::SCALE;
use asteroids::math::Vec2D;

#[test]
fn add_sub_dot_scale() {
    let a = Vec2D { x: 1_000_000, y: 2_000_000 };
    let b = Vec2D { x: 3_000_000, y: -500_000 };
    assert_eq!(a.add(b), Vec2D { x: 4_000_000, y: 1_500_000 });
    assert_eq!(a.sub(b), Vec2D { x: -2_000_000, y: 2_500_000 });
    // (1, 2) . (3, -0.5) == 3 - 1 == 2
    assert_eq!(a.dot(&b), 2_000_000);
    assert_eq!(a.scale(2_000_000), Vec2D { x: 2_000_000, y: 4_000_000 });
}

#[test]
fn zero_and_one() {
    assert_eq!(Vec2D::zero(), Vec2D { x: 0, y: 0 });
    assert_eq!(Vec2D::one(), Vec2D { x: SCALE, y: 0 });
}

#[test]
fn len_of_pythagorean_triple() {
    let v = Vec2D { x: 3_000_000, y: 4_000_000 };
    assert_eq!(v.len(), 5_000_000);
    let w = Vec2D { x: -3_000_000, y: 4_000_000 };
    assert_eq!(w.len(), 5_000_000);
    assert_eq!(Vec2D::zero().len(), 0);
}

#[test]
fn rotate_by_quarter_turns() {
    let v = Vec2D { x: SCALE, y: 0 };
    assert_eq!(v.rotate(0), Vec2D { x: SCALE, y: 0 });
    assert_eq!(v.rotate(QUARTER), Vec2D { x: 0, y: SCALE });
    assert_eq!(v.rotate(HALF_TURN), Vec2D { x: -SCALE, y: 0 });
    assert_eq!(v.rotate(-QUARTER), Vec2D { x: 0, y: -SCALE });
}

#[test]
fn clip_wraps_each_axis() {
    let field = Vec2D { x: 1_280_000_000, y: 720_000_000 };
    let mut p = Vec2D { x: -1, y: 730_000_000 };
    p.clip(&field);
    assert_eq!(p, Vec2D { x: 1_279_999_999, y: 10_000_000 });

    let mut q = Vec2D { x: 2_560_000_000, y: -720_000_001 };
    q.clip(&field);
    assert_eq!(q, Vec2D { x: 0, y: 719_999_999 });
}

#[test]
fn clip_is_idempotent() {
    let field = Vec2D { x: 1_280_000_000, y: 720_000_000 };
    let mut p = Vec2D { x: -987_654_321, y: 99_999_999_999 };
    p.clip(&field);
    let once = p;
    p.clip(&field);
    assert_eq!(p, once);
    assert!(0 <= p.x && p.x < field.x);
    assert!(0 <= p.y && p.y < field.y);
}
