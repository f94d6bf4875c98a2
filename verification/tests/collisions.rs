use physics2d::body::Body;
use physics2d::collision::resolve_collision;
use physics2d::vec2::Vec2;

fn ball(x: i64, y: i64, mass: i64) -> Body {
    Body::new(x, y, 10_000, 0, 1000, 700, mass)
}

#[test]
fn non_overlapping_pair_is_untouched() {
    let mut a = ball(0, 0, 1);
    let mut b = ball(100_000, 0, 1);
    a.vel = Vec2 { x: 5000, y: 0 };
    b.vel = Vec2 { x: -5000, y: 0 };
    let (a2, b2) = resolve_collision(a, b, 1000);
    assert_eq!(a2, a);
    assert_eq!(b2, b);
}

#[test]
fn touching_pair_is_untouched() {
    // distance exactly the sum of radii: not a collision (strict overlap)
    let mut a = ball(0, 0, 1);
    let mut b = ball(20_000, 0, 1);
    a.vel = Vec2 { x: 5000, y: 0 };
    b.vel = Vec2 { x: -5000, y: 0 };
    let (a2, b2) = resolve_collision(a, b, 1000);
    assert_eq!(a2, a);
    assert_eq!(b2, b);
}

#[test]
fn separating_pair_is_untouched() {
    let mut a = ball(0, 0, 1);
    let mut b = ball(15_000, 0, 1);
    a.vel = Vec2 { x: -1000, y: 0 };
    b.vel = Vec2 { x: 1000, y: 0 };
    let (a2, b2) = resolve_collision(a, b, 1000);
    assert_eq!(a2, a);
    assert_eq!(b2, b);
}

#[test]
fn coincident_pair_is_untouched() {
    let mut a = ball(5000, 5000, 1);
    let mut b = ball(5000, 5000, 1);
    a.vel = Vec2 { x: 1000, y: 0 };
    b.vel = Vec2 { x: -1000, y: 0 };
    let (a2, b2) = resolve_collision(a, b, 1000);
    assert_eq!(a2, a);
    assert_eq!(b2, b);
}

#[test]
fn head_on_elastic_impulse() {
    let mut a = ball(0, 0, 1);
    let mut b = ball(15_000, 0, 1);
    a.vel = Vec2 { x: 1000, y: 0 };
    b.vel = Vec2 { x: -1000, y: 0 };
    let (a2, b2) = resolve_collision(a, b, 1000);
    // impulse = -(1 + 1) * (rv . delta) / d2 * delta = 4000 along x
    assert_eq!(a2.vel, Vec2 { x: -3000, y: 0 });
    assert_eq!(b2.vel, Vec2 { x: 3000, y: 0 });
    // positions are never corrected
    assert_eq!(a2.pos, a.pos);
    assert_eq!(b2.pos, b.pos);
}

#[test]
fn head_on_inelastic_impulse() {
    let mut a = ball(0, 0, 1);
    let mut b = ball(15_000, 0, 1);
    a.vel = Vec2 { x: 1000, y: 0 };
    b.vel = Vec2 { x: -1000, y: 0 };
    let (a2, b2) = resolve_collision(a, b, 700);
    // impulse = -(1 + 0.7) * (-30_000_000) / 225_000_000 * (15_000, 0)
    assert_eq!(a2.vel, Vec2 { x: -2400, y: 0 });
    assert_eq!(b2.vel, Vec2 { x: 2400, y: 0 });
}

#[test]
fn momentum_is_conserved_for_unit_masses() {
    let mut a = ball(0, 0, 1);
    let mut b = ball(15_000, 0, 1);
    a.vel = Vec2 { x: 1000, y: 200 };
    b.vel = Vec2 { x: -1000, y: -200 };
    let before_x = a.vel.x + b.vel.x;
    let before_y = a.vel.y + b.vel.y;
    let (a2, b2) = resolve_collision(a, b, 1000);
    assert_eq!(a2.vel.x + b2.vel.x, before_x);
    assert_eq!(a2.vel.y + b2.vel.y, before_y);
}

#[test]
fn momentum_is_conserved_for_mixed_masses() {
    let mut a = ball(0, 0, 2);
    let mut b = ball(15_000, 0, 1);
    a.vel = Vec2 { x: 1000, y: 0 };
    b.vel = Vec2 { x: -1000, y: 0 };
    let (a2, b2) = resolve_collision(a, b, 1000);
    // the impulse (4000) divides evenly by both masses, so conservation is
    // exact here: 2*1000 - 1000 == 2*(-1000) + 3000
    assert_eq!(a2.vel, Vec2 { x: -1000, y: 0 });
    assert_eq!(b2.vel, Vec2 { x: 3000, y: 0 });
    assert_eq!(2 * a2.vel.x + b2.vel.x, 2 * a.vel.x + b.vel.x);
}

#[test]
fn diagonal_collision_pushes_along_the_normal() {
    let mut a = ball(0, 0, 1);
    let mut b = ball(9000, 9000, 1);
    a.vel = Vec2 { x: 1000, y: 1000 };
    b.vel = Vec2 { x: 0, y: 0 };
    // delta = (9000, 9000), d2 = 162_000_000, rv = (-1000, -1000),
    // rv . delta = -18_000_000, num = 2000 * 18_000_000
    // impulse_x = 9000 * 36_000_000_000 / 162_000_000_000 = 2000
    let (a2, b2) = resolve_collision(a, b, 1000);
    assert_eq!(a2.vel, Vec2 { x: -1000, y: -1000 });
    assert_eq!(b2.vel, Vec2 { x: 2000, y: 2000 });
}
