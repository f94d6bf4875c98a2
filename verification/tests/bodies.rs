use physics2d::body::Body;
use physics2d::vec2::Vec2;

fn ball(x: i64, y: i64) -> Body {
    // radius 10 px, full friction retention, restitution 0.7, unit mass
    Body::new(x, y, 10_000, 0xff0000ff, 1000, 700, 1)
}

#[test]
fn new_body_is_at_rest() {
    let b = ball(50_000, 60_000);
    assert_eq!(b.pos, Vec2 { x: 50_000, y: 60_000 });
    assert_eq!(b.vel, Vec2 { x: 0, y: 0 });
    assert_eq!(b.force, Vec2 { x: 0, y: 0 });
    assert_eq!(b.radius, 10_000);
    assert_eq!(b.mass, 1);
    assert_eq!(b.restitution, 700);
    assert_eq!(b.friction, 1000);
    assert!(!b.grabbed);
}

#[test]
fn gravity_accelerates_downward() {
    let mut b = ball(0, 0);
    b.apply_gravity(16);
    // 9.8 m/s^2 * 100 px/m = 980 px/s^2; 16 ms worth is 15.68 px/s
    assert_eq!(b.vel.y, 15_680);
    assert_eq!(b.vel.x, 0);
    assert_eq!(b.pos, Vec2 { x: 0, y: 0 });
}

#[test]
fn gravity_with_zero_dt_changes_nothing() {
    let mut b = ball(1000, 2000);
    b.apply_gravity(0);
    assert_eq!(b.vel, Vec2 { x: 0, y: 0 });
    assert_eq!(b.pos, Vec2 { x: 1000, y: 2000 });
}

#[test]
fn floor_friction_damps_horizontal_speed() {
    let mut b = Body::new(50_000, 95_000, 10_000, 0, 900, 700, 1);
    b.vel = Vec2 { x: 1000, y: 0 };
    // pos.y + radius = 105_000 >= ground
    b.apply_floor_friction(100_000);
    assert_eq!(b.vel.x, 900);
    assert_eq!(b.vel.y, 0);
}

#[test]
fn floor_friction_only_at_the_floor() {
    let mut b = Body::new(50_000, 10_000, 10_000, 0, 900, 700, 1);
    b.vel = Vec2 { x: 1000, y: 0 };
    b.apply_floor_friction(100_000);
    assert_eq!(b.vel.x, 1000);
}

#[test]
fn integration_is_semi_implicit() {
    let mut b = ball(0, 0);
    b.force = Vec2 { x: 1000, y: 0 };
    b.integrate(1000);
    // the velocity moves first, and the position moves by the new velocity:
    // an explicit-Euler step would have left the position unchanged
    assert_eq!(b.vel.x, 1000);
    assert_eq!(b.pos.x, 1000);
}

#[test]
fn integration_with_zero_dt_changes_nothing() {
    let mut b = ball(123, 456);
    b.vel = Vec2 { x: 789, y: -789 };
    b.force = Vec2 { x: 55_555, y: -55_555 };
    b.integrate(0);
    assert_eq!(b.pos, Vec2 { x: 123, y: 456 });
    assert_eq!(b.vel, Vec2 { x: 789, y: -789 });
}

#[test]
fn bounce_with_full_restitution_reverses_velocity() {
    let mut b = Body::new(50_000, 95_000, 10_000, 0, 1000, 1000, 1);
    b.vel = Vec2 { x: 0, y: 2000 };
    b.resolve_boundaries(100_000, 100_000);
    assert_eq!(b.pos.y, 90_000);
    assert_eq!(b.vel.y, -2000);
}

#[test]
fn bounce_with_zero_restitution_stops_the_axis() {
    let mut b = Body::new(50_000, 95_000, 10_000, 0, 1000, 0, 1);
    b.vel = Vec2 { x: 0, y: 2000 };
    b.resolve_boundaries(100_000, 100_000);
    assert_eq!(b.pos.y, 90_000);
    assert_eq!(b.vel.y, 0);
}

#[test]
fn bounce_never_gains_speed() {
    // restitution 0.5: the reflected axis keeps at most half its speed
    let mut b = Body::new(50_000, 95_000, 10_000, 0, 1000, 500, 1);
    b.vel = Vec2 { x: 0, y: 2001 };
    b.resolve_boundaries(100_000, 100_000);
    assert_eq!(b.vel.y, -1000);
    assert!(b.vel.y.abs() <= 2001);
}

#[test]
fn near_edge_clamps_to_radius() {
    let mut b = Body::new(5_000, 50_000, 10_000, 0, 1000, 1000, 1);
    b.vel = Vec2 { x: -3000, y: 0 };
    b.resolve_boundaries(100_000, 100_000);
    assert_eq!(b.pos.x, 10_000);
    assert_eq!(b.vel.x, 3000);
}

#[test]
fn corner_hit_reflects_both_axes() {
    let mut b = Body::new(95_000, 95_000, 10_000, 0, 1000, 1000, 1);
    b.vel = Vec2 { x: 4000, y: 2000 };
    b.resolve_boundaries(100_000, 100_000);
    assert_eq!(b.pos, Vec2 { x: 90_000, y: 90_000 });
    assert_eq!(b.vel, Vec2 { x: -4000, y: -2000 });
}

#[test]
fn body_inside_the_region_is_untouched() {
    let mut b = ball(50_000, 50_000);
    b.vel = Vec2 { x: 777, y: -777 };
    b.resolve_boundaries(100_000, 100_000);
    assert_eq!(b.pos, Vec2 { x: 50_000, y: 50_000 });
    assert_eq!(b.vel, Vec2 { x: 777, y: -777 });
}

#[test]
fn forces_accumulate_then_overwrite() {
    let mut b = ball(0, 0);
    b.apply_force(Vec2 { x: 100, y: 200 });
    b.apply_force(Vec2 { x: 10, y: -300 });
    assert_eq!(b.force, Vec2 { x: 110, y: -100 });
    b.set_force(Vec2 { x: 0, y: 0 });
    assert_eq!(b.force, Vec2 { x: 0, y: 0 });
}
