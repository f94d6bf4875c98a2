use physics2d::body::Body;
use physics2d::spring::Spring;
use physics2d::vec2::Vec2;
use physics2d::world::{InputSnapshot, World, PAIR_RESTITUTION};

fn idle_input(dt_ms: i64) -> InputSnapshot {
    InputSnapshot {
        pointer: Vec2 { x: 0, y: 0 },
        pressed: false,
        released: false,
        width: 1_000_000,
        height: 1_000_000,
        dt_ms,
    }
}

fn ball(x: i64, y: i64) -> Body {
    Body::new(x, y, 5000, 0, 1000, 1000, 1)
}

#[test]
fn empty_world_defaults() {
    let w = World::new();
    assert_eq!(w.body_count(), 0);
    assert_eq!(w.spring_count(), 0);
    assert_eq!(w.collision_restitution, PAIR_RESTITUTION);
}

#[test]
fn builders_keep_what_they_are_given() {
    let mut w = World::new();
    w.add_body(ball(50_000, 10_000));
    w.add_body(ball(250_000, 10_000));
    w.add_spring(Spring::new(0, 1, 100_000, 5000, 1000));
    assert_eq!(w.body_count(), 2);
    assert_eq!(w.spring_count(), 1);
    assert_eq!(w.body_at(1).pos, Vec2 { x: 250_000, y: 10_000 });
    assert_eq!(w.spring_at(0).rest_length, 100_000);
}

#[test]
fn a_free_body_falls_under_gravity() {
    let mut w = World::new();
    w.add_body(ball(50_000, 10_000));
    w.step(idle_input(100));
    let b = w.body_at(0);
    // 980 px/s^2 for 100 ms: velocity 98 px/s, moved 9.8 px
    assert_eq!(b.vel, Vec2 { x: 0, y: 98_000 });
    assert_eq!(b.pos, Vec2 { x: 50_000, y: 19_800 });
    w.step(idle_input(100));
    let b = w.body_at(0);
    assert_eq!(b.vel, Vec2 { x: 0, y: 196_000 });
    assert_eq!(b.pos, Vec2 { x: 50_000, y: 39_400 });
}

#[test]
fn a_step_of_zero_time_moves_nothing() {
    let mut w = World::new();
    w.add_body(ball(50_000, 10_000));
    w.step(idle_input(0));
    let b = w.body_at(0);
    assert_eq!(b.vel, Vec2 { x: 0, y: 0 });
    assert_eq!(b.pos, Vec2 { x: 50_000, y: 10_000 });
}

#[test]
fn grabbed_body_is_slaved_to_the_pointer() {
    let mut w = World::new();
    w.add_body(ball(50_000, 10_000));
    // press with the pointer over the body
    let mut input = idle_input(100);
    input.pointer = Vec2 { x: 51_000, y: 11_000 };
    input.pressed = true;
    w.step(input);
    let b = w.body_at(0);
    assert!(b.grabbed);
    assert_eq!(b.pos, Vec2 { x: 51_000, y: 11_000 });
    assert_eq!(b.vel, Vec2 { x: 0, y: 0 });
    // keep holding: the body follows the pointer, frame after frame
    let mut input = idle_input(100);
    input.pointer = Vec2 { x: 80_000, y: 40_000 };
    w.step(input);
    let b = w.body_at(0);
    assert!(b.grabbed);
    assert_eq!(b.pos, Vec2 { x: 80_000, y: 40_000 });
    assert_eq!(b.vel, Vec2 { x: 0, y: 0 });
}

#[test]
fn a_press_away_from_every_body_grabs_nothing() {
    let mut w = World::new();
    w.add_body(ball(50_000, 10_000));
    let mut input = idle_input(0);
    input.pointer = Vec2 { x: 700_000, y: 700_000 };
    input.pressed = true;
    w.step(input);
    assert!(!w.body_at(0).grabbed);
}

#[test]
fn release_throws_along_the_drag() {
    let mut w = World::new();
    w.add_body(ball(50_000, 10_000));

    let mut press = idle_input(100);
    press.pointer = Vec2 { x: 50_000, y: 10_000 };
    press.pressed = true;
    w.step(press);

    let mut drag = idle_input(100);
    drag.pointer = Vec2 { x: 60_000, y: 12_000 };
    w.step(drag);

    let mut release = idle_input(100);
    release.pointer = Vec2 { x: 60_000, y: 12_000 };
    release.released = true;
    w.step(release);

    let b = w.body_at(0);
    assert!(!b.grabbed);
    // throw force (20_000_000, 4_000_000) integrates for 100 ms on top of
    // gravity, and the position moves by the new velocity
    assert_eq!(b.vel, Vec2 { x: 2_000_000, y: 498_000 });
    assert_eq!(b.pos, Vec2 { x: 260_000, y: 61_800 });
    // the force accumulator is reset at the end of every frame
    assert_eq!(b.force, Vec2 { x: 0, y: 0 });
}

#[test]
fn only_one_body_can_be_held() {
    let mut w = World::new();
    w.add_body(ball(50_000, 10_000));
    w.add_body(ball(52_000, 10_000));
    let mut input = idle_input(0);
    // the pointer is over both; the first body wins
    input.pointer = Vec2 { x: 51_000, y: 10_000 };
    input.pressed = true;
    w.step(input);
    assert!(w.body_at(0).grabbed);
    assert!(!w.body_at(1).grabbed);
    // a second press cannot steal the grab
    let mut again = idle_input(0);
    again.pointer = Vec2 { x: 52_000, y: 10_000 };
    again.pressed = true;
    w.step(again);
    assert!(w.body_at(0).grabbed);
    assert!(!w.body_at(1).grabbed);
}

#[test]
fn a_falling_body_bounces_off_the_floor_within_a_step() {
    let mut w = World::new();
    let mut b = ball(500_000, 990_000);
    b.vel = Vec2 { x: 0, y: 98_000 };
    w.add_body(b);
    w.step(idle_input(100));
    let b = w.body_at(0);
    // gravity first (velocity 196 px/s), integration carries the body
    // 19.6 px through the floor, and the boundary clamps and reflects it
    assert_eq!(b.pos.y, 995_000);
    assert_eq!(b.vel.y, -196_000);
}

#[test]
fn floor_friction_damps_each_step_even_with_no_time() {
    let mut w = World::new();
    // friction 0.9, resting exactly on the floor: pos.y + radius == height
    let mut b = Body::new(500_000, 995_000, 5000, 0, 900, 1000, 1);
    b.vel = Vec2 { x: 1000, y: 0 };
    w.add_body(b);
    w.step(idle_input(0));
    let b = w.body_at(0);
    // the damp is per step, not scaled by the timestep
    assert_eq!(b.vel.x, 900);
    assert_eq!(b.pos.x, 500_000);
}

#[test]
fn colliding_bodies_exchange_impulses_in_a_step() {
    let mut w = World::new();
    let mut a = Body::new(100_000, 500_000, 10_000, 0, 1000, 1000, 1);
    a.vel = Vec2 { x: 1000, y: 0 };
    let mut b = Body::new(115_000, 500_000, 10_000, 0, 1000, 1000, 1);
    b.vel = Vec2 { x: -1000, y: 0 };
    w.add_body(a);
    w.add_body(b);
    w.collision_restitution = 1000;
    // dt 0: the bodies do not move, but the overlapping approaching pair
    // still gets its impulse
    w.step(idle_input(0));
    assert_eq!(w.body_at(0).vel, Vec2 { x: -3000, y: 0 });
    assert_eq!(w.body_at(1).vel, Vec2 { x: 3000, y: 0 });
}

#[test]
fn spring_forces_reach_velocities_one_frame_late() {
    let mut w = World::new();
    w.add_body(ball(100_000, 500_000));
    w.add_body(ball(250_000, 500_000));
    w.add_spring(Spring::new(0, 1, 100_000, 5000, 1000));

    w.step(idle_input(100));
    // frame one: the spring wrote its force after the reset, so the force
    // survives into the next frame, but velocities only felt gravity
    let a = w.body_at(0);
    let b = w.body_at(1);
    assert_eq!(a.force, Vec2 { x: -250_000, y: 0 });
    assert_eq!(b.force, Vec2 { x: 250_000, y: 0 });
    assert_eq!(a.vel.x, 0);
    assert_eq!(b.vel.x, 0);

    w.step(idle_input(100));
    // frame two: integration consumes the stored spring force
    let a = w.body_at(0);
    let b = w.body_at(1);
    assert_eq!(a.vel.x, -25_000);
    assert_eq!(b.vel.x, 25_000);
    assert_eq!(a.pos.x, 100_000 - 2500);
    assert_eq!(b.pos.x, 250_000 + 2500);
}
