use physics2d::body::Body;
use physics2d::spring::{spring_update, Spring};
use physics2d::vec2::Vec2;

fn particle(x: i64, y: i64) -> Body {
    Body::new(x, y, 10_000, 0, 900, 700, 1)
}

#[test]
fn spring_fields() {
    let s = Spring::new(0, 1, 100_000, 5000, 1000);
    assert_eq!(s.a, 0);
    assert_eq!(s.b, 1);
    assert_eq!(s.rest_length, 100_000);
    assert_eq!(s.stiffness, 5000);
    assert_eq!(s.damping, 1000);
}

#[test]
fn spring_at_rest_length_exerts_nothing() {
    let s = Spring::new(0, 1, 100_000, 5000, 1000);
    let pa = particle(0, 0);
    let pb = particle(100_000, 0);
    let (ra, rb) = spring_update(&s, pa, pb);
    assert_eq!(ra, pa);
    assert_eq!(rb, pb);
}

#[test]
fn coincident_endpoints_are_untouched() {
    let s = Spring::new(0, 1, 100_000, 5000, 1000);
    let pa = particle(42_000, 42_000);
    let pb = particle(42_000, 42_000);
    let (ra, rb) = spring_update(&s, pa, pb);
    assert_eq!(ra, pa);
    assert_eq!(rb, pb);
}

#[test]
fn stretched_spring_forces_are_equal_and_opposite() {
    let s = Spring::new(0, 1, 100_000, 5000, 1000);
    let pa = particle(0, 0);
    let pb = particle(150_000, 0);
    let (ra, rb) = spring_update(&s, pa, pb);
    // distance 150, stretch 50: force = 5.0 * 50 = 250 px units along x
    assert_eq!(ra.force, Vec2 { x: -250_000, y: 0 });
    assert_eq!(rb.force, Vec2 { x: 250_000, y: 0 });
    // springs never move bodies directly
    assert_eq!(ra.pos, pa.pos);
    assert_eq!(rb.pos, pb.pos);
    assert_eq!(ra.vel, pa.vel);
    assert_eq!(rb.vel, pb.vel);
}

#[test]
fn compressed_spring_reverses_the_force() {
    let s = Spring::new(0, 1, 100_000, 5000, 0);
    let pa = particle(0, 0);
    let pb = particle(50_000, 0);
    let (ra, rb) = spring_update(&s, pa, pb);
    // stretch is -50: the force flips sign
    assert_eq!(ra.force, Vec2 { x: 250_000, y: 0 });
    assert_eq!(rb.force, Vec2 { x: -250_000, y: 0 });
}

#[test]
fn damping_term_follows_relative_velocity() {
    let s = Spring::new(0, 1, 150_000, 0, 1000);
    let pa = particle(0, 0);
    let mut pb = particle(150_000, 0);
    pb.vel = Vec2 { x: 1000, y: 0 };
    let (ra, rb) = spring_update(&s, pa, pb);
    // stiffness 0: only damping acts; rv . delta = 150_000_000,
    // damping_x = 150_000 * 1000 * 150_000_000 / (1000 * 150_000^2) = 1000
    assert_eq!(ra.force, Vec2 { x: -1000, y: 0 });
    assert_eq!(rb.force, Vec2 { x: 1000, y: 0 });
}

#[test]
fn spring_forces_accumulate_on_existing_force() {
    let s = Spring::new(0, 1, 100_000, 5000, 0);
    let mut pa = particle(0, 0);
    let mut pb = particle(150_000, 0);
    pa.force = Vec2 { x: 7, y: 8 };
    pb.force = Vec2 { x: -7, y: -8 };
    let (ra, rb) = spring_update(&s, pa, pb);
    assert_eq!(ra.force, Vec2 { x: 7 - 250_000, y: 8 });
    assert_eq!(rb.force, Vec2 { x: -7 + 250_000, y: -8 });
}
