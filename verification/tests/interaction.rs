use physics2d::body::Body;
use physics2d::interact::{pointer_over, throw_force, TrajectoryBuffer};
use physics2d::vec2::Vec2;

#[test]
fn buffer_starts_empty_and_fills_in_order() {
    let mut tb = TrajectoryBuffer::new();
    assert_eq!(tb.len(), 0);
    tb.push(Vec2::new(1, 2));
    tb.push(Vec2::new(3, 4));
    assert_eq!(tb.len(), 2);
    assert_eq!(tb.first(), Vec2 { x: 1, y: 2 });
    assert_eq!(tb.last(), Vec2 { x: 3, y: 4 });
}

#[test]
fn buffer_caps_at_twenty_dropping_the_oldest() {
    let mut tb = TrajectoryBuffer::new();
    for i in 0..25i64 {
        tb.push(Vec2::new(i * 1000, i * 1000));
    }
    assert_eq!(tb.len(), 20);
    // the oldest five samples are gone and the order of the rest is kept
    for k in 0..20usize {
        let expected = (k as i64 + 5) * 1000;
        assert_eq!(tb.sample_at(k), Vec2 { x: expected, y: expected });
    }
    assert_eq!(tb.first(), Vec2 { x: 5000, y: 5000 });
    assert_eq!(tb.last(), Vec2 { x: 24_000, y: 24_000 });
}

#[test]
fn buffer_clear_empties_it() {
    let mut tb = TrajectoryBuffer::new();
    tb.push(Vec2::new(9, 9));
    tb.clear();
    assert_eq!(tb.len(), 0);
}

#[test]
fn throw_opposes_the_drag_vector() {
    // pointer moved +10 px on x: first (0,0), last (10,0);
    // push = first - last = (-10, 0), negated (10, 0), scaled by 2000
    let mut tb = TrajectoryBuffer::new();
    tb.push(Vec2::new(0, 0));
    tb.push(Vec2::new(10_000, 0));
    let f = throw_force(&tb);
    assert_eq!(f, Vec2 { x: 20_000_000, y: 0 });
}

#[test]
fn throw_uses_only_the_ends_of_the_gesture() {
    let mut tb = TrajectoryBuffer::new();
    tb.push(Vec2::new(2000, 3000));
    tb.push(Vec2::new(-999_000, 500_000));
    tb.push(Vec2::new(5000, 1000));
    let f = throw_force(&tb);
    assert_eq!(f, Vec2 { x: (5000 - 2000) * 2000, y: (1000 - 3000) * 2000 });
}

#[test]
fn single_sample_throws_nothing() {
    let mut tb = TrajectoryBuffer::new();
    tb.push(Vec2::new(77_000, 88_000));
    let f = throw_force(&tb);
    assert_eq!(f, Vec2 { x: 0, y: 0 });
}

#[test]
fn pointer_hit_test_is_a_strict_square() {
    let b = Body::new(50_000, 50_000, 10_000, 0, 1000, 700, 1);
    assert!(pointer_over(&b, Vec2::new(50_000, 50_000)));
    assert!(pointer_over(&b, Vec2::new(45_000, 55_000)));
    // the square's corner is inside the box but outside the circle: the
    // hit test is deliberately axis-aligned, not circular
    assert!(pointer_over(&b, Vec2::new(59_000, 59_000)));
    // the edges themselves do not count
    assert!(!pointer_over(&b, Vec2::new(60_000, 50_000)));
    assert!(!pointer_over(&b, Vec2::new(50_000, 40_000)));
    assert!(!pointer_over(&b, Vec2::new(75_000, 50_000)));
}
