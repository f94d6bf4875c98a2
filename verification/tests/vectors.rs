use physics2d::vec2::Vec2;
use physics2d::math::{div_trunc, isqrt, muldiv};

#[test]
fn vector_add_and_sub() {
    let a = Vec2::new(1, 2);
    let b = Vec2::new(3, 4);
    let s = a.add(b);
    assert_eq!(s.x, 4);
    assert_eq!(s.y, 6);
    let d = b.sub(a);
    assert_eq!(d.x, 2);
    assert_eq!(d.y, 2);
}

#[test]
fn vector_neg_and_scale() {
    let v = Vec2::new(3, -2);
    let n = v.neg();
    assert_eq!(n.x, -3);
    assert_eq!(n.y, 2);
    let s = v.scale(2000);
    assert_eq!(s.x, 6000);
    assert_eq!(s.y, -4000);
}

#[test]
fn scale_div_rounds_toward_zero() {
    let v = Vec2::new(7, -7);
    let h = v.scale_div(1, 2);
    assert_eq!(h.x, 3);
    assert_eq!(h.y, -3);
}

#[test]
fn elementwise_product_and_quotient() {
    let v = Vec2::new(10, -9);
    let m = v.mul_elem(Vec2::new(2, 3));
    assert_eq!(m.x, 20);
    assert_eq!(m.y, -27);
    let q = v.div_elem(Vec2::new(3, 3));
    assert_eq!(q.x, 3);
    assert_eq!(q.y, -3);
}

#[test]
fn dot_product() {
    let a = Vec2::new(3, 4);
    let b = Vec2::new(2, 1);
    assert_eq!(a.dot(b), 10);
    assert_eq!(a.mag2(), 25);
}

#[test]
fn magnitude_of_pythagorean_triple() {
    let v = Vec2::new(3000, 4000);
    assert_eq!(v.magnitude(), 5000);
}

#[test]
fn magnitude_rounds_down() {
    let v = Vec2::new(1000, 1000);
    assert_eq!(v.magnitude(), 1414);
}

#[test]
fn distance_between_points() {
    let a = Vec2::new(1000, 2000);
    let b = Vec2::new(4000, 6000);
    assert_eq!(a.dist(b), 5000);
    assert_eq!(b.dist(a), 5000);
}

#[test]
fn isqrt_exact_and_rounded() {
    assert_eq!(isqrt(0), 0);
    assert_eq!(isqrt(1), 1);
    assert_eq!(isqrt(3), 1);
    assert_eq!(isqrt(4), 2);
    assert_eq!(isqrt(999999), 999);
    assert_eq!(isqrt(1000000), 1000);
    assert_eq!(isqrt(u64::MAX), 4294967295);
}

#[test]
fn division_truncates_toward_zero() {
    assert_eq!(div_trunc(7, 2), 3);
    assert_eq!(div_trunc(-7, 2), -3);
    assert_eq!(div_trunc(0, 5), 0);
    assert_eq!(muldiv(-5, 3, 10), -1);
    assert_eq!(muldiv(5, 3, 10), 1);
    assert_eq!(muldiv(1000, 1000, 1000), 1000);
}
