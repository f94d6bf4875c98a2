//! Impulse-based resolution of a circle-circle collision.
//!
//! A pair of bodies collides when their discs overlap. The response changes
//! velocities only — there is no positional de-penetration, so an overlap
//! may persist until the separating motion resolves it. Pairs that do not
//! overlap, pairs already separating, and the degenerate coincident pair are
//! left exactly as they were.
//!
//! Working over the squared distance avoids the square root: the unit
//! normal `delta / d` and the speed along it `rv · delta / d` only ever
//! appear multiplied together, so one division by `d²` computes the
//! impulse exactly.

use vstd::prelude::*;
use crate::math::{div_trunc, tdiv, iabs, lemma_tdiv_mag, lemma_tdiv_mul_range, lemma_tdiv_shrink, SCALE};
use crate::vec2::Vec2;
use crate::body::{Body, VEL_LIMIT};

verus! {

/// Position bound under which the collision arithmetic is exact.
pub const COLLIDE_POS_LIMIT: i64 = 10_000_000_000;

/// No impulse component ever exceeds eight times the velocity bound.
pub const IMPULSE_LIMIT: i64 = 8_000_000_000_000;

/// The vector from `a`'s centre to `b`'s centre, x component.
pub open spec fn delta_x(a: Body, b: Body) -> int {
    b.pos.x - a.pos.x
}

/// The vector from `a`'s centre to `b`'s centre, y component.
pub open spec fn delta_y(a: Body, b: Body) -> int {
    b.pos.y - a.pos.y
}

/// The squared distance between the two centres.
pub open spec fn dist2(a: Body, b: Body) -> int {
    delta_x(a, b) * delta_x(a, b) + delta_y(a, b) * delta_y(a, b)
}

/// The sum of the two radii.
pub open spec fn sum_radii(a: Body, b: Body) -> int {
    a.radius + b.radius
}

/// Whether the discs overlap: distance strictly below the sum of radii.
pub open spec fn overlapping(a: Body, b: Body) -> bool {
    dist2(a, b) < sum_radii(a, b) * sum_radii(a, b)
}

/// The dot product of the relative velocity `b.vel - a.vel` with the centre
/// line `delta`. Its sign is the sign of the velocity along the collision
/// normal: positive when the bodies separate, negative when they approach.
pub open spec fn closing_dot(a: Body, b: Body) -> int {
    (b.vel.x - a.vel.x) * delta_x(a, b) + (b.vel.y - a.vel.y) * delta_y(a, b)
}

/// Whether the resolver applies an impulse: the discs overlap, the centres
/// do not coincide, and the bodies are not separating.
pub open spec fn collide_applies(a: Body, b: Body) -> bool {
    overlapping(a, b) && dist2(a, b) != 0 && closing_dot(a, b) <= 0
}

/// The common numerator factor of the impulse: `-(1 + e)` times the speed
/// along the normal, everything still scaled by the distance and the
/// fixed-point unit.
pub open spec fn impulse_num(a: Body, b: Body, e: int) -> int {
    -(SCALE + e) * closing_dot(a, b)
}

/// The impulse along x: the exact value of
/// `normal * (-(1 + e) * velocityAlongNormal)`, with both divisions by the
/// distance folded into one truncating division by `d²`.
pub open spec fn impulse_x(a: Body, b: Body, e: int) -> int {
    tdiv(delta_x(a, b) * impulse_num(a, b, e), SCALE * dist2(a, b))
}

/// The impulse along y.
pub open spec fn impulse_y(a: Body, b: Body, e: int) -> int {
    tdiv(delta_y(a, b) * impulse_num(a, b, e), SCALE * dist2(a, b))
}

/// What collision resolution does to a pair: each body's velocity changes
/// by the impulse over its own mass, equal and opposite; positions and all
/// other fields stay. Pairs to which the resolver does not apply stay
/// entirely.
pub open spec fn spec_collide(a: Body, b: Body, e: int) -> (Body, Body) {
    if collide_applies(a, b) {
        let ix = impulse_x(a, b, e);
        let iy = impulse_y(a, b, e);
        (
            Body {
                vel: Vec2 {
                    x: (a.vel.x - tdiv(ix, a.mass as int)) as i64,
                    y: (a.vel.y - tdiv(iy, a.mass as int)) as i64,
                },
                ..a
            },
            Body {
                vel: Vec2 {
                    x: (b.vel.x + tdiv(ix, b.mass as int)) as i64,
                    y: (b.vel.y + tdiv(iy, b.mass as int)) as i64,
                },
                ..b
            },
        )
    } else {
        (a, b)
    }
}

/// Both impulse components are bounded by twice the sum of the relative
/// speeds, so every velocity the resolver writes stays far inside `i64`.
pub proof fn lemma_impulse_bound(a: Body, b: Body, e: int)
    requires
        a.wf(),
        b.wf(),
        0 <= e <= SCALE,
        iabs(a.pos.x as int) <= COLLIDE_POS_LIMIT,
        iabs(a.pos.y as int) <= COLLIDE_POS_LIMIT,
        iabs(b.pos.x as int) <= COLLIDE_POS_LIMIT,
        iabs(b.pos.y as int) <= COLLIDE_POS_LIMIT,
        iabs(a.vel.x as int) <= VEL_LIMIT,
        iabs(a.vel.y as int) <= VEL_LIMIT,
        iabs(b.vel.x as int) <= VEL_LIMIT,
        iabs(b.vel.y as int) <= VEL_LIMIT,
        dist2(a, b) != 0,
    ensures
        -IMPULSE_LIMIT <= impulse_x(a, b, e) <= IMPULSE_LIMIT,
        -IMPULSE_LIMIT <= impulse_y(a, b, e) <= IMPULSE_LIMIT,
{
    let dx = delta_x(a, b);
    let dy = delta_y(a, b);
    let d2 = dist2(a, b);
    let den = SCALE * d2;
    let rvx = b.vel.x - a.vel.x;
    let rvy = b.vel.y - a.vel.y;
    let arvx = iabs(rvx);
    let arvy = iabs(rvy);
    let m = arvx + arvy;
    let van = closing_dot(a, b);
    let num = impulse_num(a, b, e);
    let s = SCALE + e;

    assert(d2 > 0 && dx * dx <= d2 && 2 * (dx * dy) <= d2 && 2 * (-(dx * dy)) <= d2
        && dy * dy <= d2) by (nonlinear_arith)
        requires
            d2 == dx * dx + dy * dy,
            d2 != 0,
    ;
    assert(dx * van == rvx * (dx * dx) + rvy * (dx * dy)) by (nonlinear_arith)
        requires
            van == rvx * dx + rvy * dy,
    ;
    assert(dy * van == rvx * (dy * dx) + rvy * (dy * dy)) by (nonlinear_arith)
        requires
            van == rvx * dx + rvy * dy,
    ;
    assert(dy * dx == dx * dy) by (nonlinear_arith);
    assert(-(2 * m * d2) <= 2 * (dx * van) <= 2 * m * d2) by (nonlinear_arith)
        requires
            dx * van == rvx * (dx * dx) + rvy * (dx * dy),
            0 <= dx * dx <= d2,
            2 * (dx * dy) <= d2,
            2 * (-(dx * dy)) <= d2,
            -arvx <= rvx <= arvx,
            -arvy <= rvy <= arvy,
            0 <= arvx,
            0 <= arvy,
            m == arvx + arvy,
            d2 > 0,
    ;
    assert(-(2 * m * d2) <= 2 * (dy * van) <= 2 * m * d2) by (nonlinear_arith)
        requires
            dy * van == rvx * (dx * dy) + rvy * (dy * dy),
            0 <= dy * dy <= d2,
            2 * (dx * dy) <= d2,
            2 * (-(dx * dy)) <= d2,
            -arvx <= rvx <= arvx,
            -arvy <= rvy <= arvy,
            0 <= arvx,
            0 <= arvy,
            m == arvx + arvy,
            d2 > 0,
    ;
    assert(dx * num == -s * (dx * van)) by (nonlinear_arith)
        requires
            num == -s * van,
    ;
    assert(dy * num == -s * (dy * van)) by (nonlinear_arith)
        requires
            num == -s * van,
    ;
    assert(-((2 * m) * den) <= dx * num <= (2 * m) * den) by (nonlinear_arith)
        requires
            SCALE <= s <= 2 * SCALE,
            -(2 * m * d2) <= 2 * (dx * van) <= 2 * m * d2,
            den == SCALE * d2,
            d2 > 0,
            m >= 0,
            dx * num == -s * (dx * van),
    ;
    assert(-((2 * m) * den) <= dy * num <= (2 * m) * den) by (nonlinear_arith)
        requires
            SCALE <= s <= 2 * SCALE,
            -(2 * m * d2) <= 2 * (dy * van) <= 2 * m * d2,
            den == SCALE * d2,
            d2 > 0,
            m >= 0,
            dy * num == -s * (dy * van),
    ;
    assert(den > 0) by (nonlinear_arith)
        requires
            den == SCALE * d2,
            d2 > 0,
    ;
    lemma_tdiv_mag(dx * num, den, 2 * m);
    lemma_tdiv_mag(dy * num, den, 2 * m);
}

/// Collisions conserve momentum. The two bodies receive equal and opposite
/// impulses, so on each axis the total momentum `m1·v1 + m2·v2` moves by
/// less than one velocity unit per unit of mass — the only loss is the
/// rounding of the two divisions by the masses — and for unit masses it is
/// conserved exactly, whatever the restitution.
pub proof fn lemma_momentum_conserved(a: Body, b: Body, e: int)
    requires
        a.wf(),
        b.wf(),
        0 <= e <= SCALE,
        iabs(a.pos.x as int) <= COLLIDE_POS_LIMIT,
        iabs(a.pos.y as int) <= COLLIDE_POS_LIMIT,
        iabs(b.pos.x as int) <= COLLIDE_POS_LIMIT,
        iabs(b.pos.y as int) <= COLLIDE_POS_LIMIT,
        iabs(a.vel.x as int) <= VEL_LIMIT,
        iabs(a.vel.y as int) <= VEL_LIMIT,
        iabs(b.vel.x as int) <= VEL_LIMIT,
        iabs(b.vel.y as int) <= VEL_LIMIT,
    ensures
        ({
            let r = spec_collide(a, b, e);
            &&& iabs(r.0.mass * r.0.vel.x + r.1.mass * r.1.vel.x
                - (a.mass * a.vel.x + b.mass * b.vel.x)) <= a.mass + b.mass - 2
            &&& iabs(r.0.mass * r.0.vel.y + r.1.mass * r.1.vel.y
                - (a.mass * a.vel.y + b.mass * b.vel.y)) <= a.mass + b.mass - 2
            &&& a.mass == 1 && b.mass == 1 ==> {
                &&& r.0.vel.x + r.1.vel.x == a.vel.x + b.vel.x
                &&& r.0.vel.y + r.1.vel.y == a.vel.y + b.vel.y
            }
        }),
{
    let r = spec_collide(a, b, e);
    let ma = a.mass as int;
    let mb = b.mass as int;
    if collide_applies(a, b) {
        lemma_impulse_bound(a, b, e);
        let ix = impulse_x(a, b, e);
        let iy = impulse_y(a, b, e);
        let tax = tdiv(ix, ma);
        let tay = tdiv(iy, ma);
        let tbx = tdiv(ix, mb);
        let tby = tdiv(iy, mb);
        lemma_tdiv_shrink(ix, ma);
        lemma_tdiv_shrink(iy, ma);
        lemma_tdiv_shrink(ix, mb);
        lemma_tdiv_shrink(iy, mb);
        assert(r.0.vel.x == a.vel.x - tax && r.0.vel.y == a.vel.y - tay
            && r.1.vel.x == b.vel.x + tbx && r.1.vel.y == b.vel.y + tby);
        lemma_tdiv_mul_range(ix, ma);
        lemma_tdiv_mul_range(iy, ma);
        lemma_tdiv_mul_range(ix, mb);
        lemma_tdiv_mul_range(iy, mb);
        assert(ma * (a.vel.x - tax) == ma * a.vel.x - ma * tax) by (nonlinear_arith);
        assert(ma * (a.vel.y - tay) == ma * a.vel.y - ma * tay) by (nonlinear_arith);
        assert(mb * (b.vel.x + tbx) == mb * b.vel.x + mb * tbx) by (nonlinear_arith);
        assert(mb * (b.vel.y + tby) == mb * b.vel.y + mb * tby) by (nonlinear_arith);
    } else {
        assert(iabs(0) == 0);
    }
}

/// Resolve one potential collision between two bodies, returning the pair
/// as it stands after the impulse (or untouched, when none applies).
pub fn resolve_collision(a: Body, b: Body, e_pair: i64) -> (r: (Body, Body))
    requires
        a.wf(),
        b.wf(),
        0 <= e_pair <= SCALE,
        iabs(a.pos.x as int) <= COLLIDE_POS_LIMIT,
        iabs(a.pos.y as int) <= COLLIDE_POS_LIMIT,
        iabs(b.pos.x as int) <= COLLIDE_POS_LIMIT,
        iabs(b.pos.y as int) <= COLLIDE_POS_LIMIT,
        iabs(a.vel.x as int) <= VEL_LIMIT,
        iabs(a.vel.y as int) <= VEL_LIMIT,
        iabs(b.vel.x as int) <= VEL_LIMIT,
        iabs(b.vel.y as int) <= VEL_LIMIT,
    ensures
        r == spec_collide(a, b, e_pair as int),
        dist2(a, b) >= sum_radii(a, b) * sum_radii(a, b) ==> r == (a, b),
        closing_dot(a, b) > 0 ==> r == (a, b),
        dist2(a, b) == 0 ==> r == (a, b),
        r.0.pos == a.pos && r.1.pos == b.pos,
        iabs(r.0.vel.x as int) <= VEL_LIMIT + IMPULSE_LIMIT,
        iabs(r.0.vel.y as int) <= VEL_LIMIT + IMPULSE_LIMIT,
        iabs(r.1.vel.x as int) <= VEL_LIMIT + IMPULSE_LIMIT,
        iabs(r.1.vel.y as int) <= VEL_LIMIT + IMPULSE_LIMIT,
{
    let delta: Vec2 = b.pos.sub(a.pos);
    let d2: i128 = delta.mag2();
    let sr: i64 = a.radius + b.radius;
    proof {
        assert((sr as int) * (sr as int) <= i128::MAX) by (nonlinear_arith)
            requires
                0 < sr <= 2_000_000_000,
        ;
    }
    let sr2: i128 = (sr as i128) * (sr as i128);
    if d2 >= sr2 {
        return (a, b);
    }
    if d2 == 0 {
        return (a, b);
    }
    let rv: Vec2 = b.vel.sub(a.vel);
    let van: i128 = rv.dot(delta);
    if van > 0 {
        return (a, b);
    }
    proof {
        assert(0 < d2 <= 800_000_000_000_000_000_000) by (nonlinear_arith)
            requires
                d2 == (delta.x as int) * (delta.x as int) + (delta.y as int) * (delta.y as int),
                d2 != 0,
                -20_000_000_000 <= delta.x <= 20_000_000_000,
                -20_000_000_000 <= delta.y <= 20_000_000_000,
        ;
        assert(-80_000_000_000_000_000_000_000 <= (rv.x as int) * (delta.x as int)
            + (rv.y as int) * (delta.y as int) <= 80_000_000_000_000_000_000_000)
            by (nonlinear_arith)
            requires
                -2_000_000_000_000 <= rv.x <= 2_000_000_000_000,
                -2_000_000_000_000 <= rv.y <= 2_000_000_000_000,
                -20_000_000_000 <= delta.x <= 20_000_000_000,
                -20_000_000_000 <= delta.y <= 20_000_000_000,
        ;
        assert(0 <= (-((SCALE + e_pair) as int)) * van <= 160_000_000_000_000_000_000_000_000)
            by (nonlinear_arith)
            requires
                1000 <= SCALE + e_pair <= 2000,
                -80_000_000_000_000_000_000_000 <= van <= 0,
        ;
        assert((SCALE as int) * d2 <= i128::MAX) by (nonlinear_arith)
            requires
                0 < d2 <= 800_000_000_000_000_000_000,
        ;
    }
    let num: i128 = -((SCALE + e_pair) as i128) * van;
    let den: i128 = (SCALE as i128) * d2;
    proof {
        assert(den > 0) by (nonlinear_arith)
            requires
                d2 > 0,
                den == (SCALE as int) * d2,
        ;
        assert((delta.x as int) * num <= i128::MAX && (delta.x as int) * num >= i128::MIN + 1
            && (delta.y as int) * num <= i128::MAX && (delta.y as int) * num >= i128::MIN + 1)
            by (nonlinear_arith)
            requires
                -20_000_000_000 <= delta.x <= 20_000_000_000,
                -20_000_000_000 <= delta.y <= 20_000_000_000,
                0 <= num <= 160_000_000_000_000_000_000_000_000,
        ;
        lemma_impulse_bound(a, b, e_pair as int);
    }
    let ix128: i128 = div_trunc((delta.x as i128) * num, den);
    let iy128: i128 = div_trunc((delta.y as i128) * num, den);
    proof {
        lemma_tdiv_shrink(ix128 as int, a.mass as int);
        lemma_tdiv_shrink(iy128 as int, a.mass as int);
        lemma_tdiv_shrink(ix128 as int, b.mass as int);
        lemma_tdiv_shrink(iy128 as int, b.mass as int);
    }
    let dvax: i64 = div_trunc(ix128, a.mass as i128) as i64;
    let dvay: i64 = div_trunc(iy128, a.mass as i128) as i64;
    let dvbx: i64 = div_trunc(ix128, b.mass as i128) as i64;
    let dvby: i64 = div_trunc(iy128, b.mass as i128) as i64;
    let ra: Body = Body {
        vel: Vec2 { x: a.vel.x - dvax, y: a.vel.y - dvay },
        ..a
    };
    let rb: Body = Body {
        vel: Vec2 { x: b.vel.x + dvbx, y: b.vel.y + dvby },
        ..b
    };
    (ra, rb)
}

} // verus!

