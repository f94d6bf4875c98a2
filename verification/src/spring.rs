//! Spring constraints between two bodies.
//!
//! A spring connects two bodies by index, with a rest length, a stiffness
//! and a damping coefficient. Each step it adds a Hooke's-law force plus a
//! damping force along the connecting axis to the two bodies' force
//! accumulators, equal and opposite; it never moves a body itself, so the
//! force is consumed by the next integration.
//!
//! The Hooke term needs the true distance, so the integer square root
//! appears here; the damping term's two divisions by the distance fold into
//! one division by the squared distance, which is exact.

use vstd::prelude::*;
use crate::math::{div_trunc, muldiv, tdiv, iabs, sqrt_floor, lemma_sqrt_floor_bounds, lemma_tdiv_mag, SCALE};
use crate::vec2::Vec2;
use crate::body::{Body, COORD_LIMIT, VEL_LIMIT};
use crate::collision::{delta_x, delta_y, dist2, closing_dot};

verus! {

/// Largest stiffness or damping coefficient, in thousandths.
pub const STIFF_LIMIT: i64 = 1_000_000;

/// Largest rest length of a spring.
pub const REST_LIMIT: i64 = 1_000_000_000;

/// Bound on one spring's force contribution per axis and step.
pub const SPRING_FORCE_BOUND: i64 = 4_100_000_000_000_000_000;

/// A force accumulator below this bound can safely take one more spring
/// contribution.
pub const SPRING_ACCUM_LIMIT: i64 = 4_000_000_000_000_000_000;

/// A spring between the bodies at indices `a` and `b` of the simulation's
/// body collection. Created once at setup and immutable afterwards.
#[derive(Clone, Copy, PartialEq, Eq, Structural, Debug)]
pub struct Spring {
    pub a: usize,
    pub b: usize,
    pub rest_length: i64,
    pub stiffness: i64,
    pub damping: i64,
}

impl Spring {
    /// Structural validity: distinct endpoints, a positive rest length, and
    /// bounded nonnegative coefficients.
    pub open spec fn wf(self) -> bool {
        &&& self.a != self.b
        &&& 0 < self.rest_length <= REST_LIMIT
        &&& 0 <= self.stiffness <= STIFF_LIMIT
        &&& 0 <= self.damping <= STIFF_LIMIT
    }

    /// Validity against a body collection of length `n`: both endpoints in
    /// range.
    pub open spec fn wf_for(self, n: int) -> bool {
        self.wf() && self.a < n && self.b < n
    }

    pub fn new(a: usize, b: usize, rest_length: i64, stiffness: i64, damping: i64) -> (r: Spring)
        requires
            a != b,
            0 < rest_length <= REST_LIMIT,
            0 <= stiffness <= STIFF_LIMIT,
            0 <= damping <= STIFF_LIMIT,
        ensures
            r == (Spring { a, b, rest_length, stiffness, damping }),
            r.wf(),
    {
        Spring { a, b, rest_length, stiffness, damping }
    }
}

/// The distance between the two endpoint bodies, rounded down to a whole
/// fixed-point unit.
pub open spec fn spring_dist(pa: Body, pb: Body) -> int {
    sqrt_floor(dist2(pa, pb) as nat) as int
}

/// The stretch: distance minus rest length, negative when compressed.
pub open spec fn stretch(s: Spring, pa: Body, pb: Body) -> int {
    spring_dist(pa, pb) - s.rest_length
}

/// The Hooke's-law term along x: `normal * (stiffness * stretch)`, the two
/// divisions (by the distance for the normal, by the fixed-point unit for
/// the coefficient) folded into one truncating division.
pub open spec fn hooke_force_x(s: Spring, pa: Body, pb: Body) -> int {
    tdiv(delta_x(pa, pb) * (s.stiffness * stretch(s, pa, pb)), SCALE * spring_dist(pa, pb))
}

/// The Hooke's-law term along y.
pub open spec fn hooke_force_y(s: Spring, pa: Body, pb: Body) -> int {
    tdiv(delta_y(pa, pb) * (s.stiffness * stretch(s, pa, pb)), SCALE * spring_dist(pa, pb))
}

/// The damping term along x: `normal * (damping * (rv · normal))`; the two
/// divisions by the distance fold into one exact division by the squared
/// distance.
pub open spec fn damping_force_x(s: Spring, pa: Body, pb: Body) -> int {
    tdiv(delta_x(pa, pb) * (s.damping * closing_dot(pa, pb)), SCALE * dist2(pa, pb))
}

/// The damping term along y.
pub open spec fn damping_force_y(s: Spring, pa: Body, pb: Body) -> int {
    tdiv(delta_y(pa, pb) * (s.damping * closing_dot(pa, pb)), SCALE * dist2(pa, pb))
}

/// The whole force the spring exerts this step, along x.
pub open spec fn spring_total_x(s: Spring, pa: Body, pb: Body) -> int {
    hooke_force_x(s, pa, pb) + damping_force_x(s, pa, pb)
}

/// The whole force the spring exerts this step, along y.
pub open spec fn spring_total_y(s: Spring, pa: Body, pb: Body) -> int {
    hooke_force_y(s, pa, pb) + damping_force_y(s, pa, pb)
}

/// What one spring update does: the total force is added to body `b`'s
/// accumulator and subtracted from body `a`'s — equal and opposite. A
/// coincident pair is degenerate and is left untouched.
pub open spec fn spec_spring_update(s: Spring, pa: Body, pb: Body) -> (Body, Body) {
    if dist2(pa, pb) == 0 {
        (pa, pb)
    } else {
        let tx = spring_total_x(s, pa, pb);
        let ty = spring_total_y(s, pa, pb);
        (
            Body {
                force: Vec2 { x: (pa.force.x - tx) as i64, y: (pa.force.y - ty) as i64 },
                ..pa
            },
            Body {
                force: Vec2 { x: (pb.force.x + tx) as i64, y: (pb.force.y + ty) as i64 },
                ..pb
            },
        )
    }
}

/// The spring's force stays within `SPRING_FORCE_BOUND` on both axes
/// whenever the endpoints are within nominal position and velocity ranges.
pub proof fn lemma_spring_force_bound(s: Spring, pa: Body, pb: Body)
    requires
        s.wf(),
        iabs(pa.pos.x as int) <= COORD_LIMIT,
        iabs(pa.pos.y as int) <= COORD_LIMIT,
        iabs(pb.pos.x as int) <= COORD_LIMIT,
        iabs(pb.pos.y as int) <= COORD_LIMIT,
        iabs(pa.vel.x as int) <= VEL_LIMIT,
        iabs(pa.vel.y as int) <= VEL_LIMIT,
        iabs(pb.vel.x as int) <= VEL_LIMIT,
        iabs(pb.vel.y as int) <= VEL_LIMIT,
        dist2(pa, pb) != 0,
    ensures
        1 <= spring_dist(pa, pb) <= 2_900_000_000,
        iabs(s.stiffness * stretch(s, pa, pb)) <= 4_000_000_000_000_000,
        iabs(hooke_force_x(s, pa, pb)) <= 4_000_000_000_000_000,
        iabs(hooke_force_y(s, pa, pb)) <= 4_000_000_000_000_000,
        iabs(damping_force_x(s, pa, pb)) <= 4_000_000_000_000_000_000,
        iabs(damping_force_y(s, pa, pb)) <= 4_000_000_000_000_000_000,
        iabs(spring_total_x(s, pa, pb)) <= SPRING_FORCE_BOUND,
        iabs(spring_total_y(s, pa, pb)) <= SPRING_FORCE_BOUND,
{
    let dx = delta_x(pa, pb);
    let dy = delta_y(pa, pb);
    let d2 = dist2(pa, pb);
    assert(0 < d2 <= 8_000_000_000_000_000_000 && dx * dx <= d2 && dy * dy <= d2
        && 2 * (dx * dy) <= d2 && 2 * (-(dx * dy)) <= d2) by (nonlinear_arith)
        requires
            d2 == dx * dx + dy * dy,
            d2 != 0,
            -2_000_000_000 <= dx <= 2_000_000_000,
            -2_000_000_000 <= dy <= 2_000_000_000,
    ;
    lemma_sqrt_floor_bounds(d2 as nat);
    let dn = sqrt_floor(d2 as nat);
    let d = spring_dist(pa, pb);
    if dn == 0 {
        assert((dn + 1) * (dn + 1) == 1) by (nonlinear_arith)
            requires
                dn == 0,
        ;
        assert(false);
    }
    assert(1 <= d && d * d <= d2 && d2 < (d + 1) * (d + 1));
    assert(d <= 2_900_000_000 && -d <= dx <= d && -d <= dy <= d && d2 <= 3 * (d * d))
        by (nonlinear_arith)
        requires
            1 <= d,
            d * d <= d2 <= 8_000_000_000_000_000_000,
            d2 < (d + 1) * (d + 1),
            dx * dx <= d2,
            dy * dy <= d2,
    ;
    let kst = s.stiffness * stretch(s, pa, pb);
    let akst = iabs(kst);
    assert(akst <= 4_000_000_000_000_000) by (nonlinear_arith)
        requires
            kst == s.stiffness * (d - s.rest_length),
            0 <= s.stiffness <= STIFF_LIMIT,
            0 < s.rest_length <= REST_LIMIT,
            1 <= d <= 2_900_000_000,
            akst == iabs(kst),
            akst == if kst >= 0 { kst } else { -kst },
    ;
    assert(-(akst * (SCALE * d)) <= dx * kst <= akst * (SCALE * d)
        && -(akst * (SCALE * d)) <= dy * kst <= akst * (SCALE * d)) by (nonlinear_arith)
        requires
            -d <= dx <= d,
            -d <= dy <= d,
            -akst <= kst <= akst,
            0 <= akst,
            1 <= d,
            SCALE == 1000,
    ;
    assert(SCALE * d > 0) by (nonlinear_arith)
        requires
            d >= 1,
            SCALE == 1000,
    ;
    lemma_tdiv_mag(dx * kst, SCALE * d, akst);
    lemma_tdiv_mag(dy * kst, SCALE * d, akst);

    let rvx = pb.vel.x - pa.vel.x;
    let rvy = pb.vel.y - pa.vel.y;
    let arvx = iabs(rvx);
    let arvy = iabs(rvy);
    let m = arvx + arvy;
    let vd = closing_dot(pa, pb);
    let c = s.damping as int;
    assert(dx * vd == rvx * (dx * dx) + rvy * (dx * dy)) by (nonlinear_arith)
        requires
            vd == rvx * dx + rvy * dy,
    ;
    assert(dy * vd == rvx * (dx * dy) + rvy * (dy * dy)) by (nonlinear_arith)
        requires
            vd == rvx * dx + rvy * dy,
            dy * dx == dx * dy,
    ;
    assert(dy * dx == dx * dy) by (nonlinear_arith);
    assert(-(m * d2) <= dx * vd <= m * d2 && -(m * d2) <= dy * vd <= m * d2)
        by (nonlinear_arith)
        requires
            dx * vd == rvx * (dx * dx) + rvy * (dx * dy),
            dy * vd == rvx * (dx * dy) + rvy * (dy * dy),
            0 <= dx * dx <= d2,
            0 <= dy * dy <= d2,
            2 * (dx * dy) <= d2,
            2 * (-(dx * dy)) <= d2,
            -arvx <= rvx <= arvx,
            -arvy <= rvy <= arvy,
            0 <= arvx,
            0 <= arvy,
            m == arvx + arvy,
            d2 > 0,
    ;
    assert(dx * (c * vd) == c * (dx * vd) && dy * (c * vd) == c * (dy * vd))
        by (nonlinear_arith);
    assert(-((c * m) * (SCALE * d2)) <= dx * (c * vd) <= (c * m) * (SCALE * d2)
        && -((c * m) * (SCALE * d2)) <= dy * (c * vd) <= (c * m) * (SCALE * d2))
        by (nonlinear_arith)
        requires
            dx * (c * vd) == c * (dx * vd),
            dy * (c * vd) == c * (dy * vd),
            -(m * d2) <= dx * vd <= m * d2,
            -(m * d2) <= dy * vd <= m * d2,
            0 <= c,
            0 <= m,
            d2 > 0,
            SCALE == 1000,
    ;
    assert(SCALE * d2 > 0) by (nonlinear_arith)
        requires
            d2 > 0,
            SCALE == 1000,
    ;
    assert(c * m <= 4_000_000_000_000_000_000) by (nonlinear_arith)
        requires
            0 <= c <= STIFF_LIMIT,
            0 <= m <= 4_000_000_000_000,
    ;
    lemma_tdiv_mag(dx * (c * vd), SCALE * d2, c * m);
    lemma_tdiv_mag(dy * (c * vd), SCALE * d2, c * m);
}

/// Apply one spring update to its two endpoint bodies, returning them with
/// the spring's force added to `b` and subtracted from `a`.
pub fn spring_update(s: &Spring, pa: Body, pb: Body) -> (r: (Body, Body))
    requires
        s.wf(),
        iabs(pa.pos.x as int) <= COORD_LIMIT,
        iabs(pa.pos.y as int) <= COORD_LIMIT,
        iabs(pb.pos.x as int) <= COORD_LIMIT,
        iabs(pb.pos.y as int) <= COORD_LIMIT,
        iabs(pa.vel.x as int) <= VEL_LIMIT,
        iabs(pa.vel.y as int) <= VEL_LIMIT,
        iabs(pb.vel.x as int) <= VEL_LIMIT,
        iabs(pb.vel.y as int) <= VEL_LIMIT,
        iabs(pa.force.x as int) <= SPRING_ACCUM_LIMIT,
        iabs(pa.force.y as int) <= SPRING_ACCUM_LIMIT,
        iabs(pb.force.x as int) <= SPRING_ACCUM_LIMIT,
        iabs(pb.force.y as int) <= SPRING_ACCUM_LIMIT,
    ensures
        r == spec_spring_update(*s, pa, pb),
        dist2(pa, pb) == 0 ==> r == (pa, pb),
        spring_dist(pa, pb) == s.rest_length && pa.vel == pb.vel ==> r == (pa, pb),
        r.0.pos == pa.pos && r.0.vel == pa.vel,
        r.1.pos == pb.pos && r.1.vel == pb.vel,
        iabs(r.0.force.x as int) <= SPRING_ACCUM_LIMIT + SPRING_FORCE_BOUND,
        iabs(r.0.force.y as int) <= SPRING_ACCUM_LIMIT + SPRING_FORCE_BOUND,
        iabs(r.1.force.x as int) <= SPRING_ACCUM_LIMIT + SPRING_FORCE_BOUND,
        iabs(r.1.force.y as int) <= SPRING_ACCUM_LIMIT + SPRING_FORCE_BOUND,
{
    let delta: Vec2 = pb.pos.sub(pa.pos);
    let d2: i128 = delta.mag2();
    if d2 == 0 {
        return (pa, pb);
    }
    proof {
        lemma_spring_force_bound(*s, pa, pb);
    }
    let d: i64 = delta.magnitude();
    let st: i64 = d - s.rest_length;
    proof {
        assert(s.stiffness * st <= 4_000_000_000_000_000
            && -4_000_000_000_000_000 <= s.stiffness * st) by (nonlinear_arith)
            requires
                0 <= s.stiffness <= STIFF_LIMIT,
                -REST_LIMIT <= st <= 3_000_000_000,
        ;
        assert(0 < SCALE * d <= 2_900_000_000_000) by (nonlinear_arith)
            requires
                1 <= d <= 2_900_000_000,
                SCALE == 1000,
        ;
    }
    let kst: i64 = s.stiffness * st;
    let den_h: i64 = SCALE * d;
    let hx: i64 = muldiv(delta.x, kst, den_h);
    let hy: i64 = muldiv(delta.y, kst, den_h);

    let rv: Vec2 = pb.vel.sub(pa.vel);
    let vd: i128 = rv.dot(delta);
    proof {
        assert(0 < d2 <= 8_000_000_000_000_000_000) by (nonlinear_arith)
            requires
                d2 == (delta.x as int) * (delta.x as int) + (delta.y as int) * (delta.y as int),
                d2 != 0,
                -2_000_000_000 <= delta.x <= 2_000_000_000,
                -2_000_000_000 <= delta.y <= 2_000_000_000,
        ;
        assert(-8_000_000_000_000_000_000_000 <= (rv.x as int) * (delta.x as int)
            + (rv.y as int) * (delta.y as int) <= 8_000_000_000_000_000_000_000)
            by (nonlinear_arith)
            requires
                -2_000_000_000_000 <= rv.x <= 2_000_000_000_000,
                -2_000_000_000_000 <= rv.y <= 2_000_000_000_000,
                -2_000_000_000 <= delta.x <= 2_000_000_000,
                -2_000_000_000 <= delta.y <= 2_000_000_000,
        ;
        assert({
            let cvd = (s.damping as int) * vd;
            -8_000_000_000_000_000_000_000_000_000 <= cvd <= 8_000_000_000_000_000_000_000_000_000
            && (delta.x as int) * cvd <= i128::MAX && (delta.x as int) * cvd >= i128::MIN + 1
            && (delta.y as int) * cvd <= i128::MAX && (delta.y as int) * cvd >= i128::MIN + 1
        }) by (nonlinear_arith)
            requires
                0 <= s.damping <= STIFF_LIMIT,
                -8_000_000_000_000_000_000_000 <= vd <= 8_000_000_000_000_000_000_000,
                -2_000_000_000 <= delta.x <= 2_000_000_000,
                -2_000_000_000 <= delta.y <= 2_000_000_000,
        ;
        assert((SCALE as int) * d2 <= i128::MAX && (SCALE as int) * d2 > 0) by (nonlinear_arith)
            requires
                0 < d2 <= 8_000_000_000_000_000_000,
        ;
    }
    let cvd: i128 = (s.damping as i128) * vd;
    let den_d: i128 = (SCALE as i128) * d2;
    let fx: i64 = div_trunc((delta.x as i128) * cvd, den_d) as i64;
    let fy: i64 = div_trunc((delta.y as i128) * cvd, den_d) as i64;

    let tx: i64 = hx + fx;
    let ty: i64 = hy + fy;
    let ra: Body = Body {
        force: Vec2 { x: pa.force.x - tx, y: pa.force.y - ty },
        ..pa
    };
    let rb: Body = Body {
        force: Vec2 { x: pb.force.x + tx, y: pb.force.y + ty },
        ..pb
    };
    proof {
        if spring_dist(pa, pb) == s.rest_length && pa.vel == pb.vel {
            let sd = spring_dist(pa, pb);
            let dd2 = dist2(pa, pb);
            assert(stretch(*s, pa, pb) == 0);
            assert(s.stiffness * stretch(*s, pa, pb) == 0
                && delta_x(pa, pb) * (s.stiffness * stretch(*s, pa, pb)) == 0
                && delta_y(pa, pb) * (s.stiffness * stretch(*s, pa, pb)) == 0)
                by (nonlinear_arith)
                requires
                    stretch(*s, pa, pb) == 0,
            ;
            assert(closing_dot(pa, pb) == 0) by (nonlinear_arith)
                requires
                    closing_dot(pa, pb) == (pb.vel.x - pa.vel.x) * (pb.pos.x - pa.pos.x)
                        + (pb.vel.y - pa.vel.y) * (pb.pos.y - pa.pos.y),
                    pb.vel.x == pa.vel.x,
                    pb.vel.y == pa.vel.y,
            ;
            assert(s.damping * closing_dot(pa, pb) == 0
                && delta_x(pa, pb) * (s.damping * closing_dot(pa, pb)) == 0
                && delta_y(pa, pb) * (s.damping * closing_dot(pa, pb)) == 0)
                by (nonlinear_arith)
                requires
                    closing_dot(pa, pb) == 0,
            ;
            assert(SCALE * sd > 0 && SCALE * dd2 > 0) by (nonlinear_arith)
                requires
                    sd >= 1,
                    dd2 > 0,
                    SCALE == 1000,
            ;
            crate::math::lemma_tdiv_zero(SCALE * sd);
            crate::math::lemma_tdiv_zero(SCALE * dd2);
        }
    }
    (ra, rb)
}

} // verus!
