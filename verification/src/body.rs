//! A simulated body: a point mass with a collision radius.
//!
//! The per-body physics of one frame lives here: gravity, floor friction,
//! semi-implicit Euler integration, and reflection off the region's edges.
//! Each step is stated exactly by a spec function of the same name, and the
//! executable method proves it computes that function.

use vstd::prelude::*;
use crate::math::{muldiv, tdiv, iabs, lemma_tdiv_scaled_bound, lemma_tdiv_shrink, SCALE};
use crate::vec2::Vec2;

verus! {

/// Downward acceleration: 9.8 m/s² at 100 pixels per metre, in thousandths
/// of a pixel per second, per second.
pub const GRAVITY: i64 = 980_000;

/// Largest timestep one frame may integrate, in milliseconds.
pub const DT_LIMIT: i64 = 1000;

/// Nominal bound on position components (a million pixels).
pub const COORD_LIMIT: i64 = 1_000_000_000;

/// Nominal bound on velocity components (a million pixels per second).
pub const VEL_LIMIT: i64 = 1_000_000_000_000;

/// Nominal bound on accumulated force components.
pub const FORCE_LIMIT: i64 = 1_000_000_000_000_000;

/// Largest radius of a body (a million pixels).
pub const RADIUS_LIMIT: i64 = 1_000_000_000;

/// Largest mass of a body.
pub const MASS_LIMIT: i64 = 1_000_000;

/// Bound within which one frame's intermediate values always stay, however
/// the nominal quantities combine.
pub const STAGE_LIMIT: i64 = 1_000_000_000_000_000_000;

/// One simulated body: a disc of positive radius and mass, with a force
/// accumulator that integration consumes and a flag marking direct pointer
/// control.
#[derive(Clone, Copy, PartialEq, Eq, Structural, Debug)]
pub struct Body {
    pub pos: Vec2,
    pub vel: Vec2,
    pub force: Vec2,
    pub radius: i64,
    pub mass: i64,
    pub restitution: i64,
    pub friction: i64,
    pub tag: u32,
    pub grabbed: bool,
}

impl Body {
    /// Structural validity: positive radius and mass, coefficients between
    /// zero and one. Every constructor establishes it and every step keeps
    /// it, since no step touches these fields.
    pub open spec fn wf(self) -> bool {
        &&& 0 < self.radius <= RADIUS_LIMIT
        &&& 0 < self.mass <= MASS_LIMIT
        &&& 0 <= self.restitution <= SCALE
        &&& 0 <= self.friction <= SCALE
    }

    /// The ranges within which a body is expected to stay from frame to
    /// frame. A frame's arithmetic is exact for every body inside them.
    pub open spec fn in_nominal_range(self) -> bool {
        &&& iabs(self.pos.x as int) <= COORD_LIMIT
        &&& iabs(self.pos.y as int) <= COORD_LIMIT
        &&& iabs(self.vel.x as int) <= VEL_LIMIT
        &&& iabs(self.vel.y as int) <= VEL_LIMIT
        &&& iabs(self.force.x as int) <= FORCE_LIMIT
        &&& iabs(self.force.y as int) <= FORCE_LIMIT
    }

    /// Loose ranges that hold of every intermediate value within one frame.
    pub open spec fn in_stage_range(self) -> bool {
        &&& iabs(self.pos.x as int) <= STAGE_LIMIT
        &&& iabs(self.pos.y as int) <= STAGE_LIMIT
        &&& iabs(self.vel.x as int) <= STAGE_LIMIT
        &&& iabs(self.vel.y as int) <= STAGE_LIMIT
        &&& iabs(self.force.x as int) <= STAGE_LIMIT
        &&& iabs(self.force.y as int) <= STAGE_LIMIT
    }

    /// A body at rest, not grabbed, with an empty force accumulator.
    pub fn new(x: i64, y: i64, radius: i64, tag: u32, friction: i64, restitution: i64, mass: i64) -> (r: Body)
        requires
            -COORD_LIMIT <= x <= COORD_LIMIT,
            -COORD_LIMIT <= y <= COORD_LIMIT,
            0 < radius <= RADIUS_LIMIT,
            0 < mass <= MASS_LIMIT,
            0 <= restitution <= SCALE,
            0 <= friction <= SCALE,
        ensures
            r == (Body {
                pos: Vec2 { x, y },
                vel: Vec2 { x: 0, y: 0 },
                force: Vec2 { x: 0, y: 0 },
                radius,
                mass,
                restitution,
                friction,
                tag,
                grabbed: false,
            }),
            r.wf(),
            r.in_nominal_range(),
    {
        Body {
            pos: Vec2 { x, y },
            vel: Vec2 { x: 0, y: 0 },
            force: Vec2 { x: 0, y: 0 },
            radius,
            mass,
            restitution,
            friction,
            tag,
            grabbed: false,
        }
    }

    /// What gravity does in one frame: the vertical velocity gains
    /// `GRAVITY * dt` milliseconds' worth of downward speed.
    pub open spec fn spec_gravity(self, dt: int) -> Body {
        Body {
            vel: Vec2 {
                x: self.vel.x,
                y: (self.vel.y + tdiv(GRAVITY * dt, SCALE as int)) as i64,
            },
            ..self
        }
    }

    /// Accelerate downward for `dt` milliseconds.
    pub fn apply_gravity(&mut self, dt: i64)
        requires
            0 <= dt <= DT_LIMIT,
            iabs(old(self).vel.y as int) <= STAGE_LIMIT,
        ensures
            *final(self) == old(self).spec_gravity(dt as int),
            dt == 0 ==> *final(self) == *old(self),
            iabs(final(self).vel.y as int) <= iabs(old(self).vel.y as int) + GRAVITY,
    {
        proof {
            crate::math::lemma_tdiv_mag(GRAVITY * dt, SCALE as int, GRAVITY as int);
            assert(-((GRAVITY as int) * (SCALE as int)) <= GRAVITY * dt <= (GRAVITY as int) * (SCALE as int))
                by (nonlinear_arith)
                requires
                    0 <= dt <= 1000,
            ;
            if dt == 0 {
                crate::math::lemma_tdiv_multiple(0, SCALE as int);
            }
        }
        let dv: i64 = muldiv(GRAVITY, dt, SCALE);
        self.vel.y = self.vel.y + dv;
    }

    /// What floor friction does in one frame: while the body touches or
    /// sinks below the lower boundary, its horizontal velocity keeps only
    /// the `friction` fraction of itself.
    pub open spec fn spec_floor_friction(self, ground: int) -> Body {
        if self.pos.y + self.radius >= ground {
            Body {
                vel: Vec2 {
                    x: tdiv(self.vel.x * self.friction, SCALE as int) as i64,
                    y: self.vel.y,
                },
                ..self
            }
        } else {
            self
        }
    }

    /// Damp horizontal velocity while resting on the lower boundary.
    pub fn apply_floor_friction(&mut self, ground: i64)
        requires
            old(self).wf(),
            iabs(old(self).pos.y as int) <= STAGE_LIMIT,
            -STAGE_LIMIT <= ground <= STAGE_LIMIT,
        ensures
            *final(self) == old(self).spec_floor_friction(ground as int),
            iabs(final(self).vel.x as int) <= iabs(old(self).vel.x as int),
    {
        if self.pos.y + self.radius >= ground {
            proof {
                lemma_tdiv_scaled_bound(self.vel.x as int, self.friction as int, SCALE as int);
            }
            self.vel.x = muldiv(self.vel.x, self.friction, SCALE);
        }
    }

    /// What one semi-implicit Euler step does: acceleration is force over
    /// mass; the velocity moves first, and the position then moves by the
    /// updated velocity. That ordering is load-bearing for stability.
    pub open spec fn spec_integrate(self, dt: int) -> Body {
        let ax = tdiv(self.force.x as int, self.mass as int);
        let ay = tdiv(self.force.y as int, self.mass as int);
        let vx = self.vel.x + tdiv(ax * dt, SCALE as int);
        let vy = self.vel.y + tdiv(ay * dt, SCALE as int);
        let px = self.pos.x + tdiv(vx * dt, SCALE as int);
        let py = self.pos.y + tdiv(vy * dt, SCALE as int);
        Body {
            vel: Vec2 { x: vx as i64, y: vy as i64 },
            pos: Vec2 { x: px as i64, y: py as i64 },
            ..self
        }
    }

    /// Advance velocity and position by one timestep of `dt` milliseconds.
    pub fn integrate(&mut self, dt: i64)
        requires
            old(self).wf(),
            old(self).in_stage_range(),
            0 <= dt <= DT_LIMIT,
        ensures
            *final(self) == old(self).spec_integrate(dt as int),
            dt == 0 ==> *final(self) == *old(self),
            iabs(final(self).vel.x as int) <= iabs(old(self).vel.x as int) + iabs(old(self).force.x as int),
            iabs(final(self).vel.y as int) <= iabs(old(self).vel.y as int) + iabs(old(self).force.y as int),
            iabs(final(self).pos.x as int) <= iabs(old(self).pos.x as int) + iabs(final(self).vel.x as int),
            iabs(final(self).pos.y as int) <= iabs(old(self).pos.y as int) + iabs(final(self).vel.y as int),
            final(self).force == old(self).force,
    {
        proof {
            lemma_tdiv_shrink(self.force.x as int, self.mass as int);
            lemma_tdiv_shrink(self.force.y as int, self.mass as int);
        }
        let mass_vec: Vec2 = Vec2 { x: self.mass, y: self.mass };
        let acc: Vec2 = self.force.div_elem(mass_vec);
        proof {
            lemma_tdiv_scaled_bound(acc.x as int, dt as int, SCALE as int);
            lemma_tdiv_scaled_bound(acc.y as int, dt as int, SCALE as int);
            if dt == 0 {
                crate::math::lemma_tdiv_multiple(0, SCALE as int);
            }
        }
        let new_vel: Vec2 = self.vel.add(acc.scale_div(dt, SCALE));
        proof {
            lemma_tdiv_scaled_bound(new_vel.x as int, dt as int, SCALE as int);
            lemma_tdiv_scaled_bound(new_vel.y as int, dt as int, SCALE as int);
        }
        let new_pos: Vec2 = self.pos.add(new_vel.scale_div(dt, SCALE));
        self.vel = new_vel;
        self.pos = new_pos;
    }

    /// What boundary reflection does in one frame. On each axis whose far
    /// edge the body has passed, the position is clamped to that edge and
    /// the velocity is reversed, keeping the `restitution` fraction of its
    /// magnitude; the near edge is handled the same way on the horizontal
    /// axis only. The vertical and horizontal checks are independent, so a
    /// corner hit reflects both axes.
    pub open spec fn spec_edges(self, width: int, height: int) -> Body {
        let bounce_y = self.pos.y + self.radius > height;
        let py = if bounce_y { height - self.radius } else { self.pos.y as int };
        let vy = if bounce_y { -tdiv(self.vel.y * self.restitution, SCALE as int) } else { self.vel.y as int };
        let bounce_far_x = self.pos.x + self.radius > width;
        let bounce_near_x = !bounce_far_x && self.pos.x - self.radius < 0;
        let px = if bounce_far_x { width - self.radius } else if bounce_near_x { self.radius as int } else { self.pos.x as int };
        let vx = if bounce_far_x || bounce_near_x { -tdiv(self.vel.x * self.restitution, SCALE as int) } else { self.vel.x as int };
        Body {
            pos: Vec2 { x: px as i64, y: py as i64 },
            vel: Vec2 { x: vx as i64, y: vy as i64 },
            ..self
        }
    }

    /// Reflect the body off the edges of the region `[0, width] x [0, height]`,
    /// losing the `1 - restitution` fraction of speed on each reflected axis.
    pub fn resolve_boundaries(&mut self, width: i64, height: i64)
        requires
            old(self).wf(),
            old(self).in_stage_range(),
            0 <= width <= COORD_LIMIT,
            0 <= height <= COORD_LIMIT,
        ensures
            *final(self) == old(self).spec_edges(width as int, height as int),
            iabs(final(self).vel.x as int) <= iabs(old(self).vel.x as int),
            iabs(final(self).vel.y as int) <= iabs(old(self).vel.y as int),
            old(self).restitution == SCALE && old(self).pos.y + old(self).radius > height
                ==> final(self).vel.y == -old(self).vel.y,
            old(self).restitution == 0 && old(self).pos.y + old(self).radius > height
                ==> final(self).vel.y == 0,
            old(self).pos.y + old(self).radius <= height ==> final(self).vel.y == old(self).vel.y
                && final(self).pos.y == old(self).pos.y,
            ({
                let bounced_x = old(self).pos.x + old(self).radius > width
                    || old(self).pos.x - old(self).radius < 0;
                &&& old(self).restitution == SCALE && bounced_x ==> final(self).vel.x == -old(self).vel.x
                &&& old(self).restitution == 0 && bounced_x ==> final(self).vel.x == 0
                &&& !bounced_x ==> final(self).vel.x == old(self).vel.x
                    && final(self).pos.x == old(self).pos.x
            }),
            final(self).in_stage_range(),
    {
        proof {
            lemma_tdiv_scaled_bound(self.vel.y as int, self.restitution as int, SCALE as int);
            lemma_tdiv_scaled_bound(self.vel.x as int, self.restitution as int, SCALE as int);
            if self.restitution == SCALE {
                crate::math::lemma_tdiv_multiple(self.vel.y as int, SCALE as int);
                crate::math::lemma_tdiv_multiple(self.vel.x as int, SCALE as int);
            }
            if self.restitution == 0 {
                crate::math::lemma_tdiv_multiple(0, SCALE as int);
                assert(self.vel.y * 0 == 0) by (nonlinear_arith);
                assert(self.vel.x * 0 == 0) by (nonlinear_arith);
            }
        }
        if self.pos.y + self.radius > height {
            self.pos.y = height - self.radius;
            self.vel.y = -muldiv(self.vel.y, self.restitution, SCALE);
        }
        if self.pos.x + self.radius > width {
            self.pos.x = width - self.radius;
            self.vel.x = -muldiv(self.vel.x, self.restitution, SCALE);
        } else if self.pos.x - self.radius < 0 {
            self.pos.x = self.radius;
            self.vel.x = -muldiv(self.vel.x, self.restitution, SCALE);
        }
    }

    /// Add a contribution to the force accumulator.
    pub fn apply_force(&mut self, f: Vec2)
        requires
            i64::MIN <= old(self).force.x + f.x <= i64::MAX,
            i64::MIN <= old(self).force.y + f.y <= i64::MAX,
        ensures
            *final(self) == (Body {
                force: Vec2 {
                    x: (old(self).force.x + f.x) as i64,
                    y: (old(self).force.y + f.y) as i64,
                },
                ..*old(self)
            }),
    {
        self.force = self.force.add(f);
    }

    /// Overwrite the force accumulator, as the throw of a released body and
    /// the end-of-frame reset do.
    pub fn set_force(&mut self, f: Vec2)
        ensures
            *final(self) == (Body { force: f, ..*old(self) }),
    {
        self.force = f;
    }

    /// What a whole frame of free physics does to a body that is not
    /// grabbed: gravity, then floor friction, then integration, then
    /// boundary reflection, in that order.
    pub open spec fn spec_free_step(self, dt: int, width: int, height: int) -> Body {
        self.spec_gravity(dt).spec_floor_friction(height).spec_integrate(dt).spec_edges(width, height)
    }

    /// A frame of zero elapsed time moves nothing: gravity adds no speed,
    /// integration moves neither velocity nor position, and for a body
    /// strictly inside the region — above the floor, so that floor friction
    /// does not engage either — the boundary check changes nothing. The
    /// whole free step is the identity.
    pub proof fn lemma_free_step_dt_zero(self, width: int, height: int)
        requires
            self.wf(),
            self.pos.y + self.radius < height,
            self.pos.x + self.radius <= width,
            self.pos.x - self.radius >= 0,
        ensures
            self.spec_free_step(0, width, height) == self,
    {
        crate::math::lemma_tdiv_zero(SCALE as int);
        let g = self.spec_gravity(0);
        assert(GRAVITY * 0 == 0);
        assert(g == self);
        let f = g.spec_floor_friction(height);
        assert(f == self);
        let n = f.spec_integrate(0);
        assert(tdiv(self.force.x as int, self.mass as int) * 0 == 0);
        assert(tdiv(self.force.y as int, self.mass as int) * 0 == 0);
        assert(self.vel.x * 0 == 0 && self.vel.y * 0 == 0) by (nonlinear_arith);
        assert(n == self);
        assert(n.spec_edges(width, height) == self);
    }

    /// Run one frame of free physics: gravity, floor friction, integration,
    /// boundary reflection.
    pub fn free_step(&mut self, dt: i64, width: i64, height: i64)
        requires
            old(self).wf(),
            old(self).in_nominal_range(),
            0 <= dt <= DT_LIMIT,
            0 <= width <= COORD_LIMIT,
            0 <= height <= COORD_LIMIT,
        ensures
            *final(self) == old(self).spec_free_step(dt as int, width as int, height as int),
            final(self).wf(),
            final(self).in_stage_range(),
            final(self).force == old(self).force,
            final(self).grabbed == old(self).grabbed,
            final(self).radius == old(self).radius,
            final(self).mass == old(self).mass,
    {
        self.apply_gravity(dt);
        self.apply_floor_friction(height);
        self.integrate(dt);
        self.resolve_boundaries(width, height);
    }
}

} // verus!
