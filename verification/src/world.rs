//! The simulation world and its frame step.
//!
//! One step runs, in this order: the interaction phase (grab and release
//! transitions, pointer sampling, then per-body gravity, friction,
//! integration and boundary handling, with physics suspended for a grabbed
//! body), the pairwise collision phase, the force-accumulator reset, and the
//! spring phase. Springs therefore write forces that the *next* frame's
//! integration consumes, one frame behind collisions — this ordering is part
//! of the contract, not an accident.
//!
//! Each arithmetic phase is exact for bodies inside the nominal ranges; a
//! body driven outside them (far beyond anything a screen-sized simulation
//! reaches) is left untouched by that phase rather than computed wrongly,
//! and every such gate is stated in the specs below.

use vstd::prelude::*;
use vstd::pervasive::VecAdditionalExecFns;
use crate::math::{iabs, SCALE};
use crate::vec2::Vec2;
use crate::body::{Body, COORD_LIMIT, VEL_LIMIT, FORCE_LIMIT, DT_LIMIT};
use crate::collision::{spec_collide, resolve_collision, COLLIDE_POS_LIMIT};
use crate::spring::{Spring, spec_spring_update, spring_update, SPRING_ACCUM_LIMIT};
use crate::interact::{TrajectoryBuffer, spec_pointer_over, pointer_over, spec_throw_force, throw_force, TRAJECTORY_CAP};

verus! {

/// The pairwise collision restitution a world starts with, in thousandths.
/// It is a configuration value of the world, distinct from each body's own
/// boundary restitution.
pub const PAIR_RESTITUTION: i64 = 700;

/// Everything the step needs from the host environment in one frame:
/// pointer position and button edges, the region size, and the elapsed time.
#[derive(Clone, Copy, PartialEq, Eq, Structural, Debug)]
pub struct InputSnapshot {
    pub pointer: Vec2,
    pub pressed: bool,
    pub released: bool,
    pub width: i64,
    pub height: i64,
    pub dt_ms: i64,
}

impl InputSnapshot {
    /// A usable frame input: a clamped timestep, a region and a pointer
    /// within the nominal coordinate range.
    pub open spec fn wf(self) -> bool {
        &&& 0 <= self.dt_ms <= DT_LIMIT
        &&& 0 <= self.width <= COORD_LIMIT
        &&& 0 <= self.height <= COORD_LIMIT
        &&& iabs(self.pointer.x as int) <= COORD_LIMIT
        &&& iabs(self.pointer.y as int) <= COORD_LIMIT
    }
}

/// The ranges within which the collision phase resolves a pair; a body
/// outside them is left untouched by that phase.
pub open spec fn collide_gate(b: Body) -> bool {
    &&& iabs(b.pos.x as int) <= COLLIDE_POS_LIMIT
    &&& iabs(b.pos.y as int) <= COLLIDE_POS_LIMIT
    &&& iabs(b.vel.x as int) <= VEL_LIMIT
    &&& iabs(b.vel.y as int) <= VEL_LIMIT
}

/// The ranges within which the spring phase applies a spring; an endpoint
/// outside them leaves that spring inert this frame.
pub open spec fn spring_gate(b: Body) -> bool {
    &&& iabs(b.pos.x as int) <= COORD_LIMIT
    &&& iabs(b.pos.y as int) <= COORD_LIMIT
    &&& iabs(b.vel.x as int) <= VEL_LIMIT
    &&& iabs(b.vel.y as int) <= VEL_LIMIT
    &&& iabs(b.force.x as int) <= SPRING_ACCUM_LIMIT
    &&& iabs(b.force.y as int) <= SPRING_ACCUM_LIMIT
}

/// One pair of the collision phase: when both bodies are within range the
/// resolver's result is written back, except that a grabbed body keeps its
/// state — its physics is suspended, though the other body still bounces
/// off it as if it stood still.
pub open spec fn apply_pair(s: Seq<Body>, i: int, j: int, e: int) -> Seq<Body> {
    let a = s[i];
    let b = s[j];
    if collide_gate(a) && collide_gate(b) {
        let r = spec_collide(a, b, e);
        let s1 = if a.grabbed { s } else { s.update(i, r.0) };
        if b.grabbed { s1 } else { s1.update(j, r.1) }
    } else {
        s
    }
}

/// The collision phase from pair `(i, j)` on, in the order the step visits
/// pairs: `j` ascending within `i` ascending, each unordered pair once.
pub open spec fn resolve_pairs_from(s: Seq<Body>, i: int, j: int, e: int) -> Seq<Body>
    decreases s.len() - i, s.len() - j + 1,
        when 0 <= i < j
{
    if i >= s.len() {
        s
    } else if j >= s.len() {
        resolve_pairs_from(s, i + 1, i + 2, e)
    } else {
        resolve_pairs_from(apply_pair(s, i, j, e), i, j + 1, e)
    }
}

/// The whole collision phase.
pub open spec fn resolve_all_pairs(s: Seq<Body>, e: int) -> Seq<Body> {
    resolve_pairs_from(s, 0, 1, e)
}

/// The end-of-frame reset: every force accumulator cleared, once per body.
pub open spec fn reset_forces(s: Seq<Body>) -> Seq<Body> {
    Seq::new(s.len(), |i: int| Body { force: Vec2 { x: 0, y: 0 }, ..s[i] })
}

/// One spring of the spring phase: applied when its endpoints are in range,
/// adding the spring's force to body `b` and subtracting it from body `a`.
pub open spec fn apply_spring(s: Seq<Body>, sp: Spring) -> Seq<Body> {
    if sp.a < s.len() && sp.b < s.len() && sp.wf() {
        let pa = s[sp.a as int];
        let pb = s[sp.b as int];
        if spring_gate(pa) && spring_gate(pb) {
            let r = spec_spring_update(sp, pa, pb);
            s.update(sp.a as int, r.0).update(sp.b as int, r.1)
        } else {
            s
        }
    } else {
        s
    }
}

/// The spring phase from spring `k` on, in declaration order.
pub open spec fn apply_springs_from(s: Seq<Body>, springs: Seq<Spring>, k: int) -> Seq<Body>
    decreases springs.len() - k,
        when 0 <= k
{
    if k >= springs.len() {
        s
    } else {
        apply_springs_from(apply_spring(s, springs[k]), springs, k + 1)
    }
}

/// The index of the first body the pointer is over, from `i` on; the
/// collection's length when there is none.
pub open spec fn first_over(s: Seq<Body>, p: Vec2, i: int) -> int
    decreases s.len() - i,
        when 0 <= i
{
    if i >= s.len() {
        s.len() as int
    } else if spec_pointer_over(s[i], p) {
        i
    } else {
        first_over(s, p, i + 1)
    }
}

/// What the trajectory buffer's capped append does to its contents.
pub open spec fn push_capped(traj: Seq<Vec2>, p: Vec2) -> Seq<Vec2> {
    if traj.len() < TRAJECTORY_CAP {
        traj.push(p)
    } else {
        traj.subrange(1, traj.len() as int).push(p)
    }
}

/// What the interaction-and-physics phase does to one body once the grab
/// transition has settled: a grabbed body is slaved to the pointer with
/// zero velocity and all physics suspended; a free body in nominal range
/// runs one frame of free physics; a body outside nominal range is left
/// untouched.
pub open spec fn spec_body_phase_one(b: Body, input: InputSnapshot) -> Body {
    if b.grabbed {
        Body { pos: input.pointer, vel: Vec2 { x: 0, y: 0 }, ..b }
    } else if b.in_nominal_range() {
        b.spec_free_step(input.dt_ms as int, input.width as int, input.height as int)
    } else {
        b
    }
}

/// The collision phase only redirects velocities: every other field of
/// every body, and the velocity of a grabbed body, comes through unchanged.
pub proof fn lemma_resolve_pairs_preserves(s: Seq<Body>, i: int, j: int, e: int)
    requires
        0 <= i < j,
    ensures
        ({
            let r = resolve_pairs_from(s, i, j, e);
            &&& r.len() == s.len()
            &&& forall|k: int|
                0 <= k < s.len() ==> (#[trigger] r[k]).pos == s[k].pos && r[k].force == s[k].force
                    && r[k].radius == s[k].radius && r[k].mass == s[k].mass
                    && r[k].restitution == s[k].restitution && r[k].friction == s[k].friction
                    && r[k].tag == s[k].tag && r[k].grabbed == s[k].grabbed
                    && (s[k].grabbed ==> r[k].vel == s[k].vel)
        }),
    decreases s.len() - i, s.len() - j + 1,
{
    if i >= s.len() {
    } else if j >= s.len() {
        lemma_resolve_pairs_preserves(s, i + 1, i + 2, e);
    } else {
        let s2 = apply_pair(s, i, j, e);
        assert(s2.len() == s.len());
        lemma_resolve_pairs_preserves(s2, i, j + 1, e);
    }
}

/// The spring phase only charges force accumulators: every other field of
/// every body comes through unchanged.
pub proof fn lemma_apply_springs_preserves(s: Seq<Body>, springs: Seq<Spring>, k: int)
    requires
        0 <= k,
    ensures
        ({
            let r = apply_springs_from(s, springs, k);
            &&& r.len() == s.len()
            &&& forall|idx: int|
                0 <= idx < s.len() ==> (#[trigger] r[idx]).pos == s[idx].pos
                    && r[idx].vel == s[idx].vel && r[idx].radius == s[idx].radius
                    && r[idx].mass == s[idx].mass && r[idx].restitution == s[idx].restitution
                    && r[idx].friction == s[idx].friction && r[idx].tag == s[idx].tag
                    && r[idx].grabbed == s[idx].grabbed
        }),
    decreases springs.len() - k,
{
    if k < springs.len() {
        let s2 = apply_spring(s, springs[k]);
        assert(s2.len() == s.len());
        lemma_apply_springs_preserves(s2, springs, k + 1);
    }
}

/// The whole simulation: its bodies, its immutable spring topology, the
/// trajectory of the current grab gesture, and the pairwise collision
/// restitution it was configured with.
pub struct World {
    pub bodies: Vec<Body>,
    pub springs: Vec<Spring>,
    pub traj: TrajectoryBuffer,
    pub grab: Option<usize>,
    pub collision_restitution: i64,
}

impl World {
    /// The world's structural invariant: every body and spring valid, the
    /// grab marker pointing at the one grabbed body (if any), and a
    /// non-empty gesture whenever a grab is live.
    pub open spec fn wf(self) -> bool {
        &&& forall|i: int| 0 <= i < self.bodies@.len() ==> (#[trigger] self.bodies@[i]).wf()
        &&& forall|k: int|
            0 <= k < self.springs@.len() ==> (#[trigger] self.springs@[k]).wf_for(
                self.bodies@.len() as int,
            )
        &&& self.traj.wf()
        &&& 0 <= self.collision_restitution <= SCALE
        &&& match self.grab {
            Some(g) => {
                &&& g < self.bodies@.len()
                &&& self.bodies@[g as int].grabbed
                &&& forall|i: int|
                    0 <= i < self.bodies@.len() && i != g ==> !(#[trigger] self.bodies@[i]).grabbed
                &&& self.traj.view().len() >= 1
            },
            None => forall|i: int|
                0 <= i < self.bodies@.len() ==> !(#[trigger] self.bodies@[i]).grabbed,
        }
    }

    /// An empty world with the default pairwise restitution.
    pub fn new() -> (r: World)
        ensures
            r.wf(),
            r.bodies@.len() == 0,
            r.springs@.len() == 0,
            r.grab is None,
            r.collision_restitution == PAIR_RESTITUTION,
    {
        World {
            bodies: Vec::new(),
            springs: Vec::new(),
            traj: TrajectoryBuffer::new(),
            grab: None,
            collision_restitution: PAIR_RESTITUTION,
        }
    }

    /// Add a body at setup time.
    pub fn add_body(&mut self, b: Body)
        requires
            old(self).wf(),
            b.wf(),
            !b.grabbed,
        ensures
            final(self).wf(),
            final(self).bodies@ == old(self).bodies@.push(b),
            final(self).springs == old(self).springs,
            final(self).grab == old(self).grab,
            final(self).collision_restitution == old(self).collision_restitution,
    {
        self.bodies.push(b);
    }

    /// Add a spring at setup time; its endpoints must already exist.
    pub fn add_spring(&mut self, s: Spring)
        requires
            old(self).wf(),
            s.wf(),
            s.a < old(self).bodies@.len(),
            s.b < old(self).bodies@.len(),
        ensures
            final(self).wf(),
            final(self).springs@ == old(self).springs@.push(s),
            final(self).bodies == old(self).bodies,
            final(self).grab == old(self).grab,
            final(self).collision_restitution == old(self).collision_restitution,
    {
        self.springs.push(s);
    }

    pub fn body_count(&self) -> (n: usize)
        ensures
            n == self.bodies@.len(),
    {
        self.bodies.len()
    }

    pub fn body_at(&self, i: usize) -> (b: Body)
        requires
            i < self.bodies@.len(),
        ensures
            b == self.bodies@[i as int],
    {
        self.bodies[i]
    }

    pub fn spring_count(&self) -> (n: usize)
        ensures
            n == self.springs@.len(),
    {
        self.springs.len()
    }

    pub fn spring_at(&self, k: usize) -> (s: Spring)
        requires
            k < self.springs@.len(),
        ensures
            s == self.springs@[k as int],
    {
        self.springs[k]
    }

    /// Whether a new grab starts this frame: the button was pressed, no
    /// body is held, and the pointer is over some body.
    pub open spec fn spec_grab_attempt(self, input: InputSnapshot) -> bool {
        &&& input.pressed
        &&& self.grab is None
        &&& first_over(self.bodies@, input.pointer, 0) < self.bodies@.len()
    }

    /// Whether the held body is released this frame.
    pub open spec fn spec_release(self, input: InputSnapshot) -> bool {
        &&& !self.spec_grab_attempt(input)
        &&& input.released
        &&& self.grab is Some
    }

    /// The bodies after the grab transition: a fresh grab marks the first
    /// body under the pointer; a release clears the mark, zeroes the body's
    /// velocity and overwrites its force accumulator with the throw.
    pub open spec fn bodies_after_transition(self, input: InputSnapshot) -> Seq<Body> {
        if self.spec_grab_attempt(input) {
            let t = first_over(self.bodies@, input.pointer, 0);
            self.bodies@.update(t, Body { grabbed: true, ..self.bodies@[t] })
        } else if self.spec_release(input) {
            let g = self.grab->Some_0 as int;
            self.bodies@.update(
                g,
                Body {
                    vel: Vec2 { x: 0, y: 0 },
                    force: spec_throw_force(self.traj.view()),
                    grabbed: false,
                    ..self.bodies@[g]
                },
            )
        } else {
            self.bodies@
        }
    }

    /// The grab marker after the transition.
    pub open spec fn grab_after_transition(self, input: InputSnapshot) -> Option<usize> {
        if self.spec_grab_attempt(input) {
            Some(first_over(self.bodies@, input.pointer, 0) as usize)
        } else if self.spec_release(input) {
            None
        } else {
            self.grab
        }
    }

    /// The trajectory buffer after the whole interaction phase: cleared by
    /// a release, then sampled once if a body is (still or newly) held.
    pub open spec fn traj_after_phase_one(self, input: InputSnapshot) -> Seq<Vec2> {
        let t1 = if self.spec_release(input) {
            Seq::<Vec2>::empty()
        } else {
            self.traj.view()
        };
        if self.grab_after_transition(input) is Some {
            push_capped(t1, input.pointer)
        } else {
            t1
        }
    }

    /// The bodies after the whole interaction phase.
    pub open spec fn bodies_after_phase_one(self, input: InputSnapshot) -> Seq<Body> {
        Seq::new(
            self.bodies@.len(),
            |i: int| spec_body_phase_one(self.bodies_after_transition(input)[i], input),
        )
    }

    /// The first body under the pointer, or the body count when none is.
    fn find_first_over(&self, p: Vec2) -> (t: usize)
        ensures
            t == first_over(self.bodies@, p, 0),
            t <= self.bodies@.len(),
    {
        let n: usize = self.bodies.len();
        let mut i: usize = 0;
        while i < n
            invariant
                0 <= i <= n,
                n == self.bodies@.len(),
                first_over(self.bodies@, p, 0) == first_over(self.bodies@, p, i as int),
            decreases n - i,
        {
            if pointer_over(&self.bodies[i], p) {
                return i;
            }
            i = i + 1;
        }
        i
    }

    /// Whether a body is within the collision phase's ranges.
    fn in_collide_range(b: &Body) -> (r: bool)
        ensures
            r == collide_gate(*b),
    {
        -COLLIDE_POS_LIMIT <= b.pos.x && b.pos.x <= COLLIDE_POS_LIMIT
            && -COLLIDE_POS_LIMIT <= b.pos.y && b.pos.y <= COLLIDE_POS_LIMIT
            && -VEL_LIMIT <= b.vel.x && b.vel.x <= VEL_LIMIT
            && -VEL_LIMIT <= b.vel.y && b.vel.y <= VEL_LIMIT
    }

    /// Whether a body is within the spring phase's ranges.
    fn in_spring_range(b: &Body) -> (r: bool)
        ensures
            r == spring_gate(*b),
    {
        -COORD_LIMIT <= b.pos.x && b.pos.x <= COORD_LIMIT
            && -COORD_LIMIT <= b.pos.y && b.pos.y <= COORD_LIMIT
            && -VEL_LIMIT <= b.vel.x && b.vel.x <= VEL_LIMIT
            && -VEL_LIMIT <= b.vel.y && b.vel.y <= VEL_LIMIT
            && -SPRING_ACCUM_LIMIT <= b.force.x && b.force.x <= SPRING_ACCUM_LIMIT
            && -SPRING_ACCUM_LIMIT <= b.force.y && b.force.y <= SPRING_ACCUM_LIMIT
    }

    /// Whether a body is within the nominal per-frame ranges.
    fn in_nominal(b: &Body) -> (r: bool)
        ensures
            r == b.in_nominal_range(),
    {
        -COORD_LIMIT <= b.pos.x && b.pos.x <= COORD_LIMIT
            && -COORD_LIMIT <= b.pos.y && b.pos.y <= COORD_LIMIT
            && -VEL_LIMIT <= b.vel.x && b.vel.x <= VEL_LIMIT
            && -VEL_LIMIT <= b.vel.y && b.vel.y <= VEL_LIMIT
            && -FORCE_LIMIT <= b.force.x && b.force.x <= FORCE_LIMIT
            && -FORCE_LIMIT <= b.force.y && b.force.y <= FORCE_LIMIT
    }

    /// The interaction phase: grab and release transitions, pointer
    /// sampling, then per-body physics with a grabbed body slaved to the
    /// pointer.
    fn phase_interaction(&mut self, input: InputSnapshot)
        requires
            old(self).wf(),
            input.wf(),
        ensures
            final(self).wf(),
            final(self).bodies@ == old(self).bodies_after_phase_one(input),
            final(self).grab == old(self).grab_after_transition(input),
            final(self).traj.view() == old(self).traj_after_phase_one(input),
            final(self).springs == old(self).springs,
            final(self).collision_restitution == old(self).collision_restitution,
            forall|i: int|
                0 <= i < final(self).bodies@.len() ==> ((#[trigger] final(self).bodies@[i]).grabbed
                    ==> final(self).bodies@[i].vel == (Vec2 { x: 0, y: 0 })
                    && final(self).bodies@[i].pos == input.pointer),
    {
        let n: usize = self.bodies.len();
        // Grab / release transition. A press wins over a release that
        // arrives in the same frame.
        if input.pressed && self.grab.is_none() {
            let t: usize = self.find_first_over(input.pointer);
            if t < n {
                let b: Body = self.bodies[t];
                self.bodies.set(t, Body { grabbed: true, ..b });
                self.grab = Some(t);
            }
        } else if input.released && self.grab.is_some() {
            let g: usize = self.grab.unwrap();
            let f: Vec2 = throw_force(&self.traj);
            let b: Body = self.bodies[g];
            self.bodies.set(
                g,
                Body { vel: Vec2 { x: 0, y: 0 }, force: f, grabbed: false, ..b },
            );
            self.traj.clear();
            self.grab = None;
        }
        let ghost bodies1 = old(self).bodies_after_transition(input);
        proof {
            assert(self.bodies@ =~= bodies1);
        }
        // Pointer sampling while a body is held.
        if self.grab.is_some() {
            self.traj.push(input.pointer);
        }
        // Per-body physics.
        let mut i: usize = 0;
        while i < n
            invariant
                0 <= i <= n,
                self.bodies@.len() == n,
                bodies1.len() == n,
                input.wf(),
                forall|k: int| 0 <= k < n ==> (#[trigger] bodies1[k]).wf(),
                forall|k: int|
                    0 <= k < i ==> #[trigger] self.bodies@[k] == spec_body_phase_one(
                        bodies1[k],
                        input,
                    ),
                forall|k: int| i <= k < n ==> #[trigger] self.bodies@[k] == bodies1[k],
                self.grab == old(self).grab_after_transition(input),
                self.traj.view() == old(self).traj_after_phase_one(input),
                self.traj.wf(),
                self.springs == old(self).springs,
                self.collision_restitution == old(self).collision_restitution,
            decreases n - i,
        {
            let b: Body = self.bodies[i];
            if b.grabbed {
                self.bodies.set(i, Body { pos: input.pointer, vel: Vec2 { x: 0, y: 0 }, ..b });
            } else if Self::in_nominal(&b) {
                let mut bb: Body = b;
                bb.free_step(input.dt_ms, input.width, input.height);
                self.bodies.set(i, bb);
            }
            i = i + 1;
        }
        proof {
            assert(self.bodies@ =~= old(self).bodies_after_phase_one(input));
        }
    }

    /// The collision phase: every unordered pair once, `j` ascending within
    /// `i` ascending.
    fn phase_collisions(&mut self)
        requires
            old(self).wf(),
        ensures
            final(self).wf(),
            final(self).bodies@ == resolve_all_pairs(
                old(self).bodies@,
                old(self).collision_restitution as int,
            ),
            final(self).grab == old(self).grab,
            final(self).traj == old(self).traj,
            final(self).springs == old(self).springs,
            final(self).collision_restitution == old(self).collision_restitution,
    {
        let n: usize = self.bodies.len();
        let e: i64 = self.collision_restitution;
        let ghost orig = self.bodies@;
        let mut i: usize = 0;
        while i < n
            invariant
                0 <= i <= n,
                self.bodies@.len() == n,
                orig.len() == n,
                0 <= e <= SCALE,
                forall|k: int| 0 <= k < n ==> (#[trigger] self.bodies@[k]).wf(),
                forall|k: int|
                    0 <= k < n ==> (#[trigger] self.bodies@[k]).grabbed == orig[k].grabbed,
                resolve_pairs_from(orig, 0, 1, e as int) == resolve_pairs_from(
                    self.bodies@,
                    i as int,
                    i as int + 1,
                    e as int,
                ),
                self.grab == old(self).grab,
                self.traj == old(self).traj,
                self.springs == old(self).springs,
                self.collision_restitution == old(self).collision_restitution,
            decreases n - i,
        {
            let mut j: usize = i + 1;
            while j < n
                invariant
                    0 <= i < j <= n,
                    i < n,
                    self.bodies@.len() == n,
                    orig.len() == n,
                    0 <= e <= SCALE,
                    forall|k: int| 0 <= k < n ==> (#[trigger] self.bodies@[k]).wf(),
                    forall|k: int|
                        0 <= k < n ==> (#[trigger] self.bodies@[k]).grabbed == orig[k].grabbed,
                    resolve_pairs_from(orig, 0, 1, e as int) == resolve_pairs_from(
                        self.bodies@,
                        i as int,
                        j as int,
                        e as int,
                    ),
                    self.grab == old(self).grab,
                    self.traj == old(self).traj,
                    self.springs == old(self).springs,
                    self.collision_restitution == old(self).collision_restitution,
                decreases n - j,
            {
                let ghost prev = self.bodies@;
                let a: Body = self.bodies[i];
                let b: Body = self.bodies[j];
                if Self::in_collide_range(&a) && Self::in_collide_range(&b) {
                    let r: (Body, Body) = resolve_collision(a, b, e);
                    if !a.grabbed {
                        self.bodies.set(i, r.0);
                    }
                    if !b.grabbed {
                        self.bodies.set(j, r.1);
                    }
                }
                proof {
                    assert(self.bodies@ =~= apply_pair(prev, i as int, j as int, e as int));
                }
                j = j + 1;
            }
            i = i + 1;
        }
    }

    /// The force-accumulator reset, once per body per frame, after the
    /// collision phase and before the spring phase.
    fn phase_reset(&mut self)
        requires
            old(self).wf(),
        ensures
            final(self).wf(),
            final(self).bodies@ == reset_forces(old(self).bodies@),
            final(self).grab == old(self).grab,
            final(self).traj == old(self).traj,
            final(self).springs == old(self).springs,
            final(self).collision_restitution == old(self).collision_restitution,
    {
        let n: usize = self.bodies.len();
        let ghost orig = self.bodies@;
        let mut i: usize = 0;
        while i < n
            invariant
                0 <= i <= n,
                self.bodies@.len() == n,
                orig.len() == n,
                forall|k: int| 0 <= k < i ==> #[trigger] self.bodies@[k] == (Body {
                    force: Vec2 { x: 0, y: 0 },
                    ..orig[k]
                }),
                forall|k: int| i <= k < n ==> #[trigger] self.bodies@[k] == orig[k],
                self.grab == old(self).grab,
                self.traj == old(self).traj,
                self.springs == old(self).springs,
                self.collision_restitution == old(self).collision_restitution,
            decreases n - i,
        {
            let b: Body = self.bodies[i];
            self.bodies.set(i, Body { force: Vec2 { x: 0, y: 0 }, ..b });
            i = i + 1;
        }
        proof {
            assert(self.bodies@ =~= reset_forces(orig));
        }
    }

    /// The spring phase: each spring in declaration order adds its force to
    /// one endpoint's accumulator and subtracts it from the other's.
    fn phase_springs(&mut self)
        requires
            old(self).wf(),
        ensures
            final(self).wf(),
            final(self).bodies@ == apply_springs_from(old(self).bodies@, old(self).springs@, 0),
            final(self).grab == old(self).grab,
            final(self).traj == old(self).traj,
            final(self).springs == old(self).springs,
            final(self).collision_restitution == old(self).collision_restitution,
    {
        let n: usize = self.bodies.len();
        let m: usize = self.springs.len();
        let ghost orig = self.bodies@;
        let mut k: usize = 0;
        while k < m
            invariant
                0 <= k <= m,
                self.bodies@.len() == n,
                orig.len() == n,
                self.springs@.len() == m,
                forall|q: int| 0 <= q < n ==> (#[trigger] self.bodies@[q]).wf(),
                forall|q: int|
                    0 <= q < n ==> (#[trigger] self.bodies@[q]).grabbed == orig[q].grabbed
                        && self.bodies@[q].pos == orig[q].pos && self.bodies@[q].vel == orig[q].vel,
                forall|q: int|
                    0 <= q < m ==> (#[trigger] self.springs@[q]).wf_for(n as int),
                apply_springs_from(orig, self.springs@, 0) == apply_springs_from(
                    self.bodies@,
                    self.springs@,
                    k as int,
                ),
                self.grab == old(self).grab,
                self.traj == old(self).traj,
                self.springs == old(self).springs,
                self.collision_restitution == old(self).collision_restitution,
            decreases m - k,
        {
            let ghost prev = self.bodies@;
            let sp: Spring = self.springs[k];
            let pa: Body = self.bodies[sp.a];
            let pb: Body = self.bodies[sp.b];
            if Self::in_spring_range(&pa) && Self::in_spring_range(&pb) {
                let r: (Body, Body) = spring_update(&sp, pa, pb);
                self.bodies.set(sp.a, r.0);
                self.bodies.set(sp.b, r.1);
            }
            proof {
                assert(self.bodies@ =~= apply_spring(prev, self.springs@[k as int]));
            }
            k = k + 1;
        }
    }

    /// One frame of the whole simulation, in the contract's order:
    /// interaction and per-body physics, then pairwise collisions, then the
    /// force reset, then springs. A grabbed body ends the frame exactly at
    /// the pointer with zero velocity.
    pub fn step(&mut self, input: InputSnapshot)
        requires
            old(self).wf(),
            input.wf(),
        ensures
            final(self).wf(),
            final(self).bodies@.len() == old(self).bodies@.len(),
            final(self).springs == old(self).springs,
            final(self).collision_restitution == old(self).collision_restitution,
            final(self).grab == old(self).grab_after_transition(input),
            final(self).traj.view() == old(self).traj_after_phase_one(input),
            final(self).bodies@ == apply_springs_from(
                reset_forces(
                    resolve_all_pairs(
                        old(self).bodies_after_phase_one(input),
                        old(self).collision_restitution as int,
                    ),
                ),
                old(self).springs@,
                0,
            ),
            forall|i: int|
                0 <= i < final(self).bodies@.len() ==> ((#[trigger] final(self).bodies@[i]).grabbed
                    ==> final(self).bodies@[i].vel == (Vec2 { x: 0, y: 0 })
                    && final(self).bodies@[i].pos == input.pointer),
    {
        self.phase_interaction(input);
        let ghost b1 = self.bodies@;
        self.phase_collisions();
        let ghost b2 = self.bodies@;
        self.phase_reset();
        let ghost b3 = self.bodies@;
        self.phase_springs();
        proof {
            lemma_resolve_pairs_preserves(b1, 0, 1, self.collision_restitution as int);
            lemma_apply_springs_preserves(b3, self.springs@, 0);
        }
    }
}

} // verus!
