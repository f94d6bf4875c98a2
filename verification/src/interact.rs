//! Grab-and-throw interaction.
//!
//! While a body is grabbed, the pointer's position is sampled once per
//! frame into a bounded trajectory buffer — a FIFO of the most recent
//! `TRAJECTORY_CAP` samples, oldest discarded first. On release, the drag
//! from the buffer's first sample to its last becomes a throw: the force is
//! the drag vector, reversed from start-to-end to end-to-start, scaled by
//! `THROW_SCALE`.

use vstd::prelude::*;
use crate::math::iabs;
use crate::vec2::Vec2;
use crate::body::{Body, COORD_LIMIT};

verus! {

/// Capacity of the trajectory buffer.
pub const TRAJECTORY_CAP: usize = 20;

/// Multiplier from drag distance to throw force.
pub const THROW_SCALE: i64 = 2000;

/// The most recent pointer samples of the current grab gesture, oldest
/// first.
pub struct TrajectoryBuffer {
    samples: Vec<Vec2>,
}

impl TrajectoryBuffer {
    /// The samples it holds, oldest first.
    pub closed spec fn view(self) -> Seq<Vec2> {
        self.samples@
    }

    /// The buffer never outgrows its capacity, and every sample lies within
    /// the nominal coordinate range.
    pub open spec fn wf(self) -> bool {
        &&& self.view().len() <= TRAJECTORY_CAP
        &&& forall|i: int|
            0 <= i < self.view().len() ==> iabs(#[trigger] self.view()[i].x as int) <= COORD_LIMIT
                && iabs(self.view()[i].y as int) <= COORD_LIMIT
    }

    /// An empty buffer.
    pub fn new() -> (r: TrajectoryBuffer)
        ensures
            r.view() == Seq::<Vec2>::empty(),
            r.wf(),
    {
        TrajectoryBuffer { samples: Vec::new() }
    }

    pub fn len(&self) -> (n: usize)
        ensures
            n == self.view().len(),
    {
        self.samples.len()
    }

    /// Append a sample; when the buffer is full, the oldest sample is
    /// dropped first, so the order of the survivors is preserved.
    pub fn push(&mut self, p: Vec2)
        requires
            old(self).wf(),
            iabs(p.x as int) <= COORD_LIMIT,
            iabs(p.y as int) <= COORD_LIMIT,
        ensures
            final(self).wf(),
            old(self).view().len() < TRAJECTORY_CAP ==> final(self).view()
                == old(self).view().push(p),
            old(self).view().len() == TRAJECTORY_CAP ==> final(self).view()
                == old(self).view().subrange(1, TRAJECTORY_CAP as int).push(p),
            final(self).view().len() == if old(self).view().len() < TRAJECTORY_CAP {
                old(self).view().len() + 1
            } else {
                TRAJECTORY_CAP as nat
            },
            final(self).view().last() == p,
    {
        self.samples.push(p);
        if self.samples.len() > TRAJECTORY_CAP {
            self.samples.remove(0);
            proof {
                assert(self.samples@ =~= old(self).view().subrange(1, TRAJECTORY_CAP as int).push(p));
            }
        }
    }

    /// Forget the gesture.
    pub fn clear(&mut self)
        ensures
            final(self).view() == Seq::<Vec2>::empty(),
            final(self).wf(),
    {
        self.samples.clear();
    }

    /// The sample at position `i`, oldest first.
    pub fn sample_at(&self, i: usize) -> (r: Vec2)
        requires
            i < self.view().len(),
        ensures
            r == self.view()[i as int],
    {
        self.samples[i]
    }

    /// The oldest sample.
    pub fn first(&self) -> (r: Vec2)
        requires
            self.view().len() > 0,
        ensures
            r == self.view()[0],
    {
        self.samples[0]
    }

    /// The newest sample.
    pub fn last(&self) -> (r: Vec2)
        requires
            self.view().len() > 0,
        ensures
            r == self.view().last(),
    {
        self.samples[self.samples.len() - 1]
    }
}

/// The throw force of a recorded gesture: the drag from the first sample to
/// the last, reversed (so the throw opposes drag-start-to-drag-end) and
/// scaled by `THROW_SCALE`. A gesture of a single sample throws nothing.
pub open spec fn spec_throw_force(traj: Seq<Vec2>) -> Vec2 {
    Vec2 {
        x: (-(traj[0].x - traj[traj.len() - 1].x) * THROW_SCALE) as i64,
        y: (-(traj[0].y - traj[traj.len() - 1].y) * THROW_SCALE) as i64,
    }
}

/// Compute the throw force from the gesture the buffer holds.
pub fn throw_force(tb: &TrajectoryBuffer) -> (r: Vec2)
    requires
        tb.wf(),
        tb.view().len() > 0,
    ensures
        r == spec_throw_force(tb.view()),
        tb.view().len() == 1 ==> r == (Vec2 { x: 0, y: 0 }),
{
    let f: Vec2 = tb.first();
    let l: Vec2 = tb.last();
    let push: Vec2 = f.sub(l);
    let r: Vec2 = push.neg().scale(THROW_SCALE);
    proof {
        if tb.view().len() == 1 {
            assert(r.x == 0 && r.y == 0) by (nonlinear_arith)
                requires
                    r.x == -((f.x - l.x) as int) * THROW_SCALE,
                    r.y == -((f.y - l.y) as int) * THROW_SCALE,
                    f == l,
            ;
        }
    }
    r
}

/// Whether the pointer lies within the body's square bounds: strictly
/// closer than the radius on each axis separately. This is deliberately an
/// axis-aligned hit test, not a circular one.
pub open spec fn spec_pointer_over(b: Body, p: Vec2) -> bool {
    &&& b.pos.x - b.radius < p.x < b.pos.x + b.radius
    &&& b.pos.y - b.radius < p.y < b.pos.y + b.radius
}

/// Test whether the pointer can grab the body. The comparisons are done in
/// 128 bits, so the test is total whatever the body's coordinates.
pub fn pointer_over(b: &Body, p: Vec2) -> (r: bool)
    ensures
        r == spec_pointer_over(*b, p),
{
    let px: i128 = p.x as i128;
    let py: i128 = p.y as i128;
    let bx: i128 = b.pos.x as i128;
    let by: i128 = b.pos.y as i128;
    let rad: i128 = b.radius as i128;
    px > bx - rad && px < bx + rad && py > by - rad && py < by + rad
}

} // verus!
