//! The waypoint counter of the synthetic orbit.
//!
//! The orbit is a closed ring of `steps` waypoints, numbered from 0, a full
//! turn apart in equal angles. Each tick reports the leg from the current
//! waypoint to the one after it and moves on by one; after the last
//! waypoint comes the first again. Where a waypoint lies is the caller's
//! trigonometry; which waypoints a tick is about is decided here.

use vstd::arithmetic::div_mod::{
    lemma_add_mod_noop, lemma_mod_multiples_vanish, lemma_mod_self_0, lemma_small_mod,
};
use vstd::prelude::*;

verus! {

/// How many waypoints the ring has unless the caller says otherwise.
pub const DEFAULT_STEPS: u32 = 100;

/// The waypoint after `step` on a ring of `steps` waypoints.
pub open spec fn successor(step: int, steps: int) -> int
    recommends
        steps > 0,
{
    (step + 1) % steps
}

/// The waypoint reached from `start` after `ticks` ticks.
pub open spec fn step_after(start: int, steps: int, ticks: nat) -> int
    recommends
        steps > 0,
    decreases ticks,
{
    if ticks == 0 {
        start
    } else {
        successor(step_after(start, steps, (ticks - 1) as nat), steps)
    }
}

/// One leg of the ring: from the waypoint whose position is reported to
/// the next one, toward which heading and speed are measured.
#[derive(Clone, Copy, Debug, PartialEq, Eq)]
pub struct Leg {
    pub from: u32,
    pub to: u32,
    pub steps: u32,
}

/// The leg that the tick number `ticks` reports, counted from 0, on a ring
/// entered at `start`.
pub open spec fn leg_after(start: int, steps: int, ticks: nat) -> (int, int) {
    (step_after(start, steps, ticks), step_after(start, steps, ticks + 1))
}

/// A cursor as two numbers: where it stands and how long the ring is.
pub struct CursorView {
    pub step: int,
    pub steps: int,
}

/// Where the synthetic orbit stands on its ring.
#[derive(Clone, Copy, Debug, PartialEq, Eq)]
pub struct OrbitCursor {
    step: u32,
    steps: u32,
}

impl View for OrbitCursor {
    type V = CursorView;

    closed spec fn view(&self) -> CursorView {
        CursorView { step: self.step as int, steps: self.steps as int }
    }
}

impl OrbitCursor {
    #[verifier::type_invariant]
    spec fn well_formed(self) -> bool {
        self.step < self.steps
    }

    /// A cursor on waypoint 0 of a ring of `steps` waypoints; `None` for a
    /// ring without waypoints.
    pub fn new(steps: u32) -> (cursor: Option<OrbitCursor>)
        ensures
            cursor is Some <==> steps > 0,
            cursor matches Some(c) ==> c@.step == 0 && c@.steps == steps,
    {
        if steps == 0 {
            None
        } else {
            Some(OrbitCursor { step: 0, steps })
        }
    }

    /// The waypoint on which the cursor stands.
    pub fn step(&self) -> (step: u32)
        ensures
            step == self@.step,
            step < self@.steps,
    {
        proof {
            use_type_invariant(self);
        }
        self.step
    }

    /// The number of waypoints on the ring.
    pub fn steps(&self) -> (steps: u32)
        ensures
            steps == self@.steps,
            steps > 0,
    {
        proof {
            use_type_invariant(self);
        }
        self.steps
    }

    /// Reports the leg that starts on the current waypoint and moves the
    /// cursor to the leg's end.
    pub fn advance(&mut self) -> (leg: Leg)
        ensures
            leg.from == old(self)@.step,
            leg.to == successor(old(self)@.step, old(self)@.steps),
            leg.steps == old(self)@.steps,
            leg.from < leg.steps,
            leg.to < leg.steps,
            final(self)@.step == leg.to,
            final(self)@.steps == old(self)@.steps,
    {
        proof {
            use_type_invariant(&*self);
        }
        let from = self.step;
        let to = if from == self.steps - 1 {
            proof {
                lemma_mod_self_0(self.steps as int);
            }
            0
        } else {
            proof {
                lemma_small_mod((from + 1) as nat, self.steps as nat);
            }
            from + 1
        };
        self.step = to;
        Leg { from, to, steps: self.steps }
    }

    /// Drives the cursor once round the ring, a tick per waypoint, and
    /// hands back the legs in the order of the ticks. The cursor ends on
    /// the waypoint on which it started.
    pub fn full_turn(&mut self) -> (legs: Vec<Leg>)
        ensures
            *final(self) == *old(self),
            legs@.len() == old(self)@.steps,
            forall|k: int|
                0 <= k < legs@.len() ==> {
                    &&& (#[trigger] legs@[k]).from == step_after(
                        old(self)@.step,
                        old(self)@.steps,
                        k as nat,
                    )
                    &&& legs@[k].to == step_after(
                        old(self)@.step,
                        old(self)@.steps,
                        (k + 1) as nat,
                    )
                    &&& legs@[k].steps == old(self)@.steps
                },
    {
        proof {
            use_type_invariant(&*self);
        }
        let steps = self.steps;
        let ghost start = self.step as int;
        let mut legs: Vec<Leg> = Vec::new();
        let mut ticks: u32 = 0;
        while ticks < steps
            invariant
                0 <= start < steps,
                ticks <= steps,
                self.steps == steps,
                self.step == step_after(start, steps as int, ticks as nat),
                legs@.len() == ticks,
                forall|k: int|
                    0 <= k < legs@.len() ==> {
                        &&& (#[trigger] legs@[k]).from == step_after(start, steps as int, k as nat)
                        &&& legs@[k].to == step_after(start, steps as int, (k + 1) as nat)
                        &&& legs@[k].steps == steps
                    },
            decreases steps - ticks,
        {
            let leg = self.advance();
            legs.push(leg);
            ticks = ticks + 1;
        }
        proof {
            full_turn_returns(start, steps as int);
        }
        legs
    }
}

/// After `ticks` ticks a cursor that entered the ring at `start` stands
/// `ticks` waypoints further, counted round the ring.
pub proof fn step_after_is_sum(start: int, steps: int, ticks: nat)
    requires
        0 <= start < steps,
    ensures
        step_after(start, steps, ticks) == (start + ticks) % steps,
        0 <= step_after(start, steps, ticks) < steps,
    decreases ticks,
{
    if ticks == 0 {
        lemma_small_mod(start as nat, steps as nat);
    } else {
        let before = (ticks - 1) as nat;
        step_after_is_sum(start, steps, before);
        let reached = step_after(start, steps, before);
        lemma_add_mod_noop(start + before, 1, steps);
        lemma_add_mod_noop(reached, 1, steps);
        lemma_small_mod(reached as nat, steps as nat);
    }
}

/// Cycle closure: a full turn of the ring, one tick per waypoint, brings
/// the cursor back to the waypoint on which it started.
pub proof fn full_turn_returns(start: int, steps: int)
    requires
        0 <= start < steps,
    ensures
        step_after(start, steps, steps as nat) == start,
{
    step_after_is_sum(start, steps, steps as nat);
    lemma_mod_multiples_vanish(1, start, steps);
    lemma_small_mod(start as nat, steps as nat);
}

/// The ring repeats itself: the tick a full turn later reports the same leg.
pub proof fn legs_repeat_each_turn(start: int, steps: int, ticks: nat)
    requires
        0 <= start < steps,
    ensures
        leg_after(start, steps, ticks + steps as nat) == leg_after(start, steps, ticks),
{
    step_after_is_sum(start, steps, ticks);
    step_after_is_sum(start, steps, ticks + 1);
    step_after_is_sum(start, steps, ticks + steps as nat);
    step_after_is_sum(start, steps, ticks + steps as nat + 1);
    lemma_mod_multiples_vanish(1, start + ticks, steps);
    lemma_mod_multiples_vanish(1, start + ticks + 1, steps);
}

} // verus!
