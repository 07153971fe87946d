//! Rate limiter: bounds how far a signal may move in one tick.

use vstd::prelude::*;

verus! {

/// The distance between two signal values.
pub open spec fn gap(a: int, b: int) -> int {
    if a >= b {
        a - b
    } else {
        b - a
    }
}

/// Where a signal at `current` stands after one step toward `target` that may
/// cover at most `max_step`.
pub open spec fn step_toward(current: int, target: int, max_step: int) -> int {
    if target - current > max_step {
        current + max_step
    } else if current - target > max_step {
        current - max_step
    } else {
        target
    }
}

/// What is left of a distance `distance` once `covered` of it has been covered.
pub open spec fn remaining_gap(distance: int, covered: int) -> int {
    if distance > covered {
        distance - covered
    } else {
        0
    }
}

/// Where a signal at `current` stands after `steps` steps toward a `target`
/// that is held constant.
pub open spec fn settle(current: int, target: int, max_step: int, steps: nat) -> int
    decreases steps,
{
    if steps == 0 {
        current
    } else {
        step_toward(settle(current, target, max_step, (steps - 1) as nat), target, max_step)
    }
}

/// Where a signal at `current` stands after following `targets`, one step
/// toward each in turn.
pub open spec fn track(current: int, targets: Seq<int>, max_step: int) -> int
    decreases targets.len(),
{
    if targets.len() == 0 {
        current
    } else {
        step_toward(track(current, targets.drop_last(), max_step), targets.last(), max_step)
    }
}

/// A signal whose change per tick is bounded.
#[derive(Clone, Copy, Debug)]
pub struct Dampener {
    current: i64,
    max_step: u64,
}

impl Dampener {
    /// The value the signal holds now.
    pub closed spec fn spec_current(&self) -> i64 {
        self.current
    }

    /// The largest change one call of [`Dampener::advance`] may make.
    pub closed spec fn spec_max_step(&self) -> u64 {
        self.max_step
    }

    /// A signal at rest at zero that moves by at most `max_step` per tick.
    pub fn new(max_step: u64) -> (dampener: Self)
        ensures
            dampener.current() == 0,
            dampener.max_step() == max_step,
    {
        Dampener { current: 0, max_step }
    }

    #[verifier::when_used_as_spec(spec_current)]
    pub fn current(&self) -> (current: i64)
        ensures
            current == self.spec_current(),
    {
        self.current
    }

    #[verifier::when_used_as_spec(spec_max_step)]
    pub fn max_step(&self) -> (max_step: u64)
        ensures
            max_step == self.spec_max_step(),
    {
        self.max_step
    }

    /// Moves the signal toward `target` by at most the step bound and returns
    /// where it stands. A target within one step is reached exactly.
    pub fn advance(&mut self, target: i64) -> (current: i64)
        ensures
            current == final(self).current(),
            final(self).max_step() == old(self).max_step(),
            current == step_toward(
                old(self).current() as int,
                target as int,
                old(self).max_step() as int,
            ),
            gap(current as int, old(self).current() as int) <= old(self).max_step(),
            gap(old(self).current() as int, target as int) <= old(self).max_step() <==> current
                == target,
    {
        let reach: i128 = target as i128 - self.current as i128;
        let bound: i128 = self.max_step as i128;
        if reach > bound {
            self.current = (self.current as i128 + bound) as i64;
        } else if -reach > bound {
            self.current = (self.current as i128 - bound) as i64;
        } else {
            self.current = target;
        }
        self.current
    }
}

/// One step never moves the signal by more than the bound, never past the
/// target, and shortens the distance to the target by the bound, or to zero.
pub proof fn lemma_step_is_bounded(current: int, target: int, max_step: int)
    requires
        max_step >= 0,
    ensures
        gap(step_toward(current, target, max_step), current) <= max_step,
        gap(step_toward(current, target, max_step), target) == remaining_gap(
            gap(current, target),
            max_step,
        ),
        current <= target ==> current <= step_toward(current, target, max_step) <= target,
        current >= target ==> current >= step_toward(current, target, max_step) >= target,
{
}

/// A target within one step is reached exactly; a target further away is not
/// reached by that step.
pub proof fn lemma_step_reaches_near_target(current: int, target: int, max_step: int)
    requires
        max_step >= 0,
    ensures
        gap(current, target) <= max_step <==> step_toward(current, target, max_step) == target,
{
}

/// Whatever targets a signal is given, and however they jump, each of them
/// moves it by no more than the bound, so that `targets.len()` of them move it
/// by no more than that many bounds.
pub proof fn lemma_track_is_bounded(current: int, targets: Seq<int>, max_step: int)
    requires
        max_step >= 0,
    ensures
        targets.len() > 0 ==> gap(
            track(current, targets, max_step),
            track(current, targets.drop_last(), max_step),
        ) <= max_step,
        gap(track(current, targets, max_step), current) <= targets.len() * max_step,
    decreases targets.len(),
{
    if targets.len() > 0 {
        let earlier = targets.drop_last();
        lemma_track_is_bounded(current, earlier, max_step);
        lemma_step_is_bounded(track(current, earlier, max_step), targets.last(), max_step);
        assert(targets.len() * max_step == earlier.len() * max_step + max_step)
            by (nonlinear_arith)
            requires
                earlier.len() == targets.len() - 1,
        ;
    } else {
        assert(targets.len() * max_step == 0) by (nonlinear_arith)
            requires
                targets.len() == 0,
        ;
    }
}

/// With the target held constant the signal converges monotonically: after
/// `steps` steps the distance to the target has shrunk by `steps * max_step`,
/// or to zero, and the signal has moved toward the target without passing it.
pub proof fn lemma_settle_converges(current: int, target: int, max_step: int, steps: nat)
    requires
        max_step >= 0,
    ensures
        gap(settle(current, target, max_step, steps), target) == remaining_gap(
            gap(current, target),
            steps * max_step,
        ),
        current <= target ==> current <= settle(current, target, max_step, steps) <= target,
        current >= target ==> current >= settle(current, target, max_step, steps) >= target,
        gap(settle(current, target, max_step, steps + 1), target) <= gap(
            settle(current, target, max_step, steps),
            target,
        ),
    decreases steps,
{
    assert(steps * max_step >= 0) by (nonlinear_arith)
        requires
            max_step >= 0,
    ;
    if steps > 0 {
        let before = (steps - 1) as nat;
        lemma_settle_converges(current, target, max_step, before);
        lemma_step_is_bounded(settle(current, target, max_step, before), target, max_step);
        assert(steps * max_step == before * max_step + max_step) by (nonlinear_arith)
            requires
                before == steps - 1,
        ;
        assert(before * max_step >= 0) by (nonlinear_arith)
            requires
                max_step >= 0,
        ;
    } else {
        assert(steps * max_step == 0) by (nonlinear_arith)
            requires
                steps == 0,
        ;
    }
    lemma_step_is_bounded(settle(current, target, max_step, steps), target, max_step);
}

/// Once the steps taken cover the initial distance the signal stands on the
/// target and stays there.
pub proof fn lemma_settle_reaches_target(current: int, target: int, max_step: int, steps: nat)
    requires
        max_step >= 0,
        steps * max_step >= gap(current, target),
    ensures
        settle(current, target, max_step, steps) == target,
{
    lemma_settle_converges(current, target, max_step, steps);
}

} // verus!
