//! Tweens: the way of a value from where it is to where it shall be.
//!
//! A tween holds the ends of the way, how long the way takes and how much
//! of that time has run. Where the value stands at a given time is
//! arithmetic on numbers, which the host does: it hands the tween a
//! [`TweenSample`], and the tween keeps the time and says when it is over.

use vstd::prelude::*;
use crate::scalar::{Scalar, Vec3};

verus! {

/// The curves along which a tween can run. Each maps the share of the time
/// that has run, from 0 to 1, to the share of the way that is done.
#[derive(Clone, Copy, Debug, PartialEq, Eq, Structural)]
pub enum Easing {
    /// `t`
    Linear,
    /// `t * t`
    EaseIn,
    /// `1 - (1 - t) * (1 - t)`
    EaseOut,
    /// [`Easing::EaseIn`] at double speed and half height up to the middle
    /// of the time, [`Easing::EaseOut`] likewise from there on.
    EaseInOut,
}

/// A curve of the host's own.
pub trait TransitionFn {
    fn apply(&mut self, dt: Scalar) -> Scalar;
}

/// A value on its way from `start` to `end`.
#[derive(Clone, Copy, Debug, PartialEq, Eq)]
pub struct Transition<T> {
    pub start: T,
    pub end: T,
    /// How long the way takes.
    pub duration: Scalar,
    /// How much of that time has run.
    pub elapsed: Scalar,
    pub function: Easing,
}

/// Where a tween stands after a step of time, as its host worked it out:
/// the time that has run in all, and the value at that time.
#[derive(Clone, Copy, Debug, PartialEq, Eq)]
pub struct TweenSample<T> {
    pub elapsed: Scalar,
    pub value: T,
}

impl<T> Transition<T> {
    /// Whether the whole time has run: `elapsed >= duration`, as numbers.
    pub open spec fn spec_is_finished(&self) -> bool {
        self.elapsed.spec_at_least(&self.duration)
    }

    /// The tween with `elapsed` as the time that has run.
    pub open spec fn run_to(self, elapsed: Scalar) -> Transition<T> {
        Transition {
            start: self.start,
            end: self.end,
            duration: self.duration,
            elapsed,
            function: self.function,
        }
    }

    /// A tween of which no time has run yet.
    pub fn new(start: T, end: T, duration: Scalar, function: Easing) -> (transition: Transition<T>)
        ensures
            transition == (Transition { start, end, duration, elapsed: Scalar { bits: 0 }, function }),
    {
        Transition { start, end, duration, elapsed: Scalar::zero(), function }
    }

    /// Whether the whole time has run. The time is not capped at the
    /// duration, so one long step can end the tween.
    #[verifier::when_used_as_spec(spec_is_finished)]
    pub fn is_finished(&self) -> (finished: bool)
        ensures
            finished == self.spec_is_finished(),
    {
        self.elapsed.at_least(&self.duration)
    }
}

impl Transition<Vec3> {
    /// Takes a step: keeps the time that has run, and returns the value at
    /// that time.
    pub fn update(&mut self, sample: TweenSample<Vec3>) -> (value: Vec3)
        ensures
            *final(self) == old(self).run_to(sample.elapsed),
            value == sample.value,
    {
        self.elapsed = sample.elapsed;
        sample.value
    }
}

/// A tween keeps no more of its steps than the time that has run in all:
/// after two steps it is as after one step to the same time, and it is
/// over exactly when that time has reached its duration.
pub proof fn steps_leave_no_trace<T>(transition: Transition<T>, first: Scalar, total: Scalar)
    ensures
        transition.run_to(first).run_to(total) == transition.run_to(total),
        transition.run_to(total).spec_is_finished() <==> total.spec_at_least(&transition.duration),
{
}

} // verus!
