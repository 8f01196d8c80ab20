//! The one-shot countdown that every delayed effect is driven by.

use vstd::prelude::*;

verus! {

/// A countdown that reports its expiry on exactly one tick.
///
/// `elapsed` grows with each tick until it reaches `duration`; the tick on
/// which it gets there sets `finished` for good and `just_finished` until the
/// next tick.
#[derive(Clone, Copy, Debug, PartialEq, Eq, Structural)]
pub struct Timer {
    pub duration: u128,
    pub elapsed: u128,
    pub finished: bool,
    pub just_finished: bool,
}

/// The sum of a sequence of tick lengths.
pub open spec fn total(ticks: Seq<u128>) -> nat
    decreases ticks.len(),
{
    if ticks.len() == 0 {
        0
    } else {
        total(ticks.drop_last()) + ticks.last() as nat
    }
}

impl Timer {
    /// A timer of length `duration` that no tick has reached yet.
    pub open spec fn fresh(duration: u128) -> Timer {
        Timer { duration, elapsed: 0, finished: false, just_finished: false }
    }

    /// What is left to count down, never below zero.
    pub open spec fn left(self) -> nat {
        if self.elapsed >= self.duration {
            0
        } else {
            (self.duration - self.elapsed) as nat
        }
    }

    /// The states that `new` and `tick` produce.
    pub open spec fn wf(self) -> bool {
        &&& self.elapsed <= self.duration
        &&& self.finished ==> self.elapsed == self.duration
        &&& self.just_finished ==> self.finished
        &&& !self.finished && self.elapsed == self.duration ==> self.elapsed == 0
    }

    /// The timer after one tick of length `delta`.
    ///
    /// A finished timer only forgets that it has just finished. A running one
    /// loses `delta` of what is left, and finishes when nothing is left.
    pub open spec fn ticked(self, delta: u128) -> Timer {
        if self.finished {
            Timer { just_finished: false, ..self }
        } else if delta >= self.left() {
            Timer {
                elapsed: if self.elapsed >= self.duration {
                    self.elapsed
                } else {
                    self.duration
                },
                finished: true,
                just_finished: true,
                ..self
            }
        } else {
            Timer { elapsed: (self.elapsed + delta) as u128, just_finished: false, ..self }
        }
    }

    /// The timer after the ticks of `ticks`, first to last.
    pub open spec fn after(self, ticks: Seq<u128>) -> Timer
        decreases ticks.len(),
    {
        if ticks.len() == 0 {
            self
        } else {
            self.after(ticks.drop_last()).ticked(ticks.last())
        }
    }

    /// How many of the ticks of `ticks` the timer reported as the one on which
    /// it finished.
    pub open spec fn firings(self, ticks: Seq<u128>) -> nat
        decreases ticks.len(),
    {
        if ticks.len() == 0 {
            0
        } else {
            self.firings(ticks.drop_last()) + if self.after(ticks).just_finished {
                1nat
            } else {
                0nat
            }
        }
    }

    pub fn new(duration: u128) -> (timer: Timer)
        ensures
            timer == Timer::fresh(duration),
            timer.wf(),
    {
        Timer { duration, elapsed: 0, finished: false, just_finished: false }
    }

    /// Advances the countdown by `delta`.
    pub fn tick(&mut self, delta: u128)
        ensures
            *final(self) == old(self).ticked(delta),
            old(self).wf() ==> final(self).wf(),
            !old(self).finished ==> final(self).left() == if delta >= old(self).left() {
                0
            } else {
                old(self).left() - delta
            },
    {
        if self.finished {
            self.just_finished = false;
        } else {
            let left: u128 = self.remaining();
            if delta >= left {
                if self.elapsed < self.duration {
                    self.elapsed = self.duration;
                }
                self.finished = true;
                self.just_finished = true;
            } else {
                self.elapsed = self.elapsed + delta;
                self.just_finished = false;
            }
        }
    }

    /// What is left to count down.
    pub fn remaining(&self) -> (left: u128)
        ensures
            left == self.left(),
    {
        if self.elapsed >= self.duration {
            0
        } else {
            self.duration - self.elapsed
        }
    }

    /// Whether the last tick was the one on which the countdown ended.
    pub fn just_finished(&self) -> (fired: bool)
        ensures
            fired == self.just_finished,
    {
        self.just_finished
    }

    /// Whether the countdown has ended, on the last tick or an earlier one.
    pub fn is_finished(&self) -> (done: bool)
        ensures
            done == self.finished,
    {
        self.finished
    }
}

/// What a fresh timer is after any run of ticks, by how the run's sum stands
/// to the timer's length: short of it, the timer has counted that sum and has
/// not fired; from it on, the timer has finished and fired once.
pub proof fn lemma_countdown(duration: u128, ticks: Seq<u128>)
    ensures
        ({
            let timer = Timer::fresh(duration).after(ticks);
            let fired = Timer::fresh(duration).firings(ticks);
            &&& timer.wf()
            &&& timer.duration == duration
            &&& ticks.len() == 0 ==> timer == Timer::fresh(duration) && fired == 0
            &&& ticks.len() > 0 && total(ticks) >= duration ==> timer.finished && fired == 1
            &&& total(ticks) < duration ==> !timer.finished && timer.elapsed == total(ticks)
                && fired == 0
        }),
    decreases ticks.len(),
{
    if ticks.len() > 0 {
        lemma_countdown(duration, ticks.drop_last());
    }
}

/// Exactly-once firing: over a run of at least one tick whose lengths add up
/// to the timer's length or more, a fresh timer reports its expiry on exactly
/// one tick, and on none of a leading part of the run that adds up to less.
pub proof fn lemma_fires_exactly_once(duration: u128, ticks: Seq<u128>)
    requires
        ticks.len() > 0,
        total(ticks) >= duration,
    ensures
        Timer::fresh(duration).firings(ticks) == 1,
        Timer::fresh(duration).after(ticks).finished,
        forall|k: int|
            0 <= k <= ticks.len() && total(#[trigger] ticks.take(k)) < duration
                ==> Timer::fresh(duration).firings(ticks.take(k)) == 0
                && !Timer::fresh(duration).after(ticks.take(k)).finished,
{
    lemma_countdown(duration, ticks);
    assert forall|k: int|
        0 <= k <= ticks.len() && total(#[trigger] ticks.take(k)) < duration implies Timer::fresh(
        duration,
    ).firings(ticks.take(k)) == 0 && !Timer::fresh(duration).after(ticks.take(k)).finished by {
        lemma_countdown(duration, ticks.take(k));
    }
}

/// No double expiry: whatever the ticks, a fresh timer reports its expiry at
/// most once, and not at all while the ticks add up to less than its length.
pub proof fn lemma_never_fires_twice(duration: u128, ticks: Seq<u128>)
    ensures
        Timer::fresh(duration).firings(ticks) <= 1,
        Timer::fresh(duration).firings(ticks) == 1 ==> total(ticks) >= duration,
        Timer::fresh(duration).after(ticks).wf(),
{
    lemma_countdown(duration, ticks);
}

} // verus!
