//! Countdown timers ticked once per frame by elapsed time in nanoseconds.

use vstd::prelude::*;

verus! {

/// Nanoseconds in one millisecond.
pub const NANOS_PER_MILLI: u64 = 1_000_000;

/// Whether a timer stops at its duration or starts over.
#[derive(Debug, Clone, Copy, PartialEq, Eq, Structural)]
pub enum TimerMode {
    Once,
    Repeating,
}

/// A timer that accumulates elapsed time and compares it to a duration.
///
/// `finished` tells whether the last tick reached the duration (for a
/// one-shot timer it stays set until a reset); `times_finished_this_tick`
/// counts how often the last tick reached it, so that "just finished" is true
/// only on the tick that crossed the threshold.
#[derive(Debug, Clone, Copy, PartialEq, Eq, Structural)]
pub struct Timer {
    pub duration: u64,
    pub elapsed: u64,
    pub mode: TimerMode,
    pub finished: bool,
    pub times_finished_this_tick: u64,
}

/// Elapsed time plus `delta`, saturating at the largest `u64`.
pub open spec fn spec_advance(elapsed: u64, delta: u64) -> int {
    if elapsed + delta > u64::MAX {
        u64::MAX as int
    } else {
        elapsed + delta
    }
}

/// The state of timer `t` after a tick of `delta` nanoseconds.
pub open spec fn spec_tick(t: Timer, delta: u64) -> Timer {
    if t.mode == TimerMode::Once && t.finished {
        Timer { times_finished_this_tick: 0, ..t }
    } else {
        let e = spec_advance(t.elapsed, delta);
        if e >= t.duration {
            if t.mode == TimerMode::Repeating {
                Timer {
                    elapsed: (e % (t.duration as int)) as u64,
                    finished: true,
                    times_finished_this_tick: (e / (t.duration as int)) as u64,
                    ..t
                }
            } else {
                Timer { elapsed: t.duration, finished: true, times_finished_this_tick: 1, ..t }
            }
        } else {
            Timer { elapsed: e as u64, finished: false, times_finished_this_tick: 0, ..t }
        }
    }
}

/// The product of two `u64` values fits in a `u128`.
proof fn lemma_u64_product_fits(a: u64, b: u64)
    ensures
        a as int * b as int <= u128::MAX,
{
    assert(a as int * b as int <= u64::MAX as int * u64::MAX as int) by (nonlinear_arith);
}

impl Timer {
    /// A timer with a positive duration whose elapsed time has not passed it.
    pub open spec fn wf(&self) -> bool {
        &&& self.duration > 0
        &&& self.elapsed <= self.duration
    }

    /// A fresh timer of `duration` nanoseconds.
    pub fn from_nanos(duration: u64, mode: TimerMode) -> (r: Timer)
        requires
            duration > 0,
        ensures
            r.wf(),
            r == (Timer { duration, elapsed: 0, mode, finished: false, times_finished_this_tick: 0 }),
    {
        Timer { duration, elapsed: 0, mode, finished: false, times_finished_this_tick: 0 }
    }

    /// A fresh timer of `millis` milliseconds, as a value.
    pub open spec fn from_millis_spec(millis: u64, mode: TimerMode) -> Timer {
        Timer {
            duration: (millis * NANOS_PER_MILLI) as u64,
            elapsed: 0,
            mode,
            finished: false,
            times_finished_this_tick: 0,
        }
    }

    /// A fresh timer of `millis` milliseconds.
    pub fn from_millis(millis: u64, mode: TimerMode) -> (r: Timer)
        requires
            0 < millis <= u64::MAX / NANOS_PER_MILLI,
        ensures
            r.wf(),
            r == Timer::from_millis_spec(millis, mode),
    {
        Timer::from_nanos(millis * NANOS_PER_MILLI, mode)
    }

    /// Advances the timer by `delta` nanoseconds.
    pub fn tick(&mut self, delta: u64)
        requires
            old(self).wf(),
        ensures
            final(self).wf(),
            *final(self) == spec_tick(*old(self), delta),
    {
        if self.mode == TimerMode::Once && self.finished {
            self.times_finished_this_tick = 0;
            return;
        }
        let e: u64 = if delta > u64::MAX - self.elapsed {
            u64::MAX
        } else {
            self.elapsed + delta
        };
        if e >= self.duration {
            self.finished = true;
            if self.mode == TimerMode::Repeating {
                self.times_finished_this_tick = e / self.duration;
                self.elapsed = e % self.duration;
            } else {
                self.times_finished_this_tick = 1;
                self.elapsed = self.duration;
            }
        } else {
            self.finished = false;
            self.times_finished_this_tick = 0;
            self.elapsed = e;
        }
    }

    /// Whether the last tick reached the duration; a one-shot timer stays
    /// finished until it is reset.
    pub fn finished(&self) -> (r: bool)
        ensures
            r == self.finished,
    {
        self.finished
    }

    /// Whether the last tick crossed the duration.
    pub fn just_finished(&self) -> (r: bool)
        ensures
            r == (self.times_finished_this_tick > 0),
    {
        self.times_finished_this_tick > 0
    }

    /// Whether any time has accumulated since the start or the last wrap.
    pub fn is_started(&self) -> (r: bool)
        ensures
            r == (self.elapsed > 0),
    {
        self.elapsed > 0
    }

    /// Whether the fraction of the duration that has elapsed is below
    /// `num / den`.
    pub fn fraction_below(&self, num: u64, den: u64) -> (r: bool)
        requires
            den > 0,
        ensures
            r == (self.elapsed as int * den < self.duration as int * num),
    {
        let a: u128 = self.elapsed as u128;
        let b: u128 = self.duration as u128;
        proof {
            lemma_u64_product_fits(self.elapsed, den);
            lemma_u64_product_fits(self.duration, num);
        }
        a * (den as u128) < b * (num as u128)
    }

    /// Starts the timer over.
    pub fn reset(&mut self)
        requires
            old(self).wf(),
        ensures
            final(self).wf(),
            *final(self) == (Timer {
                elapsed: 0,
                finished: false,
                times_finished_this_tick: 0,
                ..*old(self)
            }),
    {
        self.elapsed = 0;
        self.finished = false;
        self.times_finished_this_tick = 0;
    }
}

} // verus!
