//! The shared repeating timer that paces the greetings.
//!
//! Time is counted in whole nanoseconds. The timer holds how long one
//! interval lasts, how much of the current interval has elapsed, and how
//! many intervals the last tick completed.

use bevy::time::{Timer, TimerMode};
use std::time::Duration;
use vstd::prelude::*;

verus! {

/// Length of the greeting interval: two seconds.
pub const GREET_INTERVAL_NS: u64 = 2_000_000_000;

/// Relies on bevy's `Timer::tick` in repeating mode (with `Timer::new`,
/// `Timer::set_elapsed`, `Timer::elapsed` and
/// `Timer::times_finished_this_tick` to carry the state in and out): the
/// elapsed time grows by `delta_ns`, the number of whole intervals in it is
/// counted as a `u32`, and that many intervals are taken off again.
/// A zero interval divides by zero there, and a count above `u32::MAX` is
/// truncated, so both are left out.
#[verifier::external_body]
fn tick_repeating(duration_ns: u64, elapsed_ns: u64, delta_ns: u64) -> (r: (u64, u32))
    requires
        duration_ns > 0,
        (elapsed_ns + delta_ns) / (duration_ns as int) <= u32::MAX,
    ensures
        r.0 == (elapsed_ns + delta_ns) % (duration_ns as int),
        r.1 == (elapsed_ns + delta_ns) / (duration_ns as int),
{
    let mut t = Timer::new(Duration::from_nanos(duration_ns), TimerMode::Repeating);
    t.set_elapsed(Duration::from_nanos(elapsed_ns));
    t.tick(Duration::from_nanos(delta_ns));
    (t.elapsed().as_nanos() as u64, t.times_finished_this_tick())
}

/// Elapsed time within the interval after one tick of `delta` nanoseconds.
pub open spec fn elapsed_after_tick(duration: nat, elapsed: nat, delta: nat) -> nat {
    (elapsed + delta) % duration
}

/// Number of intervals that one tick of `delta` nanoseconds completes.
pub open spec fn finished_in_tick(duration: nat, elapsed: nat, delta: nat) -> nat {
    (elapsed + delta) / duration
}

/// A repeating timer.
pub struct GreetTimer {
    /// Length of one interval, in nanoseconds.
    pub duration_ns: u64,
    /// Time elapsed within the current interval, in nanoseconds.
    pub elapsed_ns: u64,
    /// How many intervals the last tick completed.
    pub times_finished_this_tick: u32,
}

impl GreetTimer {
    /// The interval is positive and the elapsed time lies inside it.
    pub open spec fn wf(&self) -> bool {
        &&& self.duration_ns > 0
        &&& self.elapsed_ns < self.duration_ns
    }

    /// Whether the timer completed at least one interval on its last tick.
    pub open spec fn spec_just_finished(&self) -> bool {
        self.times_finished_this_tick > 0
    }

    /// A fresh timer that repeats every two seconds.
    pub fn new() -> (t: GreetTimer)
        ensures
            t.wf(),
            t.duration_ns == GREET_INTERVAL_NS,
            t.elapsed_ns == 0,
            t.times_finished_this_tick == 0,
    {
        GreetTimer { duration_ns: GREET_INTERVAL_NS, elapsed_ns: 0, times_finished_this_tick: 0 }
    }

    /// A fresh repeating timer with an interval of `duration_ns` nanoseconds.
    pub fn from_nanos(duration_ns: u64) -> (t: GreetTimer)
        requires
            duration_ns > 0,
        ensures
            t.wf(),
            t.duration_ns == duration_ns,
            t.elapsed_ns == 0,
            t.times_finished_this_tick == 0,
    {
        GreetTimer { duration_ns, elapsed_ns: 0, times_finished_this_tick: 0 }
    }

    /// Whether the number of intervals that a tick of `delta_ns` would
    /// complete fits the timer's counter.
    pub open spec fn can_tick(&self, delta_ns: u64) -> bool {
        finished_in_tick(self.duration_ns as nat, self.elapsed_ns as nat, delta_ns as nat)
            <= u32::MAX
    }

    /// Advances the timer by `delta_ns` nanoseconds. Each whole interval
    /// that this completes is counted and taken off the elapsed time, so
    /// the timer re-arms by itself.
    pub fn tick(&mut self, delta_ns: u64)
        requires
            old(self).wf(),
            old(self).can_tick(delta_ns),
        ensures
            final(self).wf(),
            final(self).duration_ns == old(self).duration_ns,
            final(self).elapsed_ns == elapsed_after_tick(
                old(self).duration_ns as nat,
                old(self).elapsed_ns as nat,
                delta_ns as nat,
            ),
            final(self).times_finished_this_tick == finished_in_tick(
                old(self).duration_ns as nat,
                old(self).elapsed_ns as nat,
                delta_ns as nat,
            ),
    {
        let (elapsed, finished) = tick_repeating(self.duration_ns, self.elapsed_ns, delta_ns);
        self.elapsed_ns = elapsed;
        self.times_finished_this_tick = finished;
    }

    /// Whether the last tick completed at least one interval.
    pub fn just_finished(&self) -> (r: bool)
        ensures
            r == self.spec_just_finished(),
    {
        self.times_finished_this_tick > 0
    }
}

} // verus!
