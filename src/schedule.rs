//! What the greeting timer does over a whole run of frames.
//!
//! A run is the sequence of times, in nanoseconds, that each frame reports
//! as elapsed since the previous one. The timer starts fresh, and each frame
//! ticks it once and greets everybody when the tick completes an interval.

use crate::greet::greetings;
use crate::people::Name;
use crate::timer::{elapsed_after_tick, finished_in_tick};
use vstd::arithmetic::div_mod::{
    lemma_fundamental_div_mod,
    lemma_hoist_over_denominator,
    lemma_mod_multiples_vanish,
};
use vstd::prelude::*;

verus! {

/// The time that a run reports in all.
pub open spec fn total(deltas: Seq<nat>) -> nat
    decreases deltas.len(),
{
    if deltas.len() == 0 {
        0
    } else {
        total(deltas.drop_last()) + deltas.last()
    }
}

/// The elapsed time held by a fresh timer with interval `d` after the run.
pub open spec fn elapsed_after_run(d: nat, deltas: Seq<nat>) -> nat
    decreases deltas.len(),
{
    if deltas.len() == 0 {
        0
    } else {
        elapsed_after_tick(d, elapsed_after_run(d, deltas.drop_last()), deltas.last())
    }
}

/// How many intervals the tick of the frame that follows the run completes.
pub open spec fn finished_on_next(d: nat, deltas: Seq<nat>, delta: nat) -> nat {
    finished_in_tick(d, elapsed_after_run(d, deltas), delta)
}

/// How many lines the run prints in all, greeting `names` on each frame
/// whose tick completes an interval.
pub open spec fn lines_in_run(d: nat, deltas: Seq<nat>, names: Seq<Name>) -> nat
    decreases deltas.len(),
{
    if deltas.len() == 0 {
        0
    } else {
        lines_in_run(d, deltas.drop_last(), names) + greetings(
            finished_on_next(d, deltas.drop_last(), deltas.last()),
            names,
        ).len()
    }
}

/// Whether no frame of the run passes more than one multiple of `d`.
pub open spec fn crosses_one_at_a_time(d: nat, deltas: Seq<nat>) -> bool {
    forall|i: int|
        0 <= i < deltas.len() ==> #[trigger] total(deltas.take(i + 1)) / d <= total(deltas.take(i))
            / d + 1
}

/// Ticking from `t % d` by `x` lands where ticking from `t` would, modulo
/// `d`, and completes as many intervals as there are multiples of `d` in
/// `(t, t + x]`.
proof fn lemma_tick_from_remainder(d: nat, t: nat, x: nat)
    requires
        d > 0,
    ensures
        (t % d + x) % d == (t + x) % d,
        (t % d + x) / d == (t + x) / d - t / d,
        (t + x) / d >= t / d,
{
    let q: int = t as int / d as int;
    let r: int = t as int % d as int;
    lemma_fundamental_div_mod(t as int, d as int);
    assert(t == d * q + r);
    lemma_mod_multiples_vanish(q, r + x, d as int);
    assert(d * q + (r + x) == t + x);
    lemma_hoist_over_denominator(r + x, q, d);
    assert((r + x) + q * d == t + x) by (nonlinear_arith)
        requires
            t == d * q + r,
    ;
}

/// The timer's elapsed time is always what the run reported in all, modulo
/// the interval.
pub proof fn lemma_elapsed_is_total_mod_interval(d: nat, deltas: Seq<nat>)
    requires
        d > 0,
    ensures
        elapsed_after_run(d, deltas) == total(deltas) % d,
    decreases deltas.len(),
{
    if deltas.len() == 0 {
        assert(0nat % d == 0);
    } else {
        let prefix = deltas.drop_last();
        lemma_elapsed_is_total_mod_interval(d, prefix);
        lemma_tick_from_remainder(d, total(prefix), deltas.last());
    }
}

/// The timer re-arms: whatever came before, the next frame completes
/// exactly as many intervals as there are multiples of the interval that
/// the total passes on that frame. So a frame greets if and only if it
/// crosses a multiple of the interval, however many crossings came before.
pub proof fn lemma_next_frame_greets_on_crossing(d: nat, deltas: Seq<nat>, delta: nat)
    requires
        d > 0,
    ensures
        finished_on_next(d, deltas, delta) == (total(deltas) + delta) / d - total(deltas) / d,
        finished_on_next(d, deltas, delta) > 0 <==> (total(deltas) + delta) / d > total(deltas)
            / d,
{
    lemma_elapsed_is_total_mod_interval(d, deltas);
    lemma_tick_from_remainder(d, total(deltas), delta);
}

/// When no frame passes more than one multiple of the interval, every
/// crossing prints exactly one batch of greetings, one line per person:
/// the run prints `names.len()` lines for each multiple of the interval
/// that its total reaches.
pub proof fn lemma_one_batch_per_crossing(d: nat, deltas: Seq<nat>, names: Seq<Name>)
    requires
        d > 0,
        crosses_one_at_a_time(d, deltas),
    ensures
        lines_in_run(d, deltas, names) == (total(deltas) / d) * names.len(),
    decreases deltas.len(),
{
    if deltas.len() == 0 {
        assert(0nat / d == 0);
        assert(0 * names.len() == 0);
    } else {
        let prefix = deltas.drop_last();
        let last = deltas.last();
        let n = deltas.len() - 1;
        assert(deltas.take(n + 1) =~= deltas);
        assert(deltas.take(n) =~= prefix);
        assert(total(deltas.take(n + 1)) / d <= total(deltas.take(n)) / d + 1);
        assert forall|i: int| 0 <= i < prefix.len() implies #[trigger] total(prefix.take(i + 1))
            / d <= total(prefix.take(i)) / d + 1 by {
            assert(prefix.take(i + 1) =~= deltas.take(i + 1));
            assert(prefix.take(i) =~= deltas.take(i));
        }
        lemma_one_batch_per_crossing(d, prefix, names);
        lemma_next_frame_greets_on_crossing(d, prefix, last);
        let a = total(prefix) / d;
        let b = total(deltas) / d;
        assert(total(deltas) == total(prefix) + last);
        let k = names.len();
        let f = finished_on_next(d, prefix, last);
        assert(lines_in_run(d, deltas, names) == lines_in_run(d, prefix, names) + greetings(
            f,
            names,
        ).len());
        assert(greetings(f, names).len() == if f > 0 {
            k
        } else {
            0
        });
        assert(b >= a);
        if b > a {
            assert(b == a + 1);
            assert(b * k == a * k + k) by (nonlinear_arith)
                requires
                    b == a + 1,
            ;
        } else {
            assert(b == a);
        }
        assert(f > 0 <==> b > a);
        assert(lines_in_run(d, prefix, names) == a * k);
    }
}

/// Before the run's total first reaches the interval, nothing is printed.
pub proof fn lemma_silent_before_threshold(d: nat, deltas: Seq<nat>, names: Seq<Name>)
    requires
        d > 0,
        total(deltas) < d,
    ensures
        lines_in_run(d, deltas, names) == 0,
    decreases deltas.len(),
{
    if deltas.len() > 0 {
        let prefix = deltas.drop_last();
        lemma_silent_before_threshold(d, prefix, names);
        lemma_next_frame_greets_on_crossing(d, prefix, deltas.last());
        assert(total(deltas) / d == 0) by {
            vstd::arithmetic::div_mod::lemma_basic_div(total(deltas) as int, d as int);
        }
    }
}

} // verus!
