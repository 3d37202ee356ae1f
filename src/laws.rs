//! Properties of the hysteresis state machine and of the polling schedule,
//! stated over the spec functions that the executable contracts use.
use vstd::prelude::*;
use vstd::arithmetic::div_mod::lemma_fundamental_div_mod_converse;
use crate::check::{HttpCheck, due, healthy, next_fail_count};
use crate::schedule::{lemma_updates_in_range, updates_prefix};
use crate::registry::all_wf;

verus! {

/// The fail count after a whole sequence of probe outcomes, oldest first.
pub open spec fn run_outcomes(f: int, outcomes: Seq<bool>, ceiling: int) -> int
    decreases outcomes.len(),
{
    if outcomes.len() == 0 {
        f
    } else {
        next_fail_count(run_outcomes(f, outcomes.drop_last(), ceiling), outcomes.last(), ceiling)
    }
}

/// From a count in `[0, ceiling]`, a success gives `max(f - 1, 0)` and a
/// failure gives `min(f + 1, ceiling)`; either way the count stays in range.
pub proof fn lemma_step(f: int, ok: bool, ceiling: int)
    requires
        0 <= f <= ceiling,
    ensures
        ok ==> next_fail_count(f, ok, ceiling) == if f - 1 > 0 {
            f - 1
        } else {
            0
        },
        !ok ==> next_fail_count(f, ok, ceiling) == if f + 1 < ceiling {
            f + 1
        } else {
            ceiling
        },
        0 <= next_fail_count(f, ok, ceiling) <= ceiling,
{
}

/// The clamp invariant: from a count in `[0, ceiling]`, every sequence of
/// outcomes leaves the count in `[0, ceiling]`.
pub proof fn lemma_run_stays_clamped(f: int, outcomes: Seq<bool>, ceiling: int)
    requires
        0 <= f <= ceiling,
    ensures
        0 <= run_outcomes(f, outcomes, ceiling) <= ceiling,
    decreases outcomes.len(),
{
    if outcomes.len() > 0 {
        lemma_run_stays_clamped(f, outcomes.drop_last(), ceiling);
        lemma_step(run_outcomes(f, outcomes.drop_last(), ceiling), outcomes.last(), ceiling);
    }
}

/// `n` successes in a row bring the count down by `n`, but never below zero.
pub proof fn lemma_repeated_success(f: int, n: nat, ceiling: int)
    requires
        0 <= f <= ceiling,
    ensures
        run_outcomes(f, Seq::new(n, |i: int| true), ceiling) == if f - n > 0 {
            f - n
        } else {
            0
        },
        run_outcomes(f, Seq::new(n, |i: int| true), ceiling) >= 0,
    decreases n,
{
    if n > 0 {
        let s = Seq::new(n, |i: int| true);
        assert(s.drop_last() =~= Seq::new((n - 1) as nat, |i: int| true));
        lemma_repeated_success(f, (n - 1) as nat, ceiling);
    }
}

/// `n` failures in a row raise the count by `n`, but never above the ceiling.
pub proof fn lemma_repeated_failure(f: int, n: nat, ceiling: int)
    requires
        0 <= f <= ceiling,
    ensures
        run_outcomes(f, Seq::new(n, |i: int| false), ceiling) == if f + n < ceiling {
            f + n
        } else {
            ceiling
        },
        run_outcomes(f, Seq::new(n, |i: int| false), ceiling) <= ceiling,
    decreases n,
{
    if n > 0 {
        let s = Seq::new(n, |i: int| false);
        assert(s.drop_last() =~= Seq::new((n - 1) as nat, |i: int| false));
        lemma_repeated_failure(f, (n - 1) as nat, ceiling);
    }
}

/// Health depends on the fail count and the healthy threshold alone, and a
/// lower fail count is never less healthy than a higher one.
pub proof fn lemma_health_monotone(f1: int, f2: int, healthy_threshold: int)
    requires
        f1 <= f2,
    ensures
        healthy(f2, healthy_threshold) ==> healthy(f1, healthy_threshold),
        !healthy(f1, healthy_threshold) ==> !healthy(f2, healthy_threshold),
{
}

/// A check is due exactly on the epoch seconds that are whole multiples of its
/// interval: on `k * interval` for every `k`, and on no second in between.
pub proof fn lemma_due_exactly_on_multiples(k: int, j: int, interval: int)
    requires
        k >= 0,
        interval > 0,
        0 <= j < interval,
    ensures
        due(k * interval + j, interval) <==> j == 0,
{
    assert(k * interval >= 0) by (nonlinear_arith)
        requires
            k >= 0,
            interval > 0,
    ;
    lemma_fundamental_div_mod_converse(k * interval + j, interval, k, j);
}

/// A polling tick at `now` never writes back a check that is not due at
/// `now`, whatever the probes answered: its fail count is left unchanged.
pub proof fn lemma_tick_skips_checks_not_due(
    checks: Seq<HttpCheck>,
    now: int,
    outcomes: Seq<bool>,
    i: int,
)
    requires
        all_wf(checks),
        checks.len() <= usize::MAX,
        outcomes.len() == checks.len(),
        0 <= i < checks.len(),
        !due(now, checks[i].check_interval_sec as int),
    ensures
        forall|k: int|
            0 <= k < updates_prefix(checks, now, outcomes, checks.len() as int).len()
                ==> (#[trigger] updates_prefix(checks, now, outcomes, checks.len() as int)[k]).0
                != i,
{
    lemma_updates_in_range(checks, now, outcomes, checks.len() as int);
}

} // verus!
