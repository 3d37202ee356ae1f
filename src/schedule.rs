//! What one polling tick decides: which checks are due at an epoch second, and
//! which fail counts change given the probe outcomes.
use vstd::prelude::*;
use crate::check::{HttpCheck, due, next_fail_count};
use crate::registry::all_wf;

verus! {

/// The indices among the first `n` checks that are due at `now`, ascending.
pub open spec fn due_prefix(checks: Seq<HttpCheck>, now: int, n: int) -> Seq<usize>
    decreases n,
{
    if n <= 0 {
        Seq::empty()
    } else if due(now, checks[n - 1].check_interval_sec as int) {
        due_prefix(checks, now, n - 1).push((n - 1) as usize)
    } else {
        due_prefix(checks, now, n - 1)
    }
}

/// The fail count of check `i` after its outcome `outcomes[i]`.
pub open spec fn next_of(checks: Seq<HttpCheck>, outcomes: Seq<bool>, i: int) -> int {
    next_fail_count(
        checks[i].fail_count as int,
        outcomes[i],
        checks[i].unhealthy_threshold as int,
    )
}

/// The write-backs among the first `n` checks: each due check whose fail count
/// changes under its outcome, as (index, new fail count), ascending by index.
pub open spec fn updates_prefix(
    checks: Seq<HttpCheck>,
    now: int,
    outcomes: Seq<bool>,
    n: int,
) -> Seq<(usize, u64)>
    decreases n,
{
    if n <= 0 {
        Seq::empty()
    } else if due(now, checks[n - 1].check_interval_sec as int) && next_of(checks, outcomes, n - 1)
        != checks[n - 1].fail_count {
        updates_prefix(checks, now, outcomes, n - 1).push(
            ((n - 1) as usize, next_of(checks, outcomes, n - 1) as u64),
        )
    } else {
        updates_prefix(checks, now, outcomes, n - 1)
    }
}

/// The write-backs of a tick depend only on the outcomes of the checks they cover.
proof fn lemma_updates_prefix_outcomes(
    checks: Seq<HttpCheck>,
    now: int,
    a: Seq<bool>,
    b: Seq<bool>,
    n: int,
)
    requires
        n <= a.len(),
        n <= b.len(),
        forall|i: int| 0 <= i < n ==> a[i] == b[i],
    ensures
        updates_prefix(checks, now, a, n) == updates_prefix(checks, now, b, n),
    decreases n,
{
    if n > 0 {
        lemma_updates_prefix_outcomes(checks, now, a, b, n - 1);
        assert(a[n - 1] == b[n - 1]);
    }
}

/// Every write-back names a check that is due at `now`, with a fail count that
/// differs from the current one and does not exceed the check's ceiling.
pub open spec fn writes_in_range(checks: Seq<HttpCheck>, now: int, updates: Seq<(usize, u64)>) -> bool {
    forall|k: int|
        0 <= k < updates.len() ==> {
            let (i, v) = #[trigger] updates[k];
            &&& i < checks.len()
            &&& due(now, checks[i as int].check_interval_sec as int)
            &&& v <= checks[i as int].unhealthy_threshold
            &&& v != checks[i as int].fail_count
        }
}

/// Each planned write-back names a due check and a fail count within that
/// check's range, so the registry accepts it.
pub proof fn lemma_updates_in_range(checks: Seq<HttpCheck>, now: int, outcomes: Seq<bool>, n: int)
    requires
        all_wf(checks),
        n <= checks.len() <= usize::MAX,
        n <= outcomes.len(),
    ensures
        writes_in_range(checks, now, updates_prefix(checks, now, outcomes, n)),
    decreases n,
{
    if n > 0 {
        lemma_updates_in_range(checks, now, outcomes, n - 1);
        let prev = updates_prefix(checks, now, outcomes, n - 1);
        let cur = updates_prefix(checks, now, outcomes, n);
        assert(checks[n - 1].wf());
        assert forall|k: int| 0 <= k < cur.len() implies {
            let (i, v) = #[trigger] cur[k];
            &&& i < checks.len()
            &&& due(now, checks[i as int].check_interval_sec as int)
            &&& v <= checks[i as int].unhealthy_threshold
            &&& v != checks[i as int].fail_count
        } by {
            if k < prev.len() {
                assert(cur[k] == prev[k]);
            } else {
                let x = next_of(checks, outcomes, n - 1);
                assert(0 <= x <= checks[n - 1].unhealthy_threshold);
                assert(cur[k] == ((n - 1) as usize, x as u64));
            }
        }
    }
}

/// The indices of the checks that are due at epoch second `now`, in order.
pub fn due_indices(checks: &Vec<HttpCheck>, now: u64) -> (r: Vec<usize>)
    requires
        all_wf(checks@),
    ensures
        r@ == due_prefix(checks@, now as int, checks@.len() as int),
{
    let mut out: Vec<usize> = Vec::new();
    let n = checks.len();
    for i in 0..n
        invariant
            n == checks@.len(),
            all_wf(checks@),
            out@ == due_prefix(checks@, now as int, i as int),
    {
        assert(checks@[i as int].wf());
        if checks[i].is_due(now) {
            out.push(i);
        }
    }
    out
}

/// The write-backs of a tick at `now`, given one probe outcome per check
/// (outcomes of checks that are not due are ignored).
pub fn plan_updates(checks: &Vec<HttpCheck>, now: u64, outcomes: &Vec<bool>) -> (r: Vec<
    (usize, u64),
>)
    requires
        all_wf(checks@),
        outcomes@.len() == checks@.len(),
    ensures
        r@ == updates_prefix(checks@, now as int, outcomes@, checks@.len() as int),
        writes_in_range(checks@, now as int, r@),
{
    let mut out: Vec<(usize, u64)> = Vec::new();
    let n = checks.len();
    for i in 0..n
        invariant
            n == checks@.len(),
            n == outcomes@.len(),
            all_wf(checks@),
            out@ == updates_prefix(checks@, now as int, outcomes@, i as int),
    {
        assert(checks@[i as int].wf());
        if checks[i].is_due(now) {
            let next = checks[i].fail_count_after(outcomes[i]);
            if next != checks[i].fail_count {
                out.push((i, next));
            }
        }
    }
    proof {
        lemma_updates_in_range(checks@, now as int, outcomes@, n as int);
    }
    out
}

/// Runs one polling tick against a snapshot: probes every check that is due at
/// `now`, in index order, and returns the write-backs that the outcomes call
/// for. Whatever the probes answered, the result is the plan for some outcome
/// per check.
pub fn poll_updates(checks: &Vec<HttpCheck>, now: u64) -> (r: Vec<(usize, u64)>)
    requires
        all_wf(checks@),
    ensures
        exists|outcomes: Seq<bool>|
            outcomes.len() == checks@.len() && r@ == #[trigger] updates_prefix(
                checks@,
                now as int,
                outcomes,
                checks@.len() as int,
            ),
        writes_in_range(checks@, now as int, r@),
{
    let mut out: Vec<(usize, u64)> = Vec::new();
    let ghost mut outcomes: Seq<bool> = Seq::empty();
    let n = checks.len();
    for i in 0..n
        invariant
            n == checks@.len(),
            all_wf(checks@),
            outcomes.len() == i,
            out@ == updates_prefix(checks@, now as int, outcomes, i as int),
    {
        assert(checks@[i as int].wf());
        let ghost before = outcomes;
        let mut ok = false;
        if checks[i].is_due(now) {
            ok = checks[i].is_ok();
        }
        proof {
            outcomes = outcomes.push(ok);
            lemma_updates_prefix_outcomes(checks@, now as int, before, outcomes, i as int);
        }
        if checks[i].is_due(now) {
            let next = checks[i].fail_count_after(ok);
            if next != checks[i].fail_count {
                out.push((i, next));
            }
        }
    }
    proof {
        lemma_updates_in_range(checks@, now as int, outcomes, n as int);
    }
    out
}

} // verus!
