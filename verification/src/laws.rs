use crate::claim::{claim_transition, lemma_vested_le_total};
use crate::error::CustomError;
use crate::state::EmployeeAccount;
use vstd::prelude::*;

verus! {

/// A grant's history: `states` are the record values between claims,
/// `times` and `results` the clock reading and outcome of each claim, and
/// each consecutive pair of states is related by one claim attempt.
pub open spec fn claim_trace(
    states: Seq<EmployeeAccount>,
    times: Seq<i64>,
    results: Seq<Result<u64, CustomError>>,
) -> bool {
    &&& states.len() == times.len() + 1
    &&& results.len() == times.len()
    &&& forall|i: int|
        0 <= i < times.len() ==> claim_transition(states[i], states[i + 1], times[i], results[i])
}

/// One claim attempt never decreases the withdrawal counter.
pub proof fn lemma_withdrawn_monotonic(
    pre: EmployeeAccount,
    post: EmployeeAccount,
    now: i64,
    r: Result<u64, CustomError>,
)
    requires
        claim_transition(pre, post, now, r),
    ensures
        post.total_withdrawal_account >= pre.total_withdrawal_account,
{
    if r is Ok {
        lemma_vested_le_total(pre, now);
    }
}

/// One claim attempt preserves the grant's invariant: the withdrawal counter
/// stays at or below the promised total. A successful claim raises the
/// counter exactly to the vested amount, which the schedule bounds by the
/// total.
pub proof fn lemma_claim_preserves_wf(
    pre: EmployeeAccount,
    post: EmployeeAccount,
    now: i64,
    r: Result<u64, CustomError>,
)
    requires
        pre.wf(),
        claim_transition(pre, post, now, r),
    ensures
        post.wf(),
{
    if r is Ok {
        lemma_vested_le_total(pre, now);
    }
}

/// A claim attempt never changes the grant's identity, total or schedule:
/// only the withdrawal counter can move.
pub proof fn lemma_schedule_immutable(
    pre: EmployeeAccount,
    post: EmployeeAccount,
    now: i64,
    r: Result<u64, CustomError>,
)
    requires
        claim_transition(pre, post, now, r),
    ensures
        post.with_withdrawn(0) == pre.with_withdrawn(0),
{
}

/// Cliff enforcement: before the cliff, a claim fails with
/// `CliffTimeIsNotOver` and leaves the grant unchanged, whatever else the
/// schedule or the counter hold.
pub proof fn lemma_cliff_enforced(
    pre: EmployeeAccount,
    post: EmployeeAccount,
    now: i64,
    r: Result<u64, CustomError>,
)
    requires
        now < pre.cliff_time,
        claim_transition(pre, post, now, r),
    ensures
        r == Result::<u64, CustomError>::Err(CustomError::CliffTimeIsNotOver),
        post == pre,
{
}

/// Zero-duration schedules never vest: once past the cliff, a claim against
/// a schedule whose end does not lie after its start fails with
/// `InvalidVestingPeriod` and leaves the grant unchanged. (Before the cliff
/// the cliff gate answers first.)
pub proof fn lemma_zero_duration_rejected(
    pre: EmployeeAccount,
    post: EmployeeAccount,
    now: i64,
    r: Result<u64, CustomError>,
)
    requires
        now >= pre.cliff_time,
        pre.duration() == 0,
        claim_transition(pre, post, now, r),
    ensures
        r == Result::<u64, CustomError>::Err(CustomError::InvalidVestingPeriod),
        post == pre,
{
}

/// Idempotence under no progress: right after a successful claim, a second
/// claim at the same clock reading fails with `AlreadyClaimedFully` and
/// changes nothing — the first claim already raised the counter to the
/// vested amount, and no time has passed to vest more.
pub proof fn lemma_second_claim_same_time_fails(
    pre: EmployeeAccount,
    mid: EmployeeAccount,
    post: EmployeeAccount,
    now: i64,
    amount: u64,
    r2: Result<u64, CustomError>,
)
    requires
        pre.wf(),
        claim_transition(pre, mid, now, Ok(amount)),
        claim_transition(mid, post, now, r2),
    ensures
        r2 == Result::<u64, CustomError>::Err(CustomError::AlreadyClaimedFully),
        post == mid,
{
    lemma_vested_le_total(pre, now);
    assert(mid.vested(now) == pre.vested(now));
    assert(mid.total_withdrawal_account == pre.total_withdrawal_account + pre.claimable(now));
    assert(mid.claimable(now) == 0);
}

/// Full vesting at or after the end: a grant that has paid nothing out yet
/// transfers exactly its promised total in a single claim once the schedule
/// has ended. Needs a positive total (an empty grant has nothing to claim),
/// a positive duration (a zero-length schedule is rejected) and a cliff that
/// has passed.
pub proof fn lemma_full_vesting_at_end(
    pre: EmployeeAccount,
    post: EmployeeAccount,
    now: i64,
    r: Result<u64, CustomError>,
)
    requires
        pre.total_withdrawal_account == 0,
        pre.total_amount > 0,
        pre.duration() > 0,
        now >= pre.end_time,
        now >= pre.cliff_time,
        claim_transition(pre, post, now, r),
    ensures
        r == Result::<u64, CustomError>::Ok(pre.total_amount),
        post.total_withdrawal_account == pre.total_amount,
{
}

/// Linearity: strictly inside the window, the vested amount is exactly the
/// elapsed fraction of the total, rounded down by integer division.
pub proof fn lemma_linear_vesting(g: EmployeeAccount, now: i64)
    requires
        g.start_time <= now < g.end_time,
    ensures
        g.vested(now) == g.total_amount * (now - g.start_time) / (g.end_time - g.start_time),
{
}

/// Monotonicity and the upper bound along any history: starting from a
/// well-formed grant, every claim attempt keeps the grant well formed
/// (`total_withdrawal_account <= total_amount`), never decreases the
/// withdrawal counter, and never touches the identity, total or schedule.
pub proof fn lemma_trace_invariants(
    states: Seq<EmployeeAccount>,
    times: Seq<i64>,
    results: Seq<Result<u64, CustomError>>,
)
    requires
        claim_trace(states, times, results),
        states.len() > 0,
        states[0].wf(),
    ensures
        forall|i: int| 0 <= i < states.len() ==> (#[trigger] states[i]).wf(),
        forall|i: int, j: int|
            0 <= i <= j < states.len() ==> (#[trigger] states[i]).total_withdrawal_account
                <= (#[trigger] states[j]).total_withdrawal_account,
        forall|i: int|
            0 <= i < states.len() ==> (#[trigger] states[i]).with_withdrawn(0)
                == states[0].with_withdrawn(0),
    decreases times.len(),
{
    if times.len() > 0 {
        let n = times.len() as int;
        let head_states = states.subrange(0, n);
        let head_times = times.subrange(0, n - 1);
        let head_results = results.subrange(0, n - 1);
        assert forall|i: int| 0 <= i < head_times.len() implies claim_transition(
            head_states[i],
            head_states[i + 1],
            head_times[i],
            head_results[i],
        ) by {
            assert(claim_transition(states[i], states[i + 1], times[i], results[i]));
        }
        lemma_trace_invariants(head_states, head_times, head_results);
        assert(forall|i: int| 0 <= i < n ==> states[i] == head_states[i]);
        lemma_claim_preserves_wf(states[n - 1], states[n], times[n - 1], results[n - 1]);
        lemma_withdrawn_monotonic(states[n - 1], states[n], times[n - 1], results[n - 1]);
        lemma_schedule_immutable(states[n - 1], states[n], times[n - 1], results[n - 1]);
    }
}

} // verus!
