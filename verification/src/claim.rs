use crate::error::CustomError;
use crate::state::EmployeeAccount;
use vstd::arithmetic::div_mod::{
    lemma_div_is_ordered, lemma_div_multiples_vanish, lemma_div_pos_is_pos,
};
use vstd::arithmetic::mul::{lemma_mul_inequality, lemma_mul_is_commutative, lemma_mul_upper_bound};
use vstd::prelude::*;

verus! {

/// What one claim attempt at time `now` against grant `g` must return.
/// The four outcomes partition the inputs, so the result is determined:
/// the cliff gate comes first, then schedule validity, then whether any
/// vested tokens remain unwithdrawn. The widened vesting arithmetic cannot
/// overflow, so `CalculationError` is never returned.
pub open spec fn claim_outcome(g: EmployeeAccount, now: i64, r: Result<u64, CustomError>) -> bool {
    match r {
        Ok(amount) => now >= g.cliff_time && g.duration() > 0 && g.claimable(now) > 0
            && amount == g.claimable(now),
        Err(e) => match e {
            CustomError::CliffTimeIsNotOver => now < g.cliff_time,
            CustomError::InvalidVestingPeriod => now >= g.cliff_time && g.duration() == 0,
            CustomError::AlreadyClaimedFully => now >= g.cliff_time && g.duration() > 0
                && g.claimable(now) == 0,
            CustomError::CalculationError => false,
        },
    }
}

/// How one claim attempt moves a grant from `pre` to `post`: a successful
/// claim adds exactly the returned amount to the withdrawal counter and
/// touches nothing else; every failure leaves the grant unchanged.
pub open spec fn claim_transition(
    pre: EmployeeAccount,
    post: EmployeeAccount,
    now: i64,
    r: Result<u64, CustomError>,
) -> bool {
    claim_outcome(pre, now, r) && match r {
        Ok(amount) => post == pre.with_withdrawn((pre.total_withdrawal_account + amount) as u64),
        Err(_) => post == pre,
    }
}

/// The vested amount never exceeds the promised total: before the end the
/// elapsed time is at most the duration, so the rounded-down fraction of
/// `total_amount` stays at or below it.
pub proof fn lemma_vested_le_total(g: EmployeeAccount, now: i64)
    requires
        g.duration() > 0,
    ensures
        0 <= g.vested(now) <= g.total_amount,
{
    if now < g.end_time {
        let t = g.total_amount as int;
        let e = g.elapsed(now);
        let d = g.duration();
        assert(0 <= e <= d);
        lemma_mul_inequality(e, d, t);
        lemma_mul_is_commutative(t, e);
        lemma_mul_is_commutative(t, d);
        lemma_div_is_ordered(t * e, t * d, d);
        lemma_div_multiples_vanish(t, d);
        lemma_div_pos_is_pos(t * e, d);
    }
}

/// Difference `a - b` in seconds, clamped at zero, computed exactly: the
/// widened subtraction cannot wrap even across the whole timestamp range.
pub fn saturating_diff(a: i64, b: i64) -> (r: u64)
    ensures
        r == if a >= b { a - b } else { 0int },
{
    if a >= b {
        ((a as i128) - (b as i128)) as u64
    } else {
        0
    }
}

/// Computes how many tokens the grant's beneficiary may claim at time `now`,
/// without changing any state. Returns `Ok` exactly when the cliff has
/// passed, the schedule has positive duration and some vested tokens remain
/// unwithdrawn; otherwise the error names the first gate that rejected the
/// claim. The vesting product is widened before division, so it never
/// overflows and the result is exact to integer-division rounding.
pub fn compute_claimable(g: &EmployeeAccount, now: i64) -> (r: Result<u64, CustomError>)
    ensures
        claim_outcome(*g, now, r),
{
    if now < g.cliff_time {
        return Err(CustomError::CliffTimeIsNotOver);
    }

    let total_vesting_time: u64 = saturating_diff(g.end_time, g.start_time);
    if total_vesting_time == 0 {
        return Err(CustomError::InvalidVestingPeriod);
    }

    let vested_amount_till_now: u64 = if now >= g.end_time {
        g.total_amount
    } else {
        let time_since_start: u64 = saturating_diff(now, g.start_time);
        proof {
            lemma_mul_upper_bound(
                g.total_amount as int,
                u64::MAX as int,
                time_since_start as int,
                u64::MAX as int,
            );
        }
        let product: u128 = (g.total_amount as u128) * (time_since_start as u128);
        let quotient: u128 = product / (total_vesting_time as u128);
        proof {
            lemma_vested_le_total(*g, now);
        }
        quotient as u64
    };

    let claimable_amount: u64 = if vested_amount_till_now >= g.total_withdrawal_account {
        vested_amount_till_now - g.total_withdrawal_account
    } else {
        0
    };

    if claimable_amount == 0 {
        return Err(CustomError::AlreadyClaimedFully);
    }
    Ok(claimable_amount)
}

/// Adds a settled transfer to the grant's withdrawal counter. Called only
/// after the external token transfer of `amount` has fully succeeded; the
/// precondition keeps the counter within the promised total, so the sum
/// cannot overflow.
pub fn record_withdrawal(g: &mut EmployeeAccount, amount: u64)
    requires
        old(g).total_withdrawal_account + amount <= old(g).total_amount,
    ensures
        *final(g) == old(g).with_withdrawn((old(g).total_withdrawal_account + amount) as u64),
        final(g).wf(),
{
    g.total_withdrawal_account = g.total_withdrawal_account + amount;
}

/// One full claim attempt against a grant, with the external transfer taken
/// as settled: decides the outcome at time `now` and, on success, records
/// the withdrawal. Callers that must first perform the transfer use
/// `compute_claimable` and `record_withdrawal` separately, so a failed
/// transfer leaves the counter untouched.
pub fn claim_tokens_handler(g: &mut EmployeeAccount, now: i64) -> (r: Result<u64, CustomError>)
    requires
        old(g).wf(),
    ensures
        claim_transition(*old(g), *final(g), now, r),
        final(g).wf(),
{
    let amount = match compute_claimable(g, now) {
        Ok(a) => a,
        Err(e) => {
            return Err(e);
        },
    };
    proof {
        lemma_vested_le_total(*g, now);
    }
    record_withdrawal(g, amount);
    Ok(amount)
}

} // verus!
