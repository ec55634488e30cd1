use smart_vestiny::claim::saturating_diff;
use smart_vestiny::{
    claim_tokens_handler, compute_claimable, create_employee_account_handler,
    create_vesting_account_handler, record_withdrawal, Address, CustomError, EmployeeAccount,
};

fn addr(tag: u8) -> Address {
    let mut bytes = [0u8; 32];
    bytes[0] = tag;
    Address { bytes }
}

fn grant(total: u64, start: i64, end: i64, cliff: i64) -> EmployeeAccount {
    create_employee_account_handler(addr(1), addr(2), total, start, end, cliff, 255)
}

#[test]
fn create_vesting_account_sets_fields() {
    let plan = create_vesting_account_handler(addr(7), b"acme".to_vec(), addr(8), addr(9), 254, 253);
    assert_eq!(plan.owner, addr(7));
    assert_eq!(plan.company_name, b"acme".to_vec());
    assert_eq!(plan.mint, addr(8));
    assert_eq!(plan.treasury_token_account, addr(9));
    assert_eq!(plan.treasury_bump, 254);
    assert_eq!(plan.bump, 253);
}

#[test]
fn create_employee_account_starts_unwithdrawn() {
    let g = create_employee_account_handler(addr(1), addr(2), 5000, 10, 20, 15, 250);
    assert_eq!(g.beneficiary, addr(1));
    assert_eq!(g.vesting_account, addr(2));
    assert_eq!(g.total_amount, 5000);
    assert_eq!(g.total_withdrawal_account, 0);
    assert_eq!(g.start_time, 10);
    assert_eq!(g.end_time, 20);
    assert_eq!(g.cliff_time, 15);
    assert_eq!(g.bump, 250);
}

#[test]
fn claim_before_cliff_fails_unchanged() {
    let mut g = grant(1000, 0, 1000, 100);
    let r = claim_tokens_handler(&mut g, 50);
    assert_eq!(r, Err(CustomError::CliffTimeIsNotOver));
    assert_eq!(g.total_withdrawal_account, 0);
    let r = claim_tokens_handler(&mut g, 99);
    assert_eq!(r, Err(CustomError::CliffTimeIsNotOver));
    assert_eq!(g, grant(1000, 0, 1000, 100));
}

#[test]
fn scenario_partial_then_full() {
    let mut g = grant(1000, 0, 1000, 100);
    assert_eq!(claim_tokens_handler(&mut g, 50), Err(CustomError::CliffTimeIsNotOver));
    assert_eq!(claim_tokens_handler(&mut g, 500), Ok(500));
    assert_eq!(g.total_withdrawal_account, 500);
    assert_eq!(claim_tokens_handler(&mut g, 500), Err(CustomError::AlreadyClaimedFully));
    assert_eq!(g.total_withdrawal_account, 500);
    assert_eq!(claim_tokens_handler(&mut g, 1200), Ok(500));
    assert_eq!(g.total_withdrawal_account, 1000);
    assert_eq!(claim_tokens_handler(&mut g, 1300), Err(CustomError::AlreadyClaimedFully));
    assert_eq!(claim_tokens_handler(&mut g, i64::MAX), Err(CustomError::AlreadyClaimedFully));
    assert_eq!(g.total_withdrawal_account, 1000);
}

#[test]
fn zero_duration_schedule_rejected() {
    let mut g = grant(1000, 100, 100, 100);
    assert_eq!(claim_tokens_handler(&mut g, 100), Err(CustomError::InvalidVestingPeriod));
    assert_eq!(claim_tokens_handler(&mut g, 5000), Err(CustomError::InvalidVestingPeriod));
    assert_eq!(g.total_withdrawal_account, 0);
}

#[test]
fn inverted_schedule_rejected() {
    let mut g = grant(1000, 200, 100, 0);
    assert_eq!(claim_tokens_handler(&mut g, 150), Err(CustomError::InvalidVestingPeriod));
    assert_eq!(g.total_withdrawal_account, 0);
}

#[test]
fn full_vesting_at_end_pays_total() {
    let mut g = grant(12345, 0, 1000, 100);
    assert_eq!(claim_tokens_handler(&mut g, 1000), Ok(12345));
    assert_eq!(g.total_withdrawal_account, 12345);
}

#[test]
fn full_vesting_after_end_pays_total() {
    let mut g = grant(12345, 0, 1000, 100);
    assert_eq!(claim_tokens_handler(&mut g, 999_999), Ok(12345));
    assert_eq!(g.total_withdrawal_account, 12345);
}

#[test]
fn second_claim_same_time_fails_unchanged() {
    let mut g = grant(999, 0, 100, 0);
    assert_eq!(claim_tokens_handler(&mut g, 37), Ok(999 * 37 / 100));
    let snapshot = g;
    assert_eq!(claim_tokens_handler(&mut g, 37), Err(CustomError::AlreadyClaimedFully));
    assert_eq!(g, snapshot);
}

#[test]
fn linear_vesting_rounds_down() {
    let mut g = grant(7, 0, 3, 0);
    // floor(7 * 2 / 3) == 4
    assert_eq!(claim_tokens_handler(&mut g, 2), Ok(4));
    assert_eq!(g.total_withdrawal_account, 4);
}

#[test]
fn widened_multiply_is_exact_for_large_amounts() {
    // u64::MAX * 500 overflows 64 bits; the widened computation still gives
    // the exact rounded-down fraction.
    let g = grant(u64::MAX, 0, 1000, 0);
    assert_eq!(compute_claimable(&g, 500), Ok(u64::MAX / 2));
    let g = grant(u64::MAX, 0, 1000, 0);
    assert_eq!(compute_claimable(&g, 999), Ok(18428297329635842063));
}

#[test]
fn after_cliff_before_start_nothing_vested() {
    // The cliff may lie before the schedule's start; elapsed time then
    // clamps to zero and nothing is claimable yet.
    let mut g = grant(1000, 100, 200, 0);
    assert_eq!(claim_tokens_handler(&mut g, 50), Err(CustomError::AlreadyClaimedFully));
    assert_eq!(g.total_withdrawal_account, 0);
}

#[test]
fn zero_total_amount_never_pays() {
    let mut g = grant(0, 0, 100, 0);
    assert_eq!(claim_tokens_handler(&mut g, 50), Err(CustomError::AlreadyClaimedFully));
    assert_eq!(claim_tokens_handler(&mut g, 1000), Err(CustomError::AlreadyClaimedFully));
}

#[test]
fn withdrawals_monotonic_and_bounded_over_sequence() {
    let mut g = grant(1_000_000, 0, 10_000, 500);
    let mut last = 0u64;
    for now in [500i64, 600, 600, 2_500, 7_000, 7_000, 9_999, 10_000, 20_000] {
        let before = g.total_withdrawal_account;
        let r = claim_tokens_handler(&mut g, now);
        if let Ok(paid) = r {
            assert!(paid > 0);
            assert_eq!(g.total_withdrawal_account, before + paid);
        } else {
            assert_eq!(g.total_withdrawal_account, before);
        }
        assert!(g.total_withdrawal_account >= last);
        assert!(g.total_withdrawal_account <= g.total_amount);
        last = g.total_withdrawal_account;
    }
    assert_eq!(g.total_withdrawal_account, 1_000_000);
}

#[test]
fn compute_claimable_leaves_grant_readable() {
    let g = grant(100, 0, 10, 0);
    assert_eq!(compute_claimable(&g, 5), Ok(50));
    // a second computation at the same time gives the same answer: nothing
    // was recorded
    assert_eq!(compute_claimable(&g, 5), Ok(50));
}

#[test]
fn record_withdrawal_adds_to_counter() {
    let mut g = grant(100, 0, 10, 0);
    record_withdrawal(&mut g, 30);
    assert_eq!(g.total_withdrawal_account, 30);
    record_withdrawal(&mut g, 70);
    assert_eq!(g.total_withdrawal_account, 100);
}

#[test]
fn saturating_diff_clamps_and_widens() {
    assert_eq!(saturating_diff(10, 3), 7);
    assert_eq!(saturating_diff(3, 10), 0);
    assert_eq!(saturating_diff(-5, -10), 5);
    assert_eq!(saturating_diff(i64::MAX, i64::MIN), u64::MAX);
    assert_eq!(saturating_diff(i64::MIN, i64::MAX), 0);
}
