use vstd::prelude::*;

verus! {

/// Longest company name, in bytes, that fits the fixed-size plan record.
pub const MAX_COMPANY_NAME_LEN: usize = 50;

/// A 32-byte account identity, as the external ledger names accounts. The
/// core never computes with identities; it only stores and hands them back.
#[derive(Clone, Copy, Debug, PartialEq, Eq)]
pub struct Address {
    pub bytes: [u8; 32],
}

/// One organization's vesting plan: the token type it vests, the custodial
/// treasury that funds all claims under it, and the derivation bump values
/// the external ledger assigned to the plan and treasury addresses. Every
/// field is immutable after creation; only the treasury's balance changes,
/// and that lives outside this record.
#[derive(Clone, Debug, PartialEq, Eq)]
pub struct VestingAccount {
    pub owner: Address,
    pub company_name: Vec<u8>,
    pub mint: Address,
    pub treasury_token_account: Address,
    pub treasury_bump: u8,
    pub bump: u8,
}

impl VestingAccount {
    /// The plan record is well formed when its name fits the fixed layout.
    pub open spec fn wf(self) -> bool {
        self.company_name@.len() <= MAX_COMPANY_NAME_LEN
    }
}

/// One beneficiary's grant under a plan: the promised total, the linear
/// schedule, and the cumulative amount already withdrawn. All fields but
/// `total_withdrawal_account` are immutable after creation.
#[derive(Clone, Copy, Debug, PartialEq, Eq)]
pub struct EmployeeAccount {
    pub beneficiary: Address,
    pub total_amount: u64,
    pub total_withdrawal_account: u64,
    pub start_time: i64,
    pub end_time: i64,
    pub cliff_time: i64,
    pub vesting_account: Address,
    pub bump: u8,
}

impl EmployeeAccount {
    /// The grant's standing invariant: never pay out more than was promised.
    pub open spec fn wf(self) -> bool {
        self.total_withdrawal_account <= self.total_amount
    }

    /// Length of the vesting window in seconds, clamped at zero when the
    /// schedule ends before it starts.
    pub open spec fn duration(self) -> int {
        if self.end_time >= self.start_time {
            self.end_time - self.start_time
        } else {
            0
        }
    }

    /// Seconds elapsed since the schedule started, clamped at zero for a
    /// clock reading before the start.
    pub open spec fn elapsed(self, now: i64) -> int {
        if now >= self.start_time {
            now - self.start_time
        } else {
            0
        }
    }

    /// Tokens vested by time `now`: the full amount at or after the end,
    /// otherwise the elapsed fraction of the total, rounded down. Meaningful
    /// only when `duration() > 0`.
    pub open spec fn vested(self, now: i64) -> int {
        if now >= self.end_time {
            self.total_amount as int
        } else {
            (self.total_amount * self.elapsed(now)) / self.duration()
        }
    }

    /// Tokens claimable at `now`: vested so far minus already withdrawn,
    /// clamped at zero.
    pub open spec fn claimable(self, now: i64) -> int {
        if self.vested(now) >= self.total_withdrawal_account {
            self.vested(now) - self.total_withdrawal_account
        } else {
            0
        }
    }

    /// The same grant with its withdrawal counter replaced.
    pub open spec fn with_withdrawn(self, w: u64) -> EmployeeAccount {
        EmployeeAccount { total_withdrawal_account: w, ..self }
    }
}

/// Builds a fresh plan record from its immutable parameters. Rejection of a
/// duplicate `(owner, company_name)` plan, allocation of the treasury and the
/// choice of both bump values belong to the external ledger, which performs
/// them before this record is written.
pub fn create_vesting_account_handler(
    owner: Address,
    company_name: Vec<u8>,
    mint: Address,
    treasury_token_account: Address,
    treasury_bump: u8,
    bump: u8,
) -> (plan: VestingAccount)
    requires
        company_name@.len() <= MAX_COMPANY_NAME_LEN,
    ensures
        plan.owner == owner,
        plan.company_name == company_name,
        plan.mint == mint,
        plan.treasury_token_account == treasury_token_account,
        plan.treasury_bump == treasury_bump,
        plan.bump == bump,
        plan.wf(),
{
    VestingAccount { owner, company_name, mint, treasury_token_account, treasury_bump, bump }
}

/// Builds a fresh grant record with nothing withdrawn yet. The schedule
/// boundaries are stored as given: no ordering of `start_time`, `end_time`
/// and `cliff_time` is enforced at creation, and the treasury's balance is
/// not checked against `total_amount`. Ownership checks and rejection of a
/// duplicate `(beneficiary, plan)` grant belong to the external ledger.
pub fn create_employee_account_handler(
    beneficiary: Address,
    vesting_account: Address,
    total_amount: u64,
    start_time: i64,
    end_time: i64,
    cliff_time: i64,
    bump: u8,
) -> (grant: EmployeeAccount)
    ensures
        grant.beneficiary == beneficiary,
        grant.vesting_account == vesting_account,
        grant.total_amount == total_amount,
        grant.total_withdrawal_account == 0,
        grant.start_time == start_time,
        grant.end_time == end_time,
        grant.cliff_time == cliff_time,
        grant.bump == bump,
        grant.wf(),
{
    EmployeeAccount {
        beneficiary,
        total_amount,
        total_withdrawal_account: 0,
        start_time,
        end_time,
        cliff_time,
        vesting_account,
        bump,
    }
}

} // verus!
