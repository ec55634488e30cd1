//! Vesting-schedule accounting for a token-grant program.
//!
//! An organization registers a vesting plan with a custodial treasury, then
//! grants each beneficiary a linear schedule over a total token amount. A
//! beneficiary may periodically claim the portion that has vested since the
//! schedule's start, gated by a cliff. This crate holds the verified core:
//! the plan and grant records, the vesting arithmetic, and the claim state
//! machine. The surrounding ledger runtime (account storage, signatures,
//! address derivation and the token transfer itself) stays outside.

pub mod claim;
pub mod error;
pub mod laws;
pub mod state;

pub use claim::claim_tokens_handler;
pub use claim::compute_claimable;
pub use claim::record_withdrawal;
pub use error::CustomError;
pub use state::create_employee_account_handler;
pub use state::create_vesting_account_handler;
pub use state::Address;
pub use state::EmployeeAccount;
pub use state::VestingAccount;
