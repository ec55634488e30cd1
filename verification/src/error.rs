use vstd::prelude::*;

verus! {

/// Reasons a claim against an employee grant can fail. Every failure leaves
/// the grant unchanged; the caller always learns which gate rejected it.
#[derive(Clone, Copy, Debug, PartialEq, Eq)]
pub enum CustomError {
    /// The current time is still before the grant's cliff.
    CliffTimeIsNotOver,
    /// The schedule has zero duration, so no vesting fraction is defined.
    InvalidVestingPeriod,
    /// The vesting computation could not be represented even after widening.
    CalculationError,
    /// Nothing is claimable at the current time.
    AlreadyClaimedFully,
}

} // verus!
