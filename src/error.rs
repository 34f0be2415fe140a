use vstd::prelude::*;

verus! {

/// Why an operation on the ledger was refused. Every error leaves both
/// records exactly as they were before the call.
#[derive(Clone, Copy, Debug, PartialEq, Eq, Structural)]
pub enum ErrorCode {
    /// A withdrawal exceeds the balance, or the balance is zero.
    InsufficientFunds,
    /// A zero amount, or a negative lock period.
    InvalidAmount,
    /// The lock period has not elapsed since the last stake.
    StakeLocked,
    /// The caller is neither the pool authority nor the record's owner.
    Unauthorized,
    /// The balance is below the threshold for a reward multiplier.
    InsufficientStake,
    /// Compounding was asked for while the accrued reward is zero.
    NoRewardsAvailable,
    /// An arithmetic step left the range of `u64`.
    CalculationOverflow,
}

} // verus!
