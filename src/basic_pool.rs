use vstd::prelude::*;
use crate::error::ErrorCode;

verus! {

/// The reward rate that a basic pool starts with.
pub const DEFAULT_REWARD_RATE: u64 = 1000;

/// A minimal pool that only counts what was staked into it.
#[derive(Clone, Copy, Debug, PartialEq, Eq, Structural)]
pub struct StakingPool {
    pub total_staked: u64,
    pub reward_rate: u64,
}

/// Resets `pool` to nothing staked at the default reward rate.
pub fn initialize(pool: &mut StakingPool)
    ensures
        final(pool).total_staked == 0,
        final(pool).reward_rate == DEFAULT_REWARD_RATE,
{
    pool.total_staked = 0;
    pool.reward_rate = DEFAULT_REWARD_RATE;
}

/// Adds `amount` to what is staked in `pool`; a total beyond `u64` is refused
/// and leaves `pool` unchanged.
pub fn stake(pool: &mut StakingPool, amount: u64) -> (r: Result<(), ErrorCode>)
    ensures
        pool_stake_fits(*old(pool), amount) ==> r is Ok && *final(pool) == (StakingPool {
            total_staked: (old(pool).total_staked + amount) as u64,
            ..*old(pool)
        }),
        !pool_stake_fits(*old(pool), amount) ==> r == Err::<(), ErrorCode>(
            ErrorCode::CalculationOverflow,
        ) && *final(pool) == *old(pool),
{
    match pool.total_staked.checked_add(amount) {
        Some(t) => {
            pool.total_staked = t;
            Ok(())
        },
        None => Err(ErrorCode::CalculationOverflow),
    }
}

/// Whether staking `amount` more keeps the total within `u64`.
pub open spec fn pool_stake_fits(pool: StakingPool, amount: u64) -> bool {
    pool.total_staked + amount <= u64::MAX
}

} // verus!
