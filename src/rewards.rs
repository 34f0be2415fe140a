use vstd::prelude::*;
use crate::error::ErrorCode;

verus! {

/// Seconds in a day times one hundred: `reward_rate` is a whole percentage
/// of the staked balance per day.
pub const REWARD_DIVISOR: u64 = 8_640_000;

/// The reward that `balance` earns at `reward_rate` over `elapsed` seconds,
/// rounded down.
pub open spec fn reward_amount(balance: int, reward_rate: int, elapsed: int) -> int {
    balance * reward_rate * elapsed / REWARD_DIVISOR as int
}

/// Whether computing the reward overflows: the product is formed left to
/// right, and each partial product must fit in `u64`.
pub open spec fn reward_overflows(balance: int, reward_rate: int, elapsed: int) -> bool {
    balance * reward_rate > u64::MAX || balance * reward_rate * elapsed > u64::MAX
}

/// The outcome of a reward computation.
pub open spec fn reward_result(balance: u64, reward_rate: u64, elapsed: u64) -> Result<
    u64,
    ErrorCode,
> {
    if reward_overflows(balance as int, reward_rate as int, elapsed as int) {
        Err(ErrorCode::CalculationOverflow)
    } else {
        Ok(reward_amount(balance as int, reward_rate as int, elapsed as int) as u64)
    }
}

/// Seconds from `since` to `now`, or zero when the clock reads earlier than
/// `since`.
pub open spec fn elapsed_seconds(now: int, since: int) -> int {
    if now > since {
        now - since
    } else {
        0
    }
}

/// Computes `floor(staked_amount * reward_rate * time_staked / 8_640_000)`
/// with every multiplication checked.
pub fn calculate_rewards(staked_amount: u64, reward_rate: u64, time_staked: u64) -> (r: Result<
    u64,
    ErrorCode,
>)
    ensures
        r == reward_result(staked_amount, reward_rate, time_staked),
{
    let partial = match staked_amount.checked_mul(reward_rate) {
        Some(p) => p,
        None => return Err(ErrorCode::CalculationOverflow),
    };
    let product = match partial.checked_mul(time_staked) {
        Some(p) => p,
        None => return Err(ErrorCode::CalculationOverflow),
    };
    assert(product as int == staked_amount as int * reward_rate as int * time_staked as int);
    Ok(product / REWARD_DIVISOR)
}

/// Seconds from `since` to `now`, clamped at zero so that a clock that runs
/// backwards yields no time rather than a wrapped value.
pub fn time_elapsed(now: i64, since: i64) -> (r: u64)
    ensures
        r as int == elapsed_seconds(now as int, since as int),
{
    if now > since {
        let d: i128 = now as i128 - since as i128;
        d as u64
    } else {
        0
    }
}

/// Rewards never decrease as more time elapses or as more is staked, at a
/// fixed rate; and where one computation fits in `u64`, so does every
/// computation with less time and less stake.
pub proof fn lemma_reward_monotonic(
    balance1: u64,
    balance2: u64,
    reward_rate: u64,
    elapsed1: u64,
    elapsed2: u64,
)
    requires
        balance1 <= balance2,
        elapsed1 <= elapsed2,
    ensures
        reward_amount(balance1 as int, reward_rate as int, elapsed1 as int) <= reward_amount(
            balance2 as int,
            reward_rate as int,
            elapsed2 as int,
        ),
        !reward_overflows(balance2 as int, reward_rate as int, elapsed2 as int) ==> !reward_overflows(
            balance1 as int,
            reward_rate as int,
            elapsed1 as int,
        ),
{
    let b1 = balance1 as int;
    let b2 = balance2 as int;
    let k = reward_rate as int;
    let t1 = elapsed1 as int;
    let t2 = elapsed2 as int;
    assert(b1 * k <= b2 * k) by (nonlinear_arith)
        requires
            0 <= b1 <= b2,
            0 <= k,
    ;
    assert(b1 * k * t1 <= b2 * k * t2) by (nonlinear_arith)
        requires
            0 <= b1 * k <= b2 * k,
            0 <= t1 <= t2,
    ;
    assert(b1 * k * t1 / 8_640_000 <= b2 * k * t2 / 8_640_000) by (nonlinear_arith)
        requires
            b1 * k * t1 <= b2 * k * t2,
    ;
}

/// No reward accrues without elapsed time or at a zero rate; at a zero rate
/// the computation always succeeds.
pub proof fn lemma_reward_zero(balance: u64, reward_rate: u64, elapsed: u64)
    ensures
        reward_amount(balance as int, reward_rate as int, 0) == 0,
        reward_amount(balance as int, 0, elapsed as int) == 0,
        reward_result(balance, 0, elapsed) == Ok::<u64, ErrorCode>(0),
{
    assert(balance as int * reward_rate as int * 0 == 0) by (nonlinear_arith);
    assert(balance as int * 0 * elapsed as int == 0) by (nonlinear_arith);
}

/// Whether a participant's reward multiplier scales the rewards it accrues.
#[derive(Clone, Copy, Debug, PartialEq, Eq, Structural)]
pub enum MultiplierMode {
    /// The multiplier is stored and never read.
    Inert,
    /// Rewards are multiplied by the multiplier; a multiplier of zero means
    /// that none was set and leaves rewards as they are.
    Active,
}

/// How the ledger treats reward multipliers: they are inert, so rewards
/// follow the base formula alone.
pub const MULTIPLIER_MODE: MultiplierMode = MultiplierMode::Inert;

/// The reward after `multiplier` is applied under `mode`.
pub open spec fn scaled_result(rewards: u64, multiplier: u64, mode: MultiplierMode) -> Result<
    u64,
    ErrorCode,
> {
    if mode == MultiplierMode::Inert || multiplier == 0 {
        Ok(rewards)
    } else if rewards * multiplier > u64::MAX {
        Err(ErrorCode::CalculationOverflow)
    } else {
        Ok((rewards * multiplier) as u64)
    }
}

/// Applies a participant's reward multiplier to `rewards` under `mode`,
/// with the multiplication checked.
pub fn apply_multiplier(rewards: u64, multiplier: u64, mode: MultiplierMode) -> (r: Result<
    u64,
    ErrorCode,
>)
    ensures
        r == scaled_result(rewards, multiplier, mode),
{
    match mode {
        MultiplierMode::Inert => Ok(rewards),
        MultiplierMode::Active => {
            if multiplier == 0 {
                Ok(rewards)
            } else {
                match rewards.checked_mul(multiplier) {
                    Some(v) => Ok(v),
                    None => Err(ErrorCode::CalculationOverflow),
                }
            }
        },
    }
}

} // verus!
