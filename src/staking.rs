use vstd::prelude::*;
use crate::accounts::{StakingPoolAccount, Transfer, UserAccount};
use crate::address::Address;
use crate::error::ErrorCode;
use crate::rewards::{
    apply_multiplier, calculate_rewards, elapsed_seconds, reward_result, scaled_result,
    time_elapsed, MULTIPLIER_MODE,
};

verus! {

/// The balance from which the pool authority may set a reward multiplier.
pub const MULTIPLIER_THRESHOLD: u64 = 1_000_000_000;

/// A pool freshly set up by `authority`, or why it cannot be.
pub open spec fn initialize_outcome(
    authority: Address,
    pool_token_account: Address,
    reward_rate: u64,
    lock_period: i64,
) -> Result<StakingPoolAccount, ErrorCode> {
    if lock_period < 0 {
        Err(ErrorCode::InvalidAmount)
    } else {
        Ok(
            StakingPoolAccount {
                authority,
                total_staked: 0,
                reward_rate,
                lock_period,
                token_account: pool_token_account,
            },
        )
    }
}

/// The records after `caller` deposits `amount` at time `now` from
/// `caller_token_account`, with the transfer into the pool that pays for it.
pub open spec fn deposit_outcome(
    pool: StakingPoolAccount,
    user: UserAccount,
    caller: Address,
    caller_token_account: Address,
    now: i64,
    amount: u64,
) -> Result<(StakingPoolAccount, UserAccount, Transfer), ErrorCode> {
    if amount == 0 {
        Err(ErrorCode::InvalidAmount)
    } else if user.balance + amount > u64::MAX || pool.total_staked + amount > u64::MAX {
        Err(ErrorCode::CalculationOverflow)
    } else {
        let fresh = user.balance == 0;
        Ok(
            (
                StakingPoolAccount { total_staked: (pool.total_staked + amount) as u64, ..pool },
                UserAccount {
                    owner: if fresh { caller } else { user.owner },
                    token_account: if fresh { caller_token_account } else { user.token_account },
                    balance: (user.balance + amount) as u64,
                    last_stake_timestamp: now,
                    ..user
                },
                Transfer { from: caller_token_account, to: pool.token_account, amount },
            ),
        )
    }
}

/// Whether the lock period has passed between the last stake and `now`.
pub open spec fn unlocked(pool: StakingPoolAccount, user: UserAccount, now: i64) -> bool {
    now - user.last_stake_timestamp >= pool.lock_period
}

/// The reward that the whole balance of `user` has accrued by `now`, scaled
/// by its multiplier as `MULTIPLIER_MODE` says.
pub open spec fn accrued_reward(pool: StakingPoolAccount, user: UserAccount, now: i64) -> Result<
    u64,
    ErrorCode,
> {
    match reward_result(
        user.balance,
        pool.reward_rate,
        elapsed_seconds(now as int, user.last_stake_timestamp as int) as u64,
    ) {
        Err(e) => Err(e),
        Ok(base) => scaled_result(base, user.reward_multiplier, MULTIPLIER_MODE),
    }
}

/// Computes `accrued_reward`.
fn accrued(pool: &StakingPoolAccount, user: &UserAccount, now: i64) -> (r: Result<u64, ErrorCode>)
    ensures
        r == accrued_reward(*pool, *user, now),
{
    let elapsed = time_elapsed(now, user.last_stake_timestamp);
    match calculate_rewards(user.balance, pool.reward_rate, elapsed) {
        Ok(base) => apply_multiplier(base, user.reward_multiplier, MULTIPLIER_MODE),
        Err(e) => Err(e),
    }
}

/// The records after `caller` withdraws `amount` at time `now`, with the
/// transfer out of the pool. The reward accrued on the whole balance is
/// recorded as claimed, not paid.
pub open spec fn withdraw_outcome(
    pool: StakingPoolAccount,
    user: UserAccount,
    caller: Address,
    now: i64,
    amount: u64,
) -> Result<(StakingPoolAccount, UserAccount, Transfer), ErrorCode> {
    if user.owner != caller {
        Err(ErrorCode::Unauthorized)
    } else if amount == 0 {
        Err(ErrorCode::InvalidAmount)
    } else if user.balance < amount {
        Err(ErrorCode::InsufficientFunds)
    } else if !unlocked(pool, user, now) {
        Err(ErrorCode::StakeLocked)
    } else {
        match accrued_reward(pool, user, now) {
            Err(e) => Err(e),
            Ok(rewards) => if user.rewards_claimed + rewards > u64::MAX || pool.total_staked
                < amount {
                Err(ErrorCode::CalculationOverflow)
            } else {
                Ok(
                    (
                        StakingPoolAccount {
                            total_staked: (pool.total_staked - amount) as u64,
                            ..pool
                        },
                        UserAccount {
                            balance: (user.balance - amount) as u64,
                            rewards_claimed: (user.rewards_claimed + rewards) as u64,
                            ..user
                        },
                        Transfer { from: pool.token_account, to: user.token_account, amount },
                    ),
                )
            },
        }
    }
}

/// The part of a balance that an emergency withdrawal forfeits: ten percent,
/// rounded down.
pub open spec fn penalty_of(balance: int) -> int {
    balance * 10 / 100
}

/// The records after the whole balance leaves early, with the transfer of
/// what remains after the penalty; the penalty stays in the pool's token
/// account.
pub open spec fn emergency_outcome(pool: StakingPoolAccount, user: UserAccount) -> Result<
    (StakingPoolAccount, UserAccount, Transfer),
    ErrorCode,
> {
    if user.balance == 0 {
        Err(ErrorCode::InsufficientFunds)
    } else if pool.total_staked < user.balance {
        Err(ErrorCode::CalculationOverflow)
    } else {
        Ok(
            (
                StakingPoolAccount {
                    total_staked: (pool.total_staked - user.balance) as u64,
                    ..pool
                },
                UserAccount { balance: 0, ..user },
                Transfer {
                    from: pool.token_account,
                    to: user.token_account,
                    amount: (user.balance - penalty_of(user.balance as int)) as u64,
                },
            ),
        )
    }
}

/// The records after the accrued reward is added to the balance at `now`,
/// with that reward.
pub open spec fn compound_outcome(pool: StakingPoolAccount, user: UserAccount, now: i64) -> Result<
    (StakingPoolAccount, UserAccount, u64),
    ErrorCode,
> {
    match accrued_reward(pool, user, now) {
        Err(e) => Err(e),
        Ok(rewards) => if rewards == 0 {
            Err(ErrorCode::NoRewardsAvailable)
        } else if user.balance + rewards > u64::MAX || pool.total_staked + rewards > u64::MAX {
            Err(ErrorCode::CalculationOverflow)
        } else {
            Ok(
                (
                    StakingPoolAccount {
                        total_staked: (pool.total_staked + rewards) as u64,
                        ..pool
                    },
                    UserAccount {
                        balance: (user.balance + rewards) as u64,
                        last_stake_timestamp: now,
                        ..user
                    },
                    rewards,
                ),
            )
        },
    }
}

/// The participant record after `signer` sets its multiplier.
pub open spec fn multiplier_outcome(
    pool: StakingPoolAccount,
    user: UserAccount,
    signer: Address,
    new_multiplier: u64,
) -> Result<UserAccount, ErrorCode> {
    if signer != pool.authority {
        Err(ErrorCode::Unauthorized)
    } else if user.balance < MULTIPLIER_THRESHOLD {
        Err(ErrorCode::InsufficientStake)
    } else {
        Ok(UserAccount { reward_multiplier: new_multiplier, ..user })
    }
}

/// Sets up a pool governed by `authority` whose funds sit in
/// `pool_token_account`. A negative lock period is refused: it would disable
/// the lock altogether.
pub fn initialize_pool(
    authority: Address,
    pool_token_account: Address,
    reward_rate: u64,
    lock_period: i64,
) -> (r: Result<StakingPoolAccount, ErrorCode>)
    ensures
        r == initialize_outcome(authority, pool_token_account, reward_rate, lock_period),
        r matches Ok(pool) ==> pool.wf(),
{
    if lock_period < 0 {
        return Err(ErrorCode::InvalidAmount);
    }
    Ok(
        StakingPoolAccount {
            authority,
            total_staked: 0,
            reward_rate,
            lock_period,
            token_account: pool_token_account,
        },
    )
}

/// Stakes `amount` for `caller` at time `now`. A record without balance is
/// claimed for `caller` and `caller_token_account`. Every deposit restarts
/// the lock on the whole balance. On success the host must move the returned
/// transfer into the pool, and keep the records only if that succeeds.
pub fn stake_deposit(
    pool: &mut StakingPoolAccount,
    user: &mut UserAccount,
    caller: Address,
    caller_token_account: Address,
    now: i64,
    amount: u64,
) -> (r: Result<Transfer, ErrorCode>)
    ensures
        match deposit_outcome(*old(pool), *old(user), caller, caller_token_account, now, amount) {
            Ok((p, u, t)) => r == Ok::<Transfer, ErrorCode>(t) && *final(pool) == p && *final(user)
                == u,
            Err(e) => r == Err::<Transfer, ErrorCode>(e) && *final(pool) == *old(pool)
                && *final(user) == *old(user),
        },
{
    if amount == 0 {
        return Err(ErrorCode::InvalidAmount);
    }
    let balance = match user.balance.checked_add(amount) {
        Some(b) => b,
        None => return Err(ErrorCode::CalculationOverflow),
    };
    let total = match pool.total_staked.checked_add(amount) {
        Some(t) => t,
        None => return Err(ErrorCode::CalculationOverflow),
    };
    if user.balance == 0 {
        user.owner = caller;
        user.token_account = caller_token_account;
    }
    user.balance = balance;
    user.last_stake_timestamp = now;
    pool.total_staked = total;
    Ok(Transfer { from: caller_token_account, to: pool.token_account, amount })
}

/// Withdraws `amount` for `caller` at time `now`, once the lock period has
/// passed. The reward accrued on the whole balance is added to
/// `rewards_claimed` and not paid out. On success the host must move the
/// returned transfer out of the pool, and keep the records only if that
/// succeeds.
pub fn stake_withdraw(
    pool: &mut StakingPoolAccount,
    user: &mut UserAccount,
    caller: Address,
    now: i64,
    amount: u64,
) -> (r: Result<Transfer, ErrorCode>)
    ensures
        match withdraw_outcome(*old(pool), *old(user), caller, now, amount) {
            Ok((p, u, t)) => r == Ok::<Transfer, ErrorCode>(t) && *final(pool) == p && *final(user)
                == u,
            Err(e) => r == Err::<Transfer, ErrorCode>(e) && *final(pool) == *old(pool)
                && *final(user) == *old(user),
        },
{
    if !user.owner.same_as(&caller) {
        return Err(ErrorCode::Unauthorized);
    }
    if amount == 0 {
        return Err(ErrorCode::InvalidAmount);
    }
    if user.balance < amount {
        return Err(ErrorCode::InsufficientFunds);
    }
    let time_staked: i128 = now as i128 - user.last_stake_timestamp as i128;
    if time_staked < pool.lock_period as i128 {
        return Err(ErrorCode::StakeLocked);
    }
    let rewards = match accrued(pool, user, now) {
        Ok(v) => v,
        Err(e) => return Err(e),
    };
    let claimed = match user.rewards_claimed.checked_add(rewards) {
        Some(c) => c,
        None => return Err(ErrorCode::CalculationOverflow),
    };
    if pool.total_staked < amount {
        return Err(ErrorCode::CalculationOverflow);
    }
    user.rewards_claimed = claimed;
    user.balance = user.balance - amount;
    pool.total_staked = pool.total_staked - amount;
    Ok(Transfer { from: pool.token_account, to: user.token_account, amount })
}

/// Ten percent of `balance`, rounded down.
pub fn emergency_penalty(balance: u64) -> (r: u64)
    ensures
        r as int == penalty_of(balance as int),
{
    balance / 10
}

/// Takes the whole balance out at once, lock or no lock, at a penalty of
/// ten percent. On success the host must pay the returned transfer, and keep
/// the records only if that succeeds.
pub fn emergency_withdraw(pool: &mut StakingPoolAccount, user: &mut UserAccount) -> (r: Result<
    Transfer,
    ErrorCode,
>)
    ensures
        match emergency_outcome(*old(pool), *old(user)) {
            Ok((p, u, t)) => r == Ok::<Transfer, ErrorCode>(t) && *final(pool) == p && *final(user)
                == u,
            Err(e) => r == Err::<Transfer, ErrorCode>(e) && *final(pool) == *old(pool)
                && *final(user) == *old(user),
        },
{
    if user.balance == 0 {
        return Err(ErrorCode::InsufficientFunds);
    }
    if pool.total_staked < user.balance {
        return Err(ErrorCode::CalculationOverflow);
    }
    let amount = user.balance;
    let penalty = emergency_penalty(amount);
    user.balance = 0;
    pool.total_staked = pool.total_staked - amount;
    Ok(Transfer { from: pool.token_account, to: user.token_account, amount: amount - penalty })
}

/// Adds the reward accrued by `now` to the balance and restarts the lock,
/// returning that reward. No tokens move: the pool's token account must
/// already hold the reward.
pub fn compound_rewards(pool: &mut StakingPoolAccount, user: &mut UserAccount, now: i64) -> (r:
    Result<u64, ErrorCode>)
    ensures
        match compound_outcome(*old(pool), *old(user), now) {
            Ok((p, u, v)) => r == Ok::<u64, ErrorCode>(v) && *final(pool) == p && *final(user) == u,
            Err(e) => r == Err::<u64, ErrorCode>(e) && *final(pool) == *old(pool) && *final(user)
                == *old(user),
        },
{
    let rewards = match accrued(pool, user, now) {
        Ok(v) => v,
        Err(e) => return Err(e),
    };
    if rewards == 0 {
        return Err(ErrorCode::NoRewardsAvailable);
    }
    let balance = match user.balance.checked_add(rewards) {
        Some(b) => b,
        None => return Err(ErrorCode::CalculationOverflow),
    };
    let total = match pool.total_staked.checked_add(rewards) {
        Some(t) => t,
        None => return Err(ErrorCode::CalculationOverflow),
    };
    user.balance = balance;
    user.last_stake_timestamp = now;
    pool.total_staked = total;
    Ok(rewards)
}

/// Lets the pool authority, signing as `signer`, set the reward multiplier
/// of a participant whose balance has reached the threshold.
pub fn update_reward_multiplier(
    pool: &StakingPoolAccount,
    user: &mut UserAccount,
    signer: Address,
    new_multiplier: u64,
) -> (r: Result<(), ErrorCode>)
    ensures
        match multiplier_outcome(*pool, *old(user), signer, new_multiplier) {
            Ok(u) => r is Ok && *final(user) == u,
            Err(e) => r == Err::<(), ErrorCode>(e) && *final(user) == *old(user),
        },
{
    if !signer.same_as(&pool.authority) {
        return Err(ErrorCode::Unauthorized);
    }
    if user.balance < MULTIPLIER_THRESHOLD {
        return Err(ErrorCode::InsufficientStake);
    }
    user.reward_multiplier = new_multiplier;
    Ok(())
}

/// A deposit of nothing is always refused as an invalid amount.
pub proof fn lemma_zero_deposit_rejected(
    pool: StakingPoolAccount,
    user: UserAccount,
    caller: Address,
    caller_token_account: Address,
    now: i64,
)
    ensures
        deposit_outcome(pool, user, caller, caller_token_account, now, 0) == Err::<
            (StakingPoolAccount, UserAccount, Transfer),
            ErrorCode,
        >(ErrorCode::InvalidAmount),
{
}

/// Before the lock period has passed since the last stake, the owner's
/// withdrawal of any amount within the balance is refused as locked.
pub proof fn lemma_withdraw_locked(
    pool: StakingPoolAccount,
    user: UserAccount,
    now: i64,
    amount: u64,
)
    requires
        0 < amount <= user.balance,
        now - user.last_stake_timestamp < pool.lock_period,
    ensures
        withdraw_outcome(pool, user, user.owner, now, amount) == Err::<
            (StakingPoolAccount, UserAccount, Transfer),
            ErrorCode,
        >(ErrorCode::StakeLocked),
{
}

/// Where a partial product of the reward leaves `u64`, compounding and any
/// withdrawal that reaches the reward computation fail with an overflow
/// (and the operations then leave both records unchanged).
pub proof fn lemma_reward_overflow_rejected(
    pool: StakingPoolAccount,
    user: UserAccount,
    now: i64,
    amount: u64,
)
    requires
        crate::rewards::reward_overflows(
            user.balance as int,
            pool.reward_rate as int,
            elapsed_seconds(now as int, user.last_stake_timestamp as int),
        ),
    ensures
        compound_outcome(pool, user, now) == Err::<(StakingPoolAccount, UserAccount, u64), ErrorCode>(
            ErrorCode::CalculationOverflow,
        ),
        0 < amount <= user.balance && unlocked(pool, user, now) ==> withdraw_outcome(
            pool,
            user,
            user.owner,
            now,
            amount,
        ) == Err::<(StakingPoolAccount, UserAccount, Transfer), ErrorCode>(
            ErrorCode::CalculationOverflow,
        ),
{
}

} // verus!
