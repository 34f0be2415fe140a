use staking_pool::accounts::{StakingPoolAccount, Transfer, UserAccount};
use staking_pool::address::Address;
use staking_pool::basic_pool::{initialize, stake, StakingPool};
use staking_pool::error::ErrorCode;
use staking_pool::rewards::{apply_multiplier, calculate_rewards, time_elapsed, MultiplierMode};
use staking_pool::staking::{
    compound_rewards, emergency_penalty, emergency_withdraw, initialize_pool, stake_deposit,
    stake_withdraw, update_reward_multiplier,
};

const DAY: i64 = 86_400;

fn key(b: u8) -> Address {
    Address::new([b; 32])
}

fn pool(reward_rate: u64, lock_period: i64) -> StakingPoolAccount {
    initialize_pool(key(1), key(2), reward_rate, lock_period).unwrap()
}

fn staked_user(balance: u64, last: i64) -> UserAccount {
    UserAccount {
        owner: key(10),
        balance,
        token_account: key(11),
        last_stake_timestamp: last,
        rewards_claimed: 0,
        reward_multiplier: 0,
    }
}

#[test]
fn initialize_pool_sets_fields() {
    let p = initialize_pool(key(1), key(2), 10, DAY).unwrap();
    assert_eq!(p.authority, key(1));
    assert_eq!(p.token_account, key(2));
    assert_eq!(p.total_staked, 0);
    assert_eq!(p.reward_rate, 10);
    assert_eq!(p.lock_period, DAY);
}

#[test]
fn initialize_pool_rejects_negative_lock() {
    assert_eq!(initialize_pool(key(1), key(2), 10, -1), Err(ErrorCode::InvalidAmount));
    assert!(initialize_pool(key(1), key(2), 0, 0).is_ok());
}

#[test]
fn reward_one_day_example() {
    assert_eq!(calculate_rewards(1_000_000, 10, 86_400), Ok(100_000));
}

#[test]
fn reward_rounds_down() {
    assert_eq!(calculate_rewards(1, 1, 8_639_999), Ok(0));
    assert_eq!(calculate_rewards(1, 1, 8_640_000), Ok(1));
    assert_eq!(calculate_rewards(3, 7, 8_640_000), Ok(21));
}

#[test]
fn reward_zero_time_or_zero_rate() {
    assert_eq!(calculate_rewards(1_000_000, 10, 0), Ok(0));
    assert_eq!(calculate_rewards(1_000_000, 0, 86_400), Ok(0));
    assert_eq!(calculate_rewards(u64::MAX, 0, u64::MAX), Ok(0));
}

#[test]
fn reward_monotonic_samples() {
    let mut prev = 0;
    for t in [0u64, 1, 3_600, 86_400, 864_000, 8_640_000] {
        let r = calculate_rewards(1_000_000, 10, t).unwrap();
        assert!(r >= prev);
        prev = r;
    }
    let mut prev = 0;
    for b in [0u64, 1, 999, 1_000_000, 1_000_000_000] {
        let r = calculate_rewards(b, 10, 86_400).unwrap();
        assert!(r >= prev);
        prev = r;
    }
}

#[test]
fn reward_overflow_cases() {
    assert_eq!(calculate_rewards(u64::MAX, 2, 0), Err(ErrorCode::CalculationOverflow));
    assert_eq!(calculate_rewards(u64::MAX, 1, 2), Err(ErrorCode::CalculationOverflow));
    assert_eq!(calculate_rewards(u64::MAX, 1, 1), Ok(u64::MAX / 8_640_000));
}

#[test]
fn elapsed_clamps_backwards_clock() {
    assert_eq!(time_elapsed(100, 40), 60);
    assert_eq!(time_elapsed(40, 100), 0);
    assert_eq!(time_elapsed(i64::MAX, i64::MIN), u64::MAX);
}

#[test]
fn deposit_zero_is_rejected_and_changes_nothing() {
    let mut p = pool(10, DAY);
    let mut u = UserAccount::empty();
    let (p0, u0) = (p, u);
    assert_eq!(
        stake_deposit(&mut p, &mut u, key(10), key(11), 1_000, 0),
        Err(ErrorCode::InvalidAmount)
    );
    assert_eq!(p, p0);
    assert_eq!(u, u0);
}

#[test]
fn first_deposit_claims_record() {
    let mut p = pool(10, DAY);
    let mut u = UserAccount::empty();
    let t = stake_deposit(&mut p, &mut u, key(10), key(11), 1_000, 500).unwrap();
    assert_eq!(t, Transfer { from: key(11), to: key(2), amount: 500 });
    assert_eq!(u.owner, key(10));
    assert_eq!(u.token_account, key(11));
    assert_eq!(u.balance, 500);
    assert_eq!(u.last_stake_timestamp, 1_000);
    assert_eq!(p.total_staked, 500);
}

#[test]
fn later_deposit_resets_lock_and_keeps_owner() {
    let mut p = pool(10, DAY);
    let mut u = staked_user(500, 1_000);
    p.total_staked = 500;
    stake_deposit(&mut p, &mut u, key(20), key(21), 5_000, 300).unwrap();
    assert_eq!(u.owner, key(10));
    assert_eq!(u.token_account, key(11));
    assert_eq!(u.balance, 800);
    assert_eq!(u.last_stake_timestamp, 5_000);
    assert_eq!(p.total_staked, 800);
}

#[test]
fn deposit_overflow_is_rejected() {
    let mut p = pool(10, DAY);
    let mut u = staked_user(u64::MAX, 0);
    p.total_staked = u64::MAX;
    let (p0, u0) = (p, u);
    assert_eq!(
        stake_deposit(&mut p, &mut u, key(10), key(11), 5, 1),
        Err(ErrorCode::CalculationOverflow)
    );
    assert_eq!((p, u), (p0, u0));
}

#[test]
fn withdraw_before_lock_is_locked_for_any_amount() {
    for amount in [1u64, 500, 1_000] {
        let mut p = pool(10, DAY);
        p.total_staked = 1_000;
        let mut u = staked_user(1_000, 0);
        let (p0, u0) = (p, u);
        assert_eq!(
            stake_withdraw(&mut p, &mut u, key(10), DAY - 1, amount),
            Err(ErrorCode::StakeLocked)
        );
        assert_eq!((p, u), (p0, u0));
    }
}

#[test]
fn withdraw_checks_in_order() {
    let mut p = pool(10, DAY);
    p.total_staked = 1_000;
    let mut u = staked_user(1_000, 0);
    assert_eq!(stake_withdraw(&mut p, &mut u, key(99), 2 * DAY, 1), Err(ErrorCode::Unauthorized));
    assert_eq!(stake_withdraw(&mut p, &mut u, key(10), 0, 0), Err(ErrorCode::InvalidAmount));
    assert_eq!(
        stake_withdraw(&mut p, &mut u, key(10), 0, 1_001),
        Err(ErrorCode::InsufficientFunds)
    );
    assert_eq!(stake_withdraw(&mut p, &mut u, key(10), 0, 1_000), Err(ErrorCode::StakeLocked));
}

#[test]
fn withdraw_records_reward_on_whole_balance() {
    let mut p = pool(10, DAY);
    p.total_staked = 1_000_000;
    let mut u = staked_user(1_000_000, 0);
    let t = stake_withdraw(&mut p, &mut u, key(10), DAY, 400_000).unwrap();
    assert_eq!(t, Transfer { from: key(2), to: key(11), amount: 400_000 });
    assert_eq!(u.balance, 600_000);
    assert_eq!(u.rewards_claimed, 100_000);
    assert_eq!(u.last_stake_timestamp, 0);
    assert_eq!(p.total_staked, 600_000);
}

#[test]
fn withdraw_reward_overflow_changes_nothing() {
    let mut p = pool(u64::MAX, 0);
    p.total_staked = u64::MAX;
    let mut u = staked_user(u64::MAX, 0);
    let (p0, u0) = (p, u);
    assert_eq!(
        stake_withdraw(&mut p, &mut u, key(10), DAY, 1),
        Err(ErrorCode::CalculationOverflow)
    );
    assert_eq!((p, u), (p0, u0));
}

#[test]
fn compound_reward_overflow_changes_nothing() {
    let mut p = pool(u64::MAX, 0);
    p.total_staked = u64::MAX;
    let mut u = staked_user(u64::MAX, 0);
    let (p0, u0) = (p, u);
    assert_eq!(compound_rewards(&mut p, &mut u, DAY), Err(ErrorCode::CalculationOverflow));
    assert_eq!((p, u), (p0, u0));
}

#[test]
fn emergency_withdraw_takes_penalty() {
    let mut p = pool(10, DAY);
    p.total_staked = 1_500_000_000;
    let mut u = staked_user(1_000_000_000, 0);
    assert_eq!(emergency_penalty(1_000_000_000), 100_000_000);
    let t = emergency_withdraw(&mut p, &mut u).unwrap();
    assert_eq!(t, Transfer { from: key(2), to: key(11), amount: 900_000_000 });
    assert_eq!(u.balance, 0);
    assert_eq!(p.total_staked, 500_000_000);
}

#[test]
fn emergency_penalty_rounds_down() {
    assert_eq!(emergency_penalty(19), 1);
    assert_eq!(emergency_penalty(9), 0);
    assert_eq!(emergency_penalty(u64::MAX), u64::MAX / 10);
}

#[test]
fn emergency_withdraw_empty_is_rejected() {
    let mut p = pool(10, DAY);
    let mut u = staked_user(0, 0);
    assert_eq!(emergency_withdraw(&mut p, &mut u), Err(ErrorCode::InsufficientFunds));
}

#[test]
fn compound_adds_reward_and_restarts_lock() {
    let mut p = pool(10, DAY);
    p.total_staked = 1_000_000;
    let mut u = staked_user(1_000_000, 0);
    assert_eq!(compound_rewards(&mut p, &mut u, DAY), Ok(100_000));
    assert_eq!(u.balance, 1_100_000);
    assert_eq!(u.last_stake_timestamp, DAY);
    assert_eq!(p.total_staked, 1_100_000);
}

#[test]
fn compound_without_reward_is_rejected() {
    let mut p = pool(10, DAY);
    p.total_staked = 1_000_000;
    let mut u = staked_user(1_000_000, 100);
    let (p0, u0) = (p, u);
    assert_eq!(compound_rewards(&mut p, &mut u, 100), Err(ErrorCode::NoRewardsAvailable));
    assert_eq!(compound_rewards(&mut p, &mut u, 50), Err(ErrorCode::NoRewardsAvailable));
    assert_eq!((p, u), (p0, u0));
}

#[test]
fn multiplier_needs_threshold() {
    let p = pool(10, DAY);
    let mut u = staked_user(999_999_999, 0);
    assert_eq!(
        update_reward_multiplier(&p, &mut u, key(1), 3),
        Err(ErrorCode::InsufficientStake)
    );
    assert_eq!(u.reward_multiplier, 0);
    let mut u = staked_user(1_000_000_000, 0);
    assert_eq!(update_reward_multiplier(&p, &mut u, key(1), 3), Ok(()));
    assert_eq!(u.reward_multiplier, 3);
}

#[test]
fn multiplier_needs_authority() {
    let p = pool(10, DAY);
    let mut u = staked_user(1_000_000_000, 0);
    assert_eq!(update_reward_multiplier(&p, &mut u, key(10), 3), Err(ErrorCode::Unauthorized));
    assert_eq!(u.reward_multiplier, 0);
}

#[test]
fn totals_match_balances_over_a_run() {
    let mut p = pool(0, 0);
    let mut users = [UserAccount::empty(), UserAccount::empty()];
    let callers = [(key(10), key(11)), (key(20), key(21))];
    let steps: [(usize, bool, u64); 7] = [
        (0, true, 500),
        (1, true, 300),
        (0, false, 200),
        (1, true, 0),
        (1, false, 400),
        (0, true, 50),
        (1, false, 300),
    ];
    for (i, (who, deposit, amount)) in steps.iter().enumerate() {
        let now = i as i64 * 10;
        let (caller, token) = callers[*who];
        let _ = if *deposit {
            stake_deposit(&mut p, &mut users[*who], caller, token, now, *amount)
        } else {
            stake_withdraw(&mut p, &mut users[*who], caller, now, *amount)
        };
        assert_eq!(p.total_staked, users[0].balance + users[1].balance);
    }
    assert_eq!(users[0].balance, 350);
    assert_eq!(users[1].balance, 0);
}

#[test]
fn address_comparison() {
    assert!(key(3).same_as(&key(3)));
    let mut b = [3u8; 32];
    b[31] = 4;
    assert!(!key(3).same_as(&Address::new(b)));
}

#[test]
fn basic_pool_counts_stake() {
    let mut p = StakingPool { total_staked: 7, reward_rate: 0 };
    initialize(&mut p);
    assert_eq!(p, StakingPool { total_staked: 0, reward_rate: 1000 });
    assert_eq!(stake(&mut p, 40), Ok(()));
    assert_eq!(stake(&mut p, 2), Ok(()));
    assert_eq!(p.total_staked, 42);
    p.total_staked = u64::MAX;
    assert_eq!(stake(&mut p, 1), Err(ErrorCode::CalculationOverflow));
    assert_eq!(p.total_staked, u64::MAX);
}

#[test]
fn multiplier_modes() {
    assert_eq!(apply_multiplier(100, 3, MultiplierMode::Inert), Ok(100));
    assert_eq!(apply_multiplier(100, 3, MultiplierMode::Active), Ok(300));
    assert_eq!(apply_multiplier(100, 0, MultiplierMode::Active), Ok(100));
    assert_eq!(
        apply_multiplier(u64::MAX, 2, MultiplierMode::Active),
        Err(ErrorCode::CalculationOverflow)
    );
}

#[test]
fn stored_multiplier_does_not_change_rewards() {
    let mut p = pool(10, DAY);
    p.total_staked = 1_000_000;
    let mut u = staked_user(1_000_000, 0);
    u.reward_multiplier = 5;
    assert_eq!(compound_rewards(&mut p, &mut u, DAY), Ok(100_000));
}
