use vstd::prelude::*;
use crate::address::Address;

verus! {

/// The pool-wide record: who governs the pool, how much is staked in it, and
/// the terms on which stake earns and unlocks.
#[derive(Clone, Copy, Debug, PartialEq, Eq)]
pub struct StakingPoolAccount {
    pub authority: Address,
    /// The sum of the balances of all participants of this pool.
    pub total_staked: u64,
    /// Whole percent of the balance earned per day.
    pub reward_rate: u64,
    /// Seconds a deposit stays locked before it may be withdrawn.
    pub lock_period: i64,
    /// The token account that holds the pool's custodied funds.
    pub token_account: Address,
}

impl StakingPoolAccount {
    /// A pool whose lock period is not negative; `initialize_pool` makes only
    /// such pools, and no operation changes the lock period.
    pub open spec fn wf(&self) -> bool {
        self.lock_period >= 0
    }
}

/// The record of one participant of a pool.
#[derive(Clone, Copy, Debug, PartialEq, Eq)]
pub struct UserAccount {
    pub owner: Address,
    pub balance: u64,
    /// The token account that withdrawals are paid to.
    pub token_account: Address,
    /// When the balance was last deposited to or compounded.
    pub last_stake_timestamp: i64,
    /// All rewards ever credited to this participant.
    pub rewards_claimed: u64,
    /// Set by the pool authority once the balance is large enough; stored
    /// only, the reward formula does not read it.
    pub reward_multiplier: u64,
}

impl UserAccount {
    /// The record of a participant that has never staked, as storage creates
    /// it: every field zero.
    pub fn empty() -> (r: UserAccount)
        ensures
            r.balance == 0,
            r.last_stake_timestamp == 0,
            r.rewards_claimed == 0,
            r.reward_multiplier == 0,
            r.owner.bytes@ == seq![0u8; 32],
            r.token_account.bytes@ == seq![0u8; 32],
    {
        let zero = Address::new([0u8; 32]);
        assert(zero.bytes@ =~= seq![0u8; 32]);
        UserAccount {
            owner: zero,
            balance: 0,
            token_account: zero,
            last_stake_timestamp: 0,
            rewards_claimed: 0,
            reward_multiplier: 0,
        }
    }
}

/// A movement of `amount` tokens between two token accounts, which the host
/// performs on behalf of an operation.
#[derive(Clone, Copy, Debug, PartialEq, Eq)]
pub struct Transfer {
    pub from: Address,
    pub to: Address,
    pub amount: u64,
}

} // verus!
