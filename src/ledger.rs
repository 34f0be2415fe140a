use vstd::prelude::*;
use crate::accounts::{StakingPoolAccount, UserAccount};
use crate::address::Address;
use crate::staking::{compound_outcome, deposit_outcome, emergency_outcome, withdraw_outcome};

verus! {

/// One operation of a run against a single pool, on the participant at
/// position `participant` of the pool's records.
#[derive(Clone, Copy, Debug, PartialEq, Eq)]
pub enum LedgerOp {
    Deposit {
        participant: usize,
        caller: Address,
        caller_token_account: Address,
        now: i64,
        amount: u64,
    },
    Withdraw { participant: usize, caller: Address, now: i64, amount: u64 },
    EmergencyWithdraw { participant: usize },
    Compound { participant: usize, now: i64 },
}

/// The sum of the balances of `users`.
pub open spec fn total_balance(users: Seq<UserAccount>) -> int
    decreases users.len(),
{
    if users.len() == 0 {
        0
    } else {
        total_balance(users.drop_last()) + users.last().balance
    }
}

/// The pool's total equals the sum of its participants' balances.
pub open spec fn totals_agree(pool: StakingPoolAccount, users: Seq<UserAccount>) -> bool {
    pool.total_staked == total_balance(users)
}

/// The pool and its participants after one operation; a refused operation,
/// or one on a participant that does not exist, changes nothing.
pub open spec fn apply_op(pool: StakingPoolAccount, users: Seq<UserAccount>, op: LedgerOp) -> (
    StakingPoolAccount,
    Seq<UserAccount>,
) {
    match op {
        LedgerOp::Deposit { participant, caller, caller_token_account, now, amount } => {
            if participant < users.len() {
                match deposit_outcome(
                    pool,
                    users[participant as int],
                    caller,
                    caller_token_account,
                    now,
                    amount,
                ) {
                    Ok((p, u, _)) => (p, users.update(participant as int, u)),
                    Err(_) => (pool, users),
                }
            } else {
                (pool, users)
            }
        },
        LedgerOp::Withdraw { participant, caller, now, amount } => {
            if participant < users.len() {
                match withdraw_outcome(pool, users[participant as int], caller, now, amount) {
                    Ok((p, u, _)) => (p, users.update(participant as int, u)),
                    Err(_) => (pool, users),
                }
            } else {
                (pool, users)
            }
        },
        LedgerOp::EmergencyWithdraw { participant } => {
            if participant < users.len() {
                match emergency_outcome(pool, users[participant as int]) {
                    Ok((p, u, _)) => (p, users.update(participant as int, u)),
                    Err(_) => (pool, users),
                }
            } else {
                (pool, users)
            }
        },
        LedgerOp::Compound { participant, now } => {
            if participant < users.len() {
                match compound_outcome(pool, users[participant as int], now) {
                    Ok((p, u, _)) => (p, users.update(participant as int, u)),
                    Err(_) => (pool, users),
                }
            } else {
                (pool, users)
            }
        },
    }
}

/// The pool and its participants after `ops`, applied in order.
pub open spec fn run_ops(pool: StakingPoolAccount, users: Seq<UserAccount>, ops: Seq<LedgerOp>) -> (
    StakingPoolAccount,
    Seq<UserAccount>,
)
    decreases ops.len(),
{
    if ops.len() == 0 {
        (pool, users)
    } else {
        let (p, u) = run_ops(pool, users, ops.drop_last());
        apply_op(p, u, ops.last())
    }
}

proof fn lemma_total_update(users: Seq<UserAccount>, i: int, u: UserAccount)
    requires
        0 <= i < users.len(),
    ensures
        total_balance(users.update(i, u)) == total_balance(users) - users[i].balance + u.balance,
    decreases users.len(),
{
    let updated = users.update(i, u);
    if i == users.len() - 1 {
        assert(updated.drop_last() =~= users.drop_last());
    } else {
        assert(updated.drop_last() =~= users.drop_last().update(i, u));
        lemma_total_update(users.drop_last(), i, u);
    }
}

proof fn lemma_op_keeps_totals(pool: StakingPoolAccount, users: Seq<UserAccount>, op: LedgerOp)
    requires
        totals_agree(pool, users),
    ensures
        totals_agree(apply_op(pool, users, op).0, apply_op(pool, users, op).1),
{
    match op {
        LedgerOp::Deposit { participant, .. } => {
            if participant < users.len() {
                let i = participant as int;
                lemma_total_update(users, i, apply_op(pool, users, op).1[i]);
            }
        },
        LedgerOp::Withdraw { participant, .. } => {
            if participant < users.len() {
                let i = participant as int;
                lemma_total_update(users, i, apply_op(pool, users, op).1[i]);
            }
        },
        LedgerOp::EmergencyWithdraw { participant } => {
            if participant < users.len() {
                let i = participant as int;
                lemma_total_update(users, i, apply_op(pool, users, op).1[i]);
            }
        },
        LedgerOp::Compound { participant, .. } => {
            if participant < users.len() {
                let i = participant as int;
                lemma_total_update(users, i, apply_op(pool, users, op).1[i]);
            }
        },
    }
}

/// Deposits, withdrawals, emergency withdrawals and compounding, in any
/// order and with any arguments, keep the pool's total equal to the sum of
/// its participants' balances after every operation of the run.
pub proof fn lemma_run_keeps_totals(
    pool: StakingPoolAccount,
    users: Seq<UserAccount>,
    ops: Seq<LedgerOp>,
)
    requires
        totals_agree(pool, users),
    ensures
        forall|k: int|
            0 <= k <= ops.len() ==> #[trigger] totals_agree(
                run_ops(pool, users, ops.take(k)).0,
                run_ops(pool, users, ops.take(k)).1,
            ),
    decreases ops.len(),
{
    if ops.len() > 0 {
        lemma_run_keeps_totals(pool, users, ops.drop_last());
        assert forall|k: int| 0 <= k <= ops.len() implies #[trigger] totals_agree(
            run_ops(pool, users, ops.take(k)).0,
            run_ops(pool, users, ops.take(k)).1,
        ) by {
            if k < ops.len() {
                assert(ops.take(k) =~= ops.drop_last().take(k));
            } else {
                assert(ops.take(k) =~= ops);
                assert(ops.drop_last().take(k - 1) =~= ops.drop_last());
                let (p, u) = run_ops(pool, users, ops.drop_last());
                lemma_op_keeps_totals(p, u, ops.last());
            }
        }
    } else {
        assert forall|k: int| 0 <= k <= ops.len() implies #[trigger] totals_agree(
            run_ops(pool, users, ops.take(k)).0,
            run_ops(pool, users, ops.take(k)).1,
        ) by {
            assert(ops.take(k) =~= ops);
        }
    }
}

} // verus!
