use vstd::prelude::*;

use crate::errors::ErrorCode;
use crate::math::spec_elapsed;
use crate::ops::{
    deposit_error, deposited, settle_ok, settled_reward, withdraw_error, withdrawn,
};
use crate::state::{Staking, StakingUser};

verus! {

/// One balance-changing request against a position, as its owner would make
/// it: the timestamp the operation runs at and the amount moved.
#[derive(Clone, Copy, Debug, PartialEq, Eq, Structural)]
pub enum Op {
    Deposit { now: i64, amount: u64 },
    Withdraw { now: i64, amount: u64 },
}

/// The timestamp an operation runs at.
pub open spec fn op_time(op: Op) -> i64 {
    match op {
        Op::Deposit { now, .. } => now,
        Op::Withdraw { now, .. } => now,
    }
}

/// How an operation moves the staked balance: deposits count positively,
/// withdrawals negatively.
pub open spec fn op_delta(op: Op) -> int {
    match op {
        Op::Deposit { amount, .. } => amount as int,
        Op::Withdraw { amount, .. } => -(amount as int),
    }
}

/// The position after one operation performed by its owner, or the error
/// that refuses it — exactly the transition `deposit` and `withdraw` are
/// proved to implement.
pub open spec fn apply_op(staking: Staking, user: StakingUser, op: Op) -> Result<
    StakingUser,
    ErrorCode,
> {
    match op {
        Op::Deposit { now, amount } => match deposit_error(staking, user, user.signer, now, amount) {
            None => Ok(deposited(user, now, amount)),
            Some(code) => Err(code),
        },
        Op::Withdraw { now, amount } => match withdraw_error(
            staking,
            user,
            user.signer,
            now,
            amount,
        ) {
            None => Ok(withdrawn(user, now, amount)),
            Some(code) => Err(code),
        },
    }
}

/// The position after a whole run of operations, or `None` as soon as one
/// of them is refused.
pub open spec fn run_ops(staking: Staking, user: StakingUser, ops: Seq<Op>) -> Option<StakingUser>
    decreases ops.len(),
{
    if ops.len() == 0 {
        Some(user)
    } else {
        match apply_op(staking, user, ops[0]) {
            Ok(next) => run_ops(staking, next, ops.drop_first()),
            Err(_) => None,
        }
    }
}

/// The net amount a run of operations stakes: the sum of its deposits minus
/// the sum of its withdrawals.
pub open spec fn net_staked(ops: Seq<Op>) -> int
    decreases ops.len(),
{
    if ops.len() == 0 {
        0
    } else {
        op_delta(ops[0]) + net_staked(ops.drop_first())
    }
}

/// Balance conservation and the cap invariant: when every operation of a
/// run succeeds, the final staked balance is exactly the starting balance
/// plus the deposits minus the withdrawals, and — provided the starting
/// balance respected the pool's cap — so does the final one.
pub proof fn lemma_balance_conservation(
    staking: Staking,
    user: StakingUser,
    ops: Seq<Op>,
    end: StakingUser,
)
    requires
        user.amount <= staking.cap,
        run_ops(staking, user, ops) == Some(end),
    ensures
        end.amount as int == user.amount as int + net_staked(ops),
        end.amount <= staking.cap,
    decreases ops.len(),
{
    if ops.len() == 0 {
        assert(end == user);
    } else {
        let next = apply_op(staking, user, ops[0])->Ok_0;
        assert(apply_op(staking, user, ops[0]) is Ok);
        assert(next.amount as int == user.amount as int + op_delta(ops[0]));
        assert(next.amount <= staking.cap);
        lemma_balance_conservation(staking, next, ops.drop_first(), end);
    }
}

/// Every intermediate state of a successful run is itself reached by a
/// successful run of the prefix.
pub proof fn lemma_prefix_runs(staking: Staking, user: StakingUser, ops: Seq<Op>, i: int)
    requires
        run_ops(staking, user, ops) is Some,
        0 <= i <= ops.len(),
    ensures
        run_ops(staking, user, ops.take(i)) is Some,
    decreases ops.len(),
{
    if i == 0 {
        assert(ops.take(0).len() == 0);
    } else {
        let next = apply_op(staking, user, ops[0])->Ok_0;
        assert(ops.take(i)[0] == ops[0]);
        assert(ops.take(i).drop_first() =~= ops.drop_first().take(i - 1));
        lemma_prefix_runs(staking, next, ops.drop_first(), i - 1);
    }
}

/// The cap is never exceeded at any point of a successful run: whatever
/// prefix of it one stops after, the balance reached respects the pool's
/// cap.
pub proof fn lemma_cap_never_exceeded(
    staking: Staking,
    user: StakingUser,
    ops: Seq<Op>,
    i: int,
    mid: StakingUser,
)
    requires
        user.amount <= staking.cap,
        run_ops(staking, user, ops) is Some,
        0 <= i <= ops.len(),
        run_ops(staking, user, ops.take(i)) == Some(mid),
    ensures
        mid.amount <= staking.cap,
{
    lemma_balance_conservation(staking, user, ops.take(i), mid);
}

/// No reward is settled twice for one interval: after any successful
/// operation, a second operation at the same timestamp finds an elapsed
/// time of zero, so the reward it settles is exactly zero.
pub proof fn lemma_no_double_reward(staking: Staking, user: StakingUser, next: StakingUser, op: Op)
    requires
        apply_op(staking, user, op) == Ok::<StakingUser, ErrorCode>(next),
    ensures
        settled_reward(next, staking.rate, op_time(op)) == 0,
{
    let now = op_time(op);
    assert(next.time_last == now);
    assert(spec_elapsed(next.time_last, now) == 0);
    assert(next.amount as int * 0 * staking.rate as int == 0) by (nonlinear_arith);
}

/// The settlement clock never runs backward: any successful operation
/// leaves `time_last` at its own timestamp, which settlement has already
/// checked to be no earlier than the previous one.
pub proof fn lemma_clock_monotone(staking: Staking, user: StakingUser, next: StakingUser, op: Op)
    requires
        apply_op(staking, user, op) == Ok::<StakingUser, ErrorCode>(next),
    ensures
        next.time_last == op_time(op),
        next.time_last >= user.time_last,
{
}

/// A withdrawal of more than the staked balance is refused with `NotEnough`
/// whenever the owner acts and the settlement itself is clean (the clock
/// did not run backward and the reward formula fits). `withdraw` then
/// leaves the position untouched, by its own contract.
pub proof fn lemma_withdraw_not_enough(staking: Staking, user: StakingUser, now: i64, amount: u64)
    requires
        settle_ok(user, staking.rate, now),
        amount > user.amount,
    ensures
        withdraw_error(staking, user, user.signer, now, amount) == Some(ErrorCode::NotEnough),
{
}

/// A deposit that would push the balance above the pool's cap is refused
/// with `OverCap` whenever the owner acts, the settlement is clean and the
/// grown balance still fits the 64-bit range. `deposit` then leaves the
/// position untouched and instructs no transfer, by its own contract.
pub proof fn lemma_deposit_over_cap(staking: Staking, user: StakingUser, now: i64, amount: u64)
    requires
        settle_ok(user, staking.rate, now),
        user.amount as int + amount as int <= u64::MAX as int,
        user.amount as int + amount as int > staking.cap as int,
    ensures
        deposit_error(staking, user, user.signer, now, amount) == Some(ErrorCode::OverCap),
{
}

/// A clock observed to run backward fails the next operation, deposit or
/// withdrawal alike, with `Underflow` — before any other check of the
/// operation gets to decide. Both operations then leave the position
/// untouched, by their own contracts.
pub proof fn lemma_clock_regression(staking: Staking, user: StakingUser, now: i64, amount: u64)
    requires
        now < user.time_last,
    ensures
        deposit_error(staking, user, user.signer, now, amount) == Some(ErrorCode::Underflow),
        withdraw_error(staking, user, user.signer, now, amount) == Some(ErrorCode::Underflow),
{
}

} // verus!
