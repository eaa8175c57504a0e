use vstd::prelude::*;

use crate::errors::ErrorCode;
use crate::math::{elapsed_since, reward_amount, reward_fits, spec_reward};
use crate::state::{Authority, Staking, StakingUser, TokenTransfer};

verus! {

/// The token movements one successful operation instructs, in the order
/// they must be performed: the reward payout of the settlement first, then
/// the move of the staked asset itself.
#[derive(Clone, Copy, Debug, PartialEq, Eq, Structural)]
pub struct OpEffects {
    /// Reward asset, pool escrow to participant, under the pool's custody authority.
    pub reward_transfer: TokenTransfer,
    /// Staked asset: into the vault on deposit, out of it on withdrawal.
    pub stake_transfer: TokenTransfer,
}

/// Reward settlement succeeds on this position at `now`: the clock did not
/// run backward and the reward formula stays within the 64-bit range.
pub open spec fn settle_ok(user: StakingUser, rate: u64, now: i64) -> bool {
    &&& now >= user.time_last
    &&& reward_fits(user.amount, user.time_last, rate, now)
}

/// The exact reward a settlement of this position at `now` pays.
pub open spec fn settled_reward(user: StakingUser, rate: u64, now: i64) -> int {
    spec_reward(user.amount, user.time_last, rate, now)
}

/// The settlement payout: the settled reward in the reward asset, from the
/// pool's reward escrow to the participant's reward account, authorized by
/// the pool's derived custody authority — never by the participant.
pub open spec fn reward_payout(
    staking: Staking,
    user: StakingUser,
    token_rewards_user: u64,
    now: i64,
) -> TokenTransfer {
    TokenTransfer {
        from: staking.token_rewards_vault,
        to: token_rewards_user,
        authority: Authority::PoolCustody { key: staking.key, bump: staking.bump },
        amount: settled_reward(user, staking.rate, now) as u64,
    }
}

/// The error a deposit returns, with the checks in the order the operation
/// makes them; `None` exactly when the deposit succeeds.
pub open spec fn deposit_error(
    staking: Staking,
    user: StakingUser,
    signer: u64,
    now: i64,
    amount: u64,
) -> Option<ErrorCode> {
    if signer != user.signer {
        Some(ErrorCode::Unauthorized)
    } else if now < user.time_last {
        Some(ErrorCode::Underflow)
    } else if !reward_fits(user.amount, user.time_last, staking.rate, now) {
        Some(ErrorCode::Overflow)
    } else if user.amount as int + amount as int > u64::MAX as int {
        Some(ErrorCode::Overflow)
    } else if user.amount as int + amount as int > staking.cap as int {
        Some(ErrorCode::OverCap)
    } else {
        None
    }
}

/// The position after a successful deposit: balance grown by `amount`, both
/// clocks set to `now`.
pub open spec fn deposited(user: StakingUser, now: i64, amount: u64) -> StakingUser {
    StakingUser {
        time_last: now,
        time_start: now,
        amount: (user.amount + amount) as u64,
        ..user
    }
}

/// The error a withdrawal returns, with the checks in the order the
/// operation makes them; `None` exactly when the withdrawal succeeds.
pub open spec fn withdraw_error(
    staking: Staking,
    user: StakingUser,
    signer: u64,
    now: i64,
    amount: u64,
) -> Option<ErrorCode> {
    if signer != user.signer {
        Some(ErrorCode::Unauthorized)
    } else if now < user.time_last {
        Some(ErrorCode::Underflow)
    } else if !reward_fits(user.amount, user.time_last, staking.rate, now) {
        Some(ErrorCode::Overflow)
    } else if amount > user.amount {
        Some(ErrorCode::NotEnough)
    } else {
        None
    }
}

/// The position after a successful withdrawal: balance shrunk by `amount`,
/// settlement clock set to `now`, accrual start untouched.
pub open spec fn withdrawn(user: StakingUser, now: i64, amount: u64) -> StakingUser {
    StakingUser { time_last: now, amount: (user.amount - amount) as u64, ..user }
}

/// The reward accrued by a position since its last settlement, checked but
/// without touching the record: `Underflow` exactly when the clock ran
/// backward, `Overflow` exactly when the formula leaves the 64-bit range,
/// and otherwise the exact product. Shared by deposit and withdrawal as the
/// computing half of reward settlement.
pub fn pending_reward(user: StakingUser, rate: u64, now: i64) -> (r: Result<u64, ErrorCode>)
    ensures
        match r {
            Ok(reward) => {
                &&& settle_ok(user, rate, now)
                &&& reward as int == settled_reward(user, rate, now)
            },
            Err(code) => {
                &&& !settle_ok(user, rate, now)
                &&& code == (if now < user.time_last {
                    ErrorCode::Underflow
                } else {
                    ErrorCode::Overflow
                })
            },
        },
{
    let elapsed = match elapsed_since(user.time_last, now) {
        Ok(elapsed) => elapsed,
        Err(code) => {
            return Err(code);
        },
    };
    reward_amount(user.amount, elapsed, rate)
}

/// Deposit `amount` of the stake asset into the caller's position.
///
/// Settles the pending reward against the balance in effect during the
/// elapsed interval, then grows the balance, enforcing the pool's cap. On
/// success the position carries the new balance with both clocks at `now`,
/// and the returned effects instruct the reward payout (pool custody
/// authority) followed by the stake move from the caller's account into the
/// pool's vault (the caller's own authority — they spend their own funds).
/// On any error the position is untouched and nothing is instructed.
pub fn deposit(
    staking: &Staking,
    user: &mut StakingUser,
    signer: u64,
    token_user: u64,
    token_rewards_user: u64,
    now: i64,
    amount: u64,
) -> (r: Result<OpEffects, ErrorCode>)
    ensures
        match r {
            Ok(effects) => {
                &&& deposit_error(*staking, *old(user), signer, now, amount) is None
                &&& *final(user) == deposited(*old(user), now, amount)
                &&& effects.reward_transfer == reward_payout(
                    *staking,
                    *old(user),
                    token_rewards_user,
                    now,
                )
                &&& effects.stake_transfer == (TokenTransfer {
                    from: token_user,
                    to: staking.token_vault,
                    authority: Authority::Caller { signer },
                    amount,
                })
            },
            Err(code) => {
                &&& deposit_error(*staking, *old(user), signer, now, amount) == Some(code)
                &&& *final(user) == *old(user)
            },
        },
{
    if signer != user.signer {
        return Err(ErrorCode::Unauthorized);
    }
    let reward = match pending_reward(*user, staking.rate, now) {
        Ok(reward) => reward,
        Err(code) => {
            return Err(code);
        },
    };
    let new_amount = match user.amount.checked_add(amount) {
        Some(new_amount) => new_amount,
        None => {
            return Err(ErrorCode::Overflow);
        },
    };
    if new_amount > staking.cap {
        return Err(ErrorCode::OverCap);
    }
    user.time_last = now;
    user.time_start = now;
    user.amount = new_amount;
    Ok(OpEffects {
        reward_transfer: TokenTransfer {
            from: staking.token_rewards_vault,
            to: token_rewards_user,
            authority: Authority::PoolCustody { key: staking.key, bump: staking.bump },
            amount: reward,
        },
        stake_transfer: TokenTransfer {
            from: token_user,
            to: staking.token_vault,
            authority: Authority::Caller { signer },
            amount,
        },
    })
}

/// Withdraw `amount` of the stake asset from the caller's position.
///
/// Settles the pending reward against the balance in effect during the
/// elapsed interval, then shrinks the balance, refusing with `NotEnough`
/// when more is asked than is staked. On success the settlement clock is at
/// `now` while the accrual start is untouched, and the returned effects
/// instruct the reward payout followed by the stake move from the pool's
/// vault back to the caller — both under the pool's custody authority, since
/// both leave pool-owned escrows. On any error the position is untouched and
/// nothing is instructed.
pub fn withdraw(
    staking: &Staking,
    user: &mut StakingUser,
    signer: u64,
    token_user: u64,
    token_rewards_user: u64,
    now: i64,
    amount: u64,
) -> (r: Result<OpEffects, ErrorCode>)
    ensures
        match r {
            Ok(effects) => {
                &&& withdraw_error(*staking, *old(user), signer, now, amount) is None
                &&& *final(user) == withdrawn(*old(user), now, amount)
                &&& effects.reward_transfer == reward_payout(
                    *staking,
                    *old(user),
                    token_rewards_user,
                    now,
                )
                &&& effects.stake_transfer == (TokenTransfer {
                    from: staking.token_vault,
                    to: token_user,
                    authority: Authority::PoolCustody { key: staking.key, bump: staking.bump },
                    amount,
                })
            },
            Err(code) => {
                &&& withdraw_error(*staking, *old(user), signer, now, amount) == Some(code)
                &&& *final(user) == *old(user)
            },
        },
{
    if signer != user.signer {
        return Err(ErrorCode::Unauthorized);
    }
    let reward = match pending_reward(*user, staking.rate, now) {
        Ok(reward) => reward,
        Err(code) => {
            return Err(code);
        },
    };
    if amount > user.amount {
        return Err(ErrorCode::NotEnough);
    }
    user.time_last = now;
    user.amount = user.amount - amount;
    Ok(OpEffects {
        reward_transfer: TokenTransfer {
            from: staking.token_rewards_vault,
            to: token_rewards_user,
            authority: Authority::PoolCustody { key: staking.key, bump: staking.bump },
            amount: reward,
        },
        stake_transfer: TokenTransfer {
            from: staking.token_vault,
            to: token_user,
            authority: Authority::PoolCustody { key: staking.key, bump: staking.bump },
            amount,
        },
    })
}

} // verus!
