use vstd::prelude::*;

verus! {

/// The pool record: global configuration and escrow addresses for one
/// staking instance. Accounts and identities are plain 64-bit keys into the
/// external keyed store; the record never holds balances itself.
///
/// Created once by `initialize` and mutated only by the administrative
/// operations; `deposit` and `withdraw` read it as a snapshot.
#[derive(Clone, Copy, Debug, PartialEq, Eq, Structural)]
pub struct Staking {
    /// Derivation byte fixing the pool's custody-authority identity.
    pub bump: u8,
    /// Caller-chosen unique key distinguishing this pool instance.
    pub key: u64,
    /// Identity authorized to reconfigure the pool.
    pub signer: u64,
    /// The asset accepted for staking.
    pub token_mint: u64,
    /// Escrow account holding the staked asset, owned by the pool's custody authority.
    pub token_vault: u64,
    /// The asset paid out as reward.
    pub token_rewards_mint: u64,
    /// Escrow account holding the reward asset, owned by the pool's custody authority.
    pub token_rewards_vault: u64,
    /// Maximum stake a single position may hold.
    pub cap: u64,
    /// Reward units accrued per unit staked per unit time elapsed.
    pub rate: u64,
}

/// One participant's position in a pool: the staked balance and the reward
/// clock. Created once with zero balance, then mutated exclusively by
/// `deposit` and `withdraw`.
#[derive(Clone, Copy, Debug, PartialEq, Eq, Structural)]
pub struct StakingUser {
    /// Identity permitted to act on this position, immutable after creation.
    pub signer: u64,
    /// Timestamp of the most recent reward settlement.
    pub time_last: i64,
    /// Timestamp the current staked balance began accruing from; updated on deposit only.
    pub time_start: i64,
    /// Currently staked balance.
    pub amount: u64,
}

/// The credential under which a token movement is authorized: either the
/// caller spends their own funds, or the pool's derived custody authority
/// (a capability bound to the pool's key and bump, held by no human) releases
/// funds from an escrow it owns.
#[derive(Clone, Copy, Debug, PartialEq, Eq, Structural)]
pub enum Authority {
    /// The caller's own signature: valid only for accounts the caller owns.
    Caller { signer: u64 },
    /// The pool's derived custody authority: valid only for the pool's escrows.
    PoolCustody { key: u64, bump: u8 },
}

/// One instruction to the external token module: move `amount` units from
/// account `from` to account `to`, authorized by `authority`. The module
/// itself enforces balance sufficiency and that the credential matches the
/// source account's owner.
#[derive(Clone, Copy, Debug, PartialEq, Eq, Structural)]
pub struct TokenTransfer {
    pub from: u64,
    pub to: u64,
    pub authority: Authority,
    pub amount: u64,
}

} // verus!
