use vstd::prelude::*;

use crate::errors::ErrorCode;
use crate::state::{Staking, StakingUser};

verus! {

/// Populate a fresh pool record. Creating and funding the two escrow
/// accounts, and persisting the record under its key, are the surrounding
/// store's work; this fixes every field the core will later read.
pub fn initialize(
    cap: u64,
    rate: u64,
    key: u64,
    bump: u8,
    signer: u64,
    token_mint: u64,
    token_vault: u64,
    token_rewards_mint: u64,
    token_rewards_vault: u64,
) -> (staking: Staking)
    ensures
        staking == (Staking {
            bump,
            key,
            signer,
            token_mint,
            token_vault,
            token_rewards_mint,
            token_rewards_vault,
            cap,
            rate,
        }),
{
    Staking {
        bump,
        key,
        signer,
        token_mint,
        token_vault,
        token_rewards_mint,
        token_rewards_vault,
        cap,
        rate,
    }
}

/// Owner-gated update of the pool's cap and rate. Refused with
/// `Unauthorized` exactly when the acting identity is not the pool's owner,
/// and then the record is untouched.
pub fn configure(staking: &mut Staking, signer: u64, cap: u64, rate: u64) -> (r: Result<
    (),
    ErrorCode,
>)
    ensures
        match r {
            Ok(()) => {
                &&& signer == old(staking).signer
                &&& *final(staking) == (Staking { cap, rate, ..*old(staking) })
            },
            Err(code) => {
                &&& signer != old(staking).signer
                &&& code == ErrorCode::Unauthorized
                &&& *final(staking) == *old(staking)
            },
        },
{
    if signer != staking.signer {
        return Err(ErrorCode::Unauthorized);
    }
    staking.cap = cap;
    staking.rate = rate;
    Ok(())
}

/// Owner-gated rotation of the pool's owner. Refused with `Unauthorized`
/// exactly when the acting identity is not the current owner, and then the
/// record is untouched.
pub fn configure_signer(staking: &mut Staking, signer: u64, new_signer: u64) -> (r: Result<
    (),
    ErrorCode,
>)
    ensures
        match r {
            Ok(()) => {
                &&& signer == old(staking).signer
                &&& *final(staking) == (Staking { signer: new_signer, ..*old(staking) })
            },
            Err(code) => {
                &&& signer != old(staking).signer
                &&& code == ErrorCode::Unauthorized
                &&& *final(staking) == *old(staking)
            },
        },
{
    if signer != staking.signer {
        return Err(ErrorCode::Unauthorized);
    }
    staking.signer = new_signer;
    Ok(())
}

/// A fresh position for one participant: zero balance, reward clock unset.
pub fn initialize_user(signer: u64) -> (user: StakingUser)
    ensures
        user == (StakingUser { signer, time_last: 0, time_start: 0, amount: 0 }),
{
    StakingUser { signer, time_last: 0, time_start: 0, amount: 0 }
}

} // verus!
