use vstd::prelude::*;

use crate::errors::ErrorCode;

verus! {

/// Time elapsed between a position's last settlement and `now`, as a
/// mathematical integer (negative when the clock ran backward).
pub open spec fn spec_elapsed(time_last: i64, now: i64) -> int {
    now as int - time_last as int
}

/// The exact reward owed: staked amount times elapsed time times the pool's
/// rate, over unbounded integers.
pub open spec fn spec_reward(amount: u64, time_last: i64, rate: u64, now: i64) -> int {
    amount as int * spec_elapsed(time_last, now) * rate as int
}

/// Both multiplications of the reward formula stay within the 64-bit
/// unsigned range, in the order they are performed: first amount times
/// elapsed, then that product times the rate.
pub open spec fn reward_fits(amount: u64, time_last: i64, rate: u64, now: i64) -> bool {
    &&& amount as int * spec_elapsed(time_last, now) <= u64::MAX as int
    &&& amount as int * spec_elapsed(time_last, now) * rate as int <= u64::MAX as int
}

/// Checked elapsed time. Fails with `Underflow` exactly when the clock ran
/// backward relative to `time_last`; any non-negative span of two signed
/// 64-bit timestamps fits in a `u64`, so success needs nothing more.
pub fn elapsed_since(time_last: i64, now: i64) -> (r: Result<u64, ErrorCode>)
    ensures
        match r {
            Ok(elapsed) => now >= time_last && elapsed as int == spec_elapsed(time_last, now),
            Err(code) => now < time_last && code == ErrorCode::Underflow,
        },
{
    if now < time_last {
        Err(ErrorCode::Underflow)
    } else {
        let wide: i128 = now as i128 - time_last as i128;
        Ok(wide as u64)
    }
}

/// Checked reward formula: `amount * elapsed * rate`, each multiplication
/// checked. Fails with `Overflow` exactly when either step leaves the 64-bit
/// unsigned range; on success the result is the exact product.
pub fn reward_amount(amount: u64, elapsed: u64, rate: u64) -> (r: Result<u64, ErrorCode>)
    ensures
        match r {
            Ok(reward) => {
                &&& amount as int * elapsed as int <= u64::MAX as int
                &&& amount as int * elapsed as int * rate as int <= u64::MAX as int
                &&& reward as int == amount as int * elapsed as int * rate as int
            },
            Err(code) => {
                &&& code == ErrorCode::Overflow
                &&& (amount as int * elapsed as int > u64::MAX as int
                    || amount as int * elapsed as int * rate as int > u64::MAX as int)
            },
        },
{
    match amount.checked_mul(elapsed) {
        Some(base) => match base.checked_mul(rate) {
            Some(reward) => Ok(reward),
            None => Err(ErrorCode::Overflow),
        },
        None => Err(ErrorCode::Overflow),
    }
}

} // verus!
