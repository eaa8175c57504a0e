use vstd::prelude::*;

verus! {

/// Why a staking operation was refused. Every error aborts the whole
/// operation with no partial effect: the caller's records are left exactly
/// as they were, and no token movement is instructed.
#[derive(Clone, Copy, Debug, PartialEq, Eq, Structural)]
pub enum ErrorCode {
    /// The acting identity is not the owner required by the record.
    Unauthorized,
    /// A checked addition or multiplication exceeded the 64-bit unsigned range.
    Overflow,
    /// The clock ran backward: `now` is earlier than the position's last settlement.
    Underflow,
    /// A withdrawal asked for more than the currently staked balance.
    NotEnough,
    /// A deposit would push the staked balance above the pool's cap.
    OverCap,
}

} // verus!
