//! A staking ledger: participants lock a fungible asset into a pool-controlled
//! escrow and accrue a second asset as reward, linearly in staked amount,
//! elapsed time and the pool's rate, under a pool-wide cap.
//!
//! The library holds the ledger's state transitions: reward settlement,
//! deposit and withdrawal, and the administrative field writes. Every
//! transition is checked arithmetic over plain 64-bit values, is atomic
//! (an error leaves the records untouched), and says in its result which
//! token movements the external token module must perform and under whose
//! authority. Moving the tokens, persisting the records and sampling the
//! clock are the surrounding runtime's work, outside this crate.

pub mod admin;
pub mod errors;
pub mod laws;
pub mod math;
pub mod ops;
pub mod state;

pub use admin::{configure, configure_signer, initialize, initialize_user};
pub use errors::ErrorCode;
pub use ops::{deposit, pending_reward, withdraw, OpEffects};
pub use state::{Authority, Staking, StakingUser, TokenTransfer};
