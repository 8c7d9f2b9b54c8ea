//! A single-asset staking ledger: users deposit fungible tokens into a shared
//! pool, the pool records each user's staked balance, and users later withdraw
//! their stake. The pool signs outbound custody transfers with an identity
//! derived from its authority and a bump nonce.

pub mod derivation;
pub mod errors;
pub mod identity;
pub mod laws;
pub mod ops;
pub mod state;
pub mod token;
