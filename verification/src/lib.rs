//! Verified models of a set of Solana programs built on the `steel` framework:
//! account and instruction byte layouts, account validation, and the decisions
//! that the programs' instruction processors take before and after their
//! cross-program invocations.

pub mod error;
pub mod keys;
pub mod account;
pub mod bytes;
pub mod favorites;
pub mod instruction;
pub mod cpi;
pub mod mint_authority;
pub mod token;
pub mod create_token;
pub mod counter;
pub mod minter;
pub mod lever;
pub mod realloc;
