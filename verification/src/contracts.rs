//! Companion contracts: hash-locked swaps, escrow, a key registry, streamed
//! payments and shared vaults.
//!
//! None of them reads a clock or knows its caller: operations take the
//! current time and the calling account as arguments, and keep the
//! notifications they produce until they are taken.

pub mod index;
pub mod cross_chain_swap;
pub mod escrow;
pub mod streaming_payments;
pub mod vault;
pub mod key_registry;
