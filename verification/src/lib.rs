//! Verified cross-chain swap orchestration and companion payment contracts.
//!
//! The heart of the crate is [`cross_chain_swap`]: an engine that tracks
//! swaps which take several steps over several chains, matches the
//! responses of the transport to the requests it made, and fails what does
//! not finish in time. Around it stand a registry of user tags
//! ([`key_registry`]), a bridge through a token gateway ([`bridge`]), and
//! the contracts of [`contracts`]: hash-locked swaps, escrow, a key
//! registry, streamed payments and vaults.
//!
//! Every operation is stated over a mathematical model of the state and
//! proved against it. Nothing here reads a clock, knows its caller or keeps
//! anything on a chain: time and caller are arguments, notifications are
//! values, and the state of each object can be taken apart into plain
//! values and put together again.

pub mod account;
pub mod table;
pub mod key_registry;
pub mod bridge;
pub mod cross_chain_swap;
pub mod contracts;
