//! Orchestration of multi-step swaps across chains: route validation, the
//! swap registry, request/response correlation, the per-step driver and the
//! merchant payment overlay.

pub mod route;
pub mod records;
pub mod events;
pub mod transport;
pub mod payload;
pub mod model;
pub mod preservation;
pub mod engine;
pub mod laws;
