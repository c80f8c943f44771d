//! Verified entitlement-ledger contracts for a creator-monetization platform.
//!
//! Each module models one contract as a state machine over plain values:
//! principals are `u64` identifiers, time is an explicit parameter, keyed
//! storage is a verified association table, and payments move through a
//! verified in-memory token ledger. Every entry point is a total function
//! returning a typed error; its contract states exactly which inputs succeed
//! and what the state looks like afterwards.

pub mod consumer;
pub mod content_access;
pub mod content_likes;
pub mod creator_deposits;
pub mod creator_earnings;
pub mod creator_registry;
pub mod earnings;
pub mod errors;
pub mod fees;
pub mod lifecycle;
pub mod platform;
pub mod store;
pub mod token;
pub mod treasury;
