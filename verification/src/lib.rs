//! Account registration behind an admission gate.
//!
//! The crate holds the decisions of a registration service: which requests are
//! valid, how many of them may hash a credential at once, and how each failure
//! of the admission gate, the hasher or the account store is reported to the
//! client.

pub mod config;
pub mod cors;
pub mod error;
pub mod gate;
pub mod hasher;
pub mod health;
pub mod laws;
pub mod pipeline;
pub mod text;
