//! Core logic of a tweet broadcasting pipeline: ingest cursor management,
//! reconnection backoff, batch augmentation, trend scheduling, routing
//! payload construction, and webhook retry decisions.
//!
//! Network and file I/O live outside this crate; every function here is a
//! pure state transition or computation with a verified contract.

pub mod augment;
pub mod backoff;
pub mod cache;
pub mod client;
pub mod discord;
pub mod endpoint;
pub mod list;
pub mod model;
pub mod remote;
pub mod route;
pub mod search;
pub mod stream;
pub mod text;
pub mod trend;
