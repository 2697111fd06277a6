//! Session tracking for a presence poller: snapshots of what each tracked
//! identity is playing are folded into per-identity session state, and every
//! poll yields the metric updates that credit the elapsed time.

pub mod client;
pub mod error;
pub mod metrics;
pub mod models;
pub mod modules;
pub mod session;
pub mod settings;
pub mod store;
pub mod text;
pub mod tracker;
