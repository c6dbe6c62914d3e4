//! Core logic of a load-generation client: a bounded work queue feeding
//! per-connection request state machines, whose latency measurements are
//! aggregated into fixed-duration statistics windows.

pub mod client;
pub mod connection;
pub mod logger;
pub mod net;
pub mod queue;
pub mod state;
pub mod stats;
