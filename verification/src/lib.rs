//! A weighted-voting governance engine: a small group of voters collectively
//! authorizes actions through a propose-vote-execute lifecycle.
//!
//! Each voter has an integer weight; a proposal needs a configured threshold
//! of weighted yes-votes before it may execute, and expires after a configured
//! window. The engine here is the verified core: proposal creation,
//! authorization, weighted tallying, threshold evaluation, status transitions
//! and guarded execution/closure, all over an in-memory store. Durable
//! storage, serialization and message transport are left to the host.

pub mod contract;
pub mod error;
pub mod helpers;
pub mod laws;
pub mod msg;
pub mod proposal;
pub mod state;
