//! A replicated timed-auction core: a clock-free auction lifecycle state
//! machine together with the monotonic bid-merge rule that lets independent
//! replicas converge on the same winning bid despite duplicated, delayed or
//! reordered event delivery.
//!
//! Time never comes from a clock inside this crate: every operation takes the
//! current timestamp from its caller, so the same inputs always produce the
//! same outputs on every replica and on every replay.

pub mod auction;
pub mod contract;
pub mod laws;
pub mod queries;
pub mod state;
pub mod store;
