//! Live CPU utilization feed.
//!
//! A sampler turns per-core load readings into snapshots and publishes
//! them through a bounded broadcaster; any number of independently
//! paced subscriptions read from the broadcaster, each driven by a
//! forwarder that encodes every delivered snapshot for its transport.

pub mod broadcaster;
pub mod codec;
pub mod forwarder;
pub mod sampler;
pub mod snapshot;
