//! Heartbeat-driven wake controller for a small fleet of worker machines.
//!
//! The library holds the decisions: the power-availability verdict, which
//! devices are stale, how the neighbor table resolves hardware addresses, which
//! devices are presumed asleep, what is sent to wake them, and what each
//! heartbeat cycle publishes. Network, store and timer work happen around it.
pub mod excess;
pub mod hwaddr;
pub mod status;
pub mod selector;
pub mod text;
pub mod neighbor;
pub mod liveness;
pub mod wake;
pub mod just_woke;
pub mod heartbeat;
pub mod query;
pub mod interval;
pub mod config;
pub mod http;
pub mod handlers;
