//! Call interception for gRPC transports: every call through a wrapped
//! service is timed and described by a labeled duration histogram sample.
//!
//! The library derives the per-call attributes (route, protocol version,
//! peer address, error class) and the ordered label set recorded with each
//! observation. Scheduling, the clock and the metrics sink live with the
//! caller.
use vstd::prelude::*;

pub mod client;
pub mod labels;
pub mod route;
pub mod server;
pub mod transport;
pub mod version;

verus! {

/// Histogram of inbound call durations, in milliseconds.
pub const RPC_SERVER_DURATION: &'static str = "rpc.server.duration";

/// Histogram of outbound call durations, in milliseconds.
pub const RPC_CLIENT_DURATION: &'static str = "rpc.client.duration";

} // verus!
