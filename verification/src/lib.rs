//! A minimal network-latency probe core.
//!
//! Given a target string, the surrounding server either times a raw TCP
//! connection attempt or an HTTP GET request and reports the elapsed time in
//! milliseconds. This crate holds the verified core: target classification,
//! the event-to-outcome decision rules of both probes, response rendering,
//! and listening-port resolution. The network operations themselves are
//! performed by the unverified server layer, which feeds their results back
//! into this crate as plain events.

pub mod classify;
pub mod decimal;
pub mod dispatch;
pub mod outcome;
pub mod portcfg;

use vstd::prelude::*;

verus! {

/// Fixed ceiling, in milliseconds, on a single TCP connection attempt.
pub const TCP_CONNECT_TIMEOUT_MS: u64 = 10000;

} // verus!
