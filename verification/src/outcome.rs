//! Probe outcomes and the decision rules that produce them.
//!
//! A probe performs exactly one network operation. The server layer reports
//! what that operation did as a plain event (`TcpEvent` or `HttpEvent`), and
//! the functions here turn the event into the normalized `ProbeOutcome` that
//! the dispatcher renders. Keeping the rules separate from the network call
//! lets them be verified for every possible event.

use vstd::prelude::*;

verus! {

/// Why a probe failed. Closed taxonomy; no retries, no fallback values.
#[derive(Clone, Copy, Debug, PartialEq, Eq, Structural)]
pub enum ErrorKind {
    /// A `tcp://` target's host:port could not be resolved to any address.
    InvalidTcpAddress,
    /// Resolution succeeded but the connection attempt failed or timed out.
    TcpConnectFailed,
    /// Any transport failure during the HTTP GET attempt.
    HttpRequestFailed,
}

/// The normalized result of one probe: either an elapsed time in
/// milliseconds or a failure kind, never both and never a default.
#[derive(Clone, Copy, Debug, PartialEq, Eq, Structural)]
pub enum ProbeOutcome {
    Success { elapsed_ms: u128 },
    Failure { kind: ErrorKind },
}

/// What a single TCP connection attempt did, as reported by the layer that
/// performed it.
#[derive(Clone, Copy, Debug, PartialEq, Eq, Structural)]
pub enum TcpEvent {
    /// Resolution of the host:port failed or yielded no candidate address.
    AddressInvalid,
    /// The first resolved candidate accepted the connection after
    /// `elapsed_ms` milliseconds.
    Connected { elapsed_ms: u128 },
    /// The connection attempt failed or exceeded the timeout.
    ConnectFailed,
}

/// What a single HTTP GET attempt did, as reported by the layer that
/// performed it.
#[derive(Clone, Copy, Debug, PartialEq, Eq, Structural)]
pub enum HttpEvent {
    /// A response status line arrived after `elapsed_ms` milliseconds; the
    /// body is not awaited.
    Responded { elapsed_ms: u128 },
    /// Any transport failure: DNS, connect, TLS, malformed URL, timeout.
    RequestFailed,
}

/// The outcome the TCP probe owes for a given connection-attempt event.
pub open spec fn spec_tcp_outcome(ev: TcpEvent) -> ProbeOutcome {
    match ev {
        TcpEvent::AddressInvalid => ProbeOutcome::Failure { kind: ErrorKind::InvalidTcpAddress },
        TcpEvent::Connected { elapsed_ms } => ProbeOutcome::Success { elapsed_ms },
        TcpEvent::ConnectFailed => ProbeOutcome::Failure { kind: ErrorKind::TcpConnectFailed },
    }
}

/// The outcome the HTTP probe owes for a given request event.
pub open spec fn spec_http_outcome(ev: HttpEvent) -> ProbeOutcome {
    match ev {
        HttpEvent::Responded { elapsed_ms } => ProbeOutcome::Success { elapsed_ms },
        HttpEvent::RequestFailed => ProbeOutcome::Failure { kind: ErrorKind::HttpRequestFailed },
    }
}

/// Turn what a TCP connection attempt did into the probe's outcome:
/// a failed resolution is the caller's fault (`InvalidTcpAddress`), a failed
/// or timed-out connection is the target's (`TcpConnectFailed`), and a
/// successful connection yields its elapsed time unchanged.
pub fn tcp_outcome(ev: TcpEvent) -> (r: ProbeOutcome)
    ensures
        r == spec_tcp_outcome(ev),
{
    match ev {
        TcpEvent::AddressInvalid => ProbeOutcome::Failure { kind: ErrorKind::InvalidTcpAddress },
        TcpEvent::Connected { elapsed_ms } => ProbeOutcome::Success { elapsed_ms },
        TcpEvent::ConnectFailed => ProbeOutcome::Failure { kind: ErrorKind::TcpConnectFailed },
    }
}

/// Turn what an HTTP GET attempt did into the probe's outcome: any transport
/// failure becomes `HttpRequestFailed`, and an arrived status line yields its
/// elapsed time unchanged.
pub fn http_outcome(ev: HttpEvent) -> (r: ProbeOutcome)
    ensures
        r == spec_http_outcome(ev),
{
    match ev {
        HttpEvent::Responded { elapsed_ms } => ProbeOutcome::Success { elapsed_ms },
        HttpEvent::RequestFailed => ProbeOutcome::Failure { kind: ErrorKind::HttpRequestFailed },
    }
}

/// Two outcomes are of the same kind when both succeed, or both fail for
/// the same reason; the elapsed time may differ.
pub open spec fn spec_same_kind(a: ProbeOutcome, b: ProbeOutcome) -> bool {
    match (a, b) {
        (ProbeOutcome::Success { .. }, ProbeOutcome::Success { .. }) => true,
        (ProbeOutcome::Failure { kind: k1 }, ProbeOutcome::Failure { kind: k2 }) => k1 == k2,
        _ => false,
    }
}

/// Two TCP connection attempts behaved the same way when they report the
/// same variant of event; only the measured latency may differ.
pub open spec fn spec_tcp_same_behavior(e1: TcpEvent, e2: TcpEvent) -> bool {
    match (e1, e2) {
        (TcpEvent::AddressInvalid, TcpEvent::AddressInvalid) => true,
        (TcpEvent::Connected { .. }, TcpEvent::Connected { .. }) => true,
        (TcpEvent::ConnectFailed, TcpEvent::ConnectFailed) => true,
        _ => false,
    }
}

/// Two HTTP GET attempts behaved the same way when they report the same
/// variant of event; only the measured latency may differ.
pub open spec fn spec_http_same_behavior(e1: HttpEvent, e2: HttpEvent) -> bool {
    match (e1, e2) {
        (HttpEvent::Responded { .. }, HttpEvent::Responded { .. }) => true,
        (HttpEvent::RequestFailed, HttpEvent::RequestFailed) => true,
        _ => false,
    }
}

/// Repeating a TCP probe against a stable target is idempotent in kind:
/// whenever the target behaves the same way twice — the network reports the
/// same variant of event, latency jitter aside — the two probes' outcomes
/// are of the same kind.
pub proof fn lemma_tcp_probe_idempotent(e1: TcpEvent, e2: TcpEvent)
    requires
        spec_tcp_same_behavior(e1, e2),
    ensures
        spec_same_kind(spec_tcp_outcome(e1), spec_tcp_outcome(e2)),
{
}

/// Repeating an HTTP probe against a stable target is idempotent in kind:
/// whenever the target behaves the same way twice — the network reports the
/// same variant of event, latency jitter aside — the two probes' outcomes
/// are of the same kind.
pub proof fn lemma_http_probe_idempotent(e1: HttpEvent, e2: HttpEvent)
    requires
        spec_http_same_behavior(e1, e2),
    ensures
        spec_same_kind(spec_http_outcome(e1), spec_http_outcome(e2)),
{
}

} // verus!
