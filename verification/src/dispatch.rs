//! The probe dispatcher's verified half: take the incoming request, decide
//! which probe runs and with what value, and render the probe's outcome as
//! the response body or a distinguishable failure kind.
//!
//! The server layer in between performs the one network operation the
//! chosen probe calls for and reports what it did as an event; the decision
//! rules for those events live in `outcome`.

use vstd::prelude::*;

use crate::classify::{classify, spec_is_tcp_target, ProbeKind};
use crate::decimal::{render_decimal, spec_decimal};
use crate::outcome::{ErrorKind, ProbeOutcome};

verus! {

/// One incoming probe request: the user-supplied target string, as carried
/// by the `url` query parameter. Created per request, discarded after the
/// response is produced.
pub struct URLQuery {
    url: String,
}

impl View for URLQuery {
    type V = Seq<char>;

    closed spec fn view(&self) -> Seq<char> {
        self.url@
    }
}

impl URLQuery {
    /// Wrap a target string as a probe request.
    pub fn new(url: String) -> (q: URLQuery)
        ensures
            q@ == url@,
    {
        URLQuery { url }
    }

    /// The target string this request asks to probe.
    pub fn url(&self) -> (r: &String)
        ensures
            r@ == self@,
    {
        &self.url
    }
}

/// Classify a request's target: the dispatcher's first step. Routes a
/// `tcp://` target to the TCP probe with the prefix stripped and any other
/// target to the HTTP probe unchanged.
pub fn classify_query(q: &URLQuery) -> (r: ProbeKind)
    ensures
        spec_is_tcp_target(q@) ==> (r matches ProbeKind::TcpConnect(a) && a@ == q@.skip(6)),
        !spec_is_tcp_target(q@) ==> (r matches ProbeKind::HttpGet(u) && u@ == q@),
{
    classify(q.url().as_str())
}

/// Render a probe outcome as the dispatcher's response: a success becomes
/// the decimal spelling of the elapsed milliseconds (no units, no wrapper),
/// and a failure hands its kind to the HTTP layer so that layer can choose a
/// distinguishable error status. Never both, never a fallback value.
pub fn render_outcome(outcome: ProbeOutcome) -> (r: Result<String, ErrorKind>)
    ensures
        outcome matches ProbeOutcome::Success { elapsed_ms } ==> (r matches Ok(body) && body@
            == spec_decimal(elapsed_ms as nat)),
        outcome matches ProbeOutcome::Failure { kind } ==> (r matches Err(k) && k == kind),
{
    match outcome {
        ProbeOutcome::Success { elapsed_ms } => Ok(render_decimal(elapsed_ms)),
        ProbeOutcome::Failure { kind } => Err(kind),
    }
}

} // verus!
