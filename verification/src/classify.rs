//! Target classification: decide which probe strategy a target selects.
//!
//! A target that starts with the literal prefix `tcp://` selects the TCP
//! connect probe, and the probe receives the remainder with the prefix
//! stripped. Every other target selects the HTTP GET probe and is handed on
//! verbatim. This is a pure string operation; no validation beyond the
//! prefix check happens here, so a malformed target surfaces as a failure
//! from the probe it routes to, not from the classifier.

use vstd::prelude::*;

verus! {

/// Which probe strategy a target selects, with the value handed to that
/// probe.
#[derive(Clone, Debug, PartialEq, Eq)]
pub enum ProbeKind {
    /// Time a bounded raw TCP connection to this host:port address spec.
    TcpConnect(String),
    /// Time an HTTP GET request to this URL, taken verbatim.
    HttpGet(String),
}

/// A target selects the TCP probe exactly when it starts with `tcp://`.
pub open spec fn spec_is_tcp_target(t: Seq<char>) -> bool {
    t.len() >= 6 && t.subrange(0, 6) == "tcp://"@
}

/// Whether the target carries the `tcp://` prefix.
fn starts_with_tcp_prefix(target: &str) -> (b: bool)
    ensures
        b == spec_is_tcp_target(target@),
{
    proof {
        reveal_strlit("tcp://");
    }
    let n = target.unicode_len();
    if n < 6 {
        return false;
    }
    let b = target.get_char(0) == 't' && target.get_char(1) == 'c' && target.get_char(2) == 'p'
        && target.get_char(3) == ':' && target.get_char(4) == '/' && target.get_char(5) == '/';
    proof {
        let pre = target@.subrange(0, 6);
        assert(pre.len() == 6);
        assert(pre[0] == target@[0] && pre[1] == target@[1] && pre[2] == target@[2] && pre[3]
            == target@[3] && pre[4] == target@[4] && pre[5] == target@[5]);
        if b {
            assert(pre =~= "tcp://"@);
        } else {
            if pre == "tcp://"@ {
                assert(pre[0] == 't' && pre[1] == 'c' && pre[2] == 'p' && pre[3] == ':' && pre[4]
                    == '/' && pre[5] == '/');
                assert(false);
            }
        }
    }
    b
}

/// Classify a target: strip the `tcp://` prefix and route the remainder to
/// the TCP probe, or hand any other target to the HTTP probe unchanged.
pub fn classify(target: &str) -> (r: ProbeKind)
    ensures
        spec_is_tcp_target(target@) ==> (r matches ProbeKind::TcpConnect(a) && a@ == target@.skip(
            6,
        )),
        !spec_is_tcp_target(target@) ==> (r matches ProbeKind::HttpGet(u) && u@ == target@),
{
    if starts_with_tcp_prefix(target) {
        let n = target.unicode_len();
        let rest = target.substring_char(6, n);
        proof {
            assert(rest@ =~= target@.skip(6));
        }
        ProbeKind::TcpConnect(String::from_str(rest))
    } else {
        ProbeKind::HttpGet(target.to_owned())
    }
}

/// A `tcp://` target is exactly the prefix followed by the address spec the
/// TCP probe receives: stripping removes the prefix, the whole prefix, and
/// nothing else.
pub proof fn lemma_tcp_prefix_stripped(t: Seq<char>)
    requires
        spec_is_tcp_target(t),
    ensures
        "tcp://"@ + t.skip(6) =~= t,
{
}

} // verus!
