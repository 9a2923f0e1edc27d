use latency_probe::classify::{classify, ProbeKind};
use latency_probe::dispatch::{classify_query, URLQuery};

#[test]
fn tcp_prefix_routes_to_tcp_probe_stripped() {
    match classify("tcp://127.0.0.1:8080") {
        ProbeKind::TcpConnect(addr) => assert_eq!(addr.as_str(), "127.0.0.1:8080"),
        ProbeKind::HttpGet(_) => panic!("tcp:// target routed to the HTTP probe"),
    }
}

#[test]
fn tcp_prefix_alone_yields_empty_address() {
    match classify("tcp://") {
        ProbeKind::TcpConnect(addr) => assert_eq!(addr.as_str(), ""),
        ProbeKind::HttpGet(_) => panic!("tcp:// target routed to the HTTP probe"),
    }
}

#[test]
fn repeated_prefix_is_stripped_once() {
    match classify("tcp://tcp://x:1") {
        ProbeKind::TcpConnect(addr) => assert_eq!(addr.as_str(), "tcp://x:1"),
        ProbeKind::HttpGet(_) => panic!("tcp:// target routed to the HTTP probe"),
    }
}

#[test]
fn http_url_passes_unchanged() {
    match classify("http://example.com/path?q=1") {
        ProbeKind::HttpGet(url) => assert_eq!(url.as_str(), "http://example.com/path?q=1"),
        ProbeKind::TcpConnect(_) => panic!("plain URL routed to the TCP probe"),
    }
}

#[test]
fn prefix_check_is_case_sensitive() {
    match classify("TCP://host:1") {
        ProbeKind::HttpGet(url) => assert_eq!(url.as_str(), "TCP://host:1"),
        ProbeKind::TcpConnect(_) => panic!("upper-case prefix routed to the TCP probe"),
    }
}

#[test]
fn truncated_prefix_goes_to_http() {
    match classify("tcp:/host:1") {
        ProbeKind::HttpGet(url) => assert_eq!(url.as_str(), "tcp:/host:1"),
        ProbeKind::TcpConnect(_) => panic!("non-prefix routed to the TCP probe"),
    }
}

#[test]
fn empty_target_goes_to_http() {
    match classify("") {
        ProbeKind::HttpGet(url) => assert_eq!(url.as_str(), ""),
        ProbeKind::TcpConnect(_) => panic!("empty target routed to the TCP probe"),
    }
}

#[test]
fn non_ascii_target_goes_to_http() {
    match classify("höst:80") {
        ProbeKind::HttpGet(url) => assert_eq!(url.as_str(), "höst:80"),
        ProbeKind::TcpConnect(_) => panic!("non-prefix routed to the TCP probe"),
    }
}

#[test]
fn query_classification_matches_classify() {
    let q = URLQuery::new(String::from("tcp://localhost:9"));
    match classify_query(&q) {
        ProbeKind::TcpConnect(addr) => assert_eq!(addr.as_str(), "localhost:9"),
        ProbeKind::HttpGet(_) => panic!("tcp:// query routed to the HTTP probe"),
    }
    assert_eq!(q.url().as_str(), "tcp://localhost:9");
}
