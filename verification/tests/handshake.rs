use nubila::error::NubilaError;
use nubila::handshake::{
    collect_header_fields, eq_ignore_ascii_case, handshake_headers_for_host, join_with_commas,
    verify, HandshakeResponse, HeaderField,
};

fn response(status: u16, upgrade: Option<&str>, connection: Option<&str>) -> HandshakeResponse {
    HandshakeResponse {
        status,
        upgrade: upgrade.map(|s| s.as_bytes().to_vec()),
        connection: connection.map(|s| s.as_bytes().to_vec()),
    }
}

fn strings(v: &[&str]) -> Vec<String> {
    v.iter().map(|s| s.to_string()).collect()
}

fn pairs(v: &[(&str, &str)]) -> Vec<(String, String)> {
    v.iter().map(|(a, b)| (a.to_string(), b.to_string())).collect()
}

#[test]
fn verify_accepts_standard_answer() {
    assert!(verify(&response(101, Some("websocket"), Some("Upgrade"))).is_ok());
}

#[test]
fn verify_ignores_ascii_case() {
    assert!(verify(&response(101, Some("WebSocket"), Some("upgrade"))).is_ok());
    assert!(verify(&response(101, Some("WEBSOCKET"), Some("UPGRADE"))).is_ok());
}

#[test]
fn verify_refuses_wrong_status() {
    match verify(&response(200, Some("websocket"), Some("Upgrade"))) {
        Err(NubilaError::WsInvalidStatusCode(got, expected)) => {
            assert_eq!(got, 200);
            assert_eq!(expected, 101);
        }
        other => panic!("unexpected {:?}", other),
    }
}

#[test]
fn verify_status_checked_before_headers() {
    assert!(matches!(
        verify(&response(404, None, None)),
        Err(NubilaError::WsInvalidStatusCode(404, 101))
    ));
}

#[test]
fn verify_refuses_wrong_upgrade_header() {
    match verify(&response(101, Some("h2c"), Some("Upgrade"))) {
        Err(NubilaError::WsInvalidUpgradeHeader(text)) => assert_eq!(text, "h2c"),
        other => panic!("unexpected {:?}", other),
    }
}

#[test]
fn verify_missing_upgrade_header_reads_as_empty() {
    match verify(&response(101, None, Some("Upgrade"))) {
        Err(NubilaError::WsInvalidUpgradeHeader(text)) => assert_eq!(text, ""),
        other => panic!("unexpected {:?}", other),
    }
}

#[test]
fn verify_non_visible_upgrade_header_reads_as_empty() {
    let r = HandshakeResponse {
        status: 101,
        upgrade: Some(vec![b'w', 0xff, b's']),
        connection: Some(b"Upgrade".to_vec()),
    };
    match verify(&r) {
        Err(NubilaError::WsInvalidUpgradeHeader(text)) => assert_eq!(text, ""),
        other => panic!("unexpected {:?}", other),
    }
}

#[test]
fn verify_refuses_wrong_connection_header() {
    match verify(&response(101, Some("websocket"), Some("keep-alive"))) {
        Err(NubilaError::WsInvalidConnectionHeader(text)) => assert_eq!(text, "keep-alive"),
        other => panic!("unexpected {:?}", other),
    }
}

#[test]
fn verify_tab_is_visible_but_not_ignored() {
    match verify(&response(101, Some("websocket\t"), Some("Upgrade"))) {
        Err(NubilaError::WsInvalidUpgradeHeader(text)) => assert_eq!(text, "websocket\t"),
        other => panic!("unexpected {:?}", other),
    }
}

#[test]
fn eq_ignore_ascii_case_values() {
    assert!(eq_ignore_ascii_case(b"Upgrade", b"uPGRADE"));
    assert!(!eq_ignore_ascii_case(b"Upgrade", b"Upgrad"));
    assert!(!eq_ignore_ascii_case(b"[", b"{"));
    assert!(eq_ignore_ascii_case(b"", b""));
}

#[test]
fn join_with_commas_values() {
    assert_eq!(join_with_commas(&strings(&[])), "");
    assert_eq!(join_with_commas(&strings(&["chat"])), "chat");
    assert_eq!(join_with_commas(&strings(&["chat", "superchat", "x"])), "chat,superchat,x");
}

#[test]
fn request_headers_in_order() {
    let headers = handshake_headers_for_host(
        Some("example.com".to_string()),
        "dGhlIHNhbXBsZSBub25jZQ==".to_string(),
        "nubila-test",
        &strings(&["chat", "superchat"]),
        &pairs(&[("x-custom", "1")]),
    )
    .unwrap();
    assert_eq!(
        headers,
        pairs(&[
            ("host", "example.com"),
            ("connection", "Upgrade"),
            ("upgrade", "websocket"),
            ("sec-websocket-key", "dGhlIHNhbXBsZSBub25jZQ=="),
            ("sec-websocket-version", "13"),
            ("user-agent", "nubila-test"),
            ("sec-websocket-protocol", "chat,superchat"),
            ("x-custom", "1"),
        ])
    );
}

#[test]
fn request_headers_without_protocols() {
    let headers =
        handshake_headers_for_host(Some("h".to_string()), "k".to_string(), "ua", &vec![], &vec![])
            .unwrap();
    assert_eq!(headers.len(), 6);
    assert!(headers.iter().all(|(n, _)| n != "sec-websocket-protocol"));
}

#[test]
fn request_without_host_fails() {
    assert!(matches!(
        handshake_headers_for_host(None, "k".to_string(), "ua", &vec![], &vec![]),
        Err(NubilaError::NoUrlHost)
    ));
}

#[test]
fn request_with_invalid_header_name_fails() {
    assert!(matches!(
        handshake_headers_for_host(
            Some("h".to_string()),
            "k".to_string(),
            "ua",
            &vec![],
            &pairs(&[("bad name", "v")]),
        ),
        Err(NubilaError::InvalidHeaderName)
    ));
}

#[test]
fn request_with_invalid_header_value_fails() {
    assert!(matches!(
        handshake_headers_for_host(
            Some("h".to_string()),
            "k".to_string(),
            "ua",
            &vec![],
            &pairs(&[("x-ok", "line\nbreak")]),
        ),
        Err(NubilaError::InvalidHeaderValue)
    ));
    assert!(matches!(
        handshake_headers_for_host(Some("h".to_string()), "k".to_string(), "a\u{7f}", &vec![], &vec![]),
        Err(NubilaError::InvalidHeaderValue)
    ));
}

#[test]
fn request_first_fault_decides() {
    // The value of an earlier header is bad, the name of a later one too.
    assert!(matches!(
        handshake_headers_for_host(
            Some("h".to_string()),
            "k".to_string(),
            "ua",
            &vec![],
            &pairs(&[("x-a", "bad\r"), ("bad name", "v")]),
        ),
        Err(NubilaError::InvalidHeaderValue)
    ));
    // A header whose name is bad fails on its name before its value.
    assert!(matches!(
        handshake_headers_for_host(
            Some("h".to_string()),
            "k".to_string(),
            "ua",
            &vec![],
            &pairs(&[("bad name", "bad\r")]),
        ),
        Err(NubilaError::InvalidHeaderName)
    ));
}

#[test]
fn request_accepts_tab_and_high_bytes_in_values() {
    let headers = handshake_headers_for_host(
        Some("h".to_string()),
        "k".to_string(),
        "ua",
        &vec![],
        &pairs(&[("x-a", "a\tb"), ("x-b", "caf\u{e9}")]),
    )
    .unwrap();
    assert_eq!(headers.len(), 8);
}

#[test]
fn collect_header_fields_values() {
    let f = |n: &str, v: &str, a: bool, b: bool| HeaderField {
        name: n.to_string(),
        value: v.to_string(),
        name_accepted: a,
        value_accepted: b,
    };
    assert_eq!(
        collect_header_fields(&vec![f("a", "1", true, true), f("b", "2", true, true)]).unwrap(),
        pairs(&[("a", "1"), ("b", "2")])
    );
    assert!(matches!(
        collect_header_fields(&vec![f("a", "1", true, false), f("b", "2", false, true)]),
        Err(NubilaError::InvalidHeaderValue)
    ));
    assert!(matches!(
        collect_header_fields(&vec![f("a", "1", false, false)]),
        Err(NubilaError::InvalidHeaderName)
    ));
    assert_eq!(collect_header_fields(&vec![]).unwrap(), vec![]);
}

#[test]
fn ascii_case_equality_is_an_equivalence() {
    let (a, b, c) = (&b"WebSocket"[..], &b"websocket"[..], &b"WEBSOCKET"[..]);
    assert!(eq_ignore_ascii_case(a, a));
    assert_eq!(eq_ignore_ascii_case(a, b), eq_ignore_ascii_case(b, a));
    assert!(eq_ignore_ascii_case(a, b) && eq_ignore_ascii_case(b, c) && eq_ignore_ascii_case(a, c));
}

#[test]
fn request_asks_what_verify_checks() {
    let headers = handshake_headers_for_host(
        Some("h".to_string()),
        "k".to_string(),
        "ua",
        &vec![],
        &vec![],
    )
    .unwrap();
    let upgrade = headers.iter().find(|(n, _)| n == "upgrade").unwrap().1.clone();
    let connection = headers.iter().find(|(n, _)| n == "connection").unwrap().1.clone();
    assert_eq!(headers[4], ("sec-websocket-version".to_string(), "13".to_string()));
    assert!(verify(&response(101, Some(&upgrade), Some(&connection))).is_ok());
}

fn with_extra(name: &str, value: &str) -> Result<Vec<(String, String)>, NubilaError> {
    handshake_headers_for_host(
        Some("h".to_string()),
        "k".to_string(),
        "ua",
        &vec![],
        &pairs(&[(name, value)]),
    )
}

#[test]
fn header_name_token_bytes() {
    assert!(with_extra("X-Custom_!#$%&'*+-.^`|~09az", "v").is_ok());
    assert!(matches!(with_extra("", "v"), Err(NubilaError::InvalidHeaderName)));
    assert!(matches!(with_extra("a:b", "v"), Err(NubilaError::InvalidHeaderName)));
    assert!(matches!(with_extra("caf\u{e9}", "v"), Err(NubilaError::InvalidHeaderName)));
    assert!(matches!(with_extra("a\"b", "v"), Err(NubilaError::InvalidHeaderName)));
}

#[test]
fn header_name_length_limit() {
    let longest = "a".repeat(65535);
    assert!(with_extra(&longest, "v").is_ok());
    let too_long = "a".repeat(65536);
    assert!(matches!(with_extra(&too_long, "v"), Err(NubilaError::InvalidHeaderName)));
    let long_bad = format!("{}{}", "a".repeat(100), " ");
    assert!(matches!(with_extra(&long_bad, "v"), Err(NubilaError::InvalidHeaderName)));
}

use nubila::handshake::handshake_request_headers;

#[test]
fn request_headers_from_url() {
    let headers = handshake_request_headers(
        "wss://example.com:8443/chat?x=1",
        "k".to_string(),
        "ua",
        &vec![],
        &vec![],
    )
    .unwrap();
    assert_eq!(headers[0], ("host".to_string(), "example.com".to_string()));
    assert_eq!(headers.len(), 6);
}

#[test]
fn request_from_url_without_host_fails() {
    assert!(matches!(
        handshake_request_headers("/just/a/path", "k".to_string(), "ua", &vec![], &vec![]),
        Err(NubilaError::NoUrlHost)
    ));
}

#[test]
fn request_from_unparsable_url_fails() {
    assert!(matches!(
        handshake_request_headers("ws://exa mple.com/", "k".to_string(), "ua", &vec![], &vec![]),
        Err(NubilaError::InvalidUrl)
    ));
    assert!(matches!(
        handshake_request_headers("", "k".to_string(), "ua", &vec![], &vec![]),
        Err(NubilaError::InvalidUrl)
    ));
}

#[test]
fn request_from_url_checks_headers() {
    assert!(matches!(
        handshake_request_headers(
            "ws://example.com/",
            "k".to_string(),
            "ua",
            &vec![],
            &pairs(&[("bad name", "v")]),
        ),
        Err(NubilaError::InvalidHeaderName)
    ));
}
