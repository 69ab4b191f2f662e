use ide_bridge::upgrade::{
    analyze_http_request, contains_ignoring_case, find_last_header, parse_header, HeaderCheck,
    UpgradeDiagnosis, WEBSOCKET_VERSION,
};

const GOOD: &str = "GET /chat HTTP/1.1\r\nHost: 127.0.0.1:45000\r\nUpgrade: websocket\r\n\
Connection: keep-alive, Upgrade\r\nSec-WebSocket-Key: dGhlIHNhbXBsZSBub25jZQ==\r\n\
Sec-WebSocket-Version: 13\r\n\r\nbody: ignored\r\n";

fn pair(k: &str, v: &str) -> (String, String) {
    (k.to_string(), v.to_string())
}

#[test]
fn empty_request_has_no_analysis() {
    assert_eq!(analyze_http_request(""), None);
}

#[test]
fn good_upgrade_request() {
    let a = analyze_http_request(GOOD).unwrap();
    assert!(a.is_get);
    assert_eq!(
        a.headers,
        vec![
            pair("Host", "127.0.0.1:45000"),
            pair("Upgrade", "websocket"),
            pair("Connection", "keep-alive, Upgrade"),
            pair("Sec-WebSocket-Key", "dGhlIHNhbXBsZSBub25jZQ=="),
            pair("Sec-WebSocket-Version", "13"),
        ]
    );
    assert_eq!(a.connection, HeaderCheck::Good);
    assert_eq!(a.upgrade, HeaderCheck::Good);
    assert_eq!(a.version, HeaderCheck::Good);
    assert!(a.has_key);
    assert!(a.has_host);
    assert_eq!(a.diagnosis, UpgradeDiagnosis::HeadersCorrect);
    assert_eq!(WEBSOCKET_VERSION, "13");
}

#[test]
fn plain_request_lacks_the_upgrade_headers() {
    let a = analyze_http_request("POST / HTTP/1.1\nHost: x\n\n").unwrap();
    assert!(!a.is_get);
    assert_eq!(a.connection, HeaderCheck::Missing);
    assert_eq!(a.upgrade, HeaderCheck::Missing);
    assert_eq!(a.version, HeaderCheck::Missing);
    assert!(!a.has_key);
    assert!(a.has_host);
    assert_eq!(a.diagnosis, UpgradeDiagnosis::MissingUpgradeHeaders);
    let only = analyze_http_request("GET / HTTP/1.1\nConnection: upgrade\n").unwrap();
    assert_eq!(only.diagnosis, UpgradeDiagnosis::MissingUpgradeHeaders);
}

#[test]
fn connection_that_does_not_name_the_upgrade() {
    let a = analyze_http_request("GET / HTTP/1.1\nConnection: keep-alive\nUpgrade: websocket\n").unwrap();
    assert_eq!(a.connection, HeaderCheck::Unexpected);
    assert_eq!(a.upgrade, HeaderCheck::Good);
    assert_eq!(a.diagnosis, UpgradeDiagnosis::ConnectionNotUpgrade);
}

#[test]
fn upgrade_to_something_else() {
    let a = analyze_http_request("GET / HTTP/1.1\nconnection: UPGRADE\nupgrade: h2c\nsec-websocket-version: 8\n").unwrap();
    assert_eq!(a.connection, HeaderCheck::Good);
    assert_eq!(a.upgrade, HeaderCheck::Unexpected);
    assert_eq!(a.version, HeaderCheck::Unexpected);
    assert_eq!(a.diagnosis, UpgradeDiagnosis::UpgradeNotWebsocket);
}

#[test]
fn later_header_of_a_name_counts() {
    let a = analyze_http_request("GET / HTTP/1.1\nUpgrade: h2c\nConnection: Upgrade\nUPGRADE: WebSocket\n").unwrap();
    assert_eq!(a.upgrade, HeaderCheck::Good);
    assert_eq!(find_last_header(&a.headers, "upgrade"), Some("WebSocket"));
    assert_eq!(find_last_header(&a.headers, "origin"), None);
}

#[test]
fn headers_end_at_the_first_empty_line() {
    let a = analyze_http_request("GET / HTTP/1.1\nA: 1\nno colon here\nB:2:3\n\nC: 4\n").unwrap();
    assert_eq!(a.headers, vec![pair("A", "1"), pair("B", "2:3")]);
    let none = analyze_http_request("GET / HTTP/1.1\n\nA: 1\n").unwrap();
    assert!(none.headers.is_empty());
    let only = analyze_http_request("GET").unwrap();
    assert!(only.is_get);
    assert!(only.headers.is_empty());
    assert!(!analyze_http_request("GE").unwrap().is_get);
    assert!(!analyze_http_request("get / HTTP/1.1").unwrap().is_get);
}

#[test]
fn header_lines_are_split_at_the_first_colon() {
    let line: Vec<char> = "  Name \t:  some value  ".chars().collect();
    assert_eq!(parse_header(&line), Some(pair("Name", "some value")));
    let empty: Vec<char> = ":".chars().collect();
    assert_eq!(parse_header(&empty), Some(pair("", "")));
    let none: Vec<char> = "no separator".chars().collect();
    assert_eq!(parse_header(&none), None);
}

#[test]
fn words_are_found_whatever_their_case() {
    assert!(contains_ignoring_case("keep-alive, Upgrade", "upgrade"));
    assert!(contains_ignoring_case("UPGRADE", "upgrade"));
    assert!(contains_ignoring_case("upgrade", "UPGRADE"));
    assert!(contains_ignoring_case("xupgradex", "upgrade"));
    assert!(contains_ignoring_case("anything", ""));
    assert!(contains_ignoring_case("", ""));
    assert!(!contains_ignoring_case("", "upgrade"));
    assert!(!contains_ignoring_case("upgrad", "upgrade"));
    assert!(!contains_ignoring_case("up grade", "upgrade"));
    assert!(!contains_ignoring_case("close", "upgrade"));
}
