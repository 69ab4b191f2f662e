use ide_bridge::handshake::{
    check_handshake, find_header, offers_in_list, offers_subprotocol, same_header_name,
    HandshakeOutcome, PROTOCOL_HEADER, SUBPROTOCOL, UNAUTHORIZED,
};
use ide_bridge::websocket::ServerState;

fn state() -> ServerState {
    ServerState::new(None, None, "test-server", "x-ide-authorization")
}

fn headers(list: &[(&str, &str)]) -> Vec<(String, String)> {
    list.iter().map(|(k, v)| (k.to_string(), v.to_string())).collect()
}

#[test]
fn handshake_without_the_header_is_refused() {
    let s = state();
    let h = headers(&[("host", "127.0.0.1:45000"), ("upgrade", "websocket")]);
    assert_eq!(check_handshake(&h, &s), HandshakeOutcome::Reject { status: 401 });
    assert_eq!(check_handshake(&headers(&[]), &s), HandshakeOutcome::Reject { status: 401 });
    assert_eq!(UNAUTHORIZED, 401);
    assert!(s.connections.is_empty());
}

#[test]
fn handshake_with_a_wrong_token_is_refused() {
    let s = state();
    let mut wrong = s.auth_token.clone();
    wrong.push('x');
    for value in [wrong.as_str(), "", &s.auth_token[1..], &s.auth_token.to_lowercase().replace('a', "b")] {
        if value == s.auth_token {
            continue;
        }
        let h = headers(&[("x-ide-authorization", value), ("sec-websocket-protocol", "mcp")]);
        assert_eq!(check_handshake(&h, &s), HandshakeOutcome::Reject { status: 401 });
    }
}

#[test]
fn handshake_with_the_token_and_no_subprotocol_is_accepted() {
    let s = state();
    let h = headers(&[("host", "127.0.0.1"), ("x-ide-authorization", &s.auth_token)]);
    assert_eq!(check_handshake(&h, &s), HandshakeOutcome::Accept { subprotocol: None });
}

#[test]
fn offered_subprotocol_is_echoed() {
    let s = state();
    let h = headers(&[("X-IDE-Authorization", &s.auth_token), ("Sec-WebSocket-Protocol", "mcp")]);
    assert_eq!(
        check_handshake(&h, &s),
        HandshakeOutcome::Accept { subprotocol: Some("mcp".to_string()) }
    );
    let other = headers(&[("x-ide-authorization", &s.auth_token), ("sec-websocket-protocol", "chat")]);
    assert_eq!(check_handshake(&other, &s), HandshakeOutcome::Accept { subprotocol: None });
    let second = headers(&[
        ("x-ide-authorization", &s.auth_token),
        ("sec-websocket-protocol", "chat"),
        ("sec-websocket-protocol", "soap, mcp"),
    ]);
    assert_eq!(
        check_handshake(&second, &s),
        HandshakeOutcome::Accept { subprotocol: Some("mcp".to_string()) }
    );
}

#[test]
fn first_header_of_the_name_counts() {
    let s = state();
    let h = headers(&[("x-ide-authorization", "wrong"), ("x-ide-authorization", &s.auth_token)]);
    assert_eq!(check_handshake(&h, &s), HandshakeOutcome::Reject { status: 401 });
    assert_eq!(find_header(&h, "X-Ide-Authorization"), Some("wrong"));
    assert_eq!(find_header(&h, "x-other"), None);
}

#[test]
fn header_names_ignore_ascii_case() {
    assert!(same_header_name("Sec-WebSocket-Protocol", PROTOCOL_HEADER));
    assert!(same_header_name("", ""));
    assert!(!same_header_name("host", "hos"));
    assert!(!same_header_name("host", "hosts"));
    assert!(!same_header_name("a-b", "a_b"));
    assert!(!same_header_name("@", "`"));
    assert!(!same_header_name("[", "{"));
    assert!(!same_header_name("É", "é"));
}

#[test]
fn subprotocol_lists() {
    assert_eq!(SUBPROTOCOL, "mcp");
    assert!(offers_in_list("mcp", "mcp"));
    assert!(offers_in_list(" mcp ", "mcp"));
    assert!(offers_in_list("chat, mcp", "mcp"));
    assert!(offers_in_list("mcp,chat", "mcp"));
    assert!(offers_in_list("a,\tmcp\t,b", "mcp"));
    assert!(!offers_in_list("", "mcp"));
    assert!(!offers_in_list("mcp2", "mcp"));
    assert!(!offers_in_list("xmcp, mc p", "mcp"));
    assert!(!offers_in_list("MCP", "mcp"));
    assert!(!offers_in_list("chat,", "mcp"));
    assert!(offers_in_list("chat,", ""));
    assert!(offers_in_list(",", ""));
    let h = headers(&[("sec-websocket-protocol", "a"), ("SEC-WEBSOCKET-PROTOCOL", "b , mcp")]);
    assert!(offers_subprotocol(&h, "mcp"));
    assert!(offers_subprotocol(&h, "a"));
    assert!(!offers_subprotocol(&h, "c"));
    assert!(!offers_subprotocol(&headers(&[("x", "mcp")]), "mcp"));
}
