use ide_bridge::json::{entry, Json};
use ide_bridge::websocket::{
    advance, connection_step, generate_auth_token, handle_jsonrpc_request, handle_method, handle_text_frame,
    initialize_result, message_event, new_connection_id, notification_method, on_frame,
    reply_to_parsed, ConnectionEvent, ConnectionPhase, Frame, FrameAction, JsonRpcError,
    JsonRpcNotification, JsonRpcRequest, JsonRpcResponse, McpCapabilities, McpPromptsCapability,
    McpResourcesCapability, McpServerInfo, McpToolsCapability, ServerState, AUTH_TOKEN_LENGTH,
    INTERNAL_ERROR, INVALID_PARAMS, MCP_PROTOCOL_VERSION, METHOD_NOT_FOUND, PARSE_ERROR,
};

fn state() -> ServerState {
    ServerState::new(Some("/home/user/project".to_string()), None, "test-server", "x-ide-authorization")
}

fn request(method: &str, params: Option<Json>, id: Option<Json>) -> JsonRpcRequest {
    JsonRpcRequest { jsonrpc: "2.0".to_string(), method: method.to_string(), params, id }
}

fn reply(text: &str) -> Json {
    let s = state();
    let answer = handle_text_frame(text, &s).expect("a reply");
    Json::parse(&answer).unwrap()
}

#[test]
fn new_state_has_a_token_and_the_worktree() {
    let s = state();
    assert_eq!(s.auth_token.len(), 32);
    assert!(s.auth_token.chars().all(|c| c.is_ascii_alphanumeric()));
    assert!(s.connections.is_empty());
    assert_eq!(s.workspace_folders, vec!["/home/user/project".to_string()]);
    assert_eq!(s.ide_name, "test-server");
    assert_eq!(s.auth_header, "x-ide-authorization");
    assert_eq!(s.tool_registry.get_tool_list().len(), 12);
}

#[test]
fn new_state_falls_back_to_the_current_directory() {
    let s = ServerState::new(None, Some("/cwd".to_string()), "n", "h");
    assert_eq!(s.workspace_folders, vec!["/cwd".to_string()]);
    let both = ServerState::new(Some("/w".to_string()), Some("/cwd".to_string()), "n", "h");
    assert_eq!(both.workspace_folders, vec!["/w".to_string()]);
    let none = ServerState::new(None, None, "n", "h");
    assert!(none.workspace_folders.is_empty());
}

#[test]
fn tokens_are_fresh() {
    let a = generate_auth_token();
    let b = generate_auth_token();
    assert_eq!(a.len(), AUTH_TOKEN_LENGTH);
    assert_eq!(a.chars().count(), 32);
    assert!(a.chars().all(|c| c.is_ascii_alphanumeric()));
    assert_ne!(a, b);
}

#[test]
fn connection_ids_are_fresh() {
    let a = new_connection_id();
    let b = new_connection_id();
    assert_eq!(a.chars().count(), 36);
    assert_eq!(a.matches('-').count(), 4);
    assert_ne!(a, b);
}

#[test]
fn tools_list_is_answered_with_the_tools() {
    let j = reply("{\"jsonrpc\":\"2.0\",\"id\":1,\"method\":\"tools/list\"}");
    assert_eq!(j.get("id"), Some(&Json::UInt(1)));
    assert_eq!(j.str_field("jsonrpc"), Some("2.0"));
    assert_eq!(j.get("error"), None);
    let tools = match j.get("result").and_then(|r| r.get("tools")) {
        Some(Json::Array(tools)) => tools.clone(),
        other => panic!("no tools: {:?}", other),
    };
    let names: Vec<&str> = tools.iter().map(|t| t.str_field("name").unwrap()).collect();
    assert!(names.contains(&"openFile"));
    assert!(names.contains(&"getWorkspaceFolders"));
    assert_eq!(names.len(), 12);
    for t in &tools {
        assert!(t.get("inputSchema").is_some());
        assert!(t.str_field("description").is_some());
    }
}

#[test]
fn tool_call_is_answered_with_the_tool_result() {
    let j = reply(
        "{\"jsonrpc\":\"2.0\",\"id\":2,\"method\":\"tools/call\",\
         \"params\":{\"name\":\"getWorkspaceFolders\",\"arguments\":{}}}",
    );
    assert_eq!(j.get("id"), Some(&Json::UInt(2)));
    let content = match j.get("result").and_then(|r| r.get("content")) {
        Some(Json::Array(c)) => c.clone(),
        other => panic!("no content: {:?}", other),
    };
    assert_eq!(content[0].str_field("type"), Some("text"));
    let inner = Json::parse(content[0].str_field("text").unwrap()).unwrap();
    assert_eq!(inner.bool_field("success"), Some(true));
    assert_eq!(inner.str_field("rootPath"), Some("/home/user/project"));
}

#[test]
fn tool_call_without_arguments_member() {
    let j = reply(
        "{\"jsonrpc\":\"2.0\",\"id\":3,\"method\":\"tools/call\",\"params\":{\"name\":\"closeAllDiffTabs\"}}",
    );
    assert_eq!(
        j.get("result").unwrap().to_text(),
        "{\"content\":[{\"text\":\"CLOSED_0_DIFF_TABS\",\"type\":\"text\"}],\"isError\":false}"
    );
}

#[test]
fn every_listed_tool_is_dispatched() {
    let s = state();
    for schema in s.tool_registry.get_tool_list() {
        let params = Json::object(vec![
            entry("name", Json::string(&schema.name)),
            entry("arguments", Json::object(vec![])),
        ]);
        let r = handle_jsonrpc_request(
            request("tools/call", Some(params), Some(Json::string("id-1"))),
            &s,
        )
        .expect("a response");
        assert_eq!(r.id, Some(Json::string("id-1")));
        assert_eq!(r.jsonrpc, "2.0");
        match (&r.result, &r.error) {
            (Some(result), None) => assert_eq!(result.bool_field("isError"), Some(false)),
            (None, Some(e)) => {
                assert_eq!(e.code, INVALID_PARAMS, "{}", schema.name);
                assert!(!e.message.is_empty());
            }
            other => panic!("{}: {:?}", schema.name, other),
        }
    }
}

#[test]
fn tool_error_becomes_the_error_of_the_response() {
    let j = reply(
        "{\"jsonrpc\":\"2.0\",\"id\":9,\"method\":\"tools/call\",\
         \"params\":{\"name\":\"openFile\",\"arguments\":{}}}",
    );
    assert_eq!(j.get("result"), None);
    let e = j.get("error").unwrap();
    assert_eq!(e.get("code"), Some(&Json::Int(-32602)));
    assert_eq!(e.str_field("message"), Some("Missing filePath parameter"));
    assert_eq!(e.get("data"), Some(&Json::Null));
    assert_eq!(j.get("id"), Some(&Json::UInt(9)));
}

#[test]
fn unknown_tool_is_reported() {
    let j = reply(
        "{\"jsonrpc\":\"2.0\",\"id\":4,\"method\":\"tools/call\",\"params\":{\"name\":\"nope\"}}",
    );
    let e = j.get("error").unwrap();
    assert_eq!(e.get("code"), Some(&Json::Int(-32601)));
    assert_eq!(e.str_field("message"), Some("Tool not found: nope"));
}

#[test]
fn tool_call_without_name_is_invalid() {
    for text in [
        "{\"jsonrpc\":\"2.0\",\"id\":5,\"method\":\"tools/call\"}",
        "{\"jsonrpc\":\"2.0\",\"id\":5,\"method\":\"tools/call\",\"params\":{}}",
        "{\"jsonrpc\":\"2.0\",\"id\":5,\"method\":\"tools/call\",\"params\":{\"name\":5}}",
        "{\"jsonrpc\":\"2.0\",\"id\":5,\"method\":\"tools/call\",\"params\":[1]}",
    ] {
        let j = reply(text);
        let e = j.get("error").unwrap();
        assert_eq!(e.get("code"), Some(&Json::Int(-32602)));
        assert_eq!(e.str_field("message"), Some("Invalid params"));
        assert_eq!(e.get("data").unwrap().str_field("error"), Some("Missing tool name"));
        assert_eq!(j.get("id"), Some(&Json::UInt(5)));
    }
}

#[test]
fn unknown_method_is_not_found() {
    let j = reply("{\"jsonrpc\":\"2.0\",\"id\":7,\"method\":\"no.such.method\"}");
    assert_eq!(j.get("id"), Some(&Json::UInt(7)));
    let e = j.get("error").unwrap();
    assert_eq!(e.get("code"), Some(&Json::Int(-32601)));
    assert_eq!(e.str_field("message"), Some("Method not found"));
    assert_eq!(e.get("data").unwrap().str_field("method"), Some("no.such.method"));
    assert_eq!(j.get("result"), None);
}

#[test]
fn unknown_method_without_id_is_passed_over() {
    let s = state();
    assert_eq!(handle_text_frame("{\"jsonrpc\":\"2.0\",\"method\":\"no.such.method\"}", &s), None);
}

#[test]
fn message_without_id_is_never_answered() {
    let s = state();
    for method in [
        "initialize",
        "tools/list",
        "tools/call",
        "prompts/list",
        "prompts/get",
        "logging/setLevel",
        "notifications/initialized",
        "selection_changed",
        "at_mentioned",
        "anything",
    ] {
        assert_eq!(handle_jsonrpc_request(request(method, None, None), &s), None, "{}", method);
        let text = format!("{{\"jsonrpc\":\"2.0\",\"method\":\"{}\",\"id\":null}}", method);
        assert_eq!(handle_text_frame(&text, &s), None, "{}", method);
    }
}

#[test]
fn notification_methods_are_not_answered_even_with_an_id() {
    let s = state();
    for method in ["notifications/initialized", "selection_changed", "at_mentioned"] {
        assert!(notification_method(method));
        assert_eq!(handle_jsonrpc_request(request(method, None, Some(Json::UInt(1))), &s), None);
    }
    assert!(!notification_method("initialize"));
    assert!(!notification_method("notifications/other"));
}

#[test]
fn request_with_an_id_gets_a_response_with_that_id() {
    let s = state();
    for (i, method) in
        ["initialize", "tools/list", "tools/call", "prompts/list", "prompts/get", "logging/setLevel", "x"]
            .iter()
            .enumerate()
    {
        for id in [Json::UInt(i as u64), Json::string("abc"), Json::Int(-3), Json::Real("1.5".to_string())] {
            let r = handle_jsonrpc_request(request(method, None, Some(id.clone())), &s).unwrap();
            assert_eq!(r.id, Some(id));
            assert!(r.result.is_some() != r.error.is_some());
        }
    }
}

#[test]
fn id_is_echoed_as_it_came() {
    let s = state();
    let a = handle_text_frame("{\"jsonrpc\":\"2.0\",\"id\":\"a-1\",\"method\":\"prompts/list\"}", &s).unwrap();
    assert_eq!(a, "{\"id\":\"a-1\",\"jsonrpc\":\"2.0\",\"result\":{\"prompts\":[]}}");
    let b = handle_text_frame("{\"jsonrpc\":\"2.0\",\"id\":-4,\"method\":\"logging/setLevel\"}", &s).unwrap();
    assert_eq!(b, "{\"id\":-4,\"jsonrpc\":\"2.0\",\"result\":{}}");
}

#[test]
fn initialize_announces_the_capabilities() {
    let j = reply("{\"jsonrpc\":\"2.0\",\"id\":1,\"method\":\"initialize\",\"params\":{}}");
    let result = j.get("result").unwrap();
    assert_eq!(result.str_field("protocolVersion"), Some("2024-11-05"));
    assert_eq!(MCP_PROTOCOL_VERSION, "2024-11-05");
    assert_eq!(
        result.get("capabilities").unwrap().to_text(),
        "{\"logging\":{},\"prompts\":{\"listChanged\":true},\
         \"resources\":{\"listChanged\":true,\"subscribe\":true},\"tools\":{\"listChanged\":true}}"
    );
    assert_eq!(
        result.get("serverInfo").unwrap().to_text(),
        "{\"name\":\"test-server\",\"version\":\"0.1.0\"}"
    );
    assert_eq!(initialize_result("test-server").to_text(), result.to_text());
}

#[test]
fn capabilities_and_server_info_as_json() {
    let c = McpCapabilities {
        logging: vec![entry("level", Json::string("info"))],
        prompts: McpPromptsCapability { list_changed: false },
        resources: McpResourcesCapability { subscribe: false, list_changed: true },
        tools: McpToolsCapability { list_changed: true },
    };
    assert_eq!(
        c.to_json().to_text(),
        "{\"logging\":{\"level\":\"info\"},\"prompts\":{\"listChanged\":false},\
         \"resources\":{\"listChanged\":true,\"subscribe\":false},\"tools\":{\"listChanged\":true}}"
    );
    let i = McpServerInfo { name: "n".to_string(), version: "v".to_string() };
    assert_eq!(i.to_json().to_text(), "{\"name\":\"n\",\"version\":\"v\"}");
}

#[test]
fn prompts_are_empty() {
    let list = reply("{\"jsonrpc\":\"2.0\",\"id\":1,\"method\":\"prompts/list\"}");
    assert_eq!(list.get("result").unwrap().to_text(), "{\"prompts\":[]}");
    let get = reply("{\"jsonrpc\":\"2.0\",\"id\":1,\"method\":\"prompts/get\",\"params\":{\"name\":\"p\"}}");
    assert_eq!(get.get("result").unwrap().to_text(), "{\"description\":\"Prompt: p\",\"messages\":[]}");
    let bad = reply("{\"jsonrpc\":\"2.0\",\"id\":1,\"method\":\"prompts/get\"}");
    let e = bad.get("error").unwrap();
    assert_eq!(e.get("code"), Some(&Json::Int(-32602)));
    assert_eq!(e.get("data").unwrap().str_field("error"), Some("Missing prompt name"));
}

#[test]
fn set_level_is_acknowledged() {
    let j = reply("{\"jsonrpc\":\"2.0\",\"id\":1,\"method\":\"logging/setLevel\",\"params\":{\"level\":\"debug\"}}");
    assert_eq!(j.get("result").unwrap().to_text(), "{}");
}

#[test]
fn handle_method_gives_result_or_error() {
    let s = state();
    assert!(handle_method("tools/list", &None, &s).is_ok());
    let e = handle_method("frob", &None, &s).unwrap_err();
    assert_eq!(e.code, METHOD_NOT_FOUND);
    assert_eq!(INTERNAL_ERROR, -32603);
}

#[test]
fn malformed_text_is_answered_with_a_parse_error() {
    let s = state();
    let text = "{\"jsonrpc\": \"2.0\", \"id\": 1, ";
    let answer = handle_text_frame(text, &s).unwrap();
    let j = Json::parse(&answer).unwrap();
    assert_eq!(j.get("id"), Some(&Json::Null));
    assert_eq!(j.get("result"), None);
    let e = j.get("error").unwrap();
    assert_eq!(e.get("code"), Some(&Json::Int(-32700)));
    assert_eq!(PARSE_ERROR, -32700);
    assert_eq!(e.str_field("message"), Some("Parse error"));
    let data = e.get("data").unwrap();
    assert_eq!(data.str_field("received_text"), Some(text));
    let details = serde_json::from_str::<serde_json::Value>(text).unwrap_err().to_string();
    assert_eq!(data.str_field("details"), Some(details.as_str()));
    assert_eq!(on_frame(Frame::Text(text.to_string()), &s), FrameAction::Send(answer));
}

#[test]
fn received_text_is_cut_at_two_hundred_characters() {
    let s = state();
    let text: String = std::iter::repeat('é').take(250).collect();
    let j = Json::parse(&handle_text_frame(&text, &s).unwrap()).unwrap();
    let received = j.get("error").unwrap().get("data").unwrap().str_field("received_text").unwrap();
    assert_eq!(received.chars().count(), 200);
    assert!(text.starts_with(received));
    let exact: String = std::iter::repeat('x').take(200).collect();
    let k = Json::parse(&handle_text_frame(&exact, &s).unwrap()).unwrap();
    assert_eq!(
        k.get("error").unwrap().get("data").unwrap().str_field("received_text"),
        Some(exact.as_str())
    );
}

#[test]
fn json_that_is_no_request_is_a_parse_error() {
    for (text, details) in [
        ("[1, 2]", "invalid type: expected a request object"),
        ("\"hello\"", "invalid type: expected a request object"),
        ("{\"method\":\"m\",\"id\":1}", "missing field `jsonrpc`"),
        ("{\"jsonrpc\":2,\"method\":\"m\"}", "invalid type: `jsonrpc` is not a string"),
        ("{\"jsonrpc\":\"2.0\",\"id\":1}", "missing field `method`"),
        ("{\"jsonrpc\":\"2.0\",\"method\":null}", "invalid type: `method` is not a string"),
    ] {
        let j = reply(text);
        let e = j.get("error").unwrap();
        assert_eq!(e.get("code"), Some(&Json::Int(-32700)), "{}", text);
        assert_eq!(e.get("data").unwrap().str_field("details"), Some(details), "{}", text);
        assert_eq!(j.get("id"), Some(&Json::Null));
    }
}

#[test]
fn request_is_read_from_a_document() {
    let j = Json::parse("{\"jsonrpc\":\"2.0\",\"method\":\"m\",\"params\":{\"a\":1},\"id\":\"x\",\"extra\":true}")
        .unwrap();
    let r = JsonRpcRequest::from_json(&j).unwrap();
    assert_eq!(
        r,
        JsonRpcRequest {
            jsonrpc: "2.0".to_string(),
            method: "m".to_string(),
            params: Some(Json::object(vec![entry("a", Json::UInt(1))])),
            id: Some(Json::string("x")),
        }
    );
    let n = Json::parse("{\"jsonrpc\":\"2.0\",\"method\":\"m\",\"params\":null,\"id\":null}").unwrap();
    let r = JsonRpcRequest::from_json(&n).unwrap();
    assert_eq!(r.params, None);
    assert_eq!(r.id, None);
}

#[test]
fn reply_to_parsed_takes_the_parsers_result() {
    let s = state();
    let r = reply_to_parsed(Err("boom".to_string()), "text", &s).unwrap();
    let e = r.error.unwrap();
    assert_eq!(e.code, -32700);
    assert_eq!(e.message, "Parse error");
    assert_eq!(e.data.unwrap().to_text(), "{\"details\":\"boom\",\"received_text\":\"text\"}");
    assert_eq!(r.id, None);
    assert_eq!(r.result, None);
    let ok = Json::parse("{\"jsonrpc\":\"2.0\",\"method\":\"prompts/list\",\"id\":1}").unwrap();
    let r = reply_to_parsed(Ok(ok), "ignored", &s).unwrap();
    assert_eq!(r.id, Some(Json::UInt(1)));
    let note = Json::parse("{\"jsonrpc\":\"2.0\",\"method\":\"prompts/list\"}").unwrap();
    assert_eq!(reply_to_parsed(Ok(note), "ignored", &s), None);
}

#[test]
fn response_has_result_or_error_but_not_both() {
    let ok = JsonRpcResponse::success(Some(Json::UInt(1)), Json::Bool(true));
    assert_eq!(ok.to_text(), "{\"id\":1,\"jsonrpc\":\"2.0\",\"result\":true}");
    let e = JsonRpcError { code: -1, message: "m".to_string(), data: Some(Json::UInt(2)) };
    let bad = JsonRpcResponse::failure(None, e);
    assert_eq!(
        bad.to_text(),
        "{\"error\":{\"code\":-1,\"data\":2,\"message\":\"m\"},\"id\":null,\"jsonrpc\":\"2.0\"}"
    );
    assert_eq!(bad.to_json().get("result"), None);
}

#[test]
fn notification_as_text() {
    let n = JsonRpcNotification {
        jsonrpc: "2.0".to_string(),
        method: "selection_changed".to_string(),
        params: Some(Json::object(vec![entry("text", Json::string("x"))])),
    };
    assert_eq!(
        n.to_text(),
        "{\"jsonrpc\":\"2.0\",\"method\":\"selection_changed\",\"params\":{\"text\":\"x\"}}"
    );
    let bare = JsonRpcNotification { jsonrpc: "2.0".to_string(), method: "m".to_string(), params: None };
    assert_eq!(bare.to_json().get("params"), Some(&Json::Null));
}

#[test]
fn binary_frame_is_passed_over() {
    let s = state();
    assert_eq!(on_frame(Frame::Binary(vec![1, 2, 3]), &s), FrameAction::Nothing);
    assert_eq!(on_frame(Frame::Binary(vec![]), &s), FrameAction::Nothing);
    assert_eq!(on_frame(Frame::Raw, &s), FrameAction::Nothing);
}

#[test]
fn ping_is_echoed_and_pong_recorded() {
    let s = state();
    assert_eq!(on_frame(Frame::Ping(vec![9, 8]), &s), FrameAction::SendPong(vec![9, 8]));
    assert_eq!(on_frame(Frame::Pong(vec![1]), &s), FrameAction::RecordPong);
    assert_eq!(on_frame(Frame::Close, &s), FrameAction::Close);
}

#[test]
fn text_frames_are_answered_or_passed_over() {
    let s = state();
    let request = "{\"jsonrpc\":\"2.0\",\"id\":1,\"method\":\"prompts/list\"}".to_string();
    assert_eq!(
        on_frame(Frame::Text(request), &s),
        FrameAction::Send("{\"id\":1,\"jsonrpc\":\"2.0\",\"result\":{\"prompts\":[]}}".to_string())
    );
    let note = "{\"jsonrpc\":\"2.0\",\"method\":\"notifications/initialized\"}".to_string();
    assert_eq!(on_frame(Frame::Text(note), &s), FrameAction::Nothing);
}

#[test]
fn phases_follow_the_events() {
    let accepted = ConnectionPhase::Accepted;
    let authenticated = ConnectionPhase::Authenticated;
    let ready = ConnectionPhase::Ready;
    let closed = ConnectionPhase::Closed;
    assert_eq!(advance(accepted, ConnectionEvent::UpgradeOk), authenticated);
    assert_eq!(advance(accepted, ConnectionEvent::UpgradeFailed), closed);
    assert_eq!(advance(accepted, ConnectionEvent::AuthFailed), closed);
    assert_eq!(advance(authenticated, ConnectionEvent::AuthFailed), closed);
    assert_eq!(advance(authenticated, ConnectionEvent::Initialize), ready);
    assert_eq!(advance(authenticated, ConnectionEvent::Message), authenticated);
    assert_eq!(advance(ready, ConnectionEvent::Message), ready);
    assert_eq!(advance(ready, ConnectionEvent::Initialize), ready);
    assert_eq!(advance(ready, ConnectionEvent::CloseFrame), closed);
    assert_eq!(advance(ready, ConnectionEvent::Timeout), closed);
    assert_eq!(advance(ready, ConnectionEvent::TransportError), closed);
    assert_eq!(advance(accepted, ConnectionEvent::Initialize), accepted);
    for e in [
        ConnectionEvent::UpgradeOk,
        ConnectionEvent::UpgradeFailed,
        ConnectionEvent::AuthFailed,
        ConnectionEvent::Initialize,
        ConnectionEvent::Message,
        ConnectionEvent::CloseFrame,
        ConnectionEvent::Timeout,
        ConnectionEvent::TransportError,
    ] {
        assert_eq!(advance(closed, e), closed);
    }
    assert_eq!(message_event("initialize"), ConnectionEvent::Initialize);
    assert_eq!(message_event("tools/call"), ConnectionEvent::Message);
}

#[test]
fn connection_moves_with_its_frames() {
    let s = state();
    let init = "{\"jsonrpc\":\"2.0\",\"id\":1,\"method\":\"initialize\"}".to_string();
    let (phase, action) = connection_step(ConnectionPhase::Authenticated, Frame::Text(init), &s);
    assert_eq!(phase, ConnectionPhase::Ready);
    assert!(matches!(action, FrameAction::Send(_)));
    let call = "{\"jsonrpc\":\"2.0\",\"id\":2,\"method\":\"tools/list\"}".to_string();
    let (phase, action) = connection_step(ConnectionPhase::Authenticated, Frame::Text(call.clone()), &s);
    assert_eq!(phase, ConnectionPhase::Authenticated);
    assert_eq!(action, on_frame(Frame::Text(call), &s));
    let (phase, action) = connection_step(ConnectionPhase::Ready, Frame::Text("{oops".to_string()), &s);
    assert_eq!(phase, ConnectionPhase::Ready);
    assert!(matches!(action, FrameAction::Send(_)));
    let (phase, action) = connection_step(ConnectionPhase::Ready, Frame::Binary(vec![0]), &s);
    assert_eq!((phase, action), (ConnectionPhase::Ready, FrameAction::Nothing));
    let (phase, action) = connection_step(ConnectionPhase::Ready, Frame::Ping(vec![7]), &s);
    assert_eq!((phase, action), (ConnectionPhase::Ready, FrameAction::SendPong(vec![7])));
    let (phase, action) = connection_step(ConnectionPhase::Ready, Frame::Close, &s);
    assert_eq!((phase, action), (ConnectionPhase::Closed, FrameAction::Close));
}
