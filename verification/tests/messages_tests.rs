use ide_bridge::json::{entry, Json};
use ide_bridge::messages::{file_read, file_written, handle_message, invalid_message, Message, Response, Step};

fn message(kind: &str, data: Json) -> Message {
    Message { id: "m-1".to_string(), message_type: kind.to_string(), data }
}

fn reply(step: Step) -> Response {
    match step {
        Step::Reply(r) => r,
        other => panic!("{:?}", other),
    }
}

fn error(text: &str) -> Response {
    Response {
        id: "m-1".to_string(),
        response_type: "error".to_string(),
        data: Json::Null,
        error: Some(text.to_string()),
    }
}

#[test]
fn ping_is_echoed() {
    let data = Json::object(vec![entry("n", Json::UInt(1))]);
    let r = reply(handle_message(message("ping", data.clone())));
    assert_eq!(r, Response { id: "m-1".to_string(), response_type: "pong".to_string(), data, error: None });
}

#[test]
fn capabilities_are_listed() {
    let r = reply(handle_message(message("get_capabilities", Json::Null)));
    assert_eq!(r.response_type, "capabilities");
    assert_eq!(
        r.data.to_text(),
        "{\"features\":[\"lsp\",\"websocket\",\"file_operations\",\"code_execution\"],\
         \"supported_languages\":[\"rust\",\"javascript\",\"typescript\",\"python\",\"go\",\"java\",\"c\",\"cpp\"],\
         \"version\":\"0.1.0\"}"
    );
    assert_eq!(r.error, None);
}

#[test]
fn command_is_echoed() {
    let data = Json::object(vec![
        entry("command", Json::string("cargo")),
        entry("args", Json::array(vec![Json::string("test")])),
    ]);
    let r = reply(handle_message(message("execute_command", data)));
    assert_eq!(r.response_type, "command_result");
    assert_eq!(
        r.data.to_text(),
        "{\"args\":[\"test\"],\"command\":\"cargo\",\
         \"output\":\"Command executed successfully (mock)\",\"status\":\"success\"}"
    );
    let bare = Json::object(vec![entry("command", Json::string("ls")), entry("args", Json::string("x"))]);
    let r = reply(handle_message(message("execute_command", bare)));
    assert_eq!(r.data.get("args"), Some(&Json::Null));
    let missing = reply(handle_message(message("execute_command", Json::object(vec![]))));
    assert_eq!(missing, error("Missing command in execute_command message"));
}

#[test]
fn file_is_asked_for_and_answered() {
    let data = Json::object(vec![entry("path", Json::string("/tmp/a"))]);
    assert_eq!(
        handle_message(message("get_file", data)),
        Step::ReadFile { id: "m-1".to_string(), path: "/tmp/a".to_string() }
    );
    assert_eq!(
        reply(handle_message(message("get_file", Json::Null))),
        error("Missing path in get_file message")
    );
    let ok = file_read("m-1".to_string(), "/tmp/a", Ok("text".to_string()));
    assert_eq!(ok.response_type, "file_content");
    assert_eq!(ok.data.to_text(), "{\"content\":\"text\",\"path\":\"/tmp/a\"}");
    let bad = file_read("m-1".to_string(), "/tmp/a", Err("denied".to_string()));
    assert_eq!(bad, error("Failed to read file: denied"));
}

#[test]
fn file_is_written_and_answered() {
    let data = Json::object(vec![
        entry("path", Json::string("/tmp/a")),
        entry("content", Json::string("é!")),
    ]);
    assert_eq!(
        handle_message(message("write_file", data)),
        Step::WriteFile { id: "m-1".to_string(), path: "/tmp/a".to_string(), content: "é!".to_string() }
    );
    let no_content = Json::object(vec![entry("path", Json::string("/tmp/a"))]);
    assert_eq!(
        reply(handle_message(message("write_file", no_content))),
        error("Missing path or content in write_file message")
    );
    let ok = file_written("m-1".to_string(), "/tmp/a", "é!", None);
    assert_eq!(ok.response_type, "file_written");
    assert_eq!(ok.data.to_text(), "{\"path\":\"/tmp/a\",\"size\":3}");
    let bad = file_written("m-1".to_string(), "/tmp/a", "é!", Some("full".to_string()));
    assert_eq!(bad, error("Failed to write file: full"));
}

#[test]
fn unknown_type_is_an_error() {
    assert_eq!(reply(handle_message(message("frob", Json::Null))), error("Unknown message type: frob"));
}

#[test]
fn text_that_is_no_message() {
    let r = invalid_message("fresh".to_string(), "expected value at line 1 column 1");
    assert_eq!(r.id, "fresh");
    assert_eq!(r.error, Some("Invalid message format: expected value at line 1 column 1".to_string()));
    assert_eq!(
        r.to_json().to_text(),
        "{\"data\":null,\"error\":\"Invalid message format: expected value at line 1 column 1\",\
         \"id\":\"fresh\",\"type\":\"error\"}"
    );
}

#[test]
fn message_is_read_from_a_document() {
    let j = Json::parse("{\"id\":\"7\",\"type\":\"ping\",\"data\":{\"a\":1}}").unwrap();
    let m = Message::from_json(&j).unwrap();
    assert_eq!(m, message_with_id("7", "ping", Json::object(vec![entry("a", Json::UInt(1))])));
    assert_eq!(Message::from_json(&Json::Null).unwrap_err(), "invalid type: expected a message object");
    let no_id = Json::parse("{\"type\":\"ping\",\"data\":null}").unwrap();
    assert_eq!(Message::from_json(&no_id).unwrap_err(), "missing field `id`");
    let no_type = Json::parse("{\"id\":\"1\",\"data\":null}").unwrap();
    assert_eq!(Message::from_json(&no_type).unwrap_err(), "missing field `type`");
    let no_data = Json::parse("{\"id\":\"1\",\"type\":\"ping\"}").unwrap();
    assert_eq!(Message::from_json(&no_data).unwrap_err(), "missing field `data`");
}

fn message_with_id(id: &str, kind: &str, data: Json) -> Message {
    Message { id: id.to_string(), message_type: kind.to_string(), data }
}
