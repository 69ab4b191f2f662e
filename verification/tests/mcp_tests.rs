use ide_bridge::json::{entry, Json};
use ide_bridge::mcp::{
    call_result, tools_list, LoggingCapability, MCPError, MCPRequest, MCPResponse, MCPServer,
    McpFailure, PromptsCapability, ServerCapabilities, ServerInfo, TextContent, Tool,
    ToolsCapability, PROTOCOL_VERSION,
};

fn request(method: &str, params: Option<Json>) -> MCPRequest {
    MCPRequest { jsonrpc: "2.0".to_string(), id: Some(Json::UInt(1)), method: method.to_string(), params }
}

fn call(name: &str, arguments: Vec<(&str, Json)>) -> Result<MCPResponse, McpFailure> {
    let args = Json::object(arguments.into_iter().map(|(k, v)| entry(k, v)).collect());
    let params = Json::object(vec![entry("name", Json::string(name)), entry("arguments", args)]);
    MCPServer::new().handle_request(request("tools/call", Some(params)), "test-server", "/home/user/project")
}

fn texts(response: Result<MCPResponse, McpFailure>) -> Vec<String> {
    let response = response.unwrap();
    assert_eq!(response.error, None);
    assert_eq!(response.id, Some(Json::UInt(1)));
    let result = response.result.unwrap();
    assert_eq!(result.bool_field("isError"), Some(false));
    match result.get("content") {
        Some(Json::Array(items)) => {
            items.iter().map(|i| i.str_field("text").unwrap().to_string()).collect()
        }
        other => panic!("{:?}", other),
    }
}

#[test]
fn new_server_has_the_default_capabilities() {
    let expected = ServerCapabilities {
        tools: Some(ToolsCapability { list_changed: Some(true) }),
        prompts: Some(PromptsCapability { list_changed: Some(false) }),
        logging: Some(LoggingCapability {}),
    };
    assert_eq!(MCPServer::new().capabilities(), expected);
    assert_eq!(MCPServer::default().capabilities(), expected);
}

#[test]
fn plain_records_hold_their_fields() {
    let info = ServerInfo { name: "n".to_string(), version: "1".to_string() };
    assert_eq!(info.clone(), info);
    let content = TextContent { type_: "text".to_string(), text: "t".to_string() };
    assert_eq!(content.clone().text, "t");
    let tool = Tool { name: "t".to_string(), description: None, input_schema: Json::Null };
    assert_eq!(tool.name, "t");
    let e = MCPError { code: 1, message: "m".to_string(), data: None };
    assert_eq!(e.code, 1);
}

#[test]
fn initialize_reports_version_capabilities_and_name() {
    let r = MCPServer::new().handle_request(request("initialize", None), "test-server", "/w").unwrap();
    assert_eq!(
        r.result.unwrap().to_text(),
        "{\"capabilities\":{\"logging\":{},\"prompts\":{\"listChanged\":false},\
         \"tools\":{\"listChanged\":true}},\"protocolVersion\":\"2025-03-26\",\
         \"serverInfo\":{\"name\":\"test-server\",\"version\":\"0.1.0\"}}"
    );
    assert_eq!(PROTOCOL_VERSION, "2025-03-26");
}

#[test]
fn absent_capabilities_are_null() {
    let c = ServerCapabilities {
        tools: None,
        prompts: Some(PromptsCapability { list_changed: None }),
        logging: None,
    };
    assert_eq!(
        c.to_json().to_text(),
        "{\"logging\":null,\"prompts\":{\"listChanged\":null},\"tools\":null}"
    );
}

#[test]
fn lists_are_empty() {
    let s = MCPServer::new();
    let tools = s.handle_request(request("tools/list", None), "n", "/w").unwrap();
    assert_eq!(tools.result.unwrap().to_text(), "{\"tools\":[]}");
    let prompts = s.handle_request(request("prompts/list", None), "n", "/w").unwrap();
    assert_eq!(prompts.result.unwrap().to_text(), "{\"prompts\":[]}");
    let level = s.handle_request(request("logging/setLevel", Some(Json::Null)), "n", "/w").unwrap();
    assert_eq!(level.result.unwrap().to_text(), "{}");
}

#[test]
fn unknown_method_is_answered_with_an_error() {
    let mut req = request("no.such.method", None);
    req.id = Some(Json::string("seven"));
    let r = MCPServer::new().handle_request(req, "n", "/w").unwrap();
    assert_eq!(r.id, Some(Json::string("seven")));
    assert_eq!(r.result, None);
    assert_eq!(
        r.error,
        Some(MCPError { code: -32601, message: "Method not found: no.such.method".to_string(), data: None })
    );
    assert_eq!(r.jsonrpc, "2.0");
}

#[test]
fn prompt_is_described() {
    let s = MCPServer::new();
    let params = Json::object(vec![entry("name", Json::string("review"))]);
    let r = s.handle_request(request("prompts/get", Some(params)), "n", "/w").unwrap();
    assert_eq!(r.result.unwrap().to_text(), "{\"description\":\"Prompt: review\",\"messages\":[]}");
    let missing = s.handle_request(request("prompts/get", None), "n", "/w").unwrap_err();
    assert_eq!(missing, McpFailure::MissingParameters { method: "prompts/get".to_string() });
    assert_eq!(missing.message(), "Missing parameters for prompts/get");
    let unnamed = s.handle_request(request("prompts/get", Some(Json::object(vec![]))), "n", "/w").unwrap_err();
    assert_eq!(unnamed, McpFailure::MissingPromptName);
    assert_eq!(unnamed.message(), "Missing prompt name");
}

#[test]
fn tool_call_failures() {
    let s = MCPServer::new();
    let missing = s.handle_request(request("tools/call", None), "n", "/w").unwrap_err();
    assert_eq!(missing.message(), "Missing parameters for tools/call");
    let unnamed = s.handle_request(request("tools/call", Some(Json::object(vec![]))), "n", "/w").unwrap_err();
    assert_eq!(unnamed, McpFailure::MissingToolName);
    assert_eq!(unnamed.message(), "Missing tool name");
    let unknown = call("frobnicate", vec![]).unwrap_err();
    assert_eq!(unknown, McpFailure::UnknownTool { name: "frobnicate".to_string() });
    assert_eq!(unknown.message(), "Unknown tool: frobnicate");
}

#[test]
fn echo_and_workspace_info() {
    assert_eq!(texts(call("echo", vec![("text", Json::string("hi"))])), vec!["Echo: hi"]);
    assert_eq!(texts(call("echo", vec![])), vec!["Echo: No text provided"]);
    assert_eq!(texts(call("get_workspace_info", vec![])), vec!["Current workspace: /home/user/project"]);
}

#[test]
fn open_file_with_and_without_a_path() {
    assert_eq!(texts(call("openFile", vec![("filePath", Json::string("/a"))])), vec!["Opened file: /a"]);
    assert_eq!(texts(call("openFile", vec![])), vec!["Opened file: No file path provided"]);
    assert_eq!(
        texts(call("openFile", vec![("filePath", Json::string("/a")), ("makeFrontmost", Json::Bool(false))])),
        vec!["{\"filePath\":\"/a\",\"languageId\":\"text\",\"lineCount\":0,\"success\":true}"]
    );
}

#[test]
fn tools_answer_with_defaults_for_missing_arguments() {
    assert_eq!(texts(call("closeAllDiffTabs", vec![])), vec!["CLOSED_0_DIFF_TABS"]);
    assert_eq!(texts(call("close_tab", vec![])), vec!["TAB_CLOSED"]);
    assert_eq!(
        texts(call("getCurrentSelection", vec![])),
        vec!["{\"message\":\"No active editor found\",\"success\":false}"]
    );
    assert_eq!(
        texts(call("getLatestSelection", vec![])),
        vec!["{\"message\":\"No selection available\",\"success\":false}"]
    );
    assert_eq!(texts(call("getOpenEditors", vec![])), vec!["{\"tabs\":[]}"]);
    assert_eq!(texts(call("openDiff", vec![])), vec!["FILE_SAVED", "No new file contents provided"]);
    assert_eq!(
        texts(call("openDiff", vec![("new_file_contents", Json::string("x"))])),
        vec!["FILE_SAVED", "x"]
    );
    assert_eq!(texts(call("getDiagnostics", vec![])), vec!["[]"]);
    assert_eq!(
        texts(call("getDiagnostics", vec![("uri", Json::string("u"))])),
        vec!["[{\"diagnostics\":[],\"uri\":\"u\"}]"]
    );
    assert_eq!(
        texts(call("checkDocumentDirty", vec![])),
        vec!["{\"filePath\":\"No file path provided\",\"isDirty\":false,\"isUntitled\":false,\"success\":true}"]
    );
    assert_eq!(
        texts(call("saveDocument", vec![("filePath", Json::string("/a"))])),
        vec!["{\"filePath\":\"/a\",\"message\":\"Document saved successfully\",\"saved\":true,\"success\":true}"]
    );
    assert_eq!(
        texts(call("executeCode", vec![])),
        vec!["Code executed successfully. Output: (simulated execution of 16 characters)"]
    );
}

#[test]
fn workspace_folders_of_the_working_directory() {
    assert_eq!(
        texts(call("getWorkspaceFolders", vec![])),
        vec![
            "{\"folders\":[{\"name\":\"project\",\"path\":\"/home/user/project\",\
             \"uri\":\"file:///home/user/project\"}],\"rootPath\":\"/home/user/project\",\"success\":true}"
        ]
    );
}

#[test]
fn call_without_arguments_member_uses_an_empty_object() {
    let params = Json::object(vec![entry("name", Json::string("echo"))]);
    let r = MCPServer::new().handle_request(request("tools/call", Some(params)), "n", "/w");
    assert_eq!(texts(r), vec!["Echo: No text provided"]);
}

#[test]
fn call_tool_knows_its_tools() {
    assert_eq!(MCPServer::call_tool("close_tab", "/w", &Json::Null), Some(vec!["TAB_CLOSED".to_string()]));
    assert_eq!(MCPServer::call_tool("Close_tab", "/w", &Json::Null), None);
}

#[test]
fn content_items_and_tools_as_json() {
    let items = vec![
        TextContent::text("one".to_string()),
        TextContent { type_: "note".to_string(), text: "two".to_string() },
    ];
    assert_eq!(items[0].type_, "text");
    assert_eq!(
        call_result(&items).to_text(),
        "{\"content\":[{\"text\":\"one\",\"type\":\"text\"},{\"text\":\"two\",\"type\":\"note\"}],\"isError\":false}"
    );
    assert_eq!(call_result(&vec![]).to_text(), "{\"content\":[],\"isError\":false}");
    let tools = vec![
        Tool { name: "a".to_string(), description: None, input_schema: Json::Null },
        Tool { name: "b".to_string(), description: Some("d".to_string()), input_schema: Json::Bool(true) },
    ];
    assert_eq!(
        tools_list(&tools).to_text(),
        "{\"tools\":[{\"description\":null,\"inputSchema\":null,\"name\":\"a\"},\
         {\"description\":\"d\",\"inputSchema\":true,\"name\":\"b\"}]}"
    );
    let info = ServerInfo { name: "n".to_string(), version: "1".to_string() };
    assert_eq!(info.to_json().to_text(), "{\"name\":\"n\",\"version\":\"1\"}");
}
