//! The tool protocol as a plain request handler: one request in, one response
//! out, with no connection state.
use crate::json::{
    empty_array, empty_object, entries_view, items_view, json_text, option_view, push_entry,
    push_item, Json, JsonValue,
};
use crate::text::{join, push_string, str_eq, strings_view};
use crate::tools::{
    check_document_dirty, close_all_diff_tabs, close_tab, closed_tabs_text, diagnostics,
    diagnostics_value, document_dirty_value, execute_code, execute_code_text, no_selection,
    no_selection_value, open_diff, open_diff_texts, open_editors, open_editors_value, open_file,
    open_file_texts, save_document, save_document_value, tool_result, workspace_folders,
    workspace_folders_value,
};
use vstd::prelude::*;
use vstd::string::*;

verus! {

/// Whether the tool list may change while a session lasts.
#[derive(Debug, Clone, Copy, PartialEq, Eq, Structural)]
pub struct ToolsCapability {
    pub list_changed: Option<bool>,
}

/// Whether the prompt list may change while a session lasts.
#[derive(Debug, Clone, Copy, PartialEq, Eq, Structural)]
pub struct PromptsCapability {
    pub list_changed: Option<bool>,
}

/// The server accepts `logging/setLevel`.
#[derive(Debug, Clone, Copy, PartialEq, Eq, Structural)]
pub struct LoggingCapability {}

/// What the server announces in answer to `initialize`.
#[derive(Debug, Clone, Copy, PartialEq, Eq, Structural)]
pub struct ServerCapabilities {
    pub tools: Option<ToolsCapability>,
    pub prompts: Option<PromptsCapability>,
    pub logging: Option<LoggingCapability>,
}

/// Name and version of the server.
#[derive(Debug, Clone, PartialEq, Eq)]
pub struct ServerInfo {
    pub name: String,
    pub version: String,
}

/// One item of a tool result.
#[derive(Debug, Clone, PartialEq, Eq)]
pub struct TextContent {
    pub type_: String,
    pub text: String,
}

/// The capabilities that every server of this protocol announces: a tool list
/// that may change, a prompt list that does not, and logging.
pub open spec fn default_capabilities() -> ServerCapabilities {
    ServerCapabilities {
        tools: Some(ToolsCapability { list_changed: Some(true) }),
        prompts: Some(PromptsCapability { list_changed: Some(false) }),
        logging: Some(LoggingCapability {  }),
    }
}

/// A stateless handler of tool-protocol requests.
pub struct MCPServer {
    capabilities: ServerCapabilities,
}

impl View for MCPServer {
    type V = ServerCapabilities;

    closed spec fn view(&self) -> ServerCapabilities {
        self.capabilities
    }
}

/// The version of the tool protocol that this handler speaks.
pub const PROTOCOL_VERSION: &'static str = "2025-03-26";

/// The version that the handler reports of the server.
pub const VERSION: &'static str = "0.1.0";

/// No method has the name that was called.
pub const METHOD_NOT_FOUND: i32 = -32601;

/// The mathematical value of an [`MCPRequest`].
pub struct McpRequestView {
    pub jsonrpc: Seq<char>,
    pub id: Option<JsonValue>,
    pub method: Seq<char>,
    pub params: Option<JsonValue>,
}

/// A request of the tool protocol.
#[derive(Debug, PartialEq, Eq)]
pub struct MCPRequest {
    pub jsonrpc: String,
    pub id: Option<Json>,
    pub method: String,
    pub params: Option<Json>,
}

impl View for MCPRequest {
    type V = McpRequestView;

    open spec fn view(&self) -> McpRequestView {
        McpRequestView {
            jsonrpc: self.jsonrpc@,
            id: option_view(self.id),
            method: self.method@,
            params: option_view(self.params),
        }
    }
}

/// The mathematical value of an [`MCPError`].
pub struct McpErrorView {
    pub code: int,
    pub message: Seq<char>,
    pub data: Option<JsonValue>,
}

/// The error member of a response.
#[derive(Debug, PartialEq, Eq)]
pub struct MCPError {
    pub code: i32,
    pub message: String,
    pub data: Option<Json>,
}

impl View for MCPError {
    type V = McpErrorView;

    open spec fn view(&self) -> McpErrorView {
        McpErrorView { code: self.code as int, message: self.message@, data: option_view(self.data) }
    }
}

/// The mathematical value of an [`MCPResponse`].
pub struct McpResponseView {
    pub jsonrpc: Seq<char>,
    pub id: Option<JsonValue>,
    pub result: Option<JsonValue>,
    pub error: Option<McpErrorView>,
}

/// The answer to a request.
#[derive(Debug, PartialEq, Eq)]
pub struct MCPResponse {
    pub jsonrpc: String,
    pub id: Option<Json>,
    pub result: Option<Json>,
    pub error: Option<MCPError>,
}

impl View for MCPResponse {
    type V = McpResponseView;

    open spec fn view(&self) -> McpResponseView {
        McpResponseView {
            jsonrpc: self.jsonrpc@,
            id: option_view(self.id),
            result: option_view(self.result),
            error: match self.error {
                Some(e) => Some(e@),
                None => None,
            },
        }
    }
}

/// A tool as the tool list of this handler would name it.
#[derive(Debug, PartialEq, Eq)]
pub struct Tool {
    pub name: String,
    pub description: Option<String>,
    pub input_schema: Json,
}

impl View for Tool {
    type V = ToolView;

    open spec fn view(&self) -> ToolView {
        ToolView {
            name: self.name@,
            description: match self.description {
                Some(d) => Some(d@),
                None => None,
            },
            input_schema: self.input_schema@,
        }
    }
}

impl Tool {
    /// The tool as a JSON object.
    pub fn to_json(&self) -> (j: Json)
        ensures
            j@ == tool_value(self@),
    {
        let description = match &self.description {
            Some(d) => Json::string(d.as_str()),
            None => Json::Null,
        };
        let mut e: Vec<(String, Json)> = Vec::new();
        push_entry(&mut e, "name", Json::string(self.name.as_str()));
        push_entry(&mut e, "description", description);
        push_entry(&mut e, "inputSchema", self.input_schema.clone());
        assert(entries_view(e@) =~= tool_value(self@)->Object_0);
        Json::object(e)
    }
}

/// The answer to `tools/list` for the given tools.
pub fn tools_list(tools: &Vec<Tool>) -> (j: Json)
    ensures
        j@ == tools_value(Seq::new(tools@.len(), |i: int| tools@[i]@)),
{
    let ghost all = Seq::new(tools@.len(), |i: int| tools@[i]@);
    let mut items: Vec<Json> = Vec::new();
    let mut i: usize = 0;
    while i < tools.len()
        invariant
            i <= tools@.len(),
            all == Seq::new(tools@.len(), |i: int| tools@[i]@),
            items_view(items@) == Seq::new(i as nat, |k: int| tool_value(all[k])),
        decreases tools@.len() - i,
    {
        push_item(&mut items, tools[i].to_json());
        assert(items_view(items@) =~= Seq::new((i + 1) as nat, |k: int| tool_value(all[k])));
        i = i + 1;
    }
    let mut e: Vec<(String, Json)> = Vec::new();
    push_entry(&mut e, "tools", Json::array(items));
    assert(entries_view(e@) =~= tools_value(all)->Object_0);
    Json::object(e)
}

/// The mathematical value of a [`TextContent`].
pub struct TextContentView {
    pub type_: Seq<char>,
    pub text: Seq<char>,
}

impl View for TextContent {
    type V = TextContentView;

    open spec fn view(&self) -> TextContentView {
        TextContentView { type_: self.type_@, text: self.text@ }
    }
}

/// The views of a list of content items.
pub open spec fn contents_view(content: Seq<TextContent>) -> Seq<TextContentView> {
    Seq::new(content.len(), |i: int| content[i]@)
}

/// A content item as a JSON object.
pub open spec fn content_value(c: TextContentView) -> JsonValue {
    JsonValue::Object(seq![("type"@, JsonValue::Str(c.type_)), ("text"@, JsonValue::Str(c.text))])
}

/// The result of a tool call as a JSON object: the content items, and the
/// mark that the call did not fail.
pub open spec fn call_result_value(content: Seq<TextContentView>) -> JsonValue {
    JsonValue::Object(
        seq![
            ("content"@, JsonValue::Array(Seq::new(content.len(), |i: int| content_value(content[i])))),
            ("isError"@, JsonValue::Bool(false)),
        ],
    )
}

/// The content items that stand for the texts of a tool.
pub open spec fn text_contents(texts: Seq<Seq<char>>) -> Seq<TextContentView> {
    Seq::new(texts.len(), |i: int| TextContentView { type_: "text"@, text: texts[i] })
}

/// The result around the content items of some texts is the result envelope
/// of the texts.
pub proof fn lemma_text_contents(texts: Seq<Seq<char>>)
    ensures
        call_result_value(text_contents(texts)) == tool_result(texts),
{
    let a = call_result_value(text_contents(texts))->Object_0[0].1->Array_0;
    let b = tool_result(texts)->Object_0[0].1->Array_0;
    assert(a =~= b);
    assert(call_result_value(text_contents(texts))->Object_0 =~= tool_result(texts)->Object_0);
}

impl TextContent {
    /// A content item that holds a text.
    pub fn text(text: String) -> (c: TextContent)
        ensures
            c@ == (TextContentView { type_: "text"@, text: text@ }),
    {
        TextContent { type_: String::from_str("text"), text }
    }

    /// The content item as a JSON object.
    pub fn to_json(&self) -> (j: Json)
        ensures
            j@ == content_value(self@),
    {
        let mut e: Vec<(String, Json)> = Vec::new();
        push_entry(&mut e, "type", Json::string(self.type_.as_str()));
        push_entry(&mut e, "text", Json::string(self.text.as_str()));
        assert(entries_view(e@) =~= content_value(self@)->Object_0);
        Json::object(e)
    }
}

/// The result of a tool call as a JSON object.
pub fn call_result(content: &Vec<TextContent>) -> (j: Json)
    ensures
        j@ == call_result_value(contents_view(content@)),
{
    let ghost all = contents_view(content@);
    let mut items: Vec<Json> = Vec::new();
    let mut i: usize = 0;
    while i < content.len()
        invariant
            i <= content@.len(),
            all == contents_view(content@),
            items_view(items@) == Seq::new(i as nat, |k: int| content_value(all[k])),
        decreases content@.len() - i,
    {
        push_item(&mut items, content[i].to_json());
        assert(items_view(items@) =~= Seq::new((i + 1) as nat, |k: int| content_value(all[k])));
        i = i + 1;
    }
    let mut e: Vec<(String, Json)> = Vec::new();
    push_entry(&mut e, "content", Json::array(items));
    push_entry(&mut e, "isError", Json::Bool(false));
    assert(entries_view(e@) =~= call_result_value(all)->Object_0);
    Json::object(e)
}

/// Name and version of a server as a JSON object.
pub open spec fn server_info_value(name: Seq<char>, version: Seq<char>) -> JsonValue {
    JsonValue::Object(
        seq![("name"@, JsonValue::Str(name)), ("version"@, JsonValue::Str(version))],
    )
}

impl ServerInfo {
    /// Name and version as a JSON object.
    pub fn to_json(&self) -> (j: Json)
        ensures
            j@ == server_info_value(self.name@, self.version@),
    {
        let mut e: Vec<(String, Json)> = Vec::new();
        push_entry(&mut e, "name", Json::string(self.name.as_str()));
        push_entry(&mut e, "version", Json::string(self.version.as_str()));
        assert(entries_view(e@) =~= server_info_value(self.name@, self.version@)->Object_0);
        Json::object(e)
    }
}

/// The mathematical value of a [`Tool`].
pub struct ToolView {
    pub name: Seq<char>,
    pub description: Option<Seq<char>>,
    pub input_schema: JsonValue,
}

/// A tool in the tool list as a JSON object; a description that is absent is
/// `null`.
pub open spec fn tool_value(t: ToolView) -> JsonValue {
    JsonValue::Object(
        seq![
            ("name"@, JsonValue::Str(t.name)),
            (
                "description"@,
                match t.description {
                    Some(d) => JsonValue::Str(d),
                    None => JsonValue::Null,
                },
            ),
            ("inputSchema"@, t.input_schema),
        ],
    )
}

/// The answer to `tools/list` for the given tools.
pub open spec fn tools_value(tools: Seq<ToolView>) -> JsonValue {
    JsonValue::Object(
        seq![("tools"@, JsonValue::Array(Seq::new(tools.len(), |i: int| tool_value(tools[i]))))],
    )
}

/// The mathematical value of an [`McpFailure`].
pub enum McpFailureView {
    MissingParameters { method: Seq<char> },
    MissingToolName,
    MissingPromptName,
    UnknownTool { name: Seq<char> },
}

/// Why a request could not be handled at all.
#[derive(Debug, Clone, PartialEq, Eq)]
pub enum McpFailure {
    /// A method that needs parameters was called without them.
    MissingParameters { method: String },
    /// `tools/call` did not name a tool.
    MissingToolName,
    /// `prompts/get` did not name a prompt.
    MissingPromptName,
    /// `tools/call` named a tool that the handler does not have.
    UnknownTool { name: String },
}

impl View for McpFailure {
    type V = McpFailureView;

    open spec fn view(&self) -> McpFailureView {
        match self {
            McpFailure::MissingParameters { method } => McpFailureView::MissingParameters {
                method: method@,
            },
            McpFailure::MissingToolName => McpFailureView::MissingToolName,
            McpFailure::MissingPromptName => McpFailureView::MissingPromptName,
            McpFailure::UnknownTool { name } => McpFailureView::UnknownTool { name: name@ },
        }
    }
}

/// What a failure says.
pub open spec fn failure_message(f: McpFailureView) -> Seq<char> {
    match f {
        McpFailureView::MissingParameters { method } => "Missing parameters for "@ + method,
        McpFailureView::MissingToolName => "Missing tool name"@,
        McpFailureView::MissingPromptName => "Missing prompt name"@,
        McpFailureView::UnknownTool { name } => "Unknown tool: "@ + name,
    }
}

impl McpFailure {
    /// What the failure says.
    pub fn message(&self) -> (s: String)
        ensures
            s@ == failure_message(self@),
    {
        match self {
            McpFailure::MissingParameters { method } => join(
                "Missing parameters for ",
                method.as_str(),
            ),
            McpFailure::MissingToolName => String::from_str("Missing tool name"),
            McpFailure::MissingPromptName => String::from_str("Missing prompt name"),
            McpFailure::UnknownTool { name } => join("Unknown tool: ", name.as_str()),
        }
    }
}

/// A flag that may be absent, as JSON.
pub open spec fn flag_value(flag: Option<bool>) -> JsonValue {
    match flag {
        Some(b) => JsonValue::Bool(b),
        None => JsonValue::Null,
    }
}

/// The capabilities as a JSON object; what is absent is `null`.
pub open spec fn capabilities_value(c: ServerCapabilities) -> JsonValue {
    JsonValue::Object(
        seq![
            (
                "tools"@,
                match c.tools {
                    Some(t) => JsonValue::Object(seq![("listChanged"@, flag_value(t.list_changed))]),
                    None => JsonValue::Null,
                },
            ),
            (
                "prompts"@,
                match c.prompts {
                    Some(p) => JsonValue::Object(seq![("listChanged"@, flag_value(p.list_changed))]),
                    None => JsonValue::Null,
                },
            ),
            (
                "logging"@,
                match c.logging {
                    Some(_) => JsonValue::Object(Seq::empty()),
                    None => JsonValue::Null,
                },
            ),
        ],
    )
}

/// The answer to `initialize`.
pub open spec fn initialize_value(c: ServerCapabilities, server_name: Seq<char>) -> JsonValue {
    JsonValue::Object(
        seq![
            ("protocolVersion"@, JsonValue::Str(PROTOCOL_VERSION@)),
            ("capabilities"@, capabilities_value(c)),
            ("serverInfo"@, server_info_value(server_name, VERSION@)),
        ],
    )
}

/// The answer to `tools/list`: this handler lists no tools.
pub open spec fn tools_list_value() -> JsonValue {
    tools_value(Seq::empty())
}

/// The answer to `prompts/list`: this handler has no prompts.
pub open spec fn prompts_list_value() -> JsonValue {
    JsonValue::Object(seq![("prompts"@, JsonValue::Array(Seq::empty()))])
}

/// The answer to `prompts/get` for the prompt `name`.
pub open spec fn prompt_value(name: Seq<char>) -> JsonValue {
    JsonValue::Object(
        seq![
            ("description"@, JsonValue::Str("Prompt: "@ + name)),
            ("messages"@, JsonValue::Array(Seq::empty())),
        ],
    )
}

/// The string argument `key`, or `default` where it is missing.
pub open spec fn str_or(args: JsonValue, key: Seq<char>, default: Seq<char>) -> Seq<char> {
    match args.str_field(key) {
        Some(s) => s,
        None => default,
    }
}

/// The texts with which the tool `name` answers a call, or `None` where the
/// handler has no such tool. An argument that is missing is replaced by a
/// text that says so; `workspace` is the directory that the server works in.
pub open spec fn call_texts(name: Seq<char>, workspace: Seq<char>, args: JsonValue) -> Option<
    Seq<Seq<char>>,
> {
    if name == "echo"@ {
        Some(seq!["Echo: "@ + str_or(args, "text"@, "No text provided"@)])
    } else if name == "get_workspace_info"@ {
        Some(seq!["Current workspace: "@ + workspace])
    } else if name == "closeAllDiffTabs"@ {
        Some(seq![closed_tabs_text(0)])
    } else if name == "openFile"@ {
        Some(
            open_file_texts(
                str_or(args, "filePath"@, "No file path provided"@),
                match args.bool_field("makeFrontmost"@) {
                    Some(b) => b,
                    None => true,
                },
            ),
        )
    } else if name == "getCurrentSelection"@ {
        Some(seq![json_text(no_selection_value("No active editor found"@))])
    } else if name == "getOpenEditors"@ {
        Some(seq![json_text(open_editors_value())])
    } else if name == "getWorkspaceFolders"@ {
        Some(seq![json_text(workspace_folders_value(seq![workspace]))])
    } else if name == "openDiff"@ {
        Some(open_diff_texts(str_or(args, "new_file_contents"@, "No new file contents provided"@)))
    } else if name == "getLatestSelection"@ {
        Some(seq![json_text(no_selection_value("No selection available"@))])
    } else if name == "getDiagnostics"@ {
        Some(seq![json_text(diagnostics_value(args.str_field("uri"@)))])
    } else if name == "checkDocumentDirty"@ {
        Some(
            seq![
                json_text(document_dirty_value(str_or(args, "filePath"@, "No file path provided"@))),
            ],
        )
    } else if name == "saveDocument"@ {
        Some(
            seq![
                json_text(save_document_value(str_or(args, "filePath"@, "No file path provided"@))),
            ],
        )
    } else if name == "close_tab"@ {
        Some(seq!["TAB_CLOSED"@])
    } else if name == "executeCode"@ {
        Some(seq![execute_code_text(str_or(args, "code"@, "No code provided"@))])
    } else {
        None
    }
}

/// The arguments of a call: the member `arguments` of the parameters, or an
/// empty object.
pub open spec fn arguments_of(params: JsonValue) -> JsonValue {
    match params.get("arguments"@) {
        Some(a) => a,
        None => JsonValue::Object(Seq::empty()),
    }
}

/// What `tools/call` returns: the result envelope around the tool's texts, or
/// the reason why no tool was run.
pub open spec fn tools_call_outcome(params: Option<JsonValue>, workspace: Seq<char>) -> Result<
    JsonValue,
    McpFailureView,
> {
    match params {
        None => Err(McpFailureView::MissingParameters { method: "tools/call"@ }),
        Some(p) => match p.str_field("name"@) {
            None => Err(McpFailureView::MissingToolName),
            Some(name) => match call_texts(name, workspace, arguments_of(p)) {
                Some(texts) => Ok(tool_result(texts)),
                None => Err(McpFailureView::UnknownTool { name }),
            },
        },
    }
}

/// What `prompts/get` returns.
pub open spec fn prompts_get_outcome(params: Option<JsonValue>) -> Result<
    JsonValue,
    McpFailureView,
> {
    match params {
        None => Err(McpFailureView::MissingParameters { method: "prompts/get"@ }),
        Some(p) => match p.str_field("name"@) {
            None => Err(McpFailureView::MissingPromptName),
            Some(name) => Ok(prompt_value(name)),
        },
    }
}

/// The result of a known method, the reason why it could not be handled, or
/// `None` for a method that the handler does not know.
pub open spec fn method_outcome(
    method: Seq<char>,
    params: Option<JsonValue>,
    capabilities: ServerCapabilities,
    server_name: Seq<char>,
    workspace: Seq<char>,
) -> Option<Result<JsonValue, McpFailureView>> {
    if method == "initialize"@ {
        Some(Ok(initialize_value(capabilities, server_name)))
    } else if method == "tools/list"@ {
        Some(Ok(tools_list_value()))
    } else if method == "tools/call"@ {
        Some(tools_call_outcome(params, workspace))
    } else if method == "logging/setLevel"@ {
        Some(Ok(JsonValue::Object(Seq::empty())))
    } else if method == "prompts/list"@ {
        Some(Ok(prompts_list_value()))
    } else if method == "prompts/get"@ {
        Some(prompts_get_outcome(params))
    } else {
        None
    }
}

/// What a request is answered with: the response with the result of the
/// method, the response with the method-not-found error for a method that the
/// handler does not know, or the reason why the request could not be handled.
/// Either response carries the `id` of the request.
pub open spec fn request_outcome(
    request: McpRequestView,
    capabilities: ServerCapabilities,
    server_name: Seq<char>,
    workspace: Seq<char>,
) -> Result<McpResponseView, McpFailureView> {
    match method_outcome(request.method, request.params, capabilities, server_name, workspace) {
        Some(Ok(result)) => Ok(
            McpResponseView { jsonrpc: "2.0"@, id: request.id, result: Some(result), error: None },
        ),
        Some(Err(failure)) => Err(failure),
        None => Ok(
            McpResponseView {
                jsonrpc: "2.0"@,
                id: request.id,
                result: None,
                error: Some(
                    McpErrorView {
                        code: METHOD_NOT_FOUND as int,
                        message: "Method not found: "@ + request.method,
                        data: None,
                    },
                ),
            },
        ),
    }
}

fn flag(value: Option<bool>) -> (j: Json)
    ensures
        j@ == flag_value(value),
{
    match value {
        Some(b) => Json::Bool(b),
        None => Json::Null,
    }
}

fn list_changed(flag_of: Option<bool>) -> (j: Json)
    ensures
        j@ == JsonValue::Object(seq![("listChanged"@, flag_value(flag_of))]),
{
    let mut e: Vec<(String, Json)> = Vec::new();
    push_entry(&mut e, "listChanged", flag(flag_of));
    assert(entries_view(e@) =~= seq![("listChanged"@, flag_value(flag_of))]);
    Json::object(e)
}

fn str_or_default<'a>(args: &'a Json, key: &str, default: &'a str) -> (s: &'a str)
    ensures
        s@ == str_or(args@, key@, default@),
{
    match args.str_field(key) {
        Some(s) => s,
        None => default,
    }
}

impl ServerCapabilities {
    /// The capabilities as a JSON object.
    pub fn to_json(&self) -> (j: Json)
        ensures
            j@ == capabilities_value(*self),
    {
        let tools = match self.tools {
            Some(t) => list_changed(t.list_changed),
            None => Json::Null,
        };
        let prompts = match self.prompts {
            Some(p) => list_changed(p.list_changed),
            None => Json::Null,
        };
        let logging = match self.logging {
            Some(_) => empty_object(),
            None => Json::Null,
        };
        let mut e: Vec<(String, Json)> = Vec::new();
        push_entry(&mut e, "tools", tools);
        push_entry(&mut e, "prompts", prompts);
        push_entry(&mut e, "logging", logging);
        assert(entries_view(e@) =~= capabilities_value(*self)->Object_0);
        Json::object(e)
    }
}

impl MCPServer {
    pub fn new() -> (server: MCPServer)
        ensures
            server@ == default_capabilities(),
    {
        let capabilities = ServerCapabilities {
            tools: Some(ToolsCapability { list_changed: Some(true) }),
            prompts: Some(PromptsCapability { list_changed: Some(false) }),
            logging: Some(LoggingCapability {  }),
        };
        MCPServer { capabilities }
    }

    /// The capabilities that the server announces.
    pub fn capabilities(&self) -> (c: ServerCapabilities)
        ensures
            c == self@,
    {
        self.capabilities
    }

    /// Answers a request. `server_name` is the name that the server reports
    /// of itself, `workspace` the directory that it works in.
    pub fn handle_request(&self, request: MCPRequest, server_name: &str, workspace: &str) -> (r:
        Result<MCPResponse, McpFailure>)
        ensures
            match r {
                Ok(response) => request_outcome(request@, self@, server_name@, workspace@) == Ok::<
                    McpResponseView,
                    McpFailureView,
                >(response@),
                Err(failure) => request_outcome(request@, self@, server_name@, workspace@) == Err::<
                    McpResponseView,
                    McpFailureView,
                >(failure@),
            },
    {
        let method = request.method.as_str();
        let result = if str_eq(method, "initialize") {
            self.handle_initialize(server_name)
        } else if str_eq(method, "tools/list") {
            self.handle_tools_list()
        } else if str_eq(method, "tools/call") {
            match self.handle_tools_call(&request.params, workspace) {
                Ok(j) => j,
                Err(f) => {
                    return Err(f);
                },
            }
        } else if str_eq(method, "logging/setLevel") {
            self.handle_logging_set_level()
        } else if str_eq(method, "prompts/list") {
            self.handle_prompts_list()
        } else if str_eq(method, "prompts/get") {
            match self.handle_prompts_get(&request.params) {
                Ok(j) => j,
                Err(f) => {
                    return Err(f);
                },
            }
        } else {
            let error = MCPError {
                code: METHOD_NOT_FOUND,
                message: join("Method not found: ", method),
                data: None,
            };
            return Ok(
                MCPResponse {
                    jsonrpc: String::from_str("2.0"),
                    id: request.id,
                    result: None,
                    error: Some(error),
                },
            );
        };
        Ok(
            MCPResponse {
                jsonrpc: String::from_str("2.0"),
                id: request.id,
                result: Some(result),
                error: None,
            },
        )
    }

    /// The answer to `initialize`.
    pub fn handle_initialize(&self, server_name: &str) -> (j: Json)
        ensures
            j@ == initialize_value(self@, server_name@),
    {
        let info = ServerInfo {
            name: String::from_str(server_name),
            version: String::from_str(VERSION),
        };
        let mut e: Vec<(String, Json)> = Vec::new();
        push_entry(&mut e, "protocolVersion", Json::string(PROTOCOL_VERSION));
        push_entry(&mut e, "capabilities", self.capabilities.to_json());
        push_entry(&mut e, "serverInfo", info.to_json());
        assert(entries_view(e@) =~= initialize_value(self@, server_name@)->Object_0);
        Json::object(e)
    }

    /// The answer to `tools/list`.
    pub fn handle_tools_list(&self) -> (j: Json)
        ensures
            j@ == tools_list_value(),
    {
        let tools: Vec<Tool> = Vec::new();
        assert(Seq::new(tools@.len(), |i: int| tools@[i]@) =~= Seq::<ToolView>::empty());
        tools_list(&tools)
    }

    /// The texts with which a tool answers a call.
    pub fn call_tool(name: &str, workspace: &str, args: &Json) -> (r: Option<Vec<String>>)
        ensures
            match r {
                Some(texts) => call_texts(name@, workspace@, args@) == Some(strings_view(texts@)),
                None => call_texts(name@, workspace@, args@) is None,
            },
    {
        if str_eq(name, "echo") {
            let mut texts: Vec<String> = Vec::new();
            push_string(
                &mut texts,
                join("Echo: ", str_or_default(args, "text", "No text provided")),
            );
            assert(strings_view(texts@) =~= seq![
                "Echo: "@ + str_or(args@, "text"@, "No text provided"@),
            ]);
            Some(texts)
        } else if str_eq(name, "get_workspace_info") {
            let mut texts: Vec<String> = Vec::new();
            push_string(&mut texts, join("Current workspace: ", workspace));
            assert(strings_view(texts@) =~= seq!["Current workspace: "@ + workspace@]);
            Some(texts)
        } else if str_eq(name, "closeAllDiffTabs") {
            Some(close_all_diff_tabs())
        } else if str_eq(name, "openFile") {
            let front = match args.bool_field("makeFrontmost") {
                Some(b) => b,
                None => true,
            };
            Some(open_file(str_or_default(args, "filePath", "No file path provided"), front))
        } else if str_eq(name, "getCurrentSelection") {
            Some(no_selection("No active editor found"))
        } else if str_eq(name, "getOpenEditors") {
            Some(open_editors())
        } else if str_eq(name, "getWorkspaceFolders") {
            let mut folders: Vec<String> = Vec::new();
            push_string(&mut folders, String::from_str(workspace));
            assert(strings_view(folders@) =~= seq![workspace@]);
            Some(workspace_folders(&folders))
        } else if str_eq(name, "openDiff") {
            Some(
                open_diff(
                    str_or_default(args, "new_file_contents", "No new file contents provided"),
                ),
            )
        } else if str_eq(name, "getLatestSelection") {
            Some(no_selection("No selection available"))
        } else if str_eq(name, "getDiagnostics") {
            Some(diagnostics(args.str_field("uri")))
        } else if str_eq(name, "checkDocumentDirty") {
            Some(check_document_dirty(str_or_default(args, "filePath", "No file path provided")))
        } else if str_eq(name, "saveDocument") {
            Some(save_document(str_or_default(args, "filePath", "No file path provided")))
        } else if str_eq(name, "close_tab") {
            Some(close_tab())
        } else if str_eq(name, "executeCode") {
            Some(execute_code(str_or_default(args, "code", "No code provided")))
        } else {
            None
        }
    }

    /// The answer to `tools/call`.
    pub fn handle_tools_call(&self, params: &Option<Json>, workspace: &str) -> (r: Result<
        Json,
        McpFailure,
    >)
        ensures
            match r {
                Ok(j) => tools_call_outcome(option_view(*params), workspace@) == Ok::<
                    JsonValue,
                    McpFailureView,
                >(j@),
                Err(f) => tools_call_outcome(option_view(*params), workspace@) == Err::<
                    JsonValue,
                    McpFailureView,
                >(f@),
            },
    {
        let params = match params {
            Some(p) => p,
            None => {
                return Err(
                    McpFailure::MissingParameters { method: String::from_str("tools/call") },
                );
            },
        };
        let name = match params.str_field("name") {
            Some(n) => n,
            None => {
                return Err(McpFailure::MissingToolName);
            },
        };
        let none = empty_object();
        let arguments = match params.get("arguments") {
            Some(a) => a,
            None => &none,
        };
        match MCPServer::call_tool(name, workspace, arguments) {
            Some(texts) => {
                let ghost all = strings_view(texts@);
                let mut content: Vec<TextContent> = Vec::new();
                let mut i: usize = 0;
                while i < texts.len()
                    invariant
                        i <= texts@.len(),
                        content@.len() == i,
                        forall|k: int|
                            0 <= k < i ==> (#[trigger] content@[k])@ == (TextContentView {
                                type_: "text"@,
                                text: texts@[k]@,
                            }),
                    decreases texts@.len() - i,
                {
                    content.push(TextContent::text(texts[i].clone()));
                    i = i + 1;
                }
                proof {
                    assert(contents_view(content@) =~= text_contents(all));
                    lemma_text_contents(all);
                }
                Ok(call_result(&content))
            },
            None => Err(McpFailure::UnknownTool { name: String::from_str(name) }),
        }
    }

    /// The answer to `logging/setLevel`: the level is taken note of, no more.
    pub fn handle_logging_set_level(&self) -> (j: Json)
        ensures
            j@ == JsonValue::Object(Seq::empty()),
    {
        empty_object()
    }

    /// The answer to `prompts/list`.
    pub fn handle_prompts_list(&self) -> (j: Json)
        ensures
            j@ == prompts_list_value(),
    {
        let mut e: Vec<(String, Json)> = Vec::new();
        push_entry(&mut e, "prompts", empty_array());
        assert(entries_view(e@) =~= prompts_list_value()->Object_0);
        Json::object(e)
    }

    /// The answer to `prompts/get`.
    pub fn handle_prompts_get(&self, params: &Option<Json>) -> (r: Result<Json, McpFailure>)
        ensures
            match r {
                Ok(j) => prompts_get_outcome(option_view(*params)) == Ok::<
                    JsonValue,
                    McpFailureView,
                >(j@),
                Err(f) => prompts_get_outcome(option_view(*params)) == Err::<
                    JsonValue,
                    McpFailureView,
                >(f@),
            },
    {
        let params = match params {
            Some(p) => p,
            None => {
                return Err(
                    McpFailure::MissingParameters { method: String::from_str("prompts/get") },
                );
            },
        };
        let name = match params.str_field("name") {
            Some(n) => n,
            None => {
                return Err(McpFailure::MissingPromptName);
            },
        };
        let mut e: Vec<(String, Json)> = Vec::new();
        push_entry(&mut e, "description", Json::Str(join("Prompt: ", name)));
        push_entry(&mut e, "messages", empty_array());
        assert(entries_view(e@) =~= prompt_value(name@)->Object_0);
        Ok(Json::object(e))
    }
}

impl Default for MCPServer {
    fn default() -> (server: MCPServer)
        ensures
            server@ == default_capabilities(),
    {
        MCPServer::new()
    }
}

} // verus!
