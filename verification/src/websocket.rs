//! The JSON-RPC endpoint that peers reach over a WebSocket: the messages, the
//! routing of requests to answers, and the state that a server keeps.
pub use crate::connections::ConnectionInfo;
use crate::connections::{connections_view, ConnectionView};
use crate::json::{
    empty_array, empty_object, entries_view, items_view, json_parse, json_text, nullable,
    nullable_member, option_view, push_entry, push_item, Json, JsonValue,
};
use crate::text::{chars_of, clone_strings, join, str_eq, string_of, strings_view};
use crate::tools::{
    call_outcome, create_default_registry, listed, schema_value, standard_tools, ToolError,
    ToolErrorView, ToolRegistry, ToolSchema, ToolSchemaView, ToolView,
};
use vstd::prelude::*;
use vstd::string::*;

verus! {

/// The version of the tool protocol that the server speaks.
pub const MCP_PROTOCOL_VERSION: &'static str = "2024-11-05";

/// The version that the server reports of itself.
pub const SERVER_VERSION: &'static str = "0.1.0";

/// A text frame did not hold a JSON-RPC request.
pub const PARSE_ERROR: i32 = -32700;

/// No method has the name that was called.
pub const METHOD_NOT_FOUND: i32 = -32601;

/// The parameters of a request do not fit its method.
pub const INVALID_PARAMS: i32 = -32602;

/// The server failed while it handled a request.
pub const INTERNAL_ERROR: i32 = -32603;

/// How many characters of a text that could not be read are sent back.
pub const RECEIVED_TEXT_LIMIT: usize = 200;

/// The mathematical value of a [`JsonRpcRequest`].
pub struct RequestView {
    pub jsonrpc: Seq<char>,
    pub method: Seq<char>,
    pub params: Option<JsonValue>,
    pub id: Option<JsonValue>,
}

/// A request, or a notification where `id` is absent.
#[derive(Debug, PartialEq, Eq)]
pub struct JsonRpcRequest {
    pub jsonrpc: String,
    pub method: String,
    pub params: Option<Json>,
    pub id: Option<Json>,
}

impl View for JsonRpcRequest {
    type V = RequestView;

    open spec fn view(&self) -> RequestView {
        RequestView {
            jsonrpc: self.jsonrpc@,
            method: self.method@,
            params: option_view(self.params),
            id: option_view(self.id),
        }
    }
}

/// The error member of a response.
#[derive(Debug, PartialEq, Eq)]
pub struct JsonRpcError {
    pub code: i32,
    pub message: String,
    pub data: Option<Json>,
}

impl View for JsonRpcError {
    type V = ToolErrorView;

    open spec fn view(&self) -> ToolErrorView {
        ToolErrorView {
            code: self.code as int,
            message: self.message@,
            data: option_view(self.data),
        }
    }
}

/// The mathematical value of a [`JsonRpcResponse`].
pub struct ResponseView {
    pub jsonrpc: Seq<char>,
    pub result: Option<JsonValue>,
    pub error: Option<ToolErrorView>,
    pub id: Option<JsonValue>,
}

/// The answer to a request.
#[derive(Debug, PartialEq, Eq)]
pub struct JsonRpcResponse {
    pub jsonrpc: String,
    pub result: Option<Json>,
    pub error: Option<JsonRpcError>,
    pub id: Option<Json>,
}

impl View for JsonRpcResponse {
    type V = ResponseView;

    open spec fn view(&self) -> ResponseView {
        ResponseView {
            jsonrpc: self.jsonrpc@,
            result: option_view(self.result),
            error: match self.error {
                Some(e) => Some(e@),
                None => None,
            },
            id: option_view(self.id),
        }
    }
}

/// The mathematical value of a [`JsonRpcNotification`].
pub struct NotificationView {
    pub jsonrpc: Seq<char>,
    pub method: Seq<char>,
    pub params: Option<JsonValue>,
}

/// A message that expects no answer.
#[derive(Debug, PartialEq, Eq)]
pub struct JsonRpcNotification {
    pub jsonrpc: String,
    pub method: String,
    pub params: Option<Json>,
}

impl View for JsonRpcNotification {
    type V = NotificationView;

    open spec fn view(&self) -> NotificationView {
        NotificationView {
            jsonrpc: self.jsonrpc@,
            method: self.method@,
            params: option_view(self.params),
        }
    }
}

/// Whether the prompt list may change.
#[derive(Debug, Clone, Copy, PartialEq, Eq, Structural)]
pub struct McpPromptsCapability {
    pub list_changed: bool,
}

/// Whether resources can be subscribed to, and whether their list may change.
#[derive(Debug, Clone, Copy, PartialEq, Eq, Structural)]
pub struct McpResourcesCapability {
    pub subscribe: bool,
    pub list_changed: bool,
}

/// Whether the tool list may change.
#[derive(Debug, Clone, Copy, PartialEq, Eq, Structural)]
pub struct McpToolsCapability {
    pub list_changed: bool,
}

/// What the endpoint announces in answer to `initialize`. `logging` holds the
/// entries of a JSON object.
#[derive(Debug, PartialEq, Eq)]
pub struct McpCapabilities {
    pub logging: Vec<(String, Json)>,
    pub prompts: McpPromptsCapability,
    pub resources: McpResourcesCapability,
    pub tools: McpToolsCapability,
}

/// Name and version of the server.
#[derive(Debug, PartialEq, Eq)]
pub struct McpServerInfo {
    pub name: String,
    pub version: String,
}

/// The capabilities member of the answer to `initialize`.
pub open spec fn capabilities_value(
    logging: Seq<(Seq<char>, JsonValue)>,
    prompts: McpPromptsCapability,
    resources: McpResourcesCapability,
    tools: McpToolsCapability,
) -> JsonValue {
    JsonValue::Object(
        seq![
            ("logging"@, JsonValue::Object(logging)),
            (
                "prompts"@,
                JsonValue::Object(seq![("listChanged"@, JsonValue::Bool(prompts.list_changed))]),
            ),
            (
                "resources"@,
                JsonValue::Object(
                    seq![
                        ("subscribe"@, JsonValue::Bool(resources.subscribe)),
                        ("listChanged"@, JsonValue::Bool(resources.list_changed)),
                    ],
                ),
            ),
            (
                "tools"@,
                JsonValue::Object(seq![("listChanged"@, JsonValue::Bool(tools.list_changed))]),
            ),
        ],
    )
}

/// The server-info member of the answer to `initialize`.
pub open spec fn server_info_value(name: Seq<char>, version: Seq<char>) -> JsonValue {
    JsonValue::Object(
        seq![("name"@, JsonValue::Str(name)), ("version"@, JsonValue::Str(version))],
    )
}

/// The answer to `initialize`: the protocol version, the capabilities of this
/// endpoint (everything may change, resources can be subscribed to) and the
/// server's name and version.
pub open spec fn initialize_value(server_name: Seq<char>) -> JsonValue {
    JsonValue::Object(
        seq![
            ("protocolVersion"@, JsonValue::Str(MCP_PROTOCOL_VERSION@)),
            (
                "capabilities"@,
                capabilities_value(
                    Seq::empty(),
                    McpPromptsCapability { list_changed: true },
                    McpResourcesCapability { subscribe: true, list_changed: true },
                    McpToolsCapability { list_changed: true },
                ),
            ),
            ("serverInfo"@, server_info_value(server_name, SERVER_VERSION@)),
        ],
    )
}

impl McpCapabilities {
    /// The capabilities as a JSON object.
    pub fn to_json(&self) -> (j: Json)
        ensures
            j@ == capabilities_value(
                entries_view(self.logging@),
                self.prompts,
                self.resources,
                self.tools,
            ),
    {
        let mut logging: Vec<(String, Json)> = Vec::new();
        let mut i: usize = 0;
        while i < self.logging.len()
            invariant
                i <= self.logging@.len(),
                entries_view(logging@) == entries_view(self.logging@).take(i as int),
            decreases self.logging@.len() - i,
        {
            push_entry(&mut logging, self.logging[i].0.as_str(), self.logging[i].1.clone());
            assert(entries_view(self.logging@).take(i as int).push(
                (self.logging@[i as int].0@, self.logging@[i as int].1@),
            ) =~= entries_view(self.logging@).take(i + 1));
            i = i + 1;
        }
        assert(entries_view(self.logging@).take(i as int) =~= entries_view(self.logging@));
        let mut prompts: Vec<(String, Json)> = Vec::new();
        push_entry(&mut prompts, "listChanged", Json::Bool(self.prompts.list_changed));
        let mut resources: Vec<(String, Json)> = Vec::new();
        push_entry(&mut resources, "subscribe", Json::Bool(self.resources.subscribe));
        push_entry(&mut resources, "listChanged", Json::Bool(self.resources.list_changed));
        let mut tools: Vec<(String, Json)> = Vec::new();
        push_entry(&mut tools, "listChanged", Json::Bool(self.tools.list_changed));
        assert(entries_view(prompts@) =~= seq![
            ("listChanged"@, JsonValue::Bool(self.prompts.list_changed)),
        ]);
        assert(entries_view(resources@) =~= seq![
            ("subscribe"@, JsonValue::Bool(self.resources.subscribe)),
            ("listChanged"@, JsonValue::Bool(self.resources.list_changed)),
        ]);
        assert(entries_view(tools@) =~= seq![
            ("listChanged"@, JsonValue::Bool(self.tools.list_changed)),
        ]);
        let mut e: Vec<(String, Json)> = Vec::new();
        push_entry(&mut e, "logging", Json::object(logging));
        push_entry(&mut e, "prompts", Json::object(prompts));
        push_entry(&mut e, "resources", Json::object(resources));
        push_entry(&mut e, "tools", Json::object(tools));
        assert(entries_view(e@) =~= capabilities_value(
            entries_view(self.logging@),
            self.prompts,
            self.resources,
            self.tools,
        )->Object_0);
        Json::object(e)
    }
}

impl McpServerInfo {
    /// The server info as a JSON object.
    pub fn to_json(&self) -> (j: Json)
        ensures
            j@ == server_info_value(self.name@, self.version@),
    {
        let mut e: Vec<(String, Json)> = Vec::new();
        push_entry(&mut e, "name", Json::string(self.name.as_str()));
        push_entry(&mut e, "version", Json::string(self.version.as_str()));
        assert(entries_view(e@) =~= server_info_value(self.name@, self.version@)->Object_0);
        Json::object(e)
    }
}

/// The answer to `initialize`.
pub fn initialize_result(server_name: &str) -> (j: Json)
    ensures
        j@ == initialize_value(server_name@),
{
    let capabilities = McpCapabilities {
        logging: Vec::new(),
        prompts: McpPromptsCapability { list_changed: true },
        resources: McpResourcesCapability { subscribe: true, list_changed: true },
        tools: McpToolsCapability { list_changed: true },
    };
    assert(entries_view(capabilities.logging@) =~= Seq::<(Seq<char>, JsonValue)>::empty());
    let info = McpServerInfo {
        name: String::from_str(server_name),
        version: String::from_str(SERVER_VERSION),
    };
    let mut e: Vec<(String, Json)> = Vec::new();
    push_entry(&mut e, "protocolVersion", Json::string(MCP_PROTOCOL_VERSION));
    push_entry(&mut e, "capabilities", capabilities.to_json());
    push_entry(&mut e, "serverInfo", info.to_json());
    assert(entries_view(e@) =~= initialize_value(server_name@)->Object_0);
    Json::object(e)
}

/// Reads a request from a JSON document: an object with the strings `jsonrpc`
/// and `method`, and with `params` and `id` where they are present and not
/// `null`. The error says what is wrong with the document.
pub open spec fn decode_request(j: JsonValue) -> Result<RequestView, Seq<char>> {
    if !(j is Object) {
        Err("invalid type: expected a request object"@)
    } else if j.get("jsonrpc"@) is None {
        Err("missing field `jsonrpc`"@)
    } else if j.str_field("jsonrpc"@) is None {
        Err("invalid type: `jsonrpc` is not a string"@)
    } else if j.get("method"@) is None {
        Err("missing field `method`"@)
    } else if j.str_field("method"@) is None {
        Err("invalid type: `method` is not a string"@)
    } else {
        Ok(
            RequestView {
                jsonrpc: j.str_field("jsonrpc"@)->0,
                method: j.str_field("method"@)->0,
                params: nullable(j.get("params"@)),
                id: nullable(j.get("id"@)),
            },
        )
    }
}

impl JsonRpcRequest {
    /// Reads a request from a JSON document.
    pub fn from_json(j: &Json) -> (r: Result<JsonRpcRequest, String>)
        ensures
            match r {
                Ok(request) => decode_request(j@) == Ok::<RequestView, Seq<char>>(request@),
                Err(message) => decode_request(j@) == Err::<RequestView, Seq<char>>(message@),
            },
    {
        match j {
            Json::Object(_) => {},
            _ => {
                return Err(String::from_str("invalid type: expected a request object"));
            },
        }
        if j.get("jsonrpc").is_none() {
            return Err(String::from_str("missing field `jsonrpc`"));
        }
        let jsonrpc = match j.str_field("jsonrpc") {
            Some(s) => String::from_str(s),
            None => {
                return Err(String::from_str("invalid type: `jsonrpc` is not a string"));
            },
        };
        if j.get("method").is_none() {
            return Err(String::from_str("missing field `method`"));
        }
        let method = match j.str_field("method") {
            Some(s) => String::from_str(s),
            None => {
                return Err(String::from_str("invalid type: `method` is not a string"));
            },
        };
        Ok(
            JsonRpcRequest {
                jsonrpc,
                method,
                params: nullable_member(j, "params"),
                id: nullable_member(j, "id"),
            },
        )
    }
}

/// The error member of a response as a JSON object.
pub open spec fn error_value(e: ToolErrorView) -> JsonValue {
    JsonValue::Object(
        seq![
            ("code"@, JsonValue::Num(e.code)),
            ("message"@, JsonValue::Str(e.message)),
            (
                "data"@,
                match e.data {
                    Some(d) => d,
                    None => JsonValue::Null,
                },
            ),
        ],
    )
}

/// A response as a JSON object: `jsonrpc`, then `result` or `error`, whichever
/// the response has, then `id`, which is `null` where the request had none.
pub open spec fn response_value(r: ResponseView) -> JsonValue {
    JsonValue::Object(
        seq![("jsonrpc"@, JsonValue::Str(r.jsonrpc))] + (match r.result {
            Some(v) => seq![("result"@, v)],
            None => Seq::empty(),
        }) + (match r.error {
            Some(e) => seq![("error"@, error_value(e))],
            None => Seq::empty(),
        }) + seq![
            (
                "id"@,
                match r.id {
                    Some(id) => id,
                    None => JsonValue::Null,
                },
            ),
        ],
    )
}

/// A notification as a JSON object: `jsonrpc`, `method` and `params`, which
/// is `null` where the notification has none.
pub open spec fn notification_value(n: NotificationView) -> JsonValue {
    JsonValue::Object(
        seq![
            ("jsonrpc"@, JsonValue::Str(n.jsonrpc)),
            ("method"@, JsonValue::Str(n.method)),
            (
                "params"@,
                match n.params {
                    Some(p) => p,
                    None => JsonValue::Null,
                },
            ),
        ],
    )
}

fn or_null(o: &Option<Json>) -> (j: Json)
    ensures
        j@ == match option_view(*o) {
            Some(v) => v,
            None => JsonValue::Null,
        },
{
    match o {
        Some(v) => v.clone(),
        None => Json::Null,
    }
}

impl JsonRpcError {
    /// The error with the fields of a tool's error.
    pub fn from_tool_error(e: ToolError) -> (r: JsonRpcError)
        ensures
            r@ == e@,
    {
        JsonRpcError { code: e.code, message: e.message, data: e.data }
    }

    /// The error as a JSON object.
    pub fn to_json(&self) -> (j: Json)
        ensures
            j@ == error_value(self@),
    {
        let mut e: Vec<(String, Json)> = Vec::new();
        push_entry(&mut e, "code", Json::Int(self.code as i64));
        push_entry(&mut e, "message", Json::string(self.message.as_str()));
        push_entry(&mut e, "data", or_null(&self.data));
        assert(entries_view(e@) =~= error_value(self@)->Object_0);
        Json::object(e)
    }
}

impl JsonRpcResponse {
    /// The response that carries a result.
    pub fn success(id: Option<Json>, result: Json) -> (r: JsonRpcResponse)
        ensures
            r@ == (ResponseView {
                jsonrpc: "2.0"@,
                result: Some(result@),
                error: None,
                id: option_view(id),
            }),
    {
        JsonRpcResponse { jsonrpc: String::from_str("2.0"), result: Some(result), error: None, id }
    }

    /// The response that carries an error.
    pub fn failure(id: Option<Json>, error: JsonRpcError) -> (r: JsonRpcResponse)
        ensures
            r@ == (ResponseView {
                jsonrpc: "2.0"@,
                result: None,
                error: Some(error@),
                id: option_view(id),
            }),
    {
        JsonRpcResponse { jsonrpc: String::from_str("2.0"), result: None, error: Some(error), id }
    }

    /// The response as a JSON object.
    pub fn to_json(&self) -> (j: Json)
        ensures
            j@ == response_value(self@),
    {
        let mut e: Vec<(String, Json)> = Vec::new();
        push_entry(&mut e, "jsonrpc", Json::string(self.jsonrpc.as_str()));
        match &self.result {
            Some(v) => {
                push_entry(&mut e, "result", v.clone());
            },
            None => {},
        }
        match &self.error {
            Some(err) => {
                push_entry(&mut e, "error", err.to_json());
            },
            None => {},
        }
        push_entry(&mut e, "id", or_null(&self.id));
        assert(entries_view(e@) =~= response_value(self@)->Object_0);
        Json::object(e)
    }

    /// The response as the text of one frame.
    pub fn to_text(&self) -> (s: String)
        ensures
            s@ == json_text(response_value(self@)),
    {
        self.to_json().to_text()
    }
}

impl JsonRpcNotification {
    /// The notification as a JSON object.
    pub fn to_json(&self) -> (j: Json)
        ensures
            j@ == notification_value(self@),
    {
        let mut e: Vec<(String, Json)> = Vec::new();
        push_entry(&mut e, "jsonrpc", Json::string(self.jsonrpc.as_str()));
        push_entry(&mut e, "method", Json::string(self.method.as_str()));
        push_entry(&mut e, "params", or_null(&self.params));
        assert(entries_view(e@) =~= notification_value(self@)->Object_0);
        Json::object(e)
    }

    /// The notification as the text of one frame.
    pub fn to_text(&self) -> (s: String)
        ensures
            s@ == json_text(notification_value(self@)),
    {
        self.to_json().to_text()
    }
}

/// The mathematical value of a [`ServerState`].
pub struct ServerView {
    pub connections: Seq<(Seq<char>, ConnectionView)>,
    pub auth_token: Seq<char>,
    pub auth_header: Seq<char>,
    pub workspace_folders: Seq<Seq<char>>,
    pub ide_name: Seq<char>,
    pub tools: Seq<ToolView>,
    pub tool_folders: Seq<Seq<char>>,
}

/// What a running server knows: its peers, the secret that they must show,
/// the header in which they show it, the workspace, its own name and its
/// tools.
pub struct ServerState {
    pub connections: Vec<(String, ConnectionInfo)>,
    pub auth_token: String,
    pub auth_header: String,
    pub workspace_folders: Vec<String>,
    pub ide_name: String,
    pub tool_registry: ToolRegistry,
}

impl View for ServerState {
    type V = ServerView;

    open spec fn view(&self) -> ServerView {
        ServerView {
            connections: connections_view(self.connections@),
            auth_token: self.auth_token@,
            auth_header: self.auth_header@,
            workspace_folders: strings_view(self.workspace_folders@),
            ide_name: self.ide_name@,
            tools: self.tool_registry.tools(),
            tool_folders: self.tool_registry.folders(),
        }
    }
}

/// The methods that are notifications whatever the message holds: they are
/// never answered.
pub open spec fn is_notification_method(method: Seq<char>) -> bool {
    method == "notifications/initialized"@ || method == "selection_changed"@ || method
        == "at_mentioned"@
}

/// The error of a request that the parameters do not fit; `detail` says why.
pub open spec fn invalid_params(detail: Seq<char>) -> ToolErrorView {
    ToolErrorView {
        code: INVALID_PARAMS as int,
        message: "Invalid params"@,
        data: Some(JsonValue::Object(seq![("error"@, JsonValue::Str(detail))])),
    }
}

/// The error of a request for a method that the endpoint does not know.
pub open spec fn method_not_found(method: Seq<char>) -> ToolErrorView {
    ToolErrorView {
        code: METHOD_NOT_FOUND as int,
        message: "Method not found"@,
        data: Some(JsonValue::Object(seq![("method"@, JsonValue::Str(method))])),
    }
}

/// The error of a text frame that holds no request. `details` is the message
/// of whoever refused the text, `received` the start of the text.
pub open spec fn parse_error(details: Seq<char>, received: Seq<char>) -> ToolErrorView {
    ToolErrorView {
        code: PARSE_ERROR as int,
        message: "Parse error"@,
        data: Some(
            JsonValue::Object(
                seq![
                    ("details"@, JsonValue::Str(details)),
                    ("received_text"@, JsonValue::Str(received)),
                ],
            ),
        ),
    }
}

/// The answer to `tools/list`.
pub open spec fn tools_list_value(schemas: Seq<ToolSchemaView>) -> JsonValue {
    JsonValue::Object(
        seq![
            ("tools"@, JsonValue::Array(Seq::new(schemas.len(), |i: int| schema_value(schemas[i])))),
        ],
    )
}

/// The answer to `prompts/list`: the endpoint has no prompts.
pub open spec fn prompts_list_value() -> JsonValue {
    JsonValue::Object(seq![("prompts"@, JsonValue::Array(Seq::empty()))])
}

/// The answer to `prompts/get` for the prompt `name`.
pub open spec fn prompt_value(name: Seq<char>) -> JsonValue {
    JsonValue::Object(
        seq![
            ("description"@, JsonValue::Str("Prompt: "@ + name)),
            ("messages"@, JsonValue::Array(Seq::empty())),
        ],
    )
}

/// The string member `key` of the parameters.
pub open spec fn param_str(params: Option<JsonValue>, key: Seq<char>) -> Option<Seq<char>> {
    match params {
        Some(p) => p.str_field(key),
        None => None,
    }
}

/// The arguments of a tool call: the member `arguments` of the parameters,
/// or an empty object.
pub open spec fn call_arguments(params: Option<JsonValue>) -> JsonValue {
    match params {
        Some(p) => match p.get("arguments"@) {
            Some(a) => a,
            None => JsonValue::Object(Seq::empty()),
        },
        None => JsonValue::Object(Seq::empty()),
    }
}

/// The result or the error with which a request for `method` is answered.
pub open spec fn method_outcome(method: Seq<char>, params: Option<JsonValue>, server: ServerView) -> Result<
    JsonValue,
    ToolErrorView,
> {
    if method == "initialize"@ {
        Ok(initialize_value(server.ide_name))
    } else if method == "tools/list"@ {
        Ok(tools_list_value(listed(server.tools)))
    } else if method == "tools/call"@ {
        match param_str(params, "name"@) {
            Some(name) => call_outcome(
                server.tools,
                server.tool_folders,
                name,
                call_arguments(params),
            ),
            None => Err(invalid_params("Missing tool name"@)),
        }
    } else if method == "prompts/list"@ {
        Ok(prompts_list_value())
    } else if method == "prompts/get"@ {
        match param_str(params, "name"@) {
            Some(name) => Ok(prompt_value(name)),
            None => Err(invalid_params("Missing prompt name"@)),
        }
    } else if method == "logging/setLevel"@ {
        Ok(JsonValue::Object(Seq::empty()))
    } else {
        Err(method_not_found(method))
    }
}

/// The response to a request, if it gets one. A message without an `id` is a
/// notification and gets none; neither does a message for one of the
/// notification methods. Every other message gets one response, which carries
/// the `id` of the request and either a result or an error.
pub open spec fn response_for(request: RequestView, server: ServerView) -> Option<ResponseView> {
    match request.id {
        None => None,
        Some(id) => if is_notification_method(request.method) {
            None
        } else {
            Some(
                match method_outcome(request.method, request.params, server) {
                    Ok(result) => ResponseView {
                        jsonrpc: "2.0"@,
                        result: Some(result),
                        error: None,
                        id: Some(id),
                    },
                    Err(error) => ResponseView {
                        jsonrpc: "2.0"@,
                        result: None,
                        error: Some(error),
                        id: Some(id),
                    },
                },
            )
        },
    }
}

fn error_with_detail(code: i32, message: &str, key: &str, detail: &str) -> (e: ToolError)
    ensures
        e@ == (ToolErrorView {
            code: code as int,
            message: message@,
            data: Some(JsonValue::Object(seq![(key@, JsonValue::Str(detail@))])),
        }),
{
    let mut d: Vec<(String, Json)> = Vec::new();
    push_entry(&mut d, key, Json::string(detail));
    assert(entries_view(d@) =~= seq![(key@, JsonValue::Str(detail@))]);
    ToolError::with_data(code, String::from_str(message), Json::object(d))
}

fn tools_list(schemas: &Vec<ToolSchema>) -> (j: Json)
    ensures
        j@ == tools_list_value(crate::tools::schemas_view(schemas@)),
{
    let ghost all = crate::tools::schemas_view(schemas@);
    let mut items: Vec<Json> = Vec::new();
    let mut i: usize = 0;
    while i < schemas.len()
        invariant
            i <= schemas@.len(),
            all == crate::tools::schemas_view(schemas@),
            items_view(items@) == Seq::new(i as nat, |k: int| schema_value(all[k])),
        decreases schemas@.len() - i,
    {
        push_item(&mut items, schemas[i].to_json());
        assert(items_view(items@) =~= Seq::new((i + 1) as nat, |k: int| schema_value(all[k])));
        i = i + 1;
    }
    let mut e: Vec<(String, Json)> = Vec::new();
    push_entry(&mut e, "tools", Json::array(items));
    assert(entries_view(e@) =~= tools_list_value(all)->Object_0);
    Json::object(e)
}

fn param_str_of<'a>(params: &'a Option<Json>, key: &str) -> (r: Option<&'a str>)
    ensures
        match r {
            Some(s) => param_str(option_view(*params), key@) == Some(s@),
            None => param_str(option_view(*params), key@) is None,
        },
{
    match params {
        Some(p) => p.str_field(key),
        None => None,
    }
}

fn call_arguments_of(params: &Option<Json>) -> (j: Json)
    ensures
        j@ == call_arguments(option_view(*params)),
{
    match params {
        Some(p) => match p.get("arguments") {
            Some(a) => a.clone(),
            None => empty_object(),
        },
        None => empty_object(),
    }
}

/// The result or the error with which a request for `method` is answered.
pub fn handle_method(method: &str, params: &Option<Json>, state: &ServerState) -> (r: Result<
    Json,
    ToolError,
>)
    ensures
        match r {
            Ok(j) => method_outcome(method@, option_view(*params), state@) == Ok::<
                JsonValue,
                ToolErrorView,
            >(j@),
            Err(e) => method_outcome(method@, option_view(*params), state@) == Err::<
                JsonValue,
                ToolErrorView,
            >(e@),
        },
{
    if str_eq(method, "initialize") {
        Ok(initialize_result(state.ide_name.as_str()))
    } else if str_eq(method, "tools/list") {
        let schemas = state.tool_registry.get_tool_list();
        Ok(tools_list(&schemas))
    } else if str_eq(method, "tools/call") {
        match param_str_of(params, "name") {
            Some(name) => {
                let arguments = call_arguments_of(params);
                state.tool_registry.call_tool(name, &arguments)
            },
            None => Err(error_with_detail(INVALID_PARAMS, "Invalid params", "error", "Missing tool name")),
        }
    } else if str_eq(method, "prompts/list") {
        let mut e: Vec<(String, Json)> = Vec::new();
        push_entry(&mut e, "prompts", empty_array());
        assert(entries_view(e@) =~= prompts_list_value()->Object_0);
        Ok(Json::object(e))
    } else if str_eq(method, "prompts/get") {
        match param_str_of(params, "name") {
            Some(name) => {
                let mut e: Vec<(String, Json)> = Vec::new();
                push_entry(&mut e, "description", Json::Str(join("Prompt: ", name)));
                push_entry(&mut e, "messages", empty_array());
                assert(entries_view(e@) =~= prompt_value(name@)->Object_0);
                Ok(Json::object(e))
            },
            None => Err(
                error_with_detail(INVALID_PARAMS, "Invalid params", "error", "Missing prompt name"),
            ),
        }
    } else if str_eq(method, "logging/setLevel") {
        Ok(empty_object())
    } else {
        Err(error_with_detail(METHOD_NOT_FOUND, "Method not found", "method", method))
    }
}

/// Whether a method is one of those that are never answered.
pub fn notification_method(method: &str) -> (b: bool)
    ensures
        b == is_notification_method(method@),
{
    str_eq(method, "notifications/initialized") || str_eq(method, "selection_changed") || str_eq(
        method,
        "at_mentioned",
    )
}

/// Answers a request, or decides that it gets no answer.
pub fn handle_jsonrpc_request(request: JsonRpcRequest, state: &ServerState) -> (r: Option<
    JsonRpcResponse,
>)
    ensures
        match r {
            Some(response) => response_for(request@, state@) == Some(response@),
            None => response_for(request@, state@) is None,
        },
{
    let id = match &request.id {
        Some(id) => id.clone(),
        None => {
            return None;
        },
    };
    if notification_method(request.method.as_str()) {
        return None;
    }
    match handle_method(request.method.as_str(), &request.params, state) {
        Ok(result) => Some(JsonRpcResponse::success(Some(id), result)),
        Err(error) => Some(
            JsonRpcResponse::failure(Some(id), JsonRpcError::from_tool_error(error)),
        ),
    }
}

/// Every request that has an `id` and is not for a notification method gets
/// one response; it carries that `id` and either a result or an error, never
/// both.
pub proof fn lemma_request_is_answered_once(request: RequestView, server: ServerView)
    requires
        request.id is Some,
        !is_notification_method(request.method),
    ensures
        response_for(request, server) is Some,
        response_for(request, server)->0.id == request.id,
        response_for(request, server)->0.result is Some <==> response_for(
            request,
            server,
        )->0.error is None,
{
}

/// A message without an `id` gets no response.
pub proof fn lemma_notification_is_not_answered(request: RequestView, server: ServerView)
    requires
        request.id is None,
    ensures
        response_for(request, server) is None,
{
}

/// A call of a listed tool is dispatched to that tool: the response carries
/// the tool's result, or the tool's own error, and never the error of a tool
/// that was not found.
pub proof fn lemma_listed_tool_is_dispatched(
    server: ServerView,
    i: int,
    id: JsonValue,
    arguments: JsonValue,
)
    requires
        crate::tools::distinct_names(server.tools),
        0 <= i < server.tools.len(),
    ensures
        ({
            let name = listed(server.tools)[i].name;
            let params = JsonValue::Object(
                seq![("name"@, JsonValue::Str(name)), ("arguments"@, arguments)],
            );
            let request = RequestView {
                jsonrpc: "2.0"@,
                method: "tools/call"@,
                params: Some(params),
                id: Some(id),
            };
            let outcome = crate::tools::tool_outcome(
                server.tools[i].handler,
                server.tool_folders,
                arguments,
            );
            &&& response_for(request, server) is Some
            &&& response_for(request, server)->0.id == Some(id)
            &&& match outcome {
                Ok(result) => response_for(request, server)->0.result == Some(result)
                    && response_for(request, server)->0.error is None,
                Err(error) => response_for(request, server)->0.error == Some(error)
                    && response_for(request, server)->0.result is None,
            }
        }),
{
    reveal_strlit("name");
    reveal_strlit("arguments");
    reveal_strlit("tools/call");
    reveal_strlit("initialize");
    reveal_strlit("tools/list");
    reveal_strlit("notifications/initialized");
    reveal_strlit("selection_changed");
    reveal_strlit("at_mentioned");
    let name = listed(server.tools)[i].name;
    let entries = seq![("name"@, JsonValue::Str(name)), ("arguments"@, arguments)];
    crate::tools::lemma_listed_tool_is_found(server.tools, i);
    assert(entries.drop_last() =~= seq![("name"@, JsonValue::Str(name))]);
    assert(entries.drop_last().drop_last() =~= Seq::<(Seq<char>, JsonValue)>::empty());
    reveal_with_fuel(crate::json::lookup, 3);
    assert("name"@ != "arguments"@) by {
        assert("name"@.len() == 4);
        assert("arguments"@.len() == 9);
    }
    assert(crate::json::lookup(entries, "arguments"@) == Some(arguments));
    assert(crate::json::lookup(entries, "name"@) == Some(JsonValue::Str(name)));
    assert("tools/call"@ != "initialize"@) by {
        assert("tools/call"@[0] == 't');
        assert("initialize"@[0] == 'i');
    }
    assert("tools/call"@ != "tools/list"@) by {
        assert("tools/call"@[6] == 'c');
        assert("tools/list"@[6] == 'l');
    }
    assert(!is_notification_method("tools/call"@)) by {
        assert("tools/call"@.len() == 10);
        assert("notifications/initialized"@.len() == 25);
        assert("selection_changed"@.len() == 17);
        assert("at_mentioned"@.len() == 12);
    }
}

/// The start of a text that could not be read, as it is sent back: at most
/// [`RECEIVED_TEXT_LIMIT`] characters.
pub open spec fn received_prefix(text: Seq<char>) -> Seq<char> {
    if text.len() <= RECEIVED_TEXT_LIMIT {
        text
    } else {
        text.take(RECEIVED_TEXT_LIMIT as int)
    }
}

/// The response to a text that holds no request: the parse error, without an
/// `id`.
pub open spec fn parse_failure(details: Seq<char>, text: Seq<char>) -> ResponseView {
    ResponseView {
        jsonrpc: "2.0"@,
        result: None,
        error: Some(parse_error(details, received_prefix(text))),
        id: None,
    }
}

/// The response to a text frame, given what the JSON parser made of the
/// text. A text that is no JSON, and a document that is no request, are
/// answered with the parse error; a request is answered as [`response_for`]
/// says.
pub open spec fn reply_to(
    parsed: Result<JsonValue, Seq<char>>,
    text: Seq<char>,
    server: ServerView,
) -> Option<ResponseView> {
    match parsed {
        Err(details) => Some(parse_failure(details, text)),
        Ok(document) => match decode_request(document) {
            Err(details) => Some(parse_failure(details, text)),
            Ok(request) => response_for(request, server),
        },
    }
}

/// The text that answers a text frame, if the frame is answered.
pub open spec fn frame_reply(text: Seq<char>, server: ServerView) -> Option<Seq<char>> {
    match reply_to(json_parse(text), text, server) {
        Some(response) => Some(json_text(response_value(response))),
        None => None,
    }
}

fn parse_failure_of(details: &str, text: &str) -> (r: JsonRpcResponse)
    ensures
        r@ == parse_failure(details@, text@),
{
    let chars = chars_of(text);
    let end = if chars.len() <= RECEIVED_TEXT_LIMIT {
        chars.len()
    } else {
        RECEIVED_TEXT_LIMIT
    };
    let received = string_of(&chars, 0, end);
    assert(received@ =~= received_prefix(text@));
    let mut d: Vec<(String, Json)> = Vec::new();
    push_entry(&mut d, "details", Json::string(details));
    push_entry(&mut d, "received_text", Json::Str(received));
    assert(entries_view(d@) =~= seq![
        ("details"@, JsonValue::Str(details@)),
        ("received_text"@, JsonValue::Str(received_prefix(text@))),
    ]);
    let error = JsonRpcError {
        code: PARSE_ERROR,
        message: String::from_str("Parse error"),
        data: Some(Json::object(d)),
    };
    JsonRpcResponse::failure(None, error)
}

/// Answers a text frame, given what the JSON parser made of its text.
pub fn reply_to_parsed(parsed: Result<Json, String>, text: &str, state: &ServerState) -> (r: Option<
    JsonRpcResponse,
>)
    ensures
        match r {
            Some(response) => reply_to(parsed_view(parsed), text@, state@) == Some(response@),
            None => reply_to(parsed_view(parsed), text@, state@) is None,
        },
        parsed is Err ==> r is Some && r->0.error is Some && r->0.error->0.code == PARSE_ERROR
            && r->0.id is None,
{
    match parsed {
        Err(details) => Some(parse_failure_of(details.as_str(), text)),
        Ok(document) => match JsonRpcRequest::from_json(&document) {
            Err(details) => Some(parse_failure_of(details.as_str(), text)),
            Ok(request) => handle_jsonrpc_request(request, state),
        },
    }
}

/// The view of what the JSON parser made of a text.
pub open spec fn parsed_view(parsed: Result<Json, String>) -> Result<JsonValue, Seq<char>> {
    match parsed {
        Ok(j) => Ok(j@),
        Err(m) => Err(m@),
    }
}

/// Answers a text frame: the text of the response, or nothing for a
/// notification.
pub fn handle_text_frame(text: &str, state: &ServerState) -> (r: Option<String>)
    ensures
        match r {
            Some(reply) => frame_reply(text@, state@) == Some(reply@),
            None => frame_reply(text@, state@) is None,
        },
{
    let parsed = Json::parse(text);
    match reply_to_parsed(parsed, text, state) {
        Some(response) => Some(response.to_text()),
        None => None,
    }
}

/// A frame that a peer sent.
#[derive(Debug, Clone, PartialEq, Eq)]
pub enum Frame {
    Text(String),
    Binary(Vec<u8>),
    Ping(Vec<u8>),
    Pong(Vec<u8>),
    Close,
    /// A raw frame, which the transport handles by itself.
    Raw,
}

/// What the connection does about a frame.
#[derive(Debug, Clone, PartialEq, Eq)]
pub enum FrameAction {
    /// Send the text as a text frame.
    Send(String),
    /// Send a pong with the payload.
    SendPong(Vec<u8>),
    /// Note that the peer answered a ping.
    RecordPong,
    /// Do nothing and go on.
    Nothing,
    /// Leave the loop and drop the connection.
    Close,
}

/// The mathematical value of a [`FrameAction`].
pub enum FrameActionView {
    Send(Seq<char>),
    SendPong(Seq<u8>),
    RecordPong,
    Nothing,
    Close,
}

impl View for FrameAction {
    type V = FrameActionView;

    open spec fn view(&self) -> FrameActionView {
        match self {
            FrameAction::Send(s) => FrameActionView::Send(s@),
            FrameAction::SendPong(p) => FrameActionView::SendPong(p@),
            FrameAction::RecordPong => FrameActionView::RecordPong,
            FrameAction::Nothing => FrameActionView::Nothing,
            FrameAction::Close => FrameActionView::Close,
        }
    }
}

/// What the connection does about a frame: a text frame is answered if it
/// holds a request, a ping is echoed as a pong, a pong is recorded, a close
/// frame ends the loop, and binary and raw frames are passed over.
pub open spec fn frame_action(frame: Frame, server: ServerView) -> FrameActionView {
    match frame {
        Frame::Text(text) => match frame_reply(text@, server) {
            Some(reply) => FrameActionView::Send(reply),
            None => FrameActionView::Nothing,
        },
        Frame::Binary(_) => FrameActionView::Nothing,
        Frame::Ping(payload) => FrameActionView::SendPong(payload@),
        Frame::Pong(_) => FrameActionView::RecordPong,
        Frame::Close => FrameActionView::Close,
        Frame::Raw => FrameActionView::Nothing,
    }
}

/// Decides what the connection does about a frame.
pub fn on_frame(frame: Frame, state: &ServerState) -> (action: FrameAction)
    ensures
        action@ == frame_action(frame, state@),
{
    match frame {
        Frame::Text(text) => match handle_text_frame(text.as_str(), state) {
            Some(reply) => FrameAction::Send(reply),
            None => FrameAction::Nothing,
        },
        Frame::Binary(_) => FrameAction::Nothing,
        Frame::Ping(payload) => FrameAction::SendPong(payload),
        Frame::Pong(_) => FrameAction::RecordPong,
        Frame::Close => FrameAction::Close,
        Frame::Raw => FrameAction::Nothing,
    }
}

/// Only a close frame makes the connection leave its loop: whatever a text,
/// binary, ping, pong or raw frame holds, the connection stays open.
pub proof fn lemma_only_close_frame_closes(frame: Frame, server: ServerView)
    ensures
        frame_action(frame, server) is Close <==> frame is Close,
        frame is Binary ==> frame_action(frame, server) is Nothing,
{
}

/// A text that is no JSON is answered with the parse error and no `id`.
pub proof fn lemma_malformed_text_is_answered(text: Seq<char>, server: ServerView)
    requires
        json_parse(text) is Err,
    ensures
        reply_to(json_parse(text), text, server) is Some,
        reply_to(json_parse(text), text, server)->0.error is Some,
        reply_to(json_parse(text), text, server)->0.error->0.code == PARSE_ERROR,
        reply_to(json_parse(text), text, server)->0.id is None,
        frame_reply(text, server) is Some,
{
}

/// Where a connection stands in its life.
#[derive(Debug, Clone, Copy, PartialEq, Eq, Structural)]
pub enum ConnectionPhase {
    /// The socket was accepted; the upgrade is under way.
    Accepted,
    /// The upgrade succeeded and the peer showed the secret.
    Authenticated,
    /// The peer sent `initialize`.
    Ready,
    /// The connection is gone.
    Closed,
}

/// What can happen to a connection.
#[derive(Debug, Clone, Copy, PartialEq, Eq, Structural)]
pub enum ConnectionEvent {
    UpgradeOk,
    UpgradeFailed,
    AuthFailed,
    Initialize,
    /// Any request or notification but `initialize`.
    Message,
    CloseFrame,
    Timeout,
    TransportError,
}

/// The phase of a connection after an event. A failed upgrade, a failed
/// authentication, a close frame, a keepalive timeout and a transport error
/// close the connection, and a closed connection stays closed. The upgrade
/// takes an accepted connection on, `initialize` an authenticated one; any
/// other event leaves the phase as it is.
pub open spec fn next_phase(phase: ConnectionPhase, event: ConnectionEvent) -> ConnectionPhase {
    match (phase, event) {
        (ConnectionPhase::Closed, _) => ConnectionPhase::Closed,
        (_, ConnectionEvent::UpgradeFailed) => ConnectionPhase::Closed,
        (_, ConnectionEvent::AuthFailed) => ConnectionPhase::Closed,
        (_, ConnectionEvent::CloseFrame) => ConnectionPhase::Closed,
        (_, ConnectionEvent::Timeout) => ConnectionPhase::Closed,
        (_, ConnectionEvent::TransportError) => ConnectionPhase::Closed,
        (ConnectionPhase::Accepted, ConnectionEvent::UpgradeOk) => ConnectionPhase::Authenticated,
        (ConnectionPhase::Authenticated, ConnectionEvent::Initialize) => ConnectionPhase::Ready,
        (p, _) => p,
    }
}

/// The phase of a connection after an event.
pub fn advance(phase: ConnectionPhase, event: ConnectionEvent) -> (next: ConnectionPhase)
    ensures
        next == next_phase(phase, event),
{
    match (phase, event) {
        (ConnectionPhase::Closed, _) => ConnectionPhase::Closed,
        (_, ConnectionEvent::UpgradeFailed) => ConnectionPhase::Closed,
        (_, ConnectionEvent::AuthFailed) => ConnectionPhase::Closed,
        (_, ConnectionEvent::CloseFrame) => ConnectionPhase::Closed,
        (_, ConnectionEvent::Timeout) => ConnectionPhase::Closed,
        (_, ConnectionEvent::TransportError) => ConnectionPhase::Closed,
        (ConnectionPhase::Accepted, ConnectionEvent::UpgradeOk) => ConnectionPhase::Authenticated,
        (ConnectionPhase::Authenticated, ConnectionEvent::Initialize) => ConnectionPhase::Ready,
        (p, _) => p,
    }
}

/// The event that a frame is for the connection: a text frame that holds a
/// request or a notification is a message, or the initialization if its
/// method is `initialize`, and a close frame is the close. No other frame
/// moves the connection.
pub open spec fn frame_event(frame: Frame) -> Option<ConnectionEvent> {
    match frame {
        Frame::Text(text) => match json_parse(text@) {
            Ok(document) => match decode_request(document) {
                Ok(request) => Some(
                    if request.method == "initialize"@ {
                        ConnectionEvent::Initialize
                    } else {
                        ConnectionEvent::Message
                    },
                ),
                Err(_) => None,
            },
            Err(_) => None,
        },
        Frame::Close => Some(ConnectionEvent::CloseFrame),
        _ => None,
    }
}

/// The phase of a connection after a frame.
pub open spec fn phase_after(phase: ConnectionPhase, frame: Frame) -> ConnectionPhase {
    match frame_event(frame) {
        Some(event) => next_phase(phase, event),
        None => phase,
    }
}

/// Takes a connection through a frame: decides what the connection does
/// about the frame, and where the connection stands after it.
pub fn connection_step(phase: ConnectionPhase, frame: Frame, state: &ServerState) -> (r: (
    ConnectionPhase,
    FrameAction,
))
    ensures
        r.0 == phase_after(phase, frame),
        r.1@ == frame_action(frame, state@),
{
    match frame {
        Frame::Text(text) => {
            let parsed = Json::parse(text.as_str());
            let event = match &parsed {
                Ok(document) => match JsonRpcRequest::from_json(document) {
                    Ok(request) => Some(message_event(request.method.as_str())),
                    Err(_) => None,
                },
                Err(_) => None,
            };
            let next = match event {
                Some(e) => advance(phase, e),
                None => phase,
            };
            let action = match reply_to_parsed(parsed, text.as_str(), state) {
                Some(response) => FrameAction::Send(response.to_text()),
                None => FrameAction::Nothing,
            };
            (next, action)
        },
        Frame::Close => (advance(phase, ConnectionEvent::CloseFrame), FrameAction::Close),
        other => (phase, on_frame(other, state)),
    }
}

/// The event that a message with the given method is for the connection.
pub fn message_event(method: &str) -> (event: ConnectionEvent)
    ensures
        event == if method@ == "initialize"@ {
            ConnectionEvent::Initialize
        } else {
            ConnectionEvent::Message
        },
{
    if str_eq(method, "initialize") {
        ConnectionEvent::Initialize
    } else {
        ConnectionEvent::Message
    }
}

/// How long the secret of a server is.
pub const AUTH_TOKEN_LENGTH: usize = 32;

/// `c` is an ASCII letter or digit.
pub open spec fn is_ascii_alphanumeric(c: char) -> bool {
    ('0' <= c && c <= '9') || ('a' <= c && c <= 'z') || ('A' <= c && c <= 'Z')
}

/// A text can serve as the secret of a server: it has the length of a secret
/// and holds ASCII letters and digits only.
pub open spec fn is_auth_token(token: Seq<char>) -> bool {
    token.len() == AUTH_TOKEN_LENGTH && forall|i: int|
        0 <= i < token.len() ==> is_ascii_alphanumeric(#[trigger] token[i])
}

/// `rand::distributions::DistString::sample_string` of
/// `rand::distributions::Alphanumeric` on the thread's generator: a string of
/// `len` characters, each drawn from the ASCII letters and digits. Which
/// characters come is left open.
#[verifier::external_body]
fn random_alphanumeric(len: usize) -> (s: String)
    ensures
        s@.len() == len,
        forall|i: int| 0 <= i < s@.len() ==> is_ascii_alphanumeric(#[trigger] s@[i]),
{
    rand::distributions::DistString::sample_string(
        &rand::distributions::Alphanumeric,
        &mut rand::thread_rng(),
        len,
    )
}

/// `uuid::Uuid::new_v4` printed by its `Display`: a random identifier in the
/// hyphenated form, which has 36 characters. Which identifier comes is left
/// open.
#[verifier::external_body]
fn random_uuid() -> (s: String)
    ensures
        s@.len() == 36,
{
    uuid::Uuid::new_v4().to_string()
}

/// A fresh secret for a server.
pub fn generate_auth_token() -> (token: String)
    ensures
        is_auth_token(token@),
{
    random_alphanumeric(AUTH_TOKEN_LENGTH)
}

/// A fresh identifier for a connection.
pub fn new_connection_id() -> (id: String)
    ensures
        id@.len() == 36,
{
    random_uuid()
}

/// The workspace folders of a server: the worktree it was started for, or
/// else the directory it was started in, or none.
pub open spec fn initial_folders(
    worktree: Option<Seq<char>>,
    current_dir: Option<Seq<char>>,
) -> Seq<Seq<char>> {
    match worktree {
        Some(path) => seq![path],
        None => match current_dir {
            Some(path) => seq![path],
            None => Seq::empty(),
        },
    }
}

/// The view of a text that may be absent.
pub open spec fn text_view(o: Option<String>) -> Option<Seq<char>> {
    match o {
        Some(s) => Some(s@),
        None => None,
    }
}

impl ServerState {
    /// The state of a server that starts: a fresh secret, no peers, the
    /// standard tools, and the worktree, or else the current directory, as its
    /// workspace. `auth_header` names the header in which peers show the
    /// secret.
    pub fn new(
        worktree: Option<String>,
        current_dir: Option<String>,
        ide_name: &str,
        auth_header: &str,
    ) -> (state: ServerState)
        ensures
            is_auth_token(state@.auth_token),
            state@.connections == Seq::<(Seq<char>, ConnectionView)>::empty(),
            state@.workspace_folders == initial_folders(text_view(worktree), text_view(current_dir)),
            state@.tool_folders == state@.workspace_folders,
            state@.ide_name == ide_name@,
            state@.auth_header == auth_header@,
            state@.tools == standard_tools(),
    {
        let mut workspace_folders: Vec<String> = Vec::new();
        match worktree {
            Some(path) => {
                workspace_folders.push(path);
            },
            None => match current_dir {
                Some(path) => {
                    workspace_folders.push(path);
                },
                None => {},
            },
        }
        assert(strings_view(workspace_folders@) =~= initial_folders(
            text_view(worktree),
            text_view(current_dir),
        ));
        let tool_registry = create_default_registry(clone_strings(&workspace_folders));
        let state = ServerState {
            connections: Vec::new(),
            auth_token: generate_auth_token(),
            auth_header: String::from_str(auth_header),
            workspace_folders,
            ide_name: String::from_str(ide_name),
            tool_registry,
        };
        assert(state@.connections =~= Seq::<(Seq<char>, ConnectionView)>::empty());
        state
    }
}

} // verus!
