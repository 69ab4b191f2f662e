//! The protocol of typed messages on the WebSocket endpoint: messages with a
//! type and data, each answered by one response. Reading and writing files is
//! left to the caller, who gets told what to read or write and hands back how
//! it went.
use crate::json::{entries_view, items_view, push_entry, push_item, Json, JsonValue};
use crate::text::{join, str_eq};
use vstd::prelude::*;
use vstd::string::*;
use vstd::utf8::encode_utf8;

verus! {

/// The mathematical value of a [`Message`].
pub struct MessageView {
    pub id: Seq<char>,
    pub message_type: Seq<char>,
    pub data: JsonValue,
}

/// A message of a peer.
#[derive(Debug, PartialEq, Eq)]
pub struct Message {
    pub id: String,
    pub message_type: String,
    pub data: Json,
}

impl View for Message {
    type V = MessageView;

    open spec fn view(&self) -> MessageView {
        MessageView { id: self.id@, message_type: self.message_type@, data: self.data@ }
    }
}

/// The mathematical value of a [`Response`].
pub struct ResponseView {
    pub id: Seq<char>,
    pub response_type: Seq<char>,
    pub data: JsonValue,
    pub error: Option<Seq<char>>,
}

/// The answer to a message.
#[derive(Debug, PartialEq, Eq)]
pub struct Response {
    pub id: String,
    pub response_type: String,
    pub data: Json,
    pub error: Option<String>,
}

impl View for Response {
    type V = ResponseView;

    open spec fn view(&self) -> ResponseView {
        ResponseView {
            id: self.id@,
            response_type: self.response_type@,
            data: self.data@,
            error: match self.error {
                Some(e) => Some(e@),
                None => None,
            },
        }
    }
}

/// The mathematical value of a [`Step`].
pub enum StepView {
    Reply(ResponseView),
    ReadFile { id: Seq<char>, path: Seq<char> },
    WriteFile { id: Seq<char>, path: Seq<char>, content: Seq<char> },
}

/// What to do about a message.
#[derive(Debug, PartialEq, Eq)]
pub enum Step {
    /// Send the response.
    Reply(Response),
    /// Read the file and answer with [`file_read`].
    ReadFile { id: String, path: String },
    /// Write the file and answer with [`file_written`].
    WriteFile { id: String, path: String, content: String },
}

impl View for Step {
    type V = StepView;

    open spec fn view(&self) -> StepView {
        match self {
            Step::Reply(r) => StepView::Reply(r@),
            Step::ReadFile { id, path } => StepView::ReadFile { id: id@, path: path@ },
            Step::WriteFile { id, path, content } => StepView::WriteFile {
                id: id@,
                path: path@,
                content: content@,
            },
        }
    }
}

/// The response that reports an error.
pub open spec fn error_response(id: Seq<char>, error: Seq<char>) -> ResponseView {
    ResponseView { id, response_type: "error"@, data: JsonValue::Null, error: Some(error) }
}

/// A list of words as a JSON array.
pub open spec fn words_value(words: Seq<Seq<char>>) -> JsonValue {
    JsonValue::Array(Seq::new(words.len(), |i: int| JsonValue::Str(words[i])))
}

/// What the server says of itself in answer to `get_capabilities`.
pub open spec fn capabilities_value() -> JsonValue {
    JsonValue::Object(
        seq![
            ("version"@, JsonValue::Str("0.1.0"@)),
            (
                "features"@,
                words_value(seq!["lsp"@, "websocket"@, "file_operations"@, "code_execution"@]),
            ),
            (
                "supported_languages"@,
                words_value(
                    seq![
                        "rust"@,
                        "javascript"@,
                        "typescript"@,
                        "python"@,
                        "go"@,
                        "java"@,
                        "c"@,
                        "cpp"@,
                    ],
                ),
            ),
        ],
    )
}

/// The answer to `execute_command`: nothing is executed, the command is
/// echoed. `args` is the array of arguments, or `null` where the message has
/// none.
pub open spec fn command_result_value(command: Seq<char>, args: JsonValue) -> JsonValue {
    JsonValue::Object(
        seq![
            ("command"@, JsonValue::Str(command)),
            ("args"@, args),
            ("status"@, JsonValue::Str("success"@)),
            ("output"@, JsonValue::Str("Command executed successfully (mock)"@)),
        ],
    )
}

/// The member `key` of the data if it is an array, else `null`.
pub open spec fn array_or_null(data: JsonValue, key: Seq<char>) -> JsonValue {
    match data.get(key) {
        Some(JsonValue::Array(items)) => JsonValue::Array(items),
        _ => JsonValue::Null,
    }
}

/// What to do about a message: `ping` is echoed, `get_capabilities` and
/// `execute_command` are answered at once, `get_file` and `write_file` ask
/// for a file to be read or written, and whatever lacks what it needs, or is
/// of an unknown type, is answered with an error.
pub open spec fn step_for(m: MessageView) -> StepView {
    if m.message_type == "ping"@ {
        StepView::Reply(
            ResponseView { id: m.id, response_type: "pong"@, data: m.data, error: None },
        )
    } else if m.message_type == "get_capabilities"@ {
        StepView::Reply(
            ResponseView {
                id: m.id,
                response_type: "capabilities"@,
                data: capabilities_value(),
                error: None,
            },
        )
    } else if m.message_type == "execute_command"@ {
        match m.data.str_field("command"@) {
            Some(command) => StepView::Reply(
                ResponseView {
                    id: m.id,
                    response_type: "command_result"@,
                    data: command_result_value(command, array_or_null(m.data, "args"@)),
                    error: None,
                },
            ),
            None => StepView::Reply(
                error_response(m.id, "Missing command in execute_command message"@),
            ),
        }
    } else if m.message_type == "get_file"@ {
        match m.data.str_field("path"@) {
            Some(path) => StepView::ReadFile { id: m.id, path },
            None => StepView::Reply(error_response(m.id, "Missing path in get_file message"@)),
        }
    } else if m.message_type == "write_file"@ {
        match (m.data.str_field("path"@), m.data.str_field("content"@)) {
            (Some(path), Some(content)) => StepView::WriteFile { id: m.id, path, content },
            _ => StepView::Reply(
                error_response(m.id, "Missing path or content in write_file message"@),
            ),
        }
    } else {
        StepView::Reply(error_response(m.id, "Unknown message type: "@ + m.message_type))
    }
}

/// The answer to `get_file` once the file was read, or could not be read;
/// the error is the reason.
pub open spec fn file_read_response(
    id: Seq<char>,
    path: Seq<char>,
    outcome: Result<Seq<char>, Seq<char>>,
) -> ResponseView {
    match outcome {
        Ok(content) => ResponseView {
            id,
            response_type: "file_content"@,
            data: JsonValue::Object(
                seq![("path"@, JsonValue::Str(path)), ("content"@, JsonValue::Str(content))],
            ),
            error: None,
        },
        Err(reason) => error_response(id, "Failed to read file: "@ + reason),
    }
}

/// The answer to `write_file` once the file was written, or could not be
/// written. The size is that of the content in bytes.
pub open spec fn file_written_response(
    id: Seq<char>,
    path: Seq<char>,
    content: Seq<char>,
    failure: Option<Seq<char>>,
) -> ResponseView {
    match failure {
        None => ResponseView {
            id,
            response_type: "file_written"@,
            data: JsonValue::Object(
                seq![
                    ("path"@, JsonValue::Str(path)),
                    ("size"@, JsonValue::Num(encode_utf8(content).len() as int)),
                ],
            ),
            error: None,
        },
        Some(reason) => error_response(id, "Failed to write file: "@ + reason),
    }
}

/// Reads a message from a JSON document: an object with the strings `id` and
/// `type` and with `data`.
pub open spec fn decode_message(j: JsonValue) -> Result<MessageView, Seq<char>> {
    if !(j is Object) {
        Err("invalid type: expected a message object"@)
    } else if j.str_field("id"@) is None {
        Err("missing field `id`"@)
    } else if j.str_field("type"@) is None {
        Err("missing field `type`"@)
    } else if j.get("data"@) is None {
        Err("missing field `data`"@)
    } else {
        Ok(
            MessageView {
                id: j.str_field("id"@)->0,
                message_type: j.str_field("type"@)->0,
                data: j.get("data"@)->0,
            },
        )
    }
}

/// A response as a JSON object.
pub open spec fn response_value(r: ResponseView) -> JsonValue {
    JsonValue::Object(
        seq![
            ("id"@, JsonValue::Str(r.id)),
            ("type"@, JsonValue::Str(r.response_type)),
            ("data"@, r.data),
            (
                "error"@,
                match r.error {
                    Some(e) => JsonValue::Str(e),
                    None => JsonValue::Null,
                },
            ),
        ],
    )
}

fn error_reply(id: String, error: String) -> (r: Response)
    ensures
        r@ == error_response(id@, error@),
{
    Response { id, response_type: String::from_str("error"), data: Json::Null, error: Some(error) }
}

fn words(list: &Vec<&str>) -> (j: Json)
    ensures
        j@ == words_value(Seq::new(list@.len(), |i: int| list@[i]@)),
{
    let mut items: Vec<Json> = Vec::new();
    let mut i: usize = 0;
    while i < list.len()
        invariant
            i <= list@.len(),
            items_view(items@) == Seq::new(i as nat, |k: int| JsonValue::Str(list@[k]@)),
        decreases list@.len() - i,
    {
        push_item(&mut items, Json::string(list[i]));
        assert(items_view(items@) =~= Seq::new((i + 1) as nat, |k: int| JsonValue::Str(list@[k]@)));
        i = i + 1;
    }
    let ghost all = Seq::new(list@.len(), |i: int| list@[i]@);
    assert(items_view(items@) =~= Seq::new(all.len(), |i: int| JsonValue::Str(all[i])));
    Json::array(items)
}

fn capabilities() -> (j: Json)
    ensures
        j@ == capabilities_value(),
{
    let mut features: Vec<&str> = Vec::new();
    features.push("lsp");
    features.push("websocket");
    features.push("file_operations");
    features.push("code_execution");
    let mut languages: Vec<&str> = Vec::new();
    languages.push("rust");
    languages.push("javascript");
    languages.push("typescript");
    languages.push("python");
    languages.push("go");
    languages.push("java");
    languages.push("c");
    languages.push("cpp");
    assert(Seq::new(features@.len(), |i: int| features@[i]@) =~= seq![
        "lsp"@,
        "websocket"@,
        "file_operations"@,
        "code_execution"@,
    ]);
    assert(Seq::new(languages@.len(), |i: int| languages@[i]@) =~= seq![
        "rust"@,
        "javascript"@,
        "typescript"@,
        "python"@,
        "go"@,
        "java"@,
        "c"@,
        "cpp"@,
    ]);
    let mut e: Vec<(String, Json)> = Vec::new();
    push_entry(&mut e, "version", Json::string("0.1.0"));
    push_entry(&mut e, "features", words(&features));
    push_entry(&mut e, "supported_languages", words(&languages));
    assert(entries_view(e@) =~= capabilities_value()->Object_0);
    Json::object(e)
}

fn array_member(data: &Json, key: &str) -> (j: Json)
    ensures
        j@ == array_or_null(data@, key@),
{
    match data.get(key) {
        Some(v) => match v {
            Json::Array(_) => v.clone(),
            _ => Json::Null,
        },
        None => Json::Null,
    }
}

/// Decides what to do about a message.
pub fn handle_message(message: Message) -> (step: Step)
    ensures
        step@ == step_for(message@),
{
    let kind = message.message_type.as_str();
    if str_eq(kind, "ping") {
        Step::Reply(
            Response {
                id: message.id,
                response_type: String::from_str("pong"),
                data: message.data,
                error: None,
            },
        )
    } else if str_eq(kind, "get_capabilities") {
        Step::Reply(
            Response {
                id: message.id,
                response_type: String::from_str("capabilities"),
                data: capabilities(),
                error: None,
            },
        )
    } else if str_eq(kind, "execute_command") {
        match message.data.str_field("command") {
            Some(command) => {
                let mut e: Vec<(String, Json)> = Vec::new();
                push_entry(&mut e, "command", Json::string(command));
                push_entry(&mut e, "args", array_member(&message.data, "args"));
                push_entry(&mut e, "status", Json::string("success"));
                push_entry(&mut e, "output", Json::string("Command executed successfully (mock)"));
                assert(entries_view(e@) =~= command_result_value(
                    command@,
                    array_or_null(message.data@, "args"@),
                )->Object_0);
                Step::Reply(
                    Response {
                        id: message.id,
                        response_type: String::from_str("command_result"),
                        data: Json::object(e),
                        error: None,
                    },
                )
            },
            None => Step::Reply(
                error_reply(
                    message.id,
                    String::from_str("Missing command in execute_command message"),
                ),
            ),
        }
    } else if str_eq(kind, "get_file") {
        match message.data.str_field("path") {
            Some(path) => Step::ReadFile { id: message.id, path: String::from_str(path) },
            None => Step::Reply(
                error_reply(message.id, String::from_str("Missing path in get_file message")),
            ),
        }
    } else if str_eq(kind, "write_file") {
        match (message.data.str_field("path"), message.data.str_field("content")) {
            (Some(path), Some(content)) => Step::WriteFile {
                id: message.id,
                path: String::from_str(path),
                content: String::from_str(content),
            },
            _ => Step::Reply(
                error_reply(
                    message.id,
                    String::from_str("Missing path or content in write_file message"),
                ),
            ),
        }
    } else {
        let error = join("Unknown message type: ", kind);
        Step::Reply(error_reply(message.id, error))
    }
}

/// The answer to `get_file` once the file was read, or could not be read.
pub fn file_read(id: String, path: &str, outcome: Result<String, String>) -> (r: Response)
    ensures
        r@ == file_read_response(
            id@,
            path@,
            match outcome {
                Ok(c) => Ok(c@),
                Err(e) => Err(e@),
            },
        ),
{
    match outcome {
        Ok(content) => {
            let mut e: Vec<(String, Json)> = Vec::new();
            push_entry(&mut e, "path", Json::string(path));
            push_entry(&mut e, "content", Json::Str(content));
            assert(entries_view(e@) =~= seq![
                ("path"@, JsonValue::Str(path@)),
                ("content"@, JsonValue::Str(content@)),
            ]);
            Response {
                id,
                response_type: String::from_str("file_content"),
                data: Json::object(e),
                error: None,
            }
        },
        Err(reason) => error_reply(id, join("Failed to read file: ", reason.as_str())),
    }
}

/// The answer to `write_file` once the file was written, or could not be
/// written.
pub fn file_written(id: String, path: &str, content: &str, failure: Option<String>) -> (r: Response)
    ensures
        r@ == file_written_response(
            id@,
            path@,
            content@,
            match failure {
                Some(e) => Some(e@),
                None => None,
            },
        ),
{
    match failure {
        None => {
            let size = content.as_bytes().len();
            let mut e: Vec<(String, Json)> = Vec::new();
            push_entry(&mut e, "path", Json::string(path));
            push_entry(&mut e, "size", Json::UInt(size as u64));
            assert(entries_view(e@) =~= seq![
                ("path"@, JsonValue::Str(path@)),
                ("size"@, JsonValue::Num(encode_utf8(content@).len() as int)),
            ]);
            Response {
                id,
                response_type: String::from_str("file_written"),
                data: Json::object(e),
                error: None,
            }
        },
        Some(reason) => error_reply(id, join("Failed to write file: ", reason.as_str())),
    }
}

/// The answer to a text that holds no message. `id` is a fresh identifier,
/// `details` what is wrong with the text.
pub fn invalid_message(id: String, details: &str) -> (r: Response)
    ensures
        r@ == error_response(id@, "Invalid message format: "@ + details@),
{
    error_reply(id, join("Invalid message format: ", details))
}

impl Message {
    /// Reads a message from a JSON document.
    pub fn from_json(j: &Json) -> (r: Result<Message, String>)
        ensures
            match r {
                Ok(m) => decode_message(j@) == Ok::<MessageView, Seq<char>>(m@),
                Err(e) => decode_message(j@) == Err::<MessageView, Seq<char>>(e@),
            },
    {
        match j {
            Json::Object(_) => {},
            _ => {
                return Err(String::from_str("invalid type: expected a message object"));
            },
        }
        let id = match j.str_field("id") {
            Some(s) => String::from_str(s),
            None => {
                return Err(String::from_str("missing field `id`"));
            },
        };
        let message_type = match j.str_field("type") {
            Some(s) => String::from_str(s),
            None => {
                return Err(String::from_str("missing field `type`"));
            },
        };
        let data = match j.get("data") {
            Some(d) => d.clone(),
            None => {
                return Err(String::from_str("missing field `data`"));
            },
        };
        Ok(Message { id, message_type, data })
    }
}

impl Response {
    /// The response as a JSON object.
    pub fn to_json(&self) -> (j: Json)
        ensures
            j@ == response_value(self@),
    {
        let error = match &self.error {
            Some(e) => Json::string(e.as_str()),
            None => Json::Null,
        };
        let mut e: Vec<(String, Json)> = Vec::new();
        push_entry(&mut e, "id", Json::string(self.id.as_str()));
        push_entry(&mut e, "type", Json::string(self.response_type.as_str()));
        push_entry(&mut e, "data", self.data.clone());
        push_entry(&mut e, "error", error);
        assert(entries_view(e@) =~= response_value(self@)->Object_0);
        Json::object(e)
    }
}

} // verus!
