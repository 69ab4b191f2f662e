//! What the editor's extension decides when it launches the server and when
//! it answers a peer on its own: the command line, the port, the name of the
//! server's binary, and the answers of its built-in tools.
use crate::json::{
    entries_view, items_view, json_parse, json_text, nullable, nullable_member, option_view,
    push_entry, push_item, Json, JsonValue,
};
use crate::text::{
    chars_of, decimal, decimal_string, join, join3, push_string, range_eq, str_eq, strings_view,
};
use crate::tools::{
    folder_name, folder_name_of, text_item, text_item_value, workspace_folders_json,
    workspace_folders_value,
};
use vstd::prelude::*;
use vstd::string::*;

verus! {

/// The lowest port that the extension gives to a server.
pub const FIRST_PORT: u16 = 10000;

/// The number of ports from which the extension picks.
pub const PORT_COUNT: u32 = 55536;

/// The step by which the port moves from one server to the next.
pub const PORT_STRIDE: u32 = 7919;

/// The operating system of the editor.
#[derive(Debug, Clone, Copy, PartialEq, Eq, Structural)]
pub enum Os {
    Mac,
    Linux,
    Windows,
}

/// The processor of the editor.
#[derive(Debug, Clone, Copy, PartialEq, Eq, Structural)]
pub enum Architecture {
    Aarch64,
    X86,
    X8664,
}

/// The port of the server number `counter`, counted from zero: the ports
/// spread over the range from 10000 to 65535 and come back after 55536
/// servers. The product wraps at 32 bits.
pub open spec fn port_of(counter: u32) -> u16 {
    (FIRST_PORT + ((counter as int * PORT_STRIDE as int) % 0x1_0000_0000) % (PORT_COUNT as int)) as u16
}

/// The port of the server number `counter`.
pub fn generate_unique_port(counter: u32) -> (port: u16)
    ensures
        port == port_of(counter),
        port >= FIRST_PORT,
{
    let product = counter.wrapping_mul(PORT_STRIDE);
    let offset = product % PORT_COUNT;
    (FIRST_PORT as u32 + offset) as u16
}

/// `rand::Rng::gen_range` on the thread's generator with the inclusive range
/// from `low` to `high`: some port within the range. Which port comes is left
/// open.
#[verifier::external_body]
fn random_in_range(low: u16, high: u16) -> (port: u16)
    requires
        low <= high,
    ensures
        low <= port <= high,
{
    rand::Rng::gen_range(&mut rand::thread_rng(), low..=high)
}

/// A port picked at random from 10000 to 65535.
pub fn generate_random_port() -> (port: u16)
    ensures
        port >= FIRST_PORT,
{
    random_in_range(FIRST_PORT, u16::MAX)
}

/// The name of an operating system as error messages give it.
pub open spec fn os_name(os: Os) -> Seq<char> {
    match os {
        Os::Mac => "Mac"@,
        Os::Linux => "Linux"@,
        Os::Windows => "Windows"@,
    }
}

/// The name of a processor as error messages give it.
pub open spec fn architecture_name(arch: Architecture) -> Seq<char> {
    match arch {
        Architecture::Aarch64 => "Aarch64"@,
        Architecture::X86 => "X86"@,
        Architecture::X8664 => "X8664"@,
    }
}

/// The name of the server's binary for a platform: the base name and the
/// platform's suffix. Binaries exist for macOS on both processors and for
/// Linux on x86-64; every other platform is refused with a message.
pub open spec fn platform_binary(base: Seq<char>, os: Os, arch: Architecture) -> Result<
    Seq<char>,
    Seq<char>,
> {
    match (os, arch) {
        (Os::Mac, Architecture::Aarch64) => Ok(base + "-macos-aarch64"@),
        (Os::Mac, Architecture::X8664) => Ok(base + "-macos-x86_64"@),
        (Os::Linux, Architecture::X8664) => Ok(base + "-linux-x86_64"@),
        (Os::Windows, _) => Err("Windows is not currently supported"@),
        _ => Err("Unsupported platform: "@ + os_name(os) + "-"@ + architecture_name(arch)),
    }
}

fn os_name_of(os: Os) -> (s: &'static str)
    ensures
        s@ == os_name(os),
{
    match os {
        Os::Mac => "Mac",
        Os::Linux => "Linux",
        Os::Windows => "Windows",
    }
}

fn architecture_name_of(arch: Architecture) -> (s: &'static str)
    ensures
        s@ == architecture_name(arch),
{
    match arch {
        Architecture::Aarch64 => "Aarch64",
        Architecture::X86 => "X86",
        Architecture::X8664 => "X8664",
    }
}

/// The name of the server's binary for a platform.
pub fn get_platform_binary_name(base: &str, os: Os, arch: Architecture) -> (r: Result<
    String,
    String,
>)
    ensures
        match r {
            Ok(name) => platform_binary(base@, os, arch) == Ok::<Seq<char>, Seq<char>>(name@),
            Err(e) => platform_binary(base@, os, arch) == Err::<Seq<char>, Seq<char>>(e@),
        },
{
    match (os, arch) {
        (Os::Mac, Architecture::Aarch64) => Ok(join(base, "-macos-aarch64")),
        (Os::Mac, Architecture::X8664) => Ok(join(base, "-macos-x86_64")),
        (Os::Linux, Architecture::X8664) => Ok(join(base, "-linux-x86_64")),
        (Os::Windows, _) => Err(String::from_str("Windows is not currently supported")),
        _ => {
            let mut e = join3("Unsupported platform: ", os_name_of(os), "-");
            e.append(architecture_name_of(arch));
            Err(e)
        },
    }
}

/// The arguments with which the extension starts the server for a worktree:
/// verbose, for the worktree, with both endpoints, on the given port.
pub open spec fn server_arguments(root: Seq<char>, port: u16) -> Seq<Seq<char>> {
    seq!["--debug"@, "--worktree"@, root, "hybrid"@, "--port"@, decimal(port as nat)]
}

/// The mathematical value of a [`LaunchCommand`].
pub struct LaunchCommandView {
    pub command: Seq<char>,
    pub args: Seq<Seq<char>>,
}

/// How to start the server.
#[derive(Debug, Clone, PartialEq, Eq)]
pub struct LaunchCommand {
    pub command: String,
    pub args: Vec<String>,
}

impl View for LaunchCommand {
    type V = LaunchCommandView;

    open spec fn view(&self) -> LaunchCommandView {
        LaunchCommandView { command: self.command@, args: strings_view(self.args@) }
    }
}

/// How the extension starts the language server `id`: the server that it
/// knows is started from `server_path` for the worktree, on the port of the
/// server number `counter`; any other is refused.
pub open spec fn launch(
    id: Seq<char>,
    server_id: Seq<char>,
    server_path: Seq<char>,
    root: Seq<char>,
    counter: u32,
) -> Result<LaunchCommandView, Seq<char>> {
    if id == server_id {
        Ok(
            LaunchCommandView {
                command: server_path,
                args: server_arguments(root, port_of(counter)),
            },
        )
    } else {
        Err("Unknown language server: "@ + id)
    }
}

/// Decides how the extension starts a language server.
pub fn language_server_command(
    id: &str,
    server_id: &str,
    server_path: String,
    root: &str,
    counter: u32,
) -> (r: Result<LaunchCommand, String>)
    ensures
        match r {
            Ok(c) => launch(id@, server_id@, server_path@, root@, counter) == Ok::<
                LaunchCommandView,
                Seq<char>,
            >(c@),
            Err(e) => launch(id@, server_id@, server_path@, root@, counter) == Err::<
                LaunchCommandView,
                Seq<char>,
            >(e@),
        },
{
    if !str_eq(id, server_id) {
        return Err(join("Unknown language server: ", id));
    }
    let port = generate_unique_port(counter);
    let mut args: Vec<String> = Vec::new();
    push_string(&mut args, String::from_str("--debug"));
    push_string(&mut args, String::from_str("--worktree"));
    push_string(&mut args, String::from_str(root));
    push_string(&mut args, String::from_str("hybrid"));
    push_string(&mut args, String::from_str("--port"));
    push_string(&mut args, decimal_string(port as u64));
    assert(strings_view(args@) =~= server_arguments(root@, port));
    Ok(LaunchCommand { command: server_path, args })
}

/// The options that the extension hands to the server at initialization: the
/// worktree as the one workspace folder, and the settings of the integration
/// under `settings_key`.
pub open spec fn initialization_options_value(
    settings_key: Seq<char>,
    ide_name: Seq<char>,
    root: Seq<char>,
) -> JsonValue {
    JsonValue::Object(
        seq![
            (
                "workspaceFolders"@,
                JsonValue::Array(
                    seq![
                        JsonValue::Object(
                            seq![
                                ("uri"@, JsonValue::Str("file://"@ + root)),
                                ("name"@, JsonValue::Str(folder_name(root))),
                            ],
                        ),
                    ],
                ),
            ),
            (
                settings_key,
                JsonValue::Object(
                    seq![
                        ("enabled"@, JsonValue::Bool(true)),
                        ("extensionVersion"@, JsonValue::Str("0.1.0"@)),
                        ("ideName"@, JsonValue::Str(ide_name)),
                    ],
                ),
            ),
        ],
    )
}

/// The configuration that the extension hands to the server: the integration
/// is on and verbose, the WebSocket is local with ports from 10000 to 65535,
/// and tokens are generated.
pub open spec fn workspace_configuration_value(settings_key: Seq<char>) -> JsonValue {
    JsonValue::Object(
        seq![
            (
                settings_key,
                JsonValue::Object(
                    seq![
                        ("enabled"@, JsonValue::Bool(true)),
                        ("debug"@, JsonValue::Bool(true)),
                        (
                            "websocket"@,
                            JsonValue::Object(
                                seq![
                                    ("host"@, JsonValue::Str("127.0.0.1"@)),
                                    (
                                        "portRange"@,
                                        JsonValue::Array(
                                            seq![
                                                JsonValue::Num(FIRST_PORT as int),
                                                JsonValue::Num(u16::MAX as int),
                                            ],
                                        ),
                                    ),
                                ],
                            ),
                        ),
                        (
                            "auth"@,
                            JsonValue::Object(seq![("generateTokens"@, JsonValue::Bool(true))]),
                        ),
                    ],
                ),
            ),
        ],
    )
}

/// The initialization options for the language server `id`, if it is the
/// server that the extension knows.
pub fn language_server_initialization_options(
    id: &str,
    server_id: &str,
    settings_key: &str,
    ide_name: &str,
    root: &str,
) -> (r: Option<Json>)
    ensures
        option_view(r) == if id@ == server_id@ {
            Some(initialization_options_value(settings_key@, ide_name@, root@))
        } else {
            None
        },
{
    if !str_eq(id, server_id) {
        return None;
    }
    let mut folder: Vec<(String, Json)> = Vec::new();
    push_entry(&mut folder, "uri", Json::Str(join("file://", root)));
    push_entry(&mut folder, "name", Json::Str(folder_name_of(root)));
    assert(entries_view(folder@) =~= seq![
        ("uri"@, JsonValue::Str("file://"@ + root@)),
        ("name"@, JsonValue::Str(folder_name(root@))),
    ]);
    let mut folders: Vec<Json> = Vec::new();
    push_item(&mut folders, Json::object(folder));
    let mut settings: Vec<(String, Json)> = Vec::new();
    push_entry(&mut settings, "enabled", Json::Bool(true));
    push_entry(&mut settings, "extensionVersion", Json::string("0.1.0"));
    push_entry(&mut settings, "ideName", Json::string(ide_name));
    assert(entries_view(settings@) =~= seq![
        ("enabled"@, JsonValue::Bool(true)),
        ("extensionVersion"@, JsonValue::Str("0.1.0"@)),
        ("ideName"@, JsonValue::Str(ide_name@)),
    ]);
    assert(items_view(folders@) =~= seq![
        JsonValue::Object(
            seq![
                ("uri"@, JsonValue::Str("file://"@ + root@)),
                ("name"@, JsonValue::Str(folder_name(root@))),
            ],
        ),
    ]);
    let mut e: Vec<(String, Json)> = Vec::new();
    push_entry(&mut e, "workspaceFolders", Json::array(folders));
    push_entry(&mut e, settings_key, Json::object(settings));
    assert(entries_view(e@) =~= initialization_options_value(
        settings_key@,
        ide_name@,
        root@,
    )->Object_0);
    Some(Json::object(e))
}

/// The workspace configuration for the language server `id`, if it is the
/// server that the extension knows.
pub fn language_server_workspace_configuration(id: &str, server_id: &str, settings_key: &str) -> (r:
    Option<Json>)
    ensures
        option_view(r) == if id@ == server_id@ {
            Some(workspace_configuration_value(settings_key@))
        } else {
            None
        },
{
    if !str_eq(id, server_id) {
        return None;
    }
    let mut range: Vec<Json> = Vec::new();
    push_item(&mut range, Json::UInt(FIRST_PORT as u64));
    push_item(&mut range, Json::UInt(u16::MAX as u64));
    assert(items_view(range@) =~= seq![
        JsonValue::Num(FIRST_PORT as int),
        JsonValue::Num(u16::MAX as int),
    ]);
    let mut websocket: Vec<(String, Json)> = Vec::new();
    push_entry(&mut websocket, "host", Json::string("127.0.0.1"));
    push_entry(&mut websocket, "portRange", Json::array(range));
    assert(entries_view(websocket@) =~= seq![
        ("host"@, JsonValue::Str("127.0.0.1"@)),
        (
            "portRange"@,
            JsonValue::Array(
                seq![JsonValue::Num(FIRST_PORT as int), JsonValue::Num(u16::MAX as int)],
            ),
        ),
    ]);
    let mut auth: Vec<(String, Json)> = Vec::new();
    push_entry(&mut auth, "generateTokens", Json::Bool(true));
    assert(entries_view(auth@) =~= seq![("generateTokens"@, JsonValue::Bool(true))]);
    let mut settings: Vec<(String, Json)> = Vec::new();
    push_entry(&mut settings, "enabled", Json::Bool(true));
    push_entry(&mut settings, "debug", Json::Bool(true));
    push_entry(&mut settings, "websocket", Json::object(websocket));
    push_entry(&mut settings, "auth", Json::object(auth));
    assert(entries_view(settings@) =~= workspace_configuration_value(
        settings_key@,
    )->Object_0[0].1->Object_0);
    let mut e: Vec<(String, Json)> = Vec::new();
    push_entry(&mut e, settings_key, Json::object(settings));
    assert(entries_view(e@) =~= workspace_configuration_value(settings_key@)->Object_0);
    Some(Json::object(e))
}

/// `needle` stands in `text` at `i`.
pub open spec fn stands_at(text: Seq<char>, needle: Seq<char>, i: int) -> bool {
    0 <= i && i + needle.len() <= text.len() && text.subrange(i, i + needle.len()) == needle
}

/// `needle` stands somewhere in `text`.
pub open spec fn contains_text(text: Seq<char>, needle: Seq<char>) -> bool {
    exists|i: int| stands_at(text, needle, i)
}

/// Whether `needle` stands somewhere in `text`.
pub fn contains(text: &str, needle: &str) -> (r: bool)
    ensures
        r == contains_text(text@, needle@),
{
    let t = chars_of(text);
    let n = chars_of(needle);
    if n.len() > t.len() {
        assert forall|i: int| !stands_at(text@, needle@, i) by {}
        return false;
    }
    let last = t.len() - n.len();
    let mut i: usize = 0;
    while i <= last
        invariant
            t@ == text@,
            n@ == needle@,
            n@.len() <= t@.len() <= usize::MAX,
            last + n@.len() == t@.len(),
            i <= last + 1,
            forall|j: int| 0 <= j < i ==> !stands_at(text@, needle@, j),
        decreases last + 1 - i,
    {
        if range_eq(&t, i, i + n.len(), &n) {
            assert(stands_at(text@, needle@, i as int));
            return true;
        }
        if i == last {
            assert forall|j: int| !stands_at(text@, needle@, j) by {}
            return false;
        }
        i = i + 1;
    }
    assert forall|j: int| !stands_at(text@, needle@, j) by {}
    false
}

/// Whether the extension runs in the tree in which it is developed: the
/// worktree's path holds the marker, or development is forced. There the
/// extension uses a binary that was put in place by hand.
pub fn is_development_tree(root: &str, marker: &str, forced: bool) -> (r: bool)
    ensures
        r == (forced || contains_text(root@, marker@)),
{
    forced || contains(root, marker)
}

/// The text with which the extension's own tool `name` answers. The
/// extension does not reach into the editor, so most answers are fixed.
pub open spec fn stub_text(name: Seq<char>, params: JsonValue, folders: Seq<Seq<char>>) -> Seq<char> {
    if name == "openFile"@ {
        "Opening file: "@ + match params.str_field("path"@) {
            Some(p) => p,
            None => Seq::empty(),
        }
    } else if name == "getCurrentSelection"@ {
        "{\"success\": true, \"selection\": {\"text\": \"\", \"filePath\": \"\", \"isEmpty\": true}}"@
    } else if name == "getWorkspaceFolders"@ {
        json_text(workspace_folders_value(folders))
    } else if name == "getOpenEditors"@ {
        "{\"success\": true, \"editors\": []}"@
    } else if name == "openDiff"@ {
        "Diff view opened"@
    } else if name == "checkDocumentDirty"@ {
        "{\"success\": true, \"isDirty\": false}"@
    } else if name == "saveDocument"@ {
        "{\"success\": true, \"saved\": false}"@
    } else if name == "close_tab"@ {
        "Tab closed"@
    } else if name == "closeAllDiffTabs"@ {
        "All diff tabs closed"@
    } else if name == "getDiagnostics"@ {
        "{\"success\": true, \"diagnostics\": []}"@
    } else if name == "getLatestSelection"@ {
        "{\"success\": true, \"selection\": null}"@
    } else if name == "executeCode"@ {
        "Code execution not supported in Zed"@
    } else {
        "Unknown tool: "@ + name
    }
}

/// The result of the extension's own tool: one text item.
pub open spec fn stub_result(name: Seq<char>, params: JsonValue, folders: Seq<Seq<char>>) -> JsonValue {
    JsonValue::Object(
        seq![("content"@, JsonValue::Array(seq![text_item_value(stub_text(name, params, folders))]))],
    )
}

/// Runs the extension's own tool `name`.
pub fn handle_tool_call(name: &str, params: &Json, folders: &Vec<String>) -> (j: Json)
    ensures
        j@ == stub_result(name@, params@, strings_view(folders@)),
{
    let text = if str_eq(name, "openFile") {
        join(
            "Opening file: ",
            match params.str_field("path") {
                Some(p) => p,
                None => "",
            },
        )
    } else if str_eq(name, "getCurrentSelection") {
        String::from_str(
            "{\"success\": true, \"selection\": {\"text\": \"\", \"filePath\": \"\", \"isEmpty\": true}}",
        )
    } else if str_eq(name, "getWorkspaceFolders") {
        workspace_folders_json(folders).to_text()
    } else if str_eq(name, "getOpenEditors") {
        String::from_str("{\"success\": true, \"editors\": []}")
    } else if str_eq(name, "openDiff") {
        String::from_str("Diff view opened")
    } else if str_eq(name, "checkDocumentDirty") {
        String::from_str("{\"success\": true, \"isDirty\": false}")
    } else if str_eq(name, "saveDocument") {
        String::from_str("{\"success\": true, \"saved\": false}")
    } else if str_eq(name, "close_tab") {
        String::from_str("Tab closed")
    } else if str_eq(name, "closeAllDiffTabs") {
        String::from_str("All diff tabs closed")
    } else if str_eq(name, "getDiagnostics") {
        String::from_str("{\"success\": true, \"diagnostics\": []}")
    } else if str_eq(name, "getLatestSelection") {
        String::from_str("{\"success\": true, \"selection\": null}")
    } else if str_eq(name, "executeCode") {
        String::from_str("Code execution not supported in Zed")
    } else {
        join("Unknown tool: ", name)
    };
    proof {
        reveal_strlit("");
        assert(""@ =~= Seq::<char>::empty());
    }
    let mut items: Vec<Json> = Vec::new();
    push_item(&mut items, text_item(text.as_str()));
    assert(items_view(items@) =~= seq![text_item_value(text@)]);
    let mut e: Vec<(String, Json)> = Vec::new();
    push_entry(&mut e, "content", Json::array(items));
    assert(entries_view(e@) =~= stub_result(name@, params@, strings_view(folders@))->Object_0);
    Json::object(e)
}

/// A response with a result, as a JSON object: `id` is left out where the
/// message had none.
pub open spec fn success_value(id: Option<JsonValue>, result: JsonValue) -> JsonValue {
    JsonValue::Object(
        seq![("jsonrpc"@, JsonValue::Str("2.0"@))] + (match id {
            Some(id) => seq![("id"@, id)],
            None => Seq::empty(),
        }) + seq![("result"@, result)],
    )
}

/// A response with an error, as a JSON object: `id` is left out where the
/// message had none.
pub open spec fn error_value(id: Option<JsonValue>, code: i64, message: Seq<char>) -> JsonValue {
    JsonValue::Object(
        seq![("jsonrpc"@, JsonValue::Str("2.0"@))] + (match id {
            Some(id) => seq![("id"@, id)],
            None => Seq::empty(),
        }) + seq![
            (
                "error"@,
                JsonValue::Object(
                    seq![("code"@, JsonValue::Num(code as int)), ("message"@, JsonValue::Str(message))],
                ),
            ),
        ],
    )
}

/// The text of a response with a result.
pub fn create_success_response(id: Option<Json>, result: Json) -> (s: String)
    ensures
        s@ == json_text(success_value(option_view(id), result@)),
{
    let mut e: Vec<(String, Json)> = Vec::new();
    push_entry(&mut e, "jsonrpc", Json::string("2.0"));
    match id {
        Some(id) => {
            push_entry(&mut e, "id", id);
        },
        None => {},
    }
    push_entry(&mut e, "result", result);
    assert(entries_view(e@) =~= success_value(option_view(id), result@)->Object_0);
    Json::object(e).to_text()
}

/// The text of a response with an error.
pub fn create_error_response(id: Option<Json>, code: i64, message: &str) -> (s: String)
    ensures
        s@ == json_text(error_value(option_view(id), code, message@)),
{
    let mut error: Vec<(String, Json)> = Vec::new();
    push_entry(&mut error, "code", Json::Int(code));
    push_entry(&mut error, "message", Json::string(message));
    assert(entries_view(error@) =~= seq![
        ("code"@, JsonValue::Num(code as int)),
        ("message"@, JsonValue::Str(message@)),
    ]);
    let mut e: Vec<(String, Json)> = Vec::new();
    push_entry(&mut e, "jsonrpc", Json::string("2.0"));
    match id {
        Some(id) => {
            push_entry(&mut e, "id", id);
        },
        None => {},
    }
    push_entry(&mut e, "error", Json::object(error));
    assert(entries_view(e@) =~= error_value(option_view(id), code, message@)->Object_0);
    Json::object(e).to_text()
}

/// The answer of the extension to a message, given what the JSON parser made
/// of its text. What is no message, an object with the string `jsonrpc`, is
/// answered with the parse error. A message that names a method is answered
/// with the result of the tool of that name; any other message is passed
/// over.
pub open spec fn answer_to(parsed: Result<JsonValue, Seq<char>>, folders: Seq<Seq<char>>) -> Option<
    JsonValue,
> {
    match parsed {
        Err(_) => Some(error_value(None, -32700i64, "Parse error"@)),
        Ok(j) => if j.str_field("jsonrpc"@) is None {
            Some(error_value(None, -32700i64, "Parse error"@))
        } else {
            match j.str_field("method"@) {
                Some(method) => Some(
                    success_value(
                        nullable(j.get("id"@)),
                        stub_result(
                            method,
                            match nullable(j.get("params"@)) {
                                Some(p) => p,
                                None => JsonValue::Null,
                            },
                            folders,
                        ),
                    ),
                ),
                None => None,
            }
        },
    }
}

/// Answers a message, given what the JSON parser made of its text.
pub fn answer_parsed(parsed: Result<Json, String>, folders: &Vec<String>) -> (r: Option<String>)
    ensures
        match r {
            Some(s) => match answer_to(crate::websocket::parsed_view(parsed), strings_view(folders@)) {
                Some(v) => s@ == json_text(v),
                None => false,
            },
            None => answer_to(crate::websocket::parsed_view(parsed), strings_view(folders@))
                is None,
        },
{
    let j = match parsed {
        Ok(j) => j,
        Err(_) => {
            return Some(create_error_response(None, -32700, "Parse error"));
        },
    };
    if j.str_field("jsonrpc").is_none() {
        return Some(create_error_response(None, -32700, "Parse error"));
    }
    match j.str_field("method") {
        Some(method) => {
            let params = match nullable_member(&j, "params") {
                Some(p) => p,
                None => Json::Null,
            };
            let result = handle_tool_call(method, &params, folders);
            Some(create_success_response(nullable_member(&j, "id"), result))
        },
        None => None,
    }
}

/// Answers the text of a message.
pub fn handle_websocket_message(message: &str, folders: &Vec<String>) -> (r: Option<String>)
    ensures
        match r {
            Some(s) => match answer_to(json_parse(message@), strings_view(folders@)) {
                Some(v) => s@ == json_text(v),
                None => false,
            },
            None => answer_to(json_parse(message@), strings_view(folders@)) is None,
        },
{
    answer_parsed(Json::parse(message), folders)
}

/// What the extension would write into a lock file.
pub open spec fn lock_file_data_value(
    pid: u32,
    folders: Seq<Seq<char>>,
    ide_name: Seq<char>,
    token: Seq<char>,
) -> JsonValue {
    JsonValue::Object(
        seq![
            ("pid"@, JsonValue::Num(pid as int)),
            (
                "workspaceFolders"@,
                JsonValue::Array(Seq::new(folders.len(), |i: int| JsonValue::Str(folders[i]))),
            ),
            ("ideName"@, JsonValue::Str(ide_name)),
            ("transport"@, JsonValue::Str("ws"@)),
            ("authToken"@, JsonValue::Str(token)),
        ],
    )
}

/// What the extension would write into a lock file.
pub fn create_lock_file_data(pid: u32, folders: &Vec<String>, ide_name: &str, token: &str) -> (j:
    Json)
    ensures
        j@ == lock_file_data_value(pid, strings_view(folders@), ide_name@, token@),
{
    let ghost all = strings_view(folders@);
    let mut items: Vec<Json> = Vec::new();
    let mut i: usize = 0;
    while i < folders.len()
        invariant
            i <= folders@.len(),
            all == strings_view(folders@),
            items_view(items@) == Seq::new(i as nat, |k: int| JsonValue::Str(all[k])),
        decreases folders@.len() - i,
    {
        push_item(&mut items, Json::string(folders[i].as_str()));
        assert(items_view(items@) =~= Seq::new((i + 1) as nat, |k: int| JsonValue::Str(all[k])));
        i = i + 1;
    }
    let mut e: Vec<(String, Json)> = Vec::new();
    push_entry(&mut e, "pid", Json::UInt(pid as u64));
    push_entry(&mut e, "workspaceFolders", Json::array(items));
    push_entry(&mut e, "ideName", Json::string(ide_name));
    push_entry(&mut e, "transport", Json::string("ws"));
    push_entry(&mut e, "authToken", Json::string(token));
    assert(entries_view(e@) =~= lock_file_data_value(pid, all, ide_name@, token@)->Object_0);
    Json::object(e)
}

/// The mathematical value of a [`ServerConfig`].
pub struct ServerConfigView {
    pub port: u16,
    pub auth_token: Seq<char>,
    pub workspace_folders: Seq<Seq<char>>,
}

/// The server that the extension prepares: its port, its secret and its
/// workspace folders.
#[derive(Debug, Clone, PartialEq, Eq)]
pub struct ServerConfig {
    pub port: u16,
    pub auth_token: String,
    pub workspace_folders: Vec<String>,
}

impl View for ServerConfig {
    type V = ServerConfigView;

    open spec fn view(&self) -> ServerConfigView {
        ServerConfigView {
            port: self.port,
            auth_token: self.auth_token@,
            workspace_folders: strings_view(self.workspace_folders@),
        }
    }
}

/// Prepares a server for the given workspace folders: a port picked at random
/// from 10000 on and a fresh identifier as its secret.
pub fn init_server_config(workspace_folders: Vec<String>) -> (config: ServerConfig)
    ensures
        config@.port >= FIRST_PORT,
        config@.auth_token.len() == 36,
        config@.workspace_folders == strings_view(workspace_folders@),
{
    ServerConfig {
        port: generate_random_port(),
        auth_token: crate::websocket::new_connection_id(),
        workspace_folders,
    }
}

/// What the extension answers to a slash command: it has none yet.
pub fn run_slash_command(assistant: &str, command: &str) -> (text: String)
    ensures
        text@ == assistant@ + " slash command '"@ + command@ + "' not yet implemented"@,
{
    let mut text = join3(assistant, " slash command '", command);
    text.append("' not yet implemented");
    text
}

/// The mathematical value of a [`BinaryStep`].
pub enum BinaryStepView {
    CheckLocal { name: Seq<char> },
    MakeLocalExecutable { name: Seq<char> },
    FetchRelease,
    Download { url: Seq<char>, path: Seq<char> },
    MakeExecutable { path: Seq<char> },
    Done { outcome: Result<Seq<char>, Seq<char>> },
}

/// What to do next to get hold of the server's binary.
#[derive(Debug, PartialEq, Eq)]
pub enum BinaryStep {
    /// Look whether a file of this name is there already.
    CheckLocal { name: String },
    /// Make the file that is there executable.
    MakeLocalExecutable { name: String },
    /// Ask for the assets of the latest release.
    FetchRelease,
    /// Download from the URL to the path.
    Download { url: String, path: String },
    /// Make the downloaded file executable.
    MakeExecutable { path: String },
    /// The binary to start, or why there is none.
    Done { outcome: Result<String, String> },
}

impl View for BinaryStep {
    type V = BinaryStepView;

    open spec fn view(&self) -> BinaryStepView {
        match self {
            BinaryStep::CheckLocal { name } => BinaryStepView::CheckLocal { name: name@ },
            BinaryStep::MakeLocalExecutable { name } => BinaryStepView::MakeLocalExecutable {
                name: name@,
            },
            BinaryStep::FetchRelease => BinaryStepView::FetchRelease,
            BinaryStep::Download { url, path } => BinaryStepView::Download {
                url: url@,
                path: path@,
            },
            BinaryStep::MakeExecutable { path } => BinaryStepView::MakeExecutable { path: path@ },
            BinaryStep::Done { outcome } => BinaryStepView::Done {
                outcome: match outcome {
                    Ok(p) => Ok(p@),
                    Err(e) => Err(e@),
                },
            },
        }
    }
}

/// The mathematical value of a [`BinaryEvent`].
pub enum BinaryEventView {
    LocalExists { exists: bool },
    MadeExecutable { failure: Option<Seq<char>> },
    Release { assets: Result<Seq<(Seq<char>, Seq<char>)>, Seq<char>> },
    Downloaded { failure: Option<Seq<char>> },
}

/// How the last step went.
#[derive(Debug, PartialEq, Eq)]
pub enum BinaryEvent {
    LocalExists { exists: bool },
    MadeExecutable { failure: Option<String> },
    /// The assets of the latest release, each with its name and its URL.
    Release { assets: Result<Vec<(String, String)>, String> },
    Downloaded { failure: Option<String> },
}

/// The views of a list of pairs of texts.
pub open spec fn pairs_view(pairs: Seq<(String, String)>) -> Seq<(Seq<char>, Seq<char>)> {
    Seq::new(pairs.len(), |i: int| (pairs[i].0@, pairs[i].1@))
}

impl View for BinaryEvent {
    type V = BinaryEventView;

    open spec fn view(&self) -> BinaryEventView {
        match self {
            BinaryEvent::LocalExists { exists } => BinaryEventView::LocalExists { exists: *exists },
            BinaryEvent::MadeExecutable { failure } => BinaryEventView::MadeExecutable {
                failure: match failure {
                    Some(e) => Some(e@),
                    None => None,
                },
            },
            BinaryEvent::Release { assets } => BinaryEventView::Release {
                assets: match assets {
                    Ok(a) => Ok(pairs_view(a@)),
                    Err(e) => Err(e@),
                },
            },
            BinaryEvent::Downloaded { failure } => BinaryEventView::Downloaded {
                failure: match failure {
                    Some(e) => Some(e@),
                    None => None,
                },
            },
        }
    }
}

/// The asset `i` is the first with the given name.
pub open spec fn first_asset(assets: Seq<(Seq<char>, Seq<char>)>, name: Seq<char>, i: int) -> bool {
    &&& 0 <= i < assets.len()
    &&& assets[i].0 == name
    &&& forall|k: int| 0 <= k < i ==> (#[trigger] assets[k]).0 != name
}

/// The step after a release was asked for: download the first asset with the
/// binary's name to a file of that name, or give up where the release could
/// not be had or has no such asset.
pub open spec fn after_release(
    binary: Seq<char>,
    assets: Result<Seq<(Seq<char>, Seq<char>)>, Seq<char>>,
) -> BinaryStepView {
    match assets {
        Err(e) => BinaryStepView::Done { outcome: Err("Failed to get latest release: "@ + e) },
        Ok(list) => if exists|i: int| first_asset(list, binary, i) {
            BinaryStepView::Download {
                url: list[choose|i: int| first_asset(list, binary, i)].1,
                path: binary,
            }
        } else {
            BinaryStepView::Done { outcome: Err("Asset "@ + binary + " not found in release"@) }
        },
    }
}

/// The step that follows `step` after `event`. A binary that is there
/// already is used, whether or not it can be made executable. Otherwise the
/// binary is downloaded from the latest release and made executable; where
/// the download fails, the binary `fallback` of the system is used instead.
/// An event that does not answer the step ends the search with an error.
pub open spec fn next_step(
    binary: Seq<char>,
    fallback: Seq<char>,
    step: BinaryStepView,
    event: BinaryEventView,
) -> BinaryStepView {
    match (step, event) {
        (BinaryStepView::CheckLocal { name }, BinaryEventView::LocalExists { exists }) => if exists {
            BinaryStepView::MakeLocalExecutable { name }
        } else {
            BinaryStepView::FetchRelease
        },
        (
            BinaryStepView::MakeLocalExecutable { name },
            BinaryEventView::MadeExecutable { .. },
        ) => BinaryStepView::Done { outcome: Ok(name) },
        (BinaryStepView::FetchRelease, BinaryEventView::Release { assets }) => after_release(
            binary,
            assets,
        ),
        (
            BinaryStepView::Download { url, path },
            BinaryEventView::Downloaded { failure },
        ) => match failure {
            None => BinaryStepView::MakeExecutable { path },
            Some(_) => BinaryStepView::Done { outcome: Ok(fallback) },
        },
        (
            BinaryStepView::MakeExecutable { path },
            BinaryEventView::MadeExecutable { failure },
        ) => match failure {
            None => BinaryStepView::Done { outcome: Ok(path) },
            Some(e) => BinaryStepView::Done {
                outcome: Err("Failed to make binary executable: "@ + e),
            },
        },
        _ => BinaryStepView::Done { outcome: Err("unexpected event"@) },
    }
}

/// The first step to get hold of the binary for a platform: look for a file
/// of the binary's name, or give up on a platform that has no binary.
pub fn download_server_binary(platform_binary: Result<String, String>) -> (step: BinaryStep)
    ensures
        step@ == match platform_binary {
            Ok(name) => BinaryStepView::CheckLocal { name: name@ },
            Err(e) => BinaryStepView::Done { outcome: Err(e@) },
        },
{
    match platform_binary {
        Ok(name) => BinaryStep::CheckLocal { name },
        Err(e) => BinaryStep::Done { outcome: Err(e) },
    }
}

fn unexpected() -> (step: BinaryStep)
    ensures
        step@ == (BinaryStepView::Done { outcome: Err("unexpected event"@) }),
{
    BinaryStep::Done { outcome: Err(String::from_str("unexpected event")) }
}

fn pick_asset(binary: &str, list: &Vec<(String, String)>) -> (step: BinaryStep)
    ensures
        step@ == after_release(binary@, Ok(pairs_view(list@))),
{
    let ghost all = pairs_view(list@);
    let mut i: usize = 0;
    while i < list.len()
        invariant
            i <= list@.len(),
            all == pairs_view(list@),
            forall|k: int| 0 <= k < i ==> (#[trigger] all[k]).0 != binary@,
        decreases list@.len() - i,
    {
        if str_eq(list[i].0.as_str(), binary) {
            proof {
                assert(first_asset(all, binary@, i as int));
                let c = choose|c: int| first_asset(all, binary@, c);
                assert(c == i) by {
                    if c < i {
                        assert(all[c].0 != binary@);
                    } else if i < c {
                        assert(all[i as int].0 != binary@);
                    }
                }
            }
            return BinaryStep::Download { url: list[i].1.clone(), path: String::from_str(binary) };
        }
        i = i + 1;
    }
    proof {
        assert forall|k: int| !first_asset(all, binary@, k) by {
            if 0 <= k < all.len() {
                assert(all[k].0 != binary@);
            }
        }
    }
    BinaryStep::Done { outcome: Err(join3("Asset ", binary, " not found in release")) }
}

/// Decides the step that follows `step` after `event`.
pub fn advance_download(binary: &str, fallback: &str, step: BinaryStep, event: BinaryEvent) -> (next:
    BinaryStep)
    ensures
        next@ == next_step(binary@, fallback@, step@, event@),
{
    match step {
        BinaryStep::CheckLocal { name } => match event {
            BinaryEvent::LocalExists { exists } => if exists {
                BinaryStep::MakeLocalExecutable { name }
            } else {
                BinaryStep::FetchRelease
            },
            _ => unexpected(),
        },
        BinaryStep::MakeLocalExecutable { name } => match event {
            BinaryEvent::MadeExecutable { failure: _ } => BinaryStep::Done { outcome: Ok(name) },
            _ => unexpected(),
        },
        BinaryStep::FetchRelease => match event {
            BinaryEvent::Release { assets } => match assets {
                Err(e) => BinaryStep::Done {
                    outcome: Err(join("Failed to get latest release: ", e.as_str())),
                },
                Ok(list) => pick_asset(binary, &list),
            },
            _ => unexpected(),
        },
        BinaryStep::Download { url: _, path } => match event {
            BinaryEvent::Downloaded { failure } => match failure {
                None => BinaryStep::MakeExecutable { path },
                Some(_) => BinaryStep::Done { outcome: Ok(String::from_str(fallback)) },
            },
            _ => unexpected(),
        },
        BinaryStep::MakeExecutable { path } => match event {
            BinaryEvent::MadeExecutable { failure } => match failure {
                None => BinaryStep::Done { outcome: Ok(path) },
                Some(e) => BinaryStep::Done {
                    outcome: Err(join("Failed to make binary executable: ", e.as_str())),
                },
            },
            _ => unexpected(),
        },
        BinaryStep::Done { outcome: _ } => unexpected(),
    }
}

/// The binary of the server for a worktree, where it is known without a
/// download: in the tree in which the extension is developed it is the
/// platform's binary, or `fallback` where the platform has none.
pub fn find_server_binary(
    root: &str,
    marker: &str,
    forced: bool,
    platform_binary: Result<String, String>,
    fallback: &str,
) -> (r: Option<String>)
    ensures
        match r {
            Some(name) => (forced || contains_text(root@, marker@)) && name@ == match platform_binary {
                Ok(n) => n@,
                Err(_) => fallback@,
            },
            None => !(forced || contains_text(root@, marker@)),
        },
{
    if is_development_tree(root, marker, forced) {
        match platform_binary {
            Ok(name) => Some(name),
            Err(_) => Some(String::from_str(fallback)),
        }
    } else {
        None
    }
}

} // verus!
