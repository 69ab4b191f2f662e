//! The tools that a peer can call, and the registry that holds them.
//!
//! A tool is a name, a schema of its arguments and an action. Running an
//! action is a function of the arguments and of the workspace folders that
//! the registry was made with; it never changes the registry.
use crate::json::{
    entries_view, items_view, json_text, push_entry, push_item, Json, JsonValue,
};
use crate::text::{
    chars_of, join, join3, decimal, decimal_string, push_string, str_eq, string_of,
    strings_view,
};
use vstd::prelude::*;
use vstd::string::*;
use vstd::utf8::encode_utf8;

verus! {

/// The arguments of a call do not fit the tool.
pub const TOOL_ERROR_INVALID_PARAMS: i32 = -32602;

/// The tool failed while it ran.
pub const TOOL_ERROR_INTERNAL: i32 = -32603;

/// No tool has the name that was called.
pub const TOOL_ERROR_NOT_FOUND: i32 = -32601;

/// The mathematical value of a [`ToolError`].
pub struct ToolErrorView {
    pub code: int,
    pub message: Seq<char>,
    pub data: Option<JsonValue>,
}

/// Why a tool call failed, in the shape of a JSON-RPC error.
#[derive(Debug, PartialEq, Eq)]
pub struct ToolError {
    pub code: i32,
    pub message: String,
    pub data: Option<Json>,
}

impl View for ToolError {
    type V = ToolErrorView;

    open spec fn view(&self) -> ToolErrorView {
        ToolErrorView {
            code: self.code as int,
            message: self.message@,
            data: match self.data {
                Some(d) => Some(d@),
                None => None,
            },
        }
    }
}

/// The error of a call that lacks the argument `key`.
pub open spec fn missing_parameter(key: Seq<char>) -> ToolErrorView {
    ToolErrorView {
        code: TOOL_ERROR_INVALID_PARAMS as int,
        message: "Missing "@ + key + " parameter"@,
        data: None,
    }
}

/// The error of a call of a name that no tool has.
pub open spec fn tool_not_found(name: Seq<char>) -> ToolErrorView {
    ToolErrorView {
        code: TOOL_ERROR_NOT_FOUND as int,
        message: "Tool not found: "@ + name,
        data: None,
    }
}

impl Clone for ToolError {
    fn clone(&self) -> (r: ToolError)
        ensures
            r@ == self@,
    {
        let data = match &self.data {
            Some(d) => Some(d.clone()),
            None => None,
        };
        ToolError { code: self.code, message: self.message.clone(), data }
    }
}

impl ToolError {
    pub fn new(code: i32, message: String) -> (e: ToolError)
        ensures
            e@ == (ToolErrorView { code: code as int, message: message@, data: None }),
    {
        ToolError { code, message, data: None }
    }

    pub fn with_data(code: i32, message: String, data: Json) -> (e: ToolError)
        ensures
            e@ == (ToolErrorView { code: code as int, message: message@, data: Some(data@) }),
    {
        ToolError { code, message, data: Some(data) }
    }

    pub fn invalid_params(message: String) -> (e: ToolError)
        ensures
            e@ == (ToolErrorView {
                code: TOOL_ERROR_INVALID_PARAMS as int,
                message: message@,
                data: None,
            }),
    {
        ToolError::new(TOOL_ERROR_INVALID_PARAMS, message)
    }

    pub fn internal_error(message: String) -> (e: ToolError)
        ensures
            e@ == (ToolErrorView {
                code: TOOL_ERROR_INTERNAL as int,
                message: message@,
                data: None,
            }),
    {
        ToolError::new(TOOL_ERROR_INTERNAL, message)
    }

    pub fn not_found(name: String) -> (e: ToolError)
        ensures
            e@ == tool_not_found(name@),
    {
        ToolError::new(TOOL_ERROR_NOT_FOUND, join("Tool not found: ", name.as_str()))
    }
}

/// What a standard tool does when it is called.
#[derive(Debug, Clone, Copy, PartialEq, Eq, Structural)]
pub enum ToolAction {
    OpenFile,
    GetCurrentSelection,
    GetLatestSelection,
    GetOpenEditors,
    GetWorkspaceFolders,
    OpenDiff,
    CloseAllDiffTabs,
    CloseTab,
    GetDiagnostics,
    CheckDocumentDirty,
    SaveDocument,
    ExecuteCode,
}

/// The mathematical value of a [`ToolSchema`].
pub struct ToolSchemaView {
    pub name: Seq<char>,
    pub description: Seq<char>,
    pub input_schema: JsonValue,
}

/// How a tool presents itself in the tool list.
#[derive(Debug, PartialEq, Eq)]
pub struct ToolSchema {
    pub name: String,
    pub description: String,
    pub input_schema: Json,
}

impl View for ToolSchema {
    type V = ToolSchemaView;

    open spec fn view(&self) -> ToolSchemaView {
        ToolSchemaView {
            name: self.name@,
            description: self.description@,
            input_schema: self.input_schema@,
        }
    }
}

impl Clone for ToolSchema {
    fn clone(&self) -> (r: ToolSchema)
        ensures
            r@ == self@,
    {
        ToolSchema {
            name: self.name.clone(),
            description: self.description.clone(),
            input_schema: self.input_schema.clone(),
        }
    }
}

/// The entry of a tool in the answer to `tools/list`.
pub open spec fn schema_value(schema: ToolSchemaView) -> JsonValue {
    JsonValue::Object(
        seq![
            ("name"@, JsonValue::Str(schema.name)),
            ("description"@, JsonValue::Str(schema.description)),
            ("inputSchema"@, schema.input_schema),
        ],
    )
}

impl ToolSchema {
    /// The entry of the tool in the answer to `tools/list`.
    pub fn to_json(&self) -> (j: Json)
        ensures
            j@ == schema_value(self@),
    {
        let mut e: Vec<(String, Json)> = Vec::new();
        push_entry(&mut e, "name", Json::string(self.name.as_str()));
        push_entry(&mut e, "description", Json::string(self.description.as_str()));
        push_entry(&mut e, "inputSchema", self.input_schema.clone());
        assert(entries_view(e@) =~= schema_value(self@)->Object_0);
        Json::object(e)
    }
}

/// The mathematical value of a [`ToolHandler`].
pub struct ToolView {
    pub schema: ToolSchemaView,
    pub handler: ToolAction,
    pub requires_async: bool,
}

/// A tool as the registry holds it.
#[derive(Debug, PartialEq, Eq)]
pub struct ToolHandler {
    pub schema: ToolSchema,
    pub handler: ToolAction,
    pub requires_async: bool,
}

impl View for ToolHandler {
    type V = ToolView;

    open spec fn view(&self) -> ToolView {
        ToolView {
            schema: self.schema@,
            handler: self.handler,
            requires_async: self.requires_async,
        }
    }
}

/// One item of a tool result: a text.
pub open spec fn text_item_value(text: Seq<char>) -> JsonValue {
    JsonValue::Object(seq![("type"@, JsonValue::Str("text"@)), ("text"@, JsonValue::Str(text))])
}

/// The envelope of a tool's result: its texts as content items, and the mark
/// that the call did not fail.
pub open spec fn tool_result(texts: Seq<Seq<char>>) -> JsonValue {
    JsonValue::Object(
        seq![
            (
                "content"@,
                JsonValue::Array(Seq::new(texts.len(), |i: int| text_item_value(texts[i]))),
            ),
            ("isError"@, JsonValue::Bool(false)),
        ],
    )
}

/// One item of a tool result.
pub fn text_item(text: &str) -> (j: Json)
    ensures
        j@ == text_item_value(text@),
{
    let mut e: Vec<(String, Json)> = Vec::new();
    push_entry(&mut e, "type", Json::string("text"));
    push_entry(&mut e, "text", Json::string(text));
    assert(entries_view(e@) =~= text_item_value(text@)->Object_0);
    Json::object(e)
}

/// Wraps the texts of a tool into the result envelope.
pub fn tool_result_of(texts: &Vec<String>) -> (j: Json)
    ensures
        j@ == tool_result(strings_view(texts@)),
{
    let ghost all = strings_view(texts@);
    let mut items: Vec<Json> = Vec::new();
    let mut i: usize = 0;
    while i < texts.len()
        invariant
            i <= texts@.len(),
            all == strings_view(texts@),
            items_view(items@) == Seq::new(i as nat, |k: int| text_item_value(all[k])),
        decreases texts@.len() - i,
    {
        push_item(&mut items, text_item(texts[i].as_str()));
        assert(items_view(items@) =~= Seq::new((i + 1) as nat, |k: int| text_item_value(all[k])));
        i = i + 1;
    }
    let mut e: Vec<(String, Json)> = Vec::new();
    push_entry(&mut e, "content", Json::array(items));
    push_entry(&mut e, "isError", Json::Bool(false));
    assert(entries_view(e@) =~= tool_result(all)->Object_0);
    Json::object(e)
}

/// The part of a path behind its last slash.
pub open spec fn last_segment(path: Seq<char>) -> Seq<char>
    decreases path.len(),
{
    if path.len() == 0 || path.last() == '/' {
        Seq::empty()
    } else {
        last_segment(path.drop_last()).push(path.last())
    }
}

/// The display name of a workspace folder: the last segment of its path, or
/// `workspace` where that is empty.
pub open spec fn folder_name(path: Seq<char>) -> Seq<char> {
    if last_segment(path).len() == 0 {
        "workspace"@
    } else {
        last_segment(path)
    }
}

/// The last segment starts behind the last slash.
pub proof fn lemma_last_segment(path: Seq<char>, i: int)
    requires
        0 <= i <= path.len(),
        forall|j: int| i <= j < path.len() ==> path[j] != '/',
        i > 0 ==> path[i - 1] == '/',
    ensures
        last_segment(path) == path.skip(i),
    decreases path.len(),
{
    if i == path.len() {
        assert(path.skip(i) =~= Seq::<char>::empty());
    } else {
        lemma_last_segment(path.drop_last(), i);
        assert(path.drop_last().skip(i).push(path.last()) =~= path.skip(i));
    }
}

/// The display name of a workspace folder.
pub fn folder_name_of(path: &str) -> (name: String)
    ensures
        name@ == folder_name(path@),
{
    let chars = chars_of(path);
    let mut i: usize = chars.len();
    while i > 0 && chars[i - 1] != '/'
        invariant
            i <= chars@.len(),
            forall|j: int| i <= j < chars@.len() ==> chars@[j] != '/',
        decreases i,
    {
        i = i - 1;
    }
    proof {
        lemma_last_segment(chars@, i as int);
        assert(chars@.subrange(i as int, chars@.len() as int) =~= chars@.skip(i as int));
    }
    if i == chars.len() {
        String::from_str("workspace")
    } else {
        string_of(&chars, i, chars.len())
    }
}

/// How a workspace folder stands in the answer of `getWorkspaceFolders`.
pub open spec fn folder_value(path: Seq<char>) -> JsonValue {
    JsonValue::Object(
        seq![
            ("name"@, JsonValue::Str(folder_name(path))),
            ("uri"@, JsonValue::Str("file://"@ + path)),
            ("path"@, JsonValue::Str(path)),
        ],
    )
}

/// The document that `getWorkspaceFolders` answers with; the first folder is
/// the root.
pub open spec fn workspace_folders_value(folders: Seq<Seq<char>>) -> JsonValue {
    JsonValue::Object(
        seq![
            ("success"@, JsonValue::Bool(true)),
            ("folders"@, JsonValue::Array(Seq::new(folders.len(), |i: int| folder_value(folders[i])))),
            (
                "rootPath"@,
                JsonValue::Str(
                    if folders.len() > 0 {
                        folders[0]
                    } else {
                        Seq::empty()
                    },
                ),
            ),
        ],
    )
}

/// The document that `getWorkspaceFolders` answers with.
pub fn workspace_folders_json(folders: &Vec<String>) -> (j: Json)
    ensures
        j@ == workspace_folders_value(strings_view(folders@)),
{
    let ghost all = strings_view(folders@);
    let mut items: Vec<Json> = Vec::new();
    let mut i: usize = 0;
    while i < folders.len()
        invariant
            i <= folders@.len(),
            all == strings_view(folders@),
            items_view(items@) == Seq::new(i as nat, |k: int| folder_value(all[k])),
        decreases folders@.len() - i,
    {
        let path = folders[i].as_str();
        let mut e: Vec<(String, Json)> = Vec::new();
        push_entry(&mut e, "name", Json::Str(folder_name_of(path)));
        push_entry(&mut e, "uri", Json::Str(join("file://", path)));
        push_entry(&mut e, "path", Json::string(path));
        assert(entries_view(e@) =~= folder_value(path@)->Object_0);
        push_item(&mut items, Json::object(e));
        assert(items_view(items@) =~= Seq::new((i + 1) as nat, |k: int| folder_value(all[k])));
        i = i + 1;
    }
    let root = if folders.len() > 0 {
        Json::string(folders[0].as_str())
    } else {
        let empty = String::new();
        Json::Str(empty)
    };
    let mut e: Vec<(String, Json)> = Vec::new();
    push_entry(&mut e, "success", Json::Bool(true));
    push_entry(&mut e, "folders", Json::array(items));
    push_entry(&mut e, "rootPath", root);
    assert(entries_view(e@) =~= workspace_folders_value(all)->Object_0);
    Json::object(e)
}

/// The document that `openFile` answers with when the file is not brought to
/// the front.
pub open spec fn open_file_value(file_path: Seq<char>) -> JsonValue {
    JsonValue::Object(
        seq![
            ("success"@, JsonValue::Bool(true)),
            ("filePath"@, JsonValue::Str(file_path)),
            ("languageId"@, JsonValue::Str("text"@)),
            ("lineCount"@, JsonValue::Num(0)),
        ],
    )
}

/// The texts of `openFile`: a short confirmation when the file is brought to
/// the front, a document about the file when it is not.
pub open spec fn open_file_texts(file_path: Seq<char>, make_frontmost: bool) -> Seq<Seq<char>> {
    if make_frontmost {
        seq!["Opened file: "@ + file_path]
    } else {
        seq![json_text(open_file_value(file_path))]
    }
}

/// The document that the selection tools answer with while no editor reports
/// a selection.
pub open spec fn no_selection_value(message: Seq<char>) -> JsonValue {
    JsonValue::Object(
        seq![("success"@, JsonValue::Bool(false)), ("message"@, JsonValue::Str(message))],
    )
}

/// The document that `getOpenEditors` answers with: no tabs.
pub open spec fn open_editors_value() -> JsonValue {
    JsonValue::Object(seq![("tabs"@, JsonValue::Array(Seq::empty()))])
}

/// The texts of `openDiff`: the diff counts as accepted, so the answer is the
/// word `FILE_SAVED` and the new contents.
pub open spec fn open_diff_texts(new_file_contents: Seq<char>) -> Seq<Seq<char>> {
    seq!["FILE_SAVED"@, new_file_contents]
}

/// The document that `getDiagnostics` answers with: one entry without
/// diagnostics for the file asked about, none where no file was named.
pub open spec fn diagnostics_value(uri: Option<Seq<char>>) -> JsonValue {
    match uri {
        Some(uri) => JsonValue::Array(
            seq![
                JsonValue::Object(
                    seq![
                        ("uri"@, JsonValue::Str(uri)),
                        ("diagnostics"@, JsonValue::Array(Seq::empty())),
                    ],
                ),
            ],
        ),
        None => JsonValue::Array(Seq::empty()),
    }
}

/// The document that `checkDocumentDirty` answers with.
pub open spec fn document_dirty_value(file_path: Seq<char>) -> JsonValue {
    JsonValue::Object(
        seq![
            ("success"@, JsonValue::Bool(true)),
            ("filePath"@, JsonValue::Str(file_path)),
            ("isDirty"@, JsonValue::Bool(false)),
            ("isUntitled"@, JsonValue::Bool(false)),
        ],
    )
}

/// The document that `saveDocument` answers with.
pub open spec fn save_document_value(file_path: Seq<char>) -> JsonValue {
    JsonValue::Object(
        seq![
            ("success"@, JsonValue::Bool(true)),
            ("filePath"@, JsonValue::Str(file_path)),
            ("saved"@, JsonValue::Bool(true)),
            ("message"@, JsonValue::Str("Document saved successfully"@)),
        ],
    )
}

/// The text of `executeCode`: a summary that gives the length of the code in
/// bytes.
pub open spec fn execute_code_text(code: Seq<char>) -> Seq<char> {
    "Code executed successfully. Output: (simulated execution of "@ + decimal(
        encode_utf8(code).len(),
    ) + " characters)"@
}

/// The text of `closeAllDiffTabs` when `closed` tabs were closed.
pub open spec fn closed_tabs_text(closed: nat) -> Seq<char> {
    "CLOSED_"@ + decimal(closed) + "_DIFF_TABS"@
}

/// The texts of `openFile`.
pub fn open_file(file_path: &str, make_frontmost: bool) -> (texts: Vec<String>)
    ensures
        strings_view(texts@) == open_file_texts(file_path@, make_frontmost),
{
    let mut texts: Vec<String> = Vec::new();
    if make_frontmost {
        push_string(&mut texts, join("Opened file: ", file_path));
    } else {
        let mut e: Vec<(String, Json)> = Vec::new();
        push_entry(&mut e, "success", Json::Bool(true));
        push_entry(&mut e, "filePath", Json::string(file_path));
        push_entry(&mut e, "languageId", Json::string("text"));
        push_entry(&mut e, "lineCount", Json::UInt(0));
        assert(entries_view(e@) =~= open_file_value(file_path@)->Object_0);
        push_string(&mut texts, Json::object(e).to_text());
    }
    assert(strings_view(texts@) =~= open_file_texts(file_path@, make_frontmost));
    texts
}

/// The text of a selection tool while no editor reports a selection.
pub fn no_selection(message: &str) -> (texts: Vec<String>)
    ensures
        strings_view(texts@) == seq![json_text(no_selection_value(message@))],
{
    let mut e: Vec<(String, Json)> = Vec::new();
    push_entry(&mut e, "success", Json::Bool(false));
    push_entry(&mut e, "message", Json::string(message));
    assert(entries_view(e@) =~= no_selection_value(message@)->Object_0);
    let mut texts: Vec<String> = Vec::new();
    push_string(&mut texts, Json::object(e).to_text());
    assert(strings_view(texts@) =~= seq![json_text(no_selection_value(message@))]);
    texts
}

/// The text of `getOpenEditors`.
pub fn open_editors() -> (texts: Vec<String>)
    ensures
        strings_view(texts@) == seq![json_text(open_editors_value())],
{
    let none: Vec<Json> = Vec::new();
    assert(items_view(none@) =~= Seq::<JsonValue>::empty());
    let mut e: Vec<(String, Json)> = Vec::new();
    push_entry(&mut e, "tabs", Json::array(none));
    assert(entries_view(e@) =~= open_editors_value()->Object_0);
    let mut texts: Vec<String> = Vec::new();
    push_string(&mut texts, Json::object(e).to_text());
    assert(strings_view(texts@) =~= seq![json_text(open_editors_value())]);
    texts
}

/// The text of `getWorkspaceFolders`.
pub fn workspace_folders(folders: &Vec<String>) -> (texts: Vec<String>)
    ensures
        strings_view(texts@) == seq![
            json_text(workspace_folders_value(strings_view(folders@))),
        ],
{
    let mut texts: Vec<String> = Vec::new();
    push_string(&mut texts, workspace_folders_json(folders).to_text());
    assert(strings_view(texts@) =~= seq![
        json_text(workspace_folders_value(strings_view(folders@))),
    ]);
    texts
}

/// The texts of `openDiff`.
pub fn open_diff(new_file_contents: &str) -> (texts: Vec<String>)
    ensures
        strings_view(texts@) == open_diff_texts(new_file_contents@),
{
    let mut texts: Vec<String> = Vec::new();
    push_string(&mut texts, String::from_str("FILE_SAVED"));
    push_string(&mut texts, String::from_str(new_file_contents));
    assert(strings_view(texts@) =~= open_diff_texts(new_file_contents@));
    texts
}

/// The text of `closeAllDiffTabs`; there are never diff tabs to close.
pub fn close_all_diff_tabs() -> (texts: Vec<String>)
    ensures
        strings_view(texts@) == seq![closed_tabs_text(0)],
{
    let closed: u64 = 0;
    let mut texts: Vec<String> = Vec::new();
    push_string(&mut texts, join3("CLOSED_", decimal_string(closed).as_str(), "_DIFF_TABS"));
    assert(strings_view(texts@) =~= seq![closed_tabs_text(0)]);
    texts
}

/// The text of `close_tab`.
pub fn close_tab() -> (texts: Vec<String>)
    ensures
        strings_view(texts@) == seq!["TAB_CLOSED"@],
{
    let mut texts: Vec<String> = Vec::new();
    push_string(&mut texts, String::from_str("TAB_CLOSED"));
    assert(strings_view(texts@) =~= seq!["TAB_CLOSED"@]);
    texts
}

/// The text of `getDiagnostics`.
pub fn diagnostics(uri: Option<&str>) -> (texts: Vec<String>)
    ensures
        strings_view(texts@) == seq![
            json_text(
                diagnostics_value(
                    match uri {
                        Some(u) => Some(u@),
                        None => None,
                    },
                ),
            ),
        ],
{
    let ghost uri_view = match uri {
        Some(u) => Some(u@),
        None => None,
    };
    let mut items: Vec<Json> = Vec::new();
    assert(items_view(items@) =~= Seq::<JsonValue>::empty());
    match uri {
        Some(u) => {
            let none: Vec<Json> = Vec::new();
            assert(items_view(none@) =~= Seq::<JsonValue>::empty());
            let mut e: Vec<(String, Json)> = Vec::new();
            push_entry(&mut e, "uri", Json::string(u));
            push_entry(&mut e, "diagnostics", Json::array(none));
            assert(entries_view(e@) =~= seq![
                ("uri"@, JsonValue::Str(u@)),
                ("diagnostics"@, JsonValue::Array(Seq::empty())),
            ]);
            push_item(&mut items, Json::object(e));
            assert(items_view(items@) =~= diagnostics_value(uri_view)->Array_0);
        },
        None => {},
    }
    let mut texts: Vec<String> = Vec::new();
    push_string(&mut texts, Json::array(items).to_text());
    assert(strings_view(texts@) =~= seq![json_text(diagnostics_value(uri_view))]);
    texts
}

/// The text of `checkDocumentDirty`.
pub fn check_document_dirty(file_path: &str) -> (texts: Vec<String>)
    ensures
        strings_view(texts@) == seq![json_text(document_dirty_value(file_path@))],
{
    let mut e: Vec<(String, Json)> = Vec::new();
    push_entry(&mut e, "success", Json::Bool(true));
    push_entry(&mut e, "filePath", Json::string(file_path));
    push_entry(&mut e, "isDirty", Json::Bool(false));
    push_entry(&mut e, "isUntitled", Json::Bool(false));
    assert(entries_view(e@) =~= document_dirty_value(file_path@)->Object_0);
    let mut texts: Vec<String> = Vec::new();
    push_string(&mut texts, Json::object(e).to_text());
    assert(strings_view(texts@) =~= seq![json_text(document_dirty_value(file_path@))]);
    texts
}

/// The text of `saveDocument`.
pub fn save_document(file_path: &str) -> (texts: Vec<String>)
    ensures
        strings_view(texts@) == seq![json_text(save_document_value(file_path@))],
{
    let mut e: Vec<(String, Json)> = Vec::new();
    push_entry(&mut e, "success", Json::Bool(true));
    push_entry(&mut e, "filePath", Json::string(file_path));
    push_entry(&mut e, "saved", Json::Bool(true));
    push_entry(&mut e, "message", Json::string("Document saved successfully"));
    assert(entries_view(e@) =~= save_document_value(file_path@)->Object_0);
    let mut texts: Vec<String> = Vec::new();
    push_string(&mut texts, Json::object(e).to_text());
    assert(strings_view(texts@) =~= seq![json_text(save_document_value(file_path@))]);
    texts
}

/// The text of `executeCode`. Nothing is executed.
pub fn execute_code(code: &str) -> (texts: Vec<String>)
    ensures
        strings_view(texts@) == seq![execute_code_text(code@)],
{
    let length = code.as_bytes().len();
    let mut texts: Vec<String> = Vec::new();
    push_string(
        &mut texts,
        join3(
            "Code executed successfully. Output: (simulated execution of ",
            decimal_string(length as u64).as_str(),
            " characters)",
        ),
    );
    assert(strings_view(texts@) =~= seq![execute_code_text(code@)]);
    texts
}

/// The texts that an action answers a call with, or the error of a call that
/// lacks an argument the action cannot do without.
pub open spec fn tool_texts(action: ToolAction, folders: Seq<Seq<char>>, args: JsonValue) -> Result<
    Seq<Seq<char>>,
    ToolErrorView,
> {
    match action {
        ToolAction::OpenFile => match args.str_field("filePath"@) {
            Some(path) => Ok(
                open_file_texts(
                    path,
                    match args.bool_field("makeFrontmost"@) {
                        Some(b) => b,
                        None => true,
                    },
                ),
            ),
            None => Err(missing_parameter("filePath"@)),
        },
        ToolAction::GetCurrentSelection => Ok(
            seq![json_text(no_selection_value("No active editor found"@))],
        ),
        ToolAction::GetLatestSelection => Ok(
            seq![json_text(no_selection_value("No selection available"@))],
        ),
        ToolAction::GetOpenEditors => Ok(seq![json_text(open_editors_value())]),
        ToolAction::GetWorkspaceFolders => Ok(seq![json_text(workspace_folders_value(folders))]),
        ToolAction::OpenDiff => if args.str_field("old_file_path"@) is None {
            Err(missing_parameter("old_file_path"@))
        } else if args.str_field("new_file_path"@) is None {
            Err(missing_parameter("new_file_path"@))
        } else if args.str_field("new_file_contents"@) is None {
            Err(missing_parameter("new_file_contents"@))
        } else if args.str_field("tab_name"@) is None {
            Err(missing_parameter("tab_name"@))
        } else {
            Ok(open_diff_texts(args.str_field("new_file_contents"@)->0))
        },
        ToolAction::CloseAllDiffTabs => Ok(seq![closed_tabs_text(0)]),
        ToolAction::CloseTab => match args.str_field("tab_name"@) {
            Some(_) => Ok(seq!["TAB_CLOSED"@]),
            None => Err(missing_parameter("tab_name"@)),
        },
        ToolAction::GetDiagnostics => Ok(
            seq![json_text(diagnostics_value(args.str_field("uri"@)))],
        ),
        ToolAction::CheckDocumentDirty => match args.str_field("filePath"@) {
            Some(path) => Ok(seq![json_text(document_dirty_value(path))]),
            None => Err(missing_parameter("filePath"@)),
        },
        ToolAction::SaveDocument => match args.str_field("filePath"@) {
            Some(path) => Ok(seq![json_text(save_document_value(path))]),
            None => Err(missing_parameter("filePath"@)),
        },
        ToolAction::ExecuteCode => match args.str_field("code"@) {
            Some(code) => Ok(seq![execute_code_text(code)]),
            None => Err(missing_parameter("code"@)),
        },
    }
}

/// What a call of an action returns: the result envelope around its texts, or
/// its error.
pub open spec fn tool_outcome(action: ToolAction, folders: Seq<Seq<char>>, args: JsonValue) -> Result<
    JsonValue,
    ToolErrorView,
> {
    match tool_texts(action, folders, args) {
        Ok(texts) => Ok(tool_result(texts)),
        Err(e) => Err(e),
    }
}

/// The string argument `key` of a call, or the error that says it is missing.
pub fn required_str<'a>(args: &'a Json, key: &str) -> (r: Result<&'a str, ToolError>)
    ensures
        match r {
            Ok(s) => args@.str_field(key@) == Some(s@),
            Err(e) => args@.str_field(key@) is None && e@ == missing_parameter(key@),
        },
{
    match args.str_field(key) {
        Some(s) => Ok(s),
        None => Err(ToolError::invalid_params(join3("Missing ", key, " parameter"))),
    }
}

/// Runs an action on the arguments of a call.
pub fn run_tool(action: ToolAction, folders: &Vec<String>, args: &Json) -> (r: Result<
    Json,
    ToolError,
>)
    ensures
        match r {
            Ok(j) => tool_outcome(action, strings_view(folders@), args@) == Ok::<
                JsonValue,
                ToolErrorView,
            >(j@),
            Err(e) => tool_outcome(action, strings_view(folders@), args@) == Err::<
                JsonValue,
                ToolErrorView,
            >(e@),
        },
{
    let texts = match action {
        ToolAction::OpenFile => {
            let path = required_str(args, "filePath")?;
            let front = match args.bool_field("makeFrontmost") {
                Some(b) => b,
                None => true,
            };
            open_file(path, front)
        },
        ToolAction::GetCurrentSelection => no_selection("No active editor found"),
        ToolAction::GetLatestSelection => no_selection("No selection available"),
        ToolAction::GetOpenEditors => open_editors(),
        ToolAction::GetWorkspaceFolders => workspace_folders(folders),
        ToolAction::OpenDiff => {
            let _old = required_str(args, "old_file_path")?;
            let _new = required_str(args, "new_file_path")?;
            let contents = required_str(args, "new_file_contents")?;
            let _tab = required_str(args, "tab_name")?;
            open_diff(contents)
        },
        ToolAction::CloseAllDiffTabs => close_all_diff_tabs(),
        ToolAction::CloseTab => {
            let _tab = required_str(args, "tab_name")?;
            close_tab()
        },
        ToolAction::GetDiagnostics => diagnostics(args.str_field("uri")),
        ToolAction::CheckDocumentDirty => {
            let path = required_str(args, "filePath")?;
            check_document_dirty(path)
        },
        ToolAction::SaveDocument => {
            let path = required_str(args, "filePath")?;
            save_document(path)
        },
        ToolAction::ExecuteCode => {
            let code = required_str(args, "code")?;
            execute_code(code)
        },
    };
    Ok(tool_result_of(&texts))
}

impl ToolAction {
    /// The name under which the tool is called.
    pub open spec fn spec_name(self) -> Seq<char> {
        match self {
            ToolAction::OpenFile => "openFile"@,
            ToolAction::GetCurrentSelection => "getCurrentSelection"@,
            ToolAction::GetLatestSelection => "getLatestSelection"@,
            ToolAction::GetOpenEditors => "getOpenEditors"@,
            ToolAction::GetWorkspaceFolders => "getWorkspaceFolders"@,
            ToolAction::OpenDiff => "openDiff"@,
            ToolAction::CloseAllDiffTabs => "closeAllDiffTabs"@,
            ToolAction::CloseTab => "close_tab"@,
            ToolAction::GetDiagnostics => "getDiagnostics"@,
            ToolAction::CheckDocumentDirty => "checkDocumentDirty"@,
            ToolAction::SaveDocument => "saveDocument"@,
            ToolAction::ExecuteCode => "executeCode"@,
        }
    }

    /// What the tool list says of the tool.
    pub open spec fn spec_description(self) -> Seq<char> {
        match self {
            ToolAction::OpenFile => "Opens a file in the editor"@,
            ToolAction::GetCurrentSelection => "Gets the current text selection in the editor"@,
            ToolAction::GetLatestSelection => "Gets the last known text selection"@,
            ToolAction::GetOpenEditors => "Gets a list of currently open editors"@,
            ToolAction::GetWorkspaceFolders => "Gets the current workspace folders"@,
            ToolAction::OpenDiff => "Opens a diff view for a file"@,
            ToolAction::CloseAllDiffTabs => "Closes all diff tabs in the editor"@,
            ToolAction::CloseTab => "Closes a tab in the editor"@,
            ToolAction::GetDiagnostics => "Gets diagnostics for the current workspace"@,
            ToolAction::CheckDocumentDirty => "Checks if a document has unsaved changes"@,
            ToolAction::SaveDocument => "Saves a document"@,
            ToolAction::ExecuteCode => "Executes code in the terminal"@,
        }
    }

    /// The arguments that the tool knows, each with its JSON type.
    pub open spec fn spec_properties(self) -> Seq<(Seq<char>, Seq<char>)> {
        match self {
            ToolAction::OpenFile => seq![
                ("filePath"@, "string"@),
                ("preview"@, "boolean"@),
                ("startText"@, "string"@),
                ("endText"@, "string"@),
                ("makeFrontmost"@, "boolean"@),
            ],
            ToolAction::OpenDiff => seq![
                ("old_file_path"@, "string"@),
                ("new_file_path"@, "string"@),
                ("new_file_contents"@, "string"@),
                ("tab_name"@, "string"@),
            ],
            ToolAction::CloseTab => seq![("tab_name"@, "string"@)],
            ToolAction::GetDiagnostics => seq![("uri"@, "string"@)],
            ToolAction::CheckDocumentDirty => seq![("filePath"@, "string"@)],
            ToolAction::SaveDocument => seq![("filePath"@, "string"@)],
            ToolAction::ExecuteCode => seq![("code"@, "string"@)],
            _ => Seq::empty(),
        }
    }

    /// The arguments without which a call is refused.
    pub open spec fn spec_required(self) -> Seq<Seq<char>> {
        match self {
            ToolAction::OpenFile => seq!["filePath"@],
            ToolAction::OpenDiff => seq![
                "old_file_path"@,
                "new_file_path"@,
                "new_file_contents"@,
                "tab_name"@,
            ],
            ToolAction::CloseTab => seq!["tab_name"@],
            ToolAction::CheckDocumentDirty => seq!["filePath"@],
            ToolAction::SaveDocument => seq!["filePath"@],
            ToolAction::ExecuteCode => seq!["code"@],
            _ => Seq::empty(),
        }
    }

    /// The name under which the tool is called.
    pub fn name(self) -> (s: &'static str)
        ensures
            s@ == self.spec_name(),
    {
        match self {
            ToolAction::OpenFile => "openFile",
            ToolAction::GetCurrentSelection => "getCurrentSelection",
            ToolAction::GetLatestSelection => "getLatestSelection",
            ToolAction::GetOpenEditors => "getOpenEditors",
            ToolAction::GetWorkspaceFolders => "getWorkspaceFolders",
            ToolAction::OpenDiff => "openDiff",
            ToolAction::CloseAllDiffTabs => "closeAllDiffTabs",
            ToolAction::CloseTab => "close_tab",
            ToolAction::GetDiagnostics => "getDiagnostics",
            ToolAction::CheckDocumentDirty => "checkDocumentDirty",
            ToolAction::SaveDocument => "saveDocument",
            ToolAction::ExecuteCode => "executeCode",
        }
    }

    /// What the tool list says of the tool.
    pub fn description(self) -> (s: &'static str)
        ensures
            s@ == self.spec_description(),
    {
        match self {
            ToolAction::OpenFile => "Opens a file in the editor",
            ToolAction::GetCurrentSelection => "Gets the current text selection in the editor",
            ToolAction::GetLatestSelection => "Gets the last known text selection",
            ToolAction::GetOpenEditors => "Gets a list of currently open editors",
            ToolAction::GetWorkspaceFolders => "Gets the current workspace folders",
            ToolAction::OpenDiff => "Opens a diff view for a file",
            ToolAction::CloseAllDiffTabs => "Closes all diff tabs in the editor",
            ToolAction::CloseTab => "Closes a tab in the editor",
            ToolAction::GetDiagnostics => "Gets diagnostics for the current workspace",
            ToolAction::CheckDocumentDirty => "Checks if a document has unsaved changes",
            ToolAction::SaveDocument => "Saves a document",
            ToolAction::ExecuteCode => "Executes code in the terminal",
        }
    }
}

/// The schema of one argument: its JSON type.
pub open spec fn property_value(kind: Seq<char>) -> JsonValue {
    JsonValue::Object(seq![("type"@, JsonValue::Str(kind))])
}

/// The JSON Schema of a tool's arguments: an object with the given properties,
/// of which the required ones are listed.
pub open spec fn input_schema_value(
    properties: Seq<(Seq<char>, Seq<char>)>,
    required: Seq<Seq<char>>,
) -> JsonValue {
    JsonValue::Object(
        seq![
            ("type"@, JsonValue::Str("object"@)),
            (
                "properties"@,
                JsonValue::Object(
                    Seq::new(
                        properties.len(),
                        |i: int| (properties[i].0, property_value(properties[i].1)),
                    ),
                ),
            ),
            ("required"@, JsonValue::Array(Seq::new(required.len(), |i: int| JsonValue::Str(required[i])))),
        ],
    )
}

/// A standard tool as the registry holds it.
pub open spec fn standard_tool(action: ToolAction) -> ToolView {
    ToolView {
        schema: ToolSchemaView {
            name: action.spec_name(),
            description: action.spec_description(),
            input_schema: input_schema_value(action.spec_properties(), action.spec_required()),
        },
        handler: action,
        requires_async: false,
    }
}

/// The standard tools, in the order in which they are listed.
pub open spec fn standard_actions() -> Seq<ToolAction> {
    seq![
        ToolAction::OpenFile,
        ToolAction::GetCurrentSelection,
        ToolAction::GetLatestSelection,
        ToolAction::GetOpenEditors,
        ToolAction::GetWorkspaceFolders,
        ToolAction::OpenDiff,
        ToolAction::CloseAllDiffTabs,
        ToolAction::CloseTab,
        ToolAction::GetDiagnostics,
        ToolAction::CheckDocumentDirty,
        ToolAction::SaveDocument,
        ToolAction::ExecuteCode,
    ]
}

/// The contents of the default registry.
pub open spec fn standard_tools() -> Seq<ToolView> {
    Seq::new(standard_actions().len(), |i: int| standard_tool(standard_actions()[i]))
}

fn add_property(properties: &mut Vec<(String, Json)>, name: &str, kind: &str)
    ensures
        entries_view(final(properties)@) == entries_view(old(properties)@).push(
            (name@, property_value(kind@)),
        ),
{
    let mut e: Vec<(String, Json)> = Vec::new();
    push_entry(&mut e, "type", Json::string(kind));
    assert(entries_view(e@) =~= property_value(kind@)->Object_0);
    push_entry(properties, name, Json::object(e));
}

fn add_required(required: &mut Vec<Json>, name: &str)
    ensures
        items_view(final(required)@) == items_view(old(required)@).push(JsonValue::Str(name@)),
{
    push_item(required, Json::string(name));
}

/// The JSON Schema of the arguments of a standard tool.
pub fn input_schema(action: ToolAction) -> (j: Json)
    ensures
        j@ == input_schema_value(action.spec_properties(), action.spec_required()),
{
    let mut p: Vec<(String, Json)> = Vec::new();
    let mut r: Vec<Json> = Vec::new();
    match action {
        ToolAction::OpenFile => {
            add_property(&mut p, "filePath", "string");
            add_property(&mut p, "preview", "boolean");
            add_property(&mut p, "startText", "string");
            add_property(&mut p, "endText", "string");
            add_property(&mut p, "makeFrontmost", "boolean");
            add_required(&mut r, "filePath");
        },
        ToolAction::OpenDiff => {
            add_property(&mut p, "old_file_path", "string");
            add_property(&mut p, "new_file_path", "string");
            add_property(&mut p, "new_file_contents", "string");
            add_property(&mut p, "tab_name", "string");
            add_required(&mut r, "old_file_path");
            add_required(&mut r, "new_file_path");
            add_required(&mut r, "new_file_contents");
            add_required(&mut r, "tab_name");
        },
        ToolAction::CloseTab => {
            add_property(&mut p, "tab_name", "string");
            add_required(&mut r, "tab_name");
        },
        ToolAction::GetDiagnostics => {
            add_property(&mut p, "uri", "string");
        },
        ToolAction::CheckDocumentDirty => {
            add_property(&mut p, "filePath", "string");
            add_required(&mut r, "filePath");
        },
        ToolAction::SaveDocument => {
            add_property(&mut p, "filePath", "string");
            add_required(&mut r, "filePath");
        },
        ToolAction::ExecuteCode => {
            add_property(&mut p, "code", "string");
            add_required(&mut r, "code");
        },
        _ => {},
    }
    let ghost properties = action.spec_properties();
    let ghost required = action.spec_required();
    assert(entries_view(p@) =~= Seq::new(
        properties.len(),
        |i: int| (properties[i].0, property_value(properties[i].1)),
    ));
    assert(items_view(r@) =~= Seq::new(required.len(), |i: int| JsonValue::Str(required[i])));
    let mut e: Vec<(String, Json)> = Vec::new();
    push_entry(&mut e, "type", Json::string("object"));
    push_entry(&mut e, "properties", Json::object(p));
    push_entry(&mut e, "required", Json::array(r));
    assert(entries_view(e@) =~= input_schema_value(properties, required)->Object_0);
    Json::object(e)
}

/// A standard tool as the registry holds it.
pub fn standard_handler(action: ToolAction) -> (h: ToolHandler)
    ensures
        h@ == standard_tool(action),
{
    ToolHandler {
        schema: ToolSchema {
            name: String::from_str(action.name()),
            description: String::from_str(action.description()),
            input_schema: input_schema(action),
        },
        handler: action,
        requires_async: false,
    }
}

/// The views of a sequence of tools.
pub open spec fn handlers_view(tools: Seq<ToolHandler>) -> Seq<ToolView> {
    Seq::new(tools.len(), |i: int| tools[i]@)
}

/// The views of a sequence of schemas.
pub open spec fn schemas_view(schemas: Seq<ToolSchema>) -> Seq<ToolSchemaView> {
    Seq::new(schemas.len(), |i: int| schemas[i]@)
}

/// No two tools have one name.
pub open spec fn distinct_names(tools: Seq<ToolView>) -> bool {
    forall|i: int, j: int|
        0 <= i < j < tools.len() ==> (#[trigger] tools[i]).schema.name != (
        #[trigger] tools[j]).schema.name
}

/// The tool `i` has the name `name`.
pub open spec fn named_at(tools: Seq<ToolView>, name: Seq<char>, i: int) -> bool {
    0 <= i < tools.len() && tools[i].schema.name == name
}

/// The place of the tool with the given name.
pub open spec fn index_of_tool(tools: Seq<ToolView>, name: Seq<char>) -> Option<int> {
    if exists|i: int| named_at(tools, name, i) {
        Some(choose|i: int| named_at(tools, name, i))
    } else {
        None
    }
}

/// The tools after one more was registered: it takes the place of the tool
/// with its name, or the last place if there was none.
pub open spec fn registered(tools: Seq<ToolView>, tool: ToolView) -> Seq<ToolView> {
    match index_of_tool(tools, tool.schema.name) {
        Some(i) => tools.update(i, tool),
        None => tools.push(tool),
    }
}

/// The schemas of the tools, in order.
pub open spec fn listed(tools: Seq<ToolView>) -> Seq<ToolSchemaView> {
    Seq::new(tools.len(), |i: int| tools[i].schema)
}

/// Among tools with distinct names, a name leads to the one tool that has it.
pub proof fn lemma_index_of_tool(tools: Seq<ToolView>, name: Seq<char>, i: int)
    requires
        distinct_names(tools),
        named_at(tools, name, i),
    ensures
        index_of_tool(tools, name) == Some(i),
{
    let c = choose|c: int| named_at(tools, name, c);
    if c < i {
        assert(tools[c].schema.name != tools[i].schema.name);
    } else if i < c {
        assert(tools[i].schema.name != tools[c].schema.name);
    }
}

/// Every listed tool is found under its name.
pub proof fn lemma_listed_tool_is_found(tools: Seq<ToolView>, i: int)
    requires
        distinct_names(tools),
        0 <= i < tools.len(),
    ensures
        index_of_tool(tools, listed(tools)[i].name) == Some(i),
{
    lemma_index_of_tool(tools, tools[i].schema.name, i);
}

/// Registering keeps the names distinct, puts the tool under its name and
/// leaves every other name as it was.
pub proof fn lemma_registered(tools: Seq<ToolView>, tool: ToolView)
    requires
        distinct_names(tools),
    ensures
        distinct_names(registered(tools, tool)),
        index_of_tool(registered(tools, tool), tool.schema.name) is Some,
        registered(tools, tool)[index_of_tool(registered(tools, tool), tool.schema.name)->0]
            == tool,
        forall|name: Seq<char>|
            name != tool.schema.name ==> (#[trigger] index_of_tool(registered(tools, tool), name)
                == index_of_tool(tools, name)),
        forall|name: Seq<char>|
            name != tool.schema.name && index_of_tool(tools, name) is Some ==> registered(
                tools,
                tool,
            )[(#[trigger] index_of_tool(tools, name))->0] == tools[index_of_tool(tools, name)->0],
{
    let after = registered(tools, tool);
    let at = match index_of_tool(tools, tool.schema.name) {
        Some(i) => i,
        None => tools.len() as int,
    };
    assert(named_at(after, tool.schema.name, at));
    assert(distinct_names(after)) by {
        assert forall|i: int, j: int| 0 <= i < j < after.len() implies after[i].schema.name
            != after[j].schema.name by {
            if i == at {
                if index_of_tool(tools, tool.schema.name) is Some {
                    assert(tools[at].schema.name != tools[j].schema.name);
                }
            } else if j == at {
                if index_of_tool(tools, tool.schema.name) is Some {
                    assert(tools[i].schema.name != tools[at].schema.name);
                } else {
                    assert(!named_at(tools, tool.schema.name, i));
                }
            } else {
                assert(tools[i].schema.name != tools[j].schema.name);
            }
        }
    }
    lemma_index_of_tool(after, tool.schema.name, at);
    assert forall|name: Seq<char>| name != tool.schema.name implies #[trigger] index_of_tool(
        after,
        name,
    ) == index_of_tool(tools, name) by {
        if exists|i: int| named_at(tools, name, i) {
            let i = choose|i: int| named_at(tools, name, i);
            assert(named_at(after, name, i));
            lemma_index_of_tool(after, name, i);
        } else {
            assert forall|i: int| !named_at(after, name, i) by {
                if 0 <= i < tools.len() {
                    assert(!named_at(tools, name, i));
                }
            }
        }
    }
}

/// A register of tools by name.
pub struct ToolRegistry {
    tools: Vec<ToolHandler>,
    workspace_folders: Vec<String>,
}

impl ToolRegistry {
    #[verifier::type_invariant]
    spec fn names_are_distinct(self) -> bool {
        distinct_names(handlers_view(self.tools@))
    }

    /// The tools, in the order in which their names were first registered.
    pub closed spec fn tools(&self) -> Seq<ToolView> {
        handlers_view(self.tools@)
    }

    /// The workspace folders that the tools answer with.
    pub closed spec fn folders(&self) -> Seq<Seq<char>> {
        strings_view(self.workspace_folders@)
    }

    /// A registry without tools and without workspace folders.
    pub fn new() -> (r: ToolRegistry)
        ensures
            r.tools() == Seq::<ToolView>::empty(),
            r.folders() == Seq::<Seq<char>>::empty(),
    {
        let r = ToolRegistry { tools: Vec::new(), workspace_folders: Vec::new() };
        assert(r.tools() =~= Seq::<ToolView>::empty());
        assert(r.folders() =~= Seq::<Seq<char>>::empty());
        r
    }

    /// A registry without tools whose tools will answer with the given
    /// workspace folders.
    pub fn with_workspace_folders(workspace_folders: Vec<String>) -> (r: ToolRegistry)
        ensures
            r.tools() == Seq::<ToolView>::empty(),
            r.folders() == strings_view(workspace_folders@),
    {
        let r = ToolRegistry { tools: Vec::new(), workspace_folders };
        assert(r.tools() =~= Seq::<ToolView>::empty());
        r
    }

    fn find(&self, name: &str) -> (r: Option<usize>)
        ensures
            match r {
                Some(i) => i < self.tools@.len() && index_of_tool(self.tools(), name@) == Some(
                    i as int,
                ),
                None => index_of_tool(self.tools(), name@) is None,
            },
            distinct_names(self.tools()),
    {
        proof {
            use_type_invariant(self);
        }
        let mut i: usize = 0;
        while i < self.tools.len()
            invariant
                i <= self.tools@.len(),
                distinct_names(self.tools()),
                forall|k: int| 0 <= k < i ==> !named_at(self.tools(), name@, k),
            decreases self.tools@.len() - i,
        {
            if str_eq(self.tools[i].schema.name.as_str(), name) {
                proof {
                    assert(named_at(self.tools(), name@, i as int));
                    lemma_index_of_tool(self.tools(), name@, i as int);
                }
                return Some(i);
            }
            i = i + 1;
        }
        None
    }

    /// Puts a tool under its name; a tool that had the name is replaced.
    pub fn register_tool(&mut self, handler: ToolHandler)
        ensures
            final(self).tools() == registered(old(self).tools(), handler@),
            final(self).folders() == old(self).folders(),
            distinct_names(final(self).tools()),
    {
        let found = self.find(handler.schema.name.as_str());
        proof {
            lemma_registered(self.tools(), handler@);
        }
        let ghost before = self.tools();
        let ghost tool = handler@;
        let mut taken = ToolRegistry::new();
        std::mem::swap(self, &mut taken);
        let ToolRegistry { tools, workspace_folders } = taken;
        let mut tools = tools;
        match found {
            Some(i) => {
                tools.set(i, handler);
                assert(handlers_view(tools@) =~= before.update(i as int, tool));
            },
            None => {
                tools.push(handler);
                assert(handlers_view(tools@) =~= before.push(tool));
            },
        }
        *self = ToolRegistry { tools, workspace_folders };
    }

    /// The schemas of the tools, in order. No two of them have one name.
    pub fn get_tool_list(&self) -> (list: Vec<ToolSchema>)
        ensures
            schemas_view(list@) == listed(self.tools()),
            distinct_names(self.tools()),
    {
        proof {
            use_type_invariant(self);
        }
        let mut list: Vec<ToolSchema> = Vec::new();
        let mut i: usize = 0;
        while i < self.tools.len()
            invariant
                i <= self.tools@.len(),
                list@.len() == i,
                forall|k: int| 0 <= k < i ==> list@[k]@ == self.tools@[k]@.schema,
            decreases self.tools@.len() - i,
        {
            list.push(self.tools[i].schema.clone());
            i = i + 1;
        }
        assert(schemas_view(list@) =~= listed(self.tools()));
        list
    }

    /// Runs the tool with the given name on the arguments. A name that no
    /// tool has gives the not-found error; otherwise the outcome is that of
    /// the tool's action.
    pub fn call_tool(&self, name: &str, args: &Json) -> (r: Result<Json, ToolError>)
        ensures
            match r {
                Ok(j) => call_outcome(self.tools(), self.folders(), name@, args@) == Ok::<
                    JsonValue,
                    ToolErrorView,
                >(j@),
                Err(e) => call_outcome(self.tools(), self.folders(), name@, args@) == Err::<
                    JsonValue,
                    ToolErrorView,
                >(e@),
            },
    {
        match self.find(name) {
            Some(i) => run_tool(self.tools[i].handler, &self.workspace_folders, args),
            None => Err(ToolError::not_found(String::from_str(name))),
        }
    }

    /// Whether a tool has the given name.
    pub fn has_tool(&self, name: &str) -> (b: bool)
        ensures
            b == (index_of_tool(self.tools(), name@) is Some),
    {
        self.find(name).is_some()
    }
}

/// What a call of `name` returns from a registry of the given tools.
pub open spec fn call_outcome(
    tools: Seq<ToolView>,
    folders: Seq<Seq<char>>,
    name: Seq<char>,
    args: JsonValue,
) -> Result<JsonValue, ToolErrorView> {
    match index_of_tool(tools, name) {
        Some(i) => tool_outcome(tools[i].handler, folders, args),
        None => Err(tool_not_found(name)),
    }
}

/// The names of the standard tools differ from one another.
pub proof fn lemma_standard_names_distinct()
    ensures
        distinct_names(standard_tools()),
{
    reveal_strlit("openFile");
    reveal_strlit("getCurrentSelection");
    reveal_strlit("getLatestSelection");
    reveal_strlit("getOpenEditors");
    reveal_strlit("getWorkspaceFolders");
    reveal_strlit("openDiff");
    reveal_strlit("closeAllDiffTabs");
    reveal_strlit("close_tab");
    reveal_strlit("getDiagnostics");
    reveal_strlit("checkDocumentDirty");
    reveal_strlit("saveDocument");
    reveal_strlit("executeCode");
    let names = Seq::new(12, |i: int| standard_actions()[i].spec_name());
    assert forall|i: int, j: int| 0 <= i < j < 12 implies names[i] != names[j] by {
        if names[i].len() == names[j].len() {
            assert(names[i][0] != names[j][0] || names[i][3] != names[j][3] || names[i][4]
                != names[j][4]);
        }
    }
    assert forall|i: int, j: int| 0 <= i < j < standard_tools().len() implies (
    #[trigger] standard_tools()[i]).schema.name != (#[trigger] standard_tools()[j]).schema.name by {
        assert(standard_tools()[i].schema.name == names[i]);
        assert(standard_tools()[j].schema.name == names[j]);
    }
}

/// The registry of the standard tools, which answer with the given workspace
/// folders.
pub fn create_default_registry(workspace_folders: Vec<String>) -> (r: ToolRegistry)
    ensures
        r.tools() == standard_tools(),
        r.folders() == strings_view(workspace_folders@),
{
    let mut tools: Vec<ToolHandler> = Vec::new();
    tools.push(standard_handler(ToolAction::OpenFile));
    tools.push(standard_handler(ToolAction::GetCurrentSelection));
    tools.push(standard_handler(ToolAction::GetLatestSelection));
    tools.push(standard_handler(ToolAction::GetOpenEditors));
    tools.push(standard_handler(ToolAction::GetWorkspaceFolders));
    tools.push(standard_handler(ToolAction::OpenDiff));
    tools.push(standard_handler(ToolAction::CloseAllDiffTabs));
    tools.push(standard_handler(ToolAction::CloseTab));
    tools.push(standard_handler(ToolAction::GetDiagnostics));
    tools.push(standard_handler(ToolAction::CheckDocumentDirty));
    tools.push(standard_handler(ToolAction::SaveDocument));
    tools.push(standard_handler(ToolAction::ExecuteCode));
    proof {
        lemma_standard_names_distinct();
        assert(handlers_view(tools@) =~= standard_tools());
    }
    ToolRegistry { tools, workspace_folders }
}

} // verus!
