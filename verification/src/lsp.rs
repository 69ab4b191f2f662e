//! The editor endpoint: what it announces, and the notifications that it
//! derives from the editor's requests. Reading files and talking to the editor
//! are left to the caller; what is said is decided here.
use crate::json::{entries_view, items_view, push_entry, Json, JsonValue};
use crate::selection::{read_text_from_range, selected_text, split_lines, Position, Range};
use crate::text::{
    chars_of, join, join3, decimal, decimal_string, push_string, str_eq, string_of,
    strings_view,
};
use vstd::prelude::*;
use vstd::string::*;

verus! {

/// The method of the notification about a selection.
pub const SELECTION_CHANGED: &'static str = "selection_changed";

/// The method of the notification about a mention.
pub const AT_MENTIONED: &'static str = "at_mentioned";

/// The character that triggers completion.
pub const TRIGGER_CHARACTER: &'static str = "@";

/// The version that the endpoint reports of itself.
pub const LANGUAGE_SERVER_VERSION: &'static str = "0.1.0";

/// The selection of a notification: where it starts and ends, and whether it
/// counts as empty.
#[derive(Debug, Clone, Copy, PartialEq, Eq, Structural)]
pub struct SelectionInfo {
    pub start: Position,
    pub end: Position,
    pub is_empty: bool,
}

/// The mathematical value of a [`SelectionChangedNotification`].
pub struct SelectionChangedView {
    pub text: Seq<char>,
    pub file_path: Seq<char>,
    pub file_url: Seq<char>,
    pub selection: SelectionInfo,
}

/// The parameters of `selection_changed`.
#[derive(Debug, Clone, PartialEq, Eq)]
pub struct SelectionChangedNotification {
    pub text: String,
    pub file_path: String,
    pub file_url: String,
    pub selection: SelectionInfo,
}

impl View for SelectionChangedNotification {
    type V = SelectionChangedView;

    open spec fn view(&self) -> SelectionChangedView {
        SelectionChangedView {
            text: self.text@,
            file_path: self.file_path@,
            file_url: self.file_url@,
            selection: self.selection,
        }
    }
}

/// The mathematical value of an [`AtMentionedNotification`].
pub struct AtMentionedView {
    pub file_path: Seq<char>,
    pub line_start: u32,
    pub line_end: u32,
}

/// The parameters of `at_mentioned`.
#[derive(Debug, Clone, PartialEq, Eq)]
pub struct AtMentionedNotification {
    pub file_path: String,
    pub line_start: u32,
    pub line_end: u32,
}

impl View for AtMentionedNotification {
    type V = AtMentionedView;

    open spec fn view(&self) -> AtMentionedView {
        AtMentionedView {
            file_path: self.file_path@,
            line_start: self.line_start,
            line_end: self.line_end,
        }
    }
}

/// The mathematical value of a [`JsonRpcNotification`].
pub struct NotificationView {
    pub jsonrpc: Seq<char>,
    pub method: Seq<char>,
    pub params: JsonValue,
}

/// A notification that the editor endpoint puts on the bus.
#[derive(Debug, PartialEq, Eq)]
pub struct JsonRpcNotification {
    pub jsonrpc: String,
    pub method: String,
    pub params: Json,
}

impl View for JsonRpcNotification {
    type V = NotificationView;

    open spec fn view(&self) -> NotificationView {
        NotificationView { jsonrpc: self.jsonrpc@, method: self.method@, params: self.params@ }
    }
}

impl Clone for JsonRpcNotification {
    fn clone(&self) -> (r: JsonRpcNotification)
        ensures
            r@ == self@,
    {
        JsonRpcNotification {
            jsonrpc: self.jsonrpc.clone(),
            method: self.method.clone(),
            params: self.params.clone(),
        }
    }
}

/// A notification as a JSON object.
pub open spec fn notification_value(n: NotificationView) -> JsonValue {
    JsonValue::Object(
        seq![
            ("jsonrpc"@, JsonValue::Str(n.jsonrpc)),
            ("method"@, JsonValue::Str(n.method)),
            ("params"@, n.params),
        ],
    )
}

impl JsonRpcNotification {
    /// The notification as a JSON object.
    pub fn to_json(&self) -> (j: Json)
        ensures
            j@ == notification_value(self@),
    {
        let mut e: Vec<(String, Json)> = Vec::new();
        push_entry(&mut e, "jsonrpc", Json::string(self.jsonrpc.as_str()));
        push_entry(&mut e, "method", Json::string(self.method.as_str()));
        push_entry(&mut e, "params", self.params.clone());
        assert(entries_view(e@) =~= notification_value(self@)->Object_0);
        Json::object(e)
    }

    /// The notification as the text of one frame, as every peer gets it.
    pub fn to_text(&self) -> (s: String)
        ensures
            s@ == crate::json::json_text(notification_value(self@)),
    {
        self.to_json().to_text()
    }
}

/// How many notifications the bus holds for a peer that falls behind; older
/// ones are dropped.
pub const NOTIFICATION_BUS_CAPACITY: usize = 1024;

/// A position as a JSON object.
pub open spec fn position_value(p: Position) -> JsonValue {
    JsonValue::Object(
        seq![
            ("line"@, JsonValue::Num(p.line as int)),
            ("character"@, JsonValue::Num(p.character as int)),
        ],
    )
}

/// A range as a JSON object.
pub open spec fn range_value(r: Range) -> JsonValue {
    JsonValue::Object(seq![("start"@, position_value(r.start)), ("end"@, position_value(r.end))])
}

/// The parameters of `selection_changed` as a JSON object.
pub open spec fn selection_changed_value(n: SelectionChangedView) -> JsonValue {
    JsonValue::Object(
        seq![
            ("text"@, JsonValue::Str(n.text)),
            ("filePath"@, JsonValue::Str(n.file_path)),
            ("fileUrl"@, JsonValue::Str(n.file_url)),
            (
                "selection"@,
                JsonValue::Object(
                    seq![
                        ("start"@, position_value(n.selection.start)),
                        ("end"@, position_value(n.selection.end)),
                        ("isEmpty"@, JsonValue::Bool(n.selection.is_empty)),
                    ],
                ),
            ),
        ],
    )
}

/// The parameters of `at_mentioned` as a JSON object.
pub open spec fn at_mentioned_value(n: AtMentionedView) -> JsonValue {
    JsonValue::Object(
        seq![
            ("filePath"@, JsonValue::Str(n.file_path)),
            ("lineStart"@, JsonValue::Num(n.line_start as int)),
            ("lineEnd"@, JsonValue::Num(n.line_end as int)),
        ],
    )
}

/// A position as a JSON object.
pub fn position_json(p: Position) -> (j: Json)
    ensures
        j@ == position_value(p),
{
    let mut e: Vec<(String, Json)> = Vec::new();
    push_entry(&mut e, "line", Json::UInt(p.line as u64));
    push_entry(&mut e, "character", Json::UInt(p.character as u64));
    assert(entries_view(e@) =~= position_value(p)->Object_0);
    Json::object(e)
}

/// A range as a JSON object.
pub fn range_json(r: Range) -> (j: Json)
    ensures
        j@ == range_value(r),
{
    let mut e: Vec<(String, Json)> = Vec::new();
    push_entry(&mut e, "start", position_json(r.start));
    push_entry(&mut e, "end", position_json(r.end));
    assert(entries_view(e@) =~= range_value(r)->Object_0);
    Json::object(e)
}

impl SelectionChangedNotification {
    /// The parameters as a JSON object.
    pub fn to_json(&self) -> (j: Json)
        ensures
            j@ == selection_changed_value(self@),
    {
        let mut s: Vec<(String, Json)> = Vec::new();
        push_entry(&mut s, "start", position_json(self.selection.start));
        push_entry(&mut s, "end", position_json(self.selection.end));
        push_entry(&mut s, "isEmpty", Json::Bool(self.selection.is_empty));
        assert(entries_view(s@) =~= seq![
            ("start"@, position_value(self.selection.start)),
            ("end"@, position_value(self.selection.end)),
            ("isEmpty"@, JsonValue::Bool(self.selection.is_empty)),
        ]);
        let mut e: Vec<(String, Json)> = Vec::new();
        push_entry(&mut e, "text", Json::string(self.text.as_str()));
        push_entry(&mut e, "filePath", Json::string(self.file_path.as_str()));
        push_entry(&mut e, "fileUrl", Json::string(self.file_url.as_str()));
        push_entry(&mut e, "selection", Json::object(s));
        assert(entries_view(e@) =~= selection_changed_value(self@)->Object_0);
        Json::object(e)
    }
}

impl AtMentionedNotification {
    /// The parameters as a JSON object.
    pub fn to_json(&self) -> (j: Json)
        ensures
            j@ == at_mentioned_value(self@),
    {
        let mut e: Vec<(String, Json)> = Vec::new();
        push_entry(&mut e, "filePath", Json::string(self.file_path.as_str()));
        push_entry(&mut e, "lineStart", Json::UInt(self.line_start as u64));
        push_entry(&mut e, "lineEnd", Json::UInt(self.line_end as u64));
        assert(entries_view(e@) =~= at_mentioned_value(self@)->Object_0);
        Json::object(e)
    }
}

/// The text that a selection notification carries: what the range selects in
/// the file, under UTF-16 positions, or nothing where the file could not be
/// read.
pub open spec fn selection_text(content: Option<Seq<char>>, range: Range) -> Seq<char> {
    match content {
        Some(c) => selected_text(split_lines(c), range),
        None => Seq::empty(),
    }
}

/// The view of a text that may be absent.
pub open spec fn content_view(content: Option<&str>) -> Option<Seq<char>> {
    match content {
        Some(c) => Some(c@),
        None => None,
    }
}

/// The notification about the selection `range` in a file. `content` is the
/// text of the file, or `None` where it could not be read.
pub fn selection_changed(
    content: Option<&str>,
    file_path: &str,
    file_url: &str,
    range: Range,
    is_empty: bool,
) -> (n: SelectionChangedNotification)
    ensures
        n@ == (SelectionChangedView {
            text: selection_text(content_view(content), range),
            file_path: file_path@,
            file_url: file_url@,
            selection: SelectionInfo { start: range.start, end: range.end, is_empty },
        }),
{
    let text = match content {
        Some(c) => read_text_from_range(c, range),
        None => String::new(),
    };
    SelectionChangedNotification {
        text,
        file_path: String::from_str(file_path),
        file_url: String::from_str(file_url),
        selection: SelectionInfo { start: range.start, end: range.end, is_empty },
    }
}

/// The path of a file without the `file://` that may stand before it.
pub open spec fn local_path(path: Seq<char>) -> Seq<char> {
    if "file://"@.is_prefix_of(path) {
        path.skip("file://"@.len() as int)
    } else {
        path
    }
}

/// The path of a file without the `file://` that may stand before it.
pub fn local_path_of(path: &str) -> (r: String)
    ensures
        r@ == local_path(path@),
{
    let chars = chars_of(path);
    let scheme = chars_of("file://");
    let n = scheme.len();
    if chars.len() >= n && crate::text::range_eq(&chars, 0, n, &scheme) {
        assert(scheme@ =~= chars@.subrange(0, n as int));
        assert(chars@.subrange(n as int, chars@.len() as int) =~= chars@.skip(n as int));
        string_of(&chars, n, chars.len())
    } else {
        assert(!"file://"@.is_prefix_of(path@)) by {
            if "file://"@.is_prefix_of(path@) {
                assert(chars@.subrange(0, n as int) =~= scheme@);
            }
        }
        String::from_str(path)
    }
}

/// The range that a selection-range request stands for: one character from
/// the position on. At the largest position the range is empty.
pub open spec fn range_at(p: Position) -> Range {
    Range {
        start: p,
        end: Position {
            line: p.line,
            character: if p.character < u32::MAX {
                (p.character + 1) as u32
            } else {
                p.character
            },
        },
    }
}

/// The range that a selection-range request stands for.
pub fn range_at_position(p: Position) -> (r: Range)
    ensures
        r == range_at(p),
{
    let character = if p.character < u32::MAX {
        p.character + 1
    } else {
        p.character
    };
    Range { start: p, end: Position { line: p.line, character } }
}

/// The ranges that answer a selection-range request, one for each position.
pub fn selection_ranges(positions: &Vec<Position>) -> (ranges: Vec<Range>)
    ensures
        ranges@ == Seq::new(positions@.len(), |i: int| range_at(positions@[i])),
{
    let mut ranges: Vec<Range> = Vec::new();
    let mut i: usize = 0;
    while i < positions.len()
        invariant
            i <= positions@.len(),
            ranges@ == Seq::new(i as nat, |k: int| range_at(positions@[k])),
        decreases positions@.len() - i,
    {
        ranges.push(range_at_position(positions[i]));
        assert(ranges@ =~= Seq::new((i + 1) as nat, |k: int| range_at(positions@[k])));
        i = i + 1;
    }
    ranges
}

/// How the assistant is called in what the editor shows: its name, the word
/// by which it is mentioned, and the prefix of its commands.
#[derive(Debug, Clone, PartialEq, Eq)]
pub struct Assistant {
    pub name: String,
    pub mention: String,
    pub command_prefix: String,
}

/// The mathematical value of an [`Assistant`].
pub struct AssistantView {
    pub name: Seq<char>,
    pub mention: Seq<char>,
    pub command_prefix: Seq<char>,
}

impl View for Assistant {
    type V = AssistantView;

    open spec fn view(&self) -> AssistantView {
        AssistantView {
            name: self.name@,
            mention: self.mention@,
            command_prefix: self.command_prefix@,
        }
    }
}

/// A command of the editor endpoint.
#[derive(Debug, Clone, Copy, PartialEq, Eq, Structural)]
pub enum Command {
    Explain,
    Improve,
    Fix,
    AtMention,
}

impl Command {
    /// The word of the command, which follows the prefix and a dot.
    pub open spec fn spec_word(self) -> Seq<char> {
        match self {
            Command::Explain => "explain"@,
            Command::Improve => "improve"@,
            Command::Fix => "fix"@,
            Command::AtMention => "at-mention"@,
        }
    }

    /// The word as it stands in messages.
    pub open spec fn spec_title(self) -> Seq<char> {
        match self {
            Command::Explain => "Explain"@,
            Command::Improve => "Improve"@,
            Command::Fix => "Fix"@,
            Command::AtMention => "At-mention"@,
        }
    }

    /// The word of the command.
    pub fn word(self) -> (s: &'static str)
        ensures
            s@ == self.spec_word(),
    {
        match self {
            Command::Explain => "explain",
            Command::Improve => "improve",
            Command::Fix => "fix",
            Command::AtMention => "at-mention",
        }
    }

    /// The word as it stands in messages.
    pub fn title(self) -> (s: &'static str)
        ensures
            s@ == self.spec_title(),
    {
        match self {
            Command::Explain => "Explain",
            Command::Improve => "Improve",
            Command::Fix => "Fix",
            Command::AtMention => "At-mention",
        }
    }
}

/// The identifier of a command: the prefix, a dot and the command's word.
pub open spec fn command_id(prefix: Seq<char>, command: Command) -> Seq<char> {
    prefix + "."@ + command.spec_word()
}

/// The commands that the endpoint announces, in order.
pub open spec fn command_ids(prefix: Seq<char>) -> Seq<Seq<char>> {
    seq![
        command_id(prefix, Command::Explain),
        command_id(prefix, Command::Improve),
        command_id(prefix, Command::Fix),
        command_id(prefix, Command::AtMention),
    ]
}

/// The command that an identifier names, if it names one.
pub open spec fn command_of(prefix: Seq<char>, id: Seq<char>) -> Option<Command> {
    if id == command_id(prefix, Command::Explain) {
        Some(Command::Explain)
    } else if id == command_id(prefix, Command::Improve) {
        Some(Command::Improve)
    } else if id == command_id(prefix, Command::Fix) {
        Some(Command::Fix)
    } else if id == command_id(prefix, Command::AtMention) {
        Some(Command::AtMention)
    } else {
        None
    }
}

/// What the endpoint announces at initialization.
#[derive(Debug, Clone, PartialEq, Eq)]
pub struct EditorCapabilities {
    /// Documents are synchronized by their changes.
    pub incremental_sync: bool,
    pub hover: bool,
    pub completion: bool,
    pub completion_resolve: bool,
    pub trigger_characters: Vec<String>,
    pub selection_range: bool,
    pub definition: bool,
    pub references: bool,
    pub document_symbols: bool,
    pub workspace_symbols: bool,
    pub code_actions: bool,
    pub commands: Vec<String>,
    pub server_name: String,
    pub server_version: String,
}

/// How grave a message to the user is.
#[derive(Debug, Clone, Copy, PartialEq, Eq, Structural)]
pub enum MessageLevel {
    Info,
    Warning,
}

/// What the endpoint does about an execute-command request: the notification
/// that it puts on the bus, and the message that it shows to the user.
#[derive(Debug, PartialEq, Eq)]
pub struct CommandOutcome {
    pub notification: Option<JsonRpcNotification>,
    pub message: Option<(MessageLevel, String)>,
}

/// The mathematical value of a [`CommandOutcome`].
pub struct CommandOutcomeView {
    pub notification: Option<NotificationView>,
    pub message: Option<(MessageLevel, Seq<char>)>,
}

impl View for CommandOutcome {
    type V = CommandOutcomeView;

    open spec fn view(&self) -> CommandOutcomeView {
        CommandOutcomeView {
            notification: match self.notification {
                Some(n) => Some(n@),
                None => None,
            },
            message: match self.message {
                Some((level, text)) => Some((level, text@)),
                None => None,
            },
        }
    }
}

/// A number of 64 bits cut down to its lower 32 bits.
pub open spec fn low_bits(n: u64) -> u32 {
    (n % 0x1_0000_0000) as u32
}

/// The mention that the first argument of the at-mention command stands for.
/// A member that is missing or of another type counts as the empty path or as
/// line zero.
pub open spec fn mention_of(argument: JsonValue) -> AtMentionedView {
    AtMentionedView {
        file_path: match argument.str_field("filePath"@) {
            Some(p) => p,
            None => Seq::empty(),
        },
        line_start: match argument.u64_field("lineStart"@) {
            Some(n) => low_bits(n),
            None => 0,
        },
        line_end: match argument.u64_field("lineEnd"@) {
            Some(n) => low_bits(n),
            None => 0,
        },
    }
}

/// The message that confirms a mention.
pub open spec fn mention_message(m: AtMentionedView) -> Seq<char> {
    "At-mention sent for "@ + m.file_path + ":"@ + decimal(m.line_start as nat) + "-"@ + decimal(
        m.line_end as nat,
    )
}

/// The message about a command that does nothing yet.
pub open spec fn not_implemented_message(assistant: Seq<char>, command: Command) -> Seq<char> {
    assistant + ": "@ + command.spec_title() + " command executed (not yet implemented)"@
}

/// The notification with the given method and parameters.
pub open spec fn notification(method: Seq<char>, params: JsonValue) -> NotificationView {
    NotificationView { jsonrpc: "2.0"@, method, params }
}

/// What the endpoint does about an execute-command request. The at-mention
/// command with an argument publishes the mention, if the endpoint forwards
/// notifications, and confirms it; without an argument it does nothing. The
/// other commands only say that they do nothing yet, and an unknown command
/// is warned of.
pub open spec fn command_outcome(
    assistant: AssistantView,
    forwards: bool,
    id: Seq<char>,
    arguments: Seq<JsonValue>,
) -> CommandOutcomeView {
    match command_of(assistant.command_prefix, id) {
        Some(Command::AtMention) => if arguments.len() == 0 {
            CommandOutcomeView { notification: None, message: None }
        } else {
            CommandOutcomeView {
                notification: if forwards {
                    Some(notification(AT_MENTIONED@, at_mentioned_value(mention_of(arguments[0]))))
                } else {
                    None
                },
                message: Some((MessageLevel::Info, mention_message(mention_of(arguments[0])))),
            }
        },
        Some(command) => CommandOutcomeView {
            notification: None,
            message: Some((MessageLevel::Info, not_implemented_message(assistant.name, command))),
        },
        None => CommandOutcomeView {
            notification: None,
            message: Some((MessageLevel::Warning, "Unknown command: "@ + id)),
        },
    }
}

/// The mathematical value of a [`CompletionEntry`].
pub struct CompletionEntryView {
    pub label: Seq<char>,
    pub detail: Seq<char>,
    pub documentation: Seq<char>,
    pub insert_text: Seq<char>,
}

/// One proposal of the completion list.
#[derive(Debug, Clone, PartialEq, Eq)]
pub struct CompletionEntry {
    pub label: String,
    pub detail: String,
    pub documentation: String,
    pub insert_text: String,
}

impl View for CompletionEntry {
    type V = CompletionEntryView;

    open spec fn view(&self) -> CompletionEntryView {
        CompletionEntryView {
            label: self.label@,
            detail: self.detail@,
            documentation: self.documentation@,
            insert_text: self.insert_text@,
        }
    }
}

/// The proposal to do `verb`: the mention of the assistant and the verb, to
/// be inserted as it is labelled.
pub open spec fn proposal(
    assistant: AssistantView,
    verb: Seq<char>,
    detail: Seq<char>,
    documentation: Seq<char>,
) -> CompletionEntryView {
    CompletionEntryView {
        label: assistant.mention + " "@ + verb,
        detail: detail + assistant.name,
        documentation: "Ask "@ + assistant.name + documentation,
        insert_text: assistant.mention + " "@ + verb,
    }
}

/// The proposals of the completion list: to explain, to improve and to fix.
pub open spec fn proposals(assistant: AssistantView) -> Seq<CompletionEntryView> {
    seq![
        proposal(
            assistant,
            "explain"@,
            "Explain this code with "@,
            " to explain the selected code or current context"@,
        ),
        proposal(
            assistant,
            "improve"@,
            "Improve this code with "@,
            " to suggest improvements for the selected code"@,
        ),
        proposal(
            assistant,
            "fix"@,
            "Fix issues in this code with "@,
            " to identify and fix issues in the selected code"@,
        ),
    ]
}

/// The code action that the endpoint offers for a range.
#[derive(Debug, PartialEq, Eq)]
pub struct CodeAction {
    pub title: String,
    pub kind: String,
    pub is_preferred: bool,
    pub data: Json,
}

/// The data of the code action: what to do, and where.
pub open spec fn code_action_data(uri: Seq<char>, range: Range) -> JsonValue {
    JsonValue::Object(
        seq![
            ("action"@, JsonValue::Str("explain"@)),
            ("uri"@, JsonValue::Str(uri)),
            ("range"@, range_value(range)),
        ],
    )
}

/// The editor endpoint of a server.
#[derive(Debug, Clone, PartialEq, Eq)]
pub struct EditorLanguageServer {
    worktree: Option<String>,
    assistant: Assistant,
    forwards: bool,
}

impl EditorLanguageServer {
    /// The worktree that the endpoint serves.
    pub closed spec fn worktree(&self) -> Option<Seq<char>> {
        match self.worktree {
            Some(w) => Some(w@),
            None => None,
        }
    }

    /// How the endpoint calls the assistant.
    pub closed spec fn assistant(&self) -> AssistantView {
        self.assistant@
    }

    /// Whether the endpoint puts its notifications on a bus.
    pub closed spec fn forwards(&self) -> bool {
        self.forwards
    }

    /// An endpoint that does not forward notifications.
    pub fn new(assistant: Assistant, worktree: Option<String>) -> (server: EditorLanguageServer)
        ensures
            server.assistant() == assistant@,
            server.worktree() == match worktree {
                Some(w) => Some(w@),
                None => None,
            },
            !server.forwards(),
    {
        EditorLanguageServer { worktree, assistant, forwards: false }
    }

    /// The endpoint, which from now on forwards its notifications.
    pub fn with_notification_sender(self) -> (server: EditorLanguageServer)
        ensures
            server.assistant() == self.assistant(),
            server.worktree() == self.worktree(),
            server.forwards(),
    {
        EditorLanguageServer { worktree: self.worktree, assistant: self.assistant, forwards: true }
    }

    /// The notification to put on the bus, if the endpoint forwards
    /// notifications.
    pub fn send_notification(&self, method: &str, params: Json) -> (n: Option<JsonRpcNotification>)
        ensures
            match n {
                Some(n) => self.forwards() && n@ == notification(method@, params@),
                None => !self.forwards(),
            },
    {
        if self.forwards {
            Some(
                JsonRpcNotification {
                    jsonrpc: String::from_str("2.0"),
                    method: String::from_str(method),
                    params,
                },
            )
        } else {
            None
        }
    }

    /// The text that `range` selects in a file; `content` is the text of the
    /// file, or `None` where it could not be read.
    pub fn read_text_from_range(&self, content: Option<&str>, range: Range) -> (text: String)
        ensures
            text@ == selection_text(content_view(content), range),
    {
        match content {
            Some(c) => read_text_from_range(c, range),
            None => String::new(),
        }
    }

    /// What the endpoint announces at initialization.
    pub fn initialize(&self) -> (c: EditorCapabilities)
        ensures
            c.incremental_sync && c.hover && c.completion && !c.completion_resolve
                && c.selection_range && c.definition && c.references && c.document_symbols
                && c.workspace_symbols && c.code_actions,
            strings_view(c.trigger_characters@) == seq![TRIGGER_CHARACTER@],
            strings_view(c.commands@) == command_ids(self.assistant().command_prefix),
            c.server_name@ == self.assistant().name + " Language Server"@,
            c.server_version@ == LANGUAGE_SERVER_VERSION@,
    {
        let prefix = self.assistant.command_prefix.as_str();
        let mut commands: Vec<String> = Vec::new();
        push_string(&mut commands, join3(prefix, ".", Command::Explain.word()));
        push_string(&mut commands, join3(prefix, ".", Command::Improve.word()));
        push_string(&mut commands, join3(prefix, ".", Command::Fix.word()));
        push_string(&mut commands, join3(prefix, ".", Command::AtMention.word()));
        assert(strings_view(commands@) =~= command_ids(prefix@));
        let mut trigger_characters: Vec<String> = Vec::new();
        push_string(&mut trigger_characters, String::from_str(TRIGGER_CHARACTER));
        assert(strings_view(trigger_characters@) =~= seq![TRIGGER_CHARACTER@]);
        EditorCapabilities {
            incremental_sync: true,
            hover: true,
            completion: true,
            completion_resolve: false,
            trigger_characters,
            selection_range: true,
            definition: true,
            references: true,
            document_symbols: true,
            workspace_symbols: true,
            code_actions: true,
            commands,
            server_name: join(self.assistant.name.as_str(), " Language Server"),
            server_version: String::from_str(LANGUAGE_SERVER_VERSION),
        }
    }

    /// The text that the endpoint shows on hover.
    pub fn hover(&self) -> (text: String)
        ensures
            text@ == self.assistant().name + ": AI-powered coding assistance available here"@,
    {
        join(self.assistant.name.as_str(), ": AI-powered coding assistance available here")
    }

    fn completion_entry(&self, verb: &str, detail: &str, documentation: &str) -> (e:
        CompletionEntry)
        ensures
            e@ == proposal(self.assistant(), verb@, detail@, documentation@),
    {
        CompletionEntry {
            label: join3(self.assistant.mention.as_str(), " ", verb),
            detail: join(detail, self.assistant.name.as_str()),
            documentation: join3("Ask ", self.assistant.name.as_str(), documentation),
            insert_text: join3(self.assistant.mention.as_str(), " ", verb),
        }
    }

    /// The proposals of the completion list.
    pub fn completion(&self) -> (entries: Vec<CompletionEntry>)
        ensures
            Seq::new(entries@.len(), |i: int| entries@[i]@) == proposals(self.assistant()),
    {
        let mut entries: Vec<CompletionEntry> = Vec::new();
        entries.push(
            self.completion_entry(
                "explain",
                "Explain this code with ",
                " to explain the selected code or current context",
            ),
        );
        entries.push(
            self.completion_entry(
                "improve",
                "Improve this code with ",
                " to suggest improvements for the selected code",
            ),
        );
        entries.push(
            self.completion_entry(
                "fix",
                "Fix issues in this code with ",
                " to identify and fix issues in the selected code",
            ),
        );
        assert(Seq::new(entries@.len(), |i: int| entries@[i]@) =~= proposals(self.assistant()));
        entries
    }

    /// What the endpoint does about a code-action request for `range`: the
    /// notification about the selection, if the endpoint forwards
    /// notifications, and the action that it offers. The selection counts as
    /// empty where the range starts and ends at one place.
    pub fn code_action(
        &self,
        content: Option<&str>,
        file_path: &str,
        file_url: &str,
        range: Range,
    ) -> (r: (Option<JsonRpcNotification>, CodeAction))
        ensures
            match r.0 {
                Some(n) => self.forwards() && n@ == notification(
                    SELECTION_CHANGED@,
                    selection_changed_value(
                        SelectionChangedView {
                            text: selection_text(content_view(content), range),
                            file_path: file_path@,
                            file_url: file_url@,
                            selection: SelectionInfo {
                                start: range.start,
                                end: range.end,
                                is_empty: range.start == range.end,
                            },
                        },
                    ),
                ),
                None => !self.forwards(),
            },
            r.1.title@ == "Explain with "@ + self.assistant().name,
            r.1.kind@ == "refactor"@,
            !r.1.is_preferred,
            r.1.data@ == code_action_data(file_url@, range),
    {
        let is_empty = range.start.line == range.end.line && range.start.character
            == range.end.character;
        let selection = selection_changed(content, file_path, file_url, range, is_empty);
        let published = self.send_notification(SELECTION_CHANGED, selection.to_json());
        let mut e: Vec<(String, Json)> = Vec::new();
        push_entry(&mut e, "action", Json::string("explain"));
        push_entry(&mut e, "uri", Json::string(file_url));
        push_entry(&mut e, "range", range_json(range));
        assert(entries_view(e@) =~= code_action_data(file_url@, range)->Object_0);
        let action = CodeAction {
            title: join("Explain with ", self.assistant.name.as_str()),
            kind: String::from_str("refactor"),
            is_preferred: false,
            data: Json::object(e),
        };
        (published, action)
    }

    /// What the endpoint does about one position of a selection-range
    /// request: the range that it answers with, and the notification about
    /// the character at the position, if the endpoint forwards notifications.
    pub fn selection_range(
        &self,
        content: Option<&str>,
        file_path: &str,
        file_url: &str,
        position: Position,
    ) -> (r: (Range, Option<JsonRpcNotification>))
        ensures
            r.0 == range_at(position),
            match r.1 {
                Some(n) => self.forwards() && n@ == notification(
                    SELECTION_CHANGED@,
                    selection_changed_value(
                        SelectionChangedView {
                            text: selection_text(content_view(content), range_at(position)),
                            file_path: file_path@,
                            file_url: file_url@,
                            selection: SelectionInfo {
                                start: position,
                                end: range_at(position).end,
                                is_empty: true,
                            },
                        },
                    ),
                ),
                None => !self.forwards(),
            },
    {
        let range = range_at_position(position);
        let selection = selection_changed(content, file_path, file_url, range, true);
        let published = self.send_notification(SELECTION_CHANGED, selection.to_json());
        (range, published)
    }

    /// The command that an identifier names.
    pub fn command(&self, id: &str) -> (c: Option<Command>)
        ensures
            c == command_of(self.assistant().command_prefix, id@),
    {
        let prefix = self.assistant.command_prefix.as_str();
        if str_eq(id, join3(prefix, ".", Command::Explain.word()).as_str()) {
            Some(Command::Explain)
        } else if str_eq(id, join3(prefix, ".", Command::Improve.word()).as_str()) {
            Some(Command::Improve)
        } else if str_eq(id, join3(prefix, ".", Command::Fix.word()).as_str()) {
            Some(Command::Fix)
        } else if str_eq(id, join3(prefix, ".", Command::AtMention.word()).as_str()) {
            Some(Command::AtMention)
        } else {
            None
        }
    }

    /// Decides what the endpoint does about an execute-command request.
    pub fn execute_command(&self, id: &str, arguments: &Vec<Json>) -> (outcome: CommandOutcome)
        ensures
            outcome@ == command_outcome(
                self.assistant(),
                self.forwards(),
                id@,
                items_view(arguments@),
            ),
    {
        match self.command(id) {
            Some(Command::AtMention) => {
                if arguments.len() == 0 {
                    return CommandOutcome { notification: None, message: None };
                }
                let mention = mention_from(&arguments[0]);
                let message = mention_message_of(&mention);
                let notification = self.send_notification(AT_MENTIONED, mention.to_json());
                CommandOutcome { notification, message: Some((MessageLevel::Info, message)) }
            },
            Some(command) => {
                let mut message = join3(self.assistant.name.as_str(), ": ", command.title());
                message.append(" command executed (not yet implemented)");
                CommandOutcome { notification: None, message: Some((MessageLevel::Info, message)) }
            },
            None => CommandOutcome {
                notification: None,
                message: Some((MessageLevel::Warning, join("Unknown command: ", id))),
            },
        }
    }
}

/// The mention that an argument of the at-mention command stands for.
pub fn mention_from(argument: &Json) -> (m: AtMentionedNotification)
    ensures
        m@ == mention_of(argument@),
{
    let file_path = match argument.str_field("filePath") {
        Some(p) => String::from_str(p),
        None => String::new(),
    };
    let line_start = match argument.u64_field("lineStart") {
        Some(n) => (n % 0x1_0000_0000) as u32,
        None => 0,
    };
    let line_end = match argument.u64_field("lineEnd") {
        Some(n) => (n % 0x1_0000_0000) as u32,
        None => 0,
    };
    AtMentionedNotification { file_path, line_start, line_end }
}

/// The message that confirms a mention.
pub fn mention_message_of(m: &AtMentionedNotification) -> (s: String)
    ensures
        s@ == mention_message(m@),
{
    let mut s = join3("At-mention sent for ", m.file_path.as_str(), ":");
    s.append(decimal_string(m.line_start as u64).as_str());
    s.append("-");
    s.append(decimal_string(m.line_end as u64).as_str());
    s
}

} // verus!
