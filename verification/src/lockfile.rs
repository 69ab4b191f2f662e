//! The lock file by which a peer finds a running server: its name, what it
//! says, and when it is written and removed. Writing and removing are left to
//! the caller; what is written is decided here.
use crate::handshake::{handshake_outcome, header_value};
use crate::json::{
    entries_view, items_view, json_pretty_text, lookup, push_entry, push_item, Json, JsonValue,
};
use crate::text::{join, decimal, decimal_string, strings_view};
use crate::websocket::{ServerState, ServerView};
use vstd::prelude::*;
use vstd::string::*;

verus! {

/// The transport that a lock file announces.
pub const TRANSPORT: &'static str = "ws";

/// The name of the lock file of the server on `port`.
pub open spec fn lock_file_name(port: u16) -> Seq<char> {
    decimal(port as nat) + ".lock"@
}

/// What the lock file of a server says: the process, the workspace folders,
/// the server's name, the transport, the secret, and besides the port and the
/// time at which the file was written.
pub open spec fn lock_descriptor(pid: u32, server: ServerView, port: u16, timestamp: u64) -> JsonValue {
    JsonValue::Object(
        seq![
            ("pid"@, JsonValue::Num(pid as int)),
            (
                "workspaceFolders"@,
                JsonValue::Array(
                    Seq::new(
                        server.workspace_folders.len(),
                        |i: int| JsonValue::Str(server.workspace_folders[i]),
                    ),
                ),
            ),
            ("ideName"@, JsonValue::Str(server.ide_name)),
            ("transport"@, JsonValue::Str(TRANSPORT@)),
            ("authToken"@, JsonValue::Str(server.auth_token)),
            ("port"@, JsonValue::Num(port as int)),
            ("timestamp"@, JsonValue::Num(timestamp as int)),
        ],
    )
}

/// A lock file to write: its name within the lock directory and its content.
#[derive(Debug, PartialEq, Eq)]
pub struct LockFile {
    pub name: String,
    pub content: String,
}

/// The name of the lock file of the server on `port`.
pub fn lock_file_name_of(port: u16) -> (name: String)
    ensures
        name@ == lock_file_name(port),
{
    join(decimal_string(port as u64).as_str(), ".lock")
}

/// What the lock file of a server says.
pub fn lock_descriptor_of(pid: u32, state: &ServerState, port: u16, timestamp: u64) -> (j: Json)
    ensures
        j@ == lock_descriptor(pid, state@, port, timestamp),
{
    let ghost folders = strings_view(state.workspace_folders@);
    let mut items: Vec<Json> = Vec::new();
    let mut i: usize = 0;
    while i < state.workspace_folders.len()
        invariant
            i <= state.workspace_folders@.len(),
            folders == strings_view(state.workspace_folders@),
            items_view(items@) == Seq::new(i as nat, |k: int| JsonValue::Str(folders[k])),
        decreases state.workspace_folders@.len() - i,
    {
        push_item(&mut items, Json::string(state.workspace_folders[i].as_str()));
        assert(items_view(items@) =~= Seq::new((i + 1) as nat, |k: int| JsonValue::Str(folders[k])));
        i = i + 1;
    }
    let mut e: Vec<(String, Json)> = Vec::new();
    push_entry(&mut e, "pid", Json::UInt(pid as u64));
    push_entry(&mut e, "workspaceFolders", Json::array(items));
    push_entry(&mut e, "ideName", Json::string(state.ide_name.as_str()));
    push_entry(&mut e, "transport", Json::string(TRANSPORT));
    push_entry(&mut e, "authToken", Json::string(state.auth_token.as_str()));
    push_entry(&mut e, "port", Json::UInt(port as u64));
    push_entry(&mut e, "timestamp", Json::UInt(timestamp));
    assert(entries_view(e@) =~= lock_descriptor(pid, state@, port, timestamp)->Object_0);
    Json::object(e)
}

/// The lock file that a server writes once it listens on `port`. A file of
/// that name that is there already is to be overwritten.
pub fn create_lock_file(port: u16, state: &ServerState, pid: u32, timestamp: u64) -> (file: LockFile)
    ensures
        file.name@ == lock_file_name(port),
        file.content@ == json_pretty_text(lock_descriptor(pid, state@, port, timestamp)),
{
    LockFile {
        name: lock_file_name_of(port),
        content: lock_descriptor_of(pid, state, port, timestamp).to_pretty_text(),
    }
}

/// The lock file to remove when the server on `port` shuts down: none where
/// the file is not there, so that removing twice is no error.
pub fn cleanup_lock_file(port: u16, present: bool) -> (name: Option<String>)
    ensures
        match name {
            Some(n) => present && n@ == lock_file_name(port),
            None => !present,
        },
{
    if present {
        Some(lock_file_name_of(port))
    } else {
        None
    }
}

/// What to do after an attempt to bind the listener.
#[derive(Debug, Clone, Copy, PartialEq, Eq, Structural)]
pub enum BindStep {
    /// The listener is bound: write the lock file and serve.
    Serve,
    /// Remove the lock file of the port, which may be stale, wait a little
    /// and bind once more.
    CleanUpAndRetry,
    /// Give up: the server does not start.
    Fail,
}

/// What to do after the attempt number `attempt`, counted from one, to bind
/// the listener: a port that the caller chose and that is in use is tried a
/// second time after a cleanup, and no third time.
pub open spec fn bind_step(attempt: u32, bound: bool, port_given: bool) -> BindStep {
    if bound {
        BindStep::Serve
    } else if attempt <= 1 && port_given {
        BindStep::CleanUpAndRetry
    } else {
        BindStep::Fail
    }
}

/// Decides what to do after an attempt to bind the listener.
pub fn after_bind(attempt: u32, bound: bool, port_given: bool) -> (step: BindStep)
    ensures
        step == bind_step(attempt, bound, port_given),
{
    if bound {
        BindStep::Serve
    } else if attempt <= 1 && port_given {
        BindStep::CleanUpAndRetry
    } else {
        BindStep::Fail
    }
}

/// The lock file names the secret that the handshake accepts: its `authToken`
/// is the server's token, and a peer that shows what the lock file says in the
/// authentication header is accepted. It also names the port and the
/// transport.
pub proof fn lemma_lock_file_token_is_accepted(
    pid: u32,
    server: ServerView,
    port: u16,
    timestamp: u64,
    headers: Seq<(Seq<char>, Seq<char>)>,
)
    requires
        header_value(headers, server.auth_header) == lock_descriptor(
            pid,
            server,
            port,
            timestamp,
        ).str_field("authToken"@),
    ensures
        lock_descriptor(pid, server, port, timestamp).str_field("authToken"@) == Some(
            server.auth_token,
        ),
        lock_descriptor(pid, server, port, timestamp).str_field("transport"@) == Some(TRANSPORT@),
        lock_descriptor(pid, server, port, timestamp).u64_field("port"@) == Some(port as u64),
        handshake_outcome(headers, server.auth_header, server.auth_token) is Accept,
{
    reveal_strlit("pid");
    reveal_strlit("workspaceFolders");
    reveal_strlit("ideName");
    reveal_strlit("transport");
    reveal_strlit("authToken");
    reveal_strlit("port");
    reveal_strlit("timestamp");
    let all = lock_descriptor(pid, server, port, timestamp)->Object_0;
    let e6 = all.drop_last();
    let e5 = e6.drop_last();
    let e4 = e5.drop_last();
    let e3 = e4.drop_last();
    assert(all.last().0 == "timestamp"@);
    assert(e6.last().0 == "port"@);
    assert(e5.last().0 == "authToken"@);
    assert(e4.last().0 == "transport"@);
    assert("timestamp"@.len() == 9);
    assert("port"@.len() == 4);
    assert("authToken"@.len() == 9);
    assert("transport"@.len() == 9);
    assert("timestamp"@[0] == 't' && "timestamp"@[1] == 'i');
    assert("authToken"@[0] == 'a');
    assert("transport"@[0] == 't' && "transport"@[1] == 'r');
    reveal_with_fuel(lookup, 5);
    assert(lookup(all, "authToken"@) == Some(JsonValue::Str(server.auth_token)));
    assert(lookup(all, "port"@) == Some(JsonValue::Num(port as int)));
    assert(lookup(all, "transport"@) == Some(JsonValue::Str(TRANSPORT@)));
}

} // verus!
