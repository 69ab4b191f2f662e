//! What a server process runs, and when it ends.
use vstd::prelude::*;

verus! {

/// The subcommand that the process was started with.
#[derive(Debug, Clone, PartialEq, Eq)]
pub enum Mode {
    /// The editor endpoint alone, on standard input and output.
    Lsp { worktree: Option<String> },
    /// The WebSocket endpoint alone.
    Websocket { port: Option<u16> },
    /// Both endpoints, joined by the notification bus.
    Hybrid { port: Option<u16>, worktree: Option<String> },
}

/// The first of two values that is there.
pub open spec fn first_of(a: Option<String>, b: Option<String>) -> Option<String> {
    match a {
        Some(_) => a,
        None => b,
    }
}

/// What the process runs: the subcommand, with the worktree of the top-level
/// flag in place of its own where the flag is given. Without a subcommand the
/// process runs both endpoints, unless a worktree is given: then it runs the
/// editor endpoint alone.
pub open spec fn plan(mode: Option<Mode>, worktree: Option<String>) -> Mode {
    match mode {
        Some(Mode::Lsp { worktree: own }) => Mode::Lsp { worktree: first_of(worktree, own) },
        Some(Mode::Websocket { port }) => Mode::Websocket { port },
        Some(Mode::Hybrid { port, worktree: own }) => Mode::Hybrid {
            port,
            worktree: first_of(worktree, own),
        },
        None => match worktree {
            Some(_) => Mode::Lsp { worktree },
            None => Mode::Hybrid { port: None, worktree: None },
        },
    }
}

fn first(a: Option<String>, b: Option<String>) -> (r: Option<String>)
    ensures
        r == first_of(a, b),
{
    match a {
        Some(x) => Some(x),
        None => b,
    }
}

/// Decides what the process runs.
pub fn select_mode(mode: Option<Mode>, worktree: Option<String>) -> (run: Mode)
    ensures
        run == plan(mode, worktree),
{
    match mode {
        Some(Mode::Lsp { worktree: own }) => Mode::Lsp { worktree: first(worktree, own) },
        Some(Mode::Websocket { port }) => Mode::Websocket { port },
        Some(Mode::Hybrid { port, worktree: own }) => Mode::Hybrid {
            port,
            worktree: first(worktree, own),
        },
        None => match worktree {
            Some(path) => Mode::Lsp { worktree: Some(path) },
            None => Mode::Hybrid { port: None, worktree: None },
        },
    }
}

/// One of the two endpoints of a hybrid server.
#[derive(Debug, Clone, Copy, PartialEq, Eq, Structural)]
pub enum Endpoint {
    Editor,
    WebSocket,
}

/// What happens to a hybrid server.
#[derive(Debug, Clone, Copy, PartialEq, Eq, Structural)]
pub enum SupervisorEvent {
    /// An endpoint returned; `failed` says whether with an error.
    Ended { endpoint: Endpoint, failed: bool },
    /// The user asked the process to end.
    Interrupt,
}

/// What the supervisor does about an event.
#[derive(Debug, Clone, Copy, PartialEq, Eq, Structural)]
pub enum SupervisorAction {
    /// Go on waiting for the endpoint that still runs.
    Wait,
    /// Remove the lock file, if one was written, and leave with the code.
    Exit { remove_lock_file: bool, code: u8 },
}

/// Which endpoints of a hybrid server still run.
#[derive(Debug, Clone, Copy, PartialEq, Eq, Structural)]
pub struct Supervisor {
    pub editor_running: bool,
    pub websocket_running: bool,
}

/// The supervisor after an event: an endpoint that ended runs no more.
pub open spec fn supervisor_after(s: Supervisor, event: SupervisorEvent) -> Supervisor {
    match event {
        SupervisorEvent::Ended { endpoint: Endpoint::Editor, .. } => Supervisor {
            editor_running: false,
            websocket_running: s.websocket_running,
        },
        SupervisorEvent::Ended { endpoint: Endpoint::WebSocket, .. } => Supervisor {
            editor_running: s.editor_running,
            websocket_running: false,
        },
        SupervisorEvent::Interrupt => s,
    }
}

/// What the supervisor does about an event. An interrupt ends the process at
/// once, cleanly and after the lock file is removed. An endpoint that ends,
/// with an error or without, leaves the other one running; the process ends
/// when both have ended.
pub open spec fn supervisor_action(s: Supervisor, event: SupervisorEvent) -> SupervisorAction {
    match event {
        SupervisorEvent::Interrupt => SupervisorAction::Exit { remove_lock_file: true, code: 0 },
        SupervisorEvent::Ended { .. } => {
            let after = supervisor_after(s, event);
            if after.editor_running || after.websocket_running {
                SupervisorAction::Wait
            } else {
                SupervisorAction::Exit { remove_lock_file: true, code: 0 }
            }
        },
    }
}

impl Supervisor {
    /// The supervisor of a hybrid server that has started both endpoints.
    pub fn new() -> (s: Supervisor)
        ensures
            s.editor_running && s.websocket_running,
    {
        Supervisor { editor_running: true, websocket_running: true }
    }

    /// Takes note of an event and decides what to do about it.
    pub fn on_event(&mut self, event: SupervisorEvent) -> (action: SupervisorAction)
        ensures
            *final(self) == supervisor_after(*old(self), event),
            action == supervisor_action(*old(self), event),
    {
        match event {
            SupervisorEvent::Interrupt => SupervisorAction::Exit { remove_lock_file: true, code: 0 },
            SupervisorEvent::Ended { endpoint, failed: _ } => {
                match endpoint {
                    Endpoint::Editor => {
                        self.editor_running = false;
                    },
                    Endpoint::WebSocket => {
                        self.websocket_running = false;
                    },
                }
                if self.editor_running || self.websocket_running {
                    SupervisorAction::Wait
                } else {
                    SupervisorAction::Exit { remove_lock_file: true, code: 0 }
                }
            },
        }
    }
}

/// The exit code of a process whose start failed: the listener could not be
/// bound, or the lock file could not be written.
pub const STARTUP_FAILURE: u8 = 1;

} // verus!
