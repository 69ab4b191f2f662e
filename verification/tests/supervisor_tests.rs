use ide_bridge::supervisor::{
    select_mode, Endpoint, Mode, Supervisor, SupervisorAction, SupervisorEvent, STARTUP_FAILURE,
};

fn path(p: &str) -> Option<String> {
    Some(p.to_string())
}

#[test]
fn without_a_subcommand_the_server_is_hybrid() {
    assert_eq!(select_mode(None, None), Mode::Hybrid { port: None, worktree: None });
}

#[test]
fn without_a_subcommand_a_worktree_means_the_editor_endpoint() {
    assert_eq!(select_mode(None, path("/w")), Mode::Lsp { worktree: path("/w") });
}

#[test]
fn top_level_worktree_overrides_that_of_the_subcommand() {
    assert_eq!(
        select_mode(Some(Mode::Lsp { worktree: path("/own") }), path("/top")),
        Mode::Lsp { worktree: path("/top") }
    );
    assert_eq!(
        select_mode(Some(Mode::Lsp { worktree: path("/own") }), None),
        Mode::Lsp { worktree: path("/own") }
    );
    assert_eq!(select_mode(Some(Mode::Lsp { worktree: None }), None), Mode::Lsp { worktree: None });
    assert_eq!(
        select_mode(Some(Mode::Hybrid { port: Some(45000), worktree: path("/own") }), path("/top")),
        Mode::Hybrid { port: Some(45000), worktree: path("/top") }
    );
    assert_eq!(
        select_mode(Some(Mode::Hybrid { port: None, worktree: path("/own") }), None),
        Mode::Hybrid { port: None, worktree: path("/own") }
    );
}

#[test]
fn websocket_mode_keeps_its_port() {
    assert_eq!(
        select_mode(Some(Mode::Websocket { port: Some(45000) }), path("/top")),
        Mode::Websocket { port: Some(45000) }
    );
    assert_eq!(select_mode(Some(Mode::Websocket { port: None }), None), Mode::Websocket { port: None });
}

#[test]
fn interrupt_removes_the_lock_file_and_exits_cleanly() {
    let mut s = Supervisor::new();
    assert_eq!(
        s.on_event(SupervisorEvent::Interrupt),
        SupervisorAction::Exit { remove_lock_file: true, code: 0 }
    );
    assert_eq!(s, Supervisor::new());
}

#[test]
fn one_endpoint_that_ends_leaves_the_other_running() {
    let mut s = Supervisor::new();
    assert_eq!(
        s.on_event(SupervisorEvent::Ended { endpoint: Endpoint::Editor, failed: true }),
        SupervisorAction::Wait
    );
    assert_eq!(s, Supervisor { editor_running: false, websocket_running: true });
    assert_eq!(
        s.on_event(SupervisorEvent::Ended { endpoint: Endpoint::WebSocket, failed: false }),
        SupervisorAction::Exit { remove_lock_file: true, code: 0 }
    );
    assert_eq!(s, Supervisor { editor_running: false, websocket_running: false });
}

#[test]
fn order_of_the_endpoints_does_not_matter() {
    let mut s = Supervisor::new();
    assert_eq!(
        s.on_event(SupervisorEvent::Ended { endpoint: Endpoint::WebSocket, failed: false }),
        SupervisorAction::Wait
    );
    assert_eq!(
        s.on_event(SupervisorEvent::Ended { endpoint: Endpoint::WebSocket, failed: true }),
        SupervisorAction::Wait
    );
    assert_eq!(
        s.on_event(SupervisorEvent::Ended { endpoint: Endpoint::Editor, failed: false }),
        SupervisorAction::Exit { remove_lock_file: true, code: 0 }
    );
    assert_ne!(STARTUP_FAILURE, 0);
}
