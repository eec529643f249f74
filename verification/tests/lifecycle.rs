use i3mux::layout::Layout;
use i3mux::layout::RestoreStep;
use i3mux::lifecycle::{
    activate, attach_guard, cleanup_workspace, detach, detach_target, host_display, kill_session,
    list_sessions, lock_key, lock_label, select_session, socket_probe, terminal, AttachEvent,
    AttachPhase, AttachStep, Attachment, DetachAction, LifecycleError, SessionChoice,
    TerminalKind, EXIT_AMBIGUOUS, LOCAL_DISPLAY,
};
use i3mux::session::{RemoteSession, SessionLock};
use i3mux::tree::{NodeKind, NodeLayout, TreeNode};
use i3mux::types::{InputErrorKind, RemoteHost, SessionName};
use i3mux::workspace::{SessionType, WorkspaceState};

fn term(socket: &str) -> Layout {
    Layout::Terminal { socket: socket.to_string(), percent_bits: None }
}

fn two_terminals() -> Layout {
    Layout::HSplit { children: vec![term("ws1-001"), term("ws1-002")], percent_bits: None }
}

fn remote_state(name: Option<&str>) -> WorkspaceState {
    let host = RemoteHost::new("user@server").unwrap();
    let name = name.map(|n| SessionName::new(n).unwrap());
    WorkspaceState::activated(Some(&host), name.as_ref())
}

fn names(list: &[&str]) -> Vec<String> {
    list.iter().map(|s| s.to_string()).collect()
}

fn leaf(id: u64, marks: &[&str]) -> TreeNode {
    TreeNode {
        kind: NodeKind::Other,
        num: None,
        window: Some(id),
        instance: Some("foot".to_string()),
        marks: marks.iter().map(|m| m.to_string()).collect(),
        layout: NodeLayout::SplitH,
        percent_bits: None,
        nodes: Vec::new(),
        floating_nodes: Vec::new(),
    }
}

/// Workspace `num` with two terminals of this tool and one other window.
fn mixed_tree(num: i64) -> TreeNode {
    TreeNode {
        kind: NodeKind::Workspace,
        num: Some(num),
        window: None,
        instance: None,
        marks: Vec::new(),
        layout: NodeLayout::SplitH,
        percent_bits: None,
        nodes: vec![
            leaf(101, &["_i3mux:user@server:ws1-001"]),
            leaf(102, &[]),
            leaf(103, &["_i3mux:user@server:ws1-002"]),
        ],
        floating_nodes: Vec::new(),
    }
}

fn workspace_node(num: i64, marks: &[&str]) -> TreeNode {
    let window = TreeNode {
        kind: NodeKind::Other,
        num: None,
        window: Some(77),
        instance: Some("foot".to_string()),
        marks: marks.iter().map(|m| m.to_string()).collect(),
        layout: NodeLayout::SplitH,
        percent_bits: None,
        nodes: Vec::new(),
        floating_nodes: Vec::new(),
    };
    TreeNode {
        kind: NodeKind::Workspace,
        num: Some(num),
        window: None,
        instance: None,
        marks: Vec::new(),
        layout: NodeLayout::SplitH,
        percent_bits: None,
        nodes: vec![window],
        floating_nodes: Vec::new(),
    }
}

#[test]
fn host_is_displayed_by_name_or_as_local() {
    let host = RemoteHost::new("server").unwrap();
    assert_eq!(host_display(Some(&host)), "server");
    assert_eq!(host_display(None), "\x1b[3mlocal\x1b[0m");
    assert_eq!(LOCAL_DISPLAY, "\x1b[3mlocal\x1b[0m");
    assert_eq!(EXIT_AMBIGUOUS, 2);
}

#[test]
fn activate_validates_and_binds() {
    let a = activate(Some("user@server".to_string()), Some("work".to_string())).unwrap();
    assert_eq!(a.remote_host.unwrap().as_str(), "user@server");
    assert_eq!(a.state.session_type, SessionType::Remote);
    assert_eq!(a.state.host, "user@server");
    assert_eq!(a.state.session_name.as_deref(), Some("work"));
    assert_eq!(a.state.next_socket_id, 1);
    assert!(a.state.sockets.is_empty());
    let a = activate(None, None).unwrap();
    assert!(a.remote_host.is_none());
    assert_eq!(a.state.session_type, SessionType::Local);
    assert_eq!(a.state.host, "local");
    assert_eq!(a.state.session_name, None);
}

#[test]
fn activate_rejects_invalid_input_host_first() {
    match activate(Some("user@".to_string()), Some("bad name".to_string())).unwrap_err() {
        LifecycleError::Input { error } => assert_eq!(error.kind, InputErrorKind::EmptyHostname),
        other => panic!("unexpected error {:?}", other),
    }
    let e = activate(Some("server".to_string()), Some("bad name".to_string())).unwrap_err();
    assert_eq!(
        e.message(),
        "Invalid session name 'bad name': only alphanumeric characters, hyphens, and underscores are allowed"
    );
    assert!(activate(None, Some(String::new())).is_err());
}

#[test]
fn terminal_kind_follows_the_binding() {
    let state = remote_state(None);
    assert_eq!(terminal(Some(&state)), TerminalKind::Managed);
    assert_eq!(terminal(None), TerminalKind::Plain);
}

#[test]
fn only_bound_remote_workspaces_detach() {
    let e = detach_target(None).unwrap_err();
    assert_eq!(e.message(), "Workspace not i3mux-bound");
    let local = WorkspaceState::activated(None, None);
    let e = detach_target(Some(&local)).unwrap_err();
    assert_eq!(e.message(), "Cannot detach local sessions (use remote sessions for detach/attach)");
    assert!(detach_target(Some(&remote_state(None))).is_ok());
    let e = detach(&local, None, "1", 1, &mixed_tree(1)).unwrap_err();
    assert!(matches!(e, LifecycleError::LocalDetach));
}

#[test]
fn detach_without_terminals_fails() {
    let e = detach(&remote_state(Some("work")), None, "1", 1, &workspace_node(1, &[])).unwrap_err();
    assert!(matches!(e, LifecycleError::NoTerminals));
    assert_eq!(e.message(), "No i3mux terminals found in workspace");
}

#[test]
fn detach_plans_the_session() {
    let plan = detach(&remote_state(Some("work")), None, "11", 11, &mixed_tree(11)).unwrap();
    assert_eq!(plan.session.name, "work");
    assert_eq!(plan.session.workspace, "11");
    assert_eq!(plan.session.host, "user@server");
    assert!(plan.session.lock.is_none());
    assert_eq!(plan.session.layout.get_sockets(), vec!["ws1-001", "ws1-002"]);
    assert_eq!(plan.session_name.as_str(), "work");
    assert_eq!(plan.remote_host.unwrap().as_str(), "user@server");
    assert_eq!(plan.lock_key, "user@server:work");
    // The session is stored first; only the two tagged windows are closed.
    let actions: Vec<String> = plan
        .actions
        .iter()
        .map(|a| match a {
            DetachAction::Save => "save".to_string(),
            DetachAction::CloseWindow { command } => command.clone(),
            DetachAction::StopHolder => "stop holder".to_string(),
            DetachAction::ReleaseLock => "release lock".to_string(),
            DetachAction::Forget => "forget".to_string(),
        })
        .collect();
    assert_eq!(
        actions,
        vec!["save", "[id=\"101\"] kill", "[id=\"103\"] kill", "stop holder", "release lock", "forget"]
    );
    let critical: Vec<bool> = plan.actions.iter().map(|a| a.must_succeed()).collect();
    assert_eq!(critical, vec![true, false, false, false, false, true]);
}

#[test]
fn detach_name_precedence() {
    let state = remote_state(Some("work"));
    let plan = detach(&state, Some("other".to_string()), "1", 1, &mixed_tree(1)).unwrap();
    assert_eq!(plan.session.name, "other");
    // Without any name the session is called after the workspace.
    let plan = detach(&remote_state(None), None, "14", 14, &mixed_tree(14)).unwrap();
    assert_eq!(plan.session.name, "ws14");
    assert_eq!(plan.lock_key, "user@server:ws14");
    // A named workspace has number -1, and `ws-1` is a valid name.
    let plan = detach(&remote_state(None), None, "mail", -1, &mixed_tree(-1)).unwrap();
    assert_eq!(plan.session.name, "ws-1");
    assert_eq!(plan.session.workspace, "mail");
}

#[test]
fn detach_validates_name_then_host() {
    let mut state = remote_state(None);
    state.host = "bad host".to_string();
    match detach(&state, Some("a b".to_string()), "1", 1, &mixed_tree(1)).unwrap_err() {
        LifecycleError::Input { error } => assert_eq!(error.kind, InputErrorKind::InvalidSessionName),
        other => panic!("unexpected error {:?}", other),
    }
    match detach(&state, Some("ok".to_string()), "1", 1, &mixed_tree(1)).unwrap_err() {
        LifecycleError::Input { error } => {
            assert_eq!(error.kind, InputErrorKind::InvalidHostname);
            assert_eq!(error.input, "bad host");
        }
        other => panic!("unexpected error {:?}", other),
    }
    // A remote workspace whose host reads `local` is stored on this machine.
    state.host = "local".to_string();
    let plan = detach(&state, Some("ok".to_string()), "1", 1, &mixed_tree(1)).unwrap();
    assert!(plan.remote_host.is_none());
    assert_eq!(plan.lock_key, "local:ok");
}

#[test]
fn select_session_by_name_or_when_single() {
    match select_session(names(&["work", "play"]), Some("play".to_string()), "server").unwrap() {
        SessionChoice::Chosen { name } => assert_eq!(name.as_str(), "play"),
        other => panic!("unexpected choice {:?}", other),
    }
    match select_session(names(&["only"]), None, "server").unwrap() {
        SessionChoice::Chosen { name } => assert_eq!(name.as_str(), "only"),
        other => panic!("unexpected choice {:?}", other),
    }
}

#[test]
fn several_sessions_without_a_name_are_ambiguous() {
    match select_session(names(&["work", "play"]), None, "server").unwrap() {
        SessionChoice::Ambiguous { sessions } => assert_eq!(sessions, vec!["work", "play"]),
        other => panic!("unexpected choice {:?}", other),
    }
}

#[test]
fn select_session_errors() {
    let e = select_session(Vec::new(), None, "server").unwrap_err();
    assert_eq!(e.message(), "No sessions found on server");
    let e = select_session(Vec::new(), Some("work".to_string()), "server").unwrap_err();
    assert!(matches!(e, LifecycleError::NoSessions { .. }));
    let e = select_session(names(&["work"]), Some("play".to_string()), LOCAL_DISPLAY).unwrap_err();
    assert_eq!(e.message(), "Session 'play' not found on \x1b[3mlocal\x1b[0m");
    // A stored name that is no valid session name is rejected when chosen.
    let e = select_session(names(&["bad name"]), None, "server").unwrap_err();
    assert!(matches!(e, LifecycleError::Input { .. }));
    let e = select_session(names(&["bad name", "x"]), Some("bad name".to_string()), "s").unwrap_err();
    assert!(matches!(e, LifecycleError::Input { .. }));
}

#[test]
fn attach_refuses_a_workspace_with_managed_windows() {
    let occupied = workspace_node(5, &["_i3mux:server:ws5-001"]);
    let e = attach_guard(&occupied, 5).unwrap_err();
    assert_eq!(e.message(), "Workspace 5 already has i3mux terminals. Detach or clear them first.");
    // Other windows are fine, and so is another workspace.
    assert!(attach_guard(&workspace_node(5, &["scratch"]), 5).is_ok());
    assert!(attach_guard(&occupied, 6).is_ok());
    let e = attach_guard(&workspace_node(-1, &["_i3mux:a:b"]), -1).unwrap_err();
    assert_eq!(e.message(), "Workspace -1 already has i3mux terminals. Detach or clear them first.");
}

#[test]
fn lock_key_joins_host_and_name() {
    assert_eq!(lock_key("user@server", "work"), format!("{}:{}", "user@server", "work"));
}

#[test]
fn session_listing_lines() {
    let lock = SessionLock::from_parts("deepthought".to_string(), "t".to_string(), "n".to_string(), 1);
    assert_eq!(lock_label(Some(&lock), true), " [LOCKED by deepthought]");
    assert_eq!(lock_label(Some(&lock), false), " [stale lock]");
    assert_eq!(lock_label(None, true), "");
    assert_eq!(lock_label(None, false), "");
    let session =
        RemoteSession::new("work".to_string(), "1".to_string(), "server".to_string(), two_terminals());
    assert_eq!(list_sessions(&session, "work", false), format!("  {} - {} terminals{}", "work", 2, ""));
    let locked = session.locked(lock);
    assert_eq!(list_sessions(&locked, "work", true), "  work - 2 terminals [LOCKED by deepthought]");
    assert_eq!(list_sessions(&locked, "work", false), "  work - 2 terminals [stale lock]");
}

#[test]
fn kill_validates_host_and_name() {
    let plan = kill_session(Some("user@server".to_string()), "work".to_string()).unwrap();
    assert_eq!(plan.remote_host.unwrap().as_str(), "user@server");
    assert_eq!(plan.session_name.as_str(), "work");
    let plan = kill_session(None, "work".to_string()).unwrap();
    assert!(plan.remote_host.is_none());
    match kill_session(Some("@x".to_string()), "a/b".to_string()).unwrap_err() {
        LifecycleError::Input { error } => assert_eq!(error.kind, InputErrorKind::EmptyUsername),
        other => panic!("unexpected error {:?}", other),
    }
    match kill_session(None, "a/b".to_string()).unwrap_err() {
        LifecycleError::Input { error } => assert_eq!(error.kind, InputErrorKind::InvalidSessionName),
        other => panic!("unexpected error {:?}", other),
    }
}

#[test]
fn workspace_is_forgotten_when_no_session_is_left() {
    let state = remote_state(None);
    assert!(cleanup_workspace(Some(&state), false));
    assert!(!cleanup_workspace(Some(&state), true));
    assert!(!cleanup_workspace(None, false));
    assert!(!cleanup_workspace(None, true));
    assert_eq!(socket_probe("4"), format!("ls {} 2>/dev/null", format!("/tmp/{}-*", format!("ws{}", "4"))));
}

fn stored_session() -> RemoteSession {
    RemoteSession::new("work".to_string(), "1".to_string(), "user@server".to_string(), two_terminals())
}

fn new_lock() -> SessionLock {
    SessionLock::from_parts("host-b".to_string(), "t".to_string(), "n".to_string(), 815)
}

#[test]
fn attach_begins_by_listing() {
    let a = Attachment::new(Some("user@server".to_string()), None, true).unwrap();
    assert_eq!(a.phase, AttachPhase::Listing);
    assert_eq!(a.remote_host.as_ref().unwrap().as_str(), "user@server");
    assert!(a.force);
    assert!(a.name.is_none() && a.session.is_none() && a.workspace.is_none());
    let e = Attachment::new(Some("user@".to_string()), None, false).unwrap_err();
    assert_eq!(e.message(), "Hostname cannot be empty");
}

#[test]
fn attach_runs_through_its_steps_in_order() {
    let a = Attachment::new(Some("user@server".to_string()), None, false).unwrap();
    let (a, step) = a.next(AttachEvent::Listed { sessions: names(&["work"]) });
    assert_eq!(a.phase, AttachPhase::Loading);
    assert!(matches!(step, AttachStep::Load { name } if name == "work"));

    let (a, step) = a.next(AttachEvent::Loaded { session: stored_session() });
    assert_eq!(a.phase, AttachPhase::Locking);
    assert!(matches!(step, AttachStep::Lock { name, force: false } if name == "work"));

    let (a, step) = a.next(AttachEvent::Locked { lock: new_lock() });
    assert_eq!(a.phase, AttachPhase::Inspecting);
    assert!(matches!(step, AttachStep::Inspect));
    assert_eq!(a.session.as_ref().unwrap().lock.as_ref().unwrap().remote_pid, 815);

    let tree = workspace_node(3, &["scratch"]);
    let (a, step) = a.next(AttachEvent::Inspected { label: "3".to_string(), num: 3, tree });
    assert_eq!(a.phase, AttachPhase::Restoring);
    match step {
        AttachStep::Restore { steps, host } => {
            assert_eq!(host, "user@server");
            let text: Vec<String> = steps
                .into_iter()
                .map(|s| match s {
                    RestoreStep::Spawn { socket } => format!("spawn {}", socket),
                    RestoreStep::Command { command } => command,
                })
                .collect();
            assert_eq!(text, vec!["spawn ws1-001", "split h", "spawn ws1-002"]);
        }
        other => panic!("unexpected step {:?}", other),
    }

    let (a, step) = a.next(AttachEvent::Restored);
    assert_eq!(a.phase, AttachPhase::Saving);
    match step {
        AttachStep::Save { session } => {
            assert_eq!(session.name, "work");
            assert_eq!(session.lock.as_ref().unwrap().locked_by, "host-b");
            assert_eq!(session.layout.get_sockets(), vec!["ws1-001", "ws1-002"]);
        }
        other => panic!("unexpected step {:?}", other),
    }

    let (a, step) = a.next(AttachEvent::Saved);
    assert_eq!(a.phase, AttachPhase::Finished);
    match step {
        AttachStep::Remember { label, state, lock_key } => {
            assert_eq!(label, "3");
            assert_eq!(lock_key, "user@server:work");
            assert_eq!(state.session_type, SessionType::Remote);
            assert_eq!(state.host, "user@server");
            assert_eq!(state.session_name.as_deref(), Some("work"));
            assert_eq!(state.next_socket_id, 3);
            assert_eq!(state.sockets, vec!["ws1-001", "ws1-002"]);
        }
        other => panic!("unexpected step {:?}", other),
    }

    // Nothing follows.
    let (a, step) = a.next(AttachEvent::Saved);
    assert_eq!(a.phase, AttachPhase::Finished);
    assert!(matches!(step, AttachStep::Failed { error: LifecycleError::UnexpectedEvent }));
}

#[test]
fn attach_stops_on_ambiguity_and_on_missing_sessions() {
    let a = Attachment::new(None, None, false).unwrap();
    let (a, step) = a.next(AttachEvent::Listed { sessions: names(&["work", "play"]) });
    assert_eq!(a.phase, AttachPhase::Finished);
    assert!(matches!(step, AttachStep::Ambiguous { sessions } if sessions == names(&["work", "play"])));

    let a = Attachment::new(None, None, false).unwrap();
    let (a, step) = a.next(AttachEvent::Listed { sessions: Vec::new() });
    assert_eq!(a.phase, AttachPhase::Finished);
    match step {
        AttachStep::Failed { error } => {
            assert_eq!(error.message(), "No sessions found on \x1b[3mlocal\x1b[0m")
        }
        other => panic!("unexpected step {:?}", other),
    }

    let a = Attachment::new(Some("server".to_string()), Some("gone".to_string()), false).unwrap();
    let (_, step) = a.next(AttachEvent::Listed { sessions: names(&["work"]) });
    match step {
        AttachStep::Failed { error } => assert_eq!(error.message(), "Session 'gone' not found on server"),
        other => panic!("unexpected step {:?}", other),
    }
}

#[test]
fn attach_refuses_an_occupied_workspace_after_the_lock() {
    let a = Attachment::new(None, Some("work".to_string()), true).unwrap();
    let (a, _) = a.next(AttachEvent::Listed { sessions: names(&["work", "play"]) });
    let (a, step) = a.next(AttachEvent::Loaded { session: stored_session() });
    assert!(matches!(step, AttachStep::Lock { force: true, .. }));
    let (a, _) = a.next(AttachEvent::Locked { lock: new_lock() });
    let tree = workspace_node(5, &["_i3mux:server:ws5-001"]);
    let (a, step) = a.next(AttachEvent::Inspected { label: "5".to_string(), num: 5, tree });
    assert_eq!(a.phase, AttachPhase::Finished);
    assert!(matches!(
        step,
        AttachStep::Failed { error: LifecycleError::WorkspaceOccupied { workspace: 5 } }
    ));
}

#[test]
fn attach_rejects_events_out_of_order() {
    let a = Attachment::new(None, None, false).unwrap();
    let (a, step) = a.next(AttachEvent::Restored);
    assert_eq!(a.phase, AttachPhase::Finished);
    match step {
        AttachStep::Failed { error } => {
            assert_eq!(error.message(), "Unexpected answer to an attach step")
        }
        other => panic!("unexpected step {:?}", other),
    }
    let a = Attachment::new(None, None, false).unwrap();
    let (a, _) = a.next(AttachEvent::Listed { sessions: names(&["work"]) });
    let (a, step) = a.next(AttachEvent::Locked { lock: new_lock() });
    assert_eq!(a.phase, AttachPhase::Finished);
    assert!(matches!(step, AttachStep::Failed { error: LifecycleError::UnexpectedEvent }));
}

#[test]
fn local_attach_restores_under_the_displayed_host() {
    let a = Attachment::new(None, None, false).unwrap();
    let (a, _) = a.next(AttachEvent::Listed { sessions: names(&["work"]) });
    let (a, _) = a.next(AttachEvent::Loaded { session: stored_session() });
    let (a, _) = a.next(AttachEvent::Locked { lock: new_lock() });
    let tree = workspace_node(1, &[]);
    let (a, step) = a.next(AttachEvent::Inspected { label: "1".to_string(), num: 1, tree });
    assert!(matches!(step, AttachStep::Restore { host, .. } if host == LOCAL_DISPLAY));
    let (a, _) = a.next(AttachEvent::Restored);
    let (_, step) = a.next(AttachEvent::Saved);
    match step {
        AttachStep::Remember { state, lock_key, .. } => {
            assert_eq!(state.session_type, SessionType::Local);
            assert_eq!(state.host, "local");
            assert_eq!(lock_key, "local:work");
        }
        other => panic!("unexpected step {:?}", other),
    }
}
