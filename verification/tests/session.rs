use i3mux::connection::{create_connection, FileRequest, ListAnswer, StoreRequest};
use i3mux::layout::Layout;
use i3mux::session::{RemoteSession, SessionLock};

fn layout() -> Layout {
    Layout::HSplit {
        children: vec![
            Layout::Terminal { socket: "ws1-001".to_string(), percent_bits: Some(0.5f64.to_bits()) },
            Layout::Terminal { socket: "ws1-002".to_string(), percent_bits: None },
        ],
        percent_bits: None,
    }
}

#[test]
fn new_lock_names_owner_and_holder() {
    let lock = SessionLock::new("deepthought".to_string(), 4711);
    assert_eq!(lock.locked_by, "deepthought");
    assert_eq!(lock.remote_pid, 4711);
    assert_eq!(lock.nonce.len(), 36);
    assert_eq!(lock.nonce.matches('-').count(), 4);
    assert!(lock.locked_at.contains('T'));
    assert!(lock.locked_at.ends_with("+00:00"));
}

#[test]
fn nonces_differ() {
    let a = SessionLock::new("h".to_string(), 1);
    let b = SessionLock::new("h".to_string(), 1);
    assert_ne!(a.nonce, b.nonce);
}

#[test]
fn lock_from_parts_and_clone() {
    let lock = SessionLock::from_parts("h".to_string(), "t".to_string(), "n".to_string(), 3);
    let copy = lock.clone();
    assert_eq!(
        (copy.locked_by.as_str(), copy.locked_at.as_str(), copy.nonce.as_str(), copy.remote_pid),
        ("h", "t", "n", 3)
    );
}

#[test]
fn new_session_has_no_lock() {
    let s = RemoteSession::new("work".to_string(), "4".to_string(), "user@server".to_string(), layout());
    assert_eq!(s.name, "work");
    assert_eq!(s.workspace, "4");
    assert_eq!(s.host, "user@server");
    assert!(s.lock.is_none());
    assert_eq!(s.layout.get_sockets(), vec!["ws1-001", "ws1-002"]);
    let locked = s.clone().locked(SessionLock::new("a".to_string(), 5));
    assert_eq!(locked.lock.as_ref().unwrap().remote_pid, 5);
    assert_eq!(locked.name, "work");
    // Taking the lock again overwrites the record.
    let relocked = locked.locked(SessionLock::new("b".to_string(), 6));
    assert_eq!(relocked.lock.as_ref().unwrap().locked_by, "b");
    assert_eq!(relocked.clone().lock.unwrap().remote_pid, 6);
    assert_eq!(relocked.layout.get_sockets(), vec!["ws1-001", "ws1-002"]);
}

#[test]
fn session_storage_requests() {
    let s = RemoteSession::new("work".to_string(), "4".to_string(), "user@server".to_string(), layout());
    let remote = create_connection(Some("user@server"));
    let local = create_connection(None);
    assert!(matches!(
        s.save_to_remote(&remote),
        StoreRequest::Remote { write, .. } if write == "cat > /tmp/i3mux/sessions/work.json"
    ));
    assert!(matches!(
        s.save_to_remote(&local),
        StoreRequest::File { path, .. } if path == "/tmp/i3mux/sessions/work.json"
    ));
    assert!(matches!(
        RemoteSession::load_from_remote(&remote, "work"),
        FileRequest::Remote { command } if command == "cat '/tmp/i3mux/sessions/work.json'"
    ));
    let answer = ListAnswer::Output { stdout: "work\nplay\n".to_string() };
    assert_eq!(RemoteSession::list_remote_sessions(&remote, &answer), vec!["work", "play"]);
}
