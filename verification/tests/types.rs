use i3mux::types::{char_allowed, InputErrorKind, RemoteHost, SessionName};

#[test]
fn test_valid_session_names() {
    assert!(SessionName::new("my-session").is_ok());
    assert!(SessionName::new("session_123").is_ok());
    assert!(SessionName::new("abc123").is_ok());
}

#[test]
fn test_invalid_session_names() {
    assert!(SessionName::new("").is_err());
    assert!(SessionName::new("my session").is_err()); // Space
    assert!(SessionName::new("my/session").is_err()); // Slash
    assert!(SessionName::new("my;session").is_err()); // Semicolon
}

#[test]
fn test_valid_remote_hosts() {
    assert!(RemoteHost::new("local").is_ok());
    assert!(RemoteHost::new("myserver").is_ok());
    assert!(RemoteHost::new("server.example.com").is_ok());
    assert!(RemoteHost::new("user@server").is_ok());
    assert!(RemoteHost::new("user@server.example.com").is_ok());
}

#[test]
fn test_invalid_remote_hosts() {
    assert!(RemoteHost::new("").is_err());
    assert!(RemoteHost::new("@server").is_err()); // Empty username
    assert!(RemoteHost::new("user@").is_err()); // Empty hostname
    assert!(RemoteHost::new("user name@server").is_err()); // Space in username
}

#[test]
fn session_name_keeps_its_text() {
    let name = SessionName::new("work_2-a").unwrap();
    assert_eq!(name.as_str(), "work_2-a");
    assert_eq!(name.clone(), name);
}

#[test]
fn session_name_error_kinds_and_messages() {
    let empty = SessionName::new("").unwrap_err();
    assert_eq!(empty.kind, InputErrorKind::EmptySessionName);
    assert_eq!(empty.message(), "Session name cannot be empty");
    let bad = SessionName::new("a b").unwrap_err();
    assert_eq!(bad.kind, InputErrorKind::InvalidSessionName);
    assert_eq!(bad.input, "a b");
    assert_eq!(
        bad.message(),
        "Invalid session name 'a b': only alphanumeric characters, hyphens, and underscores are allowed"
    );
}

#[test]
fn session_name_rejects_dot_and_colon() {
    assert!(SessionName::new("a.b").is_err());
    assert!(SessionName::new("a:b").is_err());
    assert!(SessionName::new("a@b").is_err());
}

#[test]
fn remote_host_error_kinds_and_messages() {
    let e = RemoteHost::new("").unwrap_err();
    assert_eq!(e.kind, InputErrorKind::EmptyHost);
    assert_eq!(e.message(), "Remote host cannot be empty");
    let e = RemoteHost::new("@server").unwrap_err();
    assert_eq!(e.kind, InputErrorKind::EmptyUsername);
    assert_eq!(e.message(), "Username cannot be empty in '@server'");
    let e = RemoteHost::new("user name@server").unwrap_err();
    assert_eq!(e.kind, InputErrorKind::InvalidUsername);
    assert_eq!(
        e.message(),
        "Invalid username in 'user name@server': only alphanumeric, hyphens, and underscores allowed"
    );
    let e = RemoteHost::new("user@").unwrap_err();
    assert_eq!(e.kind, InputErrorKind::EmptyHostname);
    assert_eq!(e.message(), "Hostname cannot be empty");
    let e = RemoteHost::new("user@ser ver").unwrap_err();
    assert_eq!(e.kind, InputErrorKind::InvalidHostname);
    assert_eq!(
        e.message(),
        "Invalid hostname in 'user@ser ver': only alphanumeric, hyphens, dots, and underscores allowed"
    );
}

#[test]
fn remote_host_splits_at_first_at_sign() {
    // The host name part may not hold a second `@`.
    assert_eq!(RemoteHost::new("a@b@c").unwrap_err().kind, InputErrorKind::InvalidHostname);
    // A dot is fine in the host name and not in the user name.
    assert_eq!(RemoteHost::new("a.b@c").unwrap_err().kind, InputErrorKind::InvalidUsername);
    assert!(RemoteHost::new("a_b@c.d-e").is_ok());
    assert!(RemoteHost::new("host:22").is_err());
}

#[test]
fn remote_host_keeps_its_text() {
    let host = RemoteHost::new("user@server.example.com").unwrap();
    assert_eq!(host.as_str(), "user@server.example.com");
    assert_eq!(host.clone(), host);
}

#[test]
fn names_accept_non_ascii_letters_and_digits() {
    // Alphanumeric is meant in the Unicode sense.
    assert!(SessionName::new("größe").is_ok());
    assert!(SessionName::new("٣").is_ok());
    assert!(SessionName::new("a\u{00a0}b").is_err());
}

#[test]
fn allowed_characters() {
    assert!(char_allowed('a', true, false));
    assert!(char_allowed('-', false, false));
    assert!(char_allowed('_', false, true));
    assert!(char_allowed('.', false, true));
    assert!(!char_allowed('.', false, false));
    assert!(!char_allowed('@', false, true));
    assert!(!char_allowed(':', false, true));
    assert!(!char_allowed(' ', false, false));
}
