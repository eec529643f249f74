use i3mux::window::I3muxWindow;

#[test]
fn test_mark_format() {
    let window = I3muxWindow::new(12345, "local", "ws1-001");
    assert_eq!(window.mark(), "_i3mux:local:ws1-001");
}

#[test]
fn test_mark_format_remote() {
    let window = I3muxWindow::new(12345, "user@server", "ws2-003");
    assert_eq!(window.mark(), "_i3mux:user@server:ws2-003");
}

#[test]
fn test_from_mark_local() {
    let identity = I3muxWindow::from_mark("_i3mux:local:ws1-001").unwrap();
    assert_eq!(identity.host, "local");
    assert_eq!(identity.socket, "ws1-001");
}

#[test]
fn test_from_mark_remote() {
    let identity = I3muxWindow::from_mark("_i3mux:user@server:ws2-003").unwrap();
    assert_eq!(identity.host, "user@server");
    assert_eq!(identity.socket, "ws2-003");
}

#[test]
fn test_from_mark_invalid() {
    assert!(I3muxWindow::from_mark("random-mark").is_none());
    assert!(I3muxWindow::from_mark("i3mux:local:ws1").is_none()); // Missing underscore
    assert!(I3muxWindow::from_mark("_i3mux:nocolon").is_none());
}

#[test]
fn test_is_i3mux_mark() {
    assert!(I3muxWindow::is_i3mux_mark("_i3mux:local:ws1-001"));
    assert!(I3muxWindow::is_i3mux_mark("_i3mux:user@host:ws2-003"));
    assert!(!I3muxWindow::is_i3mux_mark("random-mark"));
    assert!(!I3muxWindow::is_i3mux_mark("i3mux-terminal"));
}

#[test]
fn mark_round_trip() {
    for (host, socket) in [("local", "ws1-001"), ("user@server", "ws2-003"), ("", ""), ("_i3mux", "x"), ("h", "")] {
        let mark = I3muxWindow::mark_from_parts(host, socket);
        let back = I3muxWindow::from_mark(&mark).unwrap();
        assert_eq!(back.window_id, 0);
        assert_eq!(back.host, host);
        assert_eq!(back.socket, socket);
        assert_eq!(back.mark(), mark);
    }
}

#[test]
fn from_mark_needs_exactly_one_colon_behind_the_prefix() {
    assert!(I3muxWindow::from_mark("_i3mux:").is_none());
    assert!(I3muxWindow::from_mark("_i3mux:host").is_none());
    assert!(I3muxWindow::from_mark("_i3mux:host:socket:more").is_none());
    assert!(I3muxWindow::from_mark("_i3mux:a:b:").is_none());
    assert!(I3muxWindow::from_mark("_i3mux:::").is_none());
    let w = I3muxWindow::from_mark("_i3mux::").unwrap();
    assert_eq!((w.host.as_str(), w.socket.as_str()), ("", ""));
}

#[test]
fn from_mark_needs_the_exact_prefix() {
    assert!(I3muxWindow::from_mark("").is_none());
    assert!(I3muxWindow::from_mark("_i3mux").is_none());
    assert!(I3muxWindow::from_mark("_I3MUX:a:b").is_none());
    assert!(I3muxWindow::from_mark(" _i3mux:a:b").is_none());
    assert!(I3muxWindow::from_mark("x_i3mux:a:b").is_none());
    assert!(!I3muxWindow::is_i3mux_mark(""));
    assert!(!I3muxWindow::is_i3mux_mark("_i3mux"));
    assert!(I3muxWindow::is_i3mux_mark("_i3mux:"));
}

#[test]
fn prefix_in_host_position_is_an_ordinary_host() {
    let w = I3muxWindow::from_mark("_i3mux:_i3mux:a").unwrap();
    assert_eq!((w.host.as_str(), w.socket.as_str()), ("_i3mux", "a"));
}

#[test]
fn window_equality_and_clone() {
    let a = I3muxWindow::new(1, "h", "s");
    assert_eq!(a.clone(), a);
    assert_ne!(a, I3muxWindow::new(2, "h", "s"));
    assert_ne!(a, I3muxWindow::new(1, "g", "s"));
    assert_ne!(a, I3muxWindow::new(1, "h", "t"));
    assert_eq!(i3mux::window::MARK_PREFIX, "_i3mux:");
}
