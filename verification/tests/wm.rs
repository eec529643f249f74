use i3mux::wm::{get_focused_workspace, SocketProbe, WmBackend, WmError, WmType, WorkspaceInfo};

#[test]
fn test_wm_type_debug() {
    assert_eq!(format!("{:?}", WmType::I3), "I3");
    assert_eq!(format!("{:?}", WmType::Sway), "Sway");
}

fn probe(success: bool, stdout: &str) -> Option<SocketProbe> {
    Some(SocketProbe { success, stdout: stdout.to_string() })
}

#[test]
fn connect_prefers_sway_variable() {
    let b = WmBackend::connect(
        Some("/run/sway.sock".to_string()),
        Some("/run/i3.sock".to_string()),
        probe(true, "/p/sway\n"),
        probe(true, "/p/i3\n"),
    )
    .unwrap();
    assert_eq!(b.wm_type(), WmType::Sway);
    assert_eq!(b.socket_path(), "/run/sway.sock");
    assert_eq!(b.msg_command(), "swaymsg");
}

#[test]
fn connect_takes_i3_variable_before_probes() {
    let b = WmBackend::connect(None, Some("/run/i3.sock".to_string()), probe(true, "/p/sway\n"), None)
        .unwrap();
    assert_eq!(b.wm_type(), WmType::I3);
    assert_eq!(b.socket_path(), "/run/i3.sock");
    assert_eq!(b.msg_command(), "i3-msg");
}

#[test]
fn connect_falls_back_to_probes_and_trims() {
    let b = WmBackend::connect(None, None, probe(true, "  /p/sway \n"), probe(true, "/p/i3\n")).unwrap();
    assert_eq!(b.wm_type(), WmType::Sway);
    assert_eq!(b.socket_path(), "/p/sway");
    let b = WmBackend::connect(None, None, probe(false, "/p/sway\n"), probe(true, "/p/i3\n")).unwrap();
    assert_eq!(b.wm_type(), WmType::I3);
    assert_eq!(b.socket_path(), "/p/i3");
    let b = WmBackend::connect(None, None, probe(true, " \n"), probe(true, "/p/i3")).unwrap();
    assert_eq!(b.wm_type(), WmType::I3);
}

#[test]
fn connect_fails_without_window_manager() {
    let e = WmBackend::connect(None, None, probe(false, ""), None).unwrap_err();
    assert!(matches!(e, WmError::NoWindowManager));
    assert_eq!(
        e.message(),
        "No running window manager (i3 or Sway) detected. Ensure I3SOCK or SWAYSOCK is set."
    );
}

fn i3() -> WmBackend {
    WmBackend::connect(None, Some("/run/i3.sock".to_string()), None, None).unwrap()
}

#[test]
fn requests_name_program_socket_and_command() {
    let b = i3();
    let r = b.run_command("split h");
    assert_eq!(r.program, "i3-msg");
    assert_eq!(r.args, vec!["-s", "/run/i3.sock", "split h"]);
    let r = b.get_tree();
    assert_eq!(r.args, vec!["-s", "/run/i3.sock", "-t", "get_tree"]);
    let r = b.get_workspaces();
    assert_eq!(r.args, vec!["-s", "/run/i3.sock", "-t", "get_workspaces"]);
    let r = b.run_command_on_container(94212, "kill");
    assert_eq!(r.program, "i3-msg");
    assert_eq!(r.args, vec!["-s", "/run/i3.sock", "[con_id=\"94212\"] kill"]);
    let r = b.run_command_on_container(0, "focus");
    assert_eq!(r.args[2], "[con_id=\"0\"] focus");
    let r = b.run_command_on_container(u64::MAX, "focus");
    assert_eq!(r.args[2], "[con_id=\"18446744073709551615\"] focus");
}

#[test]
fn command_and_query_results() {
    let b = i3();
    assert!(b.command_result(true, "ignored").is_ok());
    let e = b.command_result(false, "  no such window\n").unwrap_err();
    assert_eq!(e.message(), "i3-msg command failed: no such window");
    assert!(b.query_result("get_tree", true).is_ok());
    let e = b.query_result("get_tree", false).unwrap_err();
    assert_eq!(e.message(), "i3-msg get_tree failed");
}

fn ws(num: i32, focused: bool) -> WorkspaceInfo {
    WorkspaceInfo { num, name: format!("{}", num), focused }
}

#[test]
fn focused_workspace_is_first_focused() {
    let list = vec![ws(1, false), ws(4, true), ws(7, true)];
    assert_eq!(get_focused_workspace(&list).unwrap(), ("4".to_string(), 4));
    let list = vec![ws(-1, true)];
    assert_eq!(get_focused_workspace(&list).unwrap(), ("-1".to_string(), -1));
    let list = vec![ws(i32::MIN, true)];
    assert_eq!(get_focused_workspace(&list).unwrap(), ("-2147483648".to_string(), i32::MIN));
    let list = vec![ws(120, true)];
    assert_eq!(get_focused_workspace(&list).unwrap().0, "120");
}

#[test]
fn no_focused_workspace_is_an_error() {
    let list = vec![ws(1, false), ws(2, false)];
    let e = get_focused_workspace(&list).unwrap_err();
    assert!(matches!(e, WmError::NoFocusedWorkspace));
    assert_eq!(e.message(), "No focused workspace found");
    assert!(get_focused_workspace(&Vec::new()).is_err());
}
