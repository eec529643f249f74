use i3mux::layout::Layout;
use i3mux::tree::{NodeKind, NodeLayout, TreeNode};
use i3mux::window::{
    find_i3mux_windows_in_workspace, find_window_by_instance, find_workspace_node,
    identity_from_marks, kill_command, kill_i3mux_windows_in_workspace,
    wait_for_window_and_mark, workspace_has_i3mux_windows, I3muxWindow, WaitStep, WindowError,
    WINDOW_WAIT_INTERVAL_MS, WINDOW_WAIT_MAX_ATTEMPTS,
};

fn con(layout: NodeLayout, nodes: Vec<TreeNode>) -> TreeNode {
    TreeNode {
        kind: NodeKind::Other,
        num: None,
        window: None,
        instance: None,
        marks: Vec::new(),
        layout,
        percent_bits: None,
        nodes,
        floating_nodes: Vec::new(),
    }
}

fn workspace(num: i64, layout: NodeLayout, nodes: Vec<TreeNode>, floating: Vec<TreeNode>) -> TreeNode {
    TreeNode {
        kind: NodeKind::Workspace,
        num: Some(num),
        window: None,
        instance: None,
        marks: Vec::new(),
        layout,
        percent_bits: None,
        nodes,
        floating_nodes: floating,
    }
}

fn window(id: u64, instance: &str, marks: &[&str]) -> TreeNode {
    TreeNode {
        kind: NodeKind::Other,
        num: None,
        window: Some(id),
        instance: Some(instance.to_string()),
        marks: marks.iter().map(|m| m.to_string()).collect(),
        layout: NodeLayout::SplitH,
        percent_bits: Some(0.5f64.to_bits()),
        nodes: Vec::new(),
        floating_nodes: Vec::new(),
    }
}

fn managed(id: u64, host: &str, socket: &str) -> TreeNode {
    let mark = I3muxWindow::mark_from_parts(host, socket);
    window(id, &mark, &[&mark])
}

fn root(workspaces: Vec<TreeNode>) -> TreeNode {
    con(NodeLayout::Other, vec![con(NodeLayout::Other, vec![con(NodeLayout::SplitH, workspaces)])])
}

fn sample() -> TreeNode {
    root(vec![
        workspace(
            1,
            NodeLayout::SplitH,
            vec![managed(11, "user@server", "ws1-001"), window(12, "firefox", &[])],
            vec![con(NodeLayout::SplitV, vec![managed(13, "user@server", "ws1-002")])],
        ),
        workspace(2, NodeLayout::Tabbed, vec![window(21, "xterm", &["scratch"])], Vec::new()),
    ])
}

#[test]
fn finds_window_by_instance_in_tiled_and_floating_nodes() {
    let tree = sample();
    assert_eq!(find_window_by_instance(&tree, "firefox"), Some(12));
    assert_eq!(find_window_by_instance(&tree, "_i3mux:user@server:ws1-002"), Some(13));
    assert_eq!(find_window_by_instance(&tree, "xterm"), Some(21));
    assert_eq!(find_window_by_instance(&tree, "nothing"), None);
}

#[test]
fn instance_without_window_handle_does_not_count() {
    let mut node = window(5, "foot", &[]);
    node.window = None;
    let tree = root(vec![workspace(1, NodeLayout::SplitH, vec![node], Vec::new())]);
    assert_eq!(find_window_by_instance(&tree, "foot"), None);
}

#[test]
fn first_window_in_tree_order_wins() {
    let tree = root(vec![workspace(
        1,
        NodeLayout::SplitH,
        vec![con(NodeLayout::SplitV, vec![window(7, "foot", &[])]), window(8, "foot", &[])],
        vec![window(6, "foot", &[])],
    )]);
    assert_eq!(find_window_by_instance(&tree, "foot"), Some(7));
}

#[test]
fn finds_workspace_by_number() {
    let tree = sample();
    assert_eq!(find_workspace_node(&tree, 2).unwrap().num, Some(2));
    assert_eq!(find_workspace_node(&tree, 1).unwrap().nodes.len(), 2);
    assert!(find_workspace_node(&tree, 3).is_none());
    assert!(find_workspace_node(&tree, -1).is_none());
}

#[test]
fn workspace_in_floating_nodes_is_not_found() {
    let mut tree = con(NodeLayout::Other, Vec::new());
    tree.floating_nodes.push(workspace(4, NodeLayout::SplitH, Vec::new(), Vec::new()));
    assert!(find_workspace_node(&tree, 4).is_none());
}

#[test]
fn collects_managed_windows_of_one_workspace() {
    let tree = sample();
    let windows = find_i3mux_windows_in_workspace(&tree, 1);
    assert_eq!(
        windows,
        vec![
            I3muxWindow::new(11, "user@server", "ws1-001"),
            I3muxWindow::new(13, "user@server", "ws1-002"),
        ]
    );
    assert!(find_i3mux_windows_in_workspace(&tree, 2).is_empty());
    assert!(find_i3mux_windows_in_workspace(&tree, 9).is_empty());
    assert!(workspace_has_i3mux_windows(&tree, 1));
    assert!(!workspace_has_i3mux_windows(&tree, 2));
    assert!(!workspace_has_i3mux_windows(&tree, 9));
}

#[test]
fn window_counts_once_by_its_first_recognized_mark() {
    let node = window(3, "x", &["other", "_i3mux:nocolon", "_i3mux:a:s1", "_i3mux:b:s2"]);
    let tree = root(vec![workspace(1, NodeLayout::SplitH, vec![node], Vec::new())]);
    assert_eq!(find_i3mux_windows_in_workspace(&tree, 1), vec![I3muxWindow::new(3, "a", "s1")]);
}

#[test]
fn marks_without_window_handle_do_not_count() {
    let mut node = window(3, "x", &["_i3mux:a:s1"]);
    node.window = None;
    let tree = root(vec![workspace(1, NodeLayout::SplitH, vec![node], Vec::new())]);
    assert!(find_i3mux_windows_in_workspace(&tree, 1).is_empty());
}

#[test]
fn identity_from_marks_takes_first_valid_mark() {
    let marks = vec!["x".to_string(), "_i3mux:h:s".to_string(), "_i3mux:h2:s2".to_string()];
    let w = identity_from_marks(&marks).unwrap();
    assert_eq!((w.window_id, w.host.as_str(), w.socket.as_str()), (0, "h", "s"));
    assert!(identity_from_marks(&vec!["x".to_string()]).is_none());
    assert!(identity_from_marks(&Vec::new()).is_none());
}

#[test]
fn detach_of_mixed_windows_closes_only_the_tagged_ones() {
    let tree = root(vec![workspace(
        13,
        NodeLayout::SplitH,
        vec![
            managed(101, "testuser@i3mux-remote-ssh", "ws13-001"),
            window(102, "xterm", &[]),
            managed(103, "testuser@i3mux-remote-ssh", "ws13-002"),
        ],
        Vec::new(),
    )]);
    let commands = kill_i3mux_windows_in_workspace(&tree, 13);
    assert_eq!(commands, vec!["[id=\"101\"] kill", "[id=\"103\"] kill"]);
    let layout = Layout::capture_from_workspace_num(&tree, 13).unwrap();
    assert_eq!(layout.get_sockets(), vec!["ws13-001", "ws13-002"]);
}

#[test]
fn kill_command_text() {
    assert_eq!(kill_command(0), "[id=\"0\"] kill");
    assert_eq!(kill_command(94211234), "[id=\"94211234\"] kill");
    assert!(kill_i3mux_windows_in_workspace(&sample(), 2).is_empty());
}

#[test]
fn mark_command_and_apply_mark() {
    let w = I3muxWindow::new(12345, "user@server", "ws2-003");
    assert_eq!(w.mark_command(), "[id=\"12345\"] mark --add _i3mux:user@server:ws2-003");
    assert!(w.apply_mark(&vec![true]).is_ok());
    assert!(w.apply_mark(&vec![false, true]).is_ok());
    let e = w.apply_mark(&vec![false, false]).unwrap_err();
    assert_eq!(e.message(), "Failed to apply mark '_i3mux:user@server:ws2-003' to window 12345");
    let e = w.apply_mark(&Vec::new()).unwrap_err();
    assert!(matches!(e, WindowError::MarkFailed { window_id: 12345, .. }));
}

#[test]
fn wait_marks_the_window_as_soon_as_it_shows() {
    let tree = sample();
    let instance = "_i3mux:user@server:ws1-002";
    match wait_for_window_and_mark(Some(&tree), instance, "user@server", "ws1-002", 0) {
        WaitStep::Mark { window, command } => {
            assert_eq!(window, I3muxWindow::new(13, "user@server", "ws1-002"));
            assert_eq!(command, "[id=\"13\"] mark --add _i3mux:user@server:ws1-002");
        }
        other => panic!("unexpected step {:?}", other),
    }
    // Also at the last attempt.
    let last = WINDOW_WAIT_MAX_ATTEMPTS - 1;
    assert!(matches!(
        wait_for_window_and_mark(Some(&tree), instance, "user@server", "ws1-002", last),
        WaitStep::Mark { .. }
    ));
}

#[test]
fn wait_retries_until_the_budget_is_spent() {
    let tree = sample();
    let mut attempt = 0;
    let mut queries = 0;
    loop {
        queries += 1;
        match wait_for_window_and_mark(Some(&tree), "missing", "h", "s", attempt) {
            WaitStep::Retry { attempt: next } => {
                assert_eq!(next, attempt + 1);
                attempt = next;
            }
            WaitStep::Failed { error } => {
                assert_eq!(
                    error.message(),
                    "Failed to find window with instance 'missing' after 30 attempts"
                );
                break;
            }
            other => panic!("unexpected step {:?}", other),
        }
    }
    assert_eq!(queries, WINDOW_WAIT_MAX_ATTEMPTS);
    assert_eq!(WINDOW_WAIT_MAX_ATTEMPTS, 30);
    assert_eq!(WINDOW_WAIT_INTERVAL_MS, 100);
}

#[test]
fn wait_treats_a_failed_query_as_no_window() {
    assert!(matches!(
        wait_for_window_and_mark(None, "x", "h", "s", 3),
        WaitStep::Retry { attempt: 4 }
    ));
    assert!(matches!(
        wait_for_window_and_mark(None, "x", "h", "s", 29),
        WaitStep::Failed { error: WindowError::NotFound { attempts: 30, .. } }
    ));
    assert!(matches!(
        wait_for_window_and_mark(None, "x", "h", "s", u32::MAX),
        WaitStep::Failed { .. }
    ));
}

#[test]
fn capture_prunes_what_shows_no_terminal() {
    let tree = workspace(
        4,
        NodeLayout::SplitH,
        vec![
            con(NodeLayout::Tabbed, vec![window(1, "firefox", &[]), con(NodeLayout::SplitV, Vec::new())]),
            con(
                NodeLayout::SplitV,
                vec![
                    managed(2, "h", "ws4-001"),
                    con(NodeLayout::Stacked, vec![window(3, "xterm", &[])]),
                    managed(4, "h", "ws4-002"),
                ],
            ),
        ],
        Vec::new(),
    );
    let layout = Layout::capture_from_workspace(&tree).unwrap();
    match &layout {
        Layout::HSplit { children, .. } => {
            assert_eq!(children.len(), 1);
            match &children[0] {
                Layout::VSplit { children, .. } => {
                    assert_eq!(children.len(), 2);
                    assert!(matches!(children[0], Layout::Terminal { .. }));
                    assert!(matches!(children[1], Layout::Terminal { .. }));
                }
                other => panic!("unexpected layout {:?}", other),
            }
        }
        other => panic!("unexpected layout {:?}", other),
    }
    assert_eq!(layout.get_sockets(), vec!["ws4-001", "ws4-002"]);
}

#[test]
fn capture_of_workspace_without_terminals_is_none() {
    let tree = workspace(7, NodeLayout::SplitH, vec![window(1, "firefox", &[])], Vec::new());
    assert!(Layout::capture_from_workspace(&tree).is_none());
    let empty = workspace(7, NodeLayout::SplitH, Vec::new(), Vec::new());
    assert!(Layout::capture_from_workspace(&empty).is_none());
    assert!(Layout::capture_from_workspace_num(&sample(), 2).is_none());
    assert!(Layout::capture_from_workspace_num(&sample(), 99).is_none());
}

#[test]
fn capture_unions_floating_children_behind_tiled_ones() {
    let layout = Layout::capture_from_workspace_num(&sample(), 1).unwrap();
    assert_eq!(layout.get_sockets(), vec!["ws1-001", "ws1-002"]);
    match layout {
        Layout::HSplit { children, percent_bits } => {
            assert_eq!(percent_bits, None);
            assert_eq!(children.len(), 2);
            match &children[0] {
                Layout::Terminal { socket, percent_bits } => {
                    assert_eq!(socket, "ws1-001");
                    assert_eq!(*percent_bits, Some(0.5f64.to_bits()));
                }
                other => panic!("unexpected layout {:?}", other),
            }
            assert!(matches!(children[1], Layout::VSplit { .. }));
        }
        other => panic!("unexpected layout {:?}", other),
    }
}

#[test]
fn capture_takes_container_kind_from_designator() {
    let kinds = [
        (NodeLayout::SplitH, "h"),
        (NodeLayout::SplitV, "v"),
        (NodeLayout::Tabbed, "t"),
        (NodeLayout::Stacked, "s"),
        (NodeLayout::Other, "v"),
    ];
    for (designator, expected) in kinds {
        let tree = con(designator, vec![managed(1, "h", "s1")]);
        let got = match Layout::capture_from_workspace(&tree).unwrap() {
            Layout::HSplit { .. } => "h",
            Layout::VSplit { .. } => "v",
            Layout::Tabbed { .. } => "t",
            Layout::Stacked { .. } => "s",
            Layout::Terminal { .. } => "terminal",
        };
        assert_eq!(got, expected);
    }
}

#[test]
fn capture_recognizes_terminal_by_mark_or_instance() {
    // By mark, whatever the instance.
    let by_mark = window(1, "foot", &["_i3mux:h:s1"]);
    // By instance, where no mark is recognized.
    let by_instance = window(2, "_i3mux:h:s2", &["unrelated"]);
    // The mark wins over the instance.
    let both = window(3, "_i3mux:h:from-instance", &["_i3mux:h:from-mark"]);
    // The title prefix alone is no tag.
    let title_like = window(4, "i3mux:h:s4", &[]);
    let tree = con(NodeLayout::SplitH, vec![by_mark, by_instance, both, title_like]);
    let layout = Layout::capture_from_workspace(&tree).unwrap();
    assert_eq!(layout.get_sockets(), vec!["s1", "s2", "from-mark"]);
}

#[test]
fn capture_of_terminal_node_ignores_its_children() {
    let mut node = managed(1, "h", "s1");
    node.nodes.push(managed(2, "h", "s2"));
    let layout = Layout::capture_from_workspace(&node).unwrap();
    assert_eq!(layout.get_sockets(), vec!["s1"]);
}

#[test]
fn captured_layout_round_trips_through_commands() {
    let layout = Layout::capture_from_workspace_num(&sample(), 1).unwrap();
    let copy = layout.clone();
    assert_eq!(copy.get_sockets(), layout.get_sockets());
    assert_eq!(copy.generate_i3_commands(0), vec!["split h"]);
    let restored =
        Layout::parse_from_commands(&layout.generate_i3_commands(0), &layout.get_sockets()).unwrap();
    assert_eq!(restored.get_sockets(), layout.get_sockets());
}
