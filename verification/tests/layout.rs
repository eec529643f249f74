use i3mux::layout::{Layout, RestoreStep};

fn term(socket: &str) -> Layout {
    Layout::Terminal { socket: socket.to_string(), percent_bits: None }
}

fn spawn(socket: &str) -> String {
    format!("spawn {}", socket)
}

fn steps_text(layout: &Layout) -> Vec<String> {
    layout
        .restore_steps()
        .into_iter()
        .map(|s| match s {
            RestoreStep::Spawn { socket } => spawn(&socket),
            RestoreStep::Command { command } => command,
        })
        .collect()
}

#[test]
fn test_get_sockets() {
    let layout = Layout::HSplit {
        children: vec![
            Layout::Terminal {
                socket: "ws4-001".to_string(),
                percent_bits: Some(0.5f64.to_bits()),
            },
            Layout::VSplit {
                children: vec![
                    Layout::Terminal {
                        socket: "ws4-002".to_string(),
                        percent_bits: Some(0.5f64.to_bits()),
                    },
                    Layout::Terminal {
                        socket: "ws4-003".to_string(),
                        percent_bits: Some(0.5f64.to_bits()),
                    },
                ],
                percent_bits: Some(0.5f64.to_bits()),
            },
        ],
        percent_bits: None,
    };

    let sockets = layout.get_sockets();
    assert_eq!(sockets, vec!["ws4-001", "ws4-002", "ws4-003"]);
}

#[test]
fn commands_of_nested_splits() {
    let layout = Layout::HSplit {
        children: vec![
            term("a"),
            Layout::VSplit { children: vec![term("b"), term("c")], percent_bits: None },
        ],
        percent_bits: None,
    };
    assert_eq!(layout.generate_i3_commands(0), vec!["split h", "split v"]);
    assert_eq!(layout.generate_i3_commands(3), vec!["split h", "split v"]);
}

#[test]
fn commands_of_three_way_split() {
    let layout = Layout::VSplit { children: vec![term("a"), term("b"), term("c")], percent_bits: None };
    assert_eq!(layout.generate_i3_commands(0), vec!["split v", "split v"]);
}

#[test]
fn tabbed_and_stacked_directive_only_below_the_workspace() {
    let tabbed = Layout::Tabbed { children: vec![term("a"), term("b"), term("c")] };
    assert!(tabbed.generate_i3_commands(0).is_empty());
    assert_eq!(tabbed.generate_i3_commands(1), vec!["layout tabbed"]);
    assert_eq!(tabbed.generate_i3_commands(usize::MAX), vec!["layout tabbed"]);
    let stacked = Layout::Stacked { children: vec![term("a"), term("b")] };
    assert!(stacked.generate_i3_commands(0).is_empty());
    assert_eq!(stacked.generate_i3_commands(1), vec!["layout stacking"]);
}

#[test]
fn nested_tabs_in_split() {
    let layout = Layout::HSplit {
        children: vec![term("a"), Layout::Tabbed { children: vec![term("b"), term("c")] }],
        percent_bits: None,
    };
    assert_eq!(layout.generate_i3_commands(0), vec!["split h", "layout tabbed"]);
    let layout = Layout::Tabbed {
        children: vec![
            Layout::HSplit { children: vec![term("a"), term("b")], percent_bits: None },
            term("c"),
        ],
    };
    assert_eq!(layout.generate_i3_commands(0), vec!["split h"]);
    assert_eq!(layout.generate_i3_commands(1), vec!["layout tabbed", "split h"]);
}

#[test]
fn terminal_has_one_socket_and_no_commands() {
    let t = term("ws1-001");
    assert_eq!(t.get_sockets(), vec!["ws1-001"]);
    assert!(t.generate_i3_commands(0).is_empty());
    assert!(t.generate_i3_commands(1).is_empty());
    assert_eq!(steps_text(&t), vec![spawn("ws1-001")]);
}

#[test]
fn empty_container_has_nothing() {
    let layout = Layout::HSplit { children: Vec::new(), percent_bits: None };
    assert!(layout.get_sockets().is_empty());
    assert!(layout.generate_i3_commands(0).is_empty());
    assert!(layout.restore_steps().is_empty());
}

#[test]
fn two_terminal_horizontal_split_restores_with_one_split_between() {
    let layout = Layout::HSplit { children: vec![term("ws1-001"), term("ws1-002")], percent_bits: None };
    assert_eq!(steps_text(&layout), vec![spawn("ws1-001"), "split h".to_string(), spawn("ws1-002")]);
    let restored =
        Layout::parse_from_commands(&layout.generate_i3_commands(0), &layout.get_sockets()).unwrap();
    assert_eq!(restored.get_sockets(), vec!["ws1-001", "ws1-002"]);
    match restored {
        Layout::HSplit { children, .. } => assert_eq!(children.len(), 2),
        other => panic!("unexpected layout {:?}", other),
    }
}

#[test]
fn tabbed_with_three_restores_with_one_directive_after_the_first_spawn() {
    let layout = Layout::Tabbed { children: vec![term("a"), term("b"), term("c")] };
    let commands = layout.generate_i3_commands(1);
    assert_eq!(commands, vec!["layout tabbed"]);
    let restored = Layout::parse_from_commands(&commands, &layout.get_sockets()).unwrap();
    assert_eq!(restored.get_sockets(), vec!["a", "b", "c"]);
    match restored {
        Layout::Tabbed { children } => assert_eq!(children.len(), 3),
        other => panic!("unexpected layout {:?}", other),
    }
    // At the workspace itself no directive is given at all.
    assert_eq!(steps_text(&layout), vec![spawn("a"), spawn("b"), spawn("c")]);
    // Below the workspace the single directive stands between the first two spawns.
    let nested = Layout::HSplit { children: vec![layout], percent_bits: None };
    assert_eq!(
        steps_text(&nested),
        vec![spawn("a"), "layout tabbed".to_string(), spawn("b"), spawn("c")]
    );
}

#[test]
fn round_trip_keeps_socket_order() {
    let layout = Layout::HSplit {
        children: vec![
            Layout::VSplit { children: vec![term("1"), term("2")], percent_bits: None },
            Layout::Tabbed { children: vec![term("3"), Layout::Stacked { children: vec![term("4")] }] },
            term("5"),
        ],
        percent_bits: None,
    };
    let sockets = layout.get_sockets();
    assert_eq!(sockets, vec!["1", "2", "3", "4", "5"]);
    let restored = Layout::parse_from_commands(&layout.generate_i3_commands(0), &sockets).unwrap();
    assert_eq!(restored.get_sockets(), sockets);
}

#[test]
fn replay_rebuilds_right_nested_splits_exactly() {
    let layout = Layout::HSplit {
        children: vec![
            term("a"),
            Layout::VSplit { children: vec![term("b"), term("c")], percent_bits: None },
        ],
        percent_bits: None,
    };
    let restored =
        Layout::parse_from_commands(&layout.generate_i3_commands(0), &layout.get_sockets()).unwrap();
    match restored {
        Layout::HSplit { children, .. } => {
            assert_eq!(children.len(), 2);
            assert_eq!(children[0].get_sockets(), vec!["a"]);
            match &children[1] {
                Layout::VSplit { children, .. } => {
                    assert_eq!(children.len(), 2);
                    assert_eq!(children[0].get_sockets(), vec!["b"]);
                    assert_eq!(children[1].get_sockets(), vec!["c"]);
                }
                other => panic!("unexpected layout {:?}", other),
            }
        }
        other => panic!("unexpected layout {:?}", other),
    }
}

#[test]
fn replay_rejects_no_sockets_and_unknown_directives() {
    assert!(Layout::parse_from_commands(&vec!["split h".to_string()], &Vec::new()).is_none());
    let sockets = vec!["a".to_string(), "b".to_string()];
    assert!(Layout::parse_from_commands(&vec!["split x".to_string()], &sockets).is_none());
    // A directive behind the last socket is never run.
    let commands = vec!["split v".to_string(), "split h".to_string(), "bogus".to_string()];
    let restored = Layout::parse_from_commands(&commands, &sockets).unwrap();
    assert_eq!(restored.get_sockets(), vec!["a", "b"]);
}

#[test]
fn replay_stacking_directive_turns_the_container() {
    let sockets = vec!["a".to_string(), "b".to_string()];
    let restored = Layout::parse_from_commands(&vec!["layout stacking".to_string()], &sockets).unwrap();
    match restored {
        Layout::Stacked { children } => assert_eq!(children.len(), 2),
        other => panic!("unexpected layout {:?}", other),
    }
}
