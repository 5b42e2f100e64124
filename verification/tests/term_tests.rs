use cathode::term::{
    hide_next, hide_start, hypr_window_from_fields, show_commands, HideStage, HideStep, ShellCommand, TermWindow,
};

fn args(c: &ShellCommand) -> Vec<&str> {
    c.args.iter().map(|a| a.as_str()).collect()
}

#[test]
fn hyprland_is_asked_first() {
    let (stage, c) = hide_start();
    assert_eq!(stage, HideStage::Hyprland);
    assert_eq!(c.program, "hyprctl");
    assert_eq!(args(&c), vec!["activewindow", "-j"]);
}

#[test]
fn hyprland_window_is_moved() {
    let json = br#"{"address":"0x55aa","workspace":{"id":2,"name":"web"}}"#;
    match hide_next(HideStage::Hyprland, true, json) {
        HideStep::RunThen(c, TermWindow::Hyprland { address, workspace }) => {
            assert_eq!(args(&c), vec!["dispatch", "movetoworkspacesilent", "special:cathode,address:0x55aa"]);
            assert_eq!(address, "0x55aa");
            assert_eq!(workspace, "web");
        }
        _ => panic!("expected hyprland"),
    }
    match hide_next(HideStage::Hyprland, true, br#"{"address":"0x1"}"#) {
        HideStep::RunThen(_, TermWindow::Hyprland { workspace, .. }) => assert_eq!(workspace, "1"),
        _ => panic!("expected hyprland"),
    }
}

#[test]
fn falls_back_to_sway_then_x11() {
    match hide_next(HideStage::Hyprland, false, b"") {
        HideStep::Ask(HideStage::SwayTree, c) => assert_eq!(args(&c), vec!["-t", "get_tree"]),
        _ => panic!("expected sway"),
    }
    assert!(matches!(hide_next(HideStage::Hyprland, true, b"not json"), HideStep::Ask(HideStage::SwayTree, _)));
    assert!(matches!(hide_next(HideStage::Hyprland, true, br#"{"address":""}"#), HideStep::Ask(HideStage::SwayTree, _)));
    match hide_next(HideStage::SwayTree, true, b"{}") {
        HideStep::Ask(HideStage::SwayMove, c) => assert_eq!(args(&c), vec!["move", "scratchpad"]),
        _ => panic!("expected the scratchpad move"),
    }
    assert!(matches!(hide_next(HideStage::SwayMove, true, b""), HideStep::Done(TermWindow::Sway)));
    assert!(matches!(hide_next(HideStage::SwayMove, false, b""), HideStep::Ask(HideStage::X11, _)));
    match hide_next(HideStage::SwayTree, false, b"") {
        HideStep::Ask(HideStage::X11, c) => {
            assert_eq!(c.program, "xdotool");
            assert_eq!(args(&c), vec!["getactivewindow"]);
        }
        _ => panic!("expected x11"),
    }
}

#[test]
fn x11_window_is_unmapped() {
    match hide_next(HideStage::X11, true, b" 12345\n") {
        HideStep::RunThen(c, TermWindow::X11 { wid }) => {
            assert_eq!(args(&c), vec!["windowunmap", "--sync", "12345"]);
            assert!(!c.capture);
            assert_eq!(wid, "12345");
        }
        _ => panic!("expected x11"),
    }
    assert!(matches!(hide_next(HideStage::X11, true, b"  \n"), HideStep::Done(TermWindow::Unchanged)));
    assert!(matches!(hide_next(HideStage::X11, false, b"1"), HideStep::Done(TermWindow::Unchanged)));
}

#[test]
fn showing_again() {
    let cs = show_commands(&TermWindow::Hyprland { address: "0x1".to_string(), workspace: "web".to_string() });
    assert_eq!(cs.len(), 2);
    assert_eq!(args(&cs[0]), vec!["dispatch", "movetoworkspacesilent", "web,address:0x1"]);
    assert_eq!(args(&cs[1]), vec!["dispatch", "focuswindow", "address:0x1"]);
    let cs = show_commands(&TermWindow::X11 { wid: "9".to_string() });
    assert_eq!(args(&cs[0]), vec!["windowmap", "9"]);
    assert_eq!(args(&cs[1]), vec!["windowactivate", "9"]);
    assert_eq!(show_commands(&TermWindow::Sway).len(), 1);
    assert!(show_commands(&TermWindow::Unchanged).is_empty());
}

#[test]
fn hyprland_window_from_fields() {
    let s = |x: &str| Some(x.to_string());
    assert_eq!(
        hypr_window_from_fields(Some((s("0x55aa"), s("web")))),
        Some(("0x55aa".to_string(), "web".to_string()))
    );
    assert_eq!(hypr_window_from_fields(Some((s("0x1"), None))), Some(("0x1".to_string(), "1".to_string())));
    assert_eq!(hypr_window_from_fields(Some((s(""), s("web")))), None);
    assert_eq!(hypr_window_from_fields(Some((None, s("web")))), None);
    assert_eq!(hypr_window_from_fields(None), None);
}

#[test]
fn hyprland_answer_without_address_asks_sway() {
    match hide_next(HideStage::Hyprland, true, br#"{"workspace":{"name":"web"}}"#) {
        HideStep::Ask(HideStage::SwayTree, _) => {}
        _ => panic!("expected sway"),
    }
    match hide_next(HideStage::Hyprland, true, b"not json") {
        HideStep::Ask(HideStage::SwayTree, _) => {}
        _ => panic!("expected sway"),
    }
}
