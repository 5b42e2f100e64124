//! Hiding the terminal window while a video plays, and showing it again afterwards.

use vstd::prelude::*;
use crate::text::{lossy_utf8, trim_whitespace, trimmed, utf8_lossy};

verus! {

/// Where the terminal window was put while the player runs.
pub enum TermWindow {
    /// Moved to a special workspace of the Hyprland compositor, from this window address and
    /// workspace name.
    Hyprland { address: String, workspace: String },
    /// Moved to the Sway scratchpad.
    Sway,
    /// Unmapped in X11; the window id.
    X11 { wid: String },
    /// Left alone.
    Unchanged,
}

/// A program to run with its arguments; `capture` tells whether its output is collected
/// (otherwise it inherits the terminal).
pub struct ShellCommand {
    pub program: String,
    pub args: Vec<String>,
    pub capture: bool,
}

/// A command as text.
pub open spec fn command_is(c: ShellCommand, program: Seq<char>, args: Seq<Seq<char>>, capture: bool) -> bool {
    &&& c.program@ == program
    &&& c.args@.len() == args.len()
    &&& forall|i: int| 0 <= i < args.len() ==> #[trigger] c.args@[i]@ == args[i]
    &&& c.capture == capture
}

fn command(program: &str, args: Vec<String>, capture: bool) -> (c: ShellCommand)
    ensures
        c.program@ == program@,
        c.args == args,
        c.capture == capture,
{
    ShellCommand { program: program.to_owned(), args, capture }
}

fn args2(a: &str, b: &str) -> (v: Vec<String>)
    ensures
        v@.len() == 2,
        v@[0]@ == a@,
        v@[1]@ == b@,
{
    let mut v: Vec<String> = Vec::new();
    v.push(a.to_owned());
    v.push(b.to_owned());
    v
}

fn args3(a: &str, b: &str, c: String) -> (v: Vec<String>)
    ensures
        v@.len() == 3,
        v@[0]@ == a@,
        v@[1]@ == b@,
        v@[2] == c,
{
    let mut v: Vec<String> = Vec::new();
    v.push(a.to_owned());
    v.push(b.to_owned());
    v.push(c);
    v
}

/// The views of optional strings.
pub open spec fn opt_view(o: Option<String>) -> Option<Seq<char>> {
    match o {
        Some(s) => Some(s@),
        None => None,
    }
}

/// The view of a pair of optional fields, itself optional.
pub open spec fn fields_view(f: Option<(Option<String>, Option<String>)>) -> Option<(Option<Seq<char>>, Option<Seq<char>>)> {
    match f {
        Some((a, w)) => Some((opt_view(a), opt_view(w))),
        None => None,
    }
}

/// What `serde_json::from_slice` reads from Hyprland's description of the active window: none
/// when it is not JSON, else the string at `address` and the string at `workspace.name`, each
/// absent when missing or not a string.
pub uninterp spec fn hypr_window_fields(json: Seq<u8>) -> Option<(Option<Seq<char>>, Option<Seq<char>>)>;

/// Reads the window address and workspace name from `hyprctl activewindow -j` output with
/// `serde_json::from_slice` into a `serde_json::Value` and `Value::as_str`; the fields are the
/// named result `hypr_window_fields`, not stated here.
#[verifier::external_body]
fn active_window_fields(json: &[u8]) -> (r: Option<(Option<String>, Option<String>)>)
    ensures
        fields_view(r) == hypr_window_fields(json@),
{
    let val: serde_json::Value = serde_json::from_slice(json).ok()?;
    Some((val["address"].as_str().map(String::from), val["workspace"]["name"].as_str().map(String::from)))
}

/// The stages of hiding the terminal: each asks a window manager in turn.
#[derive(PartialEq, Eq, Structural, Clone, Copy, Debug)]
pub enum HideStage {
    /// Asked Hyprland for the active window.
    Hyprland,
    /// Asked Sway for its tree.
    SwayTree,
    /// Asked Sway to move the window to the scratchpad.
    SwayMove,
    /// Asked X11 for the active window.
    X11,
}

/// The next move in hiding the terminal.
pub enum HideStep {
    /// Run this command and report its outcome at this stage.
    Ask(HideStage, ShellCommand),
    /// Run this command, ignoring its outcome, and the terminal is hidden this way.
    RunThen(ShellCommand, TermWindow),
    /// The terminal is hidden this way (or not at all).
    Done(TermWindow),
}

/// The first question: Hyprland's active window.
pub fn hide_start() -> (r: (HideStage, ShellCommand))
    ensures
        r.0 == HideStage::Hyprland,
        command_is(r.1, "hyprctl"@, seq!["activewindow"@, "-j"@], true),
{
    (HideStage::Hyprland, command("hyprctl", args2("activewindow", "-j"), true))
}

fn ask_sway() -> (r: HideStep)
    ensures
        r matches HideStep::Ask(HideStage::SwayTree, c) && command_is(c, "swaymsg"@, seq!["-t"@, "get_tree"@], true),
{
    HideStep::Ask(HideStage::SwayTree, command("swaymsg", args2("-t", "get_tree"), true))
}

fn ask_x11() -> (r: HideStep)
    ensures
        r matches HideStep::Ask(HideStage::X11, c) && command_is(c, "xdotool"@, seq!["getactivewindow"@], true),
{
    let mut a: Vec<String> = Vec::new();
    a.push("getactivewindow".to_owned());
    HideStep::Ask(HideStage::X11, command("xdotool", a, true))
}

/// The Hyprland window described by the fields read from an answer: its address (required to
/// be present and non-empty) and its workspace name, `1` when absent.
pub open spec fn hypr_window(fields: Option<(Option<Seq<char>>, Option<Seq<char>>)>) -> Option<(Seq<char>, Seq<char>)> {
    match fields {
        Some((a, w)) => {
            let addr = match a { Some(x) => x, None => seq![] };
            let ws = match w { Some(x) => x, None => "1"@ };
            if addr.len() > 0 { Some((addr, ws)) } else { None }
        },
        None => None,
    }
}

/// The Hyprland window found in an answer.
pub open spec fn hypr_found(json: Seq<u8>) -> Option<(Seq<char>, Seq<char>)> {
    hypr_window(hypr_window_fields(json))
}

/// Picks the Hyprland window out of the fields read from `hyprctl activewindow -j`: the
/// address and the workspace name (`1` when absent), or none when the answer was not JSON or
/// its address is missing or empty.
pub fn hypr_window_from_fields(fields: Option<(Option<String>, Option<String>)>) -> (r: Option<(String, String)>)
    ensures
        match r {
            Some((a, w)) => hypr_window(fields_view(fields)) == Some((a@, w@)),
            None => hypr_window(fields_view(fields)) is None,
        },
{
    match fields {
        Some((a, w)) => {
            let addr = match a {
                Some(x) => x,
                None => String::new(),
            };
            let ws = match w {
                Some(x) => x,
                None => "1".to_owned(),
            };
            if addr.as_str().is_empty() {
                None
            } else {
                Some((addr, ws))
            }
        },
        None => None,
    }
}

/// What follows an answer at a stage: `ok` tells whether the command ran and succeeded, and
/// `out` is what it printed.
pub open spec fn spec_hide_next(stage: HideStage, ok: bool, out: Seq<u8>, r: HideStep) -> bool {
    match stage {
        HideStage::Hyprland => if ok && hypr_found(out) is Some {
            let (addr, ws) = hypr_found(out)->0;
            r matches HideStep::RunThen(c, TermWindow::Hyprland { address, workspace })
                && command_is(c, "hyprctl"@, seq!["dispatch"@, "movetoworkspacesilent"@, "special:cathode,address:"@ + addr], true)
                && address@ == addr && workspace@ == ws
        } else {
            r matches HideStep::Ask(HideStage::SwayTree, c) && command_is(c, "swaymsg"@, seq!["-t"@, "get_tree"@], true)
        },
        HideStage::SwayTree => if ok {
            r matches HideStep::Ask(HideStage::SwayMove, c) && command_is(c, "swaymsg"@, seq!["move"@, "scratchpad"@], true)
        } else {
            r matches HideStep::Ask(HideStage::X11, c) && command_is(c, "xdotool"@, seq!["getactivewindow"@], true)
        },
        HideStage::SwayMove => if ok {
            r matches HideStep::Done(TermWindow::Sway)
        } else {
            r matches HideStep::Ask(HideStage::X11, c) && command_is(c, "xdotool"@, seq!["getactivewindow"@], true)
        },
        HideStage::X11 => {
            let wid = trimmed(lossy_utf8(out));
            if ok && wid.len() > 0 {
                r matches HideStep::RunThen(c, TermWindow::X11 { wid: w })
                    && command_is(c, "xdotool"@, seq!["windowunmap"@, "--sync"@, wid], false)
                    && w@ == wid
            } else {
                r matches HideStep::Done(TermWindow::Unchanged)
            }
        },
    }
}

/// Decides the next move in hiding the terminal from the answer at a stage: Hyprland first,
/// then Sway, then X11, else nothing.
pub fn hide_next(stage: HideStage, ok: bool, out: &[u8]) -> (r: HideStep)
    ensures
        spec_hide_next(stage, ok, out@, r),
{
    match stage {
        HideStage::Hyprland => {
            if ok {
                match hypr_window_from_fields(active_window_fields(out)) {
                    Some((addr, ws)) => {
                        let mut target = "special:cathode,address:".to_owned();
                        target.append(addr.as_str());
                        let c = command("hyprctl", args3("dispatch", "movetoworkspacesilent", target), true);
                        return HideStep::RunThen(c, TermWindow::Hyprland { address: addr, workspace: ws });
                    },
                    None => {},
                }
            }
            ask_sway()
        },
        HideStage::SwayTree => {
            if ok {
                HideStep::Ask(HideStage::SwayMove, command("swaymsg", args2("move", "scratchpad"), true))
            } else {
                ask_x11()
            }
        },
        HideStage::SwayMove => {
            if ok {
                HideStep::Done(TermWindow::Sway)
            } else {
                ask_x11()
            }
        },
        HideStage::X11 => {
            let text = utf8_lossy(out);
            let wid = trim_whitespace(text.as_str());
            if ok && !wid.as_str().is_empty() {
                let c = command("xdotool", args3("windowunmap", "--sync", wid.clone()), false);
                HideStep::RunThen(c, TermWindow::X11 { wid })
            } else {
                HideStep::Done(TermWindow::Unchanged)
            }
        },
    }
}

/// The commands that bring the terminal back, in order.
pub open spec fn spec_show_commands(win: TermWindow, cs: Seq<ShellCommand>) -> bool {
    match win {
        TermWindow::Hyprland { address, workspace } => {
            &&& cs.len() == 2
            &&& command_is(cs[0], "hyprctl"@, seq!["dispatch"@, "movetoworkspacesilent"@, workspace@ + ",address:"@ + address@], true)
            &&& command_is(cs[1], "hyprctl"@, seq!["dispatch"@, "focuswindow"@, "address:"@ + address@], true)
        },
        TermWindow::Sway => cs.len() == 1 && command_is(cs[0], "swaymsg"@, seq!["scratchpad"@, "show"@], true),
        TermWindow::X11 { wid } => {
            &&& cs.len() == 2
            &&& command_is(cs[0], "xdotool"@, seq!["windowmap"@, wid@], false)
            &&& command_is(cs[1], "xdotool"@, seq!["windowactivate"@, wid@], false)
        },
        TermWindow::Unchanged => cs.len() == 0,
    }
}

/// The arguments of a command as text.
pub open spec fn args_text(c: ShellCommand) -> Seq<Seq<char>> {
    c.args@.map_values(|a: String| a@)
}

/// Showing undoes a Sway hide: once the terminal went to the scratchpad, the one restoring
/// command goes to the same program but is not the move that hid it; it shows the scratchpad.
pub proof fn law_sway_show_undoes_hide(out1: Seq<u8>, out2: Seq<u8>, hide: ShellCommand, win: TermWindow, cs: Seq<ShellCommand>)
    requires
        spec_hide_next(HideStage::SwayTree, true, out1, HideStep::Ask(HideStage::SwayMove, hide)),
        spec_hide_next(HideStage::SwayMove, true, out2, HideStep::Done(win)),
        spec_show_commands(win, cs),
    ensures
        win == TermWindow::Sway,
        cs.len() == 1,
        cs[0].program@ == hide.program@,
        args_text(hide) == seq!["move"@, "scratchpad"@],
        args_text(cs[0]) == seq!["scratchpad"@, "show"@],
        args_text(cs[0]) != args_text(hide),
{
    assert(args_text(hide) =~= seq!["move"@, "scratchpad"@]);
    assert(args_text(cs[0]) =~= seq!["scratchpad"@, "show"@]);
    reveal_strlit("move");
    reveal_strlit("scratchpad");
    assert("scratchpad"@.len() != "move"@.len());
    assert(args_text(cs[0])[0] != args_text(hide)[0]);
}

/// Showing undoes a Hyprland hide: the window whose address was moved to the special
/// workspace is moved back to the workspace it was found on, then focused.
pub proof fn law_hyprland_show_undoes_hide(out: Seq<u8>, hide: ShellCommand, win: TermWindow, cs: Seq<ShellCommand>)
    requires
        spec_hide_next(HideStage::Hyprland, true, out, HideStep::RunThen(hide, win)),
        spec_show_commands(win, cs),
    ensures
        hypr_found(out) matches Some((addr, ws)) && {
            &&& args_text(hide) == seq!["dispatch"@, "movetoworkspacesilent"@, "special:cathode,address:"@ + addr]
            &&& cs.len() == 2
            &&& args_text(cs[0]) == seq!["dispatch"@, "movetoworkspacesilent"@, ws + ",address:"@ + addr]
            &&& args_text(cs[1]) == seq!["dispatch"@, "focuswindow"@, "address:"@ + addr]
            &&& cs[0].program@ == hide.program@ && cs[1].program@ == hide.program@
        },
{
    let (addr, ws) = hypr_found(out)->0;
    assert(args_text(hide) =~= seq!["dispatch"@, "movetoworkspacesilent"@, "special:cathode,address:"@ + addr]);
    assert(args_text(cs[0]) =~= seq!["dispatch"@, "movetoworkspacesilent"@, ws + ",address:"@ + addr]);
    assert(args_text(cs[1]) =~= seq!["dispatch"@, "focuswindow"@, "address:"@ + addr]);
}

/// Showing undoes an X11 hide: the window that was unmapped is mapped again, then activated.
pub proof fn law_x11_show_undoes_hide(out: Seq<u8>, hide: ShellCommand, win: TermWindow, cs: Seq<ShellCommand>)
    requires
        spec_hide_next(HideStage::X11, true, out, HideStep::RunThen(hide, win)),
        spec_show_commands(win, cs),
    ensures
        args_text(hide) == seq!["windowunmap"@, "--sync"@, trimmed(lossy_utf8(out))],
        cs.len() == 2,
        args_text(cs[0]) == seq!["windowmap"@, trimmed(lossy_utf8(out))],
        args_text(cs[1]) == seq!["windowactivate"@, trimmed(lossy_utf8(out))],
        cs[0].program@ == hide.program@,
{
    let wid = trimmed(lossy_utf8(out));
    assert(args_text(hide) =~= seq!["windowunmap"@, "--sync"@, wid]);
    assert(args_text(cs[0]) =~= seq!["windowmap"@, wid]);
    assert(args_text(cs[1]) =~= seq!["windowactivate"@, wid]);
}

/// Where hiding did nothing, showing does nothing.
pub proof fn law_unchanged_show_is_empty(stage: HideStage, ok: bool, out: Seq<u8>, cs: Seq<ShellCommand>)
    requires
        spec_hide_next(stage, ok, out, HideStep::Done(TermWindow::Unchanged)),
        spec_show_commands(TermWindow::Unchanged, cs),
    ensures
        cs.len() == 0,
{
}

/// The commands that bring the terminal back from where it was put.
pub fn show_commands(win: &TermWindow) -> (r: Vec<ShellCommand>)
    ensures
        spec_show_commands(*win, r@),
{
    let mut v: Vec<ShellCommand> = Vec::new();
    match win {
        TermWindow::Hyprland { address, workspace } => {
            let mut target = workspace.clone();
            target.append(",address:");
            target.append(address.as_str());
            v.push(command("hyprctl", args3("dispatch", "movetoworkspacesilent", target), true));
            let mut focus = "address:".to_owned();
            focus.append(address.as_str());
            v.push(command("hyprctl", args3("dispatch", "focuswindow", focus), true));
        },
        TermWindow::Sway => {
            v.push(command("swaymsg", args2("scratchpad", "show"), true));
        },
        TermWindow::X11 { wid } => {
            v.push(command("xdotool", args2("windowmap", wid.as_str()), false));
            v.push(command("xdotool", args2("windowactivate", wid.as_str()), false));
        },
        TermWindow::Unchanged => {},
    }
    v
}

} // verus!
