//! The command lines that start a terminal of this tool in a window.
//!
//! A terminal is started with the mark of its window as its instance, so
//! that the window can be found when it appears, and with a title of the
//! form `i3mux:{host}:{socket}`.
use crate::text::{str_equal, views_of};
use crate::window::{mark_of, I3muxWindow};
use crate::wm::WmType;
use crate::workspace::{socket_id_text, SessionType, WorkspaceState};
use vstd::prelude::*;
use vstd::string::*;

verus! {

/// Prefix of the window titles of this tool.
pub const MARKER: &'static str = "i3mux:";

/// The helper script on remote hosts.
pub const REMOTE_HELPER_PATH: &'static str = "/tmp/i3mux-helper.sh";

/// The script that sets a terminal up on this machine.
pub const WRAPPER_PATH: &'static str = "/tmp/i3mux-wrapper.sh";

/// The title of the window for `socket` on `host`.
pub open spec fn title_text(host: Seq<char>, socket: Seq<char>) -> Seq<char> {
    "i3mux:"@
        + host
        + ":"@
        + socket
}

/// Builds [`title_text`].
pub fn title(host: &str, socket: &str) -> (r: String)
    ensures
        r@ == title_text(host@, socket@),
{
    let mut r: String = String::from_str("i3mux:");
    r.append(host);
    r.append(":");
    r.append(socket);
    r
}

/// The shell command that sets the window title to `title`, quoted for use
/// inside the double quotes of [`local_attach_text`].
pub open spec fn local_prompt_text(title: Seq<char>) -> Seq<char> {
    "echo -ne \\\"\\\\033]0;"@
        + title
        + "\\\\007\\\""@
}

/// Builds [`local_prompt_text`].
pub fn local_prompt(title: &str) -> (r: String)
    ensures
        r@ == local_prompt_text(title@),
{
    let mut r: String = String::from_str("echo -ne \\\"\\\\033]0;");
    r.append(title);
    r.append("\\\\007\\\"");
    r
}

/// The shell command that sets the window title to `title`.
pub open spec fn remote_prompt_text(title: Seq<char>) -> Seq<char> {
    "echo -ne \"\\033]0;"@
        + title
        + "\\007\""@
}

/// Builds [`remote_prompt_text`].
pub fn remote_prompt(title: &str) -> (r: String)
    ensures
        r@ == remote_prompt_text(title@),
{
    let mut r: String = String::from_str("echo -ne \"\\033]0;");
    r.append(title);
    r.append("\\007\"");
    r
}

/// The command that attaches a terminal to the session `socket` on this
/// machine, creating it with `shell` where it does not exist; `prompt` keeps
/// the window title in place.
pub open spec fn local_attach_text(prompt: Seq<char>, socket: Seq<char>, shell: Seq<char>) -> Seq<char> {
    "bash -c \"export PROMPT_COMMAND='"@
        + prompt
        + "'; exec abduco -A /tmp/"@
        + socket
        + " "@
        + shell
        + "\""@
}

/// Builds [`local_attach_text`].
pub fn local_attach(prompt: &str, socket: &str, shell: &str) -> (r: String)
    ensures
        r@ == local_attach_text(prompt@, socket@, shell@),
{
    let mut r: String = String::from_str("bash -c \"export PROMPT_COMMAND='");
    r.append(prompt);
    r.append("'; exec abduco -A /tmp/");
    r.append(socket);
    r.append(" ");
    r.append(shell);
    r.append("\"");
    r
}

/// The command that attaches a new terminal to the session `socket` on `host`.
pub open spec fn remote_attach_text(host: Seq<char>, socket: Seq<char>) -> Seq<char> {
    "TERM=xterm-256color ssh -o ControlPath=/tmp/i3mux/sockets/%r@%h:%p -o ControlMaster=auto -o ControlPersist=10m -tt "@
        + host
        + " 'bash -l -c \"exec /tmp/i3mux-helper.sh attach "@
        + socket
        + "\"'"@
}

/// Builds [`remote_attach_text`].
pub fn remote_attach(host: &str, socket: &str) -> (r: String)
    ensures
        r@ == remote_attach_text(host@, socket@),
{
    let mut r: String = String::from_str("TERM=xterm-256color ssh -o ControlPath=/tmp/i3mux/sockets/%r@%h:%p -o ControlMaster=auto -o ControlPersist=10m -tt ");
    r.append(host);
    r.append(" 'bash -l -c \"exec /tmp/i3mux-helper.sh attach ");
    r.append(socket);
    r.append("\"'");
    r
}

/// The command that attaches a restored terminal to the session `socket` on `host`.
pub open spec fn restore_attach_text(host: Seq<char>, socket: Seq<char>) -> Seq<char> {
    "TERM=xterm-256color ssh -o ControlPath=/tmp/i3mux/sockets/%r@%h:%p -o ControlMaster=auto -o ControlPersist=10m -t "@
        + host
        + " 'exec bash -lc \"/tmp/i3mux-helper.sh attach "@
        + socket
        + "\"'"@
}

/// Builds [`restore_attach_text`].
pub fn restore_attach(host: &str, socket: &str) -> (r: String)
    ensures
        r@ == restore_attach_text(host@, socket@),
{
    let mut r: String = String::from_str("TERM=xterm-256color ssh -o ControlPath=/tmp/i3mux/sockets/%r@%h:%p -o ControlMaster=auto -o ControlPersist=10m -t ");
    r.append(host);
    r.append(" 'exec bash -lc \"/tmp/i3mux-helper.sh attach ");
    r.append(socket);
    r.append("\"'");
    r
}

/// The shell line of a restored terminal: set the title, attach, and say
/// when the session has ended.
pub open spec fn restore_wrapper_text(title: Seq<char>, attach: Seq<char>) -> Seq<char> {
    "echo -ne '\\033]0;"@
        + title
        + "\\007'; "@
        + attach
        + "; echo 'Session ended.'"@
}

/// Builds [`restore_wrapper_text`].
pub fn restore_wrapper(title: &str, attach: &str) -> (r: String)
    ensures
        r@ == restore_wrapper_text(title@, attach@),
{
    let mut r: String = String::from_str("echo -ne '\\033]0;");
    r.append(title);
    r.append("\\007'; ");
    r.append(attach);
    r.append("; echo 'Session ended.'");
    r
}

/// The command that removes the files of the local session `session` once
/// workspace `ws_name` has no terminal session left.
pub open spec fn local_session_cleanup_text(ws_name: Seq<char>, session: Seq<char>) -> Seq<char> {
    "if ! ls /tmp/ws"@
        + ws_name
        + "-* &>/dev/null; then rm -f /tmp/i3mux/sessions/"@
        + session
        + ".json /tmp/i3mux/locks/"@
        + session
        + ".lock; fi"@
}

/// Builds [`local_session_cleanup_text`].
pub fn local_session_cleanup(ws_name: &str, session: &str) -> (r: String)
    ensures
        r@ == local_session_cleanup_text(ws_name@, session@),
{
    let mut r: String = String::from_str("if ! ls /tmp/ws");
    r.append(ws_name);
    r.append("-* &>/dev/null; then rm -f /tmp/i3mux/sessions/");
    r.append(session);
    r.append(".json /tmp/i3mux/locks/");
    r.append(session);
    r.append(".lock; fi");
    r
}

/// The command that lets `host` remove the files of the session `session`
/// once workspace `ws_name` has no terminal session left.
pub open spec fn remote_session_cleanup_text(host: Seq<char>, ws_name: Seq<char>, session: Seq<char>) -> Seq<char> {
    "ssh -o ControlPath=/tmp/i3mux/sockets/%r@%h:%p "@
        + host
        + " 'bash -lc \"/tmp/i3mux-helper.sh cleanup-check ws"@
        + ws_name
        + " "@
        + session
        + "\"' 2>/dev/null || true"@
}

/// Builds [`remote_session_cleanup_text`].
pub fn remote_session_cleanup(host: &str, ws_name: &str, session: &str) -> (r: String)
    ensures
        r@ == remote_session_cleanup_text(host@, ws_name@, session@),
{
    let mut r: String = String::from_str("ssh -o ControlPath=/tmp/i3mux/sockets/%r@%h:%p ");
    r.append(host);
    r.append(" 'bash -lc \"/tmp/i3mux-helper.sh cleanup-check ws");
    r.append(ws_name);
    r.append(" ");
    r.append(session);
    r.append("\"' 2>/dev/null || true");
    r
}

/// The command to run when a terminal has ended: the cleanup of the session,
/// then the cleanup of the bookkeeping of workspace `ws_name` by the program `bin`.
pub open spec fn cleanup_text(session_cleanup: Seq<char>, bin: Seq<char>, ws_name: Seq<char>) -> Seq<char> {
    session_cleanup
        + "; "@
        + bin
        + " cleanup-workspace "@
        + ws_name
        + " 2>/dev/null || true"@
}

/// Builds [`cleanup_text`].
pub fn cleanup(session_cleanup: &str, bin: &str, ws_name: &str) -> (r: String)
    ensures
        r@ == cleanup_text(session_cleanup@, bin@, ws_name@),
{
    let mut r: String = String::from_str(session_cleanup);
    r.append("; ");
    r.append(bin);
    r.append(" cleanup-workspace ");
    r.append(ws_name);
    r.append(" 2>/dev/null || true");
    r
}

/// How one character of a title is written inside double quotes in a shell:
/// a backslash goes in front of a backslash, a double quote and a dollar sign.
pub open spec fn escaped_char(c: char) -> Seq<char> {
    if c == '\\' || c == '"' || c == '$' {
        seq!['\\', c]
    } else {
        seq![c]
    }
}

/// `s[from..]` with every character written as [`escaped_char`] says.
pub open spec fn escaped_from(s: Seq<char>, from: int) -> Seq<char>
    decreases s.len() - from,
{
    if 0 <= from < s.len() {
        escaped_char(s[from]) + escaped_from(s, from + 1)
    } else {
        Seq::empty()
    }
}

/// `s` as it is written inside double quotes in a shell.
pub fn escape_for_prompt(s: &str) -> (r: String)
    ensures
        r@ == escaped_from(s@, 0),
{
    proof {
        reveal_strlit("\\");
    }
    let n: usize = s.unicode_len();
    let mut r: String = String::new();
    let mut i: usize = 0;
    while i < n
        invariant
            i <= n,
            n == s@.len(),
            "\\"@ == seq!['\\'],
            r@ + escaped_from(s@, i as int) == escaped_from(s@, 0),
        decreases n - i,
    {
        let c: char = s.get_char(i);
        if c == '\\' || c == '"' || c == '$' {
            r.append("\\");
        }
        r.append(s.substring_char(i, i + 1));
        i = i + 1;
    }
    r
}

/// The arguments that make the terminal program `terminal_name` give its
/// window the instance (on Sway: the application id) `instance`.
pub open spec fn instance_args(
    terminal_name: Seq<char>,
    instance: Seq<char>,
    wm_type: WmType,
) -> Seq<Seq<char>> {
    if terminal_name == "foot"@ {
        seq!["--app-id"@, instance]
    } else if terminal_name == "alacritty"@ {
        match wm_type {
            WmType::Sway => seq!["--class"@, instance],
            WmType::I3 => seq!["--class"@, "Alacritty,"@ + instance],
        }
    } else if terminal_name == "kitty"@ {
        seq!["--class"@, instance]
    } else if terminal_name == "xterm"@ || terminal_name == "urxvt"@ || terminal_name
        == "rxvt-unicode"@ {
        seq!["-name"@, instance]
    } else if terminal_name == "st"@ {
        seq!["-n"@, instance]
    } else {
        match wm_type {
            WmType::Sway => seq!["--app-id"@, instance],
            WmType::I3 => seq!["-name"@, instance],
        }
    }
}

fn pair(option: &str, value: String) -> (r: Vec<String>)
    ensures
        views_of(r@) == seq![option@, value@],
{
    let mut r: Vec<String> = Vec::new();
    r.push(String::from_str(option));
    r.push(value);
    r
}

/// The arguments that make the terminal program whose binary is named
/// `terminal_name` give its window the instance `instance`.
pub fn instance_args_for(terminal_name: &str, instance: &str, wm_type: WmType) -> (r: Vec<String>)
    ensures
        views_of(r@) == instance_args(terminal_name@, instance@, wm_type),
{
    let value: String = String::from_str(instance);
    if str_equal(terminal_name, "foot") {
        pair("--app-id", value)
    } else if str_equal(terminal_name, "alacritty") {
        match wm_type {
            WmType::Sway => pair("--class", value),
            WmType::I3 => {
                let mut class: String = String::from_str("Alacritty,");
                class.append(instance);
                pair("--class", class)
            },
        }
    } else if str_equal(terminal_name, "kitty") {
        pair("--class", value)
    } else if str_equal(terminal_name, "xterm") || str_equal(terminal_name, "urxvt") || str_equal(
        terminal_name,
        "rxvt-unicode",
    ) {
        pair("-name", value)
    } else if str_equal(terminal_name, "st") {
        pair("-n", value)
    } else {
        match wm_type {
            WmType::Sway => pair("--app-id", value),
            WmType::I3 => pair("-name", value),
        }
    }
}

/// Calls `std::path::Path::file_name` on `path` and gives the name as a
/// `String`; `None` where the path has no file name or the name is no valid
/// Unicode. What counts as a separator depends on the platform, so nothing is
/// claimed of the result.
#[verifier::external_body]
fn file_name_of(path: &str) -> (r: Option<String>) {
    Some(std::path::Path::new(path).file_name()?.to_str()?.to_string())
}

/// The name of the binary of the terminal program `terminal`, given the
/// file name of that path, if it has one: the file name, or else all of
/// `terminal`.
pub fn binary_name_from(terminal: &str, file_name: Option<String>) -> (r: String)
    ensures
        r@ == match file_name {
            Some(name) => name@,
            None => terminal@,
        },
{
    match file_name {
        Some(name) => name,
        None => String::from_str(terminal),
    }
}

fn binary_name(terminal: &str) -> (r: String) {
    binary_name_from(terminal, file_name_of(terminal))
}

/// The arguments that make the terminal program `terminal` give its window
/// the instance `instance`. The program is told by the file name of
/// `terminal`, or by all of `terminal` where it has no file name.
pub fn build_terminal_instance_args(terminal: &str, instance: &str, wm_type: WmType) -> (r: Vec<
    String,
>)
    ensures
        exists|name: Seq<char>| views_of(r@) == instance_args(name, instance@, wm_type),
{
    let name: String = binary_name(terminal);
    let r = instance_args_for(name.as_str(), instance, wm_type);
    r
}

/// The terminal program to start: the configured one (the environment
/// variable `TERMINAL`), or the usual one of the window manager.
pub fn get_terminal_command(wm_type: WmType, configured: Option<String>) -> (r: String)
    ensures
        r@ == match configured {
            Some(t) => t@,
            None => match wm_type {
                WmType::Sway => "foot"@,
                WmType::I3 => "i3-sensible-terminal"@,
            },
        },
{
    match configured {
        Some(t) => t,
        None => match wm_type {
            WmType::Sway => String::from_str("foot"),
            WmType::I3 => String::from_str("i3-sensible-terminal"),
        },
    }
}

/// The shell to run in new sessions: the configured one (the environment
/// variable `SHELL`), or `bash`.
pub fn get_user_shell(configured: Option<String>) -> (r: String)
    ensures
        r@ == match configured {
            Some(s) => s@,
            None => "bash"@,
        },
{
    match configured {
        Some(s) => s,
        None => String::from_str("bash"),
    }
}

/// A terminal to start.
#[derive(Debug)]
pub struct TerminalLaunch {
    /// The terminal program.
    pub program: String,
    /// Its arguments.
    pub args: Vec<String>,
    /// The instance of the window, which is also its mark.
    pub instance: String,
    /// The title of the window.
    pub title: String,
    /// The host of the terminal session, as the mark names it.
    pub host: String,
    /// The socket of the terminal session.
    pub socket: String,
}

/// The session cleanup of a terminal of workspace `ws_name`.
pub open spec fn session_cleanup_text(
    local: bool,
    host: Seq<char>,
    ws_name: Seq<char>,
    session_name: Option<Seq<char>>,
) -> Seq<char> {
    match session_name {
        Some(session) => if local {
            local_session_cleanup_text(ws_name, session)
        } else {
            remote_session_cleanup_text(host, ws_name, session)
        },
        None => Seq::empty(),
    }
}

/// The title of a new terminal: the host in it is `local` for a terminal on
/// this machine.
pub open spec fn new_title(local: bool, host: Seq<char>, socket: Seq<char>) -> Seq<char> {
    title_text(
        if local {
            "local"@
        } else {
            host
        },
        socket,
    )
}

/// The arguments of a new terminal behind its instance arguments: the title,
/// then the wrapper script with the socket, the title, the command that
/// attaches, the command that cleans up, and the command that keeps the
/// title (empty on this machine, where the attach command holds it).
pub open spec fn launch_args(
    local: bool,
    host: Seq<char>,
    session_name: Option<Seq<char>>,
    ws_name: Seq<char>,
    socket: Seq<char>,
    shell: Seq<char>,
    bin: Seq<char>,
) -> Seq<Seq<char>> {
    let title = new_title(local, host, socket);
    let quoted = escaped_from(title, 0);
    seq![
        "-T"@,
        title,
        "-e"@,
        WRAPPER_PATH@,
        socket,
        title,
        if local {
            local_attach_text(local_prompt_text(quoted), socket, shell)
        } else {
            remote_attach_text(host, socket)
        },
        cleanup_text(session_cleanup_text(local, host, ws_name, session_name), bin, ws_name),
        if local {
            Seq::empty()
        } else {
            remote_prompt_text(quoted)
        },
    ]
}

/// The terminal to start for the new session `socket` of workspace
/// `ws_name`, which runs on `host` (on this machine where `local` is set)
/// and belongs to the session `session_name`, if to any. `terminal` is the
/// terminal program and `terminal_name` the name of its binary; `shell` is
/// the shell for a new session on this machine and `bin` the path of this
/// program.
pub fn launch_i3mux_terminal_as(
    terminal: String,
    terminal_name: &str,
    wm_type: WmType,
    local: bool,
    host: &str,
    session_name: Option<&str>,
    ws_name: &str,
    socket: &str,
    shell: &str,
    bin: &str,
) -> (r: TerminalLaunch)
    ensures
        r.program == terminal,
        r.host@ == host@,
        r.socket@ == socket@,
        r.instance@ == mark_of(host@, socket@),
        r.title@ == new_title(local, host@, socket@),
        views_of(r.args@) == instance_args(terminal_name@, mark_of(host@, socket@), wm_type)
            + launch_args(
            local,
            host@,
            match session_name {
                Some(n) => Some(n@),
                None => None,
            },
            ws_name@,
            socket@,
            shell@,
            bin@,
        ),
{
    let window_title: String = if local {
        title("local", socket)
    } else {
        title(host, socket)
    };
    let quoted: String = escape_for_prompt(window_title.as_str());
    let attach: String = if local {
        let prompt: String = local_prompt(quoted.as_str());
        local_attach(prompt.as_str(), socket, shell)
    } else {
        remote_attach(host, socket)
    };
    let session_cleanup: String = match session_name {
        Some(session) => if local {
            local_session_cleanup(ws_name, session)
        } else {
            remote_session_cleanup(host, ws_name, session)
        },
        None => String::new(),
    };
    let cleanup_command: String = cleanup(session_cleanup.as_str(), bin, ws_name);
    let prompt_command: String = if local {
        String::new()
    } else {
        remote_prompt(quoted.as_str())
    };
    let instance: String = I3muxWindow::mark_from_parts(host, socket);
    let mut args: Vec<String> = instance_args_for(terminal_name, instance.as_str(), wm_type);
    args.push(String::from_str("-T"));
    args.push(window_title.clone());
    args.push(String::from_str("-e"));
    args.push(String::from_str(WRAPPER_PATH));
    args.push(String::from_str(socket));
    args.push(window_title.clone());
    args.push(attach);
    args.push(cleanup_command);
    args.push(prompt_command);
    TerminalLaunch {
        program: terminal,
        args,
        instance,
        title: window_title,
        host: String::from_str(host),
        socket: String::from_str(socket),
    }
}

/// The terminal to start for a new session, as
/// [`launch_i3mux_terminal_as`] gives it for the binary name of `terminal`:
/// its file name, or all of it where it has none.
pub fn launch_i3mux_terminal(
    terminal: String,
    wm_type: WmType,
    local: bool,
    host: &str,
    session_name: Option<&str>,
    ws_name: &str,
    socket: &str,
    shell: &str,
    bin: &str,
) -> (r: TerminalLaunch)
    ensures
        r.program == terminal,
        r.host@ == host@,
        r.socket@ == socket@,
        r.instance@ == mark_of(host@, socket@),
        r.title@ == new_title(local, host@, socket@),
        exists|name: Seq<char>|
            views_of(r.args@) == instance_args(name, mark_of(host@, socket@), wm_type)
                + launch_args(
                local,
                host@,
                match session_name {
                    Some(n) => Some(n@),
                    None => None,
                },
                ws_name@,
                socket@,
                shell@,
                bin@,
            ),
{
    let name: String = binary_name(terminal.as_str());
    let r = launch_i3mux_terminal_as(
        terminal,
        name.as_str(),
        wm_type,
        local,
        host,
        session_name,
        ws_name,
        socket,
        shell,
        bin,
    );
    r
}

/// The arguments of a restored terminal behind its instance arguments: the
/// title, then a shell that sets the title and attaches.
pub open spec fn restore_args(host: Seq<char>, socket: Seq<char>) -> Seq<Seq<char>> {
    let title = title_text(host, socket);
    seq![
        "-T"@,
        title,
        "-e"@,
        "bash"@,
        "-c"@,
        restore_wrapper_text(title, restore_attach_text(host, socket)),
    ]
}

/// The terminal to start for the stored session `socket` on `host`;
/// `terminal` is the terminal program and `terminal_name` the name of its
/// binary.
pub fn restore_terminal_as(
    terminal: String,
    terminal_name: &str,
    wm_type: WmType,
    host: &str,
    socket: &str,
) -> (r: TerminalLaunch)
    ensures
        r.program == terminal,
        r.host@ == host@,
        r.socket@ == socket@,
        r.instance@ == mark_of(host@, socket@),
        r.title@ == title_text(host@, socket@),
        views_of(r.args@) == instance_args(terminal_name@, mark_of(host@, socket@), wm_type)
            + restore_args(host@, socket@),
{
    let window_title: String = title(host, socket);
    let attach: String = restore_attach(host, socket);
    let line: String = restore_wrapper(window_title.as_str(), attach.as_str());
    let instance: String = I3muxWindow::mark_from_parts(host, socket);
    let mut args: Vec<String> = instance_args_for(terminal_name, instance.as_str(), wm_type);
    args.push(String::from_str("-T"));
    args.push(window_title.clone());
    args.push(String::from_str("-e"));
    args.push(String::from_str("bash"));
    args.push(String::from_str("-c"));
    args.push(line);
    TerminalLaunch {
        program: terminal,
        args,
        instance,
        title: window_title,
        host: String::from_str(host),
        socket: String::from_str(socket),
    }
}

/// The terminal to start for a stored session, as [`restore_terminal_as`]
/// gives it for the binary name of `terminal`: its file name, or all of it
/// where it has none.
pub fn restore_terminal(terminal: String, wm_type: WmType, host: &str, socket: &str) -> (r:
    TerminalLaunch)
    ensures
        r.program == terminal,
        r.host@ == host@,
        r.socket@ == socket@,
        r.instance@ == mark_of(host@, socket@),
        r.title@ == title_text(host@, socket@),
        exists|name: Seq<char>|
            views_of(r.args@) == instance_args(name, mark_of(host@, socket@), wm_type)
                + restore_args(host@, socket@),
{
    let name: String = binary_name(terminal.as_str());
    let r = restore_terminal_as(terminal, name.as_str(), wm_type, host, socket);
    r
}

/// The terminal to start next on the managed workspace `ws_name`: the
/// next socket of the workspace is given out and recorded in `state`, and
/// the terminal for it is the one of [`launch_i3mux_terminal`]. `None`,
/// and no change, where the numbers of the workspace are used up.
pub fn new_terminal(
    state: &mut WorkspaceState,
    ws_name: &str,
    wm_type: WmType,
    terminal: String,
    shell: &str,
    bin: &str,
) -> (r: Option<TerminalLaunch>)
    ensures
        final(state).session_type == old(state).session_type,
        final(state).host == old(state).host,
        final(state).session_name == old(state).session_name,
        match r {
            Some(launch) => {
                let socket = socket_id_text(ws_name@, old(state).next_socket_id);
                &&& old(state).next_socket_id < u32::MAX
                &&& final(state).next_socket_id == old(state).next_socket_id + 1
                &&& views_of(final(state).sockets@) == views_of(old(state).sockets@).push(socket)
                &&& launch.program == terminal
                &&& launch.host@ == old(state).host@
                &&& launch.socket@ == socket
                &&& launch.instance@ == mark_of(old(state).host@, socket)
                &&& launch.title@ == new_title(
                    old(state).session_type == SessionType::Local,
                    old(state).host@,
                    socket,
                )
                &&& exists|name: Seq<char>|
                    views_of(launch.args@) == instance_args(
                        name,
                        mark_of(old(state).host@, socket),
                        wm_type,
                    ) + launch_args(
                        old(state).session_type == SessionType::Local,
                        old(state).host@,
                        match old(state).session_name {
                            Some(n) => Some(n@),
                            None => None,
                        },
                        ws_name@,
                        socket,
                        shell@,
                        bin@,
                    )
            },
            None => old(state).next_socket_id == u32::MAX && *final(state) == *old(state),
        },
{
    let socket: String = match state.allocate_socket(ws_name) {
        Some(socket) => socket,
        None => {
            return None;
        },
    };
    let local: bool = match state.session_type {
        SessionType::Local => true,
        SessionType::Remote => false,
    };
    let session_name: Option<&str> = match &state.session_name {
        Some(n) => Some(n.as_str()),
        None => None,
    };
    Some(
        launch_i3mux_terminal(
            terminal,
            wm_type,
            local,
            state.host.as_str(),
            session_name,
            ws_name,
            socket.as_str(),
            shell,
            bin,
        ),
    )
}

} // verus!
