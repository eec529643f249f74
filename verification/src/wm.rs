//! The window manager behind the workspace: i3 or Sway.
//!
//! This module decides which window manager to talk to and builds the
//! requests to its message program; running them is left to the caller.
use crate::text::{decimal, decimal_signed, push_decimal, push_decimal_signed, trim, trimmed, views_of};
use vstd::prelude::*;
use vstd::string::*;

verus! {

/// The window managers that are supported.
#[derive(Debug, Clone, Copy, PartialEq, Eq, Structural)]
pub enum WmType {
    I3,
    Sway,
}

/// A connection to the running window manager.
#[derive(Debug)]
pub struct WmBackend {
    wm_type: WmType,
    socket_path: String,
}

/// What the window manager tells about one workspace.
#[derive(Debug)]
pub struct WorkspaceInfo {
    pub num: i32,
    pub name: String,
    pub focused: bool,
}

/// A program to run, with its arguments.
#[derive(Debug)]
pub struct WmRequest {
    pub program: String,
    pub args: Vec<String>,
}

/// What a run of `sway --get-socketpath` or `i3 --get-socketpath` gave.
#[derive(Debug)]
pub struct SocketProbe {
    /// Whether the program ran and ended with success.
    pub success: bool,
    pub stdout: String,
}

/// Why the window manager could not be used.
#[derive(Debug)]
pub enum WmError {
    /// Neither i3 nor Sway is running.
    NoWindowManager,
    /// The message program ran a command and ended without success.
    CommandFailed { program: String, detail: String },
    /// The message program answered a query without success.
    QueryFailed { program: String, query: String },
    /// No workspace has the focus.
    NoFocusedWorkspace,
}

/// The name of the message program of a window manager.
pub open spec fn msg_program(wm_type: WmType) -> Seq<char> {
    match wm_type {
        WmType::I3 => "i3-msg"@,
        WmType::Sway => "swaymsg"@,
    }
}

/// The text of a [`WmError`].
pub open spec fn wm_error_text(e: WmError) -> Seq<char> {
    match e {
        WmError::NoWindowManager =>
            "No running window manager (i3 or Sway) detected. Ensure I3SOCK or SWAYSOCK is set."@,
        WmError::CommandFailed { program, detail } => program@ + " command failed: "@ + detail@,
        WmError::QueryFailed { program, query } => program@ + " "@ + query@ + " failed"@,
        WmError::NoFocusedWorkspace => "No focused workspace found"@,
    }
}

impl WmError {
    /// The error as a sentence for the user.
    pub fn message(&self) -> (r: String)
        ensures
            r@ == wm_error_text(*self),
    {
        match self {
            WmError::NoWindowManager => String::from_str(
                "No running window manager (i3 or Sway) detected. Ensure I3SOCK or SWAYSOCK is set.",
            ),
            WmError::CommandFailed { program, detail } => {
                let mut r: String = program.clone();
                r.append(" command failed: ");
                r.append(detail.as_str());
                r
            },
            WmError::QueryFailed { program, query } => {
                let mut r: String = program.clone();
                r.append(" ");
                r.append(query.as_str());
                r.append(" failed");
                r
            },
            WmError::NoFocusedWorkspace => String::from_str("No focused workspace found"),
        }
    }
}

/// The socket path that a probe gave: the trimmed output of a successful
/// run, unless it is empty.
pub open spec fn probed_socket(probe: Option<SocketProbe>) -> Option<Seq<char>> {
    match probe {
        Some(p) => if p.success && trimmed(p.stdout@).len() > 0 {
            Some(trimmed(p.stdout@))
        } else {
            None
        },
        None => None,
    }
}

/// The window manager and socket to use: Sway by its environment variable,
/// else i3 by its environment variable, else Sway by its probe, else i3 by
/// its probe.
pub open spec fn detected(
    swaysock: Option<String>,
    i3sock: Option<String>,
    sway_probe: Option<SocketProbe>,
    i3_probe: Option<SocketProbe>,
) -> Option<(WmType, Seq<char>)> {
    if swaysock is Some {
        Some((WmType::Sway, swaysock->0@))
    } else if i3sock is Some {
        Some((WmType::I3, i3sock->0@))
    } else if probed_socket(sway_probe) is Some {
        Some((WmType::Sway, probed_socket(sway_probe)->0))
    } else if probed_socket(i3_probe) is Some {
        Some((WmType::I3, probed_socket(i3_probe)->0))
    } else {
        None
    }
}

fn socket_from_probe(probe: Option<SocketProbe>) -> (r: Option<String>)
    ensures
        match r {
            Some(s) => probed_socket(probe) == Some(s@),
            None => probed_socket(probe) is None,
        },
{
    match probe {
        Some(p) => {
            if !p.success {
                return None;
            }
            let socket: &str = trim(p.stdout.as_str());
            if socket.unicode_len() == 0 {
                None
            } else {
                Some(String::from_str(socket))
            }
        },
        None => None,
    }
}

impl WmBackend {
    /// Picks the window manager from what the environment shows.
    ///
    /// `swaysock` and `i3sock` are the values of the variables `SWAYSOCK` and
    /// `I3SOCK`, where set; the probes are what `sway --get-socketpath` and
    /// `i3 --get-socketpath` gave, where they were run.
    pub fn connect(
        swaysock: Option<String>,
        i3sock: Option<String>,
        sway_probe: Option<SocketProbe>,
        i3_probe: Option<SocketProbe>,
    ) -> (r: Result<Self, WmError>)
        ensures
            match r {
                Ok(b) => detected(swaysock, i3sock, sway_probe, i3_probe) == Some(
                    (b.spec_wm_type(), b.spec_socket_path()),
                ),
                Err(e) => detected(swaysock, i3sock, sway_probe, i3_probe) is None
                    && e is NoWindowManager,
            },
    {
        if let Some(socket) = swaysock {
            return Ok(WmBackend { wm_type: WmType::Sway, socket_path: socket });
        }
        if let Some(socket) = i3sock {
            return Ok(WmBackend { wm_type: WmType::I3, socket_path: socket });
        }
        if let Some(socket) = socket_from_probe(sway_probe) {
            return Ok(WmBackend { wm_type: WmType::Sway, socket_path: socket });
        }
        if let Some(socket) = socket_from_probe(i3_probe) {
            return Ok(WmBackend { wm_type: WmType::I3, socket_path: socket });
        }
        Err(WmError::NoWindowManager)
    }

    /// The window manager of this connection, in contracts.
    pub closed spec fn spec_wm_type(&self) -> WmType {
        self.wm_type
    }

    /// The socket of this connection, in contracts.
    pub closed spec fn spec_socket_path(&self) -> Seq<char> {
        self.socket_path@
    }

    /// The window manager of this connection.
    pub fn wm_type(&self) -> (r: WmType)
        ensures
            r == self.spec_wm_type(),
    {
        self.wm_type
    }

    /// The socket of this connection.
    pub fn socket_path(&self) -> (r: &str)
        ensures
            r@ == self.spec_socket_path(),
    {
        self.socket_path.as_str()
    }

    /// The message program of the window manager.
    pub fn msg_command(&self) -> (r: &'static str)
        ensures
            r@ == msg_program(self.spec_wm_type()),
    {
        match self.wm_type {
            WmType::I3 => "i3-msg",
            WmType::Sway => "swaymsg",
        }
    }

    fn request(&self, query: Option<&str>, last: &str) -> (r: WmRequest)
        ensures
            r.program@ == msg_program(self.spec_wm_type()),
            views_of(r.args@) == match query {
                Some(q) => seq!["-s"@, self.spec_socket_path(), q@, last@],
                None => seq!["-s"@, self.spec_socket_path(), last@],
            },
    {
        let mut args: Vec<String> = Vec::new();
        args.push(String::from_str("-s"));
        args.push(self.socket_path.clone());
        match query {
            Some(q) => {
                args.push(String::from_str(q));
            },
            None => {},
        }
        args.push(String::from_str(last));
        let r = WmRequest { program: String::from_str(self.msg_command()), args };
        r
    }

    /// The request that runs the command `cmd` (such as `split h` or `kill`).
    pub fn run_command(&self, cmd: &str) -> (r: WmRequest)
        ensures
            r.program@ == msg_program(self.spec_wm_type()),
            views_of(r.args@) == seq!["-s"@, self.spec_socket_path(), cmd@],
    {
        self.request(None, cmd)
    }

    /// The request that asks for the tree.
    pub fn get_tree(&self) -> (r: WmRequest)
        ensures
            r.program@ == msg_program(self.spec_wm_type()),
            views_of(r.args@) == seq!["-s"@, self.spec_socket_path(), "-t"@, "get_tree"@],
    {
        self.request(Some("-t"), "get_tree")
    }

    /// The request that asks for the workspaces.
    pub fn get_workspaces(&self) -> (r: WmRequest)
        ensures
            r.program@ == msg_program(self.spec_wm_type()),
            views_of(r.args@) == seq!["-s"@, self.spec_socket_path(), "-t"@, "get_workspaces"@],
    {
        self.request(Some("-t"), "get_workspaces")
    }

    /// The request that runs `cmd` on the container `container_id`.
    pub fn run_command_on_container(&self, container_id: u64, cmd: &str) -> (r: WmRequest)
        ensures
            r.program@ == msg_program(self.spec_wm_type()),
            views_of(r.args@) == seq![
                "-s"@,
                self.spec_socket_path(),
                container_command(container_id, cmd@),
            ],
    {
        let mut full: String = String::from_str("[con_id=\"");
        push_decimal(&mut full, container_id);
        full.append("\"] ");
        full.append(cmd);
        self.run_command(full.as_str())
    }

    /// Judges how a request of [`run_command`](Self::run_command) ended.
    pub fn command_result(&self, success: bool, stderr: &str) -> (r: Result<(), WmError>)
        ensures
            r is Ok <==> success,
            r matches Err(e) ==> e matches WmError::CommandFailed { program, detail }
                && program@ == msg_program(self.spec_wm_type()) && detail@ == trimmed(stderr@),
    {
        if success {
            Ok(())
        } else {
            Err(
                WmError::CommandFailed {
                    program: String::from_str(self.msg_command()),
                    detail: String::from_str(trim(stderr)),
                },
            )
        }
    }

    /// Judges how a query (`get_tree`, `get_workspaces`) ended.
    pub fn query_result(&self, query: &str, success: bool) -> (r: Result<(), WmError>)
        ensures
            r is Ok <==> success,
            r matches Err(e) ==> e matches WmError::QueryFailed { program, query: q }
                && program@ == msg_program(self.spec_wm_type()) && q@ == query@,
    {
        if success {
            Ok(())
        } else {
            Err(
                WmError::QueryFailed {
                    program: String::from_str(self.msg_command()),
                    query: String::from_str(query),
                },
            )
        }
    }
}

/// The command `cmd`, aimed at the container `container_id`.
pub open spec fn container_command(container_id: u64, cmd: Seq<char>) -> Seq<char> {
    "[con_id=\""@ + decimal(container_id as nat) + "\"] "@ + cmd
}

/// The position of the first focused workspace at or after `from`; the
/// length of the list where there is none.
pub open spec fn first_focused(workspaces: Seq<WorkspaceInfo>, from: int) -> int
    decreases workspaces.len() - from,
{
    if 0 <= from < workspaces.len() {
        if workspaces[from].focused {
            from
        } else {
            first_focused(workspaces, from + 1)
        }
    } else {
        workspaces.len() as int
    }
}

/// The label and the number of the focused workspace: the first one in the
/// list that has the focus. The label is the number in decimal.
pub fn get_focused_workspace(workspaces: &Vec<WorkspaceInfo>) -> (r: Result<(String, i32), WmError>)
    ensures
        match r {
            Ok((label, num)) => {
                let i = first_focused(workspaces@, 0);
                0 <= i < workspaces@.len() && num == workspaces@[i].num && label@
                    == decimal_signed(num as int)
            },
            Err(e) => first_focused(workspaces@, 0) == workspaces@.len() && e
                is NoFocusedWorkspace,
        },
{
    let mut i: usize = 0;
    while i < workspaces.len()
        invariant
            i <= workspaces.len(),
            first_focused(workspaces@, 0) == first_focused(workspaces@, i as int),
        decreases workspaces.len() - i,
    {
        if workspaces[i].focused {
            let num: i32 = workspaces[i].num;
            let mut label: String = String::new();
            push_decimal_signed(&mut label, num as i64);
            return Ok((label, num));
        }
        i = i + 1;
    }
    Err(WmError::NoFocusedWorkspace)
}

} // verus!
