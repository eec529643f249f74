//! The decisions of the session lifecycle: activate, detach, attach, kill.
//!
//! A workspace is activated for this machine or for a remote host. A remote
//! workspace can be detached: its layout is stored as a session on the host
//! and its windows are closed, while the terminal sessions live on. A stored
//! session is attached to an empty workspace under a lock. Killing deletes
//! the stored session.
use crate::layout::{
    capture_workspace, commands, restore_plan, sockets, steps_of, Layout, RestoreStep,
};
use crate::session::{RemoteSession, SessionLock};
use crate::text::{
    decimal, decimal_signed, push_decimal, push_decimal_signed, str_equal, views_of,
};
use crate::tree::TreeNode;
use crate::types::{
    input_error_text, remote_host_problem, session_name_problem, InputError, InputErrorKind,
    RemoteHost, SessionName,
};
use crate::window::{
    kill_commands, kill_i3mux_windows_in_workspace, workspace_has_i3mux_windows,
    workspace_windows,
};
use crate::workspace::{counter_after, host_label, SessionType, WorkspaceState};
use vstd::prelude::*;
use vstd::string::*;

verus! {

/// How this machine is shown to the user in place of a host: `local`, in italics.
pub const LOCAL_DISPLAY: &'static str = "\u{1b}[3mlocal\u{1b}[0m";

/// The exit status that says that several sessions are there and none was
/// named, so that a caller can offer a choice.
pub const EXIT_AMBIGUOUS: i32 = 2;

/// Why a step of the lifecycle cannot be taken.
#[derive(Debug)]
pub enum LifecycleError {
    /// The workspace is not managed by this tool.
    NotBound,
    /// The workspace runs its terminals on this machine.
    LocalDetach,
    /// The workspace shows no terminal of this tool.
    NoTerminals,
    /// The host stores no session.
    NoSessions { host: String },
    /// The host stores no session of this name.
    SessionNotFound { name: String, host: String },
    /// The workspace already shows terminals of this tool.
    WorkspaceOccupied { workspace: i32 },
    /// A session name or a host is not valid.
    Input { error: InputError },
    /// The caller reported something that does not answer the step it was given.
    UnexpectedEvent,
}

/// The text of a [`LifecycleError`].
pub open spec fn lifecycle_error_text(e: LifecycleError) -> Seq<char> {
    match e {
        LifecycleError::NotBound => "Workspace not i3mux-bound"@,
        LifecycleError::LocalDetach =>
            "Cannot detach local sessions (use remote sessions for detach/attach)"@,
        LifecycleError::NoTerminals => "No i3mux terminals found in workspace"@,
        LifecycleError::NoSessions { host } => "No sessions found on "@ + host@,
        LifecycleError::SessionNotFound { name, host } => "Session '"@ + name@
            + "' not found on "@ + host@,
        LifecycleError::WorkspaceOccupied { workspace } => "Workspace "@ + decimal_signed(
            workspace as int,
        ) + " already has i3mux terminals. Detach or clear them first."@,
        LifecycleError::Input { error } => input_error_text(error.kind, error.input@),
        LifecycleError::UnexpectedEvent => "Unexpected answer to an attach step"@,
    }
}

impl LifecycleError {
    /// The error as a sentence for the user.
    pub fn message(&self) -> (r: String)
        ensures
            r@ == lifecycle_error_text(*self),
    {
        match self {
            LifecycleError::NotBound => String::from_str("Workspace not i3mux-bound"),
            LifecycleError::LocalDetach => String::from_str(
                "Cannot detach local sessions (use remote sessions for detach/attach)",
            ),
            LifecycleError::NoTerminals => String::from_str("No i3mux terminals found in workspace"),
            LifecycleError::NoSessions { host } => {
                let mut r: String = String::from_str("No sessions found on ");
                r.append(host.as_str());
                r
            },
            LifecycleError::SessionNotFound { name, host } => {
                let mut r: String = String::from_str("Session '");
                r.append(name.as_str());
                r.append("' not found on ");
                r.append(host.as_str());
                r
            },
            LifecycleError::WorkspaceOccupied { workspace } => {
                let mut r: String = String::from_str("Workspace ");
                push_decimal_signed(&mut r, *workspace as i64);
                r.append(" already has i3mux terminals. Detach or clear them first.");
                r
            },
            LifecycleError::Input { error } => error.message(),
            LifecycleError::UnexpectedEvent => String::from_str(
                "Unexpected answer to an attach step",
            ),
        }
    }
}

/// The host as it is shown to the user.
pub fn host_display(remote: Option<&RemoteHost>) -> (r: String)
    ensures
        r@ == match remote {
            Some(h) => h@,
            None => LOCAL_DISPLAY@,
        },
{
    match remote {
        Some(h) => String::from_str(h.as_str()),
        None => String::from_str(LOCAL_DISPLAY),
    }
}

/// The validated form of a host that the user may have given.
fn checked_host(remote: Option<String>) -> (r: Result<Option<RemoteHost>, InputError>)
    ensures
        match r {
            Ok(Some(h)) => remote matches Some(text) && h@ == text@ && remote_host_problem(text@)
                is None,
            Ok(None) => remote is None,
            Err(e) => remote matches Some(text) && remote_host_problem(text@) == Some(e.kind)
                && e.input@ == text@,
        },
{
    match remote {
        Some(text) => match RemoteHost::new(text.as_str()) {
            Ok(h) => Ok(Some(h)),
            Err(e) => Err(e),
        },
        None => Ok(None),
    }
}

/// What the user asked for, as plain values.
pub open spec fn given(text: Option<String>) -> Option<Seq<char>> {
    match text {
        Some(t) => Some(t@),
        None => None,
    }
}

/// What is wrong with an optional host; `None` where it is absent or valid.
pub open spec fn host_problem(remote: Option<Seq<char>>) -> Option<InputErrorKind> {
    match remote {
        Some(text) => remote_host_problem(text),
        None => None,
    }
}

/// What is wrong with an optional session name; `None` where it is absent
/// or valid.
pub open spec fn name_problem(name: Option<Seq<char>>) -> Option<InputErrorKind> {
    match name {
        Some(text) => session_name_problem(text),
        None => None,
    }
}

/// A workspace to activate.
#[derive(Debug)]
pub struct Activation {
    /// The host of the terminals; none for this machine.
    pub remote_host: Option<RemoteHost>,
    /// The bookkeeping to store for the workspace.
    pub state: WorkspaceState,
}

/// Decides how to activate the focused workspace for the host and session
/// name that the user gave. Both are validated, the host first. Nothing
/// is stored on any host and no lock is taken.
pub fn activate(remote: Option<String>, session_name: Option<String>) -> (r: Result<
    Activation,
    LifecycleError,
>)
    ensures
        match r {
            Ok(a) => host_problem(given(remote)) is None && name_problem(given(session_name))
                is None && (match a.remote_host {
                Some(h) => given(remote) == Some(h@),
                None => remote is None,
            }) && a.state.session_type == (if remote is Some {
                SessionType::Remote
            } else {
                SessionType::Local
            }) && a.state.host@ == host_label(given(remote)) && (
            match a.state.session_name {
                Some(n) => given(session_name) == Some(n@),
                None => session_name is None,
            }) && a.state.next_socket_id == 1 && a.state.sockets@.len() == 0,
            Err(e) => e matches LifecycleError::Input { error } && (if host_problem(given(remote))
                is Some {
                host_problem(given(remote)) == Some(error.kind) && given(remote) == Some(
                    error.input@,
                )
            } else {
                name_problem(given(session_name)) == Some(error.kind) && given(session_name)
                    == Some(error.input@)
            }),
        },
{
    let remote_host: Option<RemoteHost> = match checked_host(remote) {
        Ok(h) => h,
        Err(error) => {
            return Err(LifecycleError::Input { error });
        },
    };
    let name: Option<SessionName> = match session_name {
        Some(text) => match SessionName::new(text.as_str()) {
            Ok(n) => Some(n),
            Err(error) => {
                return Err(LifecycleError::Input { error });
            },
        },
        None => None,
    };
    let state = WorkspaceState::activated(remote_host.as_ref(), name.as_ref());
    Ok(Activation { remote_host, state })
}

/// Whether a terminal that is asked for is one of this tool.
#[derive(Debug, Clone, Copy, PartialEq, Eq, Structural)]
pub enum TerminalKind {
    /// An ordinary terminal: the workspace is not managed.
    Plain,
    /// A terminal of this tool: every terminal of a managed workspace is.
    Managed,
}

/// Decides what kind of terminal to start on a workspace with the given
/// bookkeeping.
pub fn terminal(state: Option<&WorkspaceState>) -> (r: TerminalKind)
    ensures
        r == if state is Some {
            TerminalKind::Managed
        } else {
            TerminalKind::Plain
        },
{
    match state {
        Some(_) => TerminalKind::Managed,
        None => TerminalKind::Plain,
    }
}

/// The name under which a workspace is detached: the name that the user
/// gave, else the name that the workspace was activated with, else `ws`
/// and the number of the workspace.
pub open spec fn detach_name(
    requested: Option<Seq<char>>,
    activated: Option<Seq<char>>,
    ws_num: i32,
) -> Seq<char> {
    match requested {
        Some(n) => n,
        None => match activated {
            Some(n) => n,
            None => "ws"@ + decimal_signed(ws_num as int),
        },
    }
}

/// The key under which the holder of the lock of session `name` on `host`
/// is kept while the session is attached.
pub open spec fn lock_key_text(host: Seq<char>, name: Seq<char>) -> Seq<char> {
    host + ":"@ + name
}

/// The key under which the holder of the lock of session `name` on `host`
/// is kept while the session is attached.
pub fn lock_key(host: &str, name: &str) -> (r: String)
    ensures
        r@ == lock_key_text(host@, name@),
{
    let mut r: String = String::from_str(host);
    r.append(":");
    r.append(name);
    r
}

/// One action of a detach.
#[derive(Debug)]
pub enum DetachAction {
    /// Store the session of the plan on the host.
    Save,
    /// Run this window-manager command: it closes one managed window.
    CloseWindow { command: String },
    /// End the lock holder that is kept under the key of the plan, if there
    /// is one; its exit trap removes the lock on the host.
    StopHolder,
    /// Release the lock of the session on the host.
    ReleaseLock,
    /// Remove the bookkeeping of the workspace.
    Forget,
}

/// A [`DetachAction`] as plain values.
pub enum DetachActionView {
    Save,
    CloseWindow { command: Seq<char> },
    StopHolder,
    ReleaseLock,
    Forget,
}

impl View for DetachAction {
    type V = DetachActionView;

    open spec fn view(&self) -> DetachActionView {
        match self {
            DetachAction::Save => DetachActionView::Save,
            DetachAction::CloseWindow { command } => DetachActionView::CloseWindow {
                command: command@,
            },
            DetachAction::StopHolder => DetachActionView::StopHolder,
            DetachAction::ReleaseLock => DetachActionView::ReleaseLock,
            DetachAction::Forget => DetachActionView::Forget,
        }
    }
}

/// Whether the detach fails when this action fails. Storing the session
/// must succeed. Once it is stored the terminals are safe, and what
/// follows is done as far as it goes: that a window cannot be closed or a
/// lock cannot be released does not stop the detach. The bookkeeping must
/// be written in the end.
pub open spec fn must_succeed(action: DetachActionView) -> bool {
    action is Save || action is Forget
}

impl DetachAction {
    /// Whether the detach fails when this action fails (see [`must_succeed`]).
    pub fn must_succeed(&self) -> (r: bool)
        ensures
            r == must_succeed(self@),
    {
        match self {
            DetachAction::Save => true,
            DetachAction::Forget => true,
            _ => false,
        }
    }
}

/// The views of a list of actions.
pub open spec fn actions_of(v: Seq<DetachAction>) -> Seq<DetachActionView> {
    v.map_values(|a: DetachAction| a@)
}

/// The actions of a detach, in their order: store the session, close the
/// managed windows with the given commands, stop the lock holder, release
/// the lock, forget the workspace.
pub open spec fn detach_actions(closing: Seq<Seq<char>>) -> Seq<DetachActionView> {
    seq![DetachActionView::Save] + closing.map_values(
        |command: Seq<char>| DetachActionView::CloseWindow { command },
    ) + seq![DetachActionView::StopHolder, DetachActionView::ReleaseLock, DetachActionView::Forget]
}

/// A workspace to detach.
#[derive(Debug)]
pub struct DetachPlan {
    /// The session to store on the host.
    pub session: RemoteSession,
    pub session_name: SessionName,
    /// The host that stores the session; none for this machine.
    pub remote_host: Option<RemoteHost>,
    /// The key of the lock holder to stop.
    pub lock_key: String,
    /// What to do, in this order.
    pub actions: Vec<DetachAction>,
}

/// Whether a workspace with this bookkeeping may be detached: it must be
/// managed, and its terminals must run on a remote host, since the
/// sessions of this machine have no other place to live on.
pub fn detach_target(state: Option<&WorkspaceState>) -> (r: Result<(), LifecycleError>)
    ensures
        match state {
            None => r matches Err(e) && e is NotBound,
            Some(s) => if s.session_type == SessionType::Local {
                r matches Err(e) && e is LocalDetach
            } else {
                r is Ok
            },
        },
{
    match state {
        None => Err(LifecycleError::NotBound),
        Some(s) => match s.session_type {
            SessionType::Local => Err(LifecycleError::LocalDetach),
            SessionType::Remote => Ok(()),
        },
    }
}

/// The host of a workspace as a remote host: none where it is `local`.
pub open spec fn stored_host(host: Seq<char>) -> Option<Seq<char>> {
    if host == "local"@ {
        None
    } else {
        Some(host)
    }
}

/// Decides how to detach workspace `ws_num`, labelled `ws_name`, as it
/// shows in the window manager's `tree`.
///
/// Fails for a local workspace, then for a workspace that shows no terminal
/// of this tool, then for an invalid session name, then for an invalid
/// host. The session that is planned holds the captured layout and no lock.
pub fn detach(
    state: &WorkspaceState,
    requested: Option<String>,
    ws_name: &str,
    ws_num: i32,
    tree: &TreeNode,
) -> (r: Result<DetachPlan, LifecycleError>)
    ensures
        ({
            let name = detach_name(given(requested), given(state.session_name), ws_num);
            let layout = capture_workspace(*tree, ws_num);
            if state.session_type == SessionType::Local {
                r matches Err(e) && e is LocalDetach
            } else if layout is None {
                r matches Err(e) && e is NoTerminals
            } else if session_name_problem(name) is Some {
                r matches Err(e) && (e matches LifecycleError::Input { error }
                    && session_name_problem(name) == Some(error.kind) && error.input@ == name)
            } else if host_problem(stored_host(state.host@)) is Some {
                r matches Err(e) && (e matches LifecycleError::Input { error } && host_problem(
                    stored_host(state.host@),
                ) == Some(error.kind) && error.input@ == state.host@)
            } else {
                r matches Ok(plan) && plan.session.name@ == name && plan.session.workspace@
                    == ws_name@ && plan.session.host@ == state.host@ && Some(plan.session.layout@)
                    == layout && plan.session.lock is None && plan.session_name@ == name && (
                match plan.remote_host {
                    Some(h) => stored_host(state.host@) == Some(h@),
                    None => stored_host(state.host@) is None,
                }) && plan.lock_key@ == lock_key_text(state.host@, name) && actions_of(
                    plan.actions@,
                ) == detach_actions(kill_commands(workspace_windows(*tree, ws_num)))
            }
        }),
{
    match state.session_type {
        SessionType::Local => {
            return Err(LifecycleError::LocalDetach);
        },
        SessionType::Remote => {},
    }
    let layout: Layout = match Layout::capture_from_workspace_num(tree, ws_num) {
        Some(l) => l,
        None => {
            return Err(LifecycleError::NoTerminals);
        },
    };
    let name: String = match requested {
        Some(n) => n,
        None => match &state.session_name {
            Some(n) => n.clone(),
            None => {
                let mut n: String = String::from_str("ws");
                push_decimal_signed(&mut n, ws_num as i64);
                n
            },
        },
    };
    let session_name: SessionName = match SessionName::new(name.as_str()) {
        Ok(n) => n,
        Err(error) => {
            return Err(LifecycleError::Input { error });
        },
    };
    let remote_host: Option<RemoteHost> = if str_equal(state.host.as_str(), "local") {
        None
    } else {
        match RemoteHost::new(state.host.as_str()) {
            Ok(h) => Some(h),
            Err(error) => {
                return Err(LifecycleError::Input { error });
            },
        }
    };
    let key: String = lock_key(state.host.as_str(), session_name.as_str());
    let session = RemoteSession::new(
        String::from_str(session_name.as_str()),
        String::from_str(ws_name),
        state.host.clone(),
        layout,
    );
    let closing: Vec<String> = kill_i3mux_windows_in_workspace(tree, ws_num);
    let mut actions: Vec<DetachAction> = Vec::new();
    actions.push(DetachAction::Save);
    let mut i: usize = 0;
    while i < closing.len()
        invariant
            i <= closing.len(),
            actions@.len() == i + 1,
            actions@[0]@ == DetachActionView::Save,
            forall|j: int|
                0 <= j < i ==> (#[trigger] actions@[j + 1])@ == (DetachActionView::CloseWindow {
                    command: closing@[j]@,
                }),
        decreases closing.len() - i,
    {
        actions.push(DetachAction::CloseWindow { command: closing[i].clone() });
        i = i + 1;
    }
    actions.push(DetachAction::StopHolder);
    actions.push(DetachAction::ReleaseLock);
    actions.push(DetachAction::Forget);
    assert(actions_of(actions@) =~= detach_actions(views_of(closing@))) by {
        let want = detach_actions(views_of(closing@));
        assert forall|k: int| 0 <= k < want.len() implies actions_of(actions@)[k] == want[k] by {
            if 1 <= k && k <= closing@.len() {
                assert(actions@[(k - 1) + 1]@ == (DetachActionView::CloseWindow {
                    command: closing@[k - 1]@,
                }));
            }
        }
    }
    Ok(DetachPlan { session, session_name, remote_host, lock_key: key, actions })
}

/// The session to attach.
#[derive(Debug)]
pub enum SessionChoice {
    /// This one.
    Chosen { name: SessionName },
    /// One of these; the user has to say which (see [`EXIT_AMBIGUOUS`]).
    Ambiguous { sessions: Vec<String> },
}

/// The name of the session to attach among `sessions`: the one that was
/// asked for, or the only one there is. `None` where none was asked for
/// and there is not exactly one.
pub open spec fn chosen_name(sessions: Seq<Seq<char>>, requested: Option<Seq<char>>) -> Option<
    Seq<char>,
> {
    match requested {
        Some(n) => Some(n),
        None => if sessions.len() == 1 {
            Some(sessions[0])
        } else {
            None
        },
    }
}

/// Decides which of the stored `sessions` to attach.
///
/// It is an error that there is no session at all, and that the session
/// asked for is not among them. That several are there and none was asked
/// for is no error but a result of its own. The chosen name is validated.
pub fn select_session(sessions: Vec<String>, requested: Option<String>, host: &str) -> (r: Result<
    SessionChoice,
    LifecycleError,
>)
    ensures
        ({
            let names = views_of(sessions@);
            if names.len() == 0 {
                r matches Err(e) && (e matches LifecycleError::NoSessions { host: h } && h@
                    == host@)
            } else if requested is Some && !names.contains(given(requested)->0) {
                r matches Err(e) && (e matches LifecycleError::SessionNotFound { name, host: h }
                    && Some(name@) == given(requested) && h@ == host@)
            } else {
                match chosen_name(names, given(requested)) {
                    Some(name) => if session_name_problem(name) is Some {
                        r matches Err(e) && (e matches LifecycleError::Input { error }
                            && session_name_problem(name) == Some(error.kind) && error.input@
                            == name)
                    } else {
                        r matches Ok(c) && (c matches SessionChoice::Chosen { name: n } && n@
                            == name)
                    },
                    None => r matches Ok(c) && (c matches SessionChoice::Ambiguous { sessions: s }
                        && s == sessions),
                }
            }
        }),
{
    if sessions.len() == 0 {
        return Err(LifecycleError::NoSessions { host: String::from_str(host) });
    }
    let name: String = match requested {
        Some(n) => {
            if !contains_name(&sessions, n.as_str()) {
                return Err(
                    LifecycleError::SessionNotFound { name: n, host: String::from_str(host) },
                );
            }
            n
        },
        None => {
            if sessions.len() == 1 {
                sessions[0].clone()
            } else {
                return Ok(SessionChoice::Ambiguous { sessions });
            }
        },
    };
    match SessionName::new(name.as_str()) {
        Ok(n) => Ok(SessionChoice::Chosen { name: n }),
        Err(error) => Err(LifecycleError::Input { error }),
    }
}

fn contains_name(sessions: &Vec<String>, name: &str) -> (b: bool)
    ensures
        b == views_of(sessions@).contains(name@),
{
    let mut i: usize = 0;
    while i < sessions.len()
        invariant
            i <= sessions.len(),
            forall|j: int| 0 <= j < i ==> views_of(sessions@)[j] != name@,
        decreases sessions.len() - i,
    {
        if str_equal(sessions[i].as_str(), name) {
            assert(views_of(sessions@)[i as int] == name@);
            return true;
        }
        i = i + 1;
    }
    false
}

/// Guards an attach: the workspace `ws_num` must not show terminals of this
/// tool already, or the sessions of two attachments would mix under one
/// numbering. Other windows do not matter.
pub fn attach_guard(tree: &TreeNode, ws_num: i32) -> (r: Result<(), LifecycleError>)
    ensures
        r is Ok <==> workspace_windows(*tree, ws_num).len() == 0,
        r matches Err(e) ==> (e matches LifecycleError::WorkspaceOccupied { workspace }
            && workspace == ws_num),
{
    if workspace_has_i3mux_windows(tree, ws_num) {
        Err(LifecycleError::WorkspaceOccupied { workspace: ws_num })
    } else {
        Ok(())
    }
}

/// How far an attach has come: what the caller is to report next.
#[derive(Debug, Clone, Copy, PartialEq, Eq, Structural)]
pub enum AttachPhase {
    /// The sessions of the host.
    Listing,
    /// The stored session.
    Loading,
    /// The lock of the session.
    Locking,
    /// The focused workspace and the window manager's tree.
    Inspecting,
    /// That the layout is restored.
    Restoring,
    /// That the session is stored with its lock.
    Saving,
    /// Nothing: the attach has ended.
    Finished,
}

/// An attach in progress.
#[derive(Debug)]
pub struct Attachment {
    pub phase: AttachPhase,
    /// The host that stores the session; none for this machine.
    pub remote_host: Option<RemoteHost>,
    /// The session that the user asked for, if any.
    pub requested: Option<String>,
    /// Whether to take the lock from a live holder.
    pub force: bool,
    /// The session that was chosen.
    pub name: Option<SessionName>,
    /// The session as it was loaded, with the lock once it is taken.
    pub session: Option<RemoteSession>,
    /// The label of the workspace that the session is attached to.
    pub workspace: Option<String>,
}

/// What the caller reports during an attach.
#[derive(Debug)]
pub enum AttachEvent {
    /// The names of the sessions that the host stores.
    Listed { sessions: Vec<String> },
    /// The stored session.
    Loaded { session: RemoteSession },
    /// The lock that was taken.
    Locked { lock: SessionLock },
    /// The focused workspace, and the window manager's tree.
    Inspected { label: String, num: i32, tree: TreeNode },
    /// The layout is restored.
    Restored,
    /// The session is stored.
    Saved,
}

/// What to do next in an attach. If the caller cannot do it, the attach has
/// failed. Only [`AttachStep::Remember`], [`AttachStep::Ambiguous`] and
/// [`AttachStep::Failed`] end the attach; every other step is answered with
/// an event.
#[derive(Debug)]
pub enum AttachStep {
    /// List the sessions of the host.
    List,
    /// Load the stored session `name`.
    Load { name: String },
    /// Take the lock of the session `name`.
    Lock { name: String, force: bool },
    /// Ask the window manager for the focused workspace and for its tree.
    Inspect,
    /// Take these steps, one after the other; the terminals run on `host`.
    Restore { steps: Vec<RestoreStep>, host: String },
    /// Store `session`, which now names its lock, on the host.
    Save { session: RemoteSession },
    /// Store `state` as the bookkeeping of workspace `label`, and keep the
    /// holder of the lock, if there is one, under `lock_key`. The session is
    /// attached.
    Remember { label: String, state: WorkspaceState, lock_key: String },
    /// Several sessions are there and none was asked for.
    Ambiguous { sessions: Vec<String> },
    /// The attach has failed.
    Failed { error: LifecycleError },
}

/// The host of an attach as plain text, where it is remote.
pub open spec fn attach_host(a: Attachment) -> Option<Seq<char>> {
    match a.remote_host {
        Some(h) => Some(h@),
        None => None,
    }
}

/// The host of an attach as it is shown to the user.
pub open spec fn attach_host_display(a: Attachment) -> Seq<char> {
    match a.remote_host {
        Some(h) => h@,
        None => LOCAL_DISPLAY@,
    }
}

/// Whether `after` keeps what `before` has gathered, but for the phase.
pub open spec fn keeps(before: Attachment, after: Attachment) -> bool {
    &&& after.remote_host == before.remote_host
    &&& after.requested == before.requested
    &&& after.force == before.force
}

/// Whether an attach that stood at `before` and got `event` now stands at
/// `after` and is to take `step`.
///
/// The order is: list the sessions and choose one; load it; take its lock;
/// make sure that the workspace shows no terminal of this tool; restore the
/// layout; store the session with its lock; remember the workspace. An
/// event that does not belong to the phase ends the attach with
/// [`LifecycleError::UnexpectedEvent`].
pub open spec fn attach_follows(
    before: Attachment,
    event: AttachEvent,
    after: Attachment,
    step: AttachStep,
) -> bool {
    let failed = after.phase == AttachPhase::Finished && step is Failed;
    keeps(before, after) && match (before.phase, event) {
        (AttachPhase::Listing, AttachEvent::Listed { sessions }) => {
            let names = views_of(sessions@);
            if names.len() == 0 {
                failed && (step matches AttachStep::Failed { error }
                    && error matches LifecycleError::NoSessions { host } && host@
                    == attach_host_display(before))
            } else if before.requested is Some && !names.contains(given(before.requested)->0) {
                failed && (step matches AttachStep::Failed { error }
                    && error matches LifecycleError::SessionNotFound { name, host } && Some(name@)
                    == given(before.requested) && host@ == attach_host_display(before))
            } else {
                match chosen_name(names, given(before.requested)) {
                    Some(name) => if session_name_problem(name) is Some {
                        failed && (step matches AttachStep::Failed { error }
                            && error matches LifecycleError::Input { error: e }
                            && session_name_problem(name) == Some(e.kind) && e.input@ == name)
                    } else {
                        after.phase == AttachPhase::Loading && (after.name matches Some(n) && n@
                            == name) && (step matches AttachStep::Load { name: n } && n@ == name)
                    },
                    None => after.phase == AttachPhase::Finished && (
                    step matches AttachStep::Ambiguous { sessions: s } && s == sessions),
                }
            }
        },
        (AttachPhase::Loading, AttachEvent::Loaded { session }) => match before.name {
            Some(name) => after.phase == AttachPhase::Locking && after.name == before.name
                && after.session == Some(session) && (step matches AttachStep::Lock {
                name: n,
                force,
            } && n@ == name@ && force == before.force),
            None => failed,
        },
        (AttachPhase::Locking, AttachEvent::Locked { lock }) => match before.session {
            Some(session) => after.phase == AttachPhase::Inspecting && after.name == before.name
                && (after.session matches Some(s) && s.name == session.name && s.workspace
                == session.workspace && s.host == session.host && s.layout == session.layout
                && s.lock == Some(lock)) && step is Inspect,
            None => failed,
        },
        (AttachPhase::Inspecting, AttachEvent::Inspected { label, num, tree }) => match before.session {
            Some(session) => if workspace_windows(tree, num).len() > 0 {
                failed && (step matches AttachStep::Failed { error }
                    && error matches LifecycleError::WorkspaceOccupied { workspace } && workspace
                    == num)
            } else {
                after.phase == AttachPhase::Restoring && after.name == before.name
                    && after.session == before.session && after.workspace == Some(label) && (
                step matches AttachStep::Restore { steps, host } && steps_of(steps@)
                    == restore_plan(sockets(session.layout@), commands(session.layout@, 0), 0)
                    && host@ == attach_host_display(before))
            },
            None => failed,
        },
        (AttachPhase::Restoring, AttachEvent::Restored) => match before.session {
            Some(session) => after.phase == AttachPhase::Saving && after.name == before.name
                && after.session == before.session && after.workspace == before.workspace && (
            step matches AttachStep::Save { session: s } && s.name@ == session.name@
                && s.workspace@ == session.workspace@ && s.host@ == session.host@ && s.layout@
                == session.layout@ && match session.lock {
                Some(lock) => s.lock matches Some(l) && l@ == lock@,
                None => s.lock is None,
            }),
            None => failed,
        },
        (AttachPhase::Saving, AttachEvent::Saved) => match (
            before.name,
            before.session,
            before.workspace,
        ) {
            (Some(name), Some(session), Some(workspace)) => after.phase == AttachPhase::Finished
                && (step matches AttachStep::Remember { label, state, lock_key } && label
                == workspace && state.session_type == (if before.remote_host is Some {
                SessionType::Remote
            } else {
                SessionType::Local
            }) && state.host@ == host_label(attach_host(before)) && (
            state.session_name matches Some(n) && n@ == name@) && state.next_socket_id
                == counter_after(sockets(session.layout@).len()) && views_of(state.sockets@)
                == sockets(session.layout@) && lock_key@ == lock_key_text(
                host_label(attach_host(before)),
                name@,
            )),
            _ => failed,
        },
        _ => failed && (step matches AttachStep::Failed { error } && error is UnexpectedEvent),
    }
}

impl Attachment {
    /// Begins an attach to the session `requested`, or to the only session
    /// there is, on the given host. The host is validated. The first thing
    /// to do is to list the sessions of the host ([`AttachStep::List`]).
    pub fn new(remote: Option<String>, requested: Option<String>, force: bool) -> (r: Result<
        Self,
        LifecycleError,
    >)
        ensures
            match r {
                Ok(a) => host_problem(given(remote)) is None && attach_host(a) == given(remote)
                    && a.phase == AttachPhase::Listing && a.requested == requested && a.force
                    == force && a.name is None && a.session is None && a.workspace is None,
                Err(e) => e matches LifecycleError::Input { error } && host_problem(given(remote))
                    == Some(error.kind) && given(remote) == Some(error.input@),
            },
    {
        match checked_host(remote) {
            Ok(remote_host) => Ok(
                Attachment {
                    phase: AttachPhase::Listing,
                    remote_host,
                    requested,
                    force,
                    name: None,
                    session: None,
                    workspace: None,
                },
            ),
            Err(error) => Err(LifecycleError::Input { error }),
        }
    }

    fn fail(self, error: LifecycleError) -> (r: (Self, AttachStep))
        ensures
            keeps(self, r.0),
            r.0.phase == AttachPhase::Finished,
            r.1 == (AttachStep::Failed { error }),
    {
        (
            Attachment {
                phase: AttachPhase::Finished,
                remote_host: self.remote_host,
                requested: self.requested,
                force: self.force,
                name: self.name,
                session: self.session,
                workspace: self.workspace,
            },
            AttachStep::Failed { error },
        )
    }

    /// Takes the attach one step further (see [`attach_follows`]).
    pub fn next(self, event: AttachEvent) -> (r: (Self, AttachStep))
        ensures
            attach_follows(self, event, r.0, r.1),
    {
        match (self.phase, event) {
            (AttachPhase::Listing, AttachEvent::Listed { sessions }) => {
                let host: String = host_display(self.remote_host.as_ref());
                let requested: Option<String> = match &self.requested {
                    Some(n) => Some(n.clone()),
                    None => None,
                };
                match select_session(sessions, requested, host.as_str()) {
                    Ok(SessionChoice::Chosen { name }) => {
                        let step = AttachStep::Load { name: String::from_str(name.as_str()) };
                        (
                            Attachment {
                                phase: AttachPhase::Loading,
                                remote_host: self.remote_host,
                                requested: self.requested,
                                force: self.force,
                                name: Some(name),
                                session: self.session,
                                workspace: self.workspace,
                            },
                            step,
                        )
                    },
                    Ok(SessionChoice::Ambiguous { sessions }) => (
                        Attachment {
                            phase: AttachPhase::Finished,
                            remote_host: self.remote_host,
                            requested: self.requested,
                            force: self.force,
                            name: self.name,
                            session: self.session,
                            workspace: self.workspace,
                        },
                        AttachStep::Ambiguous { sessions },
                    ),
                    Err(error) => self.fail(error),
                }
            },
            (AttachPhase::Loading, AttachEvent::Loaded { session }) => {
                let name: String = match &self.name {
                    Some(n) => String::from_str(n.as_str()),
                    None => {
                        return self.fail(LifecycleError::UnexpectedEvent);
                    },
                };
                let step = AttachStep::Lock { name, force: self.force };
                (
                    Attachment {
                        phase: AttachPhase::Locking,
                        remote_host: self.remote_host,
                        requested: self.requested,
                        force: self.force,
                        name: self.name,
                        session: Some(session),
                        workspace: self.workspace,
                    },
                    step,
                )
            },
            (AttachPhase::Locking, AttachEvent::Locked { lock }) => {
                match self.session {
                    Some(session) => (
                        Attachment {
                            phase: AttachPhase::Inspecting,
                            remote_host: self.remote_host,
                            requested: self.requested,
                            force: self.force,
                            name: self.name,
                            session: Some(session.locked(lock)),
                            workspace: self.workspace,
                        },
                        AttachStep::Inspect,
                    ),
                    None => (
                        Attachment {
                            phase: AttachPhase::Finished,
                            remote_host: self.remote_host,
                            requested: self.requested,
                            force: self.force,
                            name: self.name,
                            session: None,
                            workspace: self.workspace,
                        },
                        AttachStep::Failed { error: LifecycleError::UnexpectedEvent },
                    ),
                }
            },
            (AttachPhase::Inspecting, AttachEvent::Inspected { label, num, tree }) => {
                let steps: Vec<RestoreStep> = match &self.session {
                    Some(session) => session.layout.restore_steps(),
                    None => {
                        return self.fail(LifecycleError::UnexpectedEvent);
                    },
                };
                match attach_guard(&tree, num) {
                    Ok(()) => {
                        let host: String = host_display(self.remote_host.as_ref());
                        (
                            Attachment {
                                phase: AttachPhase::Restoring,
                                remote_host: self.remote_host,
                                requested: self.requested,
                                force: self.force,
                                name: self.name,
                                session: self.session,
                                workspace: Some(label),
                            },
                            AttachStep::Restore { steps, host },
                        )
                    },
                    Err(error) => self.fail(error),
                }
            },
            (AttachPhase::Restoring, AttachEvent::Restored) => {
                let stored: RemoteSession = match &self.session {
                    Some(session) => session.clone(),
                    None => {
                        return self.fail(LifecycleError::UnexpectedEvent);
                    },
                };
                (
                    Attachment {
                        phase: AttachPhase::Saving,
                        remote_host: self.remote_host,
                        requested: self.requested,
                        force: self.force,
                        name: self.name,
                        session: self.session,
                        workspace: self.workspace,
                    },
                    AttachStep::Save { session: stored },
                )
            },
            (AttachPhase::Saving, AttachEvent::Saved) => {
                let step = match (&self.name, &self.session, &self.workspace) {
                    (Some(name), Some(session), Some(workspace)) => {
                        let state = WorkspaceState::attached(
                            self.remote_host.as_ref(),
                            name,
                            session.layout.get_sockets(),
                        );
                        let key: String = lock_key(state.host.as_str(), name.as_str());
                        AttachStep::Remember { label: workspace.clone(), state, lock_key: key }
                    },
                    _ => AttachStep::Failed { error: LifecycleError::UnexpectedEvent },
                };
                (
                    Attachment {
                        phase: AttachPhase::Finished,
                        remote_host: self.remote_host,
                        requested: self.requested,
                        force: self.force,
                        name: self.name,
                        session: self.session,
                        workspace: self.workspace,
                    },
                    step,
                )
            },
            (_, _) => self.fail(LifecycleError::UnexpectedEvent),
        }
    }
}

/// What to show of the lock of a listed session.
pub open spec fn lock_label_text(lock: Option<SessionLock>, holder_alive: bool) -> Seq<char> {
    match lock {
        Some(l) => if holder_alive {
            " [LOCKED by "@ + l.locked_by@ + "]"@
        } else {
            " [stale lock]"@
        },
        None => Seq::empty(),
    }
}

/// What to show of the lock of a listed session; `holder_alive` says
/// whether the probe of its holder succeeded.
pub fn lock_label(lock: Option<&SessionLock>, holder_alive: bool) -> (r: String)
    ensures
        r@ == lock_label_text(
            match lock {
                Some(l) => Some(*l),
                None => None,
            },
            holder_alive,
        ),
{
    match lock {
        Some(l) => {
            if holder_alive {
                let mut r: String = String::from_str(" [LOCKED by ");
                r.append(l.locked_by.as_str());
                r.append("]");
                r
            } else {
                String::from_str(" [stale lock]")
            }
        },
        None => String::new(),
    }
}

/// The line that lists a session.
pub open spec fn session_line_text(name: Seq<char>, terminals: nat, label: Seq<char>) -> Seq<
    char,
> {
    "  "@ + name + " - "@ + decimal(terminals) + " terminals"@ + label
}

/// The line that lists the session `session` with its lock.
pub fn list_sessions(session: &RemoteSession, name: &str, holder_alive: bool) -> (r: String)
    ensures
        r@ == session_line_text(
            name@,
            sockets(session.layout@).len(),
            lock_label_text(session.lock, holder_alive),
        ),
{
    let sockets: Vec<String> = session.layout.get_sockets();
    let label: String = lock_label(session.lock.as_ref(), holder_alive);
    let mut r: String = String::from_str("  ");
    r.append(name);
    r.append(" - ");
    push_decimal(&mut r, sockets.len() as u64);
    r.append(" terminals");
    r.append(label.as_str());
    r
}

/// A stored session to delete.
#[derive(Debug)]
pub struct KillPlan {
    /// The host that stores the session; none for this machine.
    pub remote_host: Option<RemoteHost>,
    pub session_name: SessionName,
}

/// Decides how to kill the session `session` on the given host: both are
/// validated, the host first, and the stored session is then deleted
/// whether or not an attachment holds it. Windows are not touched.
pub fn kill_session(remote: Option<String>, session: String) -> (r: Result<KillPlan, LifecycleError>)
    ensures
        match r {
            Ok(plan) => host_problem(given(remote)) is None && session_name_problem(session@)
                is None && (match plan.remote_host {
                Some(h) => given(remote) == Some(h@),
                None => remote is None,
            }) && plan.session_name@ == session@,
            Err(e) => e matches LifecycleError::Input { error } && (if host_problem(given(remote))
                is Some {
                host_problem(given(remote)) == Some(error.kind) && given(remote) == Some(
                    error.input@,
                )
            } else {
                session_name_problem(session@) == Some(error.kind) && error.input@ == session@
            }),
        },
{
    let remote_host: Option<RemoteHost> = match checked_host(remote) {
        Ok(h) => h,
        Err(error) => {
            return Err(LifecycleError::Input { error });
        },
    };
    match SessionName::new(session.as_str()) {
        Ok(session_name) => Ok(KillPlan { remote_host, session_name }),
        Err(error) => Err(LifecycleError::Input { error }),
    }
}

/// The command that succeeds exactly when a terminal session of workspace
/// `ws_name` is left on this machine.
pub open spec fn socket_probe_text(ws_name: Seq<char>) -> Seq<char> {
    "ls /tmp/ws"@ + ws_name + "-* 2>/dev/null"@
}

/// The command that succeeds exactly when a terminal session of workspace
/// `ws_name` is left on this machine.
pub fn socket_probe(ws_name: &str) -> (r: String)
    ensures
        r@ == socket_probe_text(ws_name@),
{
    let mut r: String = String::from_str("ls /tmp/ws");
    r.append(ws_name);
    r.append("-* 2>/dev/null");
    r
}

/// Decides whether to forget the bookkeeping of a workspace when one of its
/// terminals has ended: it is forgotten when the workspace is managed and
/// no terminal session of it is left.
pub fn cleanup_workspace(state: Option<&WorkspaceState>, sessions_left: bool) -> (r: bool)
    ensures
        r == (state is Some && !sessions_left),
{
    match state {
        Some(_) => !sessions_left,
        None => false,
    }
}

} // verus!
