//! Access to the sessions and locks of a host, local or remote.
//!
//! This module holds the protocol: the paths and commands, what to do next
//! after each answer, and the policy by which a lock is granted or refused.
//! It runs nothing itself. The caller executes each step and reports what
//! came of it.
//!
//! A lock is alive as long as its holder process is. On a remote host the
//! holder is a background shell that the caller keeps on a leash: when the
//! caller ends it, its exit trap removes the lock.
pub mod local;
pub mod ssh;

use crate::session::SessionLock;
use crate::text::{decimal, nonempty_lines, push_decimal, split_nonempty_lines, views_of};
use local::{
    local_step_follows, sessions_in, LocalConnection, LocalLockEvent, LocalLockStep,
};
use ssh::{
    executes, list_text, make_locks_dir_text, make_sessions_dir_text, release_text,
    remote_step_follows, LockEvent, LockPhase, LockStep, SaveRequest, SshConnection,
};
use vstd::prelude::*;
use vstd::string::*;

verus! {


/// The directory that holds sessions, locks and control sockets.
pub const BASE_DIR: &'static str = "/tmp/i3mux";

/// The directory of the session files.
pub open spec fn sessions_dir_text() -> Seq<char> {
    BASE_DIR@ + "/sessions"@
}

/// The directory of the lock files.
pub open spec fn locks_dir_text() -> Seq<char> {
    BASE_DIR@ + "/locks"@
}

/// The file that stores the session `name`.
pub open spec fn session_file(name: Seq<char>) -> Seq<char> {
    BASE_DIR@ + "/sessions/"@ + name + ".json"@
}

/// The file that is the lock of the session `name`.
pub open spec fn lock_file(name: Seq<char>) -> Seq<char> {
    BASE_DIR@ + "/locks/"@ + name + ".lock"@
}

/// The file in which the holder of the lock of `name` records its process.
pub open spec fn pid_file(name: Seq<char>) -> Seq<char> {
    BASE_DIR@ + "/locks/"@ + name + ".lock.pid"@
}

/// The command that succeeds exactly when the process `pid` is alive.
pub open spec fn probe_text(pid: u32) -> Seq<char> {
    "kill -0 "@ + decimal(pid as nat) + " 2>/dev/null"@
}

/// Whether a lock stands in the way of a new one: its holder is alive and
/// the caller does not force its way.
pub open spec fn lock_blocks(force: bool, holder_alive: bool) -> bool {
    holder_alive && !force
}

/// Why an operation on a host failed.
#[derive(Debug)]
pub enum ConnectionError {
    /// The session is locked by a live holder. `holder` names the host that
    /// took the lock and the time, where the lock record could be read.
    Locked { session: String, holder: Option<(String, String)> },
    /// The holder that was spawned on the remote host did not report its process.
    Acquisition,
    /// A session file could not be deleted, for another reason than its absence.
    DeleteFailed { path: String },
    /// A lock file could not be deleted, for another reason than its absence.
    ReleaseFailed { path: String },
    /// The caller reported something that does not answer the step it was given.
    UnexpectedEvent,
    /// A command on the remote host ended without success; `stderr` is what
    /// it wrote to its error stream.
    CommandFailed { stderr: String },
    /// The session could not be read from the host.
    SessionNotFound { name: String, host: String },
    /// A command could not be run at all: the way to the host has failed.
    /// `remote` tells whether the host is a remote one.
    TransportFailure { remote: bool },
}

/// The text of a [`ConnectionError`].
pub open spec fn connection_error_text(e: ConnectionError) -> Seq<char> {
    match e {
        ConnectionError::Locked { session, holder } => match holder {
            Some((by, at)) => "Session '"@ + session@ + "' is locked by "@ + by@ + " (acquired "@
                + at@ + "). Use --force to break lock."@,
            None => "Session '"@ + session@ + "' is locked. Use --force to break lock."@,
        },
        ConnectionError::Acquisition => "Failed to acquire lock - could not get remote PID"@,
        ConnectionError::DeleteFailed { path } => "Failed to delete session file: "@ + path@,
        ConnectionError::ReleaseFailed { path } => "Failed to release lock: "@ + path@,
        ConnectionError::UnexpectedEvent => "Unexpected answer to a lock step"@,
        ConnectionError::CommandFailed { stderr } => "SSH command failed: "@ + stderr@,
        ConnectionError::SessionNotFound { name, host } => "Session '"@ + name@
            + "' not found on "@ + host@,
        ConnectionError::TransportFailure { remote } => if remote {
            "Failed to execute SSH command"@
        } else {
            "Failed to execute local command"@
        },
    }
}

impl ConnectionError {
    /// The error as a sentence for the user.
    pub fn message(&self) -> (r: String)
        ensures
            r@ == connection_error_text(*self),
    {
        match self {
            ConnectionError::Locked { session, holder } => {
                let mut r: String = String::from_str("Session '");
                r.append(session.as_str());
                match holder {
                    Some((by, at)) => {
                        r.append("' is locked by ");
                        r.append(by.as_str());
                        r.append(" (acquired ");
                        r.append(at.as_str());
                        r.append("). Use --force to break lock.");
                    },
                    None => {
                        r.append("' is locked. Use --force to break lock.");
                    },
                }
                r
            },
            ConnectionError::Acquisition => String::from_str(
                "Failed to acquire lock - could not get remote PID",
            ),
            ConnectionError::DeleteFailed { path } => {
                let mut r: String = String::from_str("Failed to delete session file: ");
                r.append(path.as_str());
                r
            },
            ConnectionError::ReleaseFailed { path } => {
                let mut r: String = String::from_str("Failed to release lock: ");
                r.append(path.as_str());
                r
            },
            ConnectionError::UnexpectedEvent => String::from_str("Unexpected answer to a lock step"),
            ConnectionError::CommandFailed { stderr } => {
                let mut r: String = String::from_str("SSH command failed: ");
                r.append(stderr.as_str());
                r
            },
            ConnectionError::SessionNotFound { name, host } => {
                let mut r: String = String::from_str("Session '");
                r.append(name.as_str());
                r.append("' not found on ");
                r.append(host.as_str());
                r
            },
            ConnectionError::TransportFailure { remote } => {
                if *remote {
                    String::from_str("Failed to execute SSH command")
                } else {
                    String::from_str("Failed to execute local command")
                }
            },
        }
    }
}

pub(crate) fn session_path(name: &str) -> (r: String)
    ensures
        r@ == session_file(name@),
{
    let mut r: String = String::from_str(BASE_DIR);
    r.append("/sessions/");
    r.append(name);
    r.append(".json");
    r
}

pub(crate) fn lock_path(name: &str) -> (r: String)
    ensures
        r@ == lock_file(name@),
{
    let mut r: String = String::from_str(BASE_DIR);
    r.append("/locks/");
    r.append(name);
    r.append(".lock");
    r
}

pub(crate) fn pid_path(name: &str) -> (r: String)
    ensures
        r@ == pid_file(name@),
{
    let mut r: String = String::from_str(BASE_DIR);
    r.append("/locks/");
    r.append(name);
    r.append(".lock.pid");
    r
}

pub(crate) fn sessions_dir_string() -> (r: String)
    ensures
        r@ == sessions_dir_text(),
{
    let mut r: String = String::from_str(BASE_DIR);
    r.append("/sessions");
    r
}

pub(crate) fn locks_dir_string() -> (r: String)
    ensures
        r@ == locks_dir_text(),
{
    let mut r: String = String::from_str(BASE_DIR);
    r.append("/locks");
    r
}

pub(crate) fn probe_command(pid: u32) -> (r: String)
    ensures
        r@ == probe_text(pid),
{
    let mut r: String = String::from_str("kill -0 ");
    push_decimal(&mut r, pid as u64);
    r.append(" 2>/dev/null");
    r
}

/// Calls `gethostname::gethostname` and turns the name into a `String`;
/// `None` where the name is no valid Unicode. The name is the machine's, so
/// nothing is claimed of it.
#[verifier::external_body]
fn local_hostname() -> (r: Option<String>) {
    gethostname::gethostname().into_string().ok()
}

/// The name under which this machine takes locks: its host name, or
/// `unknown` where that cannot be had.
pub open spec fn lock_owner(hostname: Option<String>) -> Seq<char> {
    match hostname {
        Some(h) => h@,
        None => "unknown"@,
    }
}

/// The name under which this machine takes locks, given the host name that
/// was found.
pub fn owner_name(hostname: Option<String>) -> (r: String)
    ensures
        r@ == lock_owner(hostname),
{
    match hostname {
        Some(h) => h,
        None => String::from_str("unknown"),
    }
}

/// The name under which this machine takes locks.
pub(crate) fn machine_owner() -> (r: String) {
    owner_name(local_hostname())
}

/// How the removal of a file ended.
#[derive(Debug, Clone, Copy, PartialEq, Eq, Structural)]
pub enum RemoveOutcome {
    Removed,
    /// There was no such file.
    NotFound,
    /// The file is there and could not be removed.
    Failed,
}

/// Whether a removal that ended like this left the file absent.
pub open spec fn gone(outcome: RemoveOutcome) -> bool {
    outcome != RemoveOutcome::Failed
}

/// How removing `name` from a store that holds the files `store` ends.
pub open spec fn removal_from(store: Set<Seq<char>>, name: Seq<char>) -> RemoveOutcome {
    if store.contains(name) {
        RemoveOutcome::Removed
    } else {
        RemoveOutcome::NotFound
    }
}

/// Deleting is idempotent: on a store that lets files be removed, deleting a
/// session succeeds whether or not the session exists, and so does deleting
/// it again; after the first time the store no longer changes.
pub proof fn lemma_delete_idempotent(store: Set<Seq<char>>, name: Seq<char>)
    ensures
        gone(removal_from(store, name)),
        gone(removal_from(store.remove(name), name)),
        removal_from(store.remove(name), name) == RemoveOutcome::NotFound,
        store.remove(name).remove(name) == store.remove(name),
        !store.contains(name) ==> store.remove(name) == store,
{
    assert(store.remove(name).remove(name) =~= store.remove(name));
    if !store.contains(name) {
        assert(store.remove(name) =~= store);
    }
}

/// Access to a host: this machine, or a remote one.
#[derive(Debug)]
pub enum Connection {
    Local(LocalConnection),
    Ssh(SshConnection),
}

/// Access to `host`, or to this machine where no host is given.
pub fn create_connection(host: Option<&str>) -> (r: Connection)
    ensures
        match host {
            None => r is Local,
            Some(h) => r matches Connection::Ssh(c) && c.spec_host() == h@,
        },
{
    match host {
        None => Connection::Local(LocalConnection::new()),
        Some(h) => Connection::Ssh(SshConnection::new(String::from_str(h))),
    }
}

/// How to store the text of a session.
#[derive(Debug)]
pub enum StoreRequest {
    /// Create the directory `dir` and write the text to the file `path`.
    File { dir: String, path: String },
    /// Run `prepare` on the host, then run `write` there with the text on
    /// its standard input.
    Remote { prepare: String, write: String },
}

/// How to do something that is the reading or removing of a file on this
/// machine and a command on a remote host.
#[derive(Debug)]
pub enum FileRequest {
    /// Read, or remove, the file `path`.
    File { path: String },
    /// Run `command` on the host.
    Remote { command: String },
}

/// How to list the sessions of a host.
#[derive(Debug)]
pub enum ListRequest {
    /// Report the names of the files in the directory `dir`; none where it
    /// cannot be read.
    Directory { dir: String },
    /// Run `command` on the host and report its output.
    Remote { command: String },
}

/// The answer to a [`ListRequest`].
#[derive(Debug)]
pub enum ListAnswer {
    Files { names: Vec<String> },
    Output { stdout: String },
}

/// The names of the sessions that an answer to a [`ListRequest`] shows.
pub open spec fn listed_sessions(answer: ListAnswer) -> Seq<Seq<char>> {
    match answer {
        ListAnswer::Files { names } => sessions_in(views_of(names@), 0),
        ListAnswer::Output { stdout } => nonempty_lines(stdout@, 0),
    }
}

impl Connection {
    /// How to store the text of the session `name`.
    pub fn save_session_data(&self, name: &str) -> (r: StoreRequest)
        ensures
            match self {
                Connection::Local(_) => r matches StoreRequest::File { dir, path } && dir@
                    == sessions_dir_text() && path@ == session_file(name@),
                Connection::Ssh(_) => r matches StoreRequest::Remote { prepare, write }
                    && prepare@ == make_sessions_dir_text() && write@ == "cat > "@
                    + session_file(name@),
            },
    {
        match self {
            Connection::Local(c) => StoreRequest::File {
                dir: LocalConnection::sessions_dir(),
                path: c.save_session_data(name),
            },
            Connection::Ssh(c) => {
                let request: SaveRequest = c.save_session_data(name);
                StoreRequest::Remote { prepare: request.prepare, write: request.write }
            },
        }
    }

    /// How to get the text of the stored session `name`.
    pub fn load_session_data(&self, name: &str) -> (r: FileRequest)
        ensures
            match self {
                Connection::Local(_) => r matches FileRequest::File { path } && path@
                    == session_file(name@),
                Connection::Ssh(_) => r matches FileRequest::Remote { command } && command@
                    == "cat '"@ + session_file(name@) + "'"@,
            },
    {
        match self {
            Connection::Local(c) => FileRequest::File { path: c.load_session_data(name) },
            Connection::Ssh(c) => FileRequest::Remote { command: c.load_session_data(name) },
        }
    }

    /// How to list the sessions.
    pub fn list_request(&self) -> (r: ListRequest)
        ensures
            match self {
                Connection::Local(_) => r matches ListRequest::Directory { dir } && dir@
                    == sessions_dir_text(),
                Connection::Ssh(_) => r matches ListRequest::Remote { command } && command@
                    == list_text(),
            },
    {
        match self {
            Connection::Local(_) => ListRequest::Directory { dir: LocalConnection::sessions_dir() },
            Connection::Ssh(c) => ListRequest::Remote { command: c.list_command() },
        }
    }

    /// The names of the sessions, from the answer to
    /// [`list_request`](Self::list_request).
    pub fn list_session_names(&self, answer: &ListAnswer) -> (r: Vec<String>)
        ensures
            views_of(r@) == listed_sessions(*answer),
    {
        match answer {
            ListAnswer::Files { names } => LocalConnection::new().list_session_names(names),
            ListAnswer::Output { stdout } => split_nonempty_lines(stdout.as_str()),
        }
    }

    /// How to delete the stored session `name`. On this machine the removal
    /// is judged by [`LocalConnection::delete_session`]; the remote command
    /// succeeds also where there is no such session.
    pub fn delete_session(&self, name: &str) -> (r: FileRequest)
        ensures
            match self {
                Connection::Local(_) => r matches FileRequest::File { path } && path@
                    == session_file(name@),
                Connection::Ssh(_) => r matches FileRequest::Remote { command } && command@
                    == "rm -f '"@ + session_file(name@) + "'"@,
            },
    {
        match self {
            Connection::Local(c) => FileRequest::File { path: c.session_file_of(name) },
            Connection::Ssh(c) => FileRequest::Remote { command: c.delete_session(name) },
        }
    }

    /// How to release the lock of `session_name`. The caller goes on with
    /// its work whether or not this succeeds.
    pub fn release_lock(&self, session_name: &str) -> (r: FileRequest)
        ensures
            match self {
                Connection::Local(_) => r matches FileRequest::File { path } && path@
                    == lock_file(session_name@),
                Connection::Ssh(_) => r matches FileRequest::Remote { command } && command@
                    == release_text(session_name@),
            },
    {
        match self {
            Connection::Local(c) => FileRequest::File { path: c.lock_file_of(session_name) },
            Connection::Ssh(c) => FileRequest::Remote { command: c.release_lock(session_name) },
        }
    }

    /// The command that probes the holder of `lock`, to run on the host of
    /// this connection: it succeeds exactly when the holder is alive.
    pub fn liveness_probe(&self, lock: &SessionLock) -> (r: String)
        ensures
            r@ == probe_text(lock.remote_pid),
    {
        probe_command(lock.remote_pid)
    }

    /// Judges the probe of the holder of a lock. The lock is valid exactly
    /// when the probe succeeded. A probe that failed found no such process:
    /// that is the stale lock, and no error. Only a probe that could not be
    /// run is an error.
    pub fn is_lock_valid(&self, outcome: ProbeOutcome) -> (r: Result<bool, ConnectionError>)
        ensures
            match outcome {
                ProbeOutcome::Exited { success } => r == Ok::<bool, ConnectionError>(success),
                ProbeOutcome::NotRun => r matches Err(e) && (
                e matches ConnectionError::TransportFailure { remote } && remote == (self is Ssh)),
            },
    {
        match outcome {
            ProbeOutcome::Exited { success } => Ok(success),
            ProbeOutcome::NotRun => {
                let remote: bool = match self {
                    Connection::Local(_) => false,
                    Connection::Ssh(_) => true,
                };
                Err(ConnectionError::TransportFailure { remote })
            },
        }
    }
}

/// How the probe of a lock holder ended.
#[derive(Debug, Clone, Copy, PartialEq, Eq, Structural)]
pub enum ProbeOutcome {
    /// The probe ran; `success` tells whether it found the process.
    Exited { success: bool },
    /// The probe could not be run.
    NotRun,
}

/// Stale locks are reclaimed. When the probe finds the holder of a lock
/// dead, the lock is taken over, on this machine and on a remote host,
/// whether or not the caller forces its way.
pub proof fn lemma_stale_reclaim(
    local: LocalLockStep,
    remote: LockStep,
    session_name: Seq<char>,
    force: bool,
    held: SessionLock,
    owner: Seq<char>,
    pid: u32,
)
    requires
        local_step_follows(
            local,
            session_name,
            force,
            LocalLockEvent::Probed { lock: held, alive: false },
            owner,
            pid,
        ),
        remote_step_follows(
            remote,
            session_name,
            LockPhase::ProbeHolder,
            LockEvent::Status { success: false },
            owner,
        ),
    ensures
        local matches LocalLockStep::Write { path, lock, .. } && path@ == lock_file(session_name)
            && lock.locked_by@ == owner && lock.remote_pid == pid,
        executes(remote, make_locks_dir_text(), LockPhase::MakeDir),
{
}

} // verus!
