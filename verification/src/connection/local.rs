//! Sessions and locks on this machine: files under the base directory.
use crate::connection::{
    gone, lock_file, lock_path, locks_dir_string, locks_dir_text, lock_blocks, machine_owner,
    probe_command, probe_text, session_file, session_path, sessions_dir_string,
    sessions_dir_text, ConnectionError, RemoveOutcome,
};
use crate::session::SessionLock;
use crate::text::{ends_with, views_of};
use vstd::prelude::*;
use vstd::string::*;

verus! {

/// The characters `.json`.
pub open spec fn json_suffix() -> Seq<char> {
    seq!['.', 'j', 's', 'o', 'n']
}

/// `s` without any `.json` at its end, however often it is repeated.
pub open spec fn without_json_suffix(s: Seq<char>) -> Seq<char>
    decreases s.len(),
{
    if json_suffix().is_suffix_of(s) {
        without_json_suffix(s.subrange(0, s.len() - 5))
    } else {
        s
    }
}

/// The sessions that the file names `files[from..]` stand for: each name
/// that ends in `.json`, without that ending, in the order of the files.
pub open spec fn sessions_in(files: Seq<Seq<char>>, from: int) -> Seq<Seq<char>>
    decreases files.len() - from,
{
    if 0 <= from < files.len() {
        (if json_suffix().is_suffix_of(files[from]) {
            seq![without_json_suffix(files[from])]
        } else {
            Seq::empty()
        }) + sessions_in(files, from + 1)
    } else {
        Seq::empty()
    }
}

fn json_suffix_str() -> (r: &'static str)
    ensures
        r@ == json_suffix(),
{
    proof {
        reveal_strlit(".json");
    }
    ".json"
}

fn strip_json(name: &str) -> (r: String)
    ensures
        r@ == without_json_suffix(name@),
{
    let mut end: usize = name.unicode_len();
    let mut rest: &str = name;
    while ends_with(rest, json_suffix_str())
        invariant
            end <= name@.len(),
            rest@ == name@.subrange(0, end as int),
            without_json_suffix(rest@) == without_json_suffix(name@),
        decreases end,
    {
        assert(rest@.subrange(0, end - 5) =~= name@.subrange(0, end - 5));
        end = end - 5;
        rest = name.substring_char(0, end);
    }
    String::from_str(rest)
}

/// Access to the sessions of this machine.
#[derive(Debug, Clone, Copy)]
pub struct LocalConnection;

/// What to do next to take a lock on this machine.
#[derive(Debug)]
pub enum LocalLockStep {
    /// Read the lock file at `path` and report what it holds.
    ReadLock { path: String },
    /// Run `command` and report whether it succeeded: it probes the holder
    /// of `lock`.
    Probe { command: String, lock: SessionLock },
    /// Create the directory `dir` and write `lock` to `path`. The lock is
    /// then taken; no background process holds it.
    Write { dir: String, path: String, lock: SessionLock },
    /// The lock is not to be had.
    Refused { error: ConnectionError },
}

/// What the caller reports while taking a lock on this machine.
#[derive(Debug)]
pub enum LocalLockEvent {
    /// Nothing yet: the first step is asked for.
    Begin,
    /// The lock that the lock file holds; `None` where there is no file or
    /// it holds no lock record.
    Found { record: Option<SessionLock> },
    /// Whether the probe of the holder of `lock` succeeded.
    Probed { lock: SessionLock, alive: bool },
}

/// Whether `step` is the step that follows `event` when `owner` takes the
/// lock of `session_name` for the process `pid`.
pub open spec fn local_step_follows(
    step: LocalLockStep,
    session_name: Seq<char>,
    force: bool,
    event: LocalLockEvent,
    owner: Seq<char>,
    pid: u32,
) -> bool {
    let writes = step matches LocalLockStep::Write { dir, path, lock } && dir@ == locks_dir_text()
        && path@ == lock_file(session_name) && lock.locked_by@ == owner && lock.remote_pid == pid;
    match event {
        LocalLockEvent::Begin => if force {
            writes
        } else {
            step matches LocalLockStep::ReadLock { path } && path@ == lock_file(session_name)
        },
        LocalLockEvent::Found { record: None } => writes,
        LocalLockEvent::Found { record: Some(found) } => step matches LocalLockStep::Probe {
            command,
            lock,
        } && command@ == probe_text(found.remote_pid) && lock == found,
        LocalLockEvent::Probed { lock, alive } => if lock_blocks(force, alive) {
            step matches LocalLockStep::Refused { error } && error matches ConnectionError::Locked {
                session,
                holder,
            } && session@ == session_name && (holder matches Some((by, at)) && by@
                == lock.locked_by@ && at@ == lock.locked_at@)
        } else {
            writes
        },
    }
}

impl LocalConnection {
    /// Access to this machine.
    pub fn new() -> (r: Self) {
        LocalConnection
    }

    /// The directory of the session files.
    pub fn sessions_dir() -> (r: String)
        ensures
            r@ == sessions_dir_text(),
    {
        sessions_dir_string()
    }

    /// The directory of the lock files.
    pub fn locks_dir() -> (r: String)
        ensures
            r@ == locks_dir_text(),
    {
        locks_dir_string()
    }

    /// The file to write the session `name` to; its directory is
    /// [`sessions_dir`](Self::sessions_dir).
    pub fn save_session_data(&self, name: &str) -> (r: String)
        ensures
            r@ == session_file(name@),
    {
        session_path(name)
    }

    /// The file to read the session `name` from.
    pub fn load_session_data(&self, name: &str) -> (r: String)
        ensures
            r@ == session_file(name@),
    {
        session_path(name)
    }

    /// The names of the sessions, given the names of the files in
    /// [`sessions_dir`](Self::sessions_dir).
    pub fn list_session_names(&self, file_names: &Vec<String>) -> (r: Vec<String>)
        ensures
            views_of(r@) == sessions_in(views_of(file_names@), 0),
    {
        let mut out: Vec<String> = Vec::new();
        let ghost files = views_of(file_names@);
        let mut i: usize = 0;
        while i < file_names.len()
            invariant
                i <= file_names.len(),
                files == views_of(file_names@),
                views_of(out@) + sessions_in(files, i as int) == sessions_in(files, 0),
            decreases file_names.len() - i,
        {
            if ends_with(file_names[i].as_str(), json_suffix_str()) {
                out.push(strip_json(file_names[i].as_str()));
            }
            i = i + 1;
        }
        out
    }

    /// The file to remove in order to delete the session `name`.
    pub fn session_file_of(&self, name: &str) -> (r: String)
        ensures
            r@ == session_file(name@),
    {
        session_path(name)
    }

    /// Judges the removal of the file of session `name`. A session that was
    /// not there counts as deleted.
    pub fn delete_session(&self, name: &str, outcome: RemoveOutcome) -> (r: Result<
        (),
        ConnectionError,
    >)
        ensures
            r is Ok <==> gone(outcome),
            r matches Err(e) ==> e matches ConnectionError::DeleteFailed { path } && path@
                == session_file(name@),
    {
        match outcome {
            RemoveOutcome::Removed => Ok(()),
            RemoveOutcome::NotFound => Ok(()),
            RemoveOutcome::Failed => Err(ConnectionError::DeleteFailed { path: session_path(name) }),
        }
    }

    /// The file to remove in order to release the lock of `session_name`.
    pub fn lock_file_of(&self, session_name: &str) -> (r: String)
        ensures
            r@ == lock_file(session_name@),
    {
        lock_path(session_name)
    }

    /// Judges the removal of the lock file of `session_name`. A lock that
    /// was not there counts as released.
    pub fn release_lock(&self, session_name: &str, outcome: RemoveOutcome) -> (r: Result<
        (),
        ConnectionError,
    >)
        ensures
            r is Ok <==> gone(outcome),
            r matches Err(e) ==> e matches ConnectionError::ReleaseFailed { path } && path@
                == lock_file(session_name@),
    {
        match outcome {
            RemoveOutcome::Removed => Ok(()),
            RemoveOutcome::NotFound => Ok(()),
            RemoveOutcome::Failed => Err(
                ConnectionError::ReleaseFailed { path: lock_path(session_name) },
            ),
        }
    }

    /// The command that probes the holder of `lock`: it succeeds exactly
    /// when the holder is alive. That it fails is no error; the lock is
    /// then stale.
    pub fn liveness_probe(&self, lock: &SessionLock) -> (r: String)
        ensures
            r@ == probe_text(lock.remote_pid),
    {
        probe_command(lock.remote_pid)
    }

    /// The next step of taking the lock of `session_name` for the process
    /// `pid` of this program, under the name `owner`.
    ///
    /// A lock whose holder is alive is refused unless `force` is set. A lock
    /// whose holder is dead is taken over, with or without `force`.
    pub fn acquire_lock_as(
        &self,
        session_name: &str,
        force: bool,
        event: LocalLockEvent,
        owner: String,
        pid: u32,
    ) -> (step: LocalLockStep)
        ensures
            local_step_follows(step, session_name@, force, event, owner@, pid),
    {
        match event {
            LocalLockEvent::Begin => {
                if force {
                    Self::write_step(session_name, owner, pid)
                } else {
                    LocalLockStep::ReadLock { path: lock_path(session_name) }
                }
            },
            LocalLockEvent::Found { record } => match record {
                None => Self::write_step(session_name, owner, pid),
                Some(found) => LocalLockStep::Probe {
                    command: probe_command(found.remote_pid),
                    lock: found,
                },
            },
            LocalLockEvent::Probed { lock, alive } => {
                if alive && !force {
                    LocalLockStep::Refused {
                        error: ConnectionError::Locked {
                            session: String::from_str(session_name),
                            holder: Some((lock.locked_by, lock.locked_at)),
                        },
                    }
                } else {
                    Self::write_step(session_name, owner, pid)
                }
            },
        }
    }

    fn write_step(session_name: &str, owner: String, pid: u32) -> (step: LocalLockStep)
        ensures
            step matches LocalLockStep::Write { dir, path, lock } && dir@ == locks_dir_text()
                && path@ == lock_file(session_name@) && lock.locked_by@ == owner@
                && lock.remote_pid == pid,
    {
        LocalLockStep::Write {
            dir: locks_dir_string(),
            path: lock_path(session_name),
            lock: SessionLock::new(owner, pid),
        }
    }

    /// The next step of taking the lock of `session_name` for the process
    /// `pid` of this program, under the name of this machine (see
    /// [`acquire_lock_as`](Self::acquire_lock_as)).
    pub fn acquire_lock(
        &self,
        session_name: &str,
        force: bool,
        event: LocalLockEvent,
        pid: u32,
    ) -> (step: LocalLockStep)
        ensures
            exists|owner: Seq<char>|
                local_step_follows(step, session_name@, force, event, owner, pid),
    {
        let owner: String = machine_owner();
        let step = self.acquire_lock_as(session_name, force, event, owner, pid);
        step
    }
}

/// Lock contention on this machine. When the probe finds the holder of
/// the lock alive, a caller that does not force its way is refused, and is
/// told who holds the lock since when; a caller that forces its way writes
/// its own lock over the record.
pub proof fn lemma_local_lock_contention(
    step: LocalLockStep,
    session_name: Seq<char>,
    force: bool,
    held: SessionLock,
    owner: Seq<char>,
    pid: u32,
)
    requires
        local_step_follows(
            step,
            session_name,
            force,
            LocalLockEvent::Probed { lock: held, alive: true },
            owner,
            pid,
        ),
    ensures
        !force ==> (step matches LocalLockStep::Refused { error } && (
        error matches ConnectionError::Locked { holder, .. } && (holder matches Some((by, at))
            && by@ == held.locked_by@ && at@ == held.locked_at@))),
        force ==> (step matches LocalLockStep::Write { path, lock, .. } && path@ == lock_file(
            session_name,
        ) && lock.locked_by@ == owner && lock.remote_pid == pid),
{
}

} // verus!
