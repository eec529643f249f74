//! Sessions and locks on a remote host: commands run through `ssh`.
use crate::connection::{
    lock_blocks, lock_file, lock_path, machine_owner, pid_file, pid_path, probe_command,
    probe_text, session_file, session_path, ConnectionError, BASE_DIR,
};
use crate::session::SessionLock;
use crate::text::{
    nonempty_lines, parse_u32, parse_u32_spec, split_nonempty_lines, trim, trimmed, views_of,
};
use vstd::prelude::*;
use vstd::string::*;

verus! {

/// How long to wait for a spawned lock holder to report its process, in
/// milliseconds.
pub const LOCK_HOLDER_PAUSE_MS: u64 = 500;

/// The arguments that every call of `ssh` begins with: one shared,
/// persistent control connection per host.
pub open spec fn ssh_base() -> Seq<Seq<char>> {
    seq![
        "-o"@,
        "ControlPath=/tmp/i3mux/sockets/%r@%h:%p"@,
        "-o"@,
        "ControlMaster=auto"@,
        "-o"@,
        "ControlPersist=10m"@,
    ]
}

/// The command that shows the process recorded by the holder of the lock of
/// `name`, or `fallback` where none is recorded.
pub open spec fn read_pid_text(name: Seq<char>, fallback: Seq<char>) -> Seq<char> {
    "cat '"@ + pid_file(name) + "' 2>/dev/null || echo "@ + fallback
}

/// The command that creates the directory of the lock files.
pub open spec fn make_locks_dir_text() -> Seq<char> {
    "mkdir -p "@ + BASE_DIR@ + "/locks"@
}

/// The command that creates the directory of the session files.
pub open spec fn make_sessions_dir_text() -> Seq<char> {
    "mkdir -p "@ + BASE_DIR@ + "/sessions"@
}

/// The shell script of a lock holder. It records its own process, sets a
/// trap that removes the lock files when it exits, writes the lock file, and
/// then lives on, adding a heartbeat line every 30 seconds.
pub open spec fn holder_script(name: Seq<char>, owner: Seq<char>) -> Seq<char> {
    "\n            set -e\n            LOCKFILE='"@ + lock_file(name)
        + "'\n            PIDFILE='"@ + pid_file(name)
        + "'\n            echo $$ > \"$PIDFILE\"\n            trap \"rm -f '$LOCKFILE' '$PIDFILE'\" EXIT\n            echo \"Lock acquired by "@
        + owner
        + "\" > \"$LOCKFILE\"\n\n            while true; do\n                sleep 30\n                echo \"heartbeat $(date +%s)\" >> \"$LOCKFILE\"\n            done\n            "@
}

/// The command that ends the holder of the lock of `name`, if one is
/// recorded, and removes the lock files in any case.
pub open spec fn release_text(name: Seq<char>) -> Seq<char> {
    "test -f '"@ + pid_file(name) + "' && kill $(cat '"@ + pid_file(name)
        + "') 2>/dev/null; rm -f '"@ + lock_file(name) + "' '"@ + pid_file(name) + "'"@
}

/// The command that lists the names of the sessions, one per line.
pub open spec fn list_text() -> Seq<char> {
    "ls "@ + BASE_DIR@
        + "/sessions/*.json 2>/dev/null | xargs -n1 basename -s .json || true"@
}

/// The process that the output of a [`read_pid_text`] command names.
pub open spec fn recorded_pid(stdout: Seq<char>) -> Option<u32> {
    parse_u32_spec(trimmed(stdout))
}

/// What the caller waits for while a lock is taken on a remote host.
#[derive(Debug, Clone, Copy, PartialEq, Eq, Structural)]
pub enum LockPhase {
    /// The process recorded by the present holder.
    ReadHolder,
    /// Whether the present holder is alive.
    ProbeHolder,
    /// The lock record of the stored session, to name the holder.
    LoadContext,
    /// The directory of the lock files.
    MakeDir,
    /// The new holder.
    SpawnHolder,
    /// The process recorded by the new holder.
    ReadBack,
}

/// What the caller reports while a lock is taken on a remote host.
#[derive(Debug)]
pub enum LockEvent {
    /// What the executed command wrote to its output.
    Output { stdout: String },
    /// Whether the checked command succeeded.
    Status { success: bool },
    /// The lock in the stored session, where the session could be loaded
    /// and holds one.
    Context { lock: Option<SessionLock> },
    /// The holder was spawned, and the pause is over.
    Spawned,
}

/// What to do next to take a lock on a remote host. A step that carries a
/// phase is to be answered with an event, together with that phase.
#[derive(Debug)]
pub enum LockStep {
    /// Run `command` on the host and report its output. If it cannot be
    /// run or fails, taking the lock has failed.
    Execute { command: String, phase: LockPhase },
    /// Run `command` on the host and report whether it succeeded.
    Check { command: String, phase: LockPhase },
    /// Try to load the stored session and report the lock that it holds.
    LoadContext { phase: LockPhase },
    /// Start a shell on the host that runs `script` in the background, keep
    /// the handle, wait `pause_ms` milliseconds, and report.
    SpawnHolder { script: String, pause_ms: u64, phase: LockPhase },
    /// The lock is taken. It lives as long as the spawned holder.
    Acquired { lock: SessionLock },
    /// The lock is not to be had.
    Refused { error: ConnectionError },
}

/// Whether `step` asks to run `command` and wait in `phase`.
pub open spec fn executes(step: LockStep, command: Seq<char>, phase: LockPhase) -> bool {
    step matches LockStep::Execute { command: c, phase: p } && c@ == command && p == phase
}

/// Whether `step` is the first step of taking the lock of `session_name`.
pub open spec fn remote_first_step(step: LockStep, session_name: Seq<char>, force: bool) -> bool {
    if force {
        executes(step, make_locks_dir_text(), LockPhase::MakeDir)
    } else {
        executes(step, read_pid_text(session_name, "''"@), LockPhase::ReadHolder)
    }
}

/// Whether `step` is the step that follows `event`, reported in `phase`,
/// when `owner` takes the lock of `session_name`.
///
/// A recorded holder is probed. If it is alive the lock is refused, after a
/// look at the stored session for the name of the holder; the probe is only
/// made where the caller did not force its way. If none is recorded, or it
/// is dead, a new holder is spawned, and the lock is taken once the holder
/// has recorded its process. An event that does not belong to the phase is
/// answered with [`ConnectionError::UnexpectedEvent`].
pub open spec fn remote_step_follows(
    step: LockStep,
    session_name: Seq<char>,
    phase: LockPhase,
    event: LockEvent,
    owner: Seq<char>,
) -> bool {
    let proceeds = executes(step, make_locks_dir_text(), LockPhase::MakeDir);
    match (phase, event) {
        (LockPhase::ReadHolder, LockEvent::Output { stdout }) => match recorded_pid(stdout@) {
            Some(pid) => step matches LockStep::Check { command, phase: p } && command@
                == probe_text(pid) && p == LockPhase::ProbeHolder,
            None => proceeds,
        },
        (LockPhase::ProbeHolder, LockEvent::Status { success }) => if lock_blocks(false, success) {
            step matches LockStep::LoadContext { phase: p } && p == LockPhase::LoadContext
        } else {
            proceeds
        },
        (LockPhase::LoadContext, LockEvent::Context { lock }) => step matches LockStep::Refused {
            error,
        } && (error matches ConnectionError::Locked { session, holder } && session@
            == session_name && match lock {
            Some(l) => holder matches Some((by, at)) && by@ == l.locked_by@ && at@
                == l.locked_at@,
            None => holder is None,
        }),
        (LockPhase::MakeDir, LockEvent::Output { stdout }) => step matches LockStep::SpawnHolder {
            script,
            pause_ms,
            phase: p,
        } && script@ == holder_script(session_name, owner) && pause_ms == LOCK_HOLDER_PAUSE_MS && p
            == LockPhase::SpawnHolder,
        (LockPhase::SpawnHolder, LockEvent::Spawned) => executes(
            step,
            read_pid_text(session_name, "0"@),
            LockPhase::ReadBack,
        ),
        (LockPhase::ReadBack, LockEvent::Output { stdout }) => match recorded_pid(stdout@) {
            Some(pid) => if pid == 0 {
                step matches LockStep::Refused { error } && error is Acquisition
            } else {
                step matches LockStep::Acquired { lock } && lock.locked_by@ == owner
                    && lock.remote_pid == pid
            },
            None => step matches LockStep::Refused { error } && error is Acquisition,
        },
        _ => step matches LockStep::Refused { error } && error is UnexpectedEvent,
    }
}

/// Access to the sessions of a remote host, through `ssh`.
#[derive(Debug)]
pub struct SshConnection {
    host: String,
}

/// What it takes to store a session on a remote host.
#[derive(Debug)]
pub struct SaveRequest {
    /// The command to run first; it creates the directory.
    pub prepare: String,
    /// The command to run then, with the session on its standard input.
    pub write: String,
}

impl SshConnection {
    /// Access to `host`.
    pub fn new(host: String) -> (r: Self)
        ensures
            r.spec_host() == host@,
    {
        SshConnection { host }
    }

    /// The host, in contracts.
    pub closed spec fn spec_host(&self) -> Seq<char> {
        self.host@
    }

    /// The host.
    pub fn host(&self) -> (r: &str)
        ensures
            r@ == self.spec_host(),
    {
        self.host.as_str()
    }

    /// The arguments that every call of `ssh` begins with.
    pub fn ssh_base_args(&self) -> (r: Vec<String>)
        ensures
            views_of(r@) == ssh_base(),
    {
        let mut r: Vec<String> = Vec::new();
        r.push(String::from_str("-o"));
        r.push(String::from_str("ControlPath=/tmp/i3mux/sockets/%r@%h:%p"));
        r.push(String::from_str("-o"));
        r.push(String::from_str("ControlMaster=auto"));
        r.push(String::from_str("-o"));
        r.push(String::from_str("ControlPersist=10m"));
        r
    }

    /// The arguments of the call of `ssh` that runs `cmd` on the host.
    pub fn execute(&self, cmd: &str) -> (r: Vec<String>)
        ensures
            views_of(r@) == ssh_base() + seq![self.spec_host(), cmd@],
    {
        let mut r: Vec<String> = self.ssh_base_args();
        r.push(self.host.clone());
        r.push(String::from_str(cmd));
        r
    }

    /// The arguments of the call of `ssh` that runs the script of a lock
    /// holder on the host. It is to run in the background, cut off from the
    /// standard streams.
    pub fn holder_args(&self, script: &str) -> (r: Vec<String>)
        ensures
            views_of(r@) == ssh_base() + seq![self.spec_host(), "bash"@, "-c"@, script@],
    {
        let mut r: Vec<String> = self.ssh_base_args();
        r.push(self.host.clone());
        r.push(String::from_str("bash"));
        r.push(String::from_str("-c"));
        r.push(String::from_str(script));
        r
    }

    /// Judges how a command on the host ended: its output, or the failure.
    pub fn execute_result(&self, success: bool, stdout: String, stderr: String) -> (r: Result<
        String,
        ConnectionError,
    >)
        ensures
            match r {
                Ok(out) => success && out == stdout,
                Err(e) => !success && (e matches ConnectionError::CommandFailed { stderr: text }
                    && text == stderr),
            },
    {
        if success {
            Ok(stdout)
        } else {
            Err(ConnectionError::CommandFailed { stderr })
        }
    }

    /// The command that writes its standard input to the file `path` on the host.
    pub fn write_remote_file(&self, path: &str) -> (r: String)
        ensures
            r@ == "cat > "@ + path@,
    {
        let mut r: String = String::from_str("cat > ");
        r.append(path);
        r
    }

    /// What it takes to store the session `name`.
    pub fn save_session_data(&self, name: &str) -> (r: SaveRequest)
        ensures
            r.prepare@ == make_sessions_dir_text(),
            r.write@ == "cat > "@ + session_file(name@),
    {
        let mut prepare: String = String::from_str("mkdir -p ");
        prepare.append(BASE_DIR);
        prepare.append("/sessions");
        let path: String = session_path(name);
        SaveRequest { prepare, write: self.write_remote_file(path.as_str()) }
    }

    /// The command that shows the stored session `name`.
    pub fn load_session_data(&self, name: &str) -> (r: String)
        ensures
            r@ == "cat '"@ + session_file(name@) + "'"@,
    {
        let mut r: String = String::from_str("cat '");
        let path: String = session_path(name);
        r.append(path.as_str());
        r.append("'");
        r
    }

    /// Judges how the command of [`load_session_data`](Self::load_session_data)
    /// ended: the stored session as text, or that there is none.
    pub fn loaded_session(&self, name: &str, outcome: Result<String, ConnectionError>) -> (r: Result<
        String,
        ConnectionError,
    >)
        ensures
            match r {
                Ok(data) => outcome == Ok::<String, ConnectionError>(data),
                Err(e) => outcome is Err && (e matches ConnectionError::SessionNotFound {
                    name: n,
                    host,
                } && n@ == name@ && host@ == self.spec_host()),
            },
    {
        match outcome {
            Ok(data) => Ok(data),
            Err(_) => Err(
                ConnectionError::SessionNotFound {
                    name: String::from_str(name),
                    host: self.host.clone(),
                },
            ),
        }
    }

    /// The command that lists the sessions on the host.
    pub fn list_command(&self) -> (r: String)
        ensures
            r@ == list_text(),
    {
        let mut r: String = String::from_str("ls ");
        r.append(BASE_DIR);
        r.append("/sessions/*.json 2>/dev/null | xargs -n1 basename -s .json || true");
        r
    }

    /// The names of the sessions, from the output of
    /// [`list_command`](Self::list_command): its lines that are not empty.
    pub fn list_session_names(&self, output: &str) -> (r: Vec<String>)
        ensures
            views_of(r@) == nonempty_lines(output@, 0),
    {
        split_nonempty_lines(output)
    }

    /// The command that deletes the session `name`. It succeeds also where
    /// there is no such session.
    pub fn delete_session(&self, name: &str) -> (r: String)
        ensures
            r@ == "rm -f '"@ + session_file(name@) + "'"@,
    {
        let mut r: String = String::from_str("rm -f '");
        let path: String = session_path(name);
        r.append(path.as_str());
        r.append("'");
        r
    }

    /// The command that probes the holder of `lock`: it succeeds exactly
    /// when the holder is alive. That it fails is no error; the lock is
    /// then stale.
    pub fn liveness_probe(&self, lock: &SessionLock) -> (r: String)
        ensures
            r@ == probe_text(lock.remote_pid),
    {
        probe_command(lock.remote_pid)
    }

    /// The command that releases the lock of `session_name`: it ends the
    /// recorded holder, if there is one, and removes the lock files in any
    /// case. The caller goes on whether or not it succeeds.
    pub fn release_lock(&self, session_name: &str) -> (r: String)
        ensures
            r@ == release_text(session_name@),
    {
        let pid_file: String = pid_path(session_name);
        let lock_file: String = lock_path(session_name);
        let mut r: String = String::from_str("test -f '");
        r.append(pid_file.as_str());
        r.append("' && kill $(cat '");
        r.append(pid_file.as_str());
        r.append("') 2>/dev/null; rm -f '");
        r.append(lock_file.as_str());
        r.append("' '");
        r.append(pid_file.as_str());
        r.append("'");
        r
    }

    fn read_pid_command(session_name: &str, fallback: &str) -> (r: String)
        ensures
            r@ == read_pid_text(session_name@, fallback@),
    {
        let pid_file: String = pid_path(session_name);
        let mut r: String = String::from_str("cat '");
        r.append(pid_file.as_str());
        r.append("' 2>/dev/null || echo ");
        r.append(fallback);
        r
    }

    fn make_locks_dir_step() -> (step: LockStep)
        ensures
            executes(step, make_locks_dir_text(), LockPhase::MakeDir),
    {
        let mut command: String = String::from_str("mkdir -p ");
        command.append(BASE_DIR);
        command.append("/locks");
        LockStep::Execute { command, phase: LockPhase::MakeDir }
    }

    fn holder_script_for(session_name: &str, owner: &str) -> (r: String)
        ensures
            r@ == holder_script(session_name@, owner@),
    {
        let pid_file: String = pid_path(session_name);
        let lock_file: String = lock_path(session_name);
        let mut r: String = String::from_str("\n            set -e\n            LOCKFILE='");
        r.append(lock_file.as_str());
        r.append("'\n            PIDFILE='");
        r.append(pid_file.as_str());
        r.append(
            "'\n            echo $$ > \"$PIDFILE\"\n            trap \"rm -f '$LOCKFILE' '$PIDFILE'\" EXIT\n            echo \"Lock acquired by ",
        );
        r.append(owner);
        r.append(
            "\" > \"$LOCKFILE\"\n\n            while true; do\n                sleep 30\n                echo \"heartbeat $(date +%s)\" >> \"$LOCKFILE\"\n            done\n            ",
        );
        r
    }

    /// The first step of taking the lock of `session_name`.
    pub fn acquire_lock(&self, session_name: &str, force: bool) -> (step: LockStep)
        ensures
            remote_first_step(step, session_name@, force),
    {
        if force {
            Self::make_locks_dir_step()
        } else {
            LockStep::Execute {
                command: Self::read_pid_command(session_name, "''"),
                phase: LockPhase::ReadHolder,
            }
        }
    }

    /// The step that follows `event`, reported in `phase`, when `owner`
    /// takes the lock of `session_name` (see [`remote_step_follows`]).
    pub fn acquire_lock_as(
        &self,
        session_name: &str,
        phase: LockPhase,
        event: LockEvent,
        owner: String,
    ) -> (step: LockStep)
        ensures
            remote_step_follows(step, session_name@, phase, event, owner@),
    {
        match (phase, event) {
            (LockPhase::ReadHolder, LockEvent::Output { stdout }) => {
                match parse_u32(trim(stdout.as_str())) {
                    Some(pid) => LockStep::Check {
                        command: probe_command(pid),
                        phase: LockPhase::ProbeHolder,
                    },
                    None => Self::make_locks_dir_step(),
                }
            },
            (LockPhase::ProbeHolder, LockEvent::Status { success }) => {
                if success {
                    LockStep::LoadContext { phase: LockPhase::LoadContext }
                } else {
                    Self::make_locks_dir_step()
                }
            },
            (LockPhase::LoadContext, LockEvent::Context { lock }) => {
                let holder: Option<(String, String)> = match lock {
                    Some(l) => Some((l.locked_by, l.locked_at)),
                    None => None,
                };
                LockStep::Refused {
                    error: ConnectionError::Locked {
                        session: String::from_str(session_name),
                        holder,
                    },
                }
            },
            (LockPhase::MakeDir, LockEvent::Output { stdout }) => LockStep::SpawnHolder {
                script: Self::holder_script_for(session_name, owner.as_str()),
                pause_ms: LOCK_HOLDER_PAUSE_MS,
                phase: LockPhase::SpawnHolder,
            },
            (LockPhase::SpawnHolder, LockEvent::Spawned) => LockStep::Execute {
                command: Self::read_pid_command(session_name, "0"),
                phase: LockPhase::ReadBack,
            },
            (LockPhase::ReadBack, LockEvent::Output { stdout }) => {
                match parse_u32(trim(stdout.as_str())) {
                    Some(pid) => {
                        if pid == 0 {
                            LockStep::Refused { error: ConnectionError::Acquisition }
                        } else {
                            LockStep::Acquired { lock: SessionLock::new(owner, pid) }
                        }
                    },
                    None => LockStep::Refused { error: ConnectionError::Acquisition },
                }
            },
            _ => LockStep::Refused { error: ConnectionError::UnexpectedEvent },
        }
    }

    /// The step that follows `event`, reported in `phase`, when this machine
    /// takes the lock of `session_name` under its own name (see
    /// [`acquire_lock_as`](Self::acquire_lock_as)).
    pub fn acquire_lock_next(&self, session_name: &str, phase: LockPhase, event: LockEvent) -> (step:
        LockStep)
        ensures
            exists|owner: Seq<char>| remote_step_follows(step, session_name@, phase, event, owner),
    {
        let owner: String = machine_owner();
        let step = self.acquire_lock_as(session_name, phase, event, owner);
        step
    }
}

/// Lock contention on a remote host. When the probe finds the recorded
/// holder alive, the next steps lead to a refusal. A caller that forces its
/// way makes no probe: its first step is towards a holder of its own.
pub proof fn lemma_remote_lock_contention(
    probed: LockStep,
    refused: LockStep,
    forced: LockStep,
    session_name: Seq<char>,
    context: Option<SessionLock>,
    owner: Seq<char>,
)
    requires
        remote_step_follows(
            probed,
            session_name,
            LockPhase::ProbeHolder,
            LockEvent::Status { success: true },
            owner,
        ),
        remote_step_follows(
            refused,
            session_name,
            LockPhase::LoadContext,
            LockEvent::Context { lock: context },
            owner,
        ),
        remote_first_step(forced, session_name, true),
    ensures
        probed matches LockStep::LoadContext { phase } && phase == LockPhase::LoadContext,
        refused matches LockStep::Refused { error } && error is Locked,
        executes(forced, make_locks_dir_text(), LockPhase::MakeDir),
{
}

/// Once the way is free, a lock on a remote host is taken in three steps:
/// the holder is spawned, the process that it recorded is read back, and
/// the lock names that process and its owner. A holder that recorded no
/// process, or process 0, gives no lock.
pub proof fn lemma_remote_holder_acquires(
    spawn: LockStep,
    read_back: LockStep,
    last: LockStep,
    session_name: Seq<char>,
    made: String,
    reported: String,
    owner: Seq<char>,
)
    requires
        remote_step_follows(
            spawn,
            session_name,
            LockPhase::MakeDir,
            LockEvent::Output { stdout: made },
            owner,
        ),
        remote_step_follows(
            read_back,
            session_name,
            LockPhase::SpawnHolder,
            LockEvent::Spawned,
            owner,
        ),
        remote_step_follows(
            last,
            session_name,
            LockPhase::ReadBack,
            LockEvent::Output { stdout: reported },
            owner,
        ),
    ensures
        spawn matches LockStep::SpawnHolder { script, .. } && script@ == holder_script(
            session_name,
            owner,
        ),
        executes(read_back, read_pid_text(session_name, "0"@), LockPhase::ReadBack),
        match recorded_pid(reported@) {
            Some(pid) => if pid != 0 {
                last matches LockStep::Acquired { lock } && lock.locked_by@ == owner
                    && lock.remote_pid == pid
            } else {
                last matches LockStep::Refused { error } && error is Acquisition
            },
            None => last matches LockStep::Refused { error } && error is Acquisition,
        },
{
}

} // verus!
