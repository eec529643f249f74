//! Sessions as they are stored on the host that runs their terminals.
use crate::connection::ssh::make_sessions_dir_text;
use crate::connection::{
    listed_sessions, session_file, sessions_dir_text, Connection, FileRequest, ListAnswer,
    StoreRequest,
};
use crate::layout::Layout;
use crate::text::views_of;
use vstd::prelude::*;
use vstd::string::*;

verus! {

/// The lock on a session.
///
/// A lock is valid for as long as the process `remote_pid` lives on the host
/// that stores the session. The record itself never says whether it is.
#[derive(Debug)]
pub struct SessionLock {
    /// The host that took the lock.
    pub locked_by: String,
    /// When the lock was taken, as an RFC 3339 time.
    pub locked_at: String,
    /// A value that no other lock shares.
    pub nonce: String,
    /// The process whose life is the lock.
    pub remote_pid: u32,
}

/// A [`SessionLock`] as plain values.
pub struct LockView {
    pub locked_by: Seq<char>,
    pub locked_at: Seq<char>,
    pub nonce: Seq<char>,
    pub remote_pid: u32,
}

impl View for SessionLock {
    type V = LockView;

    open spec fn view(&self) -> LockView {
        LockView {
            locked_by: self.locked_by@,
            locked_at: self.locked_at@,
            nonce: self.nonce@,
            remote_pid: self.remote_pid,
        }
    }
}

impl Clone for SessionLock {
    fn clone(&self) -> (r: Self)
        ensures
            r@ == self@,
    {
        SessionLock {
            locked_by: self.locked_by.clone(),
            locked_at: self.locked_at.clone(),
            nonce: self.nonce.clone(),
            remote_pid: self.remote_pid,
        }
    }
}

/// Calls `uuid::Uuid::new_v4` and formats the result with its `Display`
/// impl. The identifier is random, so the contract speaks of its shape only:
/// the hyphenated form has 36 characters.
#[verifier::external_body]
fn random_nonce() -> (r: String)
    ensures
        r@.len() == 36,
{
    uuid::Uuid::new_v4().to_string()
}

/// Calls `chrono::Utc::now` and `DateTime::to_rfc3339`. The result is the
/// time of the call and nothing is claimed of it. `Utc::now` expects a
/// system clock that is not set before 1970.
#[verifier::external_body]
fn utc_now_rfc3339() -> (r: String) {
    chrono::Utc::now().to_rfc3339()
}

impl SessionLock {
    /// A lock taken now by `hostname`, held by the process `remote_pid`,
    /// with a fresh nonce.
    pub fn new(hostname: String, remote_pid: u32) -> (r: Self)
        ensures
            r.locked_by@ == hostname@,
            r.remote_pid == remote_pid,
            r.nonce@.len() == 36,
    {
        let nonce: String = random_nonce();
        let locked_at: String = utc_now_rfc3339();
        Self::from_parts(hostname, locked_at, nonce, remote_pid)
    }

    /// The lock with the given fields.
    pub fn from_parts(hostname: String, locked_at: String, nonce: String, remote_pid: u32) -> (r:
        Self)
        ensures
            r@ == (LockView {
                locked_by: hostname@,
                locked_at: locked_at@,
                nonce: nonce@,
                remote_pid,
            }),
    {
        SessionLock { locked_by: hostname, locked_at, nonce, remote_pid }
    }
}

/// A session: the layout of a detached workspace, stored under a name on the
/// host that runs its terminals.
#[derive(Debug)]
pub struct RemoteSession {
    pub name: String,
    /// The label of the workspace that was detached.
    pub workspace: String,
    pub host: String,
    pub layout: Layout,
    /// The lock of the attachment that uses the session, if any.
    pub lock: Option<SessionLock>,
}

impl Clone for RemoteSession {
    fn clone(&self) -> (r: Self)
        ensures
            r.name@ == self.name@,
            r.workspace@ == self.workspace@,
            r.host@ == self.host@,
            r.layout@ == self.layout@,
            match self.lock {
                Some(lock) => r.lock matches Some(l) && l@ == lock@,
                None => r.lock is None,
            },
    {
        RemoteSession {
            name: self.name.clone(),
            workspace: self.workspace.clone(),
            host: self.host.clone(),
            layout: self.layout.clone(),
            lock: match &self.lock {
                Some(lock) => Some(lock.clone()),
                None => None,
            },
        }
    }
}

impl RemoteSession {
    /// A session without a lock.
    pub fn new(name: String, workspace: String, host: String, layout: Layout) -> (r: Self)
        ensures
            r.name == name,
            r.workspace == workspace,
            r.host == host,
            r.layout == layout,
            r.lock is None,
    {
        RemoteSession { name, workspace, host, layout, lock: None }
    }

    /// This session with `lock` in place of the lock that it had.
    pub fn locked(self, lock: SessionLock) -> (r: Self)
        ensures
            r.name == self.name,
            r.workspace == self.workspace,
            r.host == self.host,
            r.layout == self.layout,
            r.lock == Some(lock),
    {
        RemoteSession {
            name: self.name,
            workspace: self.workspace,
            host: self.host,
            layout: self.layout,
            lock: Some(lock),
        }
    }

    /// How to store this session on the host of `conn`; the caller supplies
    /// the text of the session.
    pub fn save_to_remote(&self, conn: &Connection) -> (r: StoreRequest)
        ensures
            match conn {
                Connection::Local(_) => r matches StoreRequest::File { dir, path } && dir@
                    == sessions_dir_text() && path@ == session_file(self.name@),
                Connection::Ssh(_) => r matches StoreRequest::Remote { prepare, write }
                    && prepare@ == make_sessions_dir_text() && write@
                    == "cat > "@ + session_file(self.name@),
            },
    {
        conn.save_session_data(self.name.as_str())
    }

    /// How to get the text of the session `name` from the host of `conn`.
    pub fn load_from_remote(conn: &Connection, name: &str) -> (r: FileRequest)
        ensures
            match conn {
                Connection::Local(_) => r matches FileRequest::File { path } && path@
                    == session_file(name@),
                Connection::Ssh(_) => r matches FileRequest::Remote { command } && command@
                    == "cat '"@ + session_file(name@) + "'"@,
            },
    {
        conn.load_session_data(name)
    }

    /// The names of the sessions on the host of `conn`, from the answer to
    /// its [`list_request`](Connection::list_request).
    pub fn list_remote_sessions(conn: &Connection, answer: &ListAnswer) -> (r: Vec<String>)
        ensures
            views_of(r@) == listed_sessions(*answer),
    {
        conn.list_session_names(answer)
    }
}

} // verus!
