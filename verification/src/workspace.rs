//! What this program remembers of a workspace that it manages.
use crate::text::{
    decimal_width3, lemma_decimal_width3_injective, push_decimal_width3, views_of,
};
use crate::types::{RemoteHost, SessionName};
use vstd::prelude::*;
use vstd::string::*;

verus! {

/// Where the terminals of a workspace run.
#[derive(Debug, Clone, Copy, PartialEq, Eq, Structural)]
pub enum SessionType {
    /// On this machine. Such a workspace cannot be detached.
    Local,
    /// On a remote host.
    Remote,
}

/// The bookkeeping of one managed workspace.
///
/// `next_socket_id` only grows: the number of a terminal that has closed is
/// not given out again.
#[derive(Debug)]
pub struct WorkspaceState {
    pub session_type: SessionType,
    /// The remote host, or `local`.
    pub host: String,
    /// The name of the session that the workspace belongs to, if it has one.
    pub session_name: Option<String>,
    /// The number of the next terminal.
    pub next_socket_id: u32,
    /// The sockets of the terminals that were started, in their order.
    pub sockets: Vec<String>,
}

/// The host of a workspace, as it is stored: the remote host, or `local`.
pub open spec fn host_label(remote: Option<Seq<char>>) -> Seq<char> {
    match remote {
        Some(h) => h,
        None => "local"@,
    }
}

/// The socket of terminal number `counter` of workspace `ws_name`:
/// `ws{ws_name}-{counter}`, the number with at least three digits.
pub open spec fn socket_id_text(ws_name: Seq<char>, counter: u32) -> Seq<char> {
    "ws"@ + ws_name + "-"@ + decimal_width3(counter as nat)
}

/// The number of the terminal that follows `count` restored terminals.
pub open spec fn counter_after(count: nat) -> u32 {
    if count >= u32::MAX {
        u32::MAX
    } else {
        (count + 1) as u32
    }
}

impl WorkspaceState {
    /// The state of a workspace that was just activated, for the given
    /// remote host (none for this machine) and session name. No terminal
    /// was started yet; the first one gets number 1.
    pub fn activated(remote: Option<&RemoteHost>, session_name: Option<&SessionName>) -> (r: Self)
        ensures
            r.session_type == if remote is Some {
                SessionType::Remote
            } else {
                SessionType::Local
            },
            r.host@ == host_label(
                match remote {
                    Some(h) => Some(h@),
                    None => None,
                },
            ),
            match session_name {
                Some(n) => r.session_name matches Some(s) && s@ == n@,
                None => r.session_name is None,
            },
            r.next_socket_id == 1,
            r.sockets@.len() == 0,
    {
        let (session_type, host) = match remote {
            Some(h) => (SessionType::Remote, String::from_str(h.as_str())),
            None => (SessionType::Local, String::from_str("local")),
        };
        let name: Option<String> = match session_name {
            Some(n) => Some(String::from_str(n.as_str())),
            None => None,
        };
        WorkspaceState { session_type, host, session_name: name, next_socket_id: 1, sockets: Vec::new() }
    }

    /// The state of a workspace to which the session `session_name` was
    /// attached with the terminals `sockets`. The numbering goes on behind
    /// the restored terminals.
    pub fn attached(remote: Option<&RemoteHost>, session_name: &SessionName, sockets: Vec<String>) -> (r:
        Self)
        ensures
            r.session_type == if remote is Some {
                SessionType::Remote
            } else {
                SessionType::Local
            },
            r.host@ == host_label(
                match remote {
                    Some(h) => Some(h@),
                    None => None,
                },
            ),
            r.session_name matches Some(s) && s@ == session_name@,
            r.next_socket_id == counter_after(sockets@.len()),
            r.sockets == sockets,
    {
        let (session_type, host) = match remote {
            Some(h) => (SessionType::Remote, String::from_str(h.as_str())),
            None => (SessionType::Local, String::from_str("local")),
        };
        let count: usize = sockets.len();
        let next: u32 = if count >= 0xffff_ffff {
            0xffff_ffff
        } else {
            (count + 1) as u32
        };
        WorkspaceState {
            session_type,
            host,
            session_name: Some(String::from_str(session_name.as_str())),
            next_socket_id: next,
            sockets,
        }
    }

    /// Gives out the socket of the next terminal of workspace `ws_name` and
    /// records it. `None`, and no change, where the numbers are used up.
    pub fn allocate_socket(&mut self, ws_name: &str) -> (r: Option<String>)
        ensures
            final(self).session_type == old(self).session_type,
            final(self).host == old(self).host,
            final(self).session_name == old(self).session_name,
            match r {
                Some(socket) => old(self).next_socket_id < u32::MAX && socket@ == socket_id_text(
                    ws_name@,
                    old(self).next_socket_id,
                ) && final(self).next_socket_id == old(self).next_socket_id + 1
                    && views_of(final(self).sockets@) == views_of(old(self).sockets@).push(socket@),
                None => old(self).next_socket_id == u32::MAX && *final(self) == *old(self),
            },
    {
        if self.next_socket_id == 0xffff_ffff {
            return None;
        }
        let mut socket: String = String::from_str("ws");
        socket.append(ws_name);
        socket.append("-");
        push_decimal_width3(&mut socket, self.next_socket_id as u64);
        self.next_socket_id = self.next_socket_id + 1;
        self.sockets.push(socket.clone());
        Some(socket)
    }
}

/// Terminals with different numbers have different sockets: as the numbers
/// of a workspace only grow, no socket is given out twice.
pub proof fn lemma_socket_ids_differ(ws_name: Seq<char>, a: u32, b: u32)
    requires
        a != b,
    ensures
        socket_id_text(ws_name, a) != socket_id_text(ws_name, b),
{
    let sa = socket_id_text(ws_name, a);
    let sb = socket_id_text(ws_name, b);
    if sa == sb {
        let front = "ws"@ + ws_name + "-"@;
        assert(sa.subrange(front.len() as int, sa.len() as int) =~= decimal_width3(a as nat));
        assert(sb.subrange(front.len() as int, sb.len() as int) =~= decimal_width3(b as nat));
        lemma_decimal_width3_injective(a as nat, b as nat);
    }
}

} // verus!
