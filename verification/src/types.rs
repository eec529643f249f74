//! Session names and remote hosts, validated where they enter the program.
//!
//! A value of these types holds only characters that are safe to place in a
//! shell command without quoting.
use crate::text::{char_is_alphanumeric, find_char_from, find_from, is_alphanumeric_char};
use vstd::prelude::*;
use vstd::string::*;

verus! {

/// What is wrong with a session name or a host.
#[derive(Debug, Clone, Copy, PartialEq, Eq, Structural)]
pub enum InputErrorKind {
    EmptySessionName,
    InvalidSessionName,
    EmptyHost,
    EmptyUsername,
    InvalidUsername,
    EmptyHostname,
    InvalidHostname,
}

/// A rejected session name or host.
#[derive(Debug)]
pub struct InputError {
    pub kind: InputErrorKind,
    /// The text that was rejected.
    pub input: String,
}

/// The text of an [`InputError`].
pub open spec fn input_error_text(kind: InputErrorKind, input: Seq<char>) -> Seq<char> {
    match kind {
        InputErrorKind::EmptySessionName => "Session name cannot be empty"@,
        InputErrorKind::InvalidSessionName => "Invalid session name '"@ + input
            + "': only alphanumeric characters, hyphens, and underscores are allowed"@,
        InputErrorKind::EmptyHost => "Remote host cannot be empty"@,
        InputErrorKind::EmptyUsername => "Username cannot be empty in '"@ + input + "'"@,
        InputErrorKind::InvalidUsername => "Invalid username in '"@ + input
            + "': only alphanumeric, hyphens, and underscores allowed"@,
        InputErrorKind::EmptyHostname => "Hostname cannot be empty"@,
        InputErrorKind::InvalidHostname => "Invalid hostname in '"@ + input
            + "': only alphanumeric, hyphens, dots, and underscores allowed"@,
    }
}

impl InputError {
    /// The error as a sentence for the user.
    pub fn message(&self) -> (r: String)
        ensures
            r@ == input_error_text(self.kind, self.input@),
    {
        match self.kind {
            InputErrorKind::EmptySessionName => String::from_str("Session name cannot be empty"),
            InputErrorKind::InvalidSessionName => {
                let mut r: String = String::from_str("Invalid session name '");
                r.append(self.input.as_str());
                r.append("': only alphanumeric characters, hyphens, and underscores are allowed");
                r
            },
            InputErrorKind::EmptyHost => String::from_str("Remote host cannot be empty"),
            InputErrorKind::EmptyUsername => {
                let mut r: String = String::from_str("Username cannot be empty in '");
                r.append(self.input.as_str());
                r.append("'");
                r
            },
            InputErrorKind::InvalidUsername => {
                let mut r: String = String::from_str("Invalid username in '");
                r.append(self.input.as_str());
                r.append("': only alphanumeric, hyphens, and underscores allowed");
                r
            },
            InputErrorKind::EmptyHostname => String::from_str("Hostname cannot be empty"),
            InputErrorKind::InvalidHostname => {
                let mut r: String = String::from_str("Invalid hostname in '");
                r.append(self.input.as_str());
                r.append("': only alphanumeric, hyphens, dots, and underscores allowed");
                r
            },
        }
    }
}

/// Whether `c` may stand in a session name or a user name.
pub open spec fn is_name_char(c: char) -> bool {
    is_alphanumeric_char(c) || c == '-' || c == '_'
}

/// Whether `c` may stand in a host name.
pub open spec fn is_hostname_char(c: char) -> bool {
    is_alphanumeric_char(c) || c == '-' || c == '.' || c == '_'
}

/// Whether `s[from..to]` holds name characters only, or host name characters
/// where `dots` is set.
pub open spec fn all_allowed(s: Seq<char>, from: int, to: int, dots: bool) -> bool {
    forall|i: int|
        from <= i < to ==> if dots {
            is_hostname_char(#[trigger] s[i])
        } else {
            is_name_char(s[i])
        }
}

/// What is wrong with `s` as a session name; `None` where it is valid.
pub open spec fn session_name_problem(s: Seq<char>) -> Option<InputErrorKind> {
    if s.len() == 0 {
        Some(InputErrorKind::EmptySessionName)
    } else if !all_allowed(s, 0, s.len() as int, false) {
        Some(InputErrorKind::InvalidSessionName)
    } else {
        None
    }
}

/// What is wrong with `s` as a remote host; `None` where it is valid.
///
/// A host is a host name, or a user name and a host name with the first `@`
/// between them.
pub open spec fn remote_host_problem(s: Seq<char>) -> Option<InputErrorKind> {
    let at = find_from(s, '@', 0);
    let host_from = if at < s.len() {
        at + 1
    } else {
        0
    };
    if s.len() == 0 {
        Some(InputErrorKind::EmptyHost)
    } else if at < s.len() && at == 0 {
        Some(InputErrorKind::EmptyUsername)
    } else if at < s.len() && !all_allowed(s, 0, at, false) {
        Some(InputErrorKind::InvalidUsername)
    } else if host_from == s.len() {
        Some(InputErrorKind::EmptyHostname)
    } else if !all_allowed(s, host_from, s.len() as int, true) {
        Some(InputErrorKind::InvalidHostname)
    } else {
        None
    }
}

/// Whether `c` may stand in a name, or in a host name where `dots` is set,
/// given whether it is alphanumeric: besides alphanumeric characters, the
/// hyphen and the underscore may, and in a host name the dot.
pub fn char_allowed(c: char, alphanumeric: bool, dots: bool) -> (b: bool)
    ensures
        b == (alphanumeric || c == '-' || c == '_' || (dots && c == '.')),
{
    alphanumeric || c == '-' || c == '_' || (dots && c == '.')
}

fn check_allowed(s: &str, from: usize, to: usize, dots: bool) -> (b: bool)
    requires
        from <= to <= s@.len(),
    ensures
        b == all_allowed(s@, from as int, to as int, dots),
{
    let mut i: usize = from;
    while i < to
        invariant
            from <= i <= to <= s@.len(),
            all_allowed(s@, from as int, i as int, dots),
        decreases to - i,
    {
        let c: char = s.get_char(i);
        if !char_allowed(c, char_is_alphanumeric(c), dots) {
            return false;
        }
        i = i + 1;
    }
    true
}

/// A validated session name: not empty, and made of alphanumeric
/// characters, hyphens and underscores.
#[derive(Debug, PartialEq, Eq, Hash)]
pub struct SessionName(String);

impl Clone for SessionName {
    fn clone(&self) -> (r: Self)
        ensures
            r@ == self@,
    {
        proof {
            use_type_invariant(self);
        }
        SessionName(self.0.clone())
    }
}

impl View for SessionName {
    type V = Seq<char>;

    closed spec fn view(&self) -> Seq<char> {
        self.0@
    }
}

impl SessionName {
    #[verifier::type_invariant]
    spec fn valid(self) -> bool {
        session_name_problem(self.0@) is None
    }

    /// Validates `name`.
    pub fn new(name: &str) -> (r: Result<Self, InputError>)
        ensures
            match r {
                Ok(n) => session_name_problem(name@) is None && n@ == name@,
                Err(e) => session_name_problem(name@) == Some(e.kind) && e.input@ == name@,
            },
    {
        let n: usize = name.unicode_len();
        if n == 0 {
            return Err(
                InputError { kind: InputErrorKind::EmptySessionName, input: String::from_str(name) },
            );
        }
        if !check_allowed(name, 0, n, false) {
            return Err(
                InputError {
                    kind: InputErrorKind::InvalidSessionName,
                    input: String::from_str(name),
                },
            );
        }
        Ok(SessionName(String::from_str(name)))
    }

    /// The name as text.
    pub fn as_str(&self) -> (r: &str)
        ensures
            r@ == self@,
            session_name_problem(r@) is None,
    {
        proof {
            use_type_invariant(self);
        }
        self.0.as_str()
    }
}

/// A validated remote host: `hostname` or `user@hostname`.
///
/// The local machine is no remote host; it is written as the absence of one.
#[derive(Debug, PartialEq, Eq, Hash)]
pub struct RemoteHost(String);

impl Clone for RemoteHost {
    fn clone(&self) -> (r: Self)
        ensures
            r@ == self@,
    {
        proof {
            use_type_invariant(self);
        }
        RemoteHost(self.0.clone())
    }
}

impl View for RemoteHost {
    type V = Seq<char>;

    closed spec fn view(&self) -> Seq<char> {
        self.0@
    }
}

impl RemoteHost {
    #[verifier::type_invariant]
    spec fn valid(self) -> bool {
        remote_host_problem(self.0@) is None
    }

    /// Validates `host`.
    pub fn new(host: &str) -> (r: Result<Self, InputError>)
        ensures
            match r {
                Ok(h) => remote_host_problem(host@) is None && h@ == host@,
                Err(e) => remote_host_problem(host@) == Some(e.kind) && e.input@ == host@,
            },
    {
        let n: usize = host.unicode_len();
        if n == 0 {
            return Err(InputError { kind: InputErrorKind::EmptyHost, input: String::from_str(host) });
        }
        let at: usize = find_char_from(host, '@', 0);
        let host_from: usize = if at < n {
            at + 1
        } else {
            0
        };
        if at < n {
            if at == 0 {
                return Err(
                    InputError { kind: InputErrorKind::EmptyUsername, input: String::from_str(host) },
                );
            }
            if !check_allowed(host, 0, at, false) {
                return Err(
                    InputError {
                        kind: InputErrorKind::InvalidUsername,
                        input: String::from_str(host),
                    },
                );
            }
        }
        if host_from == n {
            return Err(
                InputError { kind: InputErrorKind::EmptyHostname, input: String::from_str(host) },
            );
        }
        if !check_allowed(host, host_from, n, true) {
            return Err(
                InputError { kind: InputErrorKind::InvalidHostname, input: String::from_str(host) },
            );
        }
        Ok(RemoteHost(String::from_str(host)))
    }

    /// The host as text.
    pub fn as_str(&self) -> (r: &str)
        ensures
            r@ == self@,
            remote_host_problem(r@) is None,
    {
        proof {
            use_type_invariant(self);
        }
        self.0.as_str()
    }
}

} // verus!
