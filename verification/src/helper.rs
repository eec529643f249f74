//! The helper script that remote hosts run, and the check for the program
//! that keeps terminal sessions alive.
//!
//! The script is uploaded to a host when the host has none, or one of
//! another version. Its version is the text between the first two double
//! quotes of its first line that holds `VERSION=`.
use crate::text::{
    contains_str, contains_text, find_char_from, find_from, nonempty_lines, slice_to_string,
    split_nonempty_lines, str_equal, trim, trimmed, views_of,
};
use vstd::prelude::*;
use vstd::string::*;

verus! {

/// The command that shows the version of the helper script on a host, or
/// nothing where the host has none.
pub const HELPER_VERSION_COMMAND: &'static str = "/tmp/i3mux-helper.sh version 2>/dev/null || echo ''";

/// The command that writes its standard input to the helper script.
pub const HELPER_UPLOAD_COMMAND: &'static str = "cat > /tmp/i3mux-helper.sh";

/// The command that makes the helper script executable.
pub const HELPER_CHMOD_COMMAND: &'static str = "chmod +x /tmp/i3mux-helper.sh";

/// The command that lets the helper script look for what it needs on a host.
pub const HELPER_CHECK_COMMAND: &'static str = "bash -lc '/tmp/i3mux-helper.sh check-deps'";

/// What to tell the user who has no `abduco` on this machine.
pub const ABDUCO_MISSING: &'static str =
    "abduco not found. Please install it:\n- Arch Linux: sudo pacman -S abduco\n- Debian/Ubuntu: sudo apt install abduco\n- macOS: brew install abduco\n- Or build from source: https://github.com/martanne/abduco";

/// The first of `lines[from..]` that holds `pat`.
pub open spec fn first_line_with(lines: Seq<Seq<char>>, pat: Seq<char>, from: int) -> Option<
    Seq<char>,
>
    decreases lines.len() - from,
{
    if 0 <= from < lines.len() {
        if contains_text(lines[from], pat) {
            Some(lines[from])
        } else {
            first_line_with(lines, pat, from + 1)
        }
    } else {
        None
    }
}

/// What stands behind the first double quote of `line`, up to the second
/// one or, where there is no second, to the end; `None` for a line without
/// a double quote.
pub open spec fn quoted_part(line: Seq<char>) -> Option<Seq<char>> {
    let open = find_from(line, '"', 0);
    if open < line.len() {
        Some(line.subrange(open + 1, find_from(line, '"', open + 1)))
    } else {
        None
    }
}

/// The version of the helper script `script`; `unknown` where it names none.
pub open spec fn script_version_text(script: Seq<char>) -> Seq<char> {
    match first_line_with(nonempty_lines(script, 0), "VERSION="@, 0) {
        Some(line) => match quoted_part(line) {
            Some(version) => version,
            None => "unknown"@,
        },
        None => "unknown"@,
    }
}

/// The version of the helper script `script`; `unknown` where it names none.
pub fn script_version(script: &str) -> (r: String)
    ensures
        r@ == script_version_text(script@),
{
    let lines: Vec<String> = split_nonempty_lines(script);
    let mut i: usize = 0;
    while i < lines.len()
        invariant
            i <= lines.len(),
            views_of(lines@) == nonempty_lines(script@, 0),
            first_line_with(views_of(lines@), "VERSION="@, 0) == first_line_with(
                views_of(lines@),
                "VERSION="@,
                i as int,
            ),
        decreases lines.len() - i,
    {
        let line: &str = lines[i].as_str();
        if contains_str(line, "VERSION=") {
            let n: usize = line.unicode_len();
            let open: usize = find_char_from(line, '"', 0);
            if open >= n {
                return String::from_str("unknown");
            }
            let close: usize = find_char_from(line, '"', open + 1);
            return slice_to_string(line, open + 1, close);
        }
        i = i + 1;
    }
    String::from_str("unknown")
}

/// Whether the helper script `script` has to be uploaded to a host that
/// answered the version command with `remote_output`: it has, unless the
/// host has the same version.
pub fn upload_needed(remote_output: &str, script: &str) -> (b: bool)
    ensures
        b == (trimmed(remote_output@) != script_version_text(script@)),
{
    let local: String = script_version(script);
    !str_equal(trim(remote_output), local.as_str())
}

} // verus!
