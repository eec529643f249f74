//! Identity of managed windows.
//!
//! A managed window carries the hidden mark `_i3mux:{host}:{socket}`: `host`
//! is `local` or the remote host, `socket` names the terminal session behind
//! the window. The same string is given to the terminal as its instance when
//! it is spawned, so that the window can be found once it appears.
use crate::text::{
    count_char, decimal, find_char_from, find_from, lemma_find_count, lemma_find_from,
    push_decimal, slice_to_string, starts_with, str_equal, views_of,
};
use crate::tree::{NodeKind, TreeNode};
use vstd::prelude::*;
use vstd::string::*;

verus! {

/// Prefix of the hidden marks (the underscore keeps them out of title bars).
pub const MARK_PREFIX: &'static str = "_i3mux:";

/// How often the tree is queried for a new window before giving up.
pub const WINDOW_WAIT_MAX_ATTEMPTS: u32 = 30;

/// Pause before each query for a new window, in milliseconds.
pub const WINDOW_WAIT_INTERVAL_MS: u64 = 100;

/// The characters of [`MARK_PREFIX`].
pub open spec fn mark_prefix() -> Seq<char> {
    seq!['_', 'i', '3', 'm', 'u', 'x', ':']
}

/// The mark of the window for `socket` on `host`.
pub open spec fn mark_of(host: Seq<char>, socket: Seq<char>) -> Seq<char> {
    mark_prefix() + host + seq![':'] + socket
}

/// Whether `s` begins with the mark prefix.
pub open spec fn is_mark(s: Seq<char>) -> bool {
    mark_prefix().is_prefix_of(s)
}

/// What follows the mark prefix in `s`.
pub open spec fn mark_body(s: Seq<char>) -> Seq<char> {
    s.subrange(mark_prefix().len() as int, s.len() as int)
}

/// The host and the socket that the mark `s` names: `s` begins with the
/// prefix, and what follows holds exactly one colon, between the two.
pub open spec fn parse_mark(s: Seq<char>) -> Option<(Seq<char>, Seq<char>)> {
    if is_mark(s) {
        let body = mark_body(s);
        let colon = find_from(body, ':', 0);
        if colon < body.len() && find_from(body, ':', colon + 1) == body.len() {
            Some((body.subrange(0, colon), body.subrange(colon + 1, body.len() as int)))
        } else {
            None
        }
    } else {
        None
    }
}

/// The identity of a managed window.
#[derive(Debug)]
pub struct I3muxWindow {
    /// The window manager's handle of the window.
    pub window_id: u64,
    /// `local`, or the remote host such as `user@server`.
    pub host: String,
    /// The name of the terminal session, such as `ws1-001`.
    pub socket: String,
}

/// An [`I3muxWindow`] as plain values.
pub struct WindowIdentity {
    pub window_id: u64,
    pub host: Seq<char>,
    pub socket: Seq<char>,
}

impl View for I3muxWindow {
    type V = WindowIdentity;

    open spec fn view(&self) -> WindowIdentity {
        WindowIdentity { window_id: self.window_id, host: self.host@, socket: self.socket@ }
    }
}

impl Clone for I3muxWindow {
    fn clone(&self) -> (r: Self)
        ensures
            r@ == self@,
    {
        I3muxWindow {
            window_id: self.window_id,
            host: self.host.clone(),
            socket: self.socket.clone(),
        }
    }
}

impl PartialEq for I3muxWindow {
    fn eq(&self, other: &Self) -> (r: bool) {
        self.window_id == other.window_id && self.host == other.host && self.socket
            == other.socket
    }
}

impl Eq for I3muxWindow {

}

impl vstd::std_specs::cmp::PartialEqSpecImpl for I3muxWindow {
    open spec fn obeys_eq_spec() -> bool {
        true
    }

    open spec fn eq_spec(&self, other: &Self) -> bool {
        self.window_id == other.window_id && self.host@ == other.host@ && self.socket@
            == other.socket@
    }
}

fn mark_prefix_str() -> (r: &'static str)
    ensures
        r@ == mark_prefix(),
{
    proof {
        reveal_strlit("_i3mux:");
    }
    "_i3mux:"
}

fn colon_str() -> (r: &'static str)
    ensures
        r@ == seq![':'],
{
    proof {
        reveal_strlit(":");
    }
    ":"
}

impl I3muxWindow {
    /// The identity of the window `window_id` for `socket` on `host`.
    pub fn new(window_id: u64, host: &str, socket: &str) -> (w: Self)
        ensures
            w@ == (WindowIdentity { window_id, host: host@, socket: socket@ }),
    {
        I3muxWindow { window_id, host: String::from_str(host), socket: String::from_str(socket) }
    }

    /// The mark of this window.
    pub fn mark(&self) -> (r: String)
        ensures
            r@ == mark_of(self.host@, self.socket@),
    {
        Self::mark_from_parts(self.host.as_str(), self.socket.as_str())
    }

    /// The mark, and instance, of the window for `socket` on `host`.
    pub fn mark_from_parts(host: &str, socket: &str) -> (r: String)
        ensures
            r@ == mark_of(host@, socket@),
    {
        let mut r: String = String::from_str(mark_prefix_str());
        r.append(host);
        r.append(colon_str());
        r.append(socket);
        r
    }

    /// Reads the identity that a mark names. The window handle of the result
    /// is 0: the caller knows the window on which it found the mark.
    pub fn from_mark(mark: &str) -> (r: Option<Self>)
        ensures
            match r {
                Some(w) => parse_mark(mark@) == Some((w.host@, w.socket@)) && w.window_id == 0,
                None => parse_mark(mark@) is None,
            },
    {
        if !starts_with(mark, mark_prefix_str()) {
            return None;
        }
        let n: usize = mark.unicode_len();
        let body: &str = mark.substring_char(7, n);
        let m: usize = body.unicode_len();
        let colon: usize = find_char_from(body, ':', 0);
        if colon >= m {
            return None;
        }
        let second: usize = find_char_from(body, ':', colon + 1);
        if second < m {
            return None;
        }
        Some(
            I3muxWindow {
                window_id: 0,
                host: slice_to_string(body, 0, colon),
                socket: slice_to_string(body, colon + 1, m),
            },
        )
    }

    /// Whether `mark` is the mark of a managed window, going by its prefix.
    pub fn is_i3mux_mark(mark: &str) -> (b: bool)
        ensures
            b == is_mark(mark@),
    {
        starts_with(mark, mark_prefix_str())
    }
}

/// Reading a mark gives back the host and the socket that it was made from,
/// whenever neither of them holds a colon.
pub proof fn lemma_mark_round_trip(host: Seq<char>, socket: Seq<char>)
    requires
        !host.contains(':'),
        !socket.contains(':'),
    ensures
        parse_mark(mark_of(host, socket)) == Some((host, socket)),
{
    let s = mark_of(host, socket);
    let body = mark_body(s);
    assert(s.subrange(0, 7) =~= mark_prefix());
    assert(body =~= host + seq![':'] + socket);
    lemma_find_from(body, ':', 0);
    let colon = find_from(body, ':', 0);
    assert(body[host.len() as int] == ':');
    assert(colon == host.len()) by {
        if colon < host.len() {
            assert(host[colon] == ':');
        }
    }
    lemma_find_from(body, ':', colon + 1);
    let second = find_from(body, ':', colon + 1);
    assert(second == body.len()) by {
        if second < body.len() {
            assert(socket[second - host.len() - 1] == ':');
        }
    }
    assert(body.subrange(0, colon) =~= host);
    assert(body.subrange(colon + 1, body.len() as int) =~= socket);
}

/// A string is read as a mark exactly when it begins with the prefix and
/// holds exactly one colon after it.
pub proof fn lemma_mark_rejection(s: Seq<char>)
    ensures
        parse_mark(s) is Some <==> is_mark(s) && count_char(mark_body(s), ':') == 1,
        !is_mark(s) ==> parse_mark(s) is None,
        count_char(mark_body(s), ':') == 0 ==> parse_mark(s) is None,
        count_char(mark_body(s), ':') >= 2 ==> parse_mark(s) is None,
{
    if is_mark(s) {
        let body = mark_body(s);
        lemma_find_from(body, ':', 0);
        lemma_find_count(body, ':', 0);
        let colon = find_from(body, ':', 0);
        if colon < body.len() {
            lemma_find_from(body, ':', colon + 1);
            lemma_find_count(body, ':', colon + 1);
        }
    }
}

/// Two marks are equal only if they were made from the same host and socket,
/// as long as the hosts hold no colon.
pub proof fn lemma_mark_injective(
    host1: Seq<char>,
    socket1: Seq<char>,
    host2: Seq<char>,
    socket2: Seq<char>,
)
    requires
        !host1.contains(':'),
        !host2.contains(':'),
        mark_of(host1, socket1) == mark_of(host2, socket2),
    ensures
        host1 == host2,
        socket1 == socket2,
{
    let s = mark_of(host1, socket1);
    let b1 = host1 + seq![':'] + socket1;
    let b2 = host2 + seq![':'] + socket2;
    assert(mark_body(mark_of(host1, socket1)) =~= b1);
    assert(mark_body(mark_of(host2, socket2)) =~= b2);
    assert(b1 == b2);
    assert(b1[host1.len() as int] == ':');
    assert(b2[host2.len() as int] == ':');
    if host1.len() < host2.len() {
        assert(host2[host1.len() as int] == b2[host1.len() as int]);
    }
    if host2.len() < host1.len() {
        assert(host1[host2.len() as int] == b1[host2.len() as int]);
    }
    assert(host1 =~= b1.subrange(0, host1.len() as int));
    assert(host2 =~= b2.subrange(0, host2.len() as int));
    assert(socket1 =~= b1.subrange(host1.len() as int + 1, b1.len() as int));
    assert(socket2 =~= b2.subrange(host2.len() as int + 1, b2.len() as int));
}

/// The host and socket named by the first of `marks[from..]` that is the
/// mark of a managed window.
pub open spec fn first_mark(marks: Seq<String>, from: int) -> Option<(Seq<char>, Seq<char>)>
    decreases marks.len() - from,
{
    if 0 <= from < marks.len() {
        match parse_mark(marks[from]@) {
            Some(p) => Some(p),
            None => first_mark(marks, from + 1),
        }
    } else {
        None
    }
}

/// The identity of `node` as a managed window: it is a window, and one of its
/// marks names a host and a socket (the first such mark counts).
pub open spec fn node_identity(node: TreeNode) -> Option<WindowIdentity> {
    match (node.window, first_mark(node.marks@, 0)) {
        (Some(window_id), Some(p)) => Some(WindowIdentity { window_id, host: p.0, socket: p.1 }),
        _ => None,
    }
}

/// The managed windows in the tree under `node`: the node itself, then its
/// tiled children, then its floating children, each depth first.
pub open spec fn marked_windows(node: TreeNode) -> Seq<WindowIdentity>
    decreases node, 0int,
{
    let own = match node_identity(node) {
        Some(w) => seq![w],
        None => Seq::empty(),
    };
    own + marked_windows_in(node.nodes@, 0) + marked_windows_in(node.floating_nodes@, 0)
}

/// The managed windows in the trees `list[from..]`, in order.
pub open spec fn marked_windows_in(list: Seq<TreeNode>, from: int) -> Seq<WindowIdentity>
    decreases list, list.len() - from,
{
    if 0 <= from < list.len() {
        marked_windows(list[from]) + marked_windows_in(list, from + 1)
    } else {
        Seq::empty()
    }
}

/// Whether `node` is a window whose instance is `instance`.
pub open spec fn has_instance(node: TreeNode, instance: Seq<char>) -> bool {
    node.window is Some && node.instance is Some && node.instance->0@ == instance
}

/// The handle of the first window with the given instance in the tree under
/// `node`: the node itself, then its tiled children, then its floating
/// children, each depth first.
pub open spec fn window_with_instance(node: TreeNode, instance: Seq<char>) -> Option<u64>
    decreases node, 0int,
{
    if has_instance(node, instance) {
        node.window
    } else {
        match window_with_instance_in(node.nodes@, instance, 0) {
            Some(w) => Some(w),
            None => window_with_instance_in(node.floating_nodes@, instance, 0),
        }
    }
}

/// The handle of the first window with the given instance in the trees
/// `list[from..]`.
pub open spec fn window_with_instance_in(
    list: Seq<TreeNode>,
    instance: Seq<char>,
    from: int,
) -> Option<u64>
    decreases list, list.len() - from,
{
    if 0 <= from < list.len() {
        match window_with_instance(list[from], instance) {
            Some(w) => Some(w),
            None => window_with_instance_in(list, instance, from + 1),
        }
    } else {
        None
    }
}

/// Whether `node` is the workspace with number `num`.
pub open spec fn is_workspace(node: TreeNode, num: i32) -> bool {
    node.kind == NodeKind::Workspace && node.num == Some(num as i64)
}

/// The first workspace with number `num` in the tree under `node`, looking at
/// the node itself and then through its tiled children, depth first.
pub open spec fn workspace_node(node: TreeNode, num: i32) -> Option<TreeNode>
    decreases node, 0int,
{
    if is_workspace(node, num) {
        Some(node)
    } else {
        workspace_node_in(node.nodes@, num, 0)
    }
}

/// The first workspace with number `num` in the trees `list[from..]`.
pub open spec fn workspace_node_in(list: Seq<TreeNode>, num: i32, from: int) -> Option<TreeNode>
    decreases list, list.len() - from,
{
    if 0 <= from < list.len() {
        match workspace_node(list[from], num) {
            Some(w) => Some(w),
            None => workspace_node_in(list, num, from + 1),
        }
    } else {
        None
    }
}

/// The managed windows of workspace `num` in `tree`; none where the tree has
/// no such workspace.
pub open spec fn workspace_windows(tree: TreeNode, num: i32) -> Seq<WindowIdentity> {
    match workspace_node(tree, num) {
        Some(ws) => marked_windows(ws),
        None => Seq::empty(),
    }
}

/// The identities of a list of windows.
pub open spec fn identities_of(v: Seq<I3muxWindow>) -> Seq<WindowIdentity> {
    v.map_values(|w: I3muxWindow| w@)
}

/// Finds the window whose instance is `instance` in `tree`.
pub fn find_window_by_instance(tree: &TreeNode, instance: &str) -> (r: Option<u64>)
    ensures
        r == window_with_instance(*tree, instance@),
    decreases tree,
{
    if let Some(window_id) = tree.window {
        if let Some(own) = &tree.instance {
            if str_equal(own.as_str(), instance) {
                return Some(window_id);
            }
        }
    }
    match find_window_in(&tree.nodes, instance) {
        Some(w) => Some(w),
        None => find_window_in(&tree.floating_nodes, instance),
    }
}

fn find_window_in(list: &Vec<TreeNode>, instance: &str) -> (r: Option<u64>)
    ensures
        r == window_with_instance_in(list@, instance@, 0),
    decreases list,
{
    let mut i: usize = 0;
    while i < list.len()
        invariant
            i <= list.len(),
            window_with_instance_in(list@, instance@, 0) == window_with_instance_in(
                list@,
                instance@,
                i as int,
            ),
        decreases list.len() - i,
    {
        if let Some(w) = find_window_by_instance(&list[i], instance) {
            return Some(w);
        }
        i = i + 1;
    }
    None
}

/// The host and socket that the marks of a node name, if any does.
pub fn identity_from_marks(marks: &Vec<String>) -> (r: Option<I3muxWindow>)
    ensures
        match r {
            Some(w) => first_mark(marks@, 0) == Some((w.host@, w.socket@)) && w.window_id == 0,
            None => first_mark(marks@, 0) is None,
        },
{
    let mut i: usize = 0;
    while i < marks.len()
        invariant
            i <= marks.len(),
            first_mark(marks@, 0) == first_mark(marks@, i as int),
        decreases marks.len() - i,
    {
        if let Some(w) = I3muxWindow::from_mark(marks[i].as_str()) {
            return Some(w);
        }
        i = i + 1;
    }
    None
}

fn collect_i3mux_windows(node: &TreeNode, windows: &mut Vec<I3muxWindow>)
    ensures
        identities_of(final(windows)@) == identities_of(old(windows)@) + marked_windows(*node),
    decreases node,
{
    if let Some(window_id) = node.window {
        if let Some(found) = identity_from_marks(&node.marks) {
            let identity = I3muxWindow { window_id, host: found.host, socket: found.socket };
            windows.push(identity);
        }
    }
    collect_in(&node.nodes, windows);
    collect_in(&node.floating_nodes, windows);
}

fn collect_in(list: &Vec<TreeNode>, windows: &mut Vec<I3muxWindow>)
    ensures
        identities_of(final(windows)@) == identities_of(old(windows)@) + marked_windows_in(
            list@,
            0,
        ),
    decreases list,
{
    let mut i: usize = 0;
    while i < list.len()
        invariant
            i <= list.len(),
            identities_of(windows@) + marked_windows_in(list@, i as int) == identities_of(
                old(windows)@,
            ) + marked_windows_in(list@, 0),
        decreases list.len() - i,
    {
        collect_i3mux_windows(&list[i], windows);
        i = i + 1;
    }
}

/// Finds the workspace with number `workspace_num` in the tree under `node`.
pub fn find_workspace_node<'a>(node: &'a TreeNode, workspace_num: i32) -> (r: Option<&'a TreeNode>)
    ensures
        match r {
            Some(ws) => workspace_node(*node, workspace_num) == Some(*ws),
            None => workspace_node(*node, workspace_num) is None,
        },
    decreases node,
{
    if let NodeKind::Workspace = node.kind {
        if let Some(num) = node.num {
            if num == workspace_num as i64 {
                return Some(node);
            }
        }
    }
    find_workspace_in(&node.nodes, workspace_num)
}

fn find_workspace_in<'a>(list: &'a Vec<TreeNode>, workspace_num: i32) -> (r: Option<
    &'a TreeNode,
>)
    ensures
        match r {
            Some(ws) => workspace_node_in(list@, workspace_num, 0) == Some(*ws),
            None => workspace_node_in(list@, workspace_num, 0) is None,
        },
    decreases list,
{
    let mut i: usize = 0;
    while i < list.len()
        invariant
            i <= list.len(),
            workspace_node_in(list@, workspace_num, 0) == workspace_node_in(
                list@,
                workspace_num,
                i as int,
            ),
        decreases list.len() - i,
    {
        if let Some(ws) = find_workspace_node(&list[i], workspace_num) {
            return Some(ws);
        }
        i = i + 1;
    }
    None
}

/// The managed windows of workspace `workspace_num` in `tree`, in tree order.
pub fn find_i3mux_windows_in_workspace(tree: &TreeNode, workspace_num: i32) -> (r: Vec<
    I3muxWindow,
>)
    ensures
        identities_of(r@) == workspace_windows(*tree, workspace_num),
{
    let mut windows: Vec<I3muxWindow> = Vec::new();
    match find_workspace_node(tree, workspace_num) {
        Some(ws) => {
            collect_i3mux_windows(ws, &mut windows);
        },
        None => {},
    }
    windows
}

/// Whether workspace `workspace_num` of `tree` holds a managed window.
pub fn workspace_has_i3mux_windows(tree: &TreeNode, workspace_num: i32) -> (b: bool)
    ensures
        b == (workspace_windows(*tree, workspace_num).len() > 0),
{
    let windows = find_i3mux_windows_in_workspace(tree, workspace_num);
    windows.len() > 0
}

/// The command that puts the mark of `w` on its window.
pub open spec fn mark_command_text(w: WindowIdentity) -> Seq<char> {
    "[id=\""@ + decimal(w.window_id as nat) + "\"] mark --add "@ + mark_of(w.host, w.socket)
}

/// The command that closes the window `window_id`.
pub open spec fn kill_command_text(window_id: u64) -> Seq<char> {
    "[id=\""@ + decimal(window_id as nat) + "\"] kill"@
}

/// The commands that close `windows`, one each, in order.
pub open spec fn kill_commands(windows: Seq<WindowIdentity>) -> Seq<Seq<char>> {
    windows.map_values(|w: WindowIdentity| kill_command_text(w.window_id))
}

/// Why a window could not be found or marked.
#[derive(Debug)]
pub enum WindowError {
    /// The window manager ran the mark command and reported no success.
    MarkFailed { mark: String, window_id: u64 },
    /// No window with this instance appeared within the attempt budget.
    NotFound { instance: String, attempts: u32 },
}

/// The text of a [`WindowError`].
pub open spec fn window_error_text(e: WindowError) -> Seq<char> {
    match e {
        WindowError::MarkFailed { mark, window_id } => "Failed to apply mark '"@ + mark@
            + "' to window "@ + decimal(window_id as nat),
        WindowError::NotFound { instance, attempts } => "Failed to find window with instance '"@
            + instance@ + "' after "@ + decimal(attempts as nat) + " attempts"@,
    }
}

impl WindowError {
    /// The error as a sentence for the user.
    pub fn message(&self) -> (r: String)
        ensures
            r@ == window_error_text(*self),
    {
        match self {
            WindowError::MarkFailed { mark, window_id } => {
                let mut r: String = String::from_str("Failed to apply mark '");
                r.append(mark.as_str());
                r.append("' to window ");
                push_decimal(&mut r, *window_id);
                r
            },
            WindowError::NotFound { instance, attempts } => {
                let mut r: String = String::from_str("Failed to find window with instance '");
                r.append(instance.as_str());
                r.append("' after ");
                push_decimal(&mut r, *attempts as u64);
                r.append(" attempts");
                r
            },
        }
    }
}

/// What to do next while waiting for a window to appear.
#[derive(Debug)]
pub enum WaitStep {
    /// Pause for [`WINDOW_WAIT_INTERVAL_MS`], query the tree, and ask again
    /// with this attempt number.
    Retry { attempt: u32 },
    /// The window has appeared: run `command` to mark it.
    Mark { window: I3muxWindow, command: String },
    /// The attempt budget is spent.
    Failed { error: WindowError },
}

impl I3muxWindow {
    /// The window-manager command that puts this window's mark on it.
    /// Marking is idempotent: a second run changes nothing.
    pub fn mark_command(&self) -> (r: String)
        ensures
            r@ == mark_command_text(self@),
    {
        let mut r: String = String::from_str("[id=\"");
        push_decimal(&mut r, self.window_id);
        r.append("\"] mark --add ");
        let mark = self.mark();
        r.append(mark.as_str());
        r
    }

    /// Judges the outcomes that the window manager reported for
    /// [`mark_command`](Self::mark_command): the mark is on the window when
    /// one of them is a success.
    pub fn apply_mark(&self, outcomes: &Vec<bool>) -> (r: Result<(), WindowError>)
        ensures
            r is Ok <==> outcomes@.contains(true),
            r matches Err(e) ==> e matches WindowError::MarkFailed { mark, window_id }
                && mark@ == mark_of(self.host@, self.socket@) && window_id == self.window_id,
    {
        let mut i: usize = 0;
        while i < outcomes.len()
            invariant
                i <= outcomes.len(),
                forall|j: int| 0 <= j < i ==> !outcomes@[j],
            decreases outcomes.len() - i,
        {
            if outcomes[i] {
                return Ok(());
            }
            i = i + 1;
        }
        Err(WindowError::MarkFailed { mark: self.mark(), window_id: self.window_id })
    }
}

/// The command that closes the window `window_id`.
pub fn kill_command(window_id: u64) -> (r: String)
    ensures
        r@ == kill_command_text(window_id),
{
    let mut r: String = String::from_str("[id=\"");
    push_decimal(&mut r, window_id);
    r.append("\"] kill");
    r
}

/// The commands that close every managed window of workspace
/// `workspace_num`, and no other window. The caller runs them one by one and
/// goes on when one of them fails.
pub fn kill_i3mux_windows_in_workspace(tree: &TreeNode, workspace_num: i32) -> (r: Vec<String>)
    ensures
        views_of(r@) == kill_commands(workspace_windows(*tree, workspace_num)),
{
    let windows = find_i3mux_windows_in_workspace(tree, workspace_num);
    let mut out: Vec<String> = Vec::new();
    let mut i: usize = 0;
    while i < windows.len()
        invariant
            i <= windows.len(),
            out@.len() == i,
            forall|j: int|
                0 <= j < i ==> (#[trigger] out@[j])@ == kill_command_text(
                    windows@[j].window_id,
                ),
        decreases windows.len() - i,
    {
        out.push(kill_command(windows[i].window_id));
        i = i + 1;
    }
    out
}

/// One step of the wait for a spawned window.
///
/// `tree` is the tree that the query after the pause returned, or `None`
/// where the query failed; `attempt` counts the queries made before this one.
/// The window with the given instance is marked as soon as it shows; after
/// [`WINDOW_WAIT_MAX_ATTEMPTS`] queries without it the wait fails.
pub fn wait_for_window_and_mark(
    tree: Option<&TreeNode>,
    instance: &str,
    host: &str,
    socket: &str,
    attempt: u32,
) -> (step: WaitStep)
    ensures
        match awaited_window(tree, instance@) {
            Some(window_id) => step matches WaitStep::Mark { window, command } && window@ == (
            WindowIdentity { window_id, host: host@, socket: socket@ }) && command@
                == mark_command_text(window@),
            None => if attempt + 1 < WINDOW_WAIT_MAX_ATTEMPTS {
                step matches WaitStep::Retry { attempt: next } && next == attempt + 1
            } else {
                step matches WaitStep::Failed { error } && error matches WindowError::NotFound {
                    instance: name,
                    attempts,
                } && name@ == instance@ && attempts == WINDOW_WAIT_MAX_ATTEMPTS
            },
        },
{
    let found: Option<u64> = match tree {
        Some(t) => find_window_by_instance(t, instance),
        None => None,
    };
    match found {
        Some(window_id) => {
            let window = I3muxWindow::new(window_id, host, socket);
            let command = window.mark_command();
            WaitStep::Mark { window, command }
        },
        None => {
            if attempt < WINDOW_WAIT_MAX_ATTEMPTS - 1 {
                WaitStep::Retry { attempt: attempt + 1 }
            } else {
                WaitStep::Failed {
                    error: WindowError::NotFound {
                        instance: String::from_str(instance),
                        attempts: WINDOW_WAIT_MAX_ATTEMPTS,
                    },
                }
            }
        },
    }
}

/// The window that a query shows for `instance`; none where the query failed.
pub open spec fn awaited_window(tree: Option<&TreeNode>, instance: Seq<char>) -> Option<u64> {
    match tree {
        Some(t) => window_with_instance(*t, instance),
        None => None,
    }
}

} // verus!
