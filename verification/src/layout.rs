//! The layout of a workspace: a tree of split, tabbed and stacked containers
//! with terminals at its leaves, the window-manager directives that rebuild
//! it, and its capture from the window manager's tree.
use crate::text::{str_equal, views_of};
use crate::tree::{NodeLayout, TreeNode};
use crate::window::{
    find_workspace_node, first_mark, identity_from_marks, parse_mark, workspace_node, I3muxWindow,
};
use vstd::prelude::*;
use vstd::string::*;

verus! {

/// How a container arranges its children.
#[derive(Debug, Clone, Copy, PartialEq, Eq, Structural)]
pub enum ContainerKind {
    HSplit,
    VSplit,
    Tabbed,
    Stacked,
}

/// A layout as a mathematical tree.
///
/// The order of `children` is the order on screen: left to right, top to
/// bottom, or the order of the tabs.
pub enum LayoutTree {
    Container { kind: ContainerKind, children: Seq<LayoutTree>, percent_bits: Option<u64> },
    Terminal { socket: Seq<char>, percent_bits: Option<u64> },
}

/// A layout, as it is stored with a session.
///
/// `percent_bits` is the size of the node relative to its siblings, a ratio
/// held as the bit pattern of a 64-bit IEEE 754 number. It is advisory: the
/// library carries it along and never computes with it.
#[derive(Debug)]
pub enum Layout {
    /// Children side by side.
    HSplit { children: Vec<Layout>, percent_bits: Option<u64> },
    /// Children one above the other.
    VSplit { children: Vec<Layout>, percent_bits: Option<u64> },
    Tabbed { children: Vec<Layout> },
    Stacked { children: Vec<Layout> },
    /// A terminal of this tool; `socket` names its session.
    Terminal { socket: String, percent_bits: Option<u64> },
}

impl Clone for Layout {
    fn clone(&self) -> (r: Self)
        ensures
            r@ == self@,
        decreases self,
    {
        match self {
            Layout::HSplit { children, percent_bits } => Layout::HSplit {
                children: clone_list(children),
                percent_bits: *percent_bits,
            },
            Layout::VSplit { children, percent_bits } => Layout::VSplit {
                children: clone_list(children),
                percent_bits: *percent_bits,
            },
            Layout::Tabbed { children } => Layout::Tabbed { children: clone_list(children) },
            Layout::Stacked { children } => Layout::Stacked { children: clone_list(children) },
            Layout::Terminal { socket, percent_bits } => Layout::Terminal {
                socket: socket.clone(),
                percent_bits: *percent_bits,
            },
        }
    }
}

fn clone_list(list: &Vec<Layout>) -> (r: Vec<Layout>)
    ensures
        trees_of(r@) == trees_of(list@),
    decreases list,
{
    let mut out: Vec<Layout> = Vec::new();
    let mut i: usize = 0;
    while i < list.len()
        invariant
            i <= list.len(),
            out@.len() == i,
            forall|j: int| 0 <= j < i ==> (#[trigger] out@[j])@ == list@[j]@,
        decreases list.len() - i,
    {
        out.push(list[i].clone());
        i = i + 1;
    }
    out
}

/// The trees of a list of layouts.
pub open spec fn trees_of(list: Seq<Layout>) -> Seq<LayoutTree>
    decreases list,
{
    Seq::new(
        list.len(),
        |i: int|
            if 0 <= i < list.len() {
                list[i].view()
            } else {
                arbitrary()
            },
    )
}

impl View for Layout {
    type V = LayoutTree;

    open spec fn view(&self) -> LayoutTree
        decreases self,
    {
        match self {
            Layout::HSplit { children, percent_bits } => LayoutTree::Container {
                kind: ContainerKind::HSplit,
                children: trees_of(children@),
                percent_bits: *percent_bits,
            },
            Layout::VSplit { children, percent_bits } => LayoutTree::Container {
                kind: ContainerKind::VSplit,
                children: trees_of(children@),
                percent_bits: *percent_bits,
            },
            Layout::Tabbed { children } => LayoutTree::Container {
                kind: ContainerKind::Tabbed,
                children: trees_of(children@),
                percent_bits: None,
            },
            Layout::Stacked { children } => LayoutTree::Container {
                kind: ContainerKind::Stacked,
                children: trees_of(children@),
                percent_bits: None,
            },
            Layout::Terminal { socket, percent_bits } => LayoutTree::Terminal {
                socket: socket@,
                percent_bits: *percent_bits,
            },
        }
    }
}

/// Every container of `t` has at least one child.
pub open spec fn well_formed(t: LayoutTree) -> bool
    decreases t,
{
    match t {
        LayoutTree::Terminal { .. } => true,
        LayoutTree::Container { children, .. } => children.len() > 0 && forall|i: int|
            0 <= i < children.len() ==> well_formed(#[trigger] children[i]),
    }
}

/// The sockets of the terminals of `t`, depth first, left to right.
pub open spec fn sockets(t: LayoutTree) -> Seq<Seq<char>>
    decreases t, 0int,
{
    match t {
        LayoutTree::Terminal { socket, .. } => seq![socket],
        LayoutTree::Container { children, .. } => sockets_of(children, 0),
    }
}

/// The sockets of the terminals of `list[from..]`, in order.
pub open spec fn sockets_of(list: Seq<LayoutTree>, from: int) -> Seq<Seq<char>>
    decreases list, list.len() - from,
{
    if 0 <= from < list.len() {
        sockets(list[from]) + sockets_of(list, from + 1)
    } else {
        Seq::empty()
    }
}

/// The directive that opens a split of this kind next to the focused
/// window, or that turns the focused container into a tabbed or stacked one.
pub open spec fn directive(kind: ContainerKind) -> Seq<char> {
    match kind {
        ContainerKind::HSplit => "split h"@,
        ContainerKind::VSplit => "split v"@,
        ContainerKind::Tabbed => "layout tabbed"@,
        ContainerKind::Stacked => "layout stacking"@,
    }
}

/// Whether a container of this kind is a split.
pub open spec fn is_split(kind: ContainerKind) -> bool {
    kind == ContainerKind::HSplit || kind == ContainerKind::VSplit
}

/// The directives that rebuild `t`, which stands `depth` levels below the
/// workspace.
///
/// A split container gives its directive before each child after the first.
/// A tabbed or stacked container gives its directive once, before its
/// children, unless it is the workspace itself (`depth` 0). Terminals give
/// nothing: the caller spawns them.
pub open spec fn commands(t: LayoutTree, depth: nat) -> Seq<Seq<char>>
    decreases t, 0int,
{
    match t {
        LayoutTree::Terminal { .. } => Seq::empty(),
        LayoutTree::Container { kind, children, .. } => if is_split(kind) {
            commands_of(children, 0, Some(directive(kind)))
        } else if depth > 0 {
            seq![directive(kind)] + commands_of(children, 0, None)
        } else {
            commands_of(children, 0, None)
        },
    }
}

/// The directives of the children `list[from..]` of a container; `between`
/// is given before each child but the first of the container.
pub open spec fn commands_of(
    list: Seq<LayoutTree>,
    from: int,
    between: Option<Seq<char>>,
) -> Seq<Seq<char>>
    decreases list, list.len() - from,
{
    if 0 <= from < list.len() {
        separator(from, between) + commands(list[from], 1) + commands_of(list, from + 1, between)
    } else {
        Seq::empty()
    }
}

/// What is given before the child at `index`.
pub open spec fn separator(index: int, between: Option<Seq<char>>) -> Seq<Seq<char>> {
    match between {
        Some(d) => if index > 0 {
            seq![d]
        } else {
            Seq::empty()
        },
        None => Seq::empty(),
    }
}

fn directive_str(kind: ContainerKind) -> (r: &'static str)
    ensures
        r@ == directive(kind),
{
    match kind {
        ContainerKind::HSplit => "split h",
        ContainerKind::VSplit => "split v",
        ContainerKind::Tabbed => "layout tabbed",
        ContainerKind::Stacked => "layout stacking",
    }
}

impl Layout {
    /// The kind of this container, or `None` for a terminal.
    pub fn kind(&self) -> (r: Option<ContainerKind>)
        ensures
            r == match self@ {
                LayoutTree::Container { kind, .. } => Some(kind),
                LayoutTree::Terminal { .. } => None,
            },
    {
        match self {
            Layout::HSplit { .. } => Some(ContainerKind::HSplit),
            Layout::VSplit { .. } => Some(ContainerKind::VSplit),
            Layout::Tabbed { .. } => Some(ContainerKind::Tabbed),
            Layout::Stacked { .. } => Some(ContainerKind::Stacked),
            Layout::Terminal { .. } => None,
        }
    }

    /// The sockets of all terminals in this layout, depth first, left to right.
    pub fn get_sockets(&self) -> (r: Vec<String>)
        ensures
            views_of(r@) == sockets(self@),
    {
        let mut out: Vec<String> = Vec::new();
        self.push_sockets(&mut out);
        out
    }

    fn push_sockets(&self, out: &mut Vec<String>)
        ensures
            views_of(final(out)@) == views_of(old(out)@) + sockets(self@),
        decreases self,
    {
        match self {
            Layout::Terminal { socket, .. } => {
                out.push(socket.clone());
            },
            Layout::HSplit { children, .. }
            | Layout::VSplit { children, .. }
            | Layout::Tabbed { children }
            | Layout::Stacked { children } => {
                let ghost list = trees_of(children@);
                let mut i: usize = 0;
                while i < children.len()
                    invariant
                        i <= children.len(),
                        list == trees_of(children@),
                        decreases_to!(self => children),
                        views_of(out@) + sockets_of(list, i as int) == views_of(old(out)@)
                            + sockets_of(list, 0),
                    decreases children.len() - i,
                {
                    children[i].push_sockets(out);
                    i = i + 1;
                }
            },
        }
    }

    /// The directives that rebuild this layout when it stands `depth` levels
    /// below the workspace (0 for the layout of the workspace itself).
    pub fn generate_i3_commands(&self, depth: usize) -> (r: Vec<String>)
        ensures
            views_of(r@) == commands(self@, depth as nat),
    {
        let mut out: Vec<String> = Vec::new();
        self.push_commands(depth > 0, &mut out);
        out
    }

    fn push_commands(&self, nested: bool, out: &mut Vec<String>)
        ensures
            views_of(final(out)@) == views_of(old(out)@) + commands(
                self@,
                if nested {
                    1nat
                } else {
                    0nat
                },
            ),
        decreases self,
    {
        match self {
            Layout::Terminal { .. } => {},
            Layout::HSplit { children, .. } => {
                Self::push_child_commands(children, Some(ContainerKind::HSplit), out);
            },
            Layout::VSplit { children, .. } => {
                Self::push_child_commands(children, Some(ContainerKind::VSplit), out);
            },
            Layout::Tabbed { children } => {
                if nested {
                    out.push(String::from_str(directive_str(ContainerKind::Tabbed)));
                }
                Self::push_child_commands(children, None, out);
            },
            Layout::Stacked { children } => {
                if nested {
                    out.push(String::from_str(directive_str(ContainerKind::Stacked)));
                }
                Self::push_child_commands(children, None, out);
            },
        }
    }

    fn push_child_commands(
        children: &Vec<Layout>,
        between: Option<ContainerKind>,
        out: &mut Vec<String>,
    )
        ensures
            views_of(final(out)@) == views_of(old(out)@) + commands_of(
                trees_of(children@),
                0,
                match between {
                    Some(k) => Some(directive(k)),
                    None => None,
                },
            ),
        decreases children,
    {
        let ghost list = trees_of(children@);
        let ghost sep: Option<Seq<char>> = match between {
            Some(k) => Some(directive(k)),
            None => None,
        };
        let mut i: usize = 0;
        while i < children.len()
            invariant
                i <= children.len(),
                list == trees_of(children@),
                sep == match between {
                    Some(k) => Some(directive(k)),
                    None => None::<Seq<char>>,
                },
                views_of(out@) + commands_of(list, i as int, sep) == views_of(old(out)@)
                    + commands_of(list, 0, sep),
            decreases children.len() - i,
        {
            if i > 0 {
                match between {
                    Some(k) => {
                        out.push(String::from_str(directive_str(k)));
                    },
                    None => {},
                }
            }
            children[i].push_commands(true, out);
            i = i + 1;
        }
    }
}

/// The socket of the terminal that `node` shows: the one named by the first
/// of its marks that is the mark of a managed window or, where it has no
/// such mark, by its instance.
pub open spec fn node_socket(node: TreeNode) -> Option<Seq<char>> {
    match first_mark(node.marks@, 0) {
        Some(p) => Some(p.1),
        None => match node.instance {
            Some(instance) => match parse_mark(instance@) {
                Some(p) => Some(p.1),
                None => None,
            },
            None => None,
        },
    }
}

/// The kind of container that the window manager's designator stands for;
/// one that is no split, tabbed or stacked designator counts as a vertical split.
pub open spec fn kind_of(layout: NodeLayout) -> ContainerKind {
    match layout {
        NodeLayout::SplitH => ContainerKind::HSplit,
        NodeLayout::SplitV => ContainerKind::VSplit,
        NodeLayout::Tabbed => ContainerKind::Tabbed,
        NodeLayout::Stacked => ContainerKind::Stacked,
        NodeLayout::Other => ContainerKind::VSplit,
    }
}

/// The layout of the tree under `node`.
///
/// A node that shows a terminal is a leaf. Any other node is a container of
/// what its tiled and then its floating children give, in their order; a
/// node that neither shows a terminal nor has a child that gives something
/// gives nothing.
pub open spec fn capture(node: TreeNode) -> Option<LayoutTree>
    decreases node, 0int,
{
    match node_socket(node) {
        Some(socket) => Some(LayoutTree::Terminal { socket, percent_bits: node.percent_bits }),
        None => {
            let children = capture_list(node.nodes@, 0) + capture_list(node.floating_nodes@, 0);
            if children.len() == 0 {
                None
            } else {
                Some(
                    LayoutTree::Container {
                        kind: kind_of(node.layout),
                        children,
                        percent_bits: if is_split(kind_of(node.layout)) {
                            node.percent_bits
                        } else {
                            None
                        },
                    },
                )
            }
        },
    }
}

/// The layout of workspace `num` of `tree`.
pub open spec fn capture_workspace(tree: TreeNode, num: i32) -> Option<LayoutTree> {
    match workspace_node(tree, num) {
        Some(workspace) => capture(workspace),
        None => None,
    }
}

/// What the trees `list[from..]` give, in order.
pub open spec fn capture_list(list: Seq<TreeNode>, from: int) -> Seq<LayoutTree>
    decreases list, list.len() - from,
{
    if 0 <= from < list.len() {
        (match capture(list[from]) {
            Some(t) => seq![t],
            None => Seq::empty(),
        }) + capture_list(list, from + 1)
    } else {
        Seq::empty()
    }
}

/// The sockets of the terminals that the tree under `node` shows, in tree
/// order; nothing below a node that shows a terminal counts.
pub open spec fn shown_sockets(node: TreeNode) -> Seq<Seq<char>>
    decreases node, 0int,
{
    match node_socket(node) {
        Some(socket) => seq![socket],
        None => shown_sockets_in(node.nodes@, 0) + shown_sockets_in(node.floating_nodes@, 0),
    }
}

/// The sockets of the terminals that the trees `list[from..]` show.
pub open spec fn shown_sockets_in(list: Seq<TreeNode>, from: int) -> Seq<Seq<char>>
    decreases list, list.len() - from,
{
    if 0 <= from < list.len() {
        shown_sockets(list[from]) + shown_sockets_in(list, from + 1)
    } else {
        Seq::empty()
    }
}

fn socket_of_node(node: &TreeNode) -> (r: Option<String>)
    ensures
        match r {
            Some(s) => node_socket(*node) == Some(s@),
            None => node_socket(*node) is None,
        },
{
    match identity_from_marks(&node.marks) {
        Some(w) => Some(w.socket),
        None => match &node.instance {
            Some(instance) => match I3muxWindow::from_mark(instance.as_str()) {
                Some(w) => Some(w.socket),
                None => None,
            },
            None => None,
        },
    }
}

impl Layout {
    /// Captures the layout of a workspace from its node in the window
    /// manager's tree. `None` means that the workspace shows no terminal of
    /// this tool.
    pub fn capture_from_workspace(workspace_node: &TreeNode) -> (r: Option<Self>)
        ensures
            match r {
                Some(layout) => capture(*workspace_node) == Some(layout@),
                None => capture(*workspace_node) is None,
            },
    {
        Self::capture_node(workspace_node)
    }

    /// Captures the layout of workspace `workspace_num` from the window
    /// manager's tree. `None` means that the tree has no such workspace, or
    /// that the workspace shows no terminal of this tool.
    pub fn capture_from_workspace_num(tree: &TreeNode, workspace_num: i32) -> (r: Option<Self>)
        ensures
            match r {
                Some(layout) => capture_workspace(*tree, workspace_num) == Some(layout@),
                None => capture_workspace(*tree, workspace_num) is None,
            },
    {
        match find_workspace_node(tree, workspace_num) {
            Some(workspace) => Self::capture_node(workspace),
            None => None,
        }
    }

    fn capture_node(node: &TreeNode) -> (r: Option<Self>)
        ensures
            match r {
                Some(layout) => capture(*node) == Some(layout@),
                None => capture(*node) is None,
            },
        decreases node,
    {
        if let Some(socket) = socket_of_node(node) {
            return Some(Layout::Terminal { socket, percent_bits: node.percent_bits });
        }
        let mut children: Vec<Layout> = Vec::new();
        Self::capture_children(&node.nodes, &mut children);
        Self::capture_children(&node.floating_nodes, &mut children);
        if children.len() == 0 {
            return None;
        }
        let layout = match node.layout {
            NodeLayout::SplitH => Layout::HSplit { children, percent_bits: node.percent_bits },
            NodeLayout::SplitV => Layout::VSplit { children, percent_bits: node.percent_bits },
            NodeLayout::Tabbed => Layout::Tabbed { children },
            NodeLayout::Stacked => Layout::Stacked { children },
            NodeLayout::Other => Layout::VSplit { children, percent_bits: node.percent_bits },
        };
        Some(layout)
    }

    fn capture_children(list: &Vec<TreeNode>, out: &mut Vec<Layout>)
        ensures
            trees_of(final(out)@) == trees_of(old(out)@) + capture_list(list@, 0),
        decreases list,
    {
        let mut i: usize = 0;
        while i < list.len()
            invariant
                i <= list.len(),
                trees_of(out@) + capture_list(list@, i as int) == trees_of(old(out)@)
                    + capture_list(list@, 0),
            decreases list.len() - i,
        {
            match Self::capture_node(&list[i]) {
                Some(child) => {
                    out.push(child);
                },
                None => {},
            }
            i = i + 1;
        }
    }
}

/// Whether every tree of the list is [`well_formed`].
pub open spec fn all_well_formed(list: Seq<LayoutTree>) -> bool {
    forall|i: int| 0 <= i < list.len() ==> well_formed(#[trigger] list[i])
}

/// A captured layout has no empty container.
pub proof fn lemma_capture_well_formed(node: TreeNode)
    ensures
        capture(node) matches Some(t) ==> well_formed(t),
    decreases node, 0int,
{
    if node_socket(node) is None {
        lemma_capture_list_well_formed(node.nodes@, 0);
        lemma_capture_list_well_formed(node.floating_nodes@, 0);
        let a = capture_list(node.nodes@, 0);
        let b = capture_list(node.floating_nodes@, 0);
        assert forall|i: int| 0 <= i < (a + b).len() implies well_formed(#[trigger] (a + b)[i]) by {
            if i < a.len() {
                assert((a + b)[i] == a[i]);
            } else {
                assert((a + b)[i] == b[i - a.len()]);
            }
        }
    }
}

/// What a list of trees gives has no empty container.
pub proof fn lemma_capture_list_well_formed(list: Seq<TreeNode>, from: int)
    requires
        0 <= from <= list.len(),
    ensures
        all_well_formed(capture_list(list, from)),
    decreases list, list.len() - from,
{
    if from < list.len() {
        lemma_capture_well_formed(list[from]);
        lemma_capture_list_well_formed(list, from + 1);
        let head = match capture(list[from]) {
            Some(t) => seq![t],
            None => Seq::empty(),
        };
        let rest = capture_list(list, from + 1);
        assert forall|i: int| 0 <= i < (head + rest).len() implies well_formed(
            #[trigger] (head + rest)[i],
        ) by {
            if i < head.len() {
                assert((head + rest)[i] == head[i]);
            } else {
                assert((head + rest)[i] == rest[i - head.len()]);
            }
        }
    }
}

/// The sockets of [`sockets_of`] over two lists in a row.
pub proof fn lemma_sockets_of_concat(a: Seq<LayoutTree>, b: Seq<LayoutTree>, from: int)
    requires
        0 <= from <= a.len(),
    ensures
        sockets_of(a + b, from) == sockets_of(a, from) + sockets_of(b, 0),
    decreases a.len() - from,
{
    if from < a.len() {
        lemma_sockets_of_concat(a, b, from + 1);
        assert((a + b)[from] == a[from]);
        assert(sockets_of(a + b, from) =~= sockets_of(a, from) + sockets_of(b, 0));
    } else {
        lemma_sockets_of_shift(a, b, 0);
        assert(sockets_of(a, from) + sockets_of(b, 0) =~= sockets_of(b, 0));
    }
}

proof fn lemma_sockets_of_shift(a: Seq<LayoutTree>, b: Seq<LayoutTree>, k: int)
    requires
        0 <= k <= b.len(),
    ensures
        sockets_of(a + b, a.len() + k) == sockets_of(b, k),
    decreases b.len() - k,
{
    if k < b.len() {
        lemma_sockets_of_shift(a, b, k + 1);
        assert((a + b)[a.len() + k] == b[k]);
    }
}

/// A captured layout holds exactly the terminals that the tree shows, in the
/// tree's order, and a tree that shows none gives no layout: what shows no
/// terminal of this tool is absent from the capture, at any depth.
pub proof fn lemma_capture_sockets(node: TreeNode)
    ensures
        capture(node) is None <==> shown_sockets(node).len() == 0,
        capture(node) matches Some(t) ==> sockets(t) == shown_sockets(node),
    decreases node, 0int,
{
    if node_socket(node) is None {
        lemma_capture_list_sockets(node.nodes@, 0);
        lemma_capture_list_sockets(node.floating_nodes@, 0);
        let a = capture_list(node.nodes@, 0);
        let b = capture_list(node.floating_nodes@, 0);
        lemma_sockets_of_concat(a, b, 0);
        lemma_sockets_of_nonempty(a + b, 0);
    }
}

proof fn lemma_sockets_of_nonempty(list: Seq<LayoutTree>, from: int)
    requires
        0 <= from <= list.len(),
        forall|i: int| 0 <= i < list.len() ==> sockets(#[trigger] list[i]).len() > 0,
    ensures
        sockets_of(list, from).len() == 0 <==> from == list.len(),
    decreases list.len() - from,
{
    if from < list.len() {
        assert(sockets(list[from]).len() > 0);
    }
}

/// What a list of trees gives holds exactly the terminals that they show, and
/// each layout in it holds at least one.
pub proof fn lemma_capture_list_sockets(list: Seq<TreeNode>, from: int)
    requires
        0 <= from <= list.len(),
    ensures
        sockets_of(capture_list(list, from), 0) == shown_sockets_in(list, from),
        forall|i: int|
            0 <= i < capture_list(list, from).len() ==> sockets(
                #[trigger] capture_list(list, from)[i],
            ).len() > 0,
    decreases list, list.len() - from,
{
    if from < list.len() {
        lemma_capture_sockets(list[from]);
        lemma_capture_list_sockets(list, from + 1);
        let head = match capture(list[from]) {
            Some(t) => seq![t],
            None => Seq::empty(),
        };
        let rest = capture_list(list, from + 1);
        lemma_sockets_of_concat(head, rest, 0);
        if capture(list[from]) is Some {
            assert(sockets_of(head, 0) =~= sockets(head[0]) + sockets_of(head, 1));
            assert(sockets_of(head, 0) =~= sockets(head[0]));
        }
        assert(sockets_of(capture_list(list, from), 0) =~= shown_sockets_in(list, from));
    }
}

/// One step of rebuilding a layout.
#[derive(Debug)]
pub enum RestoreStep {
    /// Spawn the terminal for this socket and wait until its window is marked.
    Spawn { socket: String },
    /// Run this directive on the window that was spawned last.
    Command { command: String },
}

/// A [`RestoreStep`] as plain values.
pub enum StepView {
    Spawn { socket: Seq<char> },
    Command { command: Seq<char> },
}

impl View for RestoreStep {
    type V = StepView;

    open spec fn view(&self) -> StepView {
        match self {
            RestoreStep::Spawn { socket } => StepView::Spawn { socket: socket@ },
            RestoreStep::Command { command } => StepView::Command { command: command@ },
        }
    }
}

/// The views of a list of steps.
pub open spec fn steps_of(v: Seq<RestoreStep>) -> Seq<StepView> {
    v.map_values(|s: RestoreStep| s@)
}

/// The steps that rebuild a layout from its sockets and directives, from
/// terminal `from` on: terminal `i` is spawned, then directive `i` is run if
/// there is one, then terminal `i + 1` is spawned.
pub open spec fn restore_plan(
    socks: Seq<Seq<char>>,
    cmds: Seq<Seq<char>>,
    from: int,
) -> Seq<StepView>
    decreases socks.len() - from,
{
    if 0 <= from < socks.len() {
        seq![StepView::Spawn { socket: socks[from] }] + (if from < cmds.len() {
            seq![StepView::Command { command: cmds[from] }]
        } else {
            Seq::empty()
        }) + restore_plan(socks, cmds, from + 1)
    } else {
        Seq::empty()
    }
}

/// The kind that a directive names.
pub open spec fn directive_kind(command: Seq<char>) -> Option<ContainerKind> {
    if command == "split h"@ {
        Some(ContainerKind::HSplit)
    } else if command == "split v"@ {
        Some(ContainerKind::VSplit)
    } else if command == "layout tabbed"@ {
        Some(ContainerKind::Tabbed)
    } else if command == "layout stacking"@ {
        Some(ContainerKind::Stacked)
    } else {
        None
    }
}

/// A container of the given kind. Tabbed and stacked containers carry no size.
pub open spec fn container(
    kind: ContainerKind,
    children: Seq<LayoutTree>,
    percent_bits: Option<u64>,
) -> LayoutTree {
    LayoutTree::Container {
        kind,
        children,
        percent_bits: if is_split(kind) {
            percent_bits
        } else {
            None
        },
    }
}

/// `t` after a terminal for `socket` was spawned. The focus is on the window
/// spawned last, the last leaf of the tree; the new window opens behind it,
/// in the same container.
pub open spec fn after_spawn(t: LayoutTree, socket: Seq<char>) -> LayoutTree
    decreases t,
{
    match t {
        LayoutTree::Terminal { .. } => t,
        LayoutTree::Container { kind, children, percent_bits } => if children.len() > 0
            && children.last() is Container {
            container(
                kind,
                children.drop_last().push(after_spawn(children.last(), socket)),
                percent_bits,
            )
        } else {
            container(
                kind,
                children.push(LayoutTree::Terminal { socket, percent_bits: None }),
                percent_bits,
            )
        },
    }
}

/// `t` after a directive was run on the focused window. A split directive
/// turns a split container that holds the focused window alone, and wraps
/// the focused window in a new container otherwise; a tabbed or stacking
/// directive turns the container that holds the focused window.
pub open spec fn after_directive(t: LayoutTree, to: ContainerKind) -> LayoutTree
    decreases t,
{
    match t {
        LayoutTree::Terminal { .. } => t,
        LayoutTree::Container { kind, children, percent_bits } => if children.len() == 0 {
            t
        } else if children.last() is Container {
            container(
                kind,
                children.drop_last().push(after_directive(children.last(), to)),
                percent_bits,
            )
        } else if is_split(to) && !(children.len() == 1 && is_split(kind)) {
            container(
                kind,
                children.drop_last().push(container(to, seq![children.last()], None)),
                percent_bits,
            )
        } else {
            container(to, children, percent_bits)
        },
    }
}

/// The layout that comes of running the steps of [`restore_plan`] from
/// terminal `from` on, on a workspace whose layout is `t`; `None` where one
/// of the directives that are run is none that [`directive_kind`] knows.
pub open spec fn replay_from(
    t: LayoutTree,
    cmds: Seq<Seq<char>>,
    socks: Seq<Seq<char>>,
    from: int,
) -> Option<LayoutTree>
    decreases socks.len() - from,
{
    if 0 <= from < socks.len() {
        let spawned = after_spawn(t, socks[from]);
        if from < cmds.len() {
            match directive_kind(cmds[from]) {
                Some(kind) => replay_from(after_directive(spawned, kind), cmds, socks, from + 1),
                None => None,
            }
        } else {
            replay_from(spawned, cmds, socks, from + 1)
        }
    } else {
        Some(t)
    }
}

/// The layout of a workspace before anything was spawned on it.
pub open spec fn empty_workspace() -> LayoutTree {
    LayoutTree::Container { kind: ContainerKind::HSplit, children: Seq::empty(), percent_bits: None }
}

/// The layout that comes of spawning `socks` on an empty workspace with the
/// directives `cmds` run in between; `None` where there is no socket or a
/// directive is unknown.
pub open spec fn replay(cmds: Seq<Seq<char>>, socks: Seq<Seq<char>>) -> Option<LayoutTree> {
    if socks.len() == 0 {
        None
    } else {
        replay_from(empty_workspace(), cmds, socks, 0)
    }
}

fn kind_of_directive(command: &str) -> (r: Option<ContainerKind>)
    ensures
        r == directive_kind(command@),
{
    if str_equal(command, "split h") {
        Some(ContainerKind::HSplit)
    } else if str_equal(command, "split v") {
        Some(ContainerKind::VSplit)
    } else if str_equal(command, "layout tabbed") {
        Some(ContainerKind::Tabbed)
    } else if str_equal(command, "layout stacking") {
        Some(ContainerKind::Stacked)
    } else {
        None
    }
}

fn make_container(kind: ContainerKind, children: Vec<Layout>, percent_bits: Option<u64>) -> (r:
    Layout)
    ensures
        r@ == container(kind, trees_of(children@), percent_bits),
{
    match kind {
        ContainerKind::HSplit => Layout::HSplit { children, percent_bits },
        ContainerKind::VSplit => Layout::VSplit { children, percent_bits },
        ContainerKind::Tabbed => Layout::Tabbed { children },
        ContainerKind::Stacked => Layout::Stacked { children },
    }
}

fn spawn_at_focus(t: Layout, socket: String) -> (r: Layout)
    ensures
        r@ == after_spawn(t@, socket@),
    decreases t,
{
    let (kind, mut children, percent_bits) = match t {
        Layout::Terminal { socket, percent_bits } => {
            return Layout::Terminal { socket, percent_bits };
        },
        Layout::HSplit { children, percent_bits } => (ContainerKind::HSplit, children, percent_bits),
        Layout::VSplit { children, percent_bits } => (ContainerKind::VSplit, children, percent_bits),
        Layout::Tabbed { children } => (ContainerKind::Tabbed, children, None),
        Layout::Stacked { children } => (ContainerKind::Stacked, children, None),
    };
    let ghost before = children@;
    let n: usize = children.len();
    let descend: bool = n > 0 && children[n - 1].kind().is_some();
    if descend {
        let last: Layout = children.pop().unwrap();
        let grown: Layout = spawn_at_focus(last, socket);
        children.push(grown);
        assert(trees_of(children@) =~= trees_of(before).drop_last().push(grown@));
    } else {
        children.push(Layout::Terminal { socket, percent_bits: None });
        assert(trees_of(children@) =~= trees_of(before).push(
            LayoutTree::Terminal { socket: socket@, percent_bits: None },
        ));
    }
    make_container(kind, children, percent_bits)
}

fn directive_at_focus(t: Layout, to: ContainerKind) -> (r: Layout)
    ensures
        r@ == after_directive(t@, to),
    decreases t,
{
    let (kind, mut children, percent_bits) = match t {
        Layout::Terminal { socket, percent_bits } => {
            return Layout::Terminal { socket, percent_bits };
        },
        Layout::HSplit { children, percent_bits } => (ContainerKind::HSplit, children, percent_bits),
        Layout::VSplit { children, percent_bits } => (ContainerKind::VSplit, children, percent_bits),
        Layout::Tabbed { children } => (ContainerKind::Tabbed, children, None),
        Layout::Stacked { children } => (ContainerKind::Stacked, children, None),
    };
    let ghost before = children@;
    let n: usize = children.len();
    if n == 0 {
        return make_container(kind, children, percent_bits);
    }
    let to_is_split: bool = match to {
        ContainerKind::HSplit => true,
        ContainerKind::VSplit => true,
        _ => false,
    };
    let kind_is_split: bool = match kind {
        ContainerKind::HSplit => true,
        ContainerKind::VSplit => true,
        _ => false,
    };
    if children[n - 1].kind().is_some() {
        let last: Layout = children.pop().unwrap();
        let turned: Layout = directive_at_focus(last, to);
        children.push(turned);
        assert(trees_of(children@) =~= trees_of(before).drop_last().push(turned@));
        make_container(kind, children, percent_bits)
    } else if to_is_split && !(n == 1 && kind_is_split) {
        let last: Layout = children.pop().unwrap();
        let mut inner: Vec<Layout> = Vec::new();
        inner.push(last);
        assert(trees_of(inner@) =~= seq![trees_of(before).last()]);
        let wrapped: Layout = make_container(to, inner, None);
        children.push(wrapped);
        assert(trees_of(children@) =~= trees_of(before).drop_last().push(wrapped@));
        make_container(kind, children, percent_bits)
    } else {
        make_container(to, children, percent_bits)
    }
}

impl Layout {
    /// The steps that rebuild this layout on an empty workspace: its
    /// terminals in order, each followed by the directive of its position
    /// where there is one (see [`restore_plan`]).
    pub fn restore_steps(&self) -> (r: Vec<RestoreStep>)
        ensures
            steps_of(r@) == restore_plan(sockets(self@), commands(self@, 0), 0),
    {
        let socks: Vec<String> = self.get_sockets();
        let cmds: Vec<String> = self.generate_i3_commands(0);
        let mut out: Vec<RestoreStep> = Vec::new();
        let mut i: usize = 0;
        while i < socks.len()
            invariant
                i <= socks.len(),
                steps_of(out@) + restore_plan(views_of(socks@), views_of(cmds@), i as int)
                    == restore_plan(views_of(socks@), views_of(cmds@), 0),
            decreases socks.len() - i,
        {
            out.push(RestoreStep::Spawn { socket: socks[i].clone() });
            if i < cmds.len() {
                out.push(RestoreStep::Command { command: cmds[i].clone() });
            }
            i = i + 1;
        }
        out
    }

    /// The layout that a window manager ends with when `sockets` are spawned
    /// one by one on an empty workspace and, after each, the directive of
    /// the same position in `commands` is run, if there is one (see
    /// [`replay`]). `None` where `sockets` is empty or a directive that
    /// would be run is unknown.
    pub fn parse_from_commands(commands: &Vec<String>, sockets: &Vec<String>) -> (r: Option<
        Layout,
    >)
        ensures
            match r {
                Some(layout) => replay(views_of(commands@), views_of(sockets@)) == Some(layout@),
                None => replay(views_of(commands@), views_of(sockets@)) is None,
            },
    {
        if sockets.len() == 0 {
            return None;
        }
        let ghost cmds = views_of(commands@);
        let ghost socks = views_of(sockets@);
        let mut t: Layout = Layout::HSplit { children: Vec::new(), percent_bits: None };
        assert(trees_of(Seq::<Layout>::empty()) =~= Seq::empty());
        let mut i: usize = 0;
        while i < sockets.len()
            invariant
                i <= sockets.len(),
                cmds == views_of(commands@),
                socks == views_of(sockets@),
                replay_from(t@, cmds, socks, i as int) == replay(cmds, socks),
            decreases sockets.len() - i,
        {
            t = spawn_at_focus(t, sockets[i].clone());
            if i < commands.len() {
                match kind_of_directive(commands[i].as_str()) {
                    Some(kind) => {
                        t = directive_at_focus(t, kind);
                    },
                    None => {
                        return None;
                    },
                }
            }
            i = i + 1;
        }
        Some(t)
    }
}

/// Whether every directive of the list is one that [`directive_kind`] knows.
pub open spec fn all_known(cmds: Seq<Seq<char>>) -> bool {
    forall|i: int| 0 <= i < cmds.len() ==> directive_kind(#[trigger] cmds[i]) is Some
}

proof fn lemma_all_known_concat(a: Seq<Seq<char>>, b: Seq<Seq<char>>)
    requires
        all_known(a),
        all_known(b),
    ensures
        all_known(a + b),
{
    assert forall|i: int| 0 <= i < (a + b).len() implies directive_kind(#[trigger] (a + b)[i])
        is Some by {
        if i < a.len() {
            assert((a + b)[i] == a[i]);
        } else {
            assert((a + b)[i] == b[i - a.len()]);
        }
    }
}

/// Every directive that [`commands`] gives is one that [`directive_kind`] knows.
pub proof fn lemma_commands_known(t: LayoutTree, depth: nat)
    ensures
        all_known(commands(t, depth)),
    decreases t, 0int,
{
    match t {
        LayoutTree::Terminal { .. } => {},
        LayoutTree::Container { kind, children, .. } => {
            assert(directive_kind(directive(kind)) is Some);
            if is_split(kind) {
                lemma_commands_of_known(children, 0, Some(directive(kind)));
            } else {
                lemma_commands_of_known(children, 0, None);
                lemma_all_known_concat(seq![directive(kind)], commands_of(children, 0, None));
            }
        },
    }
}

proof fn lemma_commands_of_known(list: Seq<LayoutTree>, from: int, between: Option<Seq<char>>)
    requires
        0 <= from <= list.len(),
        between matches Some(d) ==> directive_kind(d) is Some,
    ensures
        all_known(commands_of(list, from, between)),
    decreases list, list.len() - from,
{
    if from < list.len() {
        lemma_commands_known(list[from], 1);
        lemma_commands_of_known(list, from + 1, between);
        lemma_all_known_concat(separator(from, between), commands(list[from], 1));
        lemma_all_known_concat(
            separator(from, between) + commands(list[from], 1),
            commands_of(list, from + 1, between),
        );
    }
}

proof fn lemma_sockets_of_replace_last(list: Seq<LayoutTree>, x: LayoutTree)
    requires
        list.len() > 0,
    ensures
        sockets_of(list.drop_last().push(x), 0) == sockets_of(list.drop_last(), 0) + sockets(x),
        sockets_of(list, 0) == sockets_of(list.drop_last(), 0) + sockets(list.last()),
{
    lemma_sockets_of_push(list.drop_last(), x);
    lemma_sockets_of_push(list.drop_last(), list.last());
    assert(list.drop_last().push(list.last()) =~= list);
}

proof fn lemma_sockets_of_push(list: Seq<LayoutTree>, x: LayoutTree)
    ensures
        sockets_of(list.push(x), 0) == sockets_of(list, 0) + sockets(x),
{
    lemma_sockets_of_concat(list, seq![x], 0);
    assert(list + seq![x] =~= list.push(x));
    assert(sockets_of(seq![x], 1) =~= Seq::empty());
    assert(sockets_of(seq![x], 0) =~= sockets(x));
}

/// Spawning a terminal adds its socket behind all others.
pub proof fn lemma_after_spawn_sockets(t: LayoutTree, socket: Seq<char>)
    requires
        t is Container,
    ensures
        after_spawn(t, socket) is Container,
        sockets(after_spawn(t, socket)) == sockets(t) + seq![socket],
    decreases t,
{
    match t {
        LayoutTree::Terminal { .. } => {},
        LayoutTree::Container { kind, children, percent_bits } => {
            if children.len() > 0 && children.last() is Container {
                lemma_after_spawn_sockets(children.last(), socket);
                lemma_sockets_of_replace_last(children, after_spawn(children.last(), socket));
                assert(sockets(after_spawn(t, socket)) =~= sockets(t) + seq![socket]);
            } else {
                let leaf = LayoutTree::Terminal { socket, percent_bits: None };
                lemma_sockets_of_push(children, leaf);
            }
        },
    }
}

/// A directive changes the shape of a layout and leaves its terminals, and
/// their order, alone.
pub proof fn lemma_after_directive_sockets(t: LayoutTree, to: ContainerKind)
    ensures
        t is Container ==> after_directive(t, to) is Container,
        sockets(after_directive(t, to)) == sockets(t),
    decreases t,
{
    match t {
        LayoutTree::Terminal { .. } => {},
        LayoutTree::Container { kind, children, percent_bits } => {
            if children.len() > 0 && children.last() is Container {
                lemma_after_directive_sockets(children.last(), to);
                lemma_sockets_of_replace_last(children, after_directive(children.last(), to));
            } else if children.len() > 0 && is_split(to) && !(children.len() == 1 && is_split(
                kind,
            )) {
                let wrapped = container(to, seq![children.last()], None);
                lemma_sockets_of_push(Seq::empty(), children.last());
                assert(Seq::<LayoutTree>::empty().push(children.last()) =~= seq![children.last()]);
                assert(sockets_of(Seq::<LayoutTree>::empty(), 0) =~= Seq::empty());
                assert(sockets(wrapped) =~= sockets(children.last()));
                lemma_sockets_of_replace_last(children, wrapped);
            }
        },
    }
}

/// Replaying keeps the terminals that are there and adds the spawned ones
/// behind them, in the order of spawning, whatever the directives are; and
/// it succeeds when all directives are known.
pub proof fn lemma_replay_from_sockets(
    t: LayoutTree,
    cmds: Seq<Seq<char>>,
    socks: Seq<Seq<char>>,
    from: int,
)
    requires
        t is Container,
        0 <= from <= socks.len(),
    ensures
        replay_from(t, cmds, socks, from) matches Some(r) ==> sockets(r) == sockets(t)
            + socks.subrange(from, socks.len() as int),
        all_known(cmds) ==> replay_from(t, cmds, socks, from) is Some,
    decreases socks.len() - from,
{
    if from < socks.len() {
        let spawned = after_spawn(t, socks[from]);
        lemma_after_spawn_sockets(t, socks[from]);
        let rest = socks.subrange(from + 1, socks.len() as int);
        assert(seq![socks[from]] + rest =~= socks.subrange(from, socks.len() as int));
        if from < cmds.len() {
            match directive_kind(cmds[from]) {
                Some(kind) => {
                    let turned = after_directive(spawned, kind);
                    lemma_after_directive_sockets(spawned, kind);
                    lemma_replay_from_sockets(turned, cmds, socks, from + 1);
                    assert((sockets(t) + seq![socks[from]]) + rest =~= sockets(t) + socks.subrange(
                        from,
                        socks.len() as int,
                    ));
                },
                None => {},
            }
        } else {
            lemma_replay_from_sockets(spawned, cmds, socks, from + 1);
            assert((sockets(t) + seq![socks[from]]) + rest =~= sockets(t) + socks.subrange(
                from,
                socks.len() as int,
            ));
        }
    } else {
        assert(sockets(t) + socks.subrange(from, socks.len() as int) =~= sockets(t));
    }
}

/// Whatever the directives, a layout that comes of replaying holds exactly
/// the spawned sockets, in the order of spawning.
pub proof fn lemma_replay_sockets(cmds: Seq<Seq<char>>, socks: Seq<Seq<char>>)
    ensures
        replay(cmds, socks) matches Some(r) ==> sockets(r) == socks,
        all_known(cmds) && socks.len() > 0 ==> replay(cmds, socks) is Some,
{
    if socks.len() > 0 {
        lemma_replay_from_sockets(empty_workspace(), cmds, socks, 0);
        assert(sockets_of(Seq::<LayoutTree>::empty(), 0) =~= Seq::empty());
        assert(Seq::<Seq<char>>::empty() + socks.subrange(0, socks.len() as int) =~= socks);
    }
}

/// A layout without empty containers holds at least one terminal.
pub proof fn lemma_well_formed_has_socket(t: LayoutTree)
    requires
        well_formed(t),
    ensures
        sockets(t).len() > 0,
    decreases t,
{
    match t {
        LayoutTree::Terminal { .. } => {},
        LayoutTree::Container { children, .. } => {
            lemma_well_formed_has_socket(children[0]);
        },
    }
}

/// Rebuilding a layout from its own directives and sockets gives a layout
/// with the same sockets in the same order.
pub proof fn lemma_round_trip_sockets(t: LayoutTree)
    requires
        well_formed(t),
    ensures
        replay(commands(t, 0), sockets(t)) matches Some(r) && sockets(r) == sockets(t),
{
    lemma_well_formed_has_socket(t);
    lemma_commands_known(t, 0);
    lemma_replay_sockets(commands(t, 0), sockets(t));
}

} // verus!
