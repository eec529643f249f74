//! The window manager's container tree, as far as this library reads it.
use vstd::prelude::*;

verus! {

/// The window manager's own designator of how a container arranges its children.
#[derive(Debug, Clone, Copy, PartialEq, Eq, Structural)]
pub enum NodeLayout {
    SplitH,
    SplitV,
    Stacked,
    Tabbed,
    /// Any designator that is none of the four above (dock areas, outputs, ...).
    Other,
}

/// What a tree node stands for.
#[derive(Debug, Clone, Copy, PartialEq, Eq, Structural)]
pub enum NodeKind {
    Workspace,
    /// Root, output, dock area, ordinary or floating container.
    Other,
}

/// One node of the window manager's tree.
///
/// `percent_bits` holds the node's size fraction relative to its siblings as
/// the bit pattern of a 64-bit IEEE 754 number; the library only carries it along.
#[derive(Debug)]
pub struct TreeNode {
    pub kind: NodeKind,
    /// The workspace number, where the node is a workspace.
    pub num: Option<i64>,
    /// The low-level window handle, where the node is a window.
    pub window: Option<u64>,
    /// The instance (class or application id) of the window.
    pub instance: Option<String>,
    /// The marks on the node, in the window manager's order.
    pub marks: Vec<String>,
    pub layout: NodeLayout,
    pub percent_bits: Option<u64>,
    /// The tiled children, in the window manager's order.
    pub nodes: Vec<TreeNode>,
    /// The floating children, in the window manager's order.
    pub floating_nodes: Vec<TreeNode>,
}

} // verus!
