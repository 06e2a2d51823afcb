//! What stands at one filesystem path, as the bridge can observe it.
//!
//! A node is a directory or a file; a file's bytes are either valid text
//! (which the bridge can read back) or opaque binary data of a known
//! length. The `denied` flag models a node whose metadata the process may
//! not access: the operations treat such a node as present but untouchable.

use vstd::prelude::*;

verus! {

/// The mathematical picture of one node.
pub enum Node {
    /// A file whose bytes are valid text.
    TextFile { content: Seq<char>, denied: bool },
    /// A file whose bytes are not valid text; only its length is kept.
    BinaryFile { size: u64, denied: bool },
    /// A directory.
    Directory { denied: bool },
}

impl Node {
    /// The node's metadata may not be accessed by this process.
    pub open spec fn denied(self) -> bool {
        match self {
            Node::TextFile { denied, .. } => denied,
            Node::BinaryFile { denied, .. } => denied,
            Node::Directory { denied } => denied,
        }
    }

    pub open spec fn is_dir(self) -> bool {
        self is Directory
    }

    pub open spec fn is_file(self) -> bool {
        !(self is Directory)
    }

    /// The byte length a metadata lookup reports for a file. For a
    /// directory the reported size is platform-defined and carries no
    /// meaning, so no contract speaks of it.
    pub open spec fn size(self) -> nat {
        match self {
            Node::TextFile { content, .. } => content.len(),
            Node::BinaryFile { size, .. } => size as nat,
            Node::Directory { .. } => 0,
        }
    }
}

/// The executable form of a node, used to build model states.
#[derive(Debug)]
pub enum FsNode {
    TextFile { content: String, denied: bool },
    BinaryFile { size: u64, denied: bool },
    Directory { denied: bool },
}

impl View for FsNode {
    type V = Node;

    open spec fn view(&self) -> Node {
        match self {
            FsNode::TextFile { content, denied } => Node::TextFile {
                content: content@,
                denied: *denied,
            },
            FsNode::BinaryFile { size, denied } => Node::BinaryFile {
                size: *size,
                denied: *denied,
            },
            FsNode::Directory { denied } => Node::Directory { denied: *denied },
        }
    }
}

/// Whether the node's metadata is inaccessible to this process.
pub fn node_denied(n: &FsNode) -> (r: bool)
    ensures
        r == n@.denied(),
{
    match n {
        FsNode::TextFile { denied, .. } => *denied,
        FsNode::BinaryFile { denied, .. } => *denied,
        FsNode::Directory { denied } => *denied,
    }
}

/// Whether the node is a directory.
pub fn node_is_dir(n: &FsNode) -> (r: bool)
    ensures
        r == n@.is_dir(),
{
    match n {
        FsNode::Directory { .. } => true,
        _ => false,
    }
}

/// The size a metadata lookup reports. Meaningful for files only; for a
/// directory the value carries no promise.
pub fn node_size(n: &FsNode) -> (r: u64)
    ensures
        n@.is_file() ==> r as nat == n@.size(),
{
    match n {
        FsNode::TextFile { content, .. } => content.as_str().unicode_len() as u64,
        FsNode::BinaryFile { size, .. } => *size,
        FsNode::Directory { .. } => 0,
    }
}

/// A copy of a node that pictures the same abstract node.
pub fn clone_node(n: &FsNode) -> (r: FsNode)
    ensures
        r@ == n@,
{
    match n {
        FsNode::TextFile { content, denied } => FsNode::TextFile {
            content: content.clone(),
            denied: *denied,
        },
        FsNode::BinaryFile { size, denied } => FsNode::BinaryFile {
            size: *size,
            denied: *denied,
        },
        FsNode::Directory { denied } => FsNode::Directory { denied: *denied },
    }
}

} // verus!
