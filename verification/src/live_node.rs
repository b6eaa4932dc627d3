//! Live nodes and the walks over a flat vector of them.
//!
//! A document is a vector of nodes in which an open node (see
//! [`LiveValue::spec_is_open`]) is followed by its children and then by the `Close`
//! that ends it.

use vstd::prelude::*;

use crate::live_id::LiveId;
use crate::live_value::{LiveFileId, LiveValue};

verus! {

/// A token of a live file's source text.
#[derive(Clone, Copy, Debug, PartialEq, Eq, Structural)]
pub struct LiveTokenId {
    pub file_id: LiveFileId,
    pub token_index: u32,
}

/// How a node is named in its parent.
#[derive(Clone, Copy, Debug, PartialEq, Eq, Structural)]
pub enum LivePropType {
    Field,
    Instance,
    Nameless,
}

/// Where a node came from.
#[derive(Clone, Copy, Debug, PartialEq, Eq, Structural)]
pub struct LiveNodeOrigin {
    /// The token that the node was parsed from, if any.
    pub token_id: Option<LiveTokenId>,
    pub prop_type: LivePropType,
}

/// A node of a live document.
#[derive(Debug)]
pub struct LiveNode {
    pub origin: LiveNodeOrigin,
    pub id: LiveId,
    pub value: LiveValue,
}

/// Where the walk that skips a node ends, from position `i` at nesting depth `depth`.
pub open spec fn skip_from(nodes: Seq<LiveNode>, i: int, depth: nat) -> int
    decreases nodes.len() - i,
{
    if i < 0 || i >= nodes.len() {
        i
    } else if nodes[i].value.spec_is_open() {
        skip_from(nodes, i + 1, depth + 1)
    } else if nodes[i].value.spec_is_close() {
        if depth == 0 {
            i
        } else if depth == 1 {
            i + 1
        } else {
            skip_from(nodes, i + 1, (depth - 1) as nat)
        }
    } else if depth == 0 {
        i + 1
    } else {
        skip_from(nodes, i + 1, depth)
    }
}

/// The index just past the node at `index` and, if it is open, past its children and
/// its `Close`. A `Close` at `index` is not skipped; where the vector ends first, the
/// result is its length.
pub open spec fn spec_skip_node(nodes: Seq<LiveNode>, index: int) -> int {
    skip_from(nodes, index, 0)
}

/// The last direct child seen so far (`found`), walking on from position `i` at depth `depth`
/// below the parent.
pub open spec fn last_child_from(nodes: Seq<LiveNode>, i: int, depth: nat, found: Option<int>) -> Option<int>
    decreases nodes.len() - i,
{
    if i < 0 || i >= nodes.len() {
        None
    } else if nodes[i].value.spec_is_open() {
        last_child_from(nodes, i + 1, depth + 1, if depth == 0 { Some(i) } else { found })
    } else if nodes[i].value.spec_is_close() {
        if depth == 0 {
            found
        } else {
            last_child_from(nodes, i + 1, (depth - 1) as nat, found)
        }
    } else {
        last_child_from(nodes, i + 1, depth, if depth == 0 { Some(i) } else { found })
    }
}

/// The index of the last direct child of the open node at `parent`, if it has one.
pub open spec fn spec_last_child(nodes: Seq<LiveNode>, parent: int) -> Option<int> {
    last_child_from(nodes, parent + 1, 0, None)
}

/// Whether a node is named `id` in the way `prop_type` says.
pub open spec fn has_name(node: LiveNode, id: LiveId, prop_type: LivePropType) -> bool {
    node.id == id && node.origin.prop_type == prop_type
}

/// The first direct child named `(id, prop_type)`, walking on from position `i` at depth
/// `depth` below the parent.
pub open spec fn child_by_name_from(
    nodes: Seq<LiveNode>,
    i: int,
    depth: nat,
    id: LiveId,
    prop_type: LivePropType,
) -> Option<int>
    decreases nodes.len() - i,
{
    if i < 0 || i >= nodes.len() {
        None
    } else if nodes[i].value.spec_is_close() {
        if depth == 0 {
            None
        } else {
            child_by_name_from(nodes, i + 1, (depth - 1) as nat, id, prop_type)
        }
    } else if depth == 0 && has_name(nodes[i], id, prop_type) {
        Some(i)
    } else if nodes[i].value.spec_is_open() {
        child_by_name_from(nodes, i + 1, depth + 1, id, prop_type)
    } else {
        child_by_name_from(nodes, i + 1, depth, id, prop_type)
    }
}

/// The index of the first direct child of the open node at `parent` named `(id, prop_type)`.
pub open spec fn spec_child_by_name(
    nodes: Seq<LiveNode>,
    parent: int,
    id: LiveId,
    prop_type: LivePropType,
) -> Option<int> {
    child_by_name_from(nodes, parent + 1, 0, id, prop_type)
}

/// The index just past the node at `index`, its children and its `Close`.
pub fn skip_node(nodes: &[LiveNode], index: usize) -> (r: usize)
    ensures
        r == spec_skip_node(nodes@, index as int),
{
    let mut i = index;
    let mut depth: usize = 0;
    while i < nodes.len()
        invariant
            index <= i,
            depth <= i - index,
            skip_from(nodes@, i as int, depth as nat) == skip_from(nodes@, index as int, 0),
        decreases nodes.len() - i,
    {
        if nodes[i].value.is_open() {
            depth = depth + 1;
        } else if nodes[i].value.is_close() {
            if depth == 0 {
                return i;
            }
            if depth == 1 {
                return i + 1;
            }
            depth = depth - 1;
        } else if depth == 0 {
            return i + 1;
        }
        i = i + 1;
    }
    i
}

/// The index of the last direct child of the open node at `parent`, if it has one.
pub fn last_child(nodes: &[LiveNode], parent: usize) -> (r: Option<usize>)
    requires
        parent < nodes@.len(),
    ensures
        r matches Some(c) ==> parent < c < nodes@.len(),
        match r {
            Some(c) => spec_last_child(nodes@, parent as int) == Some(c as int),
            None => spec_last_child(nodes@, parent as int) is None,
        },
{
    let len = nodes.len();
    let mut i = parent + 1;
    let mut depth: usize = 0;
    let mut found: Option<usize> = None;
    while i < nodes.len()
        invariant
            parent < i,
            depth <= i - parent,
            found matches Some(f) ==> parent < f < i,
            last_child_from(nodes@, i as int, depth as nat, match found { Some(f) => Some(f as int), None => None })
                == spec_last_child(nodes@, parent as int),
        decreases nodes.len() - i,
    {
        if nodes[i].value.is_open() {
            if depth == 0 {
                found = Some(i);
            }
            depth = depth + 1;
        } else if nodes[i].value.is_close() {
            if depth == 0 {
                return found;
            }
            depth = depth - 1;
        } else if depth == 0 {
            found = Some(i);
        }
        i = i + 1;
    }
    None
}

/// The index of the first direct child of the open node at `parent` named `(id, prop_type)`.
pub fn child_by_name(nodes: &[LiveNode], parent: usize, id: LiveId, prop_type: LivePropType) -> (r: Option<usize>)
    requires
        parent < nodes@.len(),
    ensures
        r matches Some(c) ==> parent < c < nodes@.len(),
        match r {
            Some(c) => spec_child_by_name(nodes@, parent as int, id, prop_type) == Some(c as int),
            None => spec_child_by_name(nodes@, parent as int, id, prop_type) is None,
        },
{
    let len = nodes.len();
    let mut i = parent + 1;
    let mut depth: usize = 0;
    while i < nodes.len()
        invariant
            parent < i,
            depth <= i - parent,
            child_by_name_from(nodes@, i as int, depth as nat, id, prop_type)
                == spec_child_by_name(nodes@, parent as int, id, prop_type),
        decreases nodes.len() - i,
    {
        let node = &nodes[i];
        if node.value.is_close() {
            if depth == 0 {
                return None;
            }
            depth = depth - 1;
        } else if depth == 0 && node.id.0 == id.0 && node.origin.prop_type == prop_type {
            return Some(i);
        } else if node.value.is_open() {
            depth = depth + 1;
        }
        i = i + 1;
    }
    None
}

} // verus!
