//! The registry of loaded live files.

use vstd::prelude::*;

use crate::live_node::LiveNode;
use crate::live_value::{LiveFileGeneration, LivePtr};

verus! {

/// The nodes of a live file after expansion.
#[derive(Debug)]
pub struct LiveDocument {
    pub nodes: Vec<LiveNode>,
}

/// A loaded live file.
#[derive(Debug)]
pub struct LiveFile {
    pub generation: LiveFileGeneration,
    pub expanded: LiveDocument,
}

/// All loaded live files, indexed by their file id.
#[derive(Debug)]
pub struct LiveRegistry {
    pub live_files: Vec<LiveFile>,
}

impl LiveRegistry {
    /// Whether the pointer names a loaded file.
    pub open spec fn holds_file(&self, ptr: LivePtr) -> bool {
        (ptr.file_id.0 as int) < self.live_files@.len()
    }

    /// The nodes of the document that the pointer points into.
    pub open spec fn doc_nodes(&self, ptr: LivePtr) -> Seq<LiveNode> {
        self.live_files@[ptr.file_id.0 as int].expanded.nodes@
    }

    /// The expanded document of the file that the pointer points into.
    pub fn ptr_to_doc(&self, ptr: LivePtr) -> (r: &LiveDocument)
        requires
            self.holds_file(ptr),
        ensures
            r.nodes@ == self.doc_nodes(ptr),
            *r == self.live_files@[ptr.file_id.0 as int].expanded,
    {
        &self.live_files[ptr.file_id.0 as usize].expanded
    }
}

} // verus!
