//! The bridge to the external tree-diffing engine, seen from this side:
//! the engine describes tree edits through a mutation-application
//! interface keyed by opaque element identifiers.  The writer here records
//! those edits, in order, as plain values; the adapter that implements the
//! engine's own trait and forwards each call lives in the surrounding
//! application.

use vstd::prelude::*;

verus! {

/// One tree edit, with the element identifier and node count it names.
#[derive(PartialEq, Eq, Structural, Debug, Clone, Copy)]
pub enum MutationKind {
    AppendChildren { id: usize, m: usize },
    AssignNodeId { id: usize },
    CreatePlaceholder { id: usize },
    CreateTextNode { id: usize },
    LoadTemplate { index: usize, id: usize },
    ReplaceNodeWith { id: usize, m: usize },
    ReplacePlaceholderWithNodes { m: usize },
    InsertNodesAfter { id: usize, m: usize },
    InsertNodesBefore { id: usize, m: usize },
    SetAttribute { id: usize },
    SetNodeText { id: usize },
    CreateEventListener { id: usize },
    RemoveEventListener { id: usize },
    RemoveNode { id: usize },
    PushRoot { id: usize },
}

/// Records the tree edits the diffing engine announces, in the order they
/// arrive.
pub struct MutationWriter {
    pub log: Vec<MutationKind>,
}

impl MutationWriter {
    /// A writer with nothing recorded yet.
    pub fn new() -> (r: MutationWriter)
        ensures
            r.log@ =~= Seq::<MutationKind>::empty(),
    {
        MutationWriter { log: Vec::new() }
    }

    /// Record one edit at the end of the log.
    pub fn record(&mut self, m: MutationKind)
        ensures
            final(self).log@ == old(self).log@.push(m),
    {
        self.log.push(m);
    }

    /// How many edits have been recorded.
    pub fn len(&self) -> (n: usize)
        ensures
            n == self.log@.len(),
    {
        self.log.len()
    }
}

} // verus!
