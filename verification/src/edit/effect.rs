//! What an edit of a transaction does, in plain values: the tree of nodes it changes,
//! the property it sets, and the data arrays it replaces, extends or removes.

use vstd::prelude::*;

use crate::edit::path::PropertyPath;
use crate::edit::tree::TreeChange;
use crate::ids::{DataId, NodeId};

verus! {

/// Stands for the value of a set: the values of two sets are equal exactly when their
/// identifiers are.
#[derive(Debug, Clone, Copy, PartialEq, Eq, Hash, Structural)]
pub struct ValueId(pub u64);

/// An edit of a transaction, with the values it sets and the arrays it stores standing
/// for what it holds.
#[derive(Debug)]
pub enum EditEffect {
    /// The value of a property of a node is replaced.
    SetProperty {
        /// The node whose property is set.
        node: NodeId,
        /// The path of the property within the node.
        path: PropertyPath,
        /// The new value.
        value: ValueId,
    },
    /// A node is inserted, moved or removed.
    Tree(TreeChange),
    /// An array is created or replaced.
    PutData {
        /// The array.
        id: DataId,
    },
    /// Entries are appended to an array, of which only the last `retain` entries along
    /// the first dimension are kept when `retain` is set.
    AppendData {
        /// The array appended to.
        id: DataId,
        /// The shape of the appended entries.
        shape: Vec<usize>,
        /// The number of entries kept, if not all.
        retain: Option<u64>,
    },
    /// An array is removed.
    RemoveData {
        /// The array.
        id: DataId,
    },
}

} // verus!
