//! Identifiers for nodes and data arrays.

use vstd::prelude::*;

use crate::textfmt::{decimal, push_decimal};

verus! {

/// A stable identifier of a node (the figure, an axes or an artist).
///
/// Node identifiers are unique within a figure and remain unchanged when the figure
/// is saved and loaded, so that interaction state, links and selections can refer to
/// nodes across sessions.
#[derive(Debug, Clone, Copy, Default, PartialEq, Eq, Hash, PartialOrd, Ord, Structural)]
pub struct NodeId(pub u64);

/// An identifier of a numeric array in the figure's data table.
///
/// Artists refer to their data by identifier rather than containing it, so that
/// several artists can share one array and the array is stored once.
#[derive(Debug, Clone, Copy, Default, PartialEq, Eq, Hash, PartialOrd, Ord, Structural)]
pub struct DataId(pub u64);

/// How a node identifier is written in messages: `node 7`.
pub open spec fn node_text(id: NodeId) -> Seq<char> {
    seq!['n', 'o', 'd', 'e', ' '] + decimal(id.0 as nat)
}

/// How a data identifier is written in messages: `data 7`.
pub open spec fn data_text(id: DataId) -> Seq<char> {
    seq!['d', 'a', 't', 'a', ' '] + decimal(id.0 as nat)
}

impl NodeId {
    /// Returns the identifier as messages write it, such as `node 7`.
    pub fn display(&self) -> (s: String)
        ensures
            s@ == node_text(*self),
    {
        let mut s = String::new();
        s.append("node ");
        push_decimal(&mut s, self.0);
        proof {
            reveal_strlit("node ");
        }
        assert(s@ =~= node_text(*self));
        s
    }
}

impl DataId {
    /// Returns the identifier as messages write it, such as `data 7`.
    pub fn display(&self) -> (s: String)
        ensures
            s@ == data_text(*self),
    {
        let mut s = String::new();
        s.append("data ");
        push_decimal(&mut s, self.0);
        proof {
            reveal_strlit("data ");
        }
        assert(s@ =~= data_text(*self));
        s
    }
}

} // verus!
