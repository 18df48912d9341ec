//! The grids on which contours and surfaces are sampled.

use vstd::prelude::*;

use crate::ids::DataId;

verus! {

/// The grid on which a field of shape `[ny, nx]` is sampled.
#[derive(Debug, Clone, Copy, PartialEq, Eq, Hash, Structural)]
pub enum Grid {
    /// An axis-aligned grid defined by one coordinate vector per axis.
    Rectilinear {
        /// The x coordinates of the columns, an array of `nx` values.
        x: DataId,
        /// The y coordinates of the rows, an array of `ny` values.
        y: DataId,
    },
    /// A structured grid whose every node has its own coordinates.
    Curvilinear {
        /// The x coordinate of every node, an array of shape `[ny, nx]`.
        x: DataId,
        /// The y coordinate of every node, an array of shape `[ny, nx]`.
        y: DataId,
    },
}

impl Default for Grid {
    /// A rectilinear grid on the arrays with the identifier zero.
    fn default() -> (r: Self)
        ensures
            r == (Grid::Rectilinear { x: DataId(0), y: DataId(0) }),
    {
        Grid::Rectilinear { x: DataId(0), y: DataId(0) }
    }
}

} // verus!
