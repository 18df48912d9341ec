//! The messages of the wire format that the plain properties of a figure are encoded
//! as, field for field: an absent optional field is `None`, and an enum field holds the
//! number of its value, zero for the unspecified value.

use vstd::prelude::*;

verus! {

/// The message `TileLayout` of `figure.proto`.
#[derive(Debug, Clone, Copy, Default, PartialEq, Eq, Structural)]
pub struct TileLayout {
    pub rows: Option<u32>,
    pub cols: Option<u32>,
}

/// The message `Cell` of `axes.proto`.
#[derive(Debug, Clone, Copy, Default, PartialEq, Eq, Structural)]
pub struct Cell {
    pub row: Option<u32>,
    pub col: Option<u32>,
    pub row_span: Option<u32>,
    pub col_span: Option<u32>,
}

/// The message `Legend` of `axes.proto`.
#[derive(Debug, Clone, Copy, Default, PartialEq, Eq, Structural)]
pub struct Legend {
    pub location: i32,
    pub boxed: Option<bool>,
}

/// The message `Text` of `text.proto`.
#[derive(Debug, Clone, Default, PartialEq, Eq)]
pub struct Text {
    pub content: String,
    pub interpreter: i32,
}

/// The message `AxisLink` of `link.proto`.
#[derive(Debug, Clone, Default, PartialEq, Eq)]
pub struct AxisLink {
    pub dimension: i32,
    pub axes: Vec<u64>,
}

/// The message `GridRectilinear` of `artist.proto`.
#[derive(Debug, Clone, Copy, Default, PartialEq, Eq, Structural)]
pub struct GridRectilinear {
    pub x: Option<u64>,
    pub y: Option<u64>,
}

/// The message `GridCurvilinear` of `artist.proto`.
#[derive(Debug, Clone, Copy, Default, PartialEq, Eq, Structural)]
pub struct GridCurvilinear {
    pub x: Option<u64>,
    pub y: Option<u64>,
}

/// The `kind` of the message `Grid` of `artist.proto`.
#[derive(Debug, Clone, Copy, PartialEq, Eq, Structural)]
pub enum GridKind {
    Rectilinear(GridRectilinear),
    Curvilinear(GridCurvilinear),
}

/// The message `Grid` of `artist.proto`.
#[derive(Debug, Clone, Copy, Default, PartialEq, Eq, Structural)]
pub struct Grid {
    pub kind: Option<GridKind>,
}

/// The `kind` of the message `Value` of `edit.proto`, for the kinds whose values hold no
/// floating-point number; each variant holds the field of the message that wraps the
/// value (`ValueBool` and the rest).
#[derive(Debug)]
pub enum ValueKind {
    Unset,
    Bool(Option<bool>),
    Uint32(Option<u32>),
    String(String),
    DataId(Option<u64>),
    Text(Option<Text>),
    Interpreter(i32),
    FontSetId(i32),
    TileLayout(Option<TileLayout>),
    Links(Vec<AxisLink>),
    Cell(Option<Cell>),
    Scale(i32),
    ColormapName(i32),
    Legend(Option<Legend>),
    LegendLocation(i32),
    DashStyle(i32),
    MarkerShape(i32),
    Grid(Option<Grid>),
}

/// The message `Value` of `edit.proto`, for the kinds whose values hold no
/// floating-point number.
#[derive(Debug)]
pub struct Value {
    pub kind: Option<ValueKind>,
}


/// The message `EditSet` of `edit.proto`.
#[derive(Debug)]
pub struct EditSet {
    pub node: Option<u64>,
    pub path: String,
    pub value: Option<Value>,
}

/// The message `EditRemove` of `edit.proto`.
#[derive(Debug, Clone, Copy, Default, PartialEq, Eq, Structural)]
pub struct EditRemove {
    pub node: Option<u64>,
}

/// The message `EditMove` of `edit.proto`.
#[derive(Debug, Clone, Copy, Default, PartialEq, Eq, Structural)]
pub struct EditMove {
    pub node: Option<u64>,
    pub parent: Option<u64>,
    pub index: Option<u32>,
}

/// The message `EditRemoveData` of `edit.proto`.
#[derive(Debug, Clone, Copy, Default, PartialEq, Eq, Structural)]
pub struct EditRemoveData {
    pub id: Option<u64>,
}

/// The `kind` of the message `Edit` of `edit.proto`, for the edits that hold no
/// floating-point number.
#[derive(Debug)]
pub enum EditKind {
    SetProperty(EditSet),
    Remove(EditRemove),
    Move(EditMove),
    RemoveData(EditRemoveData),
}

/// The message `Edit` of `edit.proto`, for the edits that hold no floating-point
/// number.
#[derive(Debug)]
pub struct Edit {
    pub kind: Option<EditKind>,
}

} // verus!
