//! The types of the values of properties.

use vstd::prelude::*;

use crate::artist::Grid;
use crate::axes::{Cell, ColormapName, Legend, LegendLocation, Scale};
use crate::figure::{FontSetId, TileLayout};
use crate::edit::path::PropertyPath;
use crate::ids::{DataId, NodeId};
use crate::link::AxisLink;
use crate::style::{DashStyle, MarkerShape};
use crate::text::{Interpreter, Text};

verus! {

/// The type of the value of a property, with one variant for each type of value that a
/// property path can address.
#[derive(Debug, Clone, Copy, PartialEq, Eq, Hash, PartialOrd, Ord, Structural)]
pub enum ValueType {
    /// A boolean, such as the visibility of an artist.
    Bool,
    /// An unsigned 32-bit integer, such as a number of rows of the tile layout.
    UInt32,
    /// A double-precision number, such as a line width or a limit.
    Double,
    /// A single-precision number: a component of a colour.
    Float,
    /// A string: the source of a text.
    String,
    /// A reference to a data array, such as the x data of a line.
    DataId,
    /// A list of double-precision numbers: explicit contour levels.
    Doubles,
    /// A list of strings: the labels of a figure.
    Strings,
    /// A text, such as a title.
    Text,
    /// How the source of a text is interpreted.
    Interpreter,
    /// The physical size of a figure.
    FigureSize,
    /// A bundled font set.
    FontSetId,
    /// A colour.
    Color,
    /// The tile layout of a figure.
    TileLayout,
    /// The axis links of a figure.
    Links,
    /// The named parameters of a figure.
    Parameters,
    /// The cells occupied by an axes.
    Cell,
    /// The projection of an axes.
    Projection,
    /// The camera view of a three-dimensional axes.
    View3d,
    /// A coordinate axis of an axes.
    Axis,
    /// The scale of a coordinate axis.
    Scale,
    /// A range of data values.
    Limits,
    /// A colormap name.
    ColormapName,
    /// A legend.
    Legend,
    /// The placement of a legend.
    LegendLocation,
    /// How a colour is chosen.
    ColorSpec,
    /// The style of a stroked line.
    LineStyle,
    /// A dash pattern.
    DashStyle,
    /// The style of markers.
    MarkerStyle,
    /// A marker shape.
    MarkerShape,
    /// The size of scatter markers.
    ScatterSize,
    /// The colour of scatter markers.
    ScatterColor,
    /// The grid of a contour or surface.
    Grid,
    /// The levels of a contour.
    Levels,
    /// The placement of a contour in three-dimensional axes.
    ContourPlacement,
    /// The scaling of quiver arrows.
    QuiverScale,
    /// The placement of an image in its axes.
    ImagePlacement,
    /// The centres of the first and last pixels of an image along an axis.
    PixelRange,
    /// The plane of an image.
    ImagePlane,
    /// The policy of an image for pixels it cannot colour.
    OutOfRange,
}

/// A value that a set gives a property whose type holds no floating-point number.
#[derive(Debug, Clone, PartialEq)]
pub enum PlainValue {
    /// No value: an optional property is cleared.
    Unset,
    /// A boolean, such as the visibility of an artist.
    Bool(bool),
    /// An unsigned 32-bit integer, such as a number of rows of the tile layout.
    UInt32(u32),
    /// A string: the source of a text.
    String(String),
    /// A reference to a data array, such as the x data of a line.
    DataId(DataId),
    /// A text, such as a title.
    Text(Text),
    /// How the source of a text is interpreted.
    Interpreter(Interpreter),
    /// A bundled font set.
    FontSetId(FontSetId),
    /// The tile layout of a figure.
    TileLayout(TileLayout),
    /// The axis links of a figure.
    Links(Vec<AxisLink>),
    /// The cells occupied by an axes.
    Cell(Cell),
    /// The scale of a coordinate axis.
    Scale(Scale),
    /// A colormap name.
    ColormapName(ColormapName),
    /// A legend.
    Legend(Legend),
    /// The placement of a legend.
    LegendLocation(LegendLocation),
    /// A dash pattern.
    DashStyle(DashStyle),
    /// A marker shape.
    MarkerShape(MarkerShape),
    /// The grid of a contour or surface.
    Grid(Grid),
}

/// The type of a plain value, or `None` for no value.
pub open spec fn spec_plain_value_type(value: PlainValue) -> Option<ValueType> {
    match value {
        PlainValue::Unset => None,
        PlainValue::Bool(_) => Some(ValueType::Bool),
        PlainValue::UInt32(_) => Some(ValueType::UInt32),
        PlainValue::String(_) => Some(ValueType::String),
        PlainValue::DataId(_) => Some(ValueType::DataId),
        PlainValue::Text(_) => Some(ValueType::Text),
        PlainValue::Interpreter(_) => Some(ValueType::Interpreter),
        PlainValue::FontSetId(_) => Some(ValueType::FontSetId),
        PlainValue::TileLayout(_) => Some(ValueType::TileLayout),
        PlainValue::Links(_) => Some(ValueType::Links),
        PlainValue::Cell(_) => Some(ValueType::Cell),
        PlainValue::Scale(_) => Some(ValueType::Scale),
        PlainValue::ColormapName(_) => Some(ValueType::ColormapName),
        PlainValue::Legend(_) => Some(ValueType::Legend),
        PlainValue::LegendLocation(_) => Some(ValueType::LegendLocation),
        PlainValue::DashStyle(_) => Some(ValueType::DashStyle),
        PlainValue::MarkerShape(_) => Some(ValueType::MarkerShape),
        PlainValue::Grid(_) => Some(ValueType::Grid),
    }
}

impl PlainValue {
    /// Returns the type of the value, or `None` for [`PlainValue::Unset`].
    pub fn value_type(&self) -> (r: Option<ValueType>)
        ensures
            r == spec_plain_value_type(*self),
    {
        match self {
            PlainValue::Unset => None,
            PlainValue::Bool(_) => Some(ValueType::Bool),
            PlainValue::UInt32(_) => Some(ValueType::UInt32),
            PlainValue::String(_) => Some(ValueType::String),
            PlainValue::DataId(_) => Some(ValueType::DataId),
            PlainValue::Text(_) => Some(ValueType::Text),
            PlainValue::Interpreter(_) => Some(ValueType::Interpreter),
            PlainValue::FontSetId(_) => Some(ValueType::FontSetId),
            PlainValue::TileLayout(_) => Some(ValueType::TileLayout),
            PlainValue::Links(_) => Some(ValueType::Links),
            PlainValue::Cell(_) => Some(ValueType::Cell),
            PlainValue::Scale(_) => Some(ValueType::Scale),
            PlainValue::ColormapName(_) => Some(ValueType::ColormapName),
            PlainValue::Legend(_) => Some(ValueType::Legend),
            PlainValue::LegendLocation(_) => Some(ValueType::LegendLocation),
            PlainValue::DashStyle(_) => Some(ValueType::DashStyle),
            PlainValue::MarkerShape(_) => Some(ValueType::MarkerShape),
            PlainValue::Grid(_) => Some(ValueType::Grid),
        }
    }
}


/// An edit that holds no floating-point number: a set of a property to a plain value, a
/// removal or a move of a node, or a removal of a data array.
#[derive(Debug, Clone, PartialEq)]
pub enum PlainEdit {
    /// Sets the property at a path of a node.
    SetProperty { node: NodeId, path: PropertyPath, value: PlainValue },
    /// Removes a node and its descendants.
    Remove { node: NodeId },
    /// Moves a node to a parent, at an index or last.
    Move { node: NodeId, parent: NodeId, index: Option<u32> },
    /// Removes a data array.
    RemoveData { id: DataId },
}

} // verus!
