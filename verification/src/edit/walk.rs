//! The single description of the IR's settable properties, and the walk that lists
//! them.
//!
//! Every settable property of every kind of node is declared exactly once, in the
//! tables of this file. Each declaration names the field as the Protocol Buffers schema
//! names it, gives the type of its value, says whether it may be absent, and documents
//! it. From those declarations the registry that [`properties`] returns is built.
//!
//! [`properties`]: crate::edit::registry::properties

use vstd::prelude::*;

use crate::edit::path::{valid_segment, valid_segments, PropertyPath};
use crate::edit::registry::{NodeKind, Property};
use crate::edit::value::ValueType;

verus! {

/// Why a step of a path walk failed, before it is given the node and the path that make
/// it an error of an edit.
#[derive(Debug, Clone, Copy, PartialEq, Structural)]
pub enum Step {
    /// The path names a field that the value does not have.
    Unknown,
    /// The path descends into a variant that is not the one currently set.
    Inactive,
    /// The path descends through an optional value that is absent.
    Absent,
    /// The path names a property that edits cannot set.
    ReadOnly,
    /// The value is not of the type of the property.
    Type {
        /// The type of the property.
        expected: ValueType,
        /// The type of the value supplied, or `None` for an unset value.
        found: Option<ValueType>,
    },
}

/// The declaration of a settable field: its Protocol Buffers name, the type of its
/// value, whether it may be absent, and its documentation.
#[derive(Clone, Copy)]
pub struct FieldDecl {
    pub name: &'static str,
    pub ty: ValueType,
    pub optional: bool,
    pub docs: &'static str,
}

/// Whether every field name of a table is a valid segment of a property path.
pub open spec fn names_valid(fields: Seq<FieldDecl>) -> bool {
    forall|i: int| 0 <= i < fields.len() ==> valid_segment(#[trigger] fields[i].name@)
}

/// The settable fields of each kind of node, in declaration order.
pub open spec fn spec_node_fields(kind: NodeKind) -> Seq<FieldDecl> {
    match kind {
        NodeKind::Figure => seq![
            FieldDecl { name: "title", ty: ValueType::Text, optional: true, docs: "The title drawn above all axes." },
            FieldDecl { name: "size", ty: ValueType::FigureSize, optional: false, docs: "The physical size of the figure." },
            FieldDecl { name: "font_set", ty: ValueType::FontSetId, optional: false, docs: "The font set used for all text." },
            FieldDecl { name: "font_size_pt", ty: ValueType::Double, optional: false, docs: "The base font size in points; titles and tick labels are scaled from it." },
            FieldDecl { name: "background", ty: ValueType::Color, optional: false, docs: "The colour of the figure background." },
            FieldDecl { name: "layout", ty: ValueType::TileLayout, optional: false, docs: "The grid of cells in which axes are placed." },
            FieldDecl { name: "links", ty: ValueType::Links, optional: false, docs: "The groups of axes whose limits are linked along a dimension." },
            FieldDecl { name: "parameters", ty: ValueType::Parameters, optional: false, docs: "Named values that describe the figure, used to sort, filter and search collections of figures." },
            FieldDecl { name: "labels", ty: ValueType::Strings, optional: false, docs: "Free words that describe the figure, used to filter and group collections of figures." },
        ],
        NodeKind::Axes => seq![
            FieldDecl { name: "cell", ty: ValueType::Cell, optional: false, docs: "The cells of the figure's tile layout that the axes occupies." },
            FieldDecl { name: "projection", ty: ValueType::Projection, optional: false, docs: "Whether the axes is two- or three-dimensional, with its three-dimensional view." },
            FieldDecl { name: "title", ty: ValueType::Text, optional: true, docs: "The title drawn above the axes." },
            FieldDecl { name: "x", ty: ValueType::Axis, optional: false, docs: "The horizontal axis in two dimensions, or the first horizontal axis in three." },
            FieldDecl { name: "y", ty: ValueType::Axis, optional: false, docs: "The vertical axis in two dimensions, or the second horizontal axis in three." },
            FieldDecl { name: "z", ty: ValueType::Axis, optional: false, docs: "The vertical axis in three dimensions; ignored by two-dimensional axes." },
            FieldDecl { name: "box", ty: ValueType::Bool, optional: false, docs: "Whether the full outline of the plot box is drawn, rather than only the edges that carry tick labels." },
            FieldDecl { name: "colormap", ty: ValueType::ColormapName, optional: false, docs: "The colormap used by colormapped artists in this axes." },
            FieldDecl { name: "clim", ty: ValueType::Limits, optional: false, docs: "The data values mapped to the first and last colours of the colormap." },
            FieldDecl { name: "legend", ty: ValueType::Legend, optional: true, docs: "The legend, or absent when no legend is shown." },
        ],
        NodeKind::Line => seq![
            FieldDecl { name: "display_name", ty: ValueType::Text, optional: true, docs: "The name shown for the artist in the legend." },
            FieldDecl { name: "visible", ty: ValueType::Bool, optional: false, docs: "Whether the artist is drawn." },
            FieldDecl { name: "x", ty: ValueType::DataId, optional: false, docs: "The x coordinates of the points." },
            FieldDecl { name: "y", ty: ValueType::DataId, optional: false, docs: "The y coordinates of the points." },
            FieldDecl { name: "z", ty: ValueType::DataId, optional: true, docs: "The z coordinates of the points, allowed only in three-dimensional axes; when absent in three-dimensional axes the points lie in the plane z = 0." },
            FieldDecl { name: "line", ty: ValueType::LineStyle, optional: false, docs: "The style of the line through the points." },
            FieldDecl { name: "marker", ty: ValueType::MarkerStyle, optional: false, docs: "The style of the markers at the points." },
        ],
        NodeKind::Scatter => seq![
            FieldDecl { name: "display_name", ty: ValueType::Text, optional: true, docs: "The name shown for the artist in the legend." },
            FieldDecl { name: "visible", ty: ValueType::Bool, optional: false, docs: "Whether the artist is drawn." },
            FieldDecl { name: "x", ty: ValueType::DataId, optional: false, docs: "The x coordinates of the points." },
            FieldDecl { name: "y", ty: ValueType::DataId, optional: false, docs: "The y coordinates of the points." },
            FieldDecl { name: "z", ty: ValueType::DataId, optional: true, docs: "The z coordinates of the points, allowed only in three-dimensional axes; when absent in three-dimensional axes the points lie in the plane z = 0." },
            FieldDecl { name: "size", ty: ValueType::ScatterSize, optional: false, docs: "The size of the markers, which overrides the size of the marker style." },
            FieldDecl { name: "color", ty: ValueType::ScatterColor, optional: false, docs: "The colour of the markers, applied wherever the marker face or edge is automatic." },
            FieldDecl { name: "marker", ty: ValueType::MarkerStyle, optional: false, docs: "The marker shape and the use of the scatter colour for face and edge." },
        ],
        NodeKind::Contour => seq![
            FieldDecl { name: "display_name", ty: ValueType::Text, optional: true, docs: "The name shown for the artist in the legend." },
            FieldDecl { name: "visible", ty: ValueType::Bool, optional: false, docs: "Whether the artist is drawn." },
            FieldDecl { name: "grid", ty: ValueType::Grid, optional: false, docs: "The grid on which the field is sampled." },
            FieldDecl { name: "z", ty: ValueType::DataId, optional: false, docs: "The field values, a two-dimensional array of shape [ny, nx]." },
            FieldDecl { name: "levels", ty: ValueType::Levels, optional: false, docs: "The field values at which isolines are drawn or between which bands are filled." },
            FieldDecl { name: "fill", ty: ValueType::Bool, optional: false, docs: "Whether the bands between levels are filled rather than only the isolines drawn." },
            FieldDecl { name: "placement", ty: ValueType::ContourPlacement, optional: false, docs: "Where the contours are placed in three-dimensional axes." },
            FieldDecl { name: "line", ty: ValueType::LineStyle, optional: false, docs: "The style of the isolines; a colormapped colour takes each isoline's level." },
        ],
        NodeKind::Quiver => seq![
            FieldDecl { name: "display_name", ty: ValueType::Text, optional: true, docs: "The name shown for the artist in the legend." },
            FieldDecl { name: "visible", ty: ValueType::Bool, optional: false, docs: "Whether the artist is drawn." },
            FieldDecl { name: "x", ty: ValueType::DataId, optional: false, docs: "The x coordinates of the arrow tails." },
            FieldDecl { name: "y", ty: ValueType::DataId, optional: false, docs: "The y coordinates of the arrow tails." },
            FieldDecl { name: "z", ty: ValueType::DataId, optional: true, docs: "The z coordinates of the arrow tails, allowed only in three-dimensional axes; when absent in three-dimensional axes the tails lie in the plane z = 0." },
            FieldDecl { name: "u", ty: ValueType::DataId, optional: false, docs: "The x components of the vectors." },
            FieldDecl { name: "v", ty: ValueType::DataId, optional: false, docs: "The y components of the vectors." },
            FieldDecl { name: "w", ty: ValueType::DataId, optional: true, docs: "The z components of the vectors, allowed only in three-dimensional axes; when absent in three-dimensional axes the vectors lie in horizontal planes." },
            FieldDecl { name: "scale", ty: ValueType::QuiverScale, optional: false, docs: "How vector lengths are scaled into arrow lengths." },
            FieldDecl { name: "line", ty: ValueType::LineStyle, optional: false, docs: "The style of the arrow shafts and heads." },
            FieldDecl { name: "head_size", ty: ValueType::Double, optional: false, docs: "The length of each arrow head as a fraction of its arrow's length." },
        ],
        NodeKind::Surface => seq![
            FieldDecl { name: "display_name", ty: ValueType::Text, optional: true, docs: "The name shown for the artist in the legend." },
            FieldDecl { name: "visible", ty: ValueType::Bool, optional: false, docs: "Whether the artist is drawn." },
            FieldDecl { name: "grid", ty: ValueType::Grid, optional: false, docs: "The grid on which the surface is sampled." },
            FieldDecl { name: "z", ty: ValueType::DataId, optional: false, docs: "The field, a two-dimensional array of shape [ny, nx]: the height of every node in a three-dimensional axes, and the colour data of every node unless c is given." },
            FieldDecl { name: "c", ty: ValueType::DataId, optional: true, docs: "The colour data of every node, with the same shape as the field; when absent the surface is coloured by its field." },
            FieldDecl { name: "face", ty: ValueType::ColorSpec, optional: false, docs: "The colour of the faces." },
            FieldDecl { name: "edge", ty: ValueType::ColorSpec, optional: false, docs: "The colour of the face edges." },
            FieldDecl { name: "edge_width_pt", ty: ValueType::Double, optional: false, docs: "The width of the face edges in points." },
        ],
        NodeKind::Image => seq![
            FieldDecl { name: "display_name", ty: ValueType::Text, optional: true, docs: "The name shown for the artist in the legend." },
            FieldDecl { name: "visible", ty: ValueType::Bool, optional: false, docs: "Whether the artist is drawn." },
            FieldDecl { name: "pixels", ty: ValueType::DataId, optional: false, docs: "The pixels, a three-dimensional array of shape [ny, nx, 3] or [ny, nx, 4] holding the red, green, blue and optionally alpha components of every pixel: floating-point components from 0 to 1, or 8-bit components from 0 to 255." },
            FieldDecl { name: "placement", ty: ValueType::ImagePlacement, optional: false, docs: "Where the pixels lie in the axes." },
        ],
        NodeKind::IndexedImage => seq![
            FieldDecl { name: "display_name", ty: ValueType::Text, optional: true, docs: "The name shown for the artist in the legend." },
            FieldDecl { name: "visible", ty: ValueType::Bool, optional: false, docs: "Whether the artist is drawn." },
            FieldDecl { name: "indices", ty: ValueType::DataId, optional: false, docs: "The indices into the axes colormap, a two-dimensional array of shape [ny, nx]: a floating-point index is truncated toward zero, and an index from 0 to 255 takes that entry of the colormap." },
            FieldDecl { name: "placement", ty: ValueType::ImagePlacement, optional: false, docs: "Where the pixels lie in the axes." },
            FieldDecl { name: "below", ty: ValueType::OutOfRange, optional: false, docs: "What is drawn for a pixel whose truncated index is less than 0." },
            FieldDecl { name: "above", ty: ValueType::OutOfRange, optional: false, docs: "What is drawn for a pixel whose truncated index is greater than 255." },
            FieldDecl { name: "non_finite", ty: ValueType::OutOfRange, optional: false, docs: "What is drawn for a pixel whose index is not finite." },
        ],
        NodeKind::MappedImage => seq![
            FieldDecl { name: "display_name", ty: ValueType::Text, optional: true, docs: "The name shown for the artist in the legend." },
            FieldDecl { name: "visible", ty: ValueType::Bool, optional: false, docs: "Whether the artist is drawn." },
            FieldDecl { name: "values", ty: ValueType::DataId, optional: false, docs: "The values, a two-dimensional array of shape [ny, nx], mapped through the axes colormap and colour limits." },
            FieldDecl { name: "placement", ty: ValueType::ImagePlacement, optional: false, docs: "Where the pixels lie in the axes." },
            FieldDecl { name: "below", ty: ValueType::OutOfRange, optional: false, docs: "What is drawn for a pixel whose value is less than the lower colour limit." },
            FieldDecl { name: "above", ty: ValueType::OutOfRange, optional: false, docs: "What is drawn for a pixel whose value is greater than the upper colour limit." },
            FieldDecl { name: "non_finite", ty: ValueType::OutOfRange, optional: false, docs: "What is drawn for a pixel whose value is not finite." },
        ],
    }
}

/// Returns the settable fields of a kind of node, in declaration order.
pub fn node_fields(kind: NodeKind) -> (fields: Vec<FieldDecl>)
    ensures
        fields@ == spec_node_fields(kind),
{
    match kind {
        NodeKind::Figure => vec![
            FieldDecl { name: "title", ty: ValueType::Text, optional: true, docs: "The title drawn above all axes." },
            FieldDecl { name: "size", ty: ValueType::FigureSize, optional: false, docs: "The physical size of the figure." },
            FieldDecl { name: "font_set", ty: ValueType::FontSetId, optional: false, docs: "The font set used for all text." },
            FieldDecl { name: "font_size_pt", ty: ValueType::Double, optional: false, docs: "The base font size in points; titles and tick labels are scaled from it." },
            FieldDecl { name: "background", ty: ValueType::Color, optional: false, docs: "The colour of the figure background." },
            FieldDecl { name: "layout", ty: ValueType::TileLayout, optional: false, docs: "The grid of cells in which axes are placed." },
            FieldDecl { name: "links", ty: ValueType::Links, optional: false, docs: "The groups of axes whose limits are linked along a dimension." },
            FieldDecl { name: "parameters", ty: ValueType::Parameters, optional: false, docs: "Named values that describe the figure, used to sort, filter and search collections of figures." },
            FieldDecl { name: "labels", ty: ValueType::Strings, optional: false, docs: "Free words that describe the figure, used to filter and group collections of figures." },
        ],
        NodeKind::Axes => vec![
            FieldDecl { name: "cell", ty: ValueType::Cell, optional: false, docs: "The cells of the figure's tile layout that the axes occupies." },
            FieldDecl { name: "projection", ty: ValueType::Projection, optional: false, docs: "Whether the axes is two- or three-dimensional, with its three-dimensional view." },
            FieldDecl { name: "title", ty: ValueType::Text, optional: true, docs: "The title drawn above the axes." },
            FieldDecl { name: "x", ty: ValueType::Axis, optional: false, docs: "The horizontal axis in two dimensions, or the first horizontal axis in three." },
            FieldDecl { name: "y", ty: ValueType::Axis, optional: false, docs: "The vertical axis in two dimensions, or the second horizontal axis in three." },
            FieldDecl { name: "z", ty: ValueType::Axis, optional: false, docs: "The vertical axis in three dimensions; ignored by two-dimensional axes." },
            FieldDecl { name: "box", ty: ValueType::Bool, optional: false, docs: "Whether the full outline of the plot box is drawn, rather than only the edges that carry tick labels." },
            FieldDecl { name: "colormap", ty: ValueType::ColormapName, optional: false, docs: "The colormap used by colormapped artists in this axes." },
            FieldDecl { name: "clim", ty: ValueType::Limits, optional: false, docs: "The data values mapped to the first and last colours of the colormap." },
            FieldDecl { name: "legend", ty: ValueType::Legend, optional: true, docs: "The legend, or absent when no legend is shown." },
        ],
        NodeKind::Line => vec![
            FieldDecl { name: "display_name", ty: ValueType::Text, optional: true, docs: "The name shown for the artist in the legend." },
            FieldDecl { name: "visible", ty: ValueType::Bool, optional: false, docs: "Whether the artist is drawn." },
            FieldDecl { name: "x", ty: ValueType::DataId, optional: false, docs: "The x coordinates of the points." },
            FieldDecl { name: "y", ty: ValueType::DataId, optional: false, docs: "The y coordinates of the points." },
            FieldDecl { name: "z", ty: ValueType::DataId, optional: true, docs: "The z coordinates of the points, allowed only in three-dimensional axes; when absent in three-dimensional axes the points lie in the plane z = 0." },
            FieldDecl { name: "line", ty: ValueType::LineStyle, optional: false, docs: "The style of the line through the points." },
            FieldDecl { name: "marker", ty: ValueType::MarkerStyle, optional: false, docs: "The style of the markers at the points." },
        ],
        NodeKind::Scatter => vec![
            FieldDecl { name: "display_name", ty: ValueType::Text, optional: true, docs: "The name shown for the artist in the legend." },
            FieldDecl { name: "visible", ty: ValueType::Bool, optional: false, docs: "Whether the artist is drawn." },
            FieldDecl { name: "x", ty: ValueType::DataId, optional: false, docs: "The x coordinates of the points." },
            FieldDecl { name: "y", ty: ValueType::DataId, optional: false, docs: "The y coordinates of the points." },
            FieldDecl { name: "z", ty: ValueType::DataId, optional: true, docs: "The z coordinates of the points, allowed only in three-dimensional axes; when absent in three-dimensional axes the points lie in the plane z = 0." },
            FieldDecl { name: "size", ty: ValueType::ScatterSize, optional: false, docs: "The size of the markers, which overrides the size of the marker style." },
            FieldDecl { name: "color", ty: ValueType::ScatterColor, optional: false, docs: "The colour of the markers, applied wherever the marker face or edge is automatic." },
            FieldDecl { name: "marker", ty: ValueType::MarkerStyle, optional: false, docs: "The marker shape and the use of the scatter colour for face and edge." },
        ],
        NodeKind::Contour => vec![
            FieldDecl { name: "display_name", ty: ValueType::Text, optional: true, docs: "The name shown for the artist in the legend." },
            FieldDecl { name: "visible", ty: ValueType::Bool, optional: false, docs: "Whether the artist is drawn." },
            FieldDecl { name: "grid", ty: ValueType::Grid, optional: false, docs: "The grid on which the field is sampled." },
            FieldDecl { name: "z", ty: ValueType::DataId, optional: false, docs: "The field values, a two-dimensional array of shape [ny, nx]." },
            FieldDecl { name: "levels", ty: ValueType::Levels, optional: false, docs: "The field values at which isolines are drawn or between which bands are filled." },
            FieldDecl { name: "fill", ty: ValueType::Bool, optional: false, docs: "Whether the bands between levels are filled rather than only the isolines drawn." },
            FieldDecl { name: "placement", ty: ValueType::ContourPlacement, optional: false, docs: "Where the contours are placed in three-dimensional axes." },
            FieldDecl { name: "line", ty: ValueType::LineStyle, optional: false, docs: "The style of the isolines; a colormapped colour takes each isoline's level." },
        ],
        NodeKind::Quiver => vec![
            FieldDecl { name: "display_name", ty: ValueType::Text, optional: true, docs: "The name shown for the artist in the legend." },
            FieldDecl { name: "visible", ty: ValueType::Bool, optional: false, docs: "Whether the artist is drawn." },
            FieldDecl { name: "x", ty: ValueType::DataId, optional: false, docs: "The x coordinates of the arrow tails." },
            FieldDecl { name: "y", ty: ValueType::DataId, optional: false, docs: "The y coordinates of the arrow tails." },
            FieldDecl { name: "z", ty: ValueType::DataId, optional: true, docs: "The z coordinates of the arrow tails, allowed only in three-dimensional axes; when absent in three-dimensional axes the tails lie in the plane z = 0." },
            FieldDecl { name: "u", ty: ValueType::DataId, optional: false, docs: "The x components of the vectors." },
            FieldDecl { name: "v", ty: ValueType::DataId, optional: false, docs: "The y components of the vectors." },
            FieldDecl { name: "w", ty: ValueType::DataId, optional: true, docs: "The z components of the vectors, allowed only in three-dimensional axes; when absent in three-dimensional axes the vectors lie in horizontal planes." },
            FieldDecl { name: "scale", ty: ValueType::QuiverScale, optional: false, docs: "How vector lengths are scaled into arrow lengths." },
            FieldDecl { name: "line", ty: ValueType::LineStyle, optional: false, docs: "The style of the arrow shafts and heads." },
            FieldDecl { name: "head_size", ty: ValueType::Double, optional: false, docs: "The length of each arrow head as a fraction of its arrow's length." },
        ],
        NodeKind::Surface => vec![
            FieldDecl { name: "display_name", ty: ValueType::Text, optional: true, docs: "The name shown for the artist in the legend." },
            FieldDecl { name: "visible", ty: ValueType::Bool, optional: false, docs: "Whether the artist is drawn." },
            FieldDecl { name: "grid", ty: ValueType::Grid, optional: false, docs: "The grid on which the surface is sampled." },
            FieldDecl { name: "z", ty: ValueType::DataId, optional: false, docs: "The field, a two-dimensional array of shape [ny, nx]: the height of every node in a three-dimensional axes, and the colour data of every node unless c is given." },
            FieldDecl { name: "c", ty: ValueType::DataId, optional: true, docs: "The colour data of every node, with the same shape as the field; when absent the surface is coloured by its field." },
            FieldDecl { name: "face", ty: ValueType::ColorSpec, optional: false, docs: "The colour of the faces." },
            FieldDecl { name: "edge", ty: ValueType::ColorSpec, optional: false, docs: "The colour of the face edges." },
            FieldDecl { name: "edge_width_pt", ty: ValueType::Double, optional: false, docs: "The width of the face edges in points." },
        ],
        NodeKind::Image => vec![
            FieldDecl { name: "display_name", ty: ValueType::Text, optional: true, docs: "The name shown for the artist in the legend." },
            FieldDecl { name: "visible", ty: ValueType::Bool, optional: false, docs: "Whether the artist is drawn." },
            FieldDecl { name: "pixels", ty: ValueType::DataId, optional: false, docs: "The pixels, a three-dimensional array of shape [ny, nx, 3] or [ny, nx, 4] holding the red, green, blue and optionally alpha components of every pixel: floating-point components from 0 to 1, or 8-bit components from 0 to 255." },
            FieldDecl { name: "placement", ty: ValueType::ImagePlacement, optional: false, docs: "Where the pixels lie in the axes." },
        ],
        NodeKind::IndexedImage => vec![
            FieldDecl { name: "display_name", ty: ValueType::Text, optional: true, docs: "The name shown for the artist in the legend." },
            FieldDecl { name: "visible", ty: ValueType::Bool, optional: false, docs: "Whether the artist is drawn." },
            FieldDecl { name: "indices", ty: ValueType::DataId, optional: false, docs: "The indices into the axes colormap, a two-dimensional array of shape [ny, nx]: a floating-point index is truncated toward zero, and an index from 0 to 255 takes that entry of the colormap." },
            FieldDecl { name: "placement", ty: ValueType::ImagePlacement, optional: false, docs: "Where the pixels lie in the axes." },
            FieldDecl { name: "below", ty: ValueType::OutOfRange, optional: false, docs: "What is drawn for a pixel whose truncated index is less than 0." },
            FieldDecl { name: "above", ty: ValueType::OutOfRange, optional: false, docs: "What is drawn for a pixel whose truncated index is greater than 255." },
            FieldDecl { name: "non_finite", ty: ValueType::OutOfRange, optional: false, docs: "What is drawn for a pixel whose index is not finite." },
        ],
        NodeKind::MappedImage => vec![
            FieldDecl { name: "display_name", ty: ValueType::Text, optional: true, docs: "The name shown for the artist in the legend." },
            FieldDecl { name: "visible", ty: ValueType::Bool, optional: false, docs: "Whether the artist is drawn." },
            FieldDecl { name: "values", ty: ValueType::DataId, optional: false, docs: "The values, a two-dimensional array of shape [ny, nx], mapped through the axes colormap and colour limits." },
            FieldDecl { name: "placement", ty: ValueType::ImagePlacement, optional: false, docs: "Where the pixels lie in the axes." },
            FieldDecl { name: "below", ty: ValueType::OutOfRange, optional: false, docs: "What is drawn for a pixel whose value is less than the lower colour limit." },
            FieldDecl { name: "above", ty: ValueType::OutOfRange, optional: false, docs: "What is drawn for a pixel whose value is greater than the upper colour limit." },
            FieldDecl { name: "non_finite", ty: ValueType::OutOfRange, optional: false, docs: "What is drawn for a pixel whose value is not finite." },
        ],
    }
}

/// The fields below a value of each type: the fields of a structure, or the fields of
/// every variant of a tagged value in declaration order; none for a leaf.
pub open spec fn spec_value_fields(ty: ValueType) -> Seq<FieldDecl> {
    match ty {
        ValueType::Text => seq![
            FieldDecl { name: "content", ty: ValueType::String, optional: false, docs: "The source text. With the LaTeX interpreter, segments delimited by $…$ are typeset as mathematics and the remainder as plain text." },
            FieldDecl { name: "interpreter", ty: ValueType::Interpreter, optional: false, docs: "How the source text is interpreted." },
        ],
        ValueType::FigureSize => seq![
            FieldDecl { name: "width_mm", ty: ValueType::Double, optional: false, docs: "The width in millimetres." },
            FieldDecl { name: "height_mm", ty: ValueType::Double, optional: false, docs: "The height in millimetres." },
        ],
        ValueType::Color => seq![
            FieldDecl { name: "r", ty: ValueType::Float, optional: false, docs: "The red component, from 0 to 1." },
            FieldDecl { name: "g", ty: ValueType::Float, optional: false, docs: "The green component, from 0 to 1." },
            FieldDecl { name: "b", ty: ValueType::Float, optional: false, docs: "The blue component, from 0 to 1." },
            FieldDecl { name: "a", ty: ValueType::Float, optional: false, docs: "The opacity, from 0 (transparent) to 1 (opaque)." },
        ],
        ValueType::TileLayout => seq![
            FieldDecl { name: "rows", ty: ValueType::UInt32, optional: false, docs: "The number of rows; at least one." },
            FieldDecl { name: "cols", ty: ValueType::UInt32, optional: false, docs: "The number of columns; at least one." },
        ],
        ValueType::Cell => seq![
            FieldDecl { name: "row", ty: ValueType::UInt32, optional: false, docs: "The zero-based index of the top row occupied." },
            FieldDecl { name: "col", ty: ValueType::UInt32, optional: false, docs: "The zero-based index of the leftmost column occupied." },
            FieldDecl { name: "row_span", ty: ValueType::UInt32, optional: false, docs: "The number of rows occupied; at least one." },
            FieldDecl { name: "col_span", ty: ValueType::UInt32, optional: false, docs: "The number of columns occupied; at least one." },
        ],
        ValueType::Projection => seq![
            FieldDecl { name: "view3d", ty: ValueType::View3d, optional: false, docs: "The camera view." },
        ],
        ValueType::View3d => seq![
            FieldDecl { name: "azimuth_deg", ty: ValueType::Double, optional: false, docs: "The rotation about the vertical axis in degrees, measured counterclockwise from the negative y axis when viewed from above." },
            FieldDecl { name: "elevation_deg", ty: ValueType::Double, optional: false, docs: "The angle of the view direction above the x-y plane in degrees, from -90 to 90." },
            FieldDecl { name: "zoom", ty: ValueType::Double, optional: false, docs: "The magnification of the projected box, where 1 fits the box to the plot area." },
            FieldDecl { name: "pan_x", ty: ValueType::Double, optional: false, docs: "The horizontal offset of the projected box as a fraction of the plot area's width, increasing to the right." },
            FieldDecl { name: "pan_y", ty: ValueType::Double, optional: false, docs: "The vertical offset of the projected box as a fraction of the plot area's height, increasing downwards." },
        ],
        ValueType::Axis => seq![
            FieldDecl { name: "label", ty: ValueType::Text, optional: true, docs: "The axis label." },
            FieldDecl { name: "scale", ty: ValueType::Scale, optional: false, docs: "The mapping from data values to positions along the axis." },
            FieldDecl { name: "limits", ty: ValueType::Limits, optional: false, docs: "The range of data values shown along the axis." },
            FieldDecl { name: "grid", ty: ValueType::Bool, optional: false, docs: "Whether grid lines are drawn at the major ticks of this axis." },
        ],
        ValueType::Limits => seq![
            FieldDecl { name: "min", ty: ValueType::Double, optional: false, docs: "The lower bound of the range." },
            FieldDecl { name: "max", ty: ValueType::Double, optional: false, docs: "The upper bound of the range." },
        ],
        ValueType::Legend => seq![
            FieldDecl { name: "location", ty: ValueType::LegendLocation, optional: false, docs: "Where the legend is placed inside the plot area." },
            FieldDecl { name: "boxed", ty: ValueType::Bool, optional: false, docs: "Whether the legend is drawn with a background and outline." },
        ],
        ValueType::ColorSpec => seq![
            FieldDecl { name: "color", ty: ValueType::Color, optional: false, docs: "The colour to use." },
        ],
        ValueType::LineStyle => seq![
            FieldDecl { name: "color", ty: ValueType::ColorSpec, optional: false, docs: "The line colour." },
            FieldDecl { name: "width_pt", ty: ValueType::Double, optional: false, docs: "The line width in points." },
            FieldDecl { name: "dash", ty: ValueType::DashStyle, optional: false, docs: "The dash pattern of the line." },
        ],
        ValueType::MarkerStyle => seq![
            FieldDecl { name: "shape", ty: ValueType::MarkerShape, optional: false, docs: "The marker shape." },
            FieldDecl { name: "size_pt", ty: ValueType::Double, optional: false, docs: "The marker size in points, measured as the width of the marker." },
            FieldDecl { name: "face", ty: ValueType::ColorSpec, optional: false, docs: "The colour of the marker interior." },
            FieldDecl { name: "edge", ty: ValueType::ColorSpec, optional: false, docs: "The colour of the marker outline." },
        ],
        ValueType::ScatterSize => seq![
            FieldDecl { name: "value", ty: ValueType::Double, optional: false, docs: "The marker size in points, measured as the width of the marker." },
            FieldDecl { name: "data", ty: ValueType::DataId, optional: false, docs: "An array of marker sizes in points, one per point." },
        ],
        ValueType::ScatterColor => seq![
            FieldDecl { name: "spec", ty: ValueType::ColorSpec, optional: false, docs: "The colour of every marker." },
            FieldDecl { name: "data", ty: ValueType::DataId, optional: false, docs: "An array of values, one per point, mapped through the axes colormap and colour limits." },
        ],
        ValueType::Grid => seq![
            FieldDecl { name: "x", ty: ValueType::DataId, optional: false, docs: "The x coordinates of the grid." },
            FieldDecl { name: "y", ty: ValueType::DataId, optional: false, docs: "The y coordinates of the grid." },
            FieldDecl { name: "x", ty: ValueType::DataId, optional: false, docs: "The x coordinates of the grid." },
            FieldDecl { name: "y", ty: ValueType::DataId, optional: false, docs: "The y coordinates of the grid." },
        ],
        ValueType::Levels => seq![
            FieldDecl { name: "count", ty: ValueType::UInt32, optional: false, docs: "The approximate number of levels." },
            FieldDecl { name: "values", ty: ValueType::Doubles, optional: false, docs: "The levels, in ascending order." },
        ],
        ValueType::ContourPlacement => seq![
            FieldDecl { name: "z", ty: ValueType::Double, optional: true, docs: "The height of the plane in three-dimensional axes, or absent for the bottom of the z axis; ignored by two-dimensional axes." },
        ],
        ValueType::QuiverScale => seq![
            FieldDecl { name: "value", ty: ValueType::Double, optional: false, docs: "The multiplier applied to the automatic scale." },
        ],
        ValueType::ImagePlacement => seq![
            FieldDecl { name: "plane", ty: ValueType::ImagePlane, optional: false, docs: "The plane of the axes in which the image lies, with its offset along the third axis." },
            FieldDecl { name: "columns", ty: ValueType::PixelRange, optional: true, docs: "The coordinates of the centres of the first and last columns along the first axis of the plane, or absent for centres at 0 to nx − 1." },
            FieldDecl { name: "rows", ty: ValueType::PixelRange, optional: true, docs: "The coordinates of the centres of the first and last rows along the second axis of the plane, or absent for centres at 0 to ny − 1." },
        ],
        ValueType::PixelRange => seq![
            FieldDecl { name: "first", ty: ValueType::Double, optional: false, docs: "The coordinate of the centre of the first pixel." },
            FieldDecl { name: "last", ty: ValueType::Double, optional: false, docs: "The coordinate of the centre of the last pixel; a last centre before the first mirrors the image." },
        ],
        ValueType::ImagePlane => seq![
            FieldDecl { name: "z", ty: ValueType::Double, optional: true, docs: "The height of the plane in three-dimensional axes, or absent for the bottom of the z axis; ignored by two-dimensional axes." },
            FieldDecl { name: "y", ty: ValueType::Double, optional: true, docs: "The y coordinate of the plane, or absent for the low end of the y axis." },
            FieldDecl { name: "x", ty: ValueType::Double, optional: true, docs: "The x coordinate of the plane, or absent for the low end of the x axis." },
        ],
        ValueType::OutOfRange => seq![
            FieldDecl { name: "color", ty: ValueType::Color, optional: false, docs: "The colour the pixels are drawn in." },
        ],
        _ => seq![],
    }
}

/// Returns the fields below a value of a type.
pub fn value_fields(ty: ValueType) -> (fields: Vec<FieldDecl>)
    ensures
        fields@ == spec_value_fields(ty),
{
    match ty {
        ValueType::Text => vec![
            FieldDecl { name: "content", ty: ValueType::String, optional: false, docs: "The source text. With the LaTeX interpreter, segments delimited by $…$ are typeset as mathematics and the remainder as plain text." },
            FieldDecl { name: "interpreter", ty: ValueType::Interpreter, optional: false, docs: "How the source text is interpreted." },
        ],
        ValueType::FigureSize => vec![
            FieldDecl { name: "width_mm", ty: ValueType::Double, optional: false, docs: "The width in millimetres." },
            FieldDecl { name: "height_mm", ty: ValueType::Double, optional: false, docs: "The height in millimetres." },
        ],
        ValueType::Color => vec![
            FieldDecl { name: "r", ty: ValueType::Float, optional: false, docs: "The red component, from 0 to 1." },
            FieldDecl { name: "g", ty: ValueType::Float, optional: false, docs: "The green component, from 0 to 1." },
            FieldDecl { name: "b", ty: ValueType::Float, optional: false, docs: "The blue component, from 0 to 1." },
            FieldDecl { name: "a", ty: ValueType::Float, optional: false, docs: "The opacity, from 0 (transparent) to 1 (opaque)." },
        ],
        ValueType::TileLayout => vec![
            FieldDecl { name: "rows", ty: ValueType::UInt32, optional: false, docs: "The number of rows; at least one." },
            FieldDecl { name: "cols", ty: ValueType::UInt32, optional: false, docs: "The number of columns; at least one." },
        ],
        ValueType::Cell => vec![
            FieldDecl { name: "row", ty: ValueType::UInt32, optional: false, docs: "The zero-based index of the top row occupied." },
            FieldDecl { name: "col", ty: ValueType::UInt32, optional: false, docs: "The zero-based index of the leftmost column occupied." },
            FieldDecl { name: "row_span", ty: ValueType::UInt32, optional: false, docs: "The number of rows occupied; at least one." },
            FieldDecl { name: "col_span", ty: ValueType::UInt32, optional: false, docs: "The number of columns occupied; at least one." },
        ],
        ValueType::Projection => vec![
            FieldDecl { name: "view3d", ty: ValueType::View3d, optional: false, docs: "The camera view." },
        ],
        ValueType::View3d => vec![
            FieldDecl { name: "azimuth_deg", ty: ValueType::Double, optional: false, docs: "The rotation about the vertical axis in degrees, measured counterclockwise from the negative y axis when viewed from above." },
            FieldDecl { name: "elevation_deg", ty: ValueType::Double, optional: false, docs: "The angle of the view direction above the x-y plane in degrees, from -90 to 90." },
            FieldDecl { name: "zoom", ty: ValueType::Double, optional: false, docs: "The magnification of the projected box, where 1 fits the box to the plot area." },
            FieldDecl { name: "pan_x", ty: ValueType::Double, optional: false, docs: "The horizontal offset of the projected box as a fraction of the plot area's width, increasing to the right." },
            FieldDecl { name: "pan_y", ty: ValueType::Double, optional: false, docs: "The vertical offset of the projected box as a fraction of the plot area's height, increasing downwards." },
        ],
        ValueType::Axis => vec![
            FieldDecl { name: "label", ty: ValueType::Text, optional: true, docs: "The axis label." },
            FieldDecl { name: "scale", ty: ValueType::Scale, optional: false, docs: "The mapping from data values to positions along the axis." },
            FieldDecl { name: "limits", ty: ValueType::Limits, optional: false, docs: "The range of data values shown along the axis." },
            FieldDecl { name: "grid", ty: ValueType::Bool, optional: false, docs: "Whether grid lines are drawn at the major ticks of this axis." },
        ],
        ValueType::Limits => vec![
            FieldDecl { name: "min", ty: ValueType::Double, optional: false, docs: "The lower bound of the range." },
            FieldDecl { name: "max", ty: ValueType::Double, optional: false, docs: "The upper bound of the range." },
        ],
        ValueType::Legend => vec![
            FieldDecl { name: "location", ty: ValueType::LegendLocation, optional: false, docs: "Where the legend is placed inside the plot area." },
            FieldDecl { name: "boxed", ty: ValueType::Bool, optional: false, docs: "Whether the legend is drawn with a background and outline." },
        ],
        ValueType::ColorSpec => vec![
            FieldDecl { name: "color", ty: ValueType::Color, optional: false, docs: "The colour to use." },
        ],
        ValueType::LineStyle => vec![
            FieldDecl { name: "color", ty: ValueType::ColorSpec, optional: false, docs: "The line colour." },
            FieldDecl { name: "width_pt", ty: ValueType::Double, optional: false, docs: "The line width in points." },
            FieldDecl { name: "dash", ty: ValueType::DashStyle, optional: false, docs: "The dash pattern of the line." },
        ],
        ValueType::MarkerStyle => vec![
            FieldDecl { name: "shape", ty: ValueType::MarkerShape, optional: false, docs: "The marker shape." },
            FieldDecl { name: "size_pt", ty: ValueType::Double, optional: false, docs: "The marker size in points, measured as the width of the marker." },
            FieldDecl { name: "face", ty: ValueType::ColorSpec, optional: false, docs: "The colour of the marker interior." },
            FieldDecl { name: "edge", ty: ValueType::ColorSpec, optional: false, docs: "The colour of the marker outline." },
        ],
        ValueType::ScatterSize => vec![
            FieldDecl { name: "value", ty: ValueType::Double, optional: false, docs: "The marker size in points, measured as the width of the marker." },
            FieldDecl { name: "data", ty: ValueType::DataId, optional: false, docs: "An array of marker sizes in points, one per point." },
        ],
        ValueType::ScatterColor => vec![
            FieldDecl { name: "spec", ty: ValueType::ColorSpec, optional: false, docs: "The colour of every marker." },
            FieldDecl { name: "data", ty: ValueType::DataId, optional: false, docs: "An array of values, one per point, mapped through the axes colormap and colour limits." },
        ],
        ValueType::Grid => vec![
            FieldDecl { name: "x", ty: ValueType::DataId, optional: false, docs: "The x coordinates of the grid." },
            FieldDecl { name: "y", ty: ValueType::DataId, optional: false, docs: "The y coordinates of the grid." },
            FieldDecl { name: "x", ty: ValueType::DataId, optional: false, docs: "The x coordinates of the grid." },
            FieldDecl { name: "y", ty: ValueType::DataId, optional: false, docs: "The y coordinates of the grid." },
        ],
        ValueType::Levels => vec![
            FieldDecl { name: "count", ty: ValueType::UInt32, optional: false, docs: "The approximate number of levels." },
            FieldDecl { name: "values", ty: ValueType::Doubles, optional: false, docs: "The levels, in ascending order." },
        ],
        ValueType::ContourPlacement => vec![
            FieldDecl { name: "z", ty: ValueType::Double, optional: true, docs: "The height of the plane in three-dimensional axes, or absent for the bottom of the z axis; ignored by two-dimensional axes." },
        ],
        ValueType::QuiverScale => vec![
            FieldDecl { name: "value", ty: ValueType::Double, optional: false, docs: "The multiplier applied to the automatic scale." },
        ],
        ValueType::ImagePlacement => vec![
            FieldDecl { name: "plane", ty: ValueType::ImagePlane, optional: false, docs: "The plane of the axes in which the image lies, with its offset along the third axis." },
            FieldDecl { name: "columns", ty: ValueType::PixelRange, optional: true, docs: "The coordinates of the centres of the first and last columns along the first axis of the plane, or absent for centres at 0 to nx − 1." },
            FieldDecl { name: "rows", ty: ValueType::PixelRange, optional: true, docs: "The coordinates of the centres of the first and last rows along the second axis of the plane, or absent for centres at 0 to ny − 1." },
        ],
        ValueType::PixelRange => vec![
            FieldDecl { name: "first", ty: ValueType::Double, optional: false, docs: "The coordinate of the centre of the first pixel." },
            FieldDecl { name: "last", ty: ValueType::Double, optional: false, docs: "The coordinate of the centre of the last pixel; a last centre before the first mirrors the image." },
        ],
        ValueType::ImagePlane => vec![
            FieldDecl { name: "z", ty: ValueType::Double, optional: true, docs: "The height of the plane in three-dimensional axes, or absent for the bottom of the z axis; ignored by two-dimensional axes." },
            FieldDecl { name: "y", ty: ValueType::Double, optional: true, docs: "The y coordinate of the plane, or absent for the low end of the y axis." },
            FieldDecl { name: "x", ty: ValueType::Double, optional: true, docs: "The x coordinate of the plane, or absent for the low end of the x axis." },
        ],
        ValueType::OutOfRange => vec![
            FieldDecl { name: "color", ty: ValueType::Color, optional: false, docs: "The colour the pixels are drawn in." },
        ],
        _ => vec![],
    }
}

/// Whether a type is a tagged value, whose fields are reachable only while their
/// variant is set.
pub open spec fn spec_is_tagged(ty: ValueType) -> bool {
    match ty {
        ValueType::Projection | ValueType::Limits | ValueType::ColorSpec | ValueType::Grid | ValueType::Levels | ValueType::ContourPlacement | ValueType::ScatterSize | ValueType::ScatterColor | ValueType::QuiverScale | ValueType::ImagePlane | ValueType::OutOfRange => true,
        _ => false,
    }
}

/// Returns whether a type is a tagged value.
pub fn is_tagged(ty: ValueType) -> (r: bool)
    ensures
        r == spec_is_tagged(ty),
{
    match ty {
        ValueType::Projection | ValueType::Limits | ValueType::ColorSpec | ValueType::Grid | ValueType::Levels | ValueType::ContourPlacement | ValueType::ScatterSize | ValueType::ScatterColor | ValueType::QuiverScale | ValueType::ImagePlane | ValueType::OutOfRange => true,
        _ => false,
    }
}

proof fn lemma_node_names_valid(kind: NodeKind)
    ensures
        names_valid(spec_node_fields(kind)),
{
    reveal_strlit("above");
    reveal_strlit("background");
    reveal_strlit("below");
    reveal_strlit("box");
    reveal_strlit("c");
    reveal_strlit("cell");
    reveal_strlit("clim");
    reveal_strlit("color");
    reveal_strlit("colormap");
    reveal_strlit("display_name");
    reveal_strlit("edge");
    reveal_strlit("edge_width_pt");
    reveal_strlit("face");
    reveal_strlit("fill");
    reveal_strlit("font_set");
    reveal_strlit("font_size_pt");
    reveal_strlit("grid");
    reveal_strlit("head_size");
    reveal_strlit("indices");
    reveal_strlit("labels");
    reveal_strlit("layout");
    reveal_strlit("legend");
    reveal_strlit("levels");
    reveal_strlit("line");
    reveal_strlit("links");
    reveal_strlit("marker");
    reveal_strlit("non_finite");
    reveal_strlit("parameters");
    reveal_strlit("pixels");
    reveal_strlit("placement");
    reveal_strlit("projection");
    reveal_strlit("scale");
    reveal_strlit("size");
    reveal_strlit("title");
    reveal_strlit("u");
    reveal_strlit("v");
    reveal_strlit("values");
    reveal_strlit("visible");
    reveal_strlit("w");
    reveal_strlit("x");
    reveal_strlit("y");
    reveal_strlit("z");
    let s = spec_node_fields(kind);
    assert forall|i: int| 0 <= i < s.len() implies valid_segment(#[trigger] s[i].name@) by {
        match kind {
            NodeKind::Figure => {
                if i == 0 { assert(s[0].name@ == "title"@); }
                if i == 1 { assert(s[1].name@ == "size"@); }
                if i == 2 { assert(s[2].name@ == "font_set"@); }
                if i == 3 { assert(s[3].name@ == "font_size_pt"@); }
                if i == 4 { assert(s[4].name@ == "background"@); }
                if i == 5 { assert(s[5].name@ == "layout"@); }
                if i == 6 { assert(s[6].name@ == "links"@); }
                if i == 7 { assert(s[7].name@ == "parameters"@); }
                if i == 8 { assert(s[8].name@ == "labels"@); }
            },
            NodeKind::Axes => {
                if i == 0 { assert(s[0].name@ == "cell"@); }
                if i == 1 { assert(s[1].name@ == "projection"@); }
                if i == 2 { assert(s[2].name@ == "title"@); }
                if i == 3 { assert(s[3].name@ == "x"@); }
                if i == 4 { assert(s[4].name@ == "y"@); }
                if i == 5 { assert(s[5].name@ == "z"@); }
                if i == 6 { assert(s[6].name@ == "box"@); }
                if i == 7 { assert(s[7].name@ == "colormap"@); }
                if i == 8 { assert(s[8].name@ == "clim"@); }
                if i == 9 { assert(s[9].name@ == "legend"@); }
            },
            NodeKind::Line => {
                if i == 0 { assert(s[0].name@ == "display_name"@); }
                if i == 1 { assert(s[1].name@ == "visible"@); }
                if i == 2 { assert(s[2].name@ == "x"@); }
                if i == 3 { assert(s[3].name@ == "y"@); }
                if i == 4 { assert(s[4].name@ == "z"@); }
                if i == 5 { assert(s[5].name@ == "line"@); }
                if i == 6 { assert(s[6].name@ == "marker"@); }
            },
            NodeKind::Scatter => {
                if i == 0 { assert(s[0].name@ == "display_name"@); }
                if i == 1 { assert(s[1].name@ == "visible"@); }
                if i == 2 { assert(s[2].name@ == "x"@); }
                if i == 3 { assert(s[3].name@ == "y"@); }
                if i == 4 { assert(s[4].name@ == "z"@); }
                if i == 5 { assert(s[5].name@ == "size"@); }
                if i == 6 { assert(s[6].name@ == "color"@); }
                if i == 7 { assert(s[7].name@ == "marker"@); }
            },
            NodeKind::Contour => {
                if i == 0 { assert(s[0].name@ == "display_name"@); }
                if i == 1 { assert(s[1].name@ == "visible"@); }
                if i == 2 { assert(s[2].name@ == "grid"@); }
                if i == 3 { assert(s[3].name@ == "z"@); }
                if i == 4 { assert(s[4].name@ == "levels"@); }
                if i == 5 { assert(s[5].name@ == "fill"@); }
                if i == 6 { assert(s[6].name@ == "placement"@); }
                if i == 7 { assert(s[7].name@ == "line"@); }
            },
            NodeKind::Quiver => {
                if i == 0 { assert(s[0].name@ == "display_name"@); }
                if i == 1 { assert(s[1].name@ == "visible"@); }
                if i == 2 { assert(s[2].name@ == "x"@); }
                if i == 3 { assert(s[3].name@ == "y"@); }
                if i == 4 { assert(s[4].name@ == "z"@); }
                if i == 5 { assert(s[5].name@ == "u"@); }
                if i == 6 { assert(s[6].name@ == "v"@); }
                if i == 7 { assert(s[7].name@ == "w"@); }
                if i == 8 { assert(s[8].name@ == "scale"@); }
                if i == 9 { assert(s[9].name@ == "line"@); }
                if i == 10 { assert(s[10].name@ == "head_size"@); }
            },
            NodeKind::Surface => {
                if i == 0 { assert(s[0].name@ == "display_name"@); }
                if i == 1 { assert(s[1].name@ == "visible"@); }
                if i == 2 { assert(s[2].name@ == "grid"@); }
                if i == 3 { assert(s[3].name@ == "z"@); }
                if i == 4 { assert(s[4].name@ == "c"@); }
                if i == 5 { assert(s[5].name@ == "face"@); }
                if i == 6 { assert(s[6].name@ == "edge"@); }
                if i == 7 { assert(s[7].name@ == "edge_width_pt"@); }
            },
            NodeKind::Image => {
                if i == 0 { assert(s[0].name@ == "display_name"@); }
                if i == 1 { assert(s[1].name@ == "visible"@); }
                if i == 2 { assert(s[2].name@ == "pixels"@); }
                if i == 3 { assert(s[3].name@ == "placement"@); }
            },
            NodeKind::IndexedImage => {
                if i == 0 { assert(s[0].name@ == "display_name"@); }
                if i == 1 { assert(s[1].name@ == "visible"@); }
                if i == 2 { assert(s[2].name@ == "indices"@); }
                if i == 3 { assert(s[3].name@ == "placement"@); }
                if i == 4 { assert(s[4].name@ == "below"@); }
                if i == 5 { assert(s[5].name@ == "above"@); }
                if i == 6 { assert(s[6].name@ == "non_finite"@); }
            },
            NodeKind::MappedImage => {
                if i == 0 { assert(s[0].name@ == "display_name"@); }
                if i == 1 { assert(s[1].name@ == "visible"@); }
                if i == 2 { assert(s[2].name@ == "values"@); }
                if i == 3 { assert(s[3].name@ == "placement"@); }
                if i == 4 { assert(s[4].name@ == "below"@); }
                if i == 5 { assert(s[5].name@ == "above"@); }
                if i == 6 { assert(s[6].name@ == "non_finite"@); }
            },
            _ => {},
        }
    }
}

proof fn lemma_value_names_valid(ty: ValueType)
    ensures
        names_valid(spec_value_fields(ty)),
{
    reveal_strlit("a");
    reveal_strlit("azimuth_deg");
    reveal_strlit("b");
    reveal_strlit("boxed");
    reveal_strlit("col");
    reveal_strlit("col_span");
    reveal_strlit("color");
    reveal_strlit("cols");
    reveal_strlit("columns");
    reveal_strlit("content");
    reveal_strlit("count");
    reveal_strlit("dash");
    reveal_strlit("data");
    reveal_strlit("edge");
    reveal_strlit("elevation_deg");
    reveal_strlit("face");
    reveal_strlit("first");
    reveal_strlit("g");
    reveal_strlit("grid");
    reveal_strlit("height_mm");
    reveal_strlit("interpreter");
    reveal_strlit("label");
    reveal_strlit("last");
    reveal_strlit("limits");
    reveal_strlit("location");
    reveal_strlit("max");
    reveal_strlit("min");
    reveal_strlit("pan_x");
    reveal_strlit("pan_y");
    reveal_strlit("plane");
    reveal_strlit("r");
    reveal_strlit("row");
    reveal_strlit("row_span");
    reveal_strlit("rows");
    reveal_strlit("scale");
    reveal_strlit("shape");
    reveal_strlit("size_pt");
    reveal_strlit("spec");
    reveal_strlit("value");
    reveal_strlit("values");
    reveal_strlit("view3d");
    reveal_strlit("width_mm");
    reveal_strlit("width_pt");
    reveal_strlit("x");
    reveal_strlit("y");
    reveal_strlit("z");
    reveal_strlit("zoom");
    let s = spec_value_fields(ty);
    assert forall|i: int| 0 <= i < s.len() implies valid_segment(#[trigger] s[i].name@) by {
        match ty {
            ValueType::Text => {
                if i == 0 { assert(s[0].name@ == "content"@); }
                if i == 1 { assert(s[1].name@ == "interpreter"@); }
            },
            ValueType::FigureSize => {
                if i == 0 { assert(s[0].name@ == "width_mm"@); }
                if i == 1 { assert(s[1].name@ == "height_mm"@); }
            },
            ValueType::Color => {
                if i == 0 { assert(s[0].name@ == "r"@); }
                if i == 1 { assert(s[1].name@ == "g"@); }
                if i == 2 { assert(s[2].name@ == "b"@); }
                if i == 3 { assert(s[3].name@ == "a"@); }
            },
            ValueType::TileLayout => {
                if i == 0 { assert(s[0].name@ == "rows"@); }
                if i == 1 { assert(s[1].name@ == "cols"@); }
            },
            ValueType::Cell => {
                if i == 0 { assert(s[0].name@ == "row"@); }
                if i == 1 { assert(s[1].name@ == "col"@); }
                if i == 2 { assert(s[2].name@ == "row_span"@); }
                if i == 3 { assert(s[3].name@ == "col_span"@); }
            },
            ValueType::Projection => {
                if i == 0 { assert(s[0].name@ == "view3d"@); }
            },
            ValueType::View3d => {
                if i == 0 { assert(s[0].name@ == "azimuth_deg"@); }
                if i == 1 { assert(s[1].name@ == "elevation_deg"@); }
                if i == 2 { assert(s[2].name@ == "zoom"@); }
                if i == 3 { assert(s[3].name@ == "pan_x"@); }
                if i == 4 { assert(s[4].name@ == "pan_y"@); }
            },
            ValueType::Axis => {
                if i == 0 { assert(s[0].name@ == "label"@); }
                if i == 1 { assert(s[1].name@ == "scale"@); }
                if i == 2 { assert(s[2].name@ == "limits"@); }
                if i == 3 { assert(s[3].name@ == "grid"@); }
            },
            ValueType::Limits => {
                if i == 0 { assert(s[0].name@ == "min"@); }
                if i == 1 { assert(s[1].name@ == "max"@); }
            },
            ValueType::Legend => {
                if i == 0 { assert(s[0].name@ == "location"@); }
                if i == 1 { assert(s[1].name@ == "boxed"@); }
            },
            ValueType::ColorSpec => {
                if i == 0 { assert(s[0].name@ == "color"@); }
            },
            ValueType::LineStyle => {
                if i == 0 { assert(s[0].name@ == "color"@); }
                if i == 1 { assert(s[1].name@ == "width_pt"@); }
                if i == 2 { assert(s[2].name@ == "dash"@); }
            },
            ValueType::MarkerStyle => {
                if i == 0 { assert(s[0].name@ == "shape"@); }
                if i == 1 { assert(s[1].name@ == "size_pt"@); }
                if i == 2 { assert(s[2].name@ == "face"@); }
                if i == 3 { assert(s[3].name@ == "edge"@); }
            },
            ValueType::ScatterSize => {
                if i == 0 { assert(s[0].name@ == "value"@); }
                if i == 1 { assert(s[1].name@ == "data"@); }
            },
            ValueType::ScatterColor => {
                if i == 0 { assert(s[0].name@ == "spec"@); }
                if i == 1 { assert(s[1].name@ == "data"@); }
            },
            ValueType::Grid => {
                if i == 0 { assert(s[0].name@ == "x"@); }
                if i == 1 { assert(s[1].name@ == "y"@); }
                if i == 2 { assert(s[2].name@ == "x"@); }
                if i == 3 { assert(s[3].name@ == "y"@); }
            },
            ValueType::Levels => {
                if i == 0 { assert(s[0].name@ == "count"@); }
                if i == 1 { assert(s[1].name@ == "values"@); }
            },
            ValueType::ContourPlacement => {
                if i == 0 { assert(s[0].name@ == "z"@); }
            },
            ValueType::QuiverScale => {
                if i == 0 { assert(s[0].name@ == "value"@); }
            },
            ValueType::ImagePlacement => {
                if i == 0 { assert(s[0].name@ == "plane"@); }
                if i == 1 { assert(s[1].name@ == "columns"@); }
                if i == 2 { assert(s[2].name@ == "rows"@); }
            },
            ValueType::PixelRange => {
                if i == 0 { assert(s[0].name@ == "first"@); }
                if i == 1 { assert(s[1].name@ == "last"@); }
            },
            ValueType::ImagePlane => {
                if i == 0 { assert(s[0].name@ == "z"@); }
                if i == 1 { assert(s[1].name@ == "y"@); }
                if i == 2 { assert(s[2].name@ == "x"@); }
            },
            ValueType::OutOfRange => {
                if i == 0 { assert(s[0].name@ == "color"@); }
            },
            _ => {},
        }
    }
}

/// How deep the fields below a value of a type reach: zero for a leaf, and one more than
/// the deepest of its fields otherwise.
pub open spec fn value_rank(ty: ValueType) -> nat {
    match ty {
        ValueType::Text | ValueType::FigureSize | ValueType::Color | ValueType::TileLayout | ValueType::Cell | ValueType::View3d | ValueType::Limits | ValueType::Legend | ValueType::ScatterSize | ValueType::Grid | ValueType::Levels | ValueType::ContourPlacement | ValueType::QuiverScale | ValueType::PixelRange | ValueType::ImagePlane => 1,
        ValueType::Projection | ValueType::Axis | ValueType::ColorSpec | ValueType::ImagePlacement | ValueType::OutOfRange => 2,
        ValueType::LineStyle | ValueType::MarkerStyle | ValueType::ScatterColor => 3,
        _ => 0,
    }
}

/// Every field below a value lies less deep than the value itself.
pub proof fn lemma_fields_rank(ty: ValueType)
    ensures
        forall|i: int|
            0 <= i < spec_value_fields(ty).len() ==> value_rank(#[trigger] spec_value_fields(ty)[i].ty) < value_rank(ty),
{
}

/// A property as the registry lists it: its path, the type of its value, whether it is
/// optional, whether it is conditional, and its documentation.
pub type PropertyView = (Seq<Seq<char>>, ValueType, bool, bool, Seq<char>);

pub open spec fn property_view(p: Property) -> PropertyView {
    (p.path@, p.value_type, p.optional, p.conditional, p.docs@)
}

pub open spec fn properties_view(v: Seq<Property>) -> Seq<PropertyView> {
    v.map_values(|p: Property| property_view(p))
}

/// The properties that the first `n` fields below a value of type `ty` add at `prefix`:
/// each field, followed by the properties below it. The fields of a tagged value are
/// conditional; below an optional field everything is conditional.
pub open spec fn described_value(ty: ValueType, n: int, prefix: Seq<Seq<char>>, conditional: bool) -> Seq<PropertyView>
    decreases value_rank(ty), n,
{
    if n <= 0 || n > spec_value_fields(ty).len() {
        seq![]
    } else {
        let f = spec_value_fields(ty)[n - 1];
        let c = if spec_is_tagged(ty) { true } else { conditional };
        let path = prefix.push(f.name@);
        proof {
            lemma_fields_rank(ty);
        }
        described_value(ty, n - 1, prefix, conditional) + seq![(path, f.ty, f.optional, c, f.docs@)]
            + described_value(f.ty, spec_value_fields(f.ty).len() as int, path, c || f.optional)
    }
}

/// The properties that the first `n` fields of a kind of node add, each followed by the
/// properties below it.
pub open spec fn described_node(kind: NodeKind, n: int) -> Seq<PropertyView>
    decreases n,
{
    if n <= 0 || n > spec_node_fields(kind).len() {
        seq![]
    } else {
        let f = spec_node_fields(kind)[n - 1];
        let path = seq![f.name@];
        described_node(kind, n - 1) + seq![(path, f.ty, f.optional, false, f.docs@)]
            + described_value(f.ty, spec_value_fields(f.ty).len() as int, path, f.optional)
    }
}

/// Whether some entry of a list has the given path.
pub open spec fn has_path(s: Seq<PropertyView>, path: Seq<Seq<char>>) -> bool {
    exists|j: int| 0 <= j < s.len() && (#[trigger] s[j]).0 == path
}

/// The entries of a list without those whose path an earlier entry already has.
pub open spec fn first_of_each_path(s: Seq<PropertyView>) -> Seq<PropertyView>
    decreases s.len(),
{
    if s.len() == 0 {
        seq![]
    } else {
        let kept = first_of_each_path(s.drop_last());
        if has_path(kept, s.last().0) {
            kept
        } else {
            kept.push(s.last())
        }
    }
}

/// Every settable property of a kind of node: the fields of the node in declaration
/// order, each followed by the properties below it, with each path listed once.
pub open spec fn spec_properties(kind: NodeKind) -> Seq<PropertyView> {
    first_of_each_path(described_node(kind, spec_node_fields(kind).len() as int))
}

pub open spec fn segment_views(prefix: Seq<&'static str>) -> Seq<Seq<char>> {
    prefix.map_values(|s: &'static str| s@)
}

/// Appends to `out` the properties below a value of type `ty` at `prefix`.
fn describe_value(ty: ValueType, prefix: &mut Vec<&'static str>, conditional: bool, out: &mut Vec<Property>)
    requires
        forall|i: int| 0 <= i < old(prefix)@.len() ==> valid_segment(#[trigger] old(prefix)@[i]@),
    ensures
        final(prefix)@ == old(prefix)@,
        properties_view(final(out)@) == properties_view(old(out)@) + described_value(
            ty,
            spec_value_fields(ty).len() as int,
            segment_views(old(prefix)@),
            conditional,
        ),
    decreases value_rank(ty),
{
    let ghost start = out@;
    let ghost pre = prefix@;
    let fields = value_fields(ty);
    let field_conditional = if is_tagged(ty) { true } else { conditional };
    proof {
        lemma_fields_rank(ty);
        lemma_value_names_valid(ty);
    }
    let mut i: usize = 0;
    while i < fields.len()
        invariant
            i <= fields@.len(),
            fields@ == spec_value_fields(ty),
            prefix@ == pre,
            names_valid(fields@),
            forall|k: int| 0 <= k < pre.len() ==> valid_segment(#[trigger] pre[k]@),
            forall|k: int| 0 <= k < fields@.len() ==> value_rank(#[trigger] fields@[k].ty) < value_rank(ty),
            field_conditional == (if spec_is_tagged(ty) { true } else { conditional }),
            properties_view(out@) == properties_view(start) + described_value(ty, i as int, segment_views(pre), conditional),
        decreases fields.len() - i,
    {
        let f = fields[i];
        prefix.push(f.name);
        assert(segment_views(prefix@) =~= segment_views(pre).push(f.name@));
        assert(valid_segment(fields@[i as int].name@));
        let path = PropertyPath::of(prefix);
        let ghost before = out@;
        out.push(Property { path, value_type: f.ty, optional: f.optional, conditional: field_conditional, docs: f.docs });
        assert(properties_view(out@) =~= properties_view(before).push(property_view(out@.last())));
        let ghost middle = out@;
        describe_value(f.ty, prefix, field_conditional || f.optional, out);
        prefix.pop();
        assert(prefix@ =~= pre);
        proof {
            let path = segment_views(pre).push(f.name@);
            assert(described_value(ty, i + 1, segment_views(pre), conditional) == described_value(ty, i as int, segment_views(pre), conditional)
                + seq![(path, f.ty, f.optional, field_conditional, f.docs@)]
                + described_value(f.ty, spec_value_fields(f.ty).len() as int, path, field_conditional || f.optional));
            assert(properties_view(out@) =~= properties_view(start) + described_value(ty, i + 1, segment_views(pre), conditional));
        }
        i = i + 1;
    }
}

/// Returns every property of a kind of node in declaration order, before the paths
/// that several variants share are listed once.
fn describe_node(kind: NodeKind) -> (out: Vec<Property>)
    ensures
        properties_view(out@) == described_node(kind, spec_node_fields(kind).len() as int),
{
    let fields = node_fields(kind);
    let mut out: Vec<Property> = Vec::new();
    let mut prefix: Vec<&'static str> = Vec::new();
    proof {
        lemma_node_names_valid(kind);
    }
    let mut i: usize = 0;
    while i < fields.len()
        invariant
            i <= fields@.len(),
            fields@ == spec_node_fields(kind),
            prefix@ == Seq::<&'static str>::empty(),
            names_valid(fields@),
            properties_view(out@) == described_node(kind, i as int),
        decreases fields.len() - i,
    {
        let f = fields[i];
        prefix.push(f.name);
        assert(segment_views(prefix@) =~= seq![f.name@]);
        assert(valid_segment(fields@[i as int].name@));
        let path = PropertyPath::of(&prefix);
        let ghost before = out@;
        out.push(Property { path, value_type: f.ty, optional: f.optional, conditional: false, docs: f.docs });
        assert(properties_view(out@) =~= properties_view(before).push(property_view(out@.last())));
        describe_value(f.ty, &mut prefix, f.optional, &mut out);
        prefix.pop();
        assert(prefix@ =~= Seq::<&'static str>::empty());
        assert(properties_view(out@) =~= described_node(kind, i + 1));
        i = i + 1;
    }
    out
}

/// Returns every settable property of a kind of node, in declaration order, without the
/// paths that several variants of a tagged value share more than once.
pub fn node_properties(kind: NodeKind) -> (r: Vec<Property>)
    ensures
        properties_view(r@) == spec_properties(kind),
{
    let all = describe_node(kind);
    let ghost full = properties_view(all@);
    let mut kept: Vec<Property> = Vec::new();
    let mut i: usize = 0;
    while i < all.len()
        invariant
            i <= all@.len(),
            full == properties_view(all@),
            properties_view(kept@) == first_of_each_path(full.take(i as int)),
        decreases all.len() - i,
    {
        let mut seen = false;
        let mut j: usize = 0;
        while j < kept.len()
            invariant
                j <= kept@.len(),
                i < all@.len(),
                seen <==> exists|k: int| 0 <= k < j && kept@[k].path@ == all@[i as int].path@,
            decreases kept.len() - j,
        {
            if kept[j].path == all[i].path {
                seen = true;
            }
            j = j + 1;
        }
        let ghost prev = kept@;
        assert(full.take(i + 1).drop_last() =~= full.take(i as int));
        assert(full.take(i + 1).last() == property_view(all@[i as int]));
        if seen {
            proof {
                let k = choose|k: int| 0 <= k < kept@.len() && kept@[k].path@ == all@[i as int].path@;
                assert(properties_view(kept@)[k].0 == all@[i as int].path@);
            }
        } else {
            assert(!has_path(properties_view(kept@), all@[i as int].path@)) by {
                if has_path(properties_view(kept@), all@[i as int].path@) {
                    let k = choose|k: int| 0 <= k < properties_view(kept@).len() && (#[trigger] properties_view(kept@)[k]).0 == all@[i as int].path@;
                    assert(kept@[k].path@ == all@[i as int].path@);
                }
            }
            kept.push(all[i].clone());
            assert(properties_view(kept@) =~= properties_view(prev).push(property_view(all@[i as int])));
        }
        i = i + 1;
    }
    assert(full.take(i as int) =~= full);
    kept
}

/// Returns the failure of a path segment that no variant of a tagged value has
/// ([`Step::Unknown`]), or that belongs to a variant other than the one currently set
/// ([`Step::Inactive`]).
pub fn inactive_or_unknown(head: &str, fields: &[&str]) -> (r: Step)
    ensures
        r == (if exists|i: int| 0 <= i < fields@.len() && (#[trigger] fields@[i])@ == head@ {
            Step::Inactive
        } else {
            Step::Unknown
        }),
{
    let mut i: usize = 0;
    while i < fields.len()
        invariant
            i <= fields@.len(),
            forall|k: int| 0 <= k < i ==> (#[trigger] fields@[k])@ != head@,
        decreases fields.len() - i,
    {
        if crate::textfmt::str_eq(fields[i], head) {
            return Step::Inactive;
        }
        i = i + 1;
    }
    Step::Unknown
}


/// Whether a name is that of a part of a node that no set reaches: its identifier, the
/// schema version, the provenance, the data table, or a list of nodes.
pub open spec fn unsettable_name(s: Seq<char>) -> bool {
    s == "id"@ || s == "schema_version"@ || s == "provenance"@ || s == "data"@ || s == "axes"@ || s == "artists"@
}

/// No field of a node is a part that no set reaches.
proof fn lemma_node_fields_settable(kind: NodeKind)
    ensures
        forall|i: int| 0 <= i < spec_node_fields(kind).len() ==> !unsettable_name(#[trigger] spec_node_fields(kind)[i].name@),
{
    assert forall|i: int| 0 <= i < spec_node_fields(kind).len() implies !unsettable_name(#[trigger] spec_node_fields(kind)[i].name@) by {
        reveal_strlit("above");
        reveal_strlit("background");
        reveal_strlit("below");
        reveal_strlit("box");
        reveal_strlit("c");
        reveal_strlit("cell");
        reveal_strlit("clim");
        reveal_strlit("color");
        reveal_strlit("colormap");
        reveal_strlit("display_name");
        reveal_strlit("edge");
        reveal_strlit("edge_width_pt");
        reveal_strlit("face");
        reveal_strlit("fill");
        reveal_strlit("font_set");
        reveal_strlit("font_size_pt");
        reveal_strlit("grid");
        reveal_strlit("head_size");
        reveal_strlit("indices");
        reveal_strlit("labels");
        reveal_strlit("layout");
        reveal_strlit("legend");
        reveal_strlit("levels");
        reveal_strlit("line");
        reveal_strlit("links");
        reveal_strlit("marker");
        reveal_strlit("non_finite");
        reveal_strlit("parameters");
        reveal_strlit("pixels");
        reveal_strlit("placement");
        reveal_strlit("projection");
        reveal_strlit("scale");
        reveal_strlit("size");
        reveal_strlit("title");
        reveal_strlit("u");
        reveal_strlit("v");
        reveal_strlit("values");
        reveal_strlit("visible");
        reveal_strlit("w");
        reveal_strlit("x");
        reveal_strlit("y");
        reveal_strlit("z");
        reveal_strlit("id");
        reveal_strlit("schema_version");
        reveal_strlit("provenance");
        reveal_strlit("data");
        reveal_strlit("axes");
        reveal_strlit("artists");
        assert("above"@.len() == 5 && "above"@[0] == 'a' && "above"@[1] == 'b' && "above"@[3] == 'v');
        assert("background"@.len() == 10 && "background"@[0] == 'b' && "background"@[1] == 'a' && "background"@[3] == 'k');
        assert("below"@.len() == 5 && "below"@[0] == 'b' && "below"@[1] == 'e' && "below"@[3] == 'o');
        assert("box"@.len() == 3 && "box"@[0] == 'b' && "box"@[1] == 'o');
        assert("c"@.len() == 1 && "c"@[0] == 'c');
        assert("cell"@.len() == 4 && "cell"@[0] == 'c' && "cell"@[1] == 'e' && "cell"@[3] == 'l');
        assert("clim"@.len() == 4 && "clim"@[0] == 'c' && "clim"@[1] == 'l' && "clim"@[3] == 'm');
        assert("color"@.len() == 5 && "color"@[0] == 'c' && "color"@[1] == 'o' && "color"@[3] == 'o');
        assert("colormap"@.len() == 8 && "colormap"@[0] == 'c' && "colormap"@[1] == 'o' && "colormap"@[3] == 'o');
        assert("display_name"@.len() == 12 && "display_name"@[0] == 'd' && "display_name"@[1] == 'i' && "display_name"@[3] == 'p');
        assert("edge"@.len() == 4 && "edge"@[0] == 'e' && "edge"@[1] == 'd' && "edge"@[3] == 'e');
        assert("edge_width_pt"@.len() == 13 && "edge_width_pt"@[0] == 'e' && "edge_width_pt"@[1] == 'd' && "edge_width_pt"@[3] == 'e');
        assert("face"@.len() == 4 && "face"@[0] == 'f' && "face"@[1] == 'a' && "face"@[3] == 'e');
        assert("fill"@.len() == 4 && "fill"@[0] == 'f' && "fill"@[1] == 'i' && "fill"@[3] == 'l');
        assert("font_set"@.len() == 8 && "font_set"@[0] == 'f' && "font_set"@[1] == 'o' && "font_set"@[3] == 't');
        assert("font_size_pt"@.len() == 12 && "font_size_pt"@[0] == 'f' && "font_size_pt"@[1] == 'o' && "font_size_pt"@[3] == 't');
        assert("grid"@.len() == 4 && "grid"@[0] == 'g' && "grid"@[1] == 'r' && "grid"@[3] == 'd');
        assert("head_size"@.len() == 9 && "head_size"@[0] == 'h' && "head_size"@[1] == 'e' && "head_size"@[3] == 'd');
        assert("indices"@.len() == 7 && "indices"@[0] == 'i' && "indices"@[1] == 'n' && "indices"@[3] == 'i');
        assert("labels"@.len() == 6 && "labels"@[0] == 'l' && "labels"@[1] == 'a' && "labels"@[3] == 'e');
        assert("layout"@.len() == 6 && "layout"@[0] == 'l' && "layout"@[1] == 'a' && "layout"@[3] == 'o');
        assert("legend"@.len() == 6 && "legend"@[0] == 'l' && "legend"@[1] == 'e' && "legend"@[3] == 'e');
        assert("levels"@.len() == 6 && "levels"@[0] == 'l' && "levels"@[1] == 'e' && "levels"@[3] == 'e');
        assert("line"@.len() == 4 && "line"@[0] == 'l' && "line"@[1] == 'i' && "line"@[3] == 'e');
        assert("links"@.len() == 5 && "links"@[0] == 'l' && "links"@[1] == 'i' && "links"@[3] == 'k');
        assert("marker"@.len() == 6 && "marker"@[0] == 'm' && "marker"@[1] == 'a' && "marker"@[3] == 'k');
        assert("non_finite"@.len() == 10 && "non_finite"@[0] == 'n' && "non_finite"@[1] == 'o' && "non_finite"@[3] == '_');
        assert("parameters"@.len() == 10 && "parameters"@[0] == 'p' && "parameters"@[1] == 'a' && "parameters"@[3] == 'a');
        assert("pixels"@.len() == 6 && "pixels"@[0] == 'p' && "pixels"@[1] == 'i' && "pixels"@[3] == 'e');
        assert("placement"@.len() == 9 && "placement"@[0] == 'p' && "placement"@[1] == 'l' && "placement"@[3] == 'c');
        assert("projection"@.len() == 10 && "projection"@[0] == 'p' && "projection"@[1] == 'r' && "projection"@[3] == 'j');
        assert("scale"@.len() == 5 && "scale"@[0] == 's' && "scale"@[1] == 'c' && "scale"@[3] == 'l');
        assert("size"@.len() == 4 && "size"@[0] == 's' && "size"@[1] == 'i' && "size"@[3] == 'e');
        assert("title"@.len() == 5 && "title"@[0] == 't' && "title"@[1] == 'i' && "title"@[3] == 'l');
        assert("u"@.len() == 1 && "u"@[0] == 'u');
        assert("v"@.len() == 1 && "v"@[0] == 'v');
        assert("values"@.len() == 6 && "values"@[0] == 'v' && "values"@[1] == 'a' && "values"@[3] == 'u');
        assert("visible"@.len() == 7 && "visible"@[0] == 'v' && "visible"@[1] == 'i' && "visible"@[3] == 'i');
        assert("w"@.len() == 1 && "w"@[0] == 'w');
        assert("x"@.len() == 1 && "x"@[0] == 'x');
        assert("y"@.len() == 1 && "y"@[0] == 'y');
        assert("z"@.len() == 1 && "z"@[0] == 'z');
        assert("id"@.len() == 2 && "id"@[0] == 'i' && "id"@[1] == 'd');
        assert("schema_version"@.len() == 14 && "schema_version"@[0] == 's' && "schema_version"@[1] == 'c' && "schema_version"@[3] == 'e');
        assert("provenance"@.len() == 10 && "provenance"@[0] == 'p' && "provenance"@[1] == 'r' && "provenance"@[3] == 'v');
        assert("data"@.len() == 4 && "data"@[0] == 'd' && "data"@[1] == 'a' && "data"@[3] == 'a');
        assert("axes"@.len() == 4 && "axes"@[0] == 'a' && "axes"@[1] == 'x' && "axes"@[3] == 's');
        assert("artists"@.len() == 7 && "artists"@[0] == 'a' && "artists"@[1] == 'r' && "artists"@[3] == 'i');
    }
}

/// Every property below a value at a non-empty prefix has a longer path with the same
/// first segment.
proof fn lemma_described_value_prefix(ty: ValueType, n: int, prefix: Seq<Seq<char>>, conditional: bool)
    requires
        prefix.len() > 0,
    ensures
        forall|k: int| 0 <= k < described_value(ty, n, prefix, conditional).len() ==> {
            let path = (#[trigger] described_value(ty, n, prefix, conditional)[k]).0;
            path.len() > 0 && path[0] == prefix[0]
        },
    decreases value_rank(ty), n,
{
    if n <= 0 || n > spec_value_fields(ty).len() {
    } else {
        let f = spec_value_fields(ty)[n - 1];
        let c = if spec_is_tagged(ty) { true } else { conditional };
        let path = prefix.push(f.name@);
        lemma_fields_rank(ty);
        lemma_described_value_prefix(ty, n - 1, prefix, conditional);
        lemma_described_value_prefix(f.ty, spec_value_fields(f.ty).len() as int, path, c || f.optional);
        let a = described_value(ty, n - 1, prefix, conditional);
        let b = seq![(path, f.ty, f.optional, c, f.docs@)];
        let d = described_value(f.ty, spec_value_fields(f.ty).len() as int, path, c || f.optional);
        assert(described_value(ty, n, prefix, conditional) == a + b + d);
        assert forall|k: int| 0 <= k < (a + b + d).len() implies {
            let q = (#[trigger] (a + b + d)[k]).0;
            q.len() > 0 && q[0] == prefix[0]
        } by {
            if k < a.len() {
                assert((a + b + d)[k] == a[k]);
            } else if k < a.len() + 1 {
                assert((a + b + d)[k] == b[0]);
            } else {
                assert((a + b + d)[k] == d[k - a.len() - 1]);
            }
        }
    }
}

/// Every property that the first `n` fields of a node add has a path whose first
/// segment is the name of one of those fields.
proof fn lemma_described_node_first(kind: NodeKind, n: int)
    ensures
        forall|k: int| 0 <= k < described_node(kind, n).len() ==> {
            let path = (#[trigger] described_node(kind, n)[k]).0;
            path.len() > 0 && exists|i: int| 0 <= i < spec_node_fields(kind).len() && path[0] == (#[trigger] spec_node_fields(kind)[i]).name@
        },
    decreases n,
{
    if n <= 0 || n > spec_node_fields(kind).len() {
    } else {
        let f = spec_node_fields(kind)[n - 1];
        let path = seq![f.name@];
        lemma_described_node_first(kind, n - 1);
        lemma_described_value_prefix(f.ty, spec_value_fields(f.ty).len() as int, path, f.optional);
        let a = described_node(kind, n - 1);
        let b = seq![(path, f.ty, f.optional, false, f.docs@)];
        let d = described_value(f.ty, spec_value_fields(f.ty).len() as int, path, f.optional);
        assert(described_node(kind, n) == a + b + d);
        assert forall|k: int| 0 <= k < (a + b + d).len() implies {
            let q = (#[trigger] (a + b + d)[k]).0;
            q.len() > 0 && exists|i: int| 0 <= i < spec_node_fields(kind).len() && q[0] == (#[trigger] spec_node_fields(kind)[i]).name@
        } by {
            if k < a.len() {
                assert((a + b + d)[k] == a[k]);
            } else if k < a.len() + 1 {
                assert((a + b + d)[k] == b[0]);
                assert(spec_node_fields(kind)[n - 1] == f);
            } else {
                assert((a + b + d)[k] == d[k - a.len() - 1]);
                assert(spec_node_fields(kind)[n - 1] == f);
            }
        }
    }
}

/// Every entry that keeping the first of each path keeps is an entry of the list.
proof fn lemma_first_of_each_path_within(s: Seq<PropertyView>)
    ensures
        forall|k: int| 0 <= k < first_of_each_path(s).len() ==> exists|j: int| 0 <= j < s.len() && s[j] == #[trigger] first_of_each_path(s)[k],
    decreases s.len(),
{
    if s.len() > 0 {
        lemma_first_of_each_path_within(s.drop_last());
        let kept = first_of_each_path(s.drop_last());
        assert forall|k: int| 0 <= k < first_of_each_path(s).len() implies exists|j: int| 0 <= j < s.len() && s[j] == #[trigger] first_of_each_path(s)[k] by {
            if k < kept.len() {
                assert(first_of_each_path(s)[k] == kept[k]);
                let j = choose|j: int| 0 <= j < s.drop_last().len() && s.drop_last()[j] == kept[k];
                assert(s[j] == s.drop_last()[j]);
            } else {
                assert(first_of_each_path(s)[k] == s.last());
                assert(s[s.len() - 1] == s.last());
            }
        }
    }
}

/// The registry lists no path into a part of a node that no set reaches: no listed path
/// starts at the node's identifier, schema version, provenance, data table or list of
/// nodes.
pub proof fn law_registry_omits_unsettable(kind: NodeKind)
    ensures
        forall|k: int| 0 <= k < spec_properties(kind).len() ==> {
            let path = (#[trigger] spec_properties(kind)[k]).0;
            path.len() > 0 && !unsettable_name(path[0])
        },
{
    let all = described_node(kind, spec_node_fields(kind).len() as int);
    lemma_described_node_first(kind, spec_node_fields(kind).len() as int);
    lemma_first_of_each_path_within(all);
    lemma_node_fields_settable(kind);
    assert forall|k: int| 0 <= k < spec_properties(kind).len() implies {
        let path = (#[trigger] spec_properties(kind)[k]).0;
        path.len() > 0 && !unsettable_name(path[0])
    } by {
        let j = choose|j: int| 0 <= j < all.len() && all[j] == first_of_each_path(all)[k];
        assert(all[j].0.len() > 0);
        let i = choose|i: int| 0 <= i < spec_node_fields(kind).len() && all[j].0[0] == (#[trigger] spec_node_fields(kind)[i]).name@;
        assert(!unsettable_name(spec_node_fields(kind)[i].name@));
    }
}


/// Whether a field of a kind of node may be absent: the title of a figure or of an axes,
/// the legend of an axes, the display name of an artist, the z data of a line, a scatter
/// or a quiver, the w data of a quiver, and the colour data of a surface.
pub open spec fn field_may_be_absent(kind: NodeKind, name: Seq<char>) -> bool {
    match kind {
        NodeKind::Figure => name == "title"@,
        NodeKind::Axes => name == "title"@ || name == "legend"@,
        NodeKind::Line | NodeKind::Scatter => name == "display_name"@ || name == "z"@,
        NodeKind::Quiver => name == "display_name"@ || name == "z"@ || name == "w"@,
        NodeKind::Surface => name == "display_name"@ || name == "c"@,
        NodeKind::Contour | NodeKind::Image | NodeKind::IndexedImage | NodeKind::MappedImage => name == "display_name"@,
    }
}

/// A field of a node is declared optional exactly when it may be absent.
proof fn lemma_optional_fields(kind: NodeKind)
    ensures
        forall|i: int| 0 <= i < spec_node_fields(kind).len() ==> (#[trigger] spec_node_fields(kind)[i]).optional
            == field_may_be_absent(kind, spec_node_fields(kind)[i].name@),
{
    assert forall|i: int| 0 <= i < spec_node_fields(kind).len() implies (#[trigger] spec_node_fields(kind)[i]).optional
        == field_may_be_absent(kind, spec_node_fields(kind)[i].name@) by {
        reveal_strlit("above");
        reveal_strlit("background");
        reveal_strlit("below");
        reveal_strlit("box");
        reveal_strlit("c");
        reveal_strlit("cell");
        reveal_strlit("clim");
        reveal_strlit("color");
        reveal_strlit("colormap");
        reveal_strlit("display_name");
        reveal_strlit("edge");
        reveal_strlit("edge_width_pt");
        reveal_strlit("face");
        reveal_strlit("fill");
        reveal_strlit("font_set");
        reveal_strlit("font_size_pt");
        reveal_strlit("grid");
        reveal_strlit("head_size");
        reveal_strlit("indices");
        reveal_strlit("labels");
        reveal_strlit("layout");
        reveal_strlit("legend");
        reveal_strlit("levels");
        reveal_strlit("line");
        reveal_strlit("links");
        reveal_strlit("marker");
        reveal_strlit("non_finite");
        reveal_strlit("parameters");
        reveal_strlit("pixels");
        reveal_strlit("placement");
        reveal_strlit("projection");
        reveal_strlit("scale");
        reveal_strlit("size");
        reveal_strlit("title");
        reveal_strlit("u");
        reveal_strlit("v");
        reveal_strlit("values");
        reveal_strlit("visible");
        reveal_strlit("w");
        reveal_strlit("x");
        reveal_strlit("y");
        reveal_strlit("z");
        assert("above"@.len() == 5 && "above"@[0] == 'a' && "above"@[1] == 'b' && "above"@[2] == 'o');
        assert("background"@.len() == 10 && "background"@[0] == 'b' && "background"@[1] == 'a' && "background"@[2] == 'c');
        assert("below"@.len() == 5 && "below"@[0] == 'b' && "below"@[1] == 'e' && "below"@[2] == 'l');
        assert("box"@.len() == 3 && "box"@[0] == 'b' && "box"@[1] == 'o' && "box"@[2] == 'x');
        assert("c"@.len() == 1 && "c"@[0] == 'c');
        assert("cell"@.len() == 4 && "cell"@[0] == 'c' && "cell"@[1] == 'e' && "cell"@[2] == 'l');
        assert("clim"@.len() == 4 && "clim"@[0] == 'c' && "clim"@[1] == 'l' && "clim"@[2] == 'i');
        assert("color"@.len() == 5 && "color"@[0] == 'c' && "color"@[1] == 'o' && "color"@[2] == 'l');
        assert("colormap"@.len() == 8 && "colormap"@[0] == 'c' && "colormap"@[1] == 'o' && "colormap"@[2] == 'l');
        assert("display_name"@.len() == 12 && "display_name"@[0] == 'd' && "display_name"@[1] == 'i' && "display_name"@[2] == 's');
        assert("edge"@.len() == 4 && "edge"@[0] == 'e' && "edge"@[1] == 'd' && "edge"@[2] == 'g');
        assert("edge_width_pt"@.len() == 13 && "edge_width_pt"@[0] == 'e' && "edge_width_pt"@[1] == 'd' && "edge_width_pt"@[2] == 'g');
        assert("face"@.len() == 4 && "face"@[0] == 'f' && "face"@[1] == 'a' && "face"@[2] == 'c');
        assert("fill"@.len() == 4 && "fill"@[0] == 'f' && "fill"@[1] == 'i' && "fill"@[2] == 'l');
        assert("font_set"@.len() == 8 && "font_set"@[0] == 'f' && "font_set"@[1] == 'o' && "font_set"@[2] == 'n');
        assert("font_size_pt"@.len() == 12 && "font_size_pt"@[0] == 'f' && "font_size_pt"@[1] == 'o' && "font_size_pt"@[2] == 'n');
        assert("grid"@.len() == 4 && "grid"@[0] == 'g' && "grid"@[1] == 'r' && "grid"@[2] == 'i');
        assert("head_size"@.len() == 9 && "head_size"@[0] == 'h' && "head_size"@[1] == 'e' && "head_size"@[2] == 'a');
        assert("indices"@.len() == 7 && "indices"@[0] == 'i' && "indices"@[1] == 'n' && "indices"@[2] == 'd');
        assert("labels"@.len() == 6 && "labels"@[0] == 'l' && "labels"@[1] == 'a' && "labels"@[2] == 'b');
        assert("layout"@.len() == 6 && "layout"@[0] == 'l' && "layout"@[1] == 'a' && "layout"@[2] == 'y');
        assert("legend"@.len() == 6 && "legend"@[0] == 'l' && "legend"@[1] == 'e' && "legend"@[2] == 'g');
        assert("levels"@.len() == 6 && "levels"@[0] == 'l' && "levels"@[1] == 'e' && "levels"@[2] == 'v');
        assert("line"@.len() == 4 && "line"@[0] == 'l' && "line"@[1] == 'i' && "line"@[2] == 'n');
        assert("links"@.len() == 5 && "links"@[0] == 'l' && "links"@[1] == 'i' && "links"@[2] == 'n');
        assert("marker"@.len() == 6 && "marker"@[0] == 'm' && "marker"@[1] == 'a' && "marker"@[2] == 'r');
        assert("non_finite"@.len() == 10 && "non_finite"@[0] == 'n' && "non_finite"@[1] == 'o' && "non_finite"@[2] == 'n');
        assert("parameters"@.len() == 10 && "parameters"@[0] == 'p' && "parameters"@[1] == 'a' && "parameters"@[2] == 'r');
        assert("pixels"@.len() == 6 && "pixels"@[0] == 'p' && "pixels"@[1] == 'i' && "pixels"@[2] == 'x');
        assert("placement"@.len() == 9 && "placement"@[0] == 'p' && "placement"@[1] == 'l' && "placement"@[2] == 'a');
        assert("projection"@.len() == 10 && "projection"@[0] == 'p' && "projection"@[1] == 'r' && "projection"@[2] == 'o');
        assert("scale"@.len() == 5 && "scale"@[0] == 's' && "scale"@[1] == 'c' && "scale"@[2] == 'a');
        assert("size"@.len() == 4 && "size"@[0] == 's' && "size"@[1] == 'i' && "size"@[2] == 'z');
        assert("title"@.len() == 5 && "title"@[0] == 't' && "title"@[1] == 'i' && "title"@[2] == 't');
        assert("u"@.len() == 1 && "u"@[0] == 'u');
        assert("v"@.len() == 1 && "v"@[0] == 'v');
        assert("values"@.len() == 6 && "values"@[0] == 'v' && "values"@[1] == 'a' && "values"@[2] == 'l');
        assert("visible"@.len() == 7 && "visible"@[0] == 'v' && "visible"@[1] == 'i' && "visible"@[2] == 's');
        assert("w"@.len() == 1 && "w"@[0] == 'w');
        assert("x"@.len() == 1 && "x"@[0] == 'x');
        assert("y"@.len() == 1 && "y"@[0] == 'y');
        assert("z"@.len() == 1 && "z"@[0] == 'z');
    }
}

/// Every property below a value at `prefix` has a longer path with the same first
/// segment, and is conditional when the value is.
proof fn lemma_described_value_shape(ty: ValueType, n: int, prefix: Seq<Seq<char>>, conditional: bool)
    requires
        prefix.len() > 0,
    ensures
        forall|k: int| 0 <= k < described_value(ty, n, prefix, conditional).len() ==> {
            let p = #[trigger] described_value(ty, n, prefix, conditional)[k];
            &&& p.0.len() > prefix.len()
            &&& p.0[0] == prefix[0]
            &&& conditional ==> p.3
        },
    decreases value_rank(ty), n,
{
    if n <= 0 || n > spec_value_fields(ty).len() {
    } else {
        let f = spec_value_fields(ty)[n - 1];
        let c = if spec_is_tagged(ty) { true } else { conditional };
        let path = prefix.push(f.name@);
        lemma_fields_rank(ty);
        lemma_described_value_shape(ty, n - 1, prefix, conditional);
        lemma_described_value_shape(f.ty, spec_value_fields(f.ty).len() as int, path, c || f.optional);
        let a = described_value(ty, n - 1, prefix, conditional);
        let b = seq![(path, f.ty, f.optional, c, f.docs@)];
        let d = described_value(f.ty, spec_value_fields(f.ty).len() as int, path, c || f.optional);
        assert(described_value(ty, n, prefix, conditional) == a + b + d);
        assert forall|k: int| 0 <= k < (a + b + d).len() implies {
            let p = #[trigger] (a + b + d)[k];
            &&& p.0.len() > prefix.len()
            &&& p.0[0] == prefix[0]
            &&& conditional ==> p.3
        } by {
            if k < a.len() {
                assert((a + b + d)[k] == a[k]);
            } else if k < a.len() + 1 {
                assert((a + b + d)[k] == b[0]);
            } else {
                assert((a + b + d)[k] == d[k - a.len() - 1]);
            }
        }
    }
}

/// Whether a property is marked as the field it lies in requires: a field is optional
/// exactly when it may be absent, and a property below a field that may be absent is
/// conditional.
pub open spec fn optional_as_declared(kind: NodeKind, p: PropertyView) -> bool {
    &&& p.0.len() > 0
    &&& p.0.len() == 1 ==> p.2 == field_may_be_absent(kind, p.0[0])
    &&& p.0.len() > 1 && field_may_be_absent(kind, p.0[0]) ==> p.3
}

/// Every property that the first `n` fields of a node add is marked as its field
/// requires.
proof fn lemma_described_node_optional(kind: NodeKind, n: int)
    ensures
        forall|k: int| 0 <= k < described_node(kind, n).len() ==> optional_as_declared(kind, #[trigger] described_node(kind, n)[k]),
    decreases n,
{
    if n <= 0 || n > spec_node_fields(kind).len() {
    } else {
        let f = spec_node_fields(kind)[n - 1];
        let path = seq![f.name@];
        lemma_described_node_optional(kind, n - 1);
        lemma_described_value_shape(f.ty, spec_value_fields(f.ty).len() as int, path, f.optional);
        lemma_optional_fields(kind);
        assert(f.optional == field_may_be_absent(kind, f.name@));
        let a = described_node(kind, n - 1);
        let b = seq![(path, f.ty, f.optional, false, f.docs@)];
        let d = described_value(f.ty, spec_value_fields(f.ty).len() as int, path, f.optional);
        assert(described_node(kind, n) == a + b + d);
        assert forall|k: int| 0 <= k < (a + b + d).len() implies optional_as_declared(kind, #[trigger] (a + b + d)[k]) by {
            if k < a.len() {
                assert((a + b + d)[k] == a[k]);
            } else if k < a.len() + 1 {
                assert((a + b + d)[k] == b[0]);
            } else {
                assert((a + b + d)[k] == d[k - a.len() - 1]);
            }
        }
    }
}

/// The registry marks a property optional exactly when the field of the node it names
/// may be absent (a title, a legend, a display name, or optional z, w or colour data),
/// and every property below such a field is conditional, since it exists only while
/// the field holds a value.
pub proof fn law_registry_optional_fields(kind: NodeKind)
    ensures
        forall|k: int| 0 <= k < spec_properties(kind).len() ==> {
            let p = #[trigger] spec_properties(kind)[k];
            &&& p.0.len() == 1 ==> p.2 == field_may_be_absent(kind, p.0[0])
            &&& p.0.len() > 1 && field_may_be_absent(kind, p.0[0]) ==> p.3
        },
{
    let all = described_node(kind, spec_node_fields(kind).len() as int);
    lemma_described_node_optional(kind, spec_node_fields(kind).len() as int);
    lemma_first_of_each_path_within(all);
    assert forall|k: int| 0 <= k < spec_properties(kind).len() implies {
        let p = #[trigger] spec_properties(kind)[k];
        &&& p.0.len() == 1 ==> p.2 == field_may_be_absent(kind, p.0[0])
        &&& p.0.len() > 1 && field_may_be_absent(kind, p.0[0]) ==> p.3
    } by {
        let j = choose|j: int| 0 <= j < all.len() && all[j] == first_of_each_path(all)[k];
        assert(optional_as_declared(kind, all[j]));
    }
}

} // verus!
