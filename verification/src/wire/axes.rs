//! Wire types of `ironlab/ir/v0/axes.proto`.

use vstd::prelude::*;

use super::view::{file_view, FieldSpecView, FieldView, FileView, ItemView, MessageView, EnumView, ValueView, TypeRefView};
use super::schema::{EnumDef, FieldDef, FieldSpec, FileDef, ItemDef, Label, MessageDef, TypeRef, ValueDef};

verus! {

/// The declarations of this module's `.proto` file, as values.
pub closed spec fn spec_file() -> FileView {
    FileView {
        module: "ironlab_ir::wire::axes"@,
        items: seq![
            ItemView::Message(MessageView {
                name: "Axes"@,
                docs: seq![
                    " A plotting region placed in one or more cells of the figure's tile layout."@,
                ],
                fields: seq![
                    FieldView::Field(FieldSpecView {
                        docs: seq![
                            " The node identifier of the axes, unique within the figure."@,
                        ],
                        label: Label::Optional,
                        ty: TypeRefView::Scalar("uint64"@),
                        name: "id"@,
                        number: 1,
                    }),
                    FieldView::Field(FieldSpecView {
                        docs: seq![
                            " The cells of the figure's tile layout that the axes occupies."@,
                        ],
                        label: Label::Singular,
                        ty: TypeRefView::Named("Cell"@),
                        name: "cell"@,
                        number: 2,
                    }),
                    FieldView::Field(FieldSpecView {
                        docs: seq![
                            " Whether the axes is two- or three-dimensional, with its 3D view."@,
                        ],
                        label: Label::Singular,
                        ty: TypeRefView::Named("Projection"@),
                        name: "projection"@,
                        number: 3,
                    }),
                    FieldView::Field(FieldSpecView {
                        docs: seq![
                            " The title drawn above the axes; absent when there is no title."@,
                        ],
                        label: Label::Singular,
                        ty: TypeRefView::Named("Text"@),
                        name: "title"@,
                        number: 4,
                    }),
                    FieldView::Field(FieldSpecView {
                        docs: seq![
                            " The horizontal axis in 2D, or the first horizontal axis in 3D."@,
                        ],
                        label: Label::Singular,
                        ty: TypeRefView::Named("Axis"@),
                        name: "x"@,
                        number: 5,
                    }),
                    FieldView::Field(FieldSpecView {
                        docs: seq![
                            " The vertical axis in 2D, or the second horizontal axis in 3D."@,
                        ],
                        label: Label::Singular,
                        ty: TypeRefView::Named("Axis"@),
                        name: "y"@,
                        number: 6,
                    }),
                    FieldView::Field(FieldSpecView {
                        docs: seq![
                            " The vertical axis in 3D; ignored by 2D axes."@,
                        ],
                        label: Label::Singular,
                        ty: TypeRefView::Named("Axis"@),
                        name: "z"@,
                        number: 7,
                    }),
                    FieldView::Field(FieldSpecView {
                        docs: seq![
                            " Whether the full outline of the plot box is drawn, rather than only the"@,
                            " edges that carry tick labels."@,
                        ],
                        label: Label::Optional,
                        ty: TypeRefView::Scalar("bool"@),
                        name: "r#box"@,
                        number: 8,
                    }),
                    FieldView::Field(FieldSpecView {
                        docs: seq![
                            " The colormap used by colormapped artists in this axes."@,
                        ],
                        label: Label::Singular,
                        ty: TypeRefView::Named("ColormapName"@),
                        name: "colormap"@,
                        number: 9,
                    }),
                    FieldView::Field(FieldSpecView {
                        docs: seq![
                            " The data values mapped to the first and last colours of the colormap."@,
                        ],
                        label: Label::Singular,
                        ty: TypeRefView::Named("Limits"@),
                        name: "clim"@,
                        number: 10,
                    }),
                    FieldView::Field(FieldSpecView {
                        docs: seq![
                            " The legend; absent when no legend is shown."@,
                        ],
                        label: Label::Singular,
                        ty: TypeRefView::Named("Legend"@),
                        name: "legend"@,
                        number: 11,
                    }),
                    FieldView::Field(FieldSpecView {
                        docs: seq![
                            " The artists drawn in this axes, in drawing order."@,
                        ],
                        label: Label::Repeated,
                        ty: TypeRefView::Named("Artist"@),
                        name: "artists"@,
                        number: 12,
                    }),
                ],
                reserved: seq![],
            }),
            ItemView::Message(MessageView {
                name: "Cell"@,
                docs: seq![
                    " A rectangular block of cells in the figure's tile layout, numbered from zero"@,
                    " starting at the top-left cell."@,
                ],
                fields: seq![
                    FieldView::Field(FieldSpecView {
                        docs: seq![
                            " The zero-based index of the top row occupied."@,
                        ],
                        label: Label::Optional,
                        ty: TypeRefView::Scalar("uint32"@),
                        name: "row"@,
                        number: 1,
                    }),
                    FieldView::Field(FieldSpecView {
                        docs: seq![
                            " The zero-based index of the leftmost column occupied."@,
                        ],
                        label: Label::Optional,
                        ty: TypeRefView::Scalar("uint32"@),
                        name: "col"@,
                        number: 2,
                    }),
                    FieldView::Field(FieldSpecView {
                        docs: seq![
                            " The number of rows occupied; at least one."@,
                        ],
                        label: Label::Optional,
                        ty: TypeRefView::Scalar("uint32"@),
                        name: "row_span"@,
                        number: 3,
                    }),
                    FieldView::Field(FieldSpecView {
                        docs: seq![
                            " The number of columns occupied; at least one."@,
                        ],
                        label: Label::Optional,
                        ty: TypeRefView::Scalar("uint32"@),
                        name: "col_span"@,
                        number: 4,
                    }),
                ],
                reserved: seq![],
            }),
            ItemView::Message(MessageView {
                name: "Projection"@,
                docs: seq![
                    " The projection of an axes."@,
                ],
                fields: seq![
                    FieldView::Oneof {
                        name: "kind"@,
                        docs: seq![
                            " The kind of projection; unset means the default of the context."@,
                        ],
                        variants: seq![
                            FieldSpecView {
                                docs: seq![
                                    " A two-dimensional Cartesian axes."@,
                                ],
                                label: Label::Singular,
                                ty: TypeRefView::Named("ProjectionTwoD"@),
                                name: "two_d"@,
                                number: 1,
                            },
                            FieldSpecView {
                                docs: seq![
                                    " A three-dimensional Cartesian axes."@,
                                ],
                                label: Label::Singular,
                                ty: TypeRefView::Named("ProjectionThreeD"@),
                                name: "three_d"@,
                                number: 2,
                            },
                        ],
                    },
                ],
                reserved: seq![],
            }),
            ItemView::Message(MessageView {
                name: "ProjectionTwoD"@,
                docs: seq![
                    " A two-dimensional Cartesian axes."@,
                ],
                fields: seq![],
                reserved: seq![],
            }),
            ItemView::Message(MessageView {
                name: "ProjectionThreeD"@,
                docs: seq![
                    " A three-dimensional Cartesian axes viewed through an orthographic camera."@,
                ],
                fields: seq![
                    FieldView::Field(FieldSpecView {
                        docs: seq![
                            " The camera view."@,
                        ],
                        label: Label::Singular,
                        ty: TypeRefView::Named("View3d"@),
                        name: "view3d"@,
                        number: 1,
                    }),
                ],
                reserved: seq![],
            }),
            ItemView::Message(MessageView {
                name: "View3d"@,
                docs: seq![
                    " The orthographic camera view of a three-dimensional axes."@,
                ],
                fields: seq![
                    FieldView::Field(FieldSpecView {
                        docs: seq![
                            " The rotation about the vertical axis in degrees, measured counterclockwise"@,
                            " from the negative y axis when viewed from above."@,
                        ],
                        label: Label::Optional,
                        ty: TypeRefView::Scalar("double"@),
                        name: "azimuth_deg"@,
                        number: 1,
                    }),
                    FieldView::Field(FieldSpecView {
                        docs: seq![
                            " The angle of the view direction above the x-y plane in degrees, from -90"@,
                            " to 90."@,
                        ],
                        label: Label::Optional,
                        ty: TypeRefView::Scalar("double"@),
                        name: "elevation_deg"@,
                        number: 2,
                    }),
                    FieldView::Field(FieldSpecView {
                        docs: seq![
                            " The magnification of the projected box, where 1 fits the box to the plot"@,
                            " area."@,
                        ],
                        label: Label::Optional,
                        ty: TypeRefView::Scalar("double"@),
                        name: "zoom"@,
                        number: 3,
                    }),
                    FieldView::Field(FieldSpecView {
                        docs: seq![
                            " The horizontal offset of the projected box as a fraction of the plot"@,
                            " area's width."@,
                        ],
                        label: Label::Optional,
                        ty: TypeRefView::Scalar("double"@),
                        name: "pan_x"@,
                        number: 4,
                    }),
                    FieldView::Field(FieldSpecView {
                        docs: seq![
                            " The vertical offset of the projected box as a fraction of the plot area's"@,
                            " height."@,
                        ],
                        label: Label::Optional,
                        ty: TypeRefView::Scalar("double"@),
                        name: "pan_y"@,
                        number: 5,
                    }),
                ],
                reserved: seq![],
            }),
            ItemView::Message(MessageView {
                name: "Axis"@,
                docs: seq![
                    " One coordinate axis of an axes."@,
                ],
                fields: seq![
                    FieldView::Field(FieldSpecView {
                        docs: seq![
                            " The axis label; absent when there is no label."@,
                        ],
                        label: Label::Singular,
                        ty: TypeRefView::Named("Text"@),
                        name: "label"@,
                        number: 1,
                    }),
                    FieldView::Field(FieldSpecView {
                        docs: seq![
                            " The mapping from data values to positions along the axis."@,
                        ],
                        label: Label::Singular,
                        ty: TypeRefView::Named("Scale"@),
                        name: "scale"@,
                        number: 2,
                    }),
                    FieldView::Field(FieldSpecView {
                        docs: seq![
                            " The range of data values shown along the axis."@,
                        ],
                        label: Label::Singular,
                        ty: TypeRefView::Named("Limits"@),
                        name: "limits"@,
                        number: 3,
                    }),
                    FieldView::Field(FieldSpecView {
                        docs: seq![
                            " Whether grid lines are drawn at the major ticks of this axis."@,
                        ],
                        label: Label::Optional,
                        ty: TypeRefView::Scalar("bool"@),
                        name: "grid"@,
                        number: 4,
                    }),
                ],
                reserved: seq![],
            }),
            ItemView::Enum(EnumView {
                name: "Scale"@,
                docs: seq![
                    " The mapping from data values to positions along an axis."@,
                ],
                values: seq![
                    ValueView { name: "Linear"@, docs: seq![
                        " Positions are proportional to values."@,
                    ], number: 1 },
                    ValueView { name: "Log"@, docs: seq![
                        " Positions are proportional to the base-10 logarithm of values."@,
                    ], number: 2 },
                ],
                reserved: seq![],
            }),
            ItemView::Message(MessageView {
                name: "Limits"@,
                docs: seq![
                    " A range of data values."@,
                ],
                fields: seq![
                    FieldView::Oneof {
                        name: "kind"@,
                        docs: seq![
                            " The kind of range; unset means the default of the context."@,
                        ],
                        variants: seq![
                            FieldSpecView {
                                docs: seq![
                                    " The range is computed from the data."@,
                                ],
                                label: Label::Singular,
                                ty: TypeRefView::Named("LimitsAuto"@),
                                name: "automatic"@,
                                number: 1,
                            },
                            FieldSpecView {
                                docs: seq![
                                    " The range is fixed."@,
                                ],
                                label: Label::Singular,
                                ty: TypeRefView::Named("LimitsManual"@),
                                name: "manual"@,
                                number: 2,
                            },
                        ],
                    },
                ],
                reserved: seq![],
            }),
            ItemView::Message(MessageView {
                name: "LimitsAuto"@,
                docs: seq![
                    " The range is computed from the data."@,
                ],
                fields: seq![],
                reserved: seq![],
            }),
            ItemView::Message(MessageView {
                name: "LimitsManual"@,
                docs: seq![
                    " The range is fixed."@,
                ],
                fields: seq![
                    FieldView::Field(FieldSpecView {
                        docs: seq![
                            " The lower bound of the range."@,
                        ],
                        label: Label::Optional,
                        ty: TypeRefView::Scalar("double"@),
                        name: "min"@,
                        number: 1,
                    }),
                    FieldView::Field(FieldSpecView {
                        docs: seq![
                            " The upper bound of the range."@,
                        ],
                        label: Label::Optional,
                        ty: TypeRefView::Scalar("double"@),
                        name: "max"@,
                        number: 2,
                    }),
                ],
                reserved: seq![],
            }),
            ItemView::Enum(EnumView {
                name: "ColormapName"@,
                docs: seq![
                    " The name of a colormap."@,
                ],
                values: seq![
                    ValueView { name: "Viridis"@, docs: seq![
                        " The perceptually uniform blue–green–yellow colormap."@,
                    ], number: 1 },
                    ValueView { name: "Cividis"@, docs: seq![
                        " The perceptually uniform blue–yellow colormap designed for colour-vision"@,
                        " deficiency."@,
                    ], number: 2 },
                    ValueView { name: "Magma"@, docs: seq![
                        " The perceptually uniform black–purple–cream colormap."@,
                    ], number: 3 },
                    ValueView { name: "Inferno"@, docs: seq![
                        " The perceptually uniform black–red–yellow colormap."@,
                    ], number: 4 },
                    ValueView { name: "Plasma"@, docs: seq![
                        " The perceptually uniform blue–purple–yellow colormap."@,
                    ], number: 5 },
                    ValueView { name: "Coolwarm"@, docs: seq![
                        " The diverging blue–white–red colormap."@,
                    ], number: 6 },
                    ValueView { name: "Gray"@, docs: seq![
                        " The linear black–white colormap."@,
                    ], number: 7 },
                ],
                reserved: seq![],
            }),
            ItemView::Message(MessageView {
                name: "Legend"@,
                docs: seq![
                    " A legend listing the artists of an axes that have a display name."@,
                ],
                fields: seq![
                    FieldView::Field(FieldSpecView {
                        docs: seq![
                            " Where the legend is placed inside the plot area."@,
                        ],
                        label: Label::Singular,
                        ty: TypeRefView::Named("LegendLocation"@),
                        name: "location"@,
                        number: 1,
                    }),
                    FieldView::Field(FieldSpecView {
                        docs: seq![
                            " Whether the legend is drawn with a background and outline."@,
                        ],
                        label: Label::Optional,
                        ty: TypeRefView::Scalar("bool"@),
                        name: "boxed"@,
                        number: 2,
                    }),
                ],
                reserved: seq![],
            }),
            ItemView::Enum(EnumView {
                name: "LegendLocation"@,
                docs: seq![
                    " The placement of a legend inside the plot area."@,
                ],
                values: seq![
                    ValueView { name: "NorthEast"@, docs: seq![
                        " The top-right corner."@,
                    ], number: 1 },
                    ValueView { name: "NorthWest"@, docs: seq![
                        " The top-left corner."@,
                    ], number: 2 },
                    ValueView { name: "SouthEast"@, docs: seq![
                        " The bottom-right corner."@,
                    ], number: 3 },
                    ValueView { name: "SouthWest"@, docs: seq![
                        " The bottom-left corner."@,
                    ], number: 4 },
                    ValueView { name: "North"@, docs: seq![
                        " The centre of the top edge."@,
                    ], number: 5 },
                    ValueView { name: "South"@, docs: seq![
                        " The centre of the bottom edge."@,
                    ], number: 6 },
                    ValueView { name: "East"@, docs: seq![
                        " The centre of the right edge."@,
                    ], number: 7 },
                    ValueView { name: "West"@, docs: seq![
                        " The centre of the left edge."@,
                    ], number: 8 },
                    ValueView { name: "Best"@, docs: seq![
                        " The corner that overlaps the least data."@,
                    ], number: 9 },
                ],
                reserved: seq![],
            }),
        ],
    }
}

/// The declaration of this module's `.proto` file.
pub fn file() -> (f: FileDef)
    ensures
        f.module@ == "ironlab_ir::wire::axes"@,
        file_view(f) == spec_file(),
{
    let f = FileDef {
        module: "ironlab_ir::wire::axes",
        items: vec![
            ItemDef::Message(MessageDef {
                name: "Axes",
                docs: vec![
                    " A plotting region placed in one or more cells of the figure's tile layout.",
                ],
                fields: vec![
                    FieldDef::Field(FieldSpec {
                        docs: vec![
                            " The node identifier of the axes, unique within the figure.",
                        ],
                        label: Label::Optional,
                        ty: TypeRef::Scalar("uint64"),
                        name: "id",
                        number: 1,
                    }),
                    FieldDef::Field(FieldSpec {
                        docs: vec![
                            " The cells of the figure's tile layout that the axes occupies.",
                        ],
                        label: Label::Singular,
                        ty: TypeRef::Named("Cell"),
                        name: "cell",
                        number: 2,
                    }),
                    FieldDef::Field(FieldSpec {
                        docs: vec![
                            " Whether the axes is two- or three-dimensional, with its 3D view.",
                        ],
                        label: Label::Singular,
                        ty: TypeRef::Named("Projection"),
                        name: "projection",
                        number: 3,
                    }),
                    FieldDef::Field(FieldSpec {
                        docs: vec![
                            " The title drawn above the axes; absent when there is no title.",
                        ],
                        label: Label::Singular,
                        ty: TypeRef::Named("Text"),
                        name: "title",
                        number: 4,
                    }),
                    FieldDef::Field(FieldSpec {
                        docs: vec![
                            " The horizontal axis in 2D, or the first horizontal axis in 3D.",
                        ],
                        label: Label::Singular,
                        ty: TypeRef::Named("Axis"),
                        name: "x",
                        number: 5,
                    }),
                    FieldDef::Field(FieldSpec {
                        docs: vec![
                            " The vertical axis in 2D, or the second horizontal axis in 3D.",
                        ],
                        label: Label::Singular,
                        ty: TypeRef::Named("Axis"),
                        name: "y",
                        number: 6,
                    }),
                    FieldDef::Field(FieldSpec {
                        docs: vec![
                            " The vertical axis in 3D; ignored by 2D axes.",
                        ],
                        label: Label::Singular,
                        ty: TypeRef::Named("Axis"),
                        name: "z",
                        number: 7,
                    }),
                    FieldDef::Field(FieldSpec {
                        docs: vec![
                            " Whether the full outline of the plot box is drawn, rather than only the",
                            " edges that carry tick labels.",
                        ],
                        label: Label::Optional,
                        ty: TypeRef::Scalar("bool"),
                        name: "r#box",
                        number: 8,
                    }),
                    FieldDef::Field(FieldSpec {
                        docs: vec![
                            " The colormap used by colormapped artists in this axes.",
                        ],
                        label: Label::Singular,
                        ty: TypeRef::Named("ColormapName"),
                        name: "colormap",
                        number: 9,
                    }),
                    FieldDef::Field(FieldSpec {
                        docs: vec![
                            " The data values mapped to the first and last colours of the colormap.",
                        ],
                        label: Label::Singular,
                        ty: TypeRef::Named("Limits"),
                        name: "clim",
                        number: 10,
                    }),
                    FieldDef::Field(FieldSpec {
                        docs: vec![
                            " The legend; absent when no legend is shown.",
                        ],
                        label: Label::Singular,
                        ty: TypeRef::Named("Legend"),
                        name: "legend",
                        number: 11,
                    }),
                    FieldDef::Field(FieldSpec {
                        docs: vec![
                            " The artists drawn in this axes, in drawing order.",
                        ],
                        label: Label::Repeated,
                        ty: TypeRef::Named("Artist"),
                        name: "artists",
                        number: 12,
                    }),
                ],
                reserved: vec![],
            }),
            ItemDef::Message(MessageDef {
                name: "Cell",
                docs: vec![
                    " A rectangular block of cells in the figure's tile layout, numbered from zero",
                    " starting at the top-left cell.",
                ],
                fields: vec![
                    FieldDef::Field(FieldSpec {
                        docs: vec![
                            " The zero-based index of the top row occupied.",
                        ],
                        label: Label::Optional,
                        ty: TypeRef::Scalar("uint32"),
                        name: "row",
                        number: 1,
                    }),
                    FieldDef::Field(FieldSpec {
                        docs: vec![
                            " The zero-based index of the leftmost column occupied.",
                        ],
                        label: Label::Optional,
                        ty: TypeRef::Scalar("uint32"),
                        name: "col",
                        number: 2,
                    }),
                    FieldDef::Field(FieldSpec {
                        docs: vec![
                            " The number of rows occupied; at least one.",
                        ],
                        label: Label::Optional,
                        ty: TypeRef::Scalar("uint32"),
                        name: "row_span",
                        number: 3,
                    }),
                    FieldDef::Field(FieldSpec {
                        docs: vec![
                            " The number of columns occupied; at least one.",
                        ],
                        label: Label::Optional,
                        ty: TypeRef::Scalar("uint32"),
                        name: "col_span",
                        number: 4,
                    }),
                ],
                reserved: vec![],
            }),
            ItemDef::Message(MessageDef {
                name: "Projection",
                docs: vec![
                    " The projection of an axes.",
                ],
                fields: vec![
                    FieldDef::Oneof {
                        name: "kind",
                        docs: vec![
                            " The kind of projection; unset means the default of the context.",
                        ],
                        variants: vec![
                            FieldSpec {
                                docs: vec![
                                    " A two-dimensional Cartesian axes.",
                                ],
                                label: Label::Singular,
                                ty: TypeRef::Named("ProjectionTwoD"),
                                name: "two_d",
                                number: 1,
                            },
                            FieldSpec {
                                docs: vec![
                                    " A three-dimensional Cartesian axes.",
                                ],
                                label: Label::Singular,
                                ty: TypeRef::Named("ProjectionThreeD"),
                                name: "three_d",
                                number: 2,
                            },
                        ],
                    },
                ],
                reserved: vec![],
            }),
            ItemDef::Message(MessageDef {
                name: "ProjectionTwoD",
                docs: vec![
                    " A two-dimensional Cartesian axes.",
                ],
                fields: vec![],
                reserved: vec![],
            }),
            ItemDef::Message(MessageDef {
                name: "ProjectionThreeD",
                docs: vec![
                    " A three-dimensional Cartesian axes viewed through an orthographic camera.",
                ],
                fields: vec![
                    FieldDef::Field(FieldSpec {
                        docs: vec![
                            " The camera view.",
                        ],
                        label: Label::Singular,
                        ty: TypeRef::Named("View3d"),
                        name: "view3d",
                        number: 1,
                    }),
                ],
                reserved: vec![],
            }),
            ItemDef::Message(MessageDef {
                name: "View3d",
                docs: vec![
                    " The orthographic camera view of a three-dimensional axes.",
                ],
                fields: vec![
                    FieldDef::Field(FieldSpec {
                        docs: vec![
                            " The rotation about the vertical axis in degrees, measured counterclockwise",
                            " from the negative y axis when viewed from above.",
                        ],
                        label: Label::Optional,
                        ty: TypeRef::Scalar("double"),
                        name: "azimuth_deg",
                        number: 1,
                    }),
                    FieldDef::Field(FieldSpec {
                        docs: vec![
                            " The angle of the view direction above the x-y plane in degrees, from -90",
                            " to 90.",
                        ],
                        label: Label::Optional,
                        ty: TypeRef::Scalar("double"),
                        name: "elevation_deg",
                        number: 2,
                    }),
                    FieldDef::Field(FieldSpec {
                        docs: vec![
                            " The magnification of the projected box, where 1 fits the box to the plot",
                            " area.",
                        ],
                        label: Label::Optional,
                        ty: TypeRef::Scalar("double"),
                        name: "zoom",
                        number: 3,
                    }),
                    FieldDef::Field(FieldSpec {
                        docs: vec![
                            " The horizontal offset of the projected box as a fraction of the plot",
                            " area's width.",
                        ],
                        label: Label::Optional,
                        ty: TypeRef::Scalar("double"),
                        name: "pan_x",
                        number: 4,
                    }),
                    FieldDef::Field(FieldSpec {
                        docs: vec![
                            " The vertical offset of the projected box as a fraction of the plot area's",
                            " height.",
                        ],
                        label: Label::Optional,
                        ty: TypeRef::Scalar("double"),
                        name: "pan_y",
                        number: 5,
                    }),
                ],
                reserved: vec![],
            }),
            ItemDef::Message(MessageDef {
                name: "Axis",
                docs: vec![
                    " One coordinate axis of an axes.",
                ],
                fields: vec![
                    FieldDef::Field(FieldSpec {
                        docs: vec![
                            " The axis label; absent when there is no label.",
                        ],
                        label: Label::Singular,
                        ty: TypeRef::Named("Text"),
                        name: "label",
                        number: 1,
                    }),
                    FieldDef::Field(FieldSpec {
                        docs: vec![
                            " The mapping from data values to positions along the axis.",
                        ],
                        label: Label::Singular,
                        ty: TypeRef::Named("Scale"),
                        name: "scale",
                        number: 2,
                    }),
                    FieldDef::Field(FieldSpec {
                        docs: vec![
                            " The range of data values shown along the axis.",
                        ],
                        label: Label::Singular,
                        ty: TypeRef::Named("Limits"),
                        name: "limits",
                        number: 3,
                    }),
                    FieldDef::Field(FieldSpec {
                        docs: vec![
                            " Whether grid lines are drawn at the major ticks of this axis.",
                        ],
                        label: Label::Optional,
                        ty: TypeRef::Scalar("bool"),
                        name: "grid",
                        number: 4,
                    }),
                ],
                reserved: vec![],
            }),
            ItemDef::Enum(EnumDef {
                name: "Scale",
                docs: vec![
                    " The mapping from data values to positions along an axis.",
                ],
                values: vec![
                    ValueDef { name: "Linear", docs: vec![
                        " Positions are proportional to values.",
                    ], number: 1 },
                    ValueDef { name: "Log", docs: vec![
                        " Positions are proportional to the base-10 logarithm of values.",
                    ], number: 2 },
                ],
                reserved: vec![],
            }),
            ItemDef::Message(MessageDef {
                name: "Limits",
                docs: vec![
                    " A range of data values.",
                ],
                fields: vec![
                    FieldDef::Oneof {
                        name: "kind",
                        docs: vec![
                            " The kind of range; unset means the default of the context.",
                        ],
                        variants: vec![
                            FieldSpec {
                                docs: vec![
                                    " The range is computed from the data.",
                                ],
                                label: Label::Singular,
                                ty: TypeRef::Named("LimitsAuto"),
                                name: "automatic",
                                number: 1,
                            },
                            FieldSpec {
                                docs: vec![
                                    " The range is fixed.",
                                ],
                                label: Label::Singular,
                                ty: TypeRef::Named("LimitsManual"),
                                name: "manual",
                                number: 2,
                            },
                        ],
                    },
                ],
                reserved: vec![],
            }),
            ItemDef::Message(MessageDef {
                name: "LimitsAuto",
                docs: vec![
                    " The range is computed from the data.",
                ],
                fields: vec![],
                reserved: vec![],
            }),
            ItemDef::Message(MessageDef {
                name: "LimitsManual",
                docs: vec![
                    " The range is fixed.",
                ],
                fields: vec![
                    FieldDef::Field(FieldSpec {
                        docs: vec![
                            " The lower bound of the range.",
                        ],
                        label: Label::Optional,
                        ty: TypeRef::Scalar("double"),
                        name: "min",
                        number: 1,
                    }),
                    FieldDef::Field(FieldSpec {
                        docs: vec![
                            " The upper bound of the range.",
                        ],
                        label: Label::Optional,
                        ty: TypeRef::Scalar("double"),
                        name: "max",
                        number: 2,
                    }),
                ],
                reserved: vec![],
            }),
            ItemDef::Enum(EnumDef {
                name: "ColormapName",
                docs: vec![
                    " The name of a colormap.",
                ],
                values: vec![
                    ValueDef { name: "Viridis", docs: vec![
                        " The perceptually uniform blue–green–yellow colormap.",
                    ], number: 1 },
                    ValueDef { name: "Cividis", docs: vec![
                        " The perceptually uniform blue–yellow colormap designed for colour-vision",
                        " deficiency.",
                    ], number: 2 },
                    ValueDef { name: "Magma", docs: vec![
                        " The perceptually uniform black–purple–cream colormap.",
                    ], number: 3 },
                    ValueDef { name: "Inferno", docs: vec![
                        " The perceptually uniform black–red–yellow colormap.",
                    ], number: 4 },
                    ValueDef { name: "Plasma", docs: vec![
                        " The perceptually uniform blue–purple–yellow colormap.",
                    ], number: 5 },
                    ValueDef { name: "Coolwarm", docs: vec![
                        " The diverging blue–white–red colormap.",
                    ], number: 6 },
                    ValueDef { name: "Gray", docs: vec![
                        " The linear black–white colormap.",
                    ], number: 7 },
                ],
                reserved: vec![],
            }),
            ItemDef::Message(MessageDef {
                name: "Legend",
                docs: vec![
                    " A legend listing the artists of an axes that have a display name.",
                ],
                fields: vec![
                    FieldDef::Field(FieldSpec {
                        docs: vec![
                            " Where the legend is placed inside the plot area.",
                        ],
                        label: Label::Singular,
                        ty: TypeRef::Named("LegendLocation"),
                        name: "location",
                        number: 1,
                    }),
                    FieldDef::Field(FieldSpec {
                        docs: vec![
                            " Whether the legend is drawn with a background and outline.",
                        ],
                        label: Label::Optional,
                        ty: TypeRef::Scalar("bool"),
                        name: "boxed",
                        number: 2,
                    }),
                ],
                reserved: vec![],
            }),
            ItemDef::Enum(EnumDef {
                name: "LegendLocation",
                docs: vec![
                    " The placement of a legend inside the plot area.",
                ],
                values: vec![
                    ValueDef { name: "NorthEast", docs: vec![
                        " The top-right corner.",
                    ], number: 1 },
                    ValueDef { name: "NorthWest", docs: vec![
                        " The top-left corner.",
                    ], number: 2 },
                    ValueDef { name: "SouthEast", docs: vec![
                        " The bottom-right corner.",
                    ], number: 3 },
                    ValueDef { name: "SouthWest", docs: vec![
                        " The bottom-left corner.",
                    ], number: 4 },
                    ValueDef { name: "North", docs: vec![
                        " The centre of the top edge.",
                    ], number: 5 },
                    ValueDef { name: "South", docs: vec![
                        " The centre of the bottom edge.",
                    ], number: 6 },
                    ValueDef { name: "East", docs: vec![
                        " The centre of the right edge.",
                    ], number: 7 },
                    ValueDef { name: "West", docs: vec![
                        " The centre of the left edge.",
                    ], number: 8 },
                    ValueDef { name: "Best", docs: vec![
                        " The corner that overlaps the least data.",
                    ], number: 9 },
                ],
                reserved: vec![],
            }),
        ],
    };
    assert(file_view(f) =~~= spec_file());
    f
}

} // verus!
