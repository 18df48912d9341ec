//! Wire types of `ironlab/ir/v0/artist.proto`.

use vstd::prelude::*;

use super::view::{file_view, FieldSpecView, FieldView, FileView, ItemView, MessageView, EnumView, ValueView, TypeRefView};
use super::schema::{FieldDef, FieldSpec, FileDef, ItemDef, Label, MessageDef, TypeRef};

verus! {

/// The declarations of this module's `.proto` file, as values.
pub closed spec fn spec_file() -> FileView {
    FileView {
        module: "ironlab_ir::wire::artist"@,
        items: seq![
            ItemView::Message(MessageView {
                name: "Artist"@,
                docs: seq![
                    " A drawable node of an axes."@,
                ],
                fields: seq![
                    FieldView::Oneof {
                        name: "kind"@,
                        docs: seq![
                            " The kind of artist; it must be set."@,
                        ],
                        variants: seq![
                            FieldSpecView {
                                docs: seq![
                                    " A polyline with optional markers."@,
                                ],
                                label: Label::Singular,
                                ty: TypeRefView::Named("Line"@),
                                name: "line"@,
                                number: 1,
                            },
                            FieldSpecView {
                                docs: seq![
                                    " Markers at data points with per-point size and colour."@,
                                ],
                                label: Label::Singular,
                                ty: TypeRefView::Named("Scatter"@),
                                name: "scatter"@,
                                number: 2,
                            },
                            FieldSpecView {
                                docs: seq![
                                    " Isolines or filled isobands of a gridded field."@,
                                ],
                                label: Label::Singular,
                                ty: TypeRefView::Named("Contour"@),
                                name: "contour"@,
                                number: 3,
                            },
                            FieldSpecView {
                                docs: seq![
                                    " Arrows at data points."@,
                                ],
                                label: Label::Singular,
                                ty: TypeRefView::Named("Quiver"@),
                                name: "quiver"@,
                                number: 4,
                            },
                            FieldSpecView {
                                docs: seq![
                                    " A gridded surface of faces."@,
                                ],
                                label: Label::Singular,
                                ty: TypeRefView::Named("Surface"@),
                                name: "surface"@,
                                number: 5,
                            },
                            FieldSpecView {
                                docs: seq![
                                    " A raster of true-colour pixels."@,
                                ],
                                label: Label::Singular,
                                ty: TypeRefView::Named("Image"@),
                                name: "image"@,
                                number: 6,
                            },
                            FieldSpecView {
                                docs: seq![
                                    " A raster of pixels that name entries of the axes colormap."@,
                                ],
                                label: Label::Singular,
                                ty: TypeRefView::Named("IndexedImage"@),
                                name: "indexed_image"@,
                                number: 7,
                            },
                            FieldSpecView {
                                docs: seq![
                                    " A raster of data values mapped through the axes colormap and colour"@,
                                    " limits."@,
                                ],
                                label: Label::Singular,
                                ty: TypeRefView::Named("MappedImage"@),
                                name: "mapped_image"@,
                                number: 8,
                            },
                        ],
                    },
                ],
                reserved: seq![],
            }),
            ItemView::Message(MessageView {
                name: "Line"@,
                docs: seq![
                    " A polyline through data points, with optional markers at the points."@,
                ],
                fields: seq![
                    FieldView::Field(FieldSpecView {
                        docs: seq![
                            " The node identifier of the artist, unique within the figure."@,
                        ],
                        label: Label::Optional,
                        ty: TypeRefView::Scalar("uint64"@),
                        name: "id"@,
                        number: 1,
                    }),
                    FieldView::Field(FieldSpecView {
                        docs: seq![
                            " The name shown for the artist in the legend; absent when there is none."@,
                        ],
                        label: Label::Singular,
                        ty: TypeRefView::Named("Text"@),
                        name: "display_name"@,
                        number: 2,
                    }),
                    FieldView::Field(FieldSpecView {
                        docs: seq![
                            " Whether the artist is drawn."@,
                        ],
                        label: Label::Optional,
                        ty: TypeRefView::Scalar("bool"@),
                        name: "visible"@,
                        number: 3,
                    }),
                    FieldView::Field(FieldSpecView {
                        docs: seq![
                            " The data identifier of the x coordinates of the points."@,
                        ],
                        label: Label::Optional,
                        ty: TypeRefView::Scalar("uint64"@),
                        name: "x"@,
                        number: 4,
                    }),
                    FieldView::Field(FieldSpecView {
                        docs: seq![
                            " The data identifier of the y coordinates of the points."@,
                        ],
                        label: Label::Optional,
                        ty: TypeRefView::Scalar("uint64"@),
                        name: "y"@,
                        number: 5,
                    }),
                    FieldView::Field(FieldSpecView {
                        docs: seq![
                            " The data identifier of the z coordinates of the points; absent when the"@,
                            " points lie in the plane z = 0."@,
                        ],
                        label: Label::Optional,
                        ty: TypeRefView::Scalar("uint64"@),
                        name: "z"@,
                        number: 6,
                    }),
                    FieldView::Field(FieldSpecView {
                        docs: seq![
                            " The style of the line through the points."@,
                        ],
                        label: Label::Singular,
                        ty: TypeRefView::Named("LineStyle"@),
                        name: "line"@,
                        number: 7,
                    }),
                    FieldView::Field(FieldSpecView {
                        docs: seq![
                            " The style of the markers at the points."@,
                        ],
                        label: Label::Singular,
                        ty: TypeRefView::Named("MarkerStyle"@),
                        name: "marker"@,
                        number: 8,
                    }),
                ],
                reserved: seq![],
            }),
            ItemView::Message(MessageView {
                name: "Scatter"@,
                docs: seq![
                    " Markers at data points, each with its own size and colour."@,
                ],
                fields: seq![
                    FieldView::Field(FieldSpecView {
                        docs: seq![
                            " The node identifier of the artist, unique within the figure."@,
                        ],
                        label: Label::Optional,
                        ty: TypeRefView::Scalar("uint64"@),
                        name: "id"@,
                        number: 1,
                    }),
                    FieldView::Field(FieldSpecView {
                        docs: seq![
                            " The name shown for the artist in the legend; absent when there is none."@,
                        ],
                        label: Label::Singular,
                        ty: TypeRefView::Named("Text"@),
                        name: "display_name"@,
                        number: 2,
                    }),
                    FieldView::Field(FieldSpecView {
                        docs: seq![
                            " Whether the artist is drawn."@,
                        ],
                        label: Label::Optional,
                        ty: TypeRefView::Scalar("bool"@),
                        name: "visible"@,
                        number: 3,
                    }),
                    FieldView::Field(FieldSpecView {
                        docs: seq![
                            " The data identifier of the x coordinates of the points."@,
                        ],
                        label: Label::Optional,
                        ty: TypeRefView::Scalar("uint64"@),
                        name: "x"@,
                        number: 4,
                    }),
                    FieldView::Field(FieldSpecView {
                        docs: seq![
                            " The data identifier of the y coordinates of the points."@,
                        ],
                        label: Label::Optional,
                        ty: TypeRefView::Scalar("uint64"@),
                        name: "y"@,
                        number: 5,
                    }),
                    FieldView::Field(FieldSpecView {
                        docs: seq![
                            " The data identifier of the z coordinates of the points; absent when the"@,
                            " points lie in the plane z = 0."@,
                        ],
                        label: Label::Optional,
                        ty: TypeRefView::Scalar("uint64"@),
                        name: "z"@,
                        number: 6,
                    }),
                    FieldView::Field(FieldSpecView {
                        docs: seq![
                            " The size of the markers, which overrides the marker style's size."@,
                        ],
                        label: Label::Singular,
                        ty: TypeRefView::Named("ScatterSize"@),
                        name: "size"@,
                        number: 7,
                    }),
                    FieldView::Field(FieldSpecView {
                        docs: seq![
                            " The colour of the markers, applied wherever the marker face or edge is"@,
                            " automatic."@,
                        ],
                        label: Label::Singular,
                        ty: TypeRefView::Named("ScatterColor"@),
                        name: "color"@,
                        number: 8,
                    }),
                    FieldView::Field(FieldSpecView {
                        docs: seq![
                            " The marker shape and the use of the scatter colour for face and edge."@,
                        ],
                        label: Label::Singular,
                        ty: TypeRefView::Named("MarkerStyle"@),
                        name: "marker"@,
                        number: 9,
                    }),
                ],
                reserved: seq![],
            }),
            ItemView::Message(MessageView {
                name: "ScatterSize"@,
                docs: seq![
                    " The size of scatter markers."@,
                ],
                fields: seq![
                    FieldView::Oneof {
                        name: "kind"@,
                        docs: seq![
                            " The kind of size; unset means the default of the context."@,
                        ],
                        variants: seq![
                            FieldSpecView {
                                docs: seq![
                                    " Every marker has the same size."@,
                                ],
                                label: Label::Singular,
                                ty: TypeRefView::Named("ScatterSizeScalar"@),
                                name: "scalar"@,
                                number: 1,
                            },
                            FieldSpecView {
                                docs: seq![
                                    " Each marker has its own size."@,
                                ],
                                label: Label::Singular,
                                ty: TypeRefView::Named("ScatterSizeData"@),
                                name: "data"@,
                                number: 2,
                            },
                        ],
                    },
                ],
                reserved: seq![],
            }),
            ItemView::Message(MessageView {
                name: "ScatterSizeScalar"@,
                docs: seq![
                    " Every marker has the same size."@,
                ],
                fields: seq![
                    FieldView::Field(FieldSpecView {
                        docs: seq![
                            " The marker size in points, measured as the width of the marker."@,
                        ],
                        label: Label::Optional,
                        ty: TypeRefView::Scalar("double"@),
                        name: "value"@,
                        number: 1,
                    }),
                ],
                reserved: seq![],
            }),
            ItemView::Message(MessageView {
                name: "ScatterSizeData"@,
                docs: seq![
                    " Each marker has its own size."@,
                ],
                fields: seq![
                    FieldView::Field(FieldSpecView {
                        docs: seq![
                            " The data identifier of the marker sizes in points, one per point."@,
                        ],
                        label: Label::Optional,
                        ty: TypeRefView::Scalar("uint64"@),
                        name: "data"@,
                        number: 1,
                    }),
                ],
                reserved: seq![],
            }),
            ItemView::Message(MessageView {
                name: "ScatterColor"@,
                docs: seq![
                    " The colour of scatter markers."@,
                ],
                fields: seq![
                    FieldView::Oneof {
                        name: "kind"@,
                        docs: seq![
                            " The kind of colour; unset means the default of the context."@,
                        ],
                        variants: seq![
                            FieldSpecView {
                                docs: seq![
                                    " Every marker has the same colour."@,
                                ],
                                label: Label::Singular,
                                ty: TypeRefView::Named("ScatterColorSpec"@),
                                name: "spec"@,
                                number: 1,
                            },
                            FieldSpecView {
                                docs: seq![
                                    " Each marker is coloured by a data value through the axes colormap."@,
                                ],
                                label: Label::Singular,
                                ty: TypeRefView::Named("ScatterColorData"@),
                                name: "data"@,
                                number: 2,
                            },
                        ],
                    },
                ],
                reserved: seq![],
            }),
            ItemView::Message(MessageView {
                name: "ScatterColorSpec"@,
                docs: seq![
                    " Every marker has the same colour."@,
                ],
                fields: seq![
                    FieldView::Field(FieldSpecView {
                        docs: seq![
                            " The colour of every marker."@,
                        ],
                        label: Label::Singular,
                        ty: TypeRefView::Named("ColorSpec"@),
                        name: "spec"@,
                        number: 1,
                    }),
                ],
                reserved: seq![],
            }),
            ItemView::Message(MessageView {
                name: "ScatterColorData"@,
                docs: seq![
                    " Each marker is coloured by a data value through the axes colormap."@,
                ],
                fields: seq![
                    FieldView::Field(FieldSpecView {
                        docs: seq![
                            " The data identifier of the values, one per point, mapped through the axes"@,
                            " colormap and colour limits."@,
                        ],
                        label: Label::Optional,
                        ty: TypeRefView::Scalar("uint64"@),
                        name: "data"@,
                        number: 1,
                    }),
                ],
                reserved: seq![],
            }),
            ItemView::Message(MessageView {
                name: "Contour"@,
                docs: seq![
                    " Isolines or filled isobands of a scalar field sampled on a grid."@,
                ],
                fields: seq![
                    FieldView::Field(FieldSpecView {
                        docs: seq![
                            " The node identifier of the artist, unique within the figure."@,
                        ],
                        label: Label::Optional,
                        ty: TypeRefView::Scalar("uint64"@),
                        name: "id"@,
                        number: 1,
                    }),
                    FieldView::Field(FieldSpecView {
                        docs: seq![
                            " The name shown for the artist in the legend; absent when there is none."@,
                        ],
                        label: Label::Singular,
                        ty: TypeRefView::Named("Text"@),
                        name: "display_name"@,
                        number: 2,
                    }),
                    FieldView::Field(FieldSpecView {
                        docs: seq![
                            " Whether the artist is drawn."@,
                        ],
                        label: Label::Optional,
                        ty: TypeRefView::Scalar("bool"@),
                        name: "visible"@,
                        number: 3,
                    }),
                    FieldView::Field(FieldSpecView {
                        docs: seq![
                            " The grid on which the field is sampled."@,
                        ],
                        label: Label::Singular,
                        ty: TypeRefView::Named("Grid"@),
                        name: "grid"@,
                        number: 4,
                    }),
                    FieldView::Field(FieldSpecView {
                        docs: seq![
                            " The data identifier of the field values, of shape `[ny, nx]`."@,
                        ],
                        label: Label::Optional,
                        ty: TypeRefView::Scalar("uint64"@),
                        name: "z"@,
                        number: 5,
                    }),
                    FieldView::Field(FieldSpecView {
                        docs: seq![
                            " The field values at which isolines are drawn or between which bands are"@,
                            " filled."@,
                        ],
                        label: Label::Singular,
                        ty: TypeRefView::Named("Levels"@),
                        name: "levels"@,
                        number: 6,
                    }),
                    FieldView::Field(FieldSpecView {
                        docs: seq![
                            " Whether the bands between levels are filled rather than only the isolines"@,
                            " drawn."@,
                        ],
                        label: Label::Optional,
                        ty: TypeRefView::Scalar("bool"@),
                        name: "fill"@,
                        number: 7,
                    }),
                    FieldView::Field(FieldSpecView {
                        docs: seq![
                            " Where the contours are placed in 3D axes."@,
                        ],
                        label: Label::Singular,
                        ty: TypeRefView::Named("ContourPlacement"@),
                        name: "placement"@,
                        number: 8,
                    }),
                    FieldView::Field(FieldSpecView {
                        docs: seq![
                            " The style of the isolines."@,
                        ],
                        label: Label::Singular,
                        ty: TypeRefView::Named("LineStyle"@),
                        name: "line"@,
                        number: 9,
                    }),
                ],
                reserved: seq![],
            }),
            ItemView::Message(MessageView {
                name: "Grid"@,
                docs: seq![
                    " The grid on which a field of shape `[ny, nx]` is sampled."@,
                ],
                fields: seq![
                    FieldView::Oneof {
                        name: "kind"@,
                        docs: seq![
                            " The kind of grid; unset means the default of the context."@,
                        ],
                        variants: seq![
                            FieldSpecView {
                                docs: seq![
                                    " An axis-aligned grid defined by one coordinate vector per axis."@,
                                ],
                                label: Label::Singular,
                                ty: TypeRefView::Named("GridRectilinear"@),
                                name: "rectilinear"@,
                                number: 1,
                            },
                            FieldSpecView {
                                docs: seq![
                                    " A structured grid whose every node has its own coordinates."@,
                                ],
                                label: Label::Singular,
                                ty: TypeRefView::Named("GridCurvilinear"@),
                                name: "curvilinear"@,
                                number: 2,
                            },
                        ],
                    },
                ],
                reserved: seq![],
            }),
            ItemView::Message(MessageView {
                name: "GridRectilinear"@,
                docs: seq![
                    " An axis-aligned grid defined by one coordinate vector per axis."@,
                ],
                fields: seq![
                    FieldView::Field(FieldSpecView {
                        docs: seq![
                            " The data identifier of the x coordinates of the columns, `nx` values."@,
                        ],
                        label: Label::Optional,
                        ty: TypeRefView::Scalar("uint64"@),
                        name: "x"@,
                        number: 1,
                    }),
                    FieldView::Field(FieldSpecView {
                        docs: seq![
                            " The data identifier of the y coordinates of the rows, `ny` values."@,
                        ],
                        label: Label::Optional,
                        ty: TypeRefView::Scalar("uint64"@),
                        name: "y"@,
                        number: 2,
                    }),
                ],
                reserved: seq![],
            }),
            ItemView::Message(MessageView {
                name: "GridCurvilinear"@,
                docs: seq![
                    " A structured grid whose every node has its own coordinates."@,
                ],
                fields: seq![
                    FieldView::Field(FieldSpecView {
                        docs: seq![
                            " The data identifier of the x coordinate of every node, of shape `[ny, nx]`."@,
                        ],
                        label: Label::Optional,
                        ty: TypeRefView::Scalar("uint64"@),
                        name: "x"@,
                        number: 1,
                    }),
                    FieldView::Field(FieldSpecView {
                        docs: seq![
                            " The data identifier of the y coordinate of every node, of shape `[ny, nx]`."@,
                        ],
                        label: Label::Optional,
                        ty: TypeRefView::Scalar("uint64"@),
                        name: "y"@,
                        number: 2,
                    }),
                ],
                reserved: seq![],
            }),
            ItemView::Message(MessageView {
                name: "Levels"@,
                docs: seq![
                    " The field values at which contours are drawn."@,
                ],
                fields: seq![
                    FieldView::Oneof {
                        name: "kind"@,
                        docs: seq![
                            " The kind of levels; unset means the default of the context."@,
                        ],
                        variants: seq![
                            FieldSpecView {
                                docs: seq![
                                    " Levels are chosen at nice values spanning the data range."@,
                                ],
                                label: Label::Singular,
                                ty: TypeRefView::Named("LevelsAuto"@),
                                name: "automatic"@,
                                number: 1,
                            },
                            FieldSpecView {
                                docs: seq![
                                    " Levels are given explicitly."@,
                                ],
                                label: Label::Singular,
                                ty: TypeRefView::Named("LevelsExplicit"@),
                                name: "explicit_values"@,
                                number: 2,
                            },
                        ],
                    },
                ],
                reserved: seq![],
            }),
            ItemView::Message(MessageView {
                name: "LevelsAuto"@,
                docs: seq![
                    " Levels are chosen at nice values spanning the data range."@,
                ],
                fields: seq![
                    FieldView::Field(FieldSpecView {
                        docs: seq![
                            " The approximate number of levels."@,
                        ],
                        label: Label::Optional,
                        ty: TypeRefView::Scalar("uint32"@),
                        name: "count"@,
                        number: 1,
                    }),
                ],
                reserved: seq![],
            }),
            ItemView::Message(MessageView {
                name: "LevelsExplicit"@,
                docs: seq![
                    " Levels are given explicitly."@,
                ],
                fields: seq![
                    FieldView::Field(FieldSpecView {
                        docs: seq![
                            " The levels, in ascending order."@,
                        ],
                        label: Label::Repeated,
                        ty: TypeRefView::Scalar("double"@),
                        name: "values"@,
                        number: 1,
                    }),
                ],
                reserved: seq![],
            }),
            ItemView::Message(MessageView {
                name: "ContourPlacement"@,
                docs: seq![
                    " Where contours are placed in 3D axes."@,
                ],
                fields: seq![
                    FieldView::Oneof {
                        name: "kind"@,
                        docs: seq![
                            " The kind of placement; unset means the default of the context."@,
                        ],
                        variants: seq![
                            FieldSpecView {
                                docs: seq![
                                    " All contours lie in one horizontal plane."@,
                                ],
                                label: Label::Singular,
                                ty: TypeRefView::Named("ContourPlacementPlane"@),
                                name: "plane"@,
                                number: 1,
                            },
                            FieldSpecView {
                                docs: seq![
                                    " Each isoline is drawn at the height of its level."@,
                                ],
                                label: Label::Singular,
                                ty: TypeRefView::Named("ContourPlacementAtLevel"@),
                                name: "at_level"@,
                                number: 2,
                            },
                        ],
                    },
                ],
                reserved: seq![],
            }),
            ItemView::Message(MessageView {
                name: "ContourPlacementPlane"@,
                docs: seq![
                    " All contours lie in one horizontal plane."@,
                ],
                fields: seq![
                    FieldView::Field(FieldSpecView {
                        docs: seq![
                            " The height of the plane in 3D axes; absent for the bottom of the z axis."@,
                        ],
                        label: Label::Optional,
                        ty: TypeRefView::Scalar("double"@),
                        name: "z"@,
                        number: 1,
                    }),
                ],
                reserved: seq![],
            }),
            ItemView::Message(MessageView {
                name: "ContourPlacementAtLevel"@,
                docs: seq![
                    " Each isoline is drawn at the height of its level; valid only in 3D axes."@,
                ],
                fields: seq![],
                reserved: seq![],
            }),
            ItemView::Message(MessageView {
                name: "Quiver"@,
                docs: seq![
                    " Arrows representing a vector field at data points."@,
                ],
                fields: seq![
                    FieldView::Field(FieldSpecView {
                        docs: seq![
                            " The node identifier of the artist, unique within the figure."@,
                        ],
                        label: Label::Optional,
                        ty: TypeRefView::Scalar("uint64"@),
                        name: "id"@,
                        number: 1,
                    }),
                    FieldView::Field(FieldSpecView {
                        docs: seq![
                            " The name shown for the artist in the legend; absent when there is none."@,
                        ],
                        label: Label::Singular,
                        ty: TypeRefView::Named("Text"@),
                        name: "display_name"@,
                        number: 2,
                    }),
                    FieldView::Field(FieldSpecView {
                        docs: seq![
                            " Whether the artist is drawn."@,
                        ],
                        label: Label::Optional,
                        ty: TypeRefView::Scalar("bool"@),
                        name: "visible"@,
                        number: 3,
                    }),
                    FieldView::Field(FieldSpecView {
                        docs: seq![
                            " The data identifier of the x coordinates of the arrow tails."@,
                        ],
                        label: Label::Optional,
                        ty: TypeRefView::Scalar("uint64"@),
                        name: "x"@,
                        number: 4,
                    }),
                    FieldView::Field(FieldSpecView {
                        docs: seq![
                            " The data identifier of the y coordinates of the arrow tails."@,
                        ],
                        label: Label::Optional,
                        ty: TypeRefView::Scalar("uint64"@),
                        name: "y"@,
                        number: 5,
                    }),
                    FieldView::Field(FieldSpecView {
                        docs: seq![
                            " The data identifier of the z coordinates of the arrow tails; absent when the"@,
                            " tails lie in the plane z = 0."@,
                        ],
                        label: Label::Optional,
                        ty: TypeRefView::Scalar("uint64"@),
                        name: "z"@,
                        number: 6,
                    }),
                    FieldView::Field(FieldSpecView {
                        docs: seq![
                            " The data identifier of the x components of the vectors."@,
                        ],
                        label: Label::Optional,
                        ty: TypeRefView::Scalar("uint64"@),
                        name: "u"@,
                        number: 7,
                    }),
                    FieldView::Field(FieldSpecView {
                        docs: seq![
                            " The data identifier of the y components of the vectors."@,
                        ],
                        label: Label::Optional,
                        ty: TypeRefView::Scalar("uint64"@),
                        name: "v"@,
                        number: 8,
                    }),
                    FieldView::Field(FieldSpecView {
                        docs: seq![
                            " The data identifier of the z components of the vectors; absent when the"@,
                            " vectors lie in horizontal planes."@,
                        ],
                        label: Label::Optional,
                        ty: TypeRefView::Scalar("uint64"@),
                        name: "w"@,
                        number: 9,
                    }),
                    FieldView::Field(FieldSpecView {
                        docs: seq![
                            " How vector lengths are scaled into arrow lengths."@,
                        ],
                        label: Label::Singular,
                        ty: TypeRefView::Named("QuiverScale"@),
                        name: "scale"@,
                        number: 10,
                    }),
                    FieldView::Field(FieldSpecView {
                        docs: seq![
                            " The style of the arrow shafts and heads."@,
                        ],
                        label: Label::Singular,
                        ty: TypeRefView::Named("LineStyle"@),
                        name: "line"@,
                        number: 11,
                    }),
                    FieldView::Field(FieldSpecView {
                        docs: seq![
                            " The length of each arrow head as a fraction of its arrow's length."@,
                        ],
                        label: Label::Optional,
                        ty: TypeRefView::Scalar("double"@),
                        name: "head_size"@,
                        number: 12,
                    }),
                ],
                reserved: seq![],
            }),
            ItemView::Message(MessageView {
                name: "QuiverScale"@,
                docs: seq![
                    " How quiver vector lengths are scaled into arrow lengths."@,
                ],
                fields: seq![
                    FieldView::Oneof {
                        name: "kind"@,
                        docs: seq![
                            " The kind of scaling; unset means the default of the context."@,
                        ],
                        variants: seq![
                            FieldSpecView {
                                docs: seq![
                                    " Arrows are scaled so that the longest does not overlap its neighbours."@,
                                ],
                                label: Label::Singular,
                                ty: TypeRefView::Named("QuiverScaleAuto"@),
                                name: "automatic"@,
                                number: 1,
                            },
                            FieldSpecView {
                                docs: seq![
                                    " The automatic scale is multiplied by a factor."@,
                                ],
                                label: Label::Singular,
                                ty: TypeRefView::Named("QuiverScaleFactor"@),
                                name: "factor"@,
                                number: 2,
                            },
                            FieldSpecView {
                                docs: seq![
                                    " Arrows are drawn with the vectors' lengths in data units."@,
                                ],
                                label: Label::Singular,
                                ty: TypeRefView::Named("QuiverScaleOff"@),
                                name: "off"@,
                                number: 3,
                            },
                        ],
                    },
                ],
                reserved: seq![],
            }),
            ItemView::Message(MessageView {
                name: "QuiverScaleAuto"@,
                docs: seq![
                    " Arrows are scaled so that the longest does not overlap its neighbours."@,
                ],
                fields: seq![],
                reserved: seq![],
            }),
            ItemView::Message(MessageView {
                name: "QuiverScaleFactor"@,
                docs: seq![
                    " The automatic scale is multiplied by a factor."@,
                ],
                fields: seq![
                    FieldView::Field(FieldSpecView {
                        docs: seq![
                            " The multiplier applied to the automatic scale."@,
                        ],
                        label: Label::Optional,
                        ty: TypeRefView::Scalar("double"@),
                        name: "value"@,
                        number: 1,
                    }),
                ],
                reserved: seq![],
            }),
            ItemView::Message(MessageView {
                name: "QuiverScaleOff"@,
                docs: seq![
                    " Arrows are drawn with the vectors' lengths in data units."@,
                ],
                fields: seq![],
                reserved: seq![],
            }),
            ItemView::Message(MessageView {
                name: "Surface"@,
                docs: seq![
                    " A surface of quadrilateral faces over a grid, valid in either projection; in a"@,
                    " two-dimensional axes it is seen from directly above."@,
                ],
                fields: seq![
                    FieldView::Field(FieldSpecView {
                        docs: seq![
                            " The node identifier of the artist, unique within the figure."@,
                        ],
                        label: Label::Optional,
                        ty: TypeRefView::Scalar("uint64"@),
                        name: "id"@,
                        number: 1,
                    }),
                    FieldView::Field(FieldSpecView {
                        docs: seq![
                            " The name shown for the artist in the legend; absent when there is none."@,
                        ],
                        label: Label::Singular,
                        ty: TypeRefView::Named("Text"@),
                        name: "display_name"@,
                        number: 2,
                    }),
                    FieldView::Field(FieldSpecView {
                        docs: seq![
                            " Whether the artist is drawn."@,
                        ],
                        label: Label::Optional,
                        ty: TypeRefView::Scalar("bool"@),
                        name: "visible"@,
                        number: 3,
                    }),
                    FieldView::Field(FieldSpecView {
                        docs: seq![
                            " The grid on which the surface is sampled."@,
                        ],
                        label: Label::Singular,
                        ty: TypeRefView::Named("Grid"@),
                        name: "grid"@,
                        number: 4,
                    }),
                    FieldView::Field(FieldSpecView {
                        docs: seq![
                            " The data identifier of the field, of shape `[ny, nx]`: the height of every node"@,
                            " in a three-dimensional axes, and the colour data unless `c` is given."@,
                        ],
                        label: Label::Optional,
                        ty: TypeRefView::Scalar("uint64"@),
                        name: "z"@,
                        number: 5,
                    }),
                    FieldView::Field(FieldSpecView {
                        docs: seq![
                            " The data identifier of the colour data of every node; absent when the"@,
                            " surface is coloured by its field."@,
                        ],
                        label: Label::Optional,
                        ty: TypeRefView::Scalar("uint64"@),
                        name: "c"@,
                        number: 6,
                    }),
                    FieldView::Field(FieldSpecView {
                        docs: seq![
                            " The colour of the faces."@,
                        ],
                        label: Label::Singular,
                        ty: TypeRefView::Named("ColorSpec"@),
                        name: "face"@,
                        number: 7,
                    }),
                    FieldView::Field(FieldSpecView {
                        docs: seq![
                            " The colour of the face edges."@,
                        ],
                        label: Label::Singular,
                        ty: TypeRefView::Named("ColorSpec"@),
                        name: "edge"@,
                        number: 8,
                    }),
                    FieldView::Field(FieldSpecView {
                        docs: seq![
                            " The width of the face edges in points."@,
                        ],
                        label: Label::Optional,
                        ty: TypeRefView::Scalar("double"@),
                        name: "edge_width_pt"@,
                        number: 9,
                    }),
                ],
                reserved: seq![],
            }),
            ItemView::Message(MessageView {
                name: "Image"@,
                docs: seq![
                    " A true-colour image: a raster of pixels, each with its own colour."@,
                ],
                fields: seq![
                    FieldView::Field(FieldSpecView {
                        docs: seq![
                            " The node identifier of the artist, unique within the figure."@,
                        ],
                        label: Label::Optional,
                        ty: TypeRefView::Scalar("uint64"@),
                        name: "id"@,
                        number: 1,
                    }),
                    FieldView::Field(FieldSpecView {
                        docs: seq![
                            " The name shown for the artist in the legend; absent when there is none."@,
                        ],
                        label: Label::Singular,
                        ty: TypeRefView::Named("Text"@),
                        name: "display_name"@,
                        number: 2,
                    }),
                    FieldView::Field(FieldSpecView {
                        docs: seq![
                            " Whether the artist is drawn."@,
                        ],
                        label: Label::Optional,
                        ty: TypeRefView::Scalar("bool"@),
                        name: "visible"@,
                        number: 3,
                    }),
                    FieldView::Field(FieldSpecView {
                        docs: seq![
                            " The data identifier of the pixels, of shape `[ny, nx, 3]` (red, green and"@,
                            " blue) or `[ny, nx, 4]` (red, green, blue and alpha), holding floating-point"@,
                            " components from 0 to 1 or 8-bit components from 0 to 255."@,
                        ],
                        label: Label::Optional,
                        ty: TypeRefView::Scalar("uint64"@),
                        name: "pixels"@,
                        number: 4,
                    }),
                    FieldView::Field(FieldSpecView {
                        docs: seq![
                            " Where the pixels lie in the axes."@,
                        ],
                        label: Label::Singular,
                        ty: TypeRefView::Named("ImagePlacement"@),
                        name: "placement"@,
                        number: 5,
                    }),
                ],
                reserved: seq![],
            }),
            ItemView::Message(MessageView {
                name: "IndexedImage"@,
                docs: seq![
                    " A colour-indexed image: a raster of pixels whose values name entries of the axes"@,
                    " colormap directly, an index being truncated toward zero and taking the entry"@,
                    " from 0 to 255 of that number."@,
                ],
                fields: seq![
                    FieldView::Field(FieldSpecView {
                        docs: seq![
                            " The node identifier of the artist, unique within the figure."@,
                        ],
                        label: Label::Optional,
                        ty: TypeRefView::Scalar("uint64"@),
                        name: "id"@,
                        number: 1,
                    }),
                    FieldView::Field(FieldSpecView {
                        docs: seq![
                            " The name shown for the artist in the legend; absent when there is none."@,
                        ],
                        label: Label::Singular,
                        ty: TypeRefView::Named("Text"@),
                        name: "display_name"@,
                        number: 2,
                    }),
                    FieldView::Field(FieldSpecView {
                        docs: seq![
                            " Whether the artist is drawn."@,
                        ],
                        label: Label::Optional,
                        ty: TypeRefView::Scalar("bool"@),
                        name: "visible"@,
                        number: 3,
                    }),
                    FieldView::Field(FieldSpecView {
                        docs: seq![
                            " The data identifier of the indices, of shape `[ny, nx]`, holding"@,
                            " floating-point or 8-bit values."@,
                        ],
                        label: Label::Optional,
                        ty: TypeRefView::Scalar("uint64"@),
                        name: "indices"@,
                        number: 4,
                    }),
                    FieldView::Field(FieldSpecView {
                        docs: seq![
                            " Where the pixels lie in the axes."@,
                        ],
                        label: Label::Singular,
                        ty: TypeRefView::Named("ImagePlacement"@),
                        name: "placement"@,
                        number: 5,
                    }),
                    FieldView::Field(FieldSpecView {
                        docs: seq![
                            " What is drawn for a pixel whose truncated index is less than 0."@,
                        ],
                        label: Label::Singular,
                        ty: TypeRefView::Named("OutOfRange"@),
                        name: "below"@,
                        number: 6,
                    }),
                    FieldView::Field(FieldSpecView {
                        docs: seq![
                            " What is drawn for a pixel whose truncated index is greater than 255."@,
                        ],
                        label: Label::Singular,
                        ty: TypeRefView::Named("OutOfRange"@),
                        name: "above"@,
                        number: 7,
                    }),
                    FieldView::Field(FieldSpecView {
                        docs: seq![
                            " What is drawn for a pixel whose index is not finite."@,
                        ],
                        label: Label::Singular,
                        ty: TypeRefView::Named("OutOfRange"@),
                        name: "non_finite"@,
                        number: 8,
                    }),
                ],
                reserved: seq![],
            }),
            ItemView::Message(MessageView {
                name: "MappedImage"@,
                docs: seq![
                    " A colour-mapped image: a raster of data values, each scaled through the colour"@,
                    " limits of the axes into its colormap."@,
                ],
                fields: seq![
                    FieldView::Field(FieldSpecView {
                        docs: seq![
                            " The node identifier of the artist, unique within the figure."@,
                        ],
                        label: Label::Optional,
                        ty: TypeRefView::Scalar("uint64"@),
                        name: "id"@,
                        number: 1,
                    }),
                    FieldView::Field(FieldSpecView {
                        docs: seq![
                            " The name shown for the artist in the legend; absent when there is none."@,
                        ],
                        label: Label::Singular,
                        ty: TypeRefView::Named("Text"@),
                        name: "display_name"@,
                        number: 2,
                    }),
                    FieldView::Field(FieldSpecView {
                        docs: seq![
                            " Whether the artist is drawn."@,
                        ],
                        label: Label::Optional,
                        ty: TypeRefView::Scalar("bool"@),
                        name: "visible"@,
                        number: 3,
                    }),
                    FieldView::Field(FieldSpecView {
                        docs: seq![
                            " The data identifier of the values, of shape `[ny, nx]`, holding"@,
                            " floating-point or 8-bit values."@,
                        ],
                        label: Label::Optional,
                        ty: TypeRefView::Scalar("uint64"@),
                        name: "values"@,
                        number: 4,
                    }),
                    FieldView::Field(FieldSpecView {
                        docs: seq![
                            " Where the pixels lie in the axes."@,
                        ],
                        label: Label::Singular,
                        ty: TypeRefView::Named("ImagePlacement"@),
                        name: "placement"@,
                        number: 5,
                    }),
                    FieldView::Field(FieldSpecView {
                        docs: seq![
                            " What is drawn for a pixel whose value is less than the lower colour limit."@,
                        ],
                        label: Label::Singular,
                        ty: TypeRefView::Named("OutOfRange"@),
                        name: "below"@,
                        number: 6,
                    }),
                    FieldView::Field(FieldSpecView {
                        docs: seq![
                            " What is drawn for a pixel whose value is greater than the upper colour"@,
                            " limit."@,
                        ],
                        label: Label::Singular,
                        ty: TypeRefView::Named("OutOfRange"@),
                        name: "above"@,
                        number: 7,
                    }),
                    FieldView::Field(FieldSpecView {
                        docs: seq![
                            " What is drawn for a pixel whose value is not finite."@,
                        ],
                        label: Label::Singular,
                        ty: TypeRefView::Named("OutOfRange"@),
                        name: "non_finite"@,
                        number: 8,
                    }),
                ],
                reserved: seq![],
            }),
            ItemView::Message(MessageView {
                name: "ImagePlacement"@,
                docs: seq![
                    " Where the pixels of an image lie in its axes: the plane of the image and the"@,
                    " coordinates of its pixel centres along the two axes of that plane."@,
                ],
                fields: seq![
                    FieldView::Field(FieldSpecView {
                        docs: seq![
                            " The plane in which the image lies; unset means the xy plane at the bottom"@,
                            " of the z axis."@,
                        ],
                        label: Label::Singular,
                        ty: TypeRefView::Named("ImagePlane"@),
                        name: "plane"@,
                        number: 1,
                    }),
                    FieldView::Field(FieldSpecView {
                        docs: seq![
                            " The centres of the first and last columns along the first axis of the"@,
                            " plane; absent for centres at 0 to nx - 1."@,
                        ],
                        label: Label::Singular,
                        ty: TypeRefView::Named("PixelRange"@),
                        name: "columns"@,
                        number: 2,
                    }),
                    FieldView::Field(FieldSpecView {
                        docs: seq![
                            " The centres of the first and last rows along the second axis of the plane;"@,
                            " absent for centres at 0 to ny - 1."@,
                        ],
                        label: Label::Singular,
                        ty: TypeRefView::Named("PixelRange"@),
                        name: "rows"@,
                        number: 3,
                    }),
                ],
                reserved: seq![],
            }),
            ItemView::Message(MessageView {
                name: "PixelRange"@,
                docs: seq![
                    " The coordinates of the centres of the first and last pixels of an image along"@,
                    " one axis of its plane; a last centre before the first mirrors the image."@,
                ],
                fields: seq![
                    FieldView::Field(FieldSpecView {
                        docs: seq![
                            " The coordinate of the centre of the first pixel."@,
                        ],
                        label: Label::Optional,
                        ty: TypeRefView::Scalar("double"@),
                        name: "first"@,
                        number: 1,
                    }),
                    FieldView::Field(FieldSpecView {
                        docs: seq![
                            " The coordinate of the centre of the last pixel."@,
                        ],
                        label: Label::Optional,
                        ty: TypeRefView::Scalar("double"@),
                        name: "last"@,
                        number: 2,
                    }),
                ],
                reserved: seq![],
            }),
            ItemView::Message(MessageView {
                name: "ImagePlane"@,
                docs: seq![
                    " The plane of an axes in which an image lies, with the offset of the plane along"@,
                    " the third axis."@,
                ],
                fields: seq![
                    FieldView::Oneof {
                        name: "kind"@,
                        docs: seq![
                            " The plane; unset means the xy plane at the bottom of the z axis."@,
                        ],
                        variants: seq![
                            FieldSpecView {
                                docs: seq![
                                    " The plane of the x and y axes."@,
                                ],
                                label: Label::Singular,
                                ty: TypeRefView::Named("ImagePlaneXy"@),
                                name: "xy"@,
                                number: 1,
                            },
                            FieldSpecView {
                                docs: seq![
                                    " The plane of the x and z axes."@,
                                ],
                                label: Label::Singular,
                                ty: TypeRefView::Named("ImagePlaneXz"@),
                                name: "xz"@,
                                number: 2,
                            },
                            FieldSpecView {
                                docs: seq![
                                    " The plane of the y and z axes."@,
                                ],
                                label: Label::Singular,
                                ty: TypeRefView::Named("ImagePlaneYz"@),
                                name: "yz"@,
                                number: 3,
                            },
                        ],
                    },
                ],
                reserved: seq![],
            }),
            ItemView::Message(MessageView {
                name: "ImagePlaneXy"@,
                docs: seq![
                    " The plane of the x and y axes: the floor of a three-dimensional axes."@,
                ],
                fields: seq![
                    FieldView::Field(FieldSpecView {
                        docs: seq![
                            " The height of the plane; absent for the bottom of the z axis. Ignored by"@,
                            " two-dimensional axes."@,
                        ],
                        label: Label::Optional,
                        ty: TypeRefView::Scalar("double"@),
                        name: "z"@,
                        number: 1,
                    }),
                ],
                reserved: seq![],
            }),
            ItemView::Message(MessageView {
                name: "ImagePlaneXz"@,
                docs: seq![
                    " The plane of the x and z axes: a wall of a three-dimensional axes."@,
                ],
                fields: seq![
                    FieldView::Field(FieldSpecView {
                        docs: seq![
                            " The y coordinate of the plane; absent for the low end of the y axis."@,
                        ],
                        label: Label::Optional,
                        ty: TypeRefView::Scalar("double"@),
                        name: "y"@,
                        number: 1,
                    }),
                ],
                reserved: seq![],
            }),
            ItemView::Message(MessageView {
                name: "ImagePlaneYz"@,
                docs: seq![
                    " The plane of the y and z axes: the other wall of a three-dimensional axes."@,
                ],
                fields: seq![
                    FieldView::Field(FieldSpecView {
                        docs: seq![
                            " The x coordinate of the plane; absent for the low end of the x axis."@,
                        ],
                        label: Label::Optional,
                        ty: TypeRefView::Scalar("double"@),
                        name: "x"@,
                        number: 1,
                    }),
                ],
                reserved: seq![],
            }),
            ItemView::Message(MessageView {
                name: "OutOfRange"@,
                docs: seq![
                    " What is drawn for a pixel of a colour-indexed or colour-mapped image that the"@,
                    " artist cannot colour."@,
                ],
                fields: seq![
                    FieldView::Oneof {
                        name: "kind"@,
                        docs: seq![
                            " The policy; unset means the default of the context, which is transparent."@,
                        ],
                        variants: seq![
                            FieldSpecView {
                                docs: seq![
                                    " Such a pixel makes the figure invalid."@,
                                ],
                                label: Label::Singular,
                                ty: TypeRefView::Named("OutOfRangeStrict"@),
                                name: "strict"@,
                                number: 1,
                            },
                            FieldSpecView {
                                docs: seq![
                                    " Nothing is drawn for the pixel."@,
                                ],
                                label: Label::Singular,
                                ty: TypeRefView::Named("OutOfRangeTransparent"@),
                                name: "transparent"@,
                                number: 2,
                            },
                            FieldSpecView {
                                docs: seq![
                                    " The pixel takes the nearest end colour of the colormap."@,
                                ],
                                label: Label::Singular,
                                ty: TypeRefView::Named("OutOfRangeClamp"@),
                                name: "clamp"@,
                                number: 3,
                            },
                            FieldSpecView {
                                docs: seq![
                                    " The pixel is drawn in a fixed colour."@,
                                ],
                                label: Label::Singular,
                                ty: TypeRefView::Named("OutOfRangeRgba"@),
                                name: "rgba"@,
                                number: 4,
                            },
                        ],
                    },
                ],
                reserved: seq![],
            }),
            ItemView::Message(MessageView {
                name: "OutOfRangeStrict"@,
                docs: seq![
                    " Such a pixel makes the figure invalid, so it is refused until the data is"@,
                    " corrected."@,
                ],
                fields: seq![],
                reserved: seq![],
            }),
            ItemView::Message(MessageView {
                name: "OutOfRangeTransparent"@,
                docs: seq![
                    " Nothing is drawn for the pixel."@,
                ],
                fields: seq![],
                reserved: seq![],
            }),
            ItemView::Message(MessageView {
                name: "OutOfRangeClamp"@,
                docs: seq![
                    " The pixel takes the nearest end colour of the colormap: its first entry below the"@,
                    " range and its last entry above it; a non-finite value has no nearest end, so"@,
                    " nothing is drawn for it."@,
                ],
                fields: seq![],
                reserved: seq![],
            }),
            ItemView::Message(MessageView {
                name: "OutOfRangeRgba"@,
                docs: seq![
                    " The pixel is drawn in a fixed colour."@,
                ],
                fields: seq![
                    FieldView::Field(FieldSpecView {
                        docs: seq![
                            " The colour of the pixel; absent means black."@,
                        ],
                        label: Label::Singular,
                        ty: TypeRefView::Named("Color"@),
                        name: "color"@,
                        number: 1,
                    }),
                ],
                reserved: seq![],
            }),
        ],
    }
}

/// The declaration of this module's `.proto` file.
#[verifier::rlimit(100)]
#[verifier::spinoff_prover]
pub fn file() -> (f: FileDef)
    ensures
        f.module@ == "ironlab_ir::wire::artist"@,
        file_view(f) == spec_file(),
{
    let f = FileDef {
        module: "ironlab_ir::wire::artist",
        items: vec![
            ItemDef::Message(MessageDef {
                name: "Artist",
                docs: vec![
                    " A drawable node of an axes.",
                ],
                fields: vec![
                    FieldDef::Oneof {
                        name: "kind",
                        docs: vec![
                            " The kind of artist; it must be set.",
                        ],
                        variants: vec![
                            FieldSpec {
                                docs: vec![
                                    " A polyline with optional markers.",
                                ],
                                label: Label::Singular,
                                ty: TypeRef::Named("Line"),
                                name: "line",
                                number: 1,
                            },
                            FieldSpec {
                                docs: vec![
                                    " Markers at data points with per-point size and colour.",
                                ],
                                label: Label::Singular,
                                ty: TypeRef::Named("Scatter"),
                                name: "scatter",
                                number: 2,
                            },
                            FieldSpec {
                                docs: vec![
                                    " Isolines or filled isobands of a gridded field.",
                                ],
                                label: Label::Singular,
                                ty: TypeRef::Named("Contour"),
                                name: "contour",
                                number: 3,
                            },
                            FieldSpec {
                                docs: vec![
                                    " Arrows at data points.",
                                ],
                                label: Label::Singular,
                                ty: TypeRef::Named("Quiver"),
                                name: "quiver",
                                number: 4,
                            },
                            FieldSpec {
                                docs: vec![
                                    " A gridded surface of faces.",
                                ],
                                label: Label::Singular,
                                ty: TypeRef::Named("Surface"),
                                name: "surface",
                                number: 5,
                            },
                            FieldSpec {
                                docs: vec![
                                    " A raster of true-colour pixels.",
                                ],
                                label: Label::Singular,
                                ty: TypeRef::Named("Image"),
                                name: "image",
                                number: 6,
                            },
                            FieldSpec {
                                docs: vec![
                                    " A raster of pixels that name entries of the axes colormap.",
                                ],
                                label: Label::Singular,
                                ty: TypeRef::Named("IndexedImage"),
                                name: "indexed_image",
                                number: 7,
                            },
                            FieldSpec {
                                docs: vec![
                                    " A raster of data values mapped through the axes colormap and colour",
                                    " limits.",
                                ],
                                label: Label::Singular,
                                ty: TypeRef::Named("MappedImage"),
                                name: "mapped_image",
                                number: 8,
                            },
                        ],
                    },
                ],
                reserved: vec![],
            }),
            ItemDef::Message(MessageDef {
                name: "Line",
                docs: vec![
                    " A polyline through data points, with optional markers at the points.",
                ],
                fields: vec![
                    FieldDef::Field(FieldSpec {
                        docs: vec![
                            " The node identifier of the artist, unique within the figure.",
                        ],
                        label: Label::Optional,
                        ty: TypeRef::Scalar("uint64"),
                        name: "id",
                        number: 1,
                    }),
                    FieldDef::Field(FieldSpec {
                        docs: vec![
                            " The name shown for the artist in the legend; absent when there is none.",
                        ],
                        label: Label::Singular,
                        ty: TypeRef::Named("Text"),
                        name: "display_name",
                        number: 2,
                    }),
                    FieldDef::Field(FieldSpec {
                        docs: vec![
                            " Whether the artist is drawn.",
                        ],
                        label: Label::Optional,
                        ty: TypeRef::Scalar("bool"),
                        name: "visible",
                        number: 3,
                    }),
                    FieldDef::Field(FieldSpec {
                        docs: vec![
                            " The data identifier of the x coordinates of the points.",
                        ],
                        label: Label::Optional,
                        ty: TypeRef::Scalar("uint64"),
                        name: "x",
                        number: 4,
                    }),
                    FieldDef::Field(FieldSpec {
                        docs: vec![
                            " The data identifier of the y coordinates of the points.",
                        ],
                        label: Label::Optional,
                        ty: TypeRef::Scalar("uint64"),
                        name: "y",
                        number: 5,
                    }),
                    FieldDef::Field(FieldSpec {
                        docs: vec![
                            " The data identifier of the z coordinates of the points; absent when the",
                            " points lie in the plane z = 0.",
                        ],
                        label: Label::Optional,
                        ty: TypeRef::Scalar("uint64"),
                        name: "z",
                        number: 6,
                    }),
                    FieldDef::Field(FieldSpec {
                        docs: vec![
                            " The style of the line through the points.",
                        ],
                        label: Label::Singular,
                        ty: TypeRef::Named("LineStyle"),
                        name: "line",
                        number: 7,
                    }),
                    FieldDef::Field(FieldSpec {
                        docs: vec![
                            " The style of the markers at the points.",
                        ],
                        label: Label::Singular,
                        ty: TypeRef::Named("MarkerStyle"),
                        name: "marker",
                        number: 8,
                    }),
                ],
                reserved: vec![],
            }),
            ItemDef::Message(MessageDef {
                name: "Scatter",
                docs: vec![
                    " Markers at data points, each with its own size and colour.",
                ],
                fields: vec![
                    FieldDef::Field(FieldSpec {
                        docs: vec![
                            " The node identifier of the artist, unique within the figure.",
                        ],
                        label: Label::Optional,
                        ty: TypeRef::Scalar("uint64"),
                        name: "id",
                        number: 1,
                    }),
                    FieldDef::Field(FieldSpec {
                        docs: vec![
                            " The name shown for the artist in the legend; absent when there is none.",
                        ],
                        label: Label::Singular,
                        ty: TypeRef::Named("Text"),
                        name: "display_name",
                        number: 2,
                    }),
                    FieldDef::Field(FieldSpec {
                        docs: vec![
                            " Whether the artist is drawn.",
                        ],
                        label: Label::Optional,
                        ty: TypeRef::Scalar("bool"),
                        name: "visible",
                        number: 3,
                    }),
                    FieldDef::Field(FieldSpec {
                        docs: vec![
                            " The data identifier of the x coordinates of the points.",
                        ],
                        label: Label::Optional,
                        ty: TypeRef::Scalar("uint64"),
                        name: "x",
                        number: 4,
                    }),
                    FieldDef::Field(FieldSpec {
                        docs: vec![
                            " The data identifier of the y coordinates of the points.",
                        ],
                        label: Label::Optional,
                        ty: TypeRef::Scalar("uint64"),
                        name: "y",
                        number: 5,
                    }),
                    FieldDef::Field(FieldSpec {
                        docs: vec![
                            " The data identifier of the z coordinates of the points; absent when the",
                            " points lie in the plane z = 0.",
                        ],
                        label: Label::Optional,
                        ty: TypeRef::Scalar("uint64"),
                        name: "z",
                        number: 6,
                    }),
                    FieldDef::Field(FieldSpec {
                        docs: vec![
                            " The size of the markers, which overrides the marker style's size.",
                        ],
                        label: Label::Singular,
                        ty: TypeRef::Named("ScatterSize"),
                        name: "size",
                        number: 7,
                    }),
                    FieldDef::Field(FieldSpec {
                        docs: vec![
                            " The colour of the markers, applied wherever the marker face or edge is",
                            " automatic.",
                        ],
                        label: Label::Singular,
                        ty: TypeRef::Named("ScatterColor"),
                        name: "color",
                        number: 8,
                    }),
                    FieldDef::Field(FieldSpec {
                        docs: vec![
                            " The marker shape and the use of the scatter colour for face and edge.",
                        ],
                        label: Label::Singular,
                        ty: TypeRef::Named("MarkerStyle"),
                        name: "marker",
                        number: 9,
                    }),
                ],
                reserved: vec![],
            }),
            ItemDef::Message(MessageDef {
                name: "ScatterSize",
                docs: vec![
                    " The size of scatter markers.",
                ],
                fields: vec![
                    FieldDef::Oneof {
                        name: "kind",
                        docs: vec![
                            " The kind of size; unset means the default of the context.",
                        ],
                        variants: vec![
                            FieldSpec {
                                docs: vec![
                                    " Every marker has the same size.",
                                ],
                                label: Label::Singular,
                                ty: TypeRef::Named("ScatterSizeScalar"),
                                name: "scalar",
                                number: 1,
                            },
                            FieldSpec {
                                docs: vec![
                                    " Each marker has its own size.",
                                ],
                                label: Label::Singular,
                                ty: TypeRef::Named("ScatterSizeData"),
                                name: "data",
                                number: 2,
                            },
                        ],
                    },
                ],
                reserved: vec![],
            }),
            ItemDef::Message(MessageDef {
                name: "ScatterSizeScalar",
                docs: vec![
                    " Every marker has the same size.",
                ],
                fields: vec![
                    FieldDef::Field(FieldSpec {
                        docs: vec![
                            " The marker size in points, measured as the width of the marker.",
                        ],
                        label: Label::Optional,
                        ty: TypeRef::Scalar("double"),
                        name: "value",
                        number: 1,
                    }),
                ],
                reserved: vec![],
            }),
            ItemDef::Message(MessageDef {
                name: "ScatterSizeData",
                docs: vec![
                    " Each marker has its own size.",
                ],
                fields: vec![
                    FieldDef::Field(FieldSpec {
                        docs: vec![
                            " The data identifier of the marker sizes in points, one per point.",
                        ],
                        label: Label::Optional,
                        ty: TypeRef::Scalar("uint64"),
                        name: "data",
                        number: 1,
                    }),
                ],
                reserved: vec![],
            }),
            ItemDef::Message(MessageDef {
                name: "ScatterColor",
                docs: vec![
                    " The colour of scatter markers.",
                ],
                fields: vec![
                    FieldDef::Oneof {
                        name: "kind",
                        docs: vec![
                            " The kind of colour; unset means the default of the context.",
                        ],
                        variants: vec![
                            FieldSpec {
                                docs: vec![
                                    " Every marker has the same colour.",
                                ],
                                label: Label::Singular,
                                ty: TypeRef::Named("ScatterColorSpec"),
                                name: "spec",
                                number: 1,
                            },
                            FieldSpec {
                                docs: vec![
                                    " Each marker is coloured by a data value through the axes colormap.",
                                ],
                                label: Label::Singular,
                                ty: TypeRef::Named("ScatterColorData"),
                                name: "data",
                                number: 2,
                            },
                        ],
                    },
                ],
                reserved: vec![],
            }),
            ItemDef::Message(MessageDef {
                name: "ScatterColorSpec",
                docs: vec![
                    " Every marker has the same colour.",
                ],
                fields: vec![
                    FieldDef::Field(FieldSpec {
                        docs: vec![
                            " The colour of every marker.",
                        ],
                        label: Label::Singular,
                        ty: TypeRef::Named("ColorSpec"),
                        name: "spec",
                        number: 1,
                    }),
                ],
                reserved: vec![],
            }),
            ItemDef::Message(MessageDef {
                name: "ScatterColorData",
                docs: vec![
                    " Each marker is coloured by a data value through the axes colormap.",
                ],
                fields: vec![
                    FieldDef::Field(FieldSpec {
                        docs: vec![
                            " The data identifier of the values, one per point, mapped through the axes",
                            " colormap and colour limits.",
                        ],
                        label: Label::Optional,
                        ty: TypeRef::Scalar("uint64"),
                        name: "data",
                        number: 1,
                    }),
                ],
                reserved: vec![],
            }),
            ItemDef::Message(MessageDef {
                name: "Contour",
                docs: vec![
                    " Isolines or filled isobands of a scalar field sampled on a grid.",
                ],
                fields: vec![
                    FieldDef::Field(FieldSpec {
                        docs: vec![
                            " The node identifier of the artist, unique within the figure.",
                        ],
                        label: Label::Optional,
                        ty: TypeRef::Scalar("uint64"),
                        name: "id",
                        number: 1,
                    }),
                    FieldDef::Field(FieldSpec {
                        docs: vec![
                            " The name shown for the artist in the legend; absent when there is none.",
                        ],
                        label: Label::Singular,
                        ty: TypeRef::Named("Text"),
                        name: "display_name",
                        number: 2,
                    }),
                    FieldDef::Field(FieldSpec {
                        docs: vec![
                            " Whether the artist is drawn.",
                        ],
                        label: Label::Optional,
                        ty: TypeRef::Scalar("bool"),
                        name: "visible",
                        number: 3,
                    }),
                    FieldDef::Field(FieldSpec {
                        docs: vec![
                            " The grid on which the field is sampled.",
                        ],
                        label: Label::Singular,
                        ty: TypeRef::Named("Grid"),
                        name: "grid",
                        number: 4,
                    }),
                    FieldDef::Field(FieldSpec {
                        docs: vec![
                            " The data identifier of the field values, of shape `[ny, nx]`.",
                        ],
                        label: Label::Optional,
                        ty: TypeRef::Scalar("uint64"),
                        name: "z",
                        number: 5,
                    }),
                    FieldDef::Field(FieldSpec {
                        docs: vec![
                            " The field values at which isolines are drawn or between which bands are",
                            " filled.",
                        ],
                        label: Label::Singular,
                        ty: TypeRef::Named("Levels"),
                        name: "levels",
                        number: 6,
                    }),
                    FieldDef::Field(FieldSpec {
                        docs: vec![
                            " Whether the bands between levels are filled rather than only the isolines",
                            " drawn.",
                        ],
                        label: Label::Optional,
                        ty: TypeRef::Scalar("bool"),
                        name: "fill",
                        number: 7,
                    }),
                    FieldDef::Field(FieldSpec {
                        docs: vec![
                            " Where the contours are placed in 3D axes.",
                        ],
                        label: Label::Singular,
                        ty: TypeRef::Named("ContourPlacement"),
                        name: "placement",
                        number: 8,
                    }),
                    FieldDef::Field(FieldSpec {
                        docs: vec![
                            " The style of the isolines.",
                        ],
                        label: Label::Singular,
                        ty: TypeRef::Named("LineStyle"),
                        name: "line",
                        number: 9,
                    }),
                ],
                reserved: vec![],
            }),
            ItemDef::Message(MessageDef {
                name: "Grid",
                docs: vec![
                    " The grid on which a field of shape `[ny, nx]` is sampled.",
                ],
                fields: vec![
                    FieldDef::Oneof {
                        name: "kind",
                        docs: vec![
                            " The kind of grid; unset means the default of the context.",
                        ],
                        variants: vec![
                            FieldSpec {
                                docs: vec![
                                    " An axis-aligned grid defined by one coordinate vector per axis.",
                                ],
                                label: Label::Singular,
                                ty: TypeRef::Named("GridRectilinear"),
                                name: "rectilinear",
                                number: 1,
                            },
                            FieldSpec {
                                docs: vec![
                                    " A structured grid whose every node has its own coordinates.",
                                ],
                                label: Label::Singular,
                                ty: TypeRef::Named("GridCurvilinear"),
                                name: "curvilinear",
                                number: 2,
                            },
                        ],
                    },
                ],
                reserved: vec![],
            }),
            ItemDef::Message(MessageDef {
                name: "GridRectilinear",
                docs: vec![
                    " An axis-aligned grid defined by one coordinate vector per axis.",
                ],
                fields: vec![
                    FieldDef::Field(FieldSpec {
                        docs: vec![
                            " The data identifier of the x coordinates of the columns, `nx` values.",
                        ],
                        label: Label::Optional,
                        ty: TypeRef::Scalar("uint64"),
                        name: "x",
                        number: 1,
                    }),
                    FieldDef::Field(FieldSpec {
                        docs: vec![
                            " The data identifier of the y coordinates of the rows, `ny` values.",
                        ],
                        label: Label::Optional,
                        ty: TypeRef::Scalar("uint64"),
                        name: "y",
                        number: 2,
                    }),
                ],
                reserved: vec![],
            }),
            ItemDef::Message(MessageDef {
                name: "GridCurvilinear",
                docs: vec![
                    " A structured grid whose every node has its own coordinates.",
                ],
                fields: vec![
                    FieldDef::Field(FieldSpec {
                        docs: vec![
                            " The data identifier of the x coordinate of every node, of shape `[ny, nx]`.",
                        ],
                        label: Label::Optional,
                        ty: TypeRef::Scalar("uint64"),
                        name: "x",
                        number: 1,
                    }),
                    FieldDef::Field(FieldSpec {
                        docs: vec![
                            " The data identifier of the y coordinate of every node, of shape `[ny, nx]`.",
                        ],
                        label: Label::Optional,
                        ty: TypeRef::Scalar("uint64"),
                        name: "y",
                        number: 2,
                    }),
                ],
                reserved: vec![],
            }),
            ItemDef::Message(MessageDef {
                name: "Levels",
                docs: vec![
                    " The field values at which contours are drawn.",
                ],
                fields: vec![
                    FieldDef::Oneof {
                        name: "kind",
                        docs: vec![
                            " The kind of levels; unset means the default of the context.",
                        ],
                        variants: vec![
                            FieldSpec {
                                docs: vec![
                                    " Levels are chosen at nice values spanning the data range.",
                                ],
                                label: Label::Singular,
                                ty: TypeRef::Named("LevelsAuto"),
                                name: "automatic",
                                number: 1,
                            },
                            FieldSpec {
                                docs: vec![
                                    " Levels are given explicitly.",
                                ],
                                label: Label::Singular,
                                ty: TypeRef::Named("LevelsExplicit"),
                                name: "explicit_values",
                                number: 2,
                            },
                        ],
                    },
                ],
                reserved: vec![],
            }),
            ItemDef::Message(MessageDef {
                name: "LevelsAuto",
                docs: vec![
                    " Levels are chosen at nice values spanning the data range.",
                ],
                fields: vec![
                    FieldDef::Field(FieldSpec {
                        docs: vec![
                            " The approximate number of levels.",
                        ],
                        label: Label::Optional,
                        ty: TypeRef::Scalar("uint32"),
                        name: "count",
                        number: 1,
                    }),
                ],
                reserved: vec![],
            }),
            ItemDef::Message(MessageDef {
                name: "LevelsExplicit",
                docs: vec![
                    " Levels are given explicitly.",
                ],
                fields: vec![
                    FieldDef::Field(FieldSpec {
                        docs: vec![
                            " The levels, in ascending order.",
                        ],
                        label: Label::Repeated,
                        ty: TypeRef::Scalar("double"),
                        name: "values",
                        number: 1,
                    }),
                ],
                reserved: vec![],
            }),
            ItemDef::Message(MessageDef {
                name: "ContourPlacement",
                docs: vec![
                    " Where contours are placed in 3D axes.",
                ],
                fields: vec![
                    FieldDef::Oneof {
                        name: "kind",
                        docs: vec![
                            " The kind of placement; unset means the default of the context.",
                        ],
                        variants: vec![
                            FieldSpec {
                                docs: vec![
                                    " All contours lie in one horizontal plane.",
                                ],
                                label: Label::Singular,
                                ty: TypeRef::Named("ContourPlacementPlane"),
                                name: "plane",
                                number: 1,
                            },
                            FieldSpec {
                                docs: vec![
                                    " Each isoline is drawn at the height of its level.",
                                ],
                                label: Label::Singular,
                                ty: TypeRef::Named("ContourPlacementAtLevel"),
                                name: "at_level",
                                number: 2,
                            },
                        ],
                    },
                ],
                reserved: vec![],
            }),
            ItemDef::Message(MessageDef {
                name: "ContourPlacementPlane",
                docs: vec![
                    " All contours lie in one horizontal plane.",
                ],
                fields: vec![
                    FieldDef::Field(FieldSpec {
                        docs: vec![
                            " The height of the plane in 3D axes; absent for the bottom of the z axis.",
                        ],
                        label: Label::Optional,
                        ty: TypeRef::Scalar("double"),
                        name: "z",
                        number: 1,
                    }),
                ],
                reserved: vec![],
            }),
            ItemDef::Message(MessageDef {
                name: "ContourPlacementAtLevel",
                docs: vec![
                    " Each isoline is drawn at the height of its level; valid only in 3D axes.",
                ],
                fields: vec![],
                reserved: vec![],
            }),
            ItemDef::Message(MessageDef {
                name: "Quiver",
                docs: vec![
                    " Arrows representing a vector field at data points.",
                ],
                fields: vec![
                    FieldDef::Field(FieldSpec {
                        docs: vec![
                            " The node identifier of the artist, unique within the figure.",
                        ],
                        label: Label::Optional,
                        ty: TypeRef::Scalar("uint64"),
                        name: "id",
                        number: 1,
                    }),
                    FieldDef::Field(FieldSpec {
                        docs: vec![
                            " The name shown for the artist in the legend; absent when there is none.",
                        ],
                        label: Label::Singular,
                        ty: TypeRef::Named("Text"),
                        name: "display_name",
                        number: 2,
                    }),
                    FieldDef::Field(FieldSpec {
                        docs: vec![
                            " Whether the artist is drawn.",
                        ],
                        label: Label::Optional,
                        ty: TypeRef::Scalar("bool"),
                        name: "visible",
                        number: 3,
                    }),
                    FieldDef::Field(FieldSpec {
                        docs: vec![
                            " The data identifier of the x coordinates of the arrow tails.",
                        ],
                        label: Label::Optional,
                        ty: TypeRef::Scalar("uint64"),
                        name: "x",
                        number: 4,
                    }),
                    FieldDef::Field(FieldSpec {
                        docs: vec![
                            " The data identifier of the y coordinates of the arrow tails.",
                        ],
                        label: Label::Optional,
                        ty: TypeRef::Scalar("uint64"),
                        name: "y",
                        number: 5,
                    }),
                    FieldDef::Field(FieldSpec {
                        docs: vec![
                            " The data identifier of the z coordinates of the arrow tails; absent when the",
                            " tails lie in the plane z = 0.",
                        ],
                        label: Label::Optional,
                        ty: TypeRef::Scalar("uint64"),
                        name: "z",
                        number: 6,
                    }),
                    FieldDef::Field(FieldSpec {
                        docs: vec![
                            " The data identifier of the x components of the vectors.",
                        ],
                        label: Label::Optional,
                        ty: TypeRef::Scalar("uint64"),
                        name: "u",
                        number: 7,
                    }),
                    FieldDef::Field(FieldSpec {
                        docs: vec![
                            " The data identifier of the y components of the vectors.",
                        ],
                        label: Label::Optional,
                        ty: TypeRef::Scalar("uint64"),
                        name: "v",
                        number: 8,
                    }),
                    FieldDef::Field(FieldSpec {
                        docs: vec![
                            " The data identifier of the z components of the vectors; absent when the",
                            " vectors lie in horizontal planes.",
                        ],
                        label: Label::Optional,
                        ty: TypeRef::Scalar("uint64"),
                        name: "w",
                        number: 9,
                    }),
                    FieldDef::Field(FieldSpec {
                        docs: vec![
                            " How vector lengths are scaled into arrow lengths.",
                        ],
                        label: Label::Singular,
                        ty: TypeRef::Named("QuiverScale"),
                        name: "scale",
                        number: 10,
                    }),
                    FieldDef::Field(FieldSpec {
                        docs: vec![
                            " The style of the arrow shafts and heads.",
                        ],
                        label: Label::Singular,
                        ty: TypeRef::Named("LineStyle"),
                        name: "line",
                        number: 11,
                    }),
                    FieldDef::Field(FieldSpec {
                        docs: vec![
                            " The length of each arrow head as a fraction of its arrow's length.",
                        ],
                        label: Label::Optional,
                        ty: TypeRef::Scalar("double"),
                        name: "head_size",
                        number: 12,
                    }),
                ],
                reserved: vec![],
            }),
            ItemDef::Message(MessageDef {
                name: "QuiverScale",
                docs: vec![
                    " How quiver vector lengths are scaled into arrow lengths.",
                ],
                fields: vec![
                    FieldDef::Oneof {
                        name: "kind",
                        docs: vec![
                            " The kind of scaling; unset means the default of the context.",
                        ],
                        variants: vec![
                            FieldSpec {
                                docs: vec![
                                    " Arrows are scaled so that the longest does not overlap its neighbours.",
                                ],
                                label: Label::Singular,
                                ty: TypeRef::Named("QuiverScaleAuto"),
                                name: "automatic",
                                number: 1,
                            },
                            FieldSpec {
                                docs: vec![
                                    " The automatic scale is multiplied by a factor.",
                                ],
                                label: Label::Singular,
                                ty: TypeRef::Named("QuiverScaleFactor"),
                                name: "factor",
                                number: 2,
                            },
                            FieldSpec {
                                docs: vec![
                                    " Arrows are drawn with the vectors' lengths in data units.",
                                ],
                                label: Label::Singular,
                                ty: TypeRef::Named("QuiverScaleOff"),
                                name: "off",
                                number: 3,
                            },
                        ],
                    },
                ],
                reserved: vec![],
            }),
            ItemDef::Message(MessageDef {
                name: "QuiverScaleAuto",
                docs: vec![
                    " Arrows are scaled so that the longest does not overlap its neighbours.",
                ],
                fields: vec![],
                reserved: vec![],
            }),
            ItemDef::Message(MessageDef {
                name: "QuiverScaleFactor",
                docs: vec![
                    " The automatic scale is multiplied by a factor.",
                ],
                fields: vec![
                    FieldDef::Field(FieldSpec {
                        docs: vec![
                            " The multiplier applied to the automatic scale.",
                        ],
                        label: Label::Optional,
                        ty: TypeRef::Scalar("double"),
                        name: "value",
                        number: 1,
                    }),
                ],
                reserved: vec![],
            }),
            ItemDef::Message(MessageDef {
                name: "QuiverScaleOff",
                docs: vec![
                    " Arrows are drawn with the vectors' lengths in data units.",
                ],
                fields: vec![],
                reserved: vec![],
            }),
            ItemDef::Message(MessageDef {
                name: "Surface",
                docs: vec![
                    " A surface of quadrilateral faces over a grid, valid in either projection; in a",
                    " two-dimensional axes it is seen from directly above.",
                ],
                fields: vec![
                    FieldDef::Field(FieldSpec {
                        docs: vec![
                            " The node identifier of the artist, unique within the figure.",
                        ],
                        label: Label::Optional,
                        ty: TypeRef::Scalar("uint64"),
                        name: "id",
                        number: 1,
                    }),
                    FieldDef::Field(FieldSpec {
                        docs: vec![
                            " The name shown for the artist in the legend; absent when there is none.",
                        ],
                        label: Label::Singular,
                        ty: TypeRef::Named("Text"),
                        name: "display_name",
                        number: 2,
                    }),
                    FieldDef::Field(FieldSpec {
                        docs: vec![
                            " Whether the artist is drawn.",
                        ],
                        label: Label::Optional,
                        ty: TypeRef::Scalar("bool"),
                        name: "visible",
                        number: 3,
                    }),
                    FieldDef::Field(FieldSpec {
                        docs: vec![
                            " The grid on which the surface is sampled.",
                        ],
                        label: Label::Singular,
                        ty: TypeRef::Named("Grid"),
                        name: "grid",
                        number: 4,
                    }),
                    FieldDef::Field(FieldSpec {
                        docs: vec![
                            " The data identifier of the field, of shape `[ny, nx]`: the height of every node",
                            " in a three-dimensional axes, and the colour data unless `c` is given.",
                        ],
                        label: Label::Optional,
                        ty: TypeRef::Scalar("uint64"),
                        name: "z",
                        number: 5,
                    }),
                    FieldDef::Field(FieldSpec {
                        docs: vec![
                            " The data identifier of the colour data of every node; absent when the",
                            " surface is coloured by its field.",
                        ],
                        label: Label::Optional,
                        ty: TypeRef::Scalar("uint64"),
                        name: "c",
                        number: 6,
                    }),
                    FieldDef::Field(FieldSpec {
                        docs: vec![
                            " The colour of the faces.",
                        ],
                        label: Label::Singular,
                        ty: TypeRef::Named("ColorSpec"),
                        name: "face",
                        number: 7,
                    }),
                    FieldDef::Field(FieldSpec {
                        docs: vec![
                            " The colour of the face edges.",
                        ],
                        label: Label::Singular,
                        ty: TypeRef::Named("ColorSpec"),
                        name: "edge",
                        number: 8,
                    }),
                    FieldDef::Field(FieldSpec {
                        docs: vec![
                            " The width of the face edges in points.",
                        ],
                        label: Label::Optional,
                        ty: TypeRef::Scalar("double"),
                        name: "edge_width_pt",
                        number: 9,
                    }),
                ],
                reserved: vec![],
            }),
            ItemDef::Message(MessageDef {
                name: "Image",
                docs: vec![
                    " A true-colour image: a raster of pixels, each with its own colour.",
                ],
                fields: vec![
                    FieldDef::Field(FieldSpec {
                        docs: vec![
                            " The node identifier of the artist, unique within the figure.",
                        ],
                        label: Label::Optional,
                        ty: TypeRef::Scalar("uint64"),
                        name: "id",
                        number: 1,
                    }),
                    FieldDef::Field(FieldSpec {
                        docs: vec![
                            " The name shown for the artist in the legend; absent when there is none.",
                        ],
                        label: Label::Singular,
                        ty: TypeRef::Named("Text"),
                        name: "display_name",
                        number: 2,
                    }),
                    FieldDef::Field(FieldSpec {
                        docs: vec![
                            " Whether the artist is drawn.",
                        ],
                        label: Label::Optional,
                        ty: TypeRef::Scalar("bool"),
                        name: "visible",
                        number: 3,
                    }),
                    FieldDef::Field(FieldSpec {
                        docs: vec![
                            " The data identifier of the pixels, of shape `[ny, nx, 3]` (red, green and",
                            " blue) or `[ny, nx, 4]` (red, green, blue and alpha), holding floating-point",
                            " components from 0 to 1 or 8-bit components from 0 to 255.",
                        ],
                        label: Label::Optional,
                        ty: TypeRef::Scalar("uint64"),
                        name: "pixels",
                        number: 4,
                    }),
                    FieldDef::Field(FieldSpec {
                        docs: vec![
                            " Where the pixels lie in the axes.",
                        ],
                        label: Label::Singular,
                        ty: TypeRef::Named("ImagePlacement"),
                        name: "placement",
                        number: 5,
                    }),
                ],
                reserved: vec![],
            }),
            ItemDef::Message(MessageDef {
                name: "IndexedImage",
                docs: vec![
                    " A colour-indexed image: a raster of pixels whose values name entries of the axes",
                    " colormap directly, an index being truncated toward zero and taking the entry",
                    " from 0 to 255 of that number.",
                ],
                fields: vec![
                    FieldDef::Field(FieldSpec {
                        docs: vec![
                            " The node identifier of the artist, unique within the figure.",
                        ],
                        label: Label::Optional,
                        ty: TypeRef::Scalar("uint64"),
                        name: "id",
                        number: 1,
                    }),
                    FieldDef::Field(FieldSpec {
                        docs: vec![
                            " The name shown for the artist in the legend; absent when there is none.",
                        ],
                        label: Label::Singular,
                        ty: TypeRef::Named("Text"),
                        name: "display_name",
                        number: 2,
                    }),
                    FieldDef::Field(FieldSpec {
                        docs: vec![
                            " Whether the artist is drawn.",
                        ],
                        label: Label::Optional,
                        ty: TypeRef::Scalar("bool"),
                        name: "visible",
                        number: 3,
                    }),
                    FieldDef::Field(FieldSpec {
                        docs: vec![
                            " The data identifier of the indices, of shape `[ny, nx]`, holding",
                            " floating-point or 8-bit values.",
                        ],
                        label: Label::Optional,
                        ty: TypeRef::Scalar("uint64"),
                        name: "indices",
                        number: 4,
                    }),
                    FieldDef::Field(FieldSpec {
                        docs: vec![
                            " Where the pixels lie in the axes.",
                        ],
                        label: Label::Singular,
                        ty: TypeRef::Named("ImagePlacement"),
                        name: "placement",
                        number: 5,
                    }),
                    FieldDef::Field(FieldSpec {
                        docs: vec![
                            " What is drawn for a pixel whose truncated index is less than 0.",
                        ],
                        label: Label::Singular,
                        ty: TypeRef::Named("OutOfRange"),
                        name: "below",
                        number: 6,
                    }),
                    FieldDef::Field(FieldSpec {
                        docs: vec![
                            " What is drawn for a pixel whose truncated index is greater than 255.",
                        ],
                        label: Label::Singular,
                        ty: TypeRef::Named("OutOfRange"),
                        name: "above",
                        number: 7,
                    }),
                    FieldDef::Field(FieldSpec {
                        docs: vec![
                            " What is drawn for a pixel whose index is not finite.",
                        ],
                        label: Label::Singular,
                        ty: TypeRef::Named("OutOfRange"),
                        name: "non_finite",
                        number: 8,
                    }),
                ],
                reserved: vec![],
            }),
            ItemDef::Message(MessageDef {
                name: "MappedImage",
                docs: vec![
                    " A colour-mapped image: a raster of data values, each scaled through the colour",
                    " limits of the axes into its colormap.",
                ],
                fields: vec![
                    FieldDef::Field(FieldSpec {
                        docs: vec![
                            " The node identifier of the artist, unique within the figure.",
                        ],
                        label: Label::Optional,
                        ty: TypeRef::Scalar("uint64"),
                        name: "id",
                        number: 1,
                    }),
                    FieldDef::Field(FieldSpec {
                        docs: vec![
                            " The name shown for the artist in the legend; absent when there is none.",
                        ],
                        label: Label::Singular,
                        ty: TypeRef::Named("Text"),
                        name: "display_name",
                        number: 2,
                    }),
                    FieldDef::Field(FieldSpec {
                        docs: vec![
                            " Whether the artist is drawn.",
                        ],
                        label: Label::Optional,
                        ty: TypeRef::Scalar("bool"),
                        name: "visible",
                        number: 3,
                    }),
                    FieldDef::Field(FieldSpec {
                        docs: vec![
                            " The data identifier of the values, of shape `[ny, nx]`, holding",
                            " floating-point or 8-bit values.",
                        ],
                        label: Label::Optional,
                        ty: TypeRef::Scalar("uint64"),
                        name: "values",
                        number: 4,
                    }),
                    FieldDef::Field(FieldSpec {
                        docs: vec![
                            " Where the pixels lie in the axes.",
                        ],
                        label: Label::Singular,
                        ty: TypeRef::Named("ImagePlacement"),
                        name: "placement",
                        number: 5,
                    }),
                    FieldDef::Field(FieldSpec {
                        docs: vec![
                            " What is drawn for a pixel whose value is less than the lower colour limit.",
                        ],
                        label: Label::Singular,
                        ty: TypeRef::Named("OutOfRange"),
                        name: "below",
                        number: 6,
                    }),
                    FieldDef::Field(FieldSpec {
                        docs: vec![
                            " What is drawn for a pixel whose value is greater than the upper colour",
                            " limit.",
                        ],
                        label: Label::Singular,
                        ty: TypeRef::Named("OutOfRange"),
                        name: "above",
                        number: 7,
                    }),
                    FieldDef::Field(FieldSpec {
                        docs: vec![
                            " What is drawn for a pixel whose value is not finite.",
                        ],
                        label: Label::Singular,
                        ty: TypeRef::Named("OutOfRange"),
                        name: "non_finite",
                        number: 8,
                    }),
                ],
                reserved: vec![],
            }),
            ItemDef::Message(MessageDef {
                name: "ImagePlacement",
                docs: vec![
                    " Where the pixels of an image lie in its axes: the plane of the image and the",
                    " coordinates of its pixel centres along the two axes of that plane.",
                ],
                fields: vec![
                    FieldDef::Field(FieldSpec {
                        docs: vec![
                            " The plane in which the image lies; unset means the xy plane at the bottom",
                            " of the z axis.",
                        ],
                        label: Label::Singular,
                        ty: TypeRef::Named("ImagePlane"),
                        name: "plane",
                        number: 1,
                    }),
                    FieldDef::Field(FieldSpec {
                        docs: vec![
                            " The centres of the first and last columns along the first axis of the",
                            " plane; absent for centres at 0 to nx - 1.",
                        ],
                        label: Label::Singular,
                        ty: TypeRef::Named("PixelRange"),
                        name: "columns",
                        number: 2,
                    }),
                    FieldDef::Field(FieldSpec {
                        docs: vec![
                            " The centres of the first and last rows along the second axis of the plane;",
                            " absent for centres at 0 to ny - 1.",
                        ],
                        label: Label::Singular,
                        ty: TypeRef::Named("PixelRange"),
                        name: "rows",
                        number: 3,
                    }),
                ],
                reserved: vec![],
            }),
            ItemDef::Message(MessageDef {
                name: "PixelRange",
                docs: vec![
                    " The coordinates of the centres of the first and last pixels of an image along",
                    " one axis of its plane; a last centre before the first mirrors the image.",
                ],
                fields: vec![
                    FieldDef::Field(FieldSpec {
                        docs: vec![
                            " The coordinate of the centre of the first pixel.",
                        ],
                        label: Label::Optional,
                        ty: TypeRef::Scalar("double"),
                        name: "first",
                        number: 1,
                    }),
                    FieldDef::Field(FieldSpec {
                        docs: vec![
                            " The coordinate of the centre of the last pixel.",
                        ],
                        label: Label::Optional,
                        ty: TypeRef::Scalar("double"),
                        name: "last",
                        number: 2,
                    }),
                ],
                reserved: vec![],
            }),
            ItemDef::Message(MessageDef {
                name: "ImagePlane",
                docs: vec![
                    " The plane of an axes in which an image lies, with the offset of the plane along",
                    " the third axis.",
                ],
                fields: vec![
                    FieldDef::Oneof {
                        name: "kind",
                        docs: vec![
                            " The plane; unset means the xy plane at the bottom of the z axis.",
                        ],
                        variants: vec![
                            FieldSpec {
                                docs: vec![
                                    " The plane of the x and y axes.",
                                ],
                                label: Label::Singular,
                                ty: TypeRef::Named("ImagePlaneXy"),
                                name: "xy",
                                number: 1,
                            },
                            FieldSpec {
                                docs: vec![
                                    " The plane of the x and z axes.",
                                ],
                                label: Label::Singular,
                                ty: TypeRef::Named("ImagePlaneXz"),
                                name: "xz",
                                number: 2,
                            },
                            FieldSpec {
                                docs: vec![
                                    " The plane of the y and z axes.",
                                ],
                                label: Label::Singular,
                                ty: TypeRef::Named("ImagePlaneYz"),
                                name: "yz",
                                number: 3,
                            },
                        ],
                    },
                ],
                reserved: vec![],
            }),
            ItemDef::Message(MessageDef {
                name: "ImagePlaneXy",
                docs: vec![
                    " The plane of the x and y axes: the floor of a three-dimensional axes.",
                ],
                fields: vec![
                    FieldDef::Field(FieldSpec {
                        docs: vec![
                            " The height of the plane; absent for the bottom of the z axis. Ignored by",
                            " two-dimensional axes.",
                        ],
                        label: Label::Optional,
                        ty: TypeRef::Scalar("double"),
                        name: "z",
                        number: 1,
                    }),
                ],
                reserved: vec![],
            }),
            ItemDef::Message(MessageDef {
                name: "ImagePlaneXz",
                docs: vec![
                    " The plane of the x and z axes: a wall of a three-dimensional axes.",
                ],
                fields: vec![
                    FieldDef::Field(FieldSpec {
                        docs: vec![
                            " The y coordinate of the plane; absent for the low end of the y axis.",
                        ],
                        label: Label::Optional,
                        ty: TypeRef::Scalar("double"),
                        name: "y",
                        number: 1,
                    }),
                ],
                reserved: vec![],
            }),
            ItemDef::Message(MessageDef {
                name: "ImagePlaneYz",
                docs: vec![
                    " The plane of the y and z axes: the other wall of a three-dimensional axes.",
                ],
                fields: vec![
                    FieldDef::Field(FieldSpec {
                        docs: vec![
                            " The x coordinate of the plane; absent for the low end of the x axis.",
                        ],
                        label: Label::Optional,
                        ty: TypeRef::Scalar("double"),
                        name: "x",
                        number: 1,
                    }),
                ],
                reserved: vec![],
            }),
            ItemDef::Message(MessageDef {
                name: "OutOfRange",
                docs: vec![
                    " What is drawn for a pixel of a colour-indexed or colour-mapped image that the",
                    " artist cannot colour.",
                ],
                fields: vec![
                    FieldDef::Oneof {
                        name: "kind",
                        docs: vec![
                            " The policy; unset means the default of the context, which is transparent.",
                        ],
                        variants: vec![
                            FieldSpec {
                                docs: vec![
                                    " Such a pixel makes the figure invalid.",
                                ],
                                label: Label::Singular,
                                ty: TypeRef::Named("OutOfRangeStrict"),
                                name: "strict",
                                number: 1,
                            },
                            FieldSpec {
                                docs: vec![
                                    " Nothing is drawn for the pixel.",
                                ],
                                label: Label::Singular,
                                ty: TypeRef::Named("OutOfRangeTransparent"),
                                name: "transparent",
                                number: 2,
                            },
                            FieldSpec {
                                docs: vec![
                                    " The pixel takes the nearest end colour of the colormap.",
                                ],
                                label: Label::Singular,
                                ty: TypeRef::Named("OutOfRangeClamp"),
                                name: "clamp",
                                number: 3,
                            },
                            FieldSpec {
                                docs: vec![
                                    " The pixel is drawn in a fixed colour.",
                                ],
                                label: Label::Singular,
                                ty: TypeRef::Named("OutOfRangeRgba"),
                                name: "rgba",
                                number: 4,
                            },
                        ],
                    },
                ],
                reserved: vec![],
            }),
            ItemDef::Message(MessageDef {
                name: "OutOfRangeStrict",
                docs: vec![
                    " Such a pixel makes the figure invalid, so it is refused until the data is",
                    " corrected.",
                ],
                fields: vec![],
                reserved: vec![],
            }),
            ItemDef::Message(MessageDef {
                name: "OutOfRangeTransparent",
                docs: vec![
                    " Nothing is drawn for the pixel.",
                ],
                fields: vec![],
                reserved: vec![],
            }),
            ItemDef::Message(MessageDef {
                name: "OutOfRangeClamp",
                docs: vec![
                    " The pixel takes the nearest end colour of the colormap: its first entry below the",
                    " range and its last entry above it; a non-finite value has no nearest end, so",
                    " nothing is drawn for it.",
                ],
                fields: vec![],
                reserved: vec![],
            }),
            ItemDef::Message(MessageDef {
                name: "OutOfRangeRgba",
                docs: vec![
                    " The pixel is drawn in a fixed colour.",
                ],
                fields: vec![
                    FieldDef::Field(FieldSpec {
                        docs: vec![
                            " The colour of the pixel; absent means black.",
                        ],
                        label: Label::Singular,
                        ty: TypeRef::Named("Color"),
                        name: "color",
                        number: 1,
                    }),
                ],
                reserved: vec![],
            }),
        ],
    };
    assert(file_view(f) =~~= spec_file());
    f
}

} // verus!
