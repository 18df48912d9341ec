//! Wire types of `ironlab/ir/v0/edit.proto`.

use vstd::prelude::*;

use super::view::{file_view, FieldSpecView, FieldView, FileView, ItemView, MessageView, EnumView, ValueView, TypeRefView};
use super::schema::{FieldDef, FieldSpec, FileDef, ItemDef, Label, MessageDef, TypeRef};

verus! {

/// The declarations of this module's `.proto` file, as values.
pub closed spec fn spec_file() -> FileView {
    FileView {
        module: "ironlab_ir::wire::edit"@,
        items: seq![
            ItemView::Message(MessageView {
                name: "Transaction"@,
                docs: seq![
                    " An ordered list of edits that are applied to a figure together or not at all."@,
                ],
                fields: seq![
                    FieldView::Field(FieldSpecView {
                        docs: seq![
                            " The edits, in the order in which they are applied."@,
                        ],
                        label: Label::Repeated,
                        ty: TypeRefView::Named("Edit"@),
                        name: "edits"@,
                        number: 1,
                    }),
                ],
                reserved: seq![],
            }),
            ItemView::Message(MessageView {
                name: "Edit"@,
                docs: seq![
                    " A change to a figure."@,
                ],
                fields: seq![
                    FieldView::Oneof {
                        name: "kind"@,
                        docs: seq![
                            " The kind of edit; it must be set."@,
                        ],
                        variants: seq![
                            FieldSpecView {
                                docs: seq![
                                    " Replaces the value of a property of a node."@,
                                ],
                                label: Label::Singular,
                                ty: TypeRefView::Named("EditSet"@),
                                name: "set_property"@,
                                number: 1,
                            },
                            FieldSpecView {
                                docs: seq![
                                    " Inserts an axes or an artist, with its subtree."@,
                                ],
                                label: Label::Singular,
                                ty: TypeRefView::Named("EditInsert"@),
                                name: "insert_node"@,
                                number: 2,
                            },
                            FieldSpecView {
                                docs: seq![
                                    " Removes a node and its subtree."@,
                                ],
                                label: Label::Singular,
                                ty: TypeRefView::Named("EditRemove"@),
                                name: "remove_node"@,
                                number: 3,
                            },
                            FieldSpecView {
                                docs: seq![
                                    " Moves a node within its parent or to another parent."@,
                                ],
                                label: Label::Singular,
                                ty: TypeRefView::Named("EditMove"@),
                                name: "move_node"@,
                                number: 4,
                            },
                            FieldSpecView {
                                docs: seq![
                                    " Creates or replaces a data array."@,
                                ],
                                label: Label::Singular,
                                ty: TypeRefView::Named("EditPutData"@),
                                name: "put_data"@,
                                number: 5,
                            },
                            FieldSpecView {
                                docs: seq![
                                    " Appends entries to a data array along its first dimension."@,
                                ],
                                label: Label::Singular,
                                ty: TypeRefView::Named("EditAppendData"@),
                                name: "append_data"@,
                                number: 6,
                            },
                            FieldSpecView {
                                docs: seq![
                                    " Removes a data array."@,
                                ],
                                label: Label::Singular,
                                ty: TypeRefView::Named("EditRemoveData"@),
                                name: "remove_data"@,
                                number: 7,
                            },
                        ],
                    },
                ],
                reserved: seq![],
            }),
            ItemView::Message(MessageView {
                name: "EditSet"@,
                docs: seq![
                    " Replaces the value of a property of a node."@,
                ],
                fields: seq![
                    FieldView::Field(FieldSpecView {
                        docs: seq![
                            " The identifier of the node; it must be present."@,
                        ],
                        label: Label::Optional,
                        ty: TypeRefView::Scalar("uint64"@),
                        name: "node"@,
                        number: 1,
                    }),
                    FieldView::Field(FieldSpecView {
                        docs: seq![
                            " The path of the property within the node: Protocol Buffers field names"@,
                            " separated by dots, such as `x.limits.min`; it must be a valid path."@,
                        ],
                        label: Label::Singular,
                        ty: TypeRefView::Scalar("string"@),
                        name: "path"@,
                        number: 2,
                    }),
                    FieldView::Field(FieldSpecView {
                        docs: seq![
                            " The new value; it must be present."@,
                        ],
                        label: Label::Singular,
                        ty: TypeRefView::Named("Value"@),
                        name: "value"@,
                        number: 3,
                    }),
                ],
                reserved: seq![],
            }),
            ItemView::Message(MessageView {
                name: "EditInsert"@,
                docs: seq![
                    " Inserts an axes into the figure, or an artist into an axes, with its subtree."@,
                ],
                fields: seq![
                    FieldView::Field(FieldSpecView {
                        docs: seq![
                            " The identifier of the parent: the figure for an axes, or an axes for an"@,
                            " artist; it must be present."@,
                        ],
                        label: Label::Optional,
                        ty: TypeRefView::Scalar("uint64"@),
                        name: "parent"@,
                        number: 1,
                    }),
                    FieldView::Field(FieldSpecView {
                        docs: seq![
                            " The position in the parent's list; absent to append."@,
                        ],
                        label: Label::Optional,
                        ty: TypeRefView::Scalar("uint32"@),
                        name: "index"@,
                        number: 2,
                    }),
                    FieldView::Field(FieldSpecView {
                        docs: seq![
                            " The node to insert; it must be present."@,
                        ],
                        label: Label::Singular,
                        ty: TypeRefView::Named("Node"@),
                        name: "node"@,
                        number: 3,
                    }),
                ],
                reserved: seq![],
            }),
            ItemView::Message(MessageView {
                name: "EditRemove"@,
                docs: seq![
                    " Removes a node and its subtree."@,
                ],
                fields: seq![
                    FieldView::Field(FieldSpecView {
                        docs: seq![
                            " The identifier of the axes or artist; it must be present."@,
                        ],
                        label: Label::Optional,
                        ty: TypeRefView::Scalar("uint64"@),
                        name: "node"@,
                        number: 1,
                    }),
                ],
                reserved: seq![],
            }),
            ItemView::Message(MessageView {
                name: "EditMove"@,
                docs: seq![
                    " Moves an axes within the figure, or an artist within its axes or to another axes."@,
                ],
                fields: seq![
                    FieldView::Field(FieldSpecView {
                        docs: seq![
                            " The identifier of the axes or artist; it must be present."@,
                        ],
                        label: Label::Optional,
                        ty: TypeRefView::Scalar("uint64"@),
                        name: "node"@,
                        number: 1,
                    }),
                    FieldView::Field(FieldSpecView {
                        docs: seq![
                            " The identifier of the new parent; it must be present."@,
                        ],
                        label: Label::Optional,
                        ty: TypeRefView::Scalar("uint64"@),
                        name: "parent"@,
                        number: 2,
                    }),
                    FieldView::Field(FieldSpecView {
                        docs: seq![
                            " The position in the new parent's list after the node is removed from its old"@,
                            " position; absent to append."@,
                        ],
                        label: Label::Optional,
                        ty: TypeRefView::Scalar("uint32"@),
                        name: "index"@,
                        number: 3,
                    }),
                ],
                reserved: seq![],
            }),
            ItemView::Message(MessageView {
                name: "EditPutData"@,
                docs: seq![
                    " Creates a data array or replaces an existing one."@,
                ],
                fields: seq![
                    FieldView::Field(FieldSpecView {
                        docs: seq![
                            " The data identifier; it must be present."@,
                        ],
                        label: Label::Optional,
                        ty: TypeRefView::Scalar("uint64"@),
                        name: "id"@,
                        number: 1,
                    }),
                    FieldView::Field(FieldSpecView {
                        docs: seq![
                            " The new array; it must be present."@,
                        ],
                        label: Label::Singular,
                        ty: TypeRefView::Named("NdArray"@),
                        name: "array"@,
                        number: 2,
                    }),
                ],
                reserved: seq![],
            }),
            ItemView::Message(MessageView {
                name: "EditAppendData"@,
                docs: seq![
                    " Appends entries to an existing array along its first dimension."@,
                ],
                fields: seq![
                    FieldView::Field(FieldSpecView {
                        docs: seq![
                            " The data identifier; it must be present."@,
                        ],
                        label: Label::Optional,
                        ty: TypeRefView::Scalar("uint64"@),
                        name: "id"@,
                        number: 1,
                    }),
                    FieldView::Field(FieldSpecView {
                        docs: seq![
                            " The entries to append; it must be present."@,
                        ],
                        label: Label::Singular,
                        ty: TypeRefView::Named("NdArray"@),
                        name: "array"@,
                        number: 2,
                    }),
                    FieldView::Field(FieldSpecView {
                        docs: seq![
                            " The number of entries along the first dimension to keep after appending,"@,
                            " counted from the end; absent to keep every entry."@,
                        ],
                        label: Label::Optional,
                        ty: TypeRefView::Scalar("uint64"@),
                        name: "retain"@,
                        number: 3,
                    }),
                ],
                reserved: seq![],
            }),
            ItemView::Message(MessageView {
                name: "EditRemoveData"@,
                docs: seq![
                    " Removes a data array."@,
                ],
                fields: seq![
                    FieldView::Field(FieldSpecView {
                        docs: seq![
                            " The data identifier; it must be present."@,
                        ],
                        label: Label::Optional,
                        ty: TypeRefView::Scalar("uint64"@),
                        name: "id"@,
                        number: 1,
                    }),
                ],
                reserved: seq![],
            }),
            ItemView::Message(MessageView {
                name: "Node"@,
                docs: seq![
                    " A node that can be inserted into a figure, with its subtree."@,
                ],
                fields: seq![
                    FieldView::Oneof {
                        name: "kind"@,
                        docs: seq![
                            " The kind of node; it must be set."@,
                        ],
                        variants: seq![
                            FieldSpecView {
                                docs: seq![
                                    " An axes with its artists."@,
                                ],
                                label: Label::Singular,
                                ty: TypeRefView::Named("Axes"@),
                                name: "axes"@,
                                number: 1,
                            },
                            FieldSpecView {
                                docs: seq![
                                    " An artist."@,
                                ],
                                label: Label::Singular,
                                ty: TypeRefView::Named("Artist"@),
                                name: "artist"@,
                                number: 2,
                            },
                        ],
                    },
                ],
                reserved: seq![],
            }),
            ItemView::Message(MessageView {
                name: "Value"@,
                docs: seq![
                    " The value of a property."@,
                ],
                fields: seq![
                    FieldView::Oneof {
                        name: "kind"@,
                        docs: seq![
                            " The type of value; it must be set."@,
                        ],
                        variants: seq![
                            FieldSpecView {
                                docs: seq![
                                    " No value: an optional property is cleared."@,
                                ],
                                label: Label::Singular,
                                ty: TypeRefView::Named("ValueUnset"@),
                                name: "unset"@,
                                number: 1,
                            },
                            FieldSpecView {
                                docs: seq![
                                    " A boolean."@,
                                ],
                                label: Label::Singular,
                                ty: TypeRefView::Named("ValueBool"@),
                                name: "bool_value"@,
                                number: 2,
                            },
                            FieldSpecView {
                                docs: seq![
                                    " An unsigned 32-bit integer."@,
                                ],
                                label: Label::Singular,
                                ty: TypeRefView::Named("ValueUint32"@),
                                name: "uint32_value"@,
                                number: 3,
                            },
                            FieldSpecView {
                                docs: seq![
                                    " A double-precision number."@,
                                ],
                                label: Label::Singular,
                                ty: TypeRefView::Named("ValueDouble"@),
                                name: "double_value"@,
                                number: 4,
                            },
                            FieldSpecView {
                                docs: seq![
                                    " A single-precision number: a component of a colour."@,
                                ],
                                label: Label::Singular,
                                ty: TypeRefView::Named("ValueFloat"@),
                                name: "float_value"@,
                                number: 5,
                            },
                            FieldSpecView {
                                docs: seq![
                                    " A string."@,
                                ],
                                label: Label::Singular,
                                ty: TypeRefView::Named("ValueString"@),
                                name: "string_value"@,
                                number: 6,
                            },
                            FieldSpecView {
                                docs: seq![
                                    " A reference to a data array."@,
                                ],
                                label: Label::Singular,
                                ty: TypeRefView::Named("ValueDataId"@),
                                name: "data_id_value"@,
                                number: 7,
                            },
                            FieldSpecView {
                                docs: seq![
                                    " A list of double-precision numbers."@,
                                ],
                                label: Label::Singular,
                                ty: TypeRefView::Named("ValueDoubles"@),
                                name: "doubles_value"@,
                                number: 8,
                            },
                            FieldSpecView {
                                docs: seq![
                                    " A text."@,
                                ],
                                label: Label::Singular,
                                ty: TypeRefView::Named("ValueText"@),
                                name: "text_value"@,
                                number: 9,
                            },
                            FieldSpecView {
                                docs: seq![
                                    " How the source of a text is interpreted."@,
                                ],
                                label: Label::Singular,
                                ty: TypeRefView::Named("ValueInterpreter"@),
                                name: "interpreter_value"@,
                                number: 10,
                            },
                            FieldSpecView {
                                docs: seq![
                                    " The physical size of a figure."@,
                                ],
                                label: Label::Singular,
                                ty: TypeRefView::Named("ValueFigureSize"@),
                                name: "figure_size_value"@,
                                number: 11,
                            },
                            FieldSpecView {
                                docs: seq![
                                    " A bundled font set."@,
                                ],
                                label: Label::Singular,
                                ty: TypeRefView::Named("ValueFontSetId"@),
                                name: "font_set_id_value"@,
                                number: 12,
                            },
                            FieldSpecView {
                                docs: seq![
                                    " A colour."@,
                                ],
                                label: Label::Singular,
                                ty: TypeRefView::Named("ValueColor"@),
                                name: "color_value"@,
                                number: 13,
                            },
                            FieldSpecView {
                                docs: seq![
                                    " The tile layout of a figure."@,
                                ],
                                label: Label::Singular,
                                ty: TypeRefView::Named("ValueTileLayout"@),
                                name: "tile_layout_value"@,
                                number: 14,
                            },
                            FieldSpecView {
                                docs: seq![
                                    " The axis links of a figure."@,
                                ],
                                label: Label::Singular,
                                ty: TypeRefView::Named("ValueLinks"@),
                                name: "links_value"@,
                                number: 15,
                            },
                            FieldSpecView {
                                docs: seq![
                                    " The named parameters of a figure."@,
                                ],
                                label: Label::Singular,
                                ty: TypeRefView::Named("ValueParameters"@),
                                name: "parameters_value"@,
                                number: 16,
                            },
                            FieldSpecView {
                                docs: seq![
                                    " The cells occupied by an axes."@,
                                ],
                                label: Label::Singular,
                                ty: TypeRefView::Named("ValueCell"@),
                                name: "cell_value"@,
                                number: 17,
                            },
                            FieldSpecView {
                                docs: seq![
                                    " The projection of an axes."@,
                                ],
                                label: Label::Singular,
                                ty: TypeRefView::Named("ValueProjection"@),
                                name: "projection_value"@,
                                number: 18,
                            },
                            FieldSpecView {
                                docs: seq![
                                    " The camera view of a three-dimensional axes."@,
                                ],
                                label: Label::Singular,
                                ty: TypeRefView::Named("ValueView3d"@),
                                name: "view3d_value"@,
                                number: 19,
                            },
                            FieldSpecView {
                                docs: seq![
                                    " A coordinate axis."@,
                                ],
                                label: Label::Singular,
                                ty: TypeRefView::Named("ValueAxis"@),
                                name: "axis_value"@,
                                number: 20,
                            },
                            FieldSpecView {
                                docs: seq![
                                    " The scale of a coordinate axis."@,
                                ],
                                label: Label::Singular,
                                ty: TypeRefView::Named("ValueScale"@),
                                name: "scale_value"@,
                                number: 21,
                            },
                            FieldSpecView {
                                docs: seq![
                                    " A range of data values."@,
                                ],
                                label: Label::Singular,
                                ty: TypeRefView::Named("ValueLimits"@),
                                name: "limits_value"@,
                                number: 22,
                            },
                            FieldSpecView {
                                docs: seq![
                                    " A colormap name."@,
                                ],
                                label: Label::Singular,
                                ty: TypeRefView::Named("ValueColormapName"@),
                                name: "colormap_name_value"@,
                                number: 23,
                            },
                            FieldSpecView {
                                docs: seq![
                                    " A legend."@,
                                ],
                                label: Label::Singular,
                                ty: TypeRefView::Named("ValueLegend"@),
                                name: "legend_value"@,
                                number: 24,
                            },
                            FieldSpecView {
                                docs: seq![
                                    " The placement of a legend."@,
                                ],
                                label: Label::Singular,
                                ty: TypeRefView::Named("ValueLegendLocation"@),
                                name: "legend_location_value"@,
                                number: 25,
                            },
                            FieldSpecView {
                                docs: seq![
                                    " How a colour is chosen."@,
                                ],
                                label: Label::Singular,
                                ty: TypeRefView::Named("ValueColorSpec"@),
                                name: "color_spec_value"@,
                                number: 26,
                            },
                            FieldSpecView {
                                docs: seq![
                                    " The style of a stroked line."@,
                                ],
                                label: Label::Singular,
                                ty: TypeRefView::Named("ValueLineStyle"@),
                                name: "line_style_value"@,
                                number: 27,
                            },
                            FieldSpecView {
                                docs: seq![
                                    " A dash pattern."@,
                                ],
                                label: Label::Singular,
                                ty: TypeRefView::Named("ValueDashStyle"@),
                                name: "dash_style_value"@,
                                number: 28,
                            },
                            FieldSpecView {
                                docs: seq![
                                    " The style of markers."@,
                                ],
                                label: Label::Singular,
                                ty: TypeRefView::Named("ValueMarkerStyle"@),
                                name: "marker_style_value"@,
                                number: 29,
                            },
                            FieldSpecView {
                                docs: seq![
                                    " A marker shape."@,
                                ],
                                label: Label::Singular,
                                ty: TypeRefView::Named("ValueMarkerShape"@),
                                name: "marker_shape_value"@,
                                number: 30,
                            },
                            FieldSpecView {
                                docs: seq![
                                    " The size of scatter markers."@,
                                ],
                                label: Label::Singular,
                                ty: TypeRefView::Named("ValueScatterSize"@),
                                name: "scatter_size_value"@,
                                number: 31,
                            },
                            FieldSpecView {
                                docs: seq![
                                    " The colour of scatter markers."@,
                                ],
                                label: Label::Singular,
                                ty: TypeRefView::Named("ValueScatterColor"@),
                                name: "scatter_color_value"@,
                                number: 32,
                            },
                            FieldSpecView {
                                docs: seq![
                                    " The grid of a contour or surface."@,
                                ],
                                label: Label::Singular,
                                ty: TypeRefView::Named("ValueGrid"@),
                                name: "grid_value"@,
                                number: 33,
                            },
                            FieldSpecView {
                                docs: seq![
                                    " The levels of a contour."@,
                                ],
                                label: Label::Singular,
                                ty: TypeRefView::Named("ValueLevels"@),
                                name: "levels_value"@,
                                number: 34,
                            },
                            FieldSpecView {
                                docs: seq![
                                    " The placement of a contour in three-dimensional axes."@,
                                ],
                                label: Label::Singular,
                                ty: TypeRefView::Named("ValueContourPlacement"@),
                                name: "contour_placement_value"@,
                                number: 35,
                            },
                            FieldSpecView {
                                docs: seq![
                                    " The scaling of quiver arrows."@,
                                ],
                                label: Label::Singular,
                                ty: TypeRefView::Named("ValueQuiverScale"@),
                                name: "quiver_scale_value"@,
                                number: 36,
                            },
                        ],
                    },
                ],
                reserved: seq![],
            }),
            ItemView::Message(MessageView {
                name: "ValueUnset"@,
                docs: seq![
                    " No value: an optional property is cleared."@,
                ],
                fields: seq![],
                reserved: seq![],
            }),
            ItemView::Message(MessageView {
                name: "ValueBool"@,
                docs: seq![
                    " A boolean value."@,
                ],
                fields: seq![
                    FieldView::Field(FieldSpecView {
                        docs: seq![
                            " The value; it must be present."@,
                        ],
                        label: Label::Optional,
                        ty: TypeRefView::Scalar("bool"@),
                        name: "value"@,
                        number: 1,
                    }),
                ],
                reserved: seq![],
            }),
            ItemView::Message(MessageView {
                name: "ValueUint32"@,
                docs: seq![
                    " An unsigned 32-bit integer value."@,
                ],
                fields: seq![
                    FieldView::Field(FieldSpecView {
                        docs: seq![
                            " The value; it must be present."@,
                        ],
                        label: Label::Optional,
                        ty: TypeRefView::Scalar("uint32"@),
                        name: "value"@,
                        number: 1,
                    }),
                ],
                reserved: seq![],
            }),
            ItemView::Message(MessageView {
                name: "ValueDouble"@,
                docs: seq![
                    " A double-precision number value."@,
                ],
                fields: seq![
                    FieldView::Field(FieldSpecView {
                        docs: seq![
                            " The value; it must be present."@,
                        ],
                        label: Label::Optional,
                        ty: TypeRefView::Scalar("double"@),
                        name: "value"@,
                        number: 1,
                    }),
                ],
                reserved: seq![],
            }),
            ItemView::Message(MessageView {
                name: "ValueFloat"@,
                docs: seq![
                    " A single-precision number value."@,
                ],
                fields: seq![
                    FieldView::Field(FieldSpecView {
                        docs: seq![
                            " The value; it must be present."@,
                        ],
                        label: Label::Optional,
                        ty: TypeRefView::Scalar("float"@),
                        name: "value"@,
                        number: 1,
                    }),
                ],
                reserved: seq![],
            }),
            ItemView::Message(MessageView {
                name: "ValueString"@,
                docs: seq![
                    " A string value."@,
                ],
                fields: seq![
                    FieldView::Field(FieldSpecView {
                        docs: seq![
                            " The value, which may be empty."@,
                        ],
                        label: Label::Singular,
                        ty: TypeRefView::Scalar("string"@),
                        name: "value"@,
                        number: 1,
                    }),
                ],
                reserved: seq![],
            }),
            ItemView::Message(MessageView {
                name: "ValueDataId"@,
                docs: seq![
                    " A reference to a data array."@,
                ],
                fields: seq![
                    FieldView::Field(FieldSpecView {
                        docs: seq![
                            " The data identifier; it must be present."@,
                        ],
                        label: Label::Optional,
                        ty: TypeRefView::Scalar("uint64"@),
                        name: "value"@,
                        number: 1,
                    }),
                ],
                reserved: seq![],
            }),
            ItemView::Message(MessageView {
                name: "ValueDoubles"@,
                docs: seq![
                    " A list of double-precision numbers."@,
                ],
                fields: seq![
                    FieldView::Field(FieldSpecView {
                        docs: seq![
                            " The values, which may be empty."@,
                        ],
                        label: Label::Repeated,
                        ty: TypeRefView::Scalar("double"@),
                        name: "values"@,
                        number: 1,
                    }),
                ],
                reserved: seq![],
            }),
            ItemView::Message(MessageView {
                name: "ValueText"@,
                docs: seq![
                    " A text value."@,
                ],
                fields: seq![
                    FieldView::Field(FieldSpecView {
                        docs: seq![
                            " The text; it must be present."@,
                        ],
                        label: Label::Singular,
                        ty: TypeRefView::Named("Text"@),
                        name: "value"@,
                        number: 1,
                    }),
                ],
                reserved: seq![],
            }),
            ItemView::Message(MessageView {
                name: "ValueInterpreter"@,
                docs: seq![
                    " An interpreter value."@,
                ],
                fields: seq![
                    FieldView::Field(FieldSpecView {
                        docs: seq![
                            " The interpreter; it must be specified."@,
                        ],
                        label: Label::Singular,
                        ty: TypeRefView::Named("Interpreter"@),
                        name: "value"@,
                        number: 1,
                    }),
                ],
                reserved: seq![],
            }),
            ItemView::Message(MessageView {
                name: "ValueFigureSize"@,
                docs: seq![
                    " A figure size value."@,
                ],
                fields: seq![
                    FieldView::Field(FieldSpecView {
                        docs: seq![
                            " The size; it must be present."@,
                        ],
                        label: Label::Singular,
                        ty: TypeRefView::Named("FigureSize"@),
                        name: "value"@,
                        number: 1,
                    }),
                ],
                reserved: seq![],
            }),
            ItemView::Message(MessageView {
                name: "ValueFontSetId"@,
                docs: seq![
                    " A font set value."@,
                ],
                fields: seq![
                    FieldView::Field(FieldSpecView {
                        docs: seq![
                            " The font set; it must be specified."@,
                        ],
                        label: Label::Singular,
                        ty: TypeRefView::Named("FontSetId"@),
                        name: "value"@,
                        number: 1,
                    }),
                ],
                reserved: seq![],
            }),
            ItemView::Message(MessageView {
                name: "ValueColor"@,
                docs: seq![
                    " A colour value."@,
                ],
                fields: seq![
                    FieldView::Field(FieldSpecView {
                        docs: seq![
                            " The colour; it must be present."@,
                        ],
                        label: Label::Singular,
                        ty: TypeRefView::Named("Color"@),
                        name: "value"@,
                        number: 1,
                    }),
                ],
                reserved: seq![],
            }),
            ItemView::Message(MessageView {
                name: "ValueTileLayout"@,
                docs: seq![
                    " A tile layout value."@,
                ],
                fields: seq![
                    FieldView::Field(FieldSpecView {
                        docs: seq![
                            " The layout; it must be present."@,
                        ],
                        label: Label::Singular,
                        ty: TypeRefView::Named("TileLayout"@),
                        name: "value"@,
                        number: 1,
                    }),
                ],
                reserved: seq![],
            }),
            ItemView::Message(MessageView {
                name: "ValueLinks"@,
                docs: seq![
                    " The axis links of a figure."@,
                ],
                fields: seq![
                    FieldView::Field(FieldSpecView {
                        docs: seq![
                            " The links, which may be empty."@,
                        ],
                        label: Label::Repeated,
                        ty: TypeRefView::Named("AxisLink"@),
                        name: "links"@,
                        number: 1,
                    }),
                ],
                reserved: seq![],
            }),
            ItemView::Message(MessageView {
                name: "ValueParameters"@,
                docs: seq![
                    " The named parameters of a figure."@,
                ],
                fields: seq![
                    FieldView::Field(FieldSpecView {
                        docs: seq![
                            " The parameters keyed by name, which may be empty."@,
                        ],
                        label: Label::Singular,
                        ty: TypeRefView::Mapping("string"@, "Parameter"@),
                        name: "parameters"@,
                        number: 1,
                    }),
                ],
                reserved: seq![],
            }),
            ItemView::Message(MessageView {
                name: "ValueCell"@,
                docs: seq![
                    " A cell value."@,
                ],
                fields: seq![
                    FieldView::Field(FieldSpecView {
                        docs: seq![
                            " The cell; it must be present."@,
                        ],
                        label: Label::Singular,
                        ty: TypeRefView::Named("Cell"@),
                        name: "value"@,
                        number: 1,
                    }),
                ],
                reserved: seq![],
            }),
            ItemView::Message(MessageView {
                name: "ValueProjection"@,
                docs: seq![
                    " A projection value."@,
                ],
                fields: seq![
                    FieldView::Field(FieldSpecView {
                        docs: seq![
                            " The projection; it must be present."@,
                        ],
                        label: Label::Singular,
                        ty: TypeRefView::Named("Projection"@),
                        name: "value"@,
                        number: 1,
                    }),
                ],
                reserved: seq![],
            }),
            ItemView::Message(MessageView {
                name: "ValueView3d"@,
                docs: seq![
                    " A three-dimensional view value."@,
                ],
                fields: seq![
                    FieldView::Field(FieldSpecView {
                        docs: seq![
                            " The view; it must be present."@,
                        ],
                        label: Label::Singular,
                        ty: TypeRefView::Named("View3d"@),
                        name: "value"@,
                        number: 1,
                    }),
                ],
                reserved: seq![],
            }),
            ItemView::Message(MessageView {
                name: "ValueAxis"@,
                docs: seq![
                    " A coordinate axis value."@,
                ],
                fields: seq![
                    FieldView::Field(FieldSpecView {
                        docs: seq![
                            " The axis; it must be present."@,
                        ],
                        label: Label::Singular,
                        ty: TypeRefView::Named("Axis"@),
                        name: "value"@,
                        number: 1,
                    }),
                ],
                reserved: seq![],
            }),
            ItemView::Message(MessageView {
                name: "ValueScale"@,
                docs: seq![
                    " A scale value."@,
                ],
                fields: seq![
                    FieldView::Field(FieldSpecView {
                        docs: seq![
                            " The scale; it must be specified."@,
                        ],
                        label: Label::Singular,
                        ty: TypeRefView::Named("Scale"@),
                        name: "value"@,
                        number: 1,
                    }),
                ],
                reserved: seq![],
            }),
            ItemView::Message(MessageView {
                name: "ValueLimits"@,
                docs: seq![
                    " A limits value."@,
                ],
                fields: seq![
                    FieldView::Field(FieldSpecView {
                        docs: seq![
                            " The limits; it must be present."@,
                        ],
                        label: Label::Singular,
                        ty: TypeRefView::Named("Limits"@),
                        name: "value"@,
                        number: 1,
                    }),
                ],
                reserved: seq![],
            }),
            ItemView::Message(MessageView {
                name: "ValueColormapName"@,
                docs: seq![
                    " A colormap name value."@,
                ],
                fields: seq![
                    FieldView::Field(FieldSpecView {
                        docs: seq![
                            " The colormap name; it must be specified."@,
                        ],
                        label: Label::Singular,
                        ty: TypeRefView::Named("ColormapName"@),
                        name: "value"@,
                        number: 1,
                    }),
                ],
                reserved: seq![],
            }),
            ItemView::Message(MessageView {
                name: "ValueLegend"@,
                docs: seq![
                    " A legend value."@,
                ],
                fields: seq![
                    FieldView::Field(FieldSpecView {
                        docs: seq![
                            " The legend; it must be present."@,
                        ],
                        label: Label::Singular,
                        ty: TypeRefView::Named("Legend"@),
                        name: "value"@,
                        number: 1,
                    }),
                ],
                reserved: seq![],
            }),
            ItemView::Message(MessageView {
                name: "ValueLegendLocation"@,
                docs: seq![
                    " A legend location value."@,
                ],
                fields: seq![
                    FieldView::Field(FieldSpecView {
                        docs: seq![
                            " The location; it must be specified."@,
                        ],
                        label: Label::Singular,
                        ty: TypeRefView::Named("LegendLocation"@),
                        name: "value"@,
                        number: 1,
                    }),
                ],
                reserved: seq![],
            }),
            ItemView::Message(MessageView {
                name: "ValueColorSpec"@,
                docs: seq![
                    " A colour specification value."@,
                ],
                fields: seq![
                    FieldView::Field(FieldSpecView {
                        docs: seq![
                            " The colour specification; it must be present."@,
                        ],
                        label: Label::Singular,
                        ty: TypeRefView::Named("ColorSpec"@),
                        name: "value"@,
                        number: 1,
                    }),
                ],
                reserved: seq![],
            }),
            ItemView::Message(MessageView {
                name: "ValueLineStyle"@,
                docs: seq![
                    " A line style value."@,
                ],
                fields: seq![
                    FieldView::Field(FieldSpecView {
                        docs: seq![
                            " The line style; it must be present."@,
                        ],
                        label: Label::Singular,
                        ty: TypeRefView::Named("LineStyle"@),
                        name: "value"@,
                        number: 1,
                    }),
                ],
                reserved: seq![],
            }),
            ItemView::Message(MessageView {
                name: "ValueDashStyle"@,
                docs: seq![
                    " A dash style value."@,
                ],
                fields: seq![
                    FieldView::Field(FieldSpecView {
                        docs: seq![
                            " The dash style; it must be specified."@,
                        ],
                        label: Label::Singular,
                        ty: TypeRefView::Named("DashStyle"@),
                        name: "value"@,
                        number: 1,
                    }),
                ],
                reserved: seq![],
            }),
            ItemView::Message(MessageView {
                name: "ValueMarkerStyle"@,
                docs: seq![
                    " A marker style value."@,
                ],
                fields: seq![
                    FieldView::Field(FieldSpecView {
                        docs: seq![
                            " The marker style; it must be present."@,
                        ],
                        label: Label::Singular,
                        ty: TypeRefView::Named("MarkerStyle"@),
                        name: "value"@,
                        number: 1,
                    }),
                ],
                reserved: seq![],
            }),
            ItemView::Message(MessageView {
                name: "ValueMarkerShape"@,
                docs: seq![
                    " A marker shape value."@,
                ],
                fields: seq![
                    FieldView::Field(FieldSpecView {
                        docs: seq![
                            " The marker shape; it must be specified."@,
                        ],
                        label: Label::Singular,
                        ty: TypeRefView::Named("MarkerShape"@),
                        name: "value"@,
                        number: 1,
                    }),
                ],
                reserved: seq![],
            }),
            ItemView::Message(MessageView {
                name: "ValueScatterSize"@,
                docs: seq![
                    " A scatter size value."@,
                ],
                fields: seq![
                    FieldView::Field(FieldSpecView {
                        docs: seq![
                            " The scatter size; it must be present."@,
                        ],
                        label: Label::Singular,
                        ty: TypeRefView::Named("ScatterSize"@),
                        name: "value"@,
                        number: 1,
                    }),
                ],
                reserved: seq![],
            }),
            ItemView::Message(MessageView {
                name: "ValueScatterColor"@,
                docs: seq![
                    " A scatter colour value."@,
                ],
                fields: seq![
                    FieldView::Field(FieldSpecView {
                        docs: seq![
                            " The scatter colour; it must be present."@,
                        ],
                        label: Label::Singular,
                        ty: TypeRefView::Named("ScatterColor"@),
                        name: "value"@,
                        number: 1,
                    }),
                ],
                reserved: seq![],
            }),
            ItemView::Message(MessageView {
                name: "ValueGrid"@,
                docs: seq![
                    " A grid value."@,
                ],
                fields: seq![
                    FieldView::Field(FieldSpecView {
                        docs: seq![
                            " The grid; it must be present."@,
                        ],
                        label: Label::Singular,
                        ty: TypeRefView::Named("Grid"@),
                        name: "value"@,
                        number: 1,
                    }),
                ],
                reserved: seq![],
            }),
            ItemView::Message(MessageView {
                name: "ValueLevels"@,
                docs: seq![
                    " A levels value."@,
                ],
                fields: seq![
                    FieldView::Field(FieldSpecView {
                        docs: seq![
                            " The levels; it must be present."@,
                        ],
                        label: Label::Singular,
                        ty: TypeRefView::Named("Levels"@),
                        name: "value"@,
                        number: 1,
                    }),
                ],
                reserved: seq![],
            }),
            ItemView::Message(MessageView {
                name: "ValueContourPlacement"@,
                docs: seq![
                    " A contour placement value."@,
                ],
                fields: seq![
                    FieldView::Field(FieldSpecView {
                        docs: seq![
                            " The placement; it must be present."@,
                        ],
                        label: Label::Singular,
                        ty: TypeRefView::Named("ContourPlacement"@),
                        name: "value"@,
                        number: 1,
                    }),
                ],
                reserved: seq![],
            }),
            ItemView::Message(MessageView {
                name: "ValueQuiverScale"@,
                docs: seq![
                    " A quiver scale value."@,
                ],
                fields: seq![
                    FieldView::Field(FieldSpecView {
                        docs: seq![
                            " The quiver scale; it must be present."@,
                        ],
                        label: Label::Singular,
                        ty: TypeRefView::Named("QuiverScale"@),
                        name: "value"@,
                        number: 1,
                    }),
                ],
                reserved: seq![],
            }),
        ],
    }
}

/// The declaration of this module's `.proto` file.
#[verifier::rlimit(100)]
#[verifier::spinoff_prover]
pub fn file() -> (f: FileDef)
    ensures
        f.module@ == "ironlab_ir::wire::edit"@,
        file_view(f) == spec_file(),
{
    let f = FileDef {
        module: "ironlab_ir::wire::edit",
        items: vec![
            ItemDef::Message(MessageDef {
                name: "Transaction",
                docs: vec![
                    " An ordered list of edits that are applied to a figure together or not at all.",
                ],
                fields: vec![
                    FieldDef::Field(FieldSpec {
                        docs: vec![
                            " The edits, in the order in which they are applied.",
                        ],
                        label: Label::Repeated,
                        ty: TypeRef::Named("Edit"),
                        name: "edits",
                        number: 1,
                    }),
                ],
                reserved: vec![],
            }),
            ItemDef::Message(MessageDef {
                name: "Edit",
                docs: vec![
                    " A change to a figure.",
                ],
                fields: vec![
                    FieldDef::Oneof {
                        name: "kind",
                        docs: vec![
                            " The kind of edit; it must be set.",
                        ],
                        variants: vec![
                            FieldSpec {
                                docs: vec![
                                    " Replaces the value of a property of a node.",
                                ],
                                label: Label::Singular,
                                ty: TypeRef::Named("EditSet"),
                                name: "set_property",
                                number: 1,
                            },
                            FieldSpec {
                                docs: vec![
                                    " Inserts an axes or an artist, with its subtree.",
                                ],
                                label: Label::Singular,
                                ty: TypeRef::Named("EditInsert"),
                                name: "insert_node",
                                number: 2,
                            },
                            FieldSpec {
                                docs: vec![
                                    " Removes a node and its subtree.",
                                ],
                                label: Label::Singular,
                                ty: TypeRef::Named("EditRemove"),
                                name: "remove_node",
                                number: 3,
                            },
                            FieldSpec {
                                docs: vec![
                                    " Moves a node within its parent or to another parent.",
                                ],
                                label: Label::Singular,
                                ty: TypeRef::Named("EditMove"),
                                name: "move_node",
                                number: 4,
                            },
                            FieldSpec {
                                docs: vec![
                                    " Creates or replaces a data array.",
                                ],
                                label: Label::Singular,
                                ty: TypeRef::Named("EditPutData"),
                                name: "put_data",
                                number: 5,
                            },
                            FieldSpec {
                                docs: vec![
                                    " Appends entries to a data array along its first dimension.",
                                ],
                                label: Label::Singular,
                                ty: TypeRef::Named("EditAppendData"),
                                name: "append_data",
                                number: 6,
                            },
                            FieldSpec {
                                docs: vec![
                                    " Removes a data array.",
                                ],
                                label: Label::Singular,
                                ty: TypeRef::Named("EditRemoveData"),
                                name: "remove_data",
                                number: 7,
                            },
                        ],
                    },
                ],
                reserved: vec![],
            }),
            ItemDef::Message(MessageDef {
                name: "EditSet",
                docs: vec![
                    " Replaces the value of a property of a node.",
                ],
                fields: vec![
                    FieldDef::Field(FieldSpec {
                        docs: vec![
                            " The identifier of the node; it must be present.",
                        ],
                        label: Label::Optional,
                        ty: TypeRef::Scalar("uint64"),
                        name: "node",
                        number: 1,
                    }),
                    FieldDef::Field(FieldSpec {
                        docs: vec![
                            " The path of the property within the node: Protocol Buffers field names",
                            " separated by dots, such as `x.limits.min`; it must be a valid path.",
                        ],
                        label: Label::Singular,
                        ty: TypeRef::Scalar("string"),
                        name: "path",
                        number: 2,
                    }),
                    FieldDef::Field(FieldSpec {
                        docs: vec![
                            " The new value; it must be present.",
                        ],
                        label: Label::Singular,
                        ty: TypeRef::Named("Value"),
                        name: "value",
                        number: 3,
                    }),
                ],
                reserved: vec![],
            }),
            ItemDef::Message(MessageDef {
                name: "EditInsert",
                docs: vec![
                    " Inserts an axes into the figure, or an artist into an axes, with its subtree.",
                ],
                fields: vec![
                    FieldDef::Field(FieldSpec {
                        docs: vec![
                            " The identifier of the parent: the figure for an axes, or an axes for an",
                            " artist; it must be present.",
                        ],
                        label: Label::Optional,
                        ty: TypeRef::Scalar("uint64"),
                        name: "parent",
                        number: 1,
                    }),
                    FieldDef::Field(FieldSpec {
                        docs: vec![
                            " The position in the parent's list; absent to append.",
                        ],
                        label: Label::Optional,
                        ty: TypeRef::Scalar("uint32"),
                        name: "index",
                        number: 2,
                    }),
                    FieldDef::Field(FieldSpec {
                        docs: vec![
                            " The node to insert; it must be present.",
                        ],
                        label: Label::Singular,
                        ty: TypeRef::Named("Node"),
                        name: "node",
                        number: 3,
                    }),
                ],
                reserved: vec![],
            }),
            ItemDef::Message(MessageDef {
                name: "EditRemove",
                docs: vec![
                    " Removes a node and its subtree.",
                ],
                fields: vec![
                    FieldDef::Field(FieldSpec {
                        docs: vec![
                            " The identifier of the axes or artist; it must be present.",
                        ],
                        label: Label::Optional,
                        ty: TypeRef::Scalar("uint64"),
                        name: "node",
                        number: 1,
                    }),
                ],
                reserved: vec![],
            }),
            ItemDef::Message(MessageDef {
                name: "EditMove",
                docs: vec![
                    " Moves an axes within the figure, or an artist within its axes or to another axes.",
                ],
                fields: vec![
                    FieldDef::Field(FieldSpec {
                        docs: vec![
                            " The identifier of the axes or artist; it must be present.",
                        ],
                        label: Label::Optional,
                        ty: TypeRef::Scalar("uint64"),
                        name: "node",
                        number: 1,
                    }),
                    FieldDef::Field(FieldSpec {
                        docs: vec![
                            " The identifier of the new parent; it must be present.",
                        ],
                        label: Label::Optional,
                        ty: TypeRef::Scalar("uint64"),
                        name: "parent",
                        number: 2,
                    }),
                    FieldDef::Field(FieldSpec {
                        docs: vec![
                            " The position in the new parent's list after the node is removed from its old",
                            " position; absent to append.",
                        ],
                        label: Label::Optional,
                        ty: TypeRef::Scalar("uint32"),
                        name: "index",
                        number: 3,
                    }),
                ],
                reserved: vec![],
            }),
            ItemDef::Message(MessageDef {
                name: "EditPutData",
                docs: vec![
                    " Creates a data array or replaces an existing one.",
                ],
                fields: vec![
                    FieldDef::Field(FieldSpec {
                        docs: vec![
                            " The data identifier; it must be present.",
                        ],
                        label: Label::Optional,
                        ty: TypeRef::Scalar("uint64"),
                        name: "id",
                        number: 1,
                    }),
                    FieldDef::Field(FieldSpec {
                        docs: vec![
                            " The new array; it must be present.",
                        ],
                        label: Label::Singular,
                        ty: TypeRef::Named("NdArray"),
                        name: "array",
                        number: 2,
                    }),
                ],
                reserved: vec![],
            }),
            ItemDef::Message(MessageDef {
                name: "EditAppendData",
                docs: vec![
                    " Appends entries to an existing array along its first dimension.",
                ],
                fields: vec![
                    FieldDef::Field(FieldSpec {
                        docs: vec![
                            " The data identifier; it must be present.",
                        ],
                        label: Label::Optional,
                        ty: TypeRef::Scalar("uint64"),
                        name: "id",
                        number: 1,
                    }),
                    FieldDef::Field(FieldSpec {
                        docs: vec![
                            " The entries to append; it must be present.",
                        ],
                        label: Label::Singular,
                        ty: TypeRef::Named("NdArray"),
                        name: "array",
                        number: 2,
                    }),
                    FieldDef::Field(FieldSpec {
                        docs: vec![
                            " The number of entries along the first dimension to keep after appending,",
                            " counted from the end; absent to keep every entry.",
                        ],
                        label: Label::Optional,
                        ty: TypeRef::Scalar("uint64"),
                        name: "retain",
                        number: 3,
                    }),
                ],
                reserved: vec![],
            }),
            ItemDef::Message(MessageDef {
                name: "EditRemoveData",
                docs: vec![
                    " Removes a data array.",
                ],
                fields: vec![
                    FieldDef::Field(FieldSpec {
                        docs: vec![
                            " The data identifier; it must be present.",
                        ],
                        label: Label::Optional,
                        ty: TypeRef::Scalar("uint64"),
                        name: "id",
                        number: 1,
                    }),
                ],
                reserved: vec![],
            }),
            ItemDef::Message(MessageDef {
                name: "Node",
                docs: vec![
                    " A node that can be inserted into a figure, with its subtree.",
                ],
                fields: vec![
                    FieldDef::Oneof {
                        name: "kind",
                        docs: vec![
                            " The kind of node; it must be set.",
                        ],
                        variants: vec![
                            FieldSpec {
                                docs: vec![
                                    " An axes with its artists.",
                                ],
                                label: Label::Singular,
                                ty: TypeRef::Named("Axes"),
                                name: "axes",
                                number: 1,
                            },
                            FieldSpec {
                                docs: vec![
                                    " An artist.",
                                ],
                                label: Label::Singular,
                                ty: TypeRef::Named("Artist"),
                                name: "artist",
                                number: 2,
                            },
                        ],
                    },
                ],
                reserved: vec![],
            }),
            ItemDef::Message(MessageDef {
                name: "Value",
                docs: vec![
                    " The value of a property.",
                ],
                fields: vec![
                    FieldDef::Oneof {
                        name: "kind",
                        docs: vec![
                            " The type of value; it must be set.",
                        ],
                        variants: vec![
                            FieldSpec {
                                docs: vec![
                                    " No value: an optional property is cleared.",
                                ],
                                label: Label::Singular,
                                ty: TypeRef::Named("ValueUnset"),
                                name: "unset",
                                number: 1,
                            },
                            FieldSpec {
                                docs: vec![
                                    " A boolean.",
                                ],
                                label: Label::Singular,
                                ty: TypeRef::Named("ValueBool"),
                                name: "bool_value",
                                number: 2,
                            },
                            FieldSpec {
                                docs: vec![
                                    " An unsigned 32-bit integer.",
                                ],
                                label: Label::Singular,
                                ty: TypeRef::Named("ValueUint32"),
                                name: "uint32_value",
                                number: 3,
                            },
                            FieldSpec {
                                docs: vec![
                                    " A double-precision number.",
                                ],
                                label: Label::Singular,
                                ty: TypeRef::Named("ValueDouble"),
                                name: "double_value",
                                number: 4,
                            },
                            FieldSpec {
                                docs: vec![
                                    " A single-precision number: a component of a colour.",
                                ],
                                label: Label::Singular,
                                ty: TypeRef::Named("ValueFloat"),
                                name: "float_value",
                                number: 5,
                            },
                            FieldSpec {
                                docs: vec![
                                    " A string.",
                                ],
                                label: Label::Singular,
                                ty: TypeRef::Named("ValueString"),
                                name: "string_value",
                                number: 6,
                            },
                            FieldSpec {
                                docs: vec![
                                    " A reference to a data array.",
                                ],
                                label: Label::Singular,
                                ty: TypeRef::Named("ValueDataId"),
                                name: "data_id_value",
                                number: 7,
                            },
                            FieldSpec {
                                docs: vec![
                                    " A list of double-precision numbers.",
                                ],
                                label: Label::Singular,
                                ty: TypeRef::Named("ValueDoubles"),
                                name: "doubles_value",
                                number: 8,
                            },
                            FieldSpec {
                                docs: vec![
                                    " A text.",
                                ],
                                label: Label::Singular,
                                ty: TypeRef::Named("ValueText"),
                                name: "text_value",
                                number: 9,
                            },
                            FieldSpec {
                                docs: vec![
                                    " How the source of a text is interpreted.",
                                ],
                                label: Label::Singular,
                                ty: TypeRef::Named("ValueInterpreter"),
                                name: "interpreter_value",
                                number: 10,
                            },
                            FieldSpec {
                                docs: vec![
                                    " The physical size of a figure.",
                                ],
                                label: Label::Singular,
                                ty: TypeRef::Named("ValueFigureSize"),
                                name: "figure_size_value",
                                number: 11,
                            },
                            FieldSpec {
                                docs: vec![
                                    " A bundled font set.",
                                ],
                                label: Label::Singular,
                                ty: TypeRef::Named("ValueFontSetId"),
                                name: "font_set_id_value",
                                number: 12,
                            },
                            FieldSpec {
                                docs: vec![
                                    " A colour.",
                                ],
                                label: Label::Singular,
                                ty: TypeRef::Named("ValueColor"),
                                name: "color_value",
                                number: 13,
                            },
                            FieldSpec {
                                docs: vec![
                                    " The tile layout of a figure.",
                                ],
                                label: Label::Singular,
                                ty: TypeRef::Named("ValueTileLayout"),
                                name: "tile_layout_value",
                                number: 14,
                            },
                            FieldSpec {
                                docs: vec![
                                    " The axis links of a figure.",
                                ],
                                label: Label::Singular,
                                ty: TypeRef::Named("ValueLinks"),
                                name: "links_value",
                                number: 15,
                            },
                            FieldSpec {
                                docs: vec![
                                    " The named parameters of a figure.",
                                ],
                                label: Label::Singular,
                                ty: TypeRef::Named("ValueParameters"),
                                name: "parameters_value",
                                number: 16,
                            },
                            FieldSpec {
                                docs: vec![
                                    " The cells occupied by an axes.",
                                ],
                                label: Label::Singular,
                                ty: TypeRef::Named("ValueCell"),
                                name: "cell_value",
                                number: 17,
                            },
                            FieldSpec {
                                docs: vec![
                                    " The projection of an axes.",
                                ],
                                label: Label::Singular,
                                ty: TypeRef::Named("ValueProjection"),
                                name: "projection_value",
                                number: 18,
                            },
                            FieldSpec {
                                docs: vec![
                                    " The camera view of a three-dimensional axes.",
                                ],
                                label: Label::Singular,
                                ty: TypeRef::Named("ValueView3d"),
                                name: "view3d_value",
                                number: 19,
                            },
                            FieldSpec {
                                docs: vec![
                                    " A coordinate axis.",
                                ],
                                label: Label::Singular,
                                ty: TypeRef::Named("ValueAxis"),
                                name: "axis_value",
                                number: 20,
                            },
                            FieldSpec {
                                docs: vec![
                                    " The scale of a coordinate axis.",
                                ],
                                label: Label::Singular,
                                ty: TypeRef::Named("ValueScale"),
                                name: "scale_value",
                                number: 21,
                            },
                            FieldSpec {
                                docs: vec![
                                    " A range of data values.",
                                ],
                                label: Label::Singular,
                                ty: TypeRef::Named("ValueLimits"),
                                name: "limits_value",
                                number: 22,
                            },
                            FieldSpec {
                                docs: vec![
                                    " A colormap name.",
                                ],
                                label: Label::Singular,
                                ty: TypeRef::Named("ValueColormapName"),
                                name: "colormap_name_value",
                                number: 23,
                            },
                            FieldSpec {
                                docs: vec![
                                    " A legend.",
                                ],
                                label: Label::Singular,
                                ty: TypeRef::Named("ValueLegend"),
                                name: "legend_value",
                                number: 24,
                            },
                            FieldSpec {
                                docs: vec![
                                    " The placement of a legend.",
                                ],
                                label: Label::Singular,
                                ty: TypeRef::Named("ValueLegendLocation"),
                                name: "legend_location_value",
                                number: 25,
                            },
                            FieldSpec {
                                docs: vec![
                                    " How a colour is chosen.",
                                ],
                                label: Label::Singular,
                                ty: TypeRef::Named("ValueColorSpec"),
                                name: "color_spec_value",
                                number: 26,
                            },
                            FieldSpec {
                                docs: vec![
                                    " The style of a stroked line.",
                                ],
                                label: Label::Singular,
                                ty: TypeRef::Named("ValueLineStyle"),
                                name: "line_style_value",
                                number: 27,
                            },
                            FieldSpec {
                                docs: vec![
                                    " A dash pattern.",
                                ],
                                label: Label::Singular,
                                ty: TypeRef::Named("ValueDashStyle"),
                                name: "dash_style_value",
                                number: 28,
                            },
                            FieldSpec {
                                docs: vec![
                                    " The style of markers.",
                                ],
                                label: Label::Singular,
                                ty: TypeRef::Named("ValueMarkerStyle"),
                                name: "marker_style_value",
                                number: 29,
                            },
                            FieldSpec {
                                docs: vec![
                                    " A marker shape.",
                                ],
                                label: Label::Singular,
                                ty: TypeRef::Named("ValueMarkerShape"),
                                name: "marker_shape_value",
                                number: 30,
                            },
                            FieldSpec {
                                docs: vec![
                                    " The size of scatter markers.",
                                ],
                                label: Label::Singular,
                                ty: TypeRef::Named("ValueScatterSize"),
                                name: "scatter_size_value",
                                number: 31,
                            },
                            FieldSpec {
                                docs: vec![
                                    " The colour of scatter markers.",
                                ],
                                label: Label::Singular,
                                ty: TypeRef::Named("ValueScatterColor"),
                                name: "scatter_color_value",
                                number: 32,
                            },
                            FieldSpec {
                                docs: vec![
                                    " The grid of a contour or surface.",
                                ],
                                label: Label::Singular,
                                ty: TypeRef::Named("ValueGrid"),
                                name: "grid_value",
                                number: 33,
                            },
                            FieldSpec {
                                docs: vec![
                                    " The levels of a contour.",
                                ],
                                label: Label::Singular,
                                ty: TypeRef::Named("ValueLevels"),
                                name: "levels_value",
                                number: 34,
                            },
                            FieldSpec {
                                docs: vec![
                                    " The placement of a contour in three-dimensional axes.",
                                ],
                                label: Label::Singular,
                                ty: TypeRef::Named("ValueContourPlacement"),
                                name: "contour_placement_value",
                                number: 35,
                            },
                            FieldSpec {
                                docs: vec![
                                    " The scaling of quiver arrows.",
                                ],
                                label: Label::Singular,
                                ty: TypeRef::Named("ValueQuiverScale"),
                                name: "quiver_scale_value",
                                number: 36,
                            },
                        ],
                    },
                ],
                reserved: vec![],
            }),
            ItemDef::Message(MessageDef {
                name: "ValueUnset",
                docs: vec![
                    " No value: an optional property is cleared.",
                ],
                fields: vec![],
                reserved: vec![],
            }),
            ItemDef::Message(MessageDef {
                name: "ValueBool",
                docs: vec![
                    " A boolean value.",
                ],
                fields: vec![
                    FieldDef::Field(FieldSpec {
                        docs: vec![
                            " The value; it must be present.",
                        ],
                        label: Label::Optional,
                        ty: TypeRef::Scalar("bool"),
                        name: "value",
                        number: 1,
                    }),
                ],
                reserved: vec![],
            }),
            ItemDef::Message(MessageDef {
                name: "ValueUint32",
                docs: vec![
                    " An unsigned 32-bit integer value.",
                ],
                fields: vec![
                    FieldDef::Field(FieldSpec {
                        docs: vec![
                            " The value; it must be present.",
                        ],
                        label: Label::Optional,
                        ty: TypeRef::Scalar("uint32"),
                        name: "value",
                        number: 1,
                    }),
                ],
                reserved: vec![],
            }),
            ItemDef::Message(MessageDef {
                name: "ValueDouble",
                docs: vec![
                    " A double-precision number value.",
                ],
                fields: vec![
                    FieldDef::Field(FieldSpec {
                        docs: vec![
                            " The value; it must be present.",
                        ],
                        label: Label::Optional,
                        ty: TypeRef::Scalar("double"),
                        name: "value",
                        number: 1,
                    }),
                ],
                reserved: vec![],
            }),
            ItemDef::Message(MessageDef {
                name: "ValueFloat",
                docs: vec![
                    " A single-precision number value.",
                ],
                fields: vec![
                    FieldDef::Field(FieldSpec {
                        docs: vec![
                            " The value; it must be present.",
                        ],
                        label: Label::Optional,
                        ty: TypeRef::Scalar("float"),
                        name: "value",
                        number: 1,
                    }),
                ],
                reserved: vec![],
            }),
            ItemDef::Message(MessageDef {
                name: "ValueString",
                docs: vec![
                    " A string value.",
                ],
                fields: vec![
                    FieldDef::Field(FieldSpec {
                        docs: vec![
                            " The value, which may be empty.",
                        ],
                        label: Label::Singular,
                        ty: TypeRef::Scalar("string"),
                        name: "value",
                        number: 1,
                    }),
                ],
                reserved: vec![],
            }),
            ItemDef::Message(MessageDef {
                name: "ValueDataId",
                docs: vec![
                    " A reference to a data array.",
                ],
                fields: vec![
                    FieldDef::Field(FieldSpec {
                        docs: vec![
                            " The data identifier; it must be present.",
                        ],
                        label: Label::Optional,
                        ty: TypeRef::Scalar("uint64"),
                        name: "value",
                        number: 1,
                    }),
                ],
                reserved: vec![],
            }),
            ItemDef::Message(MessageDef {
                name: "ValueDoubles",
                docs: vec![
                    " A list of double-precision numbers.",
                ],
                fields: vec![
                    FieldDef::Field(FieldSpec {
                        docs: vec![
                            " The values, which may be empty.",
                        ],
                        label: Label::Repeated,
                        ty: TypeRef::Scalar("double"),
                        name: "values",
                        number: 1,
                    }),
                ],
                reserved: vec![],
            }),
            ItemDef::Message(MessageDef {
                name: "ValueText",
                docs: vec![
                    " A text value.",
                ],
                fields: vec![
                    FieldDef::Field(FieldSpec {
                        docs: vec![
                            " The text; it must be present.",
                        ],
                        label: Label::Singular,
                        ty: TypeRef::Named("Text"),
                        name: "value",
                        number: 1,
                    }),
                ],
                reserved: vec![],
            }),
            ItemDef::Message(MessageDef {
                name: "ValueInterpreter",
                docs: vec![
                    " An interpreter value.",
                ],
                fields: vec![
                    FieldDef::Field(FieldSpec {
                        docs: vec![
                            " The interpreter; it must be specified.",
                        ],
                        label: Label::Singular,
                        ty: TypeRef::Named("Interpreter"),
                        name: "value",
                        number: 1,
                    }),
                ],
                reserved: vec![],
            }),
            ItemDef::Message(MessageDef {
                name: "ValueFigureSize",
                docs: vec![
                    " A figure size value.",
                ],
                fields: vec![
                    FieldDef::Field(FieldSpec {
                        docs: vec![
                            " The size; it must be present.",
                        ],
                        label: Label::Singular,
                        ty: TypeRef::Named("FigureSize"),
                        name: "value",
                        number: 1,
                    }),
                ],
                reserved: vec![],
            }),
            ItemDef::Message(MessageDef {
                name: "ValueFontSetId",
                docs: vec![
                    " A font set value.",
                ],
                fields: vec![
                    FieldDef::Field(FieldSpec {
                        docs: vec![
                            " The font set; it must be specified.",
                        ],
                        label: Label::Singular,
                        ty: TypeRef::Named("FontSetId"),
                        name: "value",
                        number: 1,
                    }),
                ],
                reserved: vec![],
            }),
            ItemDef::Message(MessageDef {
                name: "ValueColor",
                docs: vec![
                    " A colour value.",
                ],
                fields: vec![
                    FieldDef::Field(FieldSpec {
                        docs: vec![
                            " The colour; it must be present.",
                        ],
                        label: Label::Singular,
                        ty: TypeRef::Named("Color"),
                        name: "value",
                        number: 1,
                    }),
                ],
                reserved: vec![],
            }),
            ItemDef::Message(MessageDef {
                name: "ValueTileLayout",
                docs: vec![
                    " A tile layout value.",
                ],
                fields: vec![
                    FieldDef::Field(FieldSpec {
                        docs: vec![
                            " The layout; it must be present.",
                        ],
                        label: Label::Singular,
                        ty: TypeRef::Named("TileLayout"),
                        name: "value",
                        number: 1,
                    }),
                ],
                reserved: vec![],
            }),
            ItemDef::Message(MessageDef {
                name: "ValueLinks",
                docs: vec![
                    " The axis links of a figure.",
                ],
                fields: vec![
                    FieldDef::Field(FieldSpec {
                        docs: vec![
                            " The links, which may be empty.",
                        ],
                        label: Label::Repeated,
                        ty: TypeRef::Named("AxisLink"),
                        name: "links",
                        number: 1,
                    }),
                ],
                reserved: vec![],
            }),
            ItemDef::Message(MessageDef {
                name: "ValueParameters",
                docs: vec![
                    " The named parameters of a figure.",
                ],
                fields: vec![
                    FieldDef::Field(FieldSpec {
                        docs: vec![
                            " The parameters keyed by name, which may be empty.",
                        ],
                        label: Label::Singular,
                        ty: TypeRef::Mapping("string", "Parameter"),
                        name: "parameters",
                        number: 1,
                    }),
                ],
                reserved: vec![],
            }),
            ItemDef::Message(MessageDef {
                name: "ValueCell",
                docs: vec![
                    " A cell value.",
                ],
                fields: vec![
                    FieldDef::Field(FieldSpec {
                        docs: vec![
                            " The cell; it must be present.",
                        ],
                        label: Label::Singular,
                        ty: TypeRef::Named("Cell"),
                        name: "value",
                        number: 1,
                    }),
                ],
                reserved: vec![],
            }),
            ItemDef::Message(MessageDef {
                name: "ValueProjection",
                docs: vec![
                    " A projection value.",
                ],
                fields: vec![
                    FieldDef::Field(FieldSpec {
                        docs: vec![
                            " The projection; it must be present.",
                        ],
                        label: Label::Singular,
                        ty: TypeRef::Named("Projection"),
                        name: "value",
                        number: 1,
                    }),
                ],
                reserved: vec![],
            }),
            ItemDef::Message(MessageDef {
                name: "ValueView3d",
                docs: vec![
                    " A three-dimensional view value.",
                ],
                fields: vec![
                    FieldDef::Field(FieldSpec {
                        docs: vec![
                            " The view; it must be present.",
                        ],
                        label: Label::Singular,
                        ty: TypeRef::Named("View3d"),
                        name: "value",
                        number: 1,
                    }),
                ],
                reserved: vec![],
            }),
            ItemDef::Message(MessageDef {
                name: "ValueAxis",
                docs: vec![
                    " A coordinate axis value.",
                ],
                fields: vec![
                    FieldDef::Field(FieldSpec {
                        docs: vec![
                            " The axis; it must be present.",
                        ],
                        label: Label::Singular,
                        ty: TypeRef::Named("Axis"),
                        name: "value",
                        number: 1,
                    }),
                ],
                reserved: vec![],
            }),
            ItemDef::Message(MessageDef {
                name: "ValueScale",
                docs: vec![
                    " A scale value.",
                ],
                fields: vec![
                    FieldDef::Field(FieldSpec {
                        docs: vec![
                            " The scale; it must be specified.",
                        ],
                        label: Label::Singular,
                        ty: TypeRef::Named("Scale"),
                        name: "value",
                        number: 1,
                    }),
                ],
                reserved: vec![],
            }),
            ItemDef::Message(MessageDef {
                name: "ValueLimits",
                docs: vec![
                    " A limits value.",
                ],
                fields: vec![
                    FieldDef::Field(FieldSpec {
                        docs: vec![
                            " The limits; it must be present.",
                        ],
                        label: Label::Singular,
                        ty: TypeRef::Named("Limits"),
                        name: "value",
                        number: 1,
                    }),
                ],
                reserved: vec![],
            }),
            ItemDef::Message(MessageDef {
                name: "ValueColormapName",
                docs: vec![
                    " A colormap name value.",
                ],
                fields: vec![
                    FieldDef::Field(FieldSpec {
                        docs: vec![
                            " The colormap name; it must be specified.",
                        ],
                        label: Label::Singular,
                        ty: TypeRef::Named("ColormapName"),
                        name: "value",
                        number: 1,
                    }),
                ],
                reserved: vec![],
            }),
            ItemDef::Message(MessageDef {
                name: "ValueLegend",
                docs: vec![
                    " A legend value.",
                ],
                fields: vec![
                    FieldDef::Field(FieldSpec {
                        docs: vec![
                            " The legend; it must be present.",
                        ],
                        label: Label::Singular,
                        ty: TypeRef::Named("Legend"),
                        name: "value",
                        number: 1,
                    }),
                ],
                reserved: vec![],
            }),
            ItemDef::Message(MessageDef {
                name: "ValueLegendLocation",
                docs: vec![
                    " A legend location value.",
                ],
                fields: vec![
                    FieldDef::Field(FieldSpec {
                        docs: vec![
                            " The location; it must be specified.",
                        ],
                        label: Label::Singular,
                        ty: TypeRef::Named("LegendLocation"),
                        name: "value",
                        number: 1,
                    }),
                ],
                reserved: vec![],
            }),
            ItemDef::Message(MessageDef {
                name: "ValueColorSpec",
                docs: vec![
                    " A colour specification value.",
                ],
                fields: vec![
                    FieldDef::Field(FieldSpec {
                        docs: vec![
                            " The colour specification; it must be present.",
                        ],
                        label: Label::Singular,
                        ty: TypeRef::Named("ColorSpec"),
                        name: "value",
                        number: 1,
                    }),
                ],
                reserved: vec![],
            }),
            ItemDef::Message(MessageDef {
                name: "ValueLineStyle",
                docs: vec![
                    " A line style value.",
                ],
                fields: vec![
                    FieldDef::Field(FieldSpec {
                        docs: vec![
                            " The line style; it must be present.",
                        ],
                        label: Label::Singular,
                        ty: TypeRef::Named("LineStyle"),
                        name: "value",
                        number: 1,
                    }),
                ],
                reserved: vec![],
            }),
            ItemDef::Message(MessageDef {
                name: "ValueDashStyle",
                docs: vec![
                    " A dash style value.",
                ],
                fields: vec![
                    FieldDef::Field(FieldSpec {
                        docs: vec![
                            " The dash style; it must be specified.",
                        ],
                        label: Label::Singular,
                        ty: TypeRef::Named("DashStyle"),
                        name: "value",
                        number: 1,
                    }),
                ],
                reserved: vec![],
            }),
            ItemDef::Message(MessageDef {
                name: "ValueMarkerStyle",
                docs: vec![
                    " A marker style value.",
                ],
                fields: vec![
                    FieldDef::Field(FieldSpec {
                        docs: vec![
                            " The marker style; it must be present.",
                        ],
                        label: Label::Singular,
                        ty: TypeRef::Named("MarkerStyle"),
                        name: "value",
                        number: 1,
                    }),
                ],
                reserved: vec![],
            }),
            ItemDef::Message(MessageDef {
                name: "ValueMarkerShape",
                docs: vec![
                    " A marker shape value.",
                ],
                fields: vec![
                    FieldDef::Field(FieldSpec {
                        docs: vec![
                            " The marker shape; it must be specified.",
                        ],
                        label: Label::Singular,
                        ty: TypeRef::Named("MarkerShape"),
                        name: "value",
                        number: 1,
                    }),
                ],
                reserved: vec![],
            }),
            ItemDef::Message(MessageDef {
                name: "ValueScatterSize",
                docs: vec![
                    " A scatter size value.",
                ],
                fields: vec![
                    FieldDef::Field(FieldSpec {
                        docs: vec![
                            " The scatter size; it must be present.",
                        ],
                        label: Label::Singular,
                        ty: TypeRef::Named("ScatterSize"),
                        name: "value",
                        number: 1,
                    }),
                ],
                reserved: vec![],
            }),
            ItemDef::Message(MessageDef {
                name: "ValueScatterColor",
                docs: vec![
                    " A scatter colour value.",
                ],
                fields: vec![
                    FieldDef::Field(FieldSpec {
                        docs: vec![
                            " The scatter colour; it must be present.",
                        ],
                        label: Label::Singular,
                        ty: TypeRef::Named("ScatterColor"),
                        name: "value",
                        number: 1,
                    }),
                ],
                reserved: vec![],
            }),
            ItemDef::Message(MessageDef {
                name: "ValueGrid",
                docs: vec![
                    " A grid value.",
                ],
                fields: vec![
                    FieldDef::Field(FieldSpec {
                        docs: vec![
                            " The grid; it must be present.",
                        ],
                        label: Label::Singular,
                        ty: TypeRef::Named("Grid"),
                        name: "value",
                        number: 1,
                    }),
                ],
                reserved: vec![],
            }),
            ItemDef::Message(MessageDef {
                name: "ValueLevels",
                docs: vec![
                    " A levels value.",
                ],
                fields: vec![
                    FieldDef::Field(FieldSpec {
                        docs: vec![
                            " The levels; it must be present.",
                        ],
                        label: Label::Singular,
                        ty: TypeRef::Named("Levels"),
                        name: "value",
                        number: 1,
                    }),
                ],
                reserved: vec![],
            }),
            ItemDef::Message(MessageDef {
                name: "ValueContourPlacement",
                docs: vec![
                    " A contour placement value.",
                ],
                fields: vec![
                    FieldDef::Field(FieldSpec {
                        docs: vec![
                            " The placement; it must be present.",
                        ],
                        label: Label::Singular,
                        ty: TypeRef::Named("ContourPlacement"),
                        name: "value",
                        number: 1,
                    }),
                ],
                reserved: vec![],
            }),
            ItemDef::Message(MessageDef {
                name: "ValueQuiverScale",
                docs: vec![
                    " A quiver scale value.",
                ],
                fields: vec![
                    FieldDef::Field(FieldSpec {
                        docs: vec![
                            " The quiver scale; it must be present.",
                        ],
                        label: Label::Singular,
                        ty: TypeRef::Named("QuiverScale"),
                        name: "value",
                        number: 1,
                    }),
                ],
                reserved: vec![],
            }),
        ],
    };
    assert(file_view(f) =~~= spec_file());
    f
}

} // verus!
