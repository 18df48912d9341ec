//! Wire types of `ironlab/ir/v0/figure.proto`.

use vstd::prelude::*;

use super::view::{file_view, FieldSpecView, FieldView, FileView, ItemView, MessageView, EnumView, ValueView, TypeRefView};
use super::schema::{EnumDef, FieldDef, FieldSpec, FileDef, ItemDef, Label, MessageDef, TypeRef, ValueDef};

verus! {

/// The declarations of this module's `.proto` file, as values.
pub closed spec fn spec_file() -> FileView {
    FileView {
        module: "ironlab_ir::wire::figure"@,
        items: seq![
            ItemView::Message(MessageView {
                name: "Figure"@,
                docs: seq![
                    " A figure: the root of the retained IR, holding axes, data and axis links."@,
                ],
                fields: seq![
                    FieldView::Field(FieldSpecView {
                        docs: seq![
                            " The version of the figure schema that the message conforms to, as"@,
                            " `major.minor.patch`. This is field 1 in every version of the schema, so"@,
                            " that a reader can check compatibility before decoding the other fields."@,
                        ],
                        label: Label::Singular,
                        ty: TypeRefView::Scalar("string"@),
                        name: "schema_version"@,
                        number: 1,
                    }),
                    FieldView::Field(FieldSpecView {
                        docs: seq![
                            " The node identifier of the figure, unique within the figure."@,
                        ],
                        label: Label::Optional,
                        ty: TypeRefView::Scalar("uint64"@),
                        name: "id"@,
                        number: 2,
                    }),
                    FieldView::Field(FieldSpecView {
                        docs: seq![
                            " The title drawn above all axes; absent when there is no title."@,
                        ],
                        label: Label::Singular,
                        ty: TypeRefView::Named("Text"@),
                        name: "title"@,
                        number: 3,
                    }),
                    FieldView::Field(FieldSpecView {
                        docs: seq![
                            " The physical size of the figure."@,
                        ],
                        label: Label::Singular,
                        ty: TypeRefView::Named("FigureSize"@),
                        name: "size"@,
                        number: 4,
                    }),
                    FieldView::Field(FieldSpecView {
                        docs: seq![
                            " The font set used for all text."@,
                        ],
                        label: Label::Singular,
                        ty: TypeRefView::Named("FontSetId"@),
                        name: "font_set"@,
                        number: 5,
                    }),
                    FieldView::Field(FieldSpecView {
                        docs: seq![
                            " The base font size in points; titles and tick labels are scaled from it."@,
                        ],
                        label: Label::Optional,
                        ty: TypeRefView::Scalar("double"@),
                        name: "font_size_pt"@,
                        number: 6,
                    }),
                    FieldView::Field(FieldSpecView {
                        docs: seq![
                            " The colour of the figure background."@,
                        ],
                        label: Label::Singular,
                        ty: TypeRefView::Named("Color"@),
                        name: "background"@,
                        number: 7,
                    }),
                    FieldView::Field(FieldSpecView {
                        docs: seq![
                            " The grid of cells in which axes are placed."@,
                        ],
                        label: Label::Singular,
                        ty: TypeRefView::Named("TileLayout"@),
                        name: "layout"@,
                        number: 8,
                    }),
                    FieldView::Field(FieldSpecView {
                        docs: seq![
                            " The numeric arrays referenced by artists, keyed by data identifier."@,
                        ],
                        label: Label::Singular,
                        ty: TypeRefView::Mapping("uint64"@, "NdArray"@),
                        name: "data"@,
                        number: 9,
                    }),
                    FieldView::Field(FieldSpecView {
                        docs: seq![
                            " The axes of the figure, in drawing order."@,
                        ],
                        label: Label::Repeated,
                        ty: TypeRefView::Named("Axes"@),
                        name: "axes"@,
                        number: 10,
                    }),
                    FieldView::Field(FieldSpecView {
                        docs: seq![
                            " The groups of axes whose limits are linked along a dimension."@,
                        ],
                        label: Label::Repeated,
                        ty: TypeRefView::Named("AxisLink"@),
                        name: "links"@,
                        number: 11,
                    }),
                    FieldView::Field(FieldSpecView {
                        docs: seq![
                            " A record of the software that produced the figure."@,
                        ],
                        label: Label::Singular,
                        ty: TypeRefView::Named("Provenance"@),
                        name: "provenance"@,
                        number: 12,
                    }),
                    FieldView::Field(FieldSpecView {
                        docs: seq![
                            " Named values that describe the figure, used to sort, filter and search"@,
                            " collections of figures, keyed by name and written in ascending order of the"@,
                            " UTF-8 bytes of the name."@,
                        ],
                        label: Label::Singular,
                        ty: TypeRefView::Mapping("string"@, "Parameter"@),
                        name: "parameters"@,
                        number: 13,
                    }),
                ],
                reserved: seq![],
            }),
            ItemView::Message(MessageView {
                name: "FigureSize"@,
                docs: seq![
                    " The physical size of a figure."@,
                ],
                fields: seq![
                    FieldView::Field(FieldSpecView {
                        docs: seq![
                            " The width in millimetres."@,
                        ],
                        label: Label::Optional,
                        ty: TypeRefView::Scalar("double"@),
                        name: "width_mm"@,
                        number: 1,
                    }),
                    FieldView::Field(FieldSpecView {
                        docs: seq![
                            " The height in millimetres."@,
                        ],
                        label: Label::Optional,
                        ty: TypeRefView::Scalar("double"@),
                        name: "height_mm"@,
                        number: 2,
                    }),
                ],
                reserved: seq![],
            }),
            ItemView::Enum(EnumView {
                name: "FontSetId"@,
                docs: seq![
                    " The identifier of a bundled font set."@,
                ],
                values: seq![
                    ValueView { name: "StixTwo"@, docs: seq![
                        " STIX Two Text for text and STIX Two Math for mathematics."@,
                    ], number: 1 },
                ],
                reserved: seq![],
            }),
            ItemView::Message(MessageView {
                name: "TileLayout"@,
                docs: seq![
                    " The grid of cells in which the axes of a figure are placed."@,
                ],
                fields: seq![
                    FieldView::Field(FieldSpecView {
                        docs: seq![
                            " The number of rows; at least one."@,
                        ],
                        label: Label::Optional,
                        ty: TypeRefView::Scalar("uint32"@),
                        name: "rows"@,
                        number: 1,
                    }),
                    FieldView::Field(FieldSpecView {
                        docs: seq![
                            " The number of columns; at least one."@,
                        ],
                        label: Label::Optional,
                        ty: TypeRefView::Scalar("uint32"@),
                        name: "cols"@,
                        number: 2,
                    }),
                ],
                reserved: seq![],
            }),
            ItemView::Message(MessageView {
                name: "Provenance"@,
                docs: seq![
                    " A record of the software that produced a figure."@,
                ],
                fields: seq![
                    FieldView::Field(FieldSpecView {
                        docs: seq![
                            " The version of IronLAB that wrote the figure."@,
                        ],
                        label: Label::Singular,
                        ty: TypeRefView::Scalar("string"@),
                        name: "ironlab_version"@,
                        number: 1,
                    }),
                    FieldView::Field(FieldSpecView {
                        docs: seq![
                            " The name and version of the mathematics typesetter."@,
                        ],
                        label: Label::Singular,
                        ty: TypeRefView::Scalar("string"@),
                        name: "typesetter"@,
                        number: 2,
                    }),
                    FieldView::Field(FieldSpecView {
                        docs: seq![
                            " The names of the fonts used for text."@,
                        ],
                        label: Label::Repeated,
                        ty: TypeRefView::Scalar("string"@),
                        name: "fonts"@,
                        number: 3,
                    }),
                ],
                reserved: seq![],
            }),
            ItemView::Message(MessageView {
                name: "Parameter"@,
                docs: seq![
                    " A named value that describes a figure."@,
                ],
                fields: seq![
                    FieldView::Oneof {
                        name: "kind"@,
                        docs: seq![
                            " The kind of value; it must be set."@,
                        ],
                        variants: seq![
                            FieldSpecView {
                                docs: seq![
                                    " A boolean."@,
                                ],
                                label: Label::Singular,
                                ty: TypeRefView::Named("ParameterBool"@),
                                name: "bool_value"@,
                                number: 1,
                            },
                            FieldSpecView {
                                docs: seq![
                                    " A signed 64-bit integer."@,
                                ],
                                label: Label::Singular,
                                ty: TypeRefView::Named("ParameterInteger"@),
                                name: "integer_value"@,
                                number: 2,
                            },
                            FieldSpecView {
                                docs: seq![
                                    " A double-precision floating-point number."@,
                                ],
                                label: Label::Singular,
                                ty: TypeRefView::Named("ParameterNumber"@),
                                name: "number_value"@,
                                number: 3,
                            },
                            FieldSpecView {
                                docs: seq![
                                    " A string of Unicode text."@,
                                ],
                                label: Label::Singular,
                                ty: TypeRefView::Named("ParameterString"@),
                                name: "string_value"@,
                                number: 4,
                            },
                        ],
                    },
                ],
                reserved: seq![],
            }),
            ItemView::Message(MessageView {
                name: "ParameterBool"@,
                docs: seq![
                    " A boolean parameter."@,
                ],
                fields: seq![
                    FieldView::Field(FieldSpecView {
                        docs: seq![
                            " The value; it must be present."@,
                        ],
                        label: Label::Optional,
                        ty: TypeRefView::Scalar("bool"@),
                        name: "value"@,
                        number: 1,
                    }),
                ],
                reserved: seq![],
            }),
            ItemView::Message(MessageView {
                name: "ParameterInteger"@,
                docs: seq![
                    " A signed 64-bit integer parameter."@,
                ],
                fields: seq![
                    FieldView::Field(FieldSpecView {
                        docs: seq![
                            " The value; it must be present."@,
                        ],
                        label: Label::Optional,
                        ty: TypeRefView::Scalar("int64"@),
                        name: "value"@,
                        number: 1,
                    }),
                ],
                reserved: seq![],
            }),
            ItemView::Message(MessageView {
                name: "ParameterNumber"@,
                docs: seq![
                    " A double-precision floating-point number parameter."@,
                ],
                fields: seq![
                    FieldView::Field(FieldSpecView {
                        docs: seq![
                            " The value, which must be present and, in a valid figure, finite."@,
                        ],
                        label: Label::Optional,
                        ty: TypeRefView::Scalar("double"@),
                        name: "value"@,
                        number: 1,
                    }),
                ],
                reserved: seq![],
            }),
            ItemView::Message(MessageView {
                name: "ParameterString"@,
                docs: seq![
                    " A string parameter."@,
                ],
                fields: seq![
                    FieldView::Field(FieldSpecView {
                        docs: seq![
                            " The value, which may be empty."@,
                        ],
                        label: Label::Singular,
                        ty: TypeRefView::Scalar("string"@),
                        name: "value"@,
                        number: 1,
                    }),
                ],
                reserved: seq![],
            }),
        ],
    }
}

/// The declaration of this module's `.proto` file.
pub fn file() -> (f: FileDef)
    ensures
        f.module@ == "ironlab_ir::wire::figure"@,
        file_view(f) == spec_file(),
{
    let f = FileDef {
        module: "ironlab_ir::wire::figure",
        items: vec![
            ItemDef::Message(MessageDef {
                name: "Figure",
                docs: vec![
                    " A figure: the root of the retained IR, holding axes, data and axis links.",
                ],
                fields: vec![
                    FieldDef::Field(FieldSpec {
                        docs: vec![
                            " The version of the figure schema that the message conforms to, as",
                            " `major.minor.patch`. This is field 1 in every version of the schema, so",
                            " that a reader can check compatibility before decoding the other fields.",
                        ],
                        label: Label::Singular,
                        ty: TypeRef::Scalar("string"),
                        name: "schema_version",
                        number: 1,
                    }),
                    FieldDef::Field(FieldSpec {
                        docs: vec![
                            " The node identifier of the figure, unique within the figure.",
                        ],
                        label: Label::Optional,
                        ty: TypeRef::Scalar("uint64"),
                        name: "id",
                        number: 2,
                    }),
                    FieldDef::Field(FieldSpec {
                        docs: vec![
                            " The title drawn above all axes; absent when there is no title.",
                        ],
                        label: Label::Singular,
                        ty: TypeRef::Named("Text"),
                        name: "title",
                        number: 3,
                    }),
                    FieldDef::Field(FieldSpec {
                        docs: vec![
                            " The physical size of the figure.",
                        ],
                        label: Label::Singular,
                        ty: TypeRef::Named("FigureSize"),
                        name: "size",
                        number: 4,
                    }),
                    FieldDef::Field(FieldSpec {
                        docs: vec![
                            " The font set used for all text.",
                        ],
                        label: Label::Singular,
                        ty: TypeRef::Named("FontSetId"),
                        name: "font_set",
                        number: 5,
                    }),
                    FieldDef::Field(FieldSpec {
                        docs: vec![
                            " The base font size in points; titles and tick labels are scaled from it.",
                        ],
                        label: Label::Optional,
                        ty: TypeRef::Scalar("double"),
                        name: "font_size_pt",
                        number: 6,
                    }),
                    FieldDef::Field(FieldSpec {
                        docs: vec![
                            " The colour of the figure background.",
                        ],
                        label: Label::Singular,
                        ty: TypeRef::Named("Color"),
                        name: "background",
                        number: 7,
                    }),
                    FieldDef::Field(FieldSpec {
                        docs: vec![
                            " The grid of cells in which axes are placed.",
                        ],
                        label: Label::Singular,
                        ty: TypeRef::Named("TileLayout"),
                        name: "layout",
                        number: 8,
                    }),
                    FieldDef::Field(FieldSpec {
                        docs: vec![
                            " The numeric arrays referenced by artists, keyed by data identifier.",
                        ],
                        label: Label::Singular,
                        ty: TypeRef::Mapping("uint64", "NdArray"),
                        name: "data",
                        number: 9,
                    }),
                    FieldDef::Field(FieldSpec {
                        docs: vec![
                            " The axes of the figure, in drawing order.",
                        ],
                        label: Label::Repeated,
                        ty: TypeRef::Named("Axes"),
                        name: "axes",
                        number: 10,
                    }),
                    FieldDef::Field(FieldSpec {
                        docs: vec![
                            " The groups of axes whose limits are linked along a dimension.",
                        ],
                        label: Label::Repeated,
                        ty: TypeRef::Named("AxisLink"),
                        name: "links",
                        number: 11,
                    }),
                    FieldDef::Field(FieldSpec {
                        docs: vec![
                            " A record of the software that produced the figure.",
                        ],
                        label: Label::Singular,
                        ty: TypeRef::Named("Provenance"),
                        name: "provenance",
                        number: 12,
                    }),
                    FieldDef::Field(FieldSpec {
                        docs: vec![
                            " Named values that describe the figure, used to sort, filter and search",
                            " collections of figures, keyed by name and written in ascending order of the",
                            " UTF-8 bytes of the name.",
                        ],
                        label: Label::Singular,
                        ty: TypeRef::Mapping("string", "Parameter"),
                        name: "parameters",
                        number: 13,
                    }),
                ],
                reserved: vec![],
            }),
            ItemDef::Message(MessageDef {
                name: "FigureSize",
                docs: vec![
                    " The physical size of a figure.",
                ],
                fields: vec![
                    FieldDef::Field(FieldSpec {
                        docs: vec![
                            " The width in millimetres.",
                        ],
                        label: Label::Optional,
                        ty: TypeRef::Scalar("double"),
                        name: "width_mm",
                        number: 1,
                    }),
                    FieldDef::Field(FieldSpec {
                        docs: vec![
                            " The height in millimetres.",
                        ],
                        label: Label::Optional,
                        ty: TypeRef::Scalar("double"),
                        name: "height_mm",
                        number: 2,
                    }),
                ],
                reserved: vec![],
            }),
            ItemDef::Enum(EnumDef {
                name: "FontSetId",
                docs: vec![
                    " The identifier of a bundled font set.",
                ],
                values: vec![
                    ValueDef { name: "StixTwo", docs: vec![
                        " STIX Two Text for text and STIX Two Math for mathematics.",
                    ], number: 1 },
                ],
                reserved: vec![],
            }),
            ItemDef::Message(MessageDef {
                name: "TileLayout",
                docs: vec![
                    " The grid of cells in which the axes of a figure are placed.",
                ],
                fields: vec![
                    FieldDef::Field(FieldSpec {
                        docs: vec![
                            " The number of rows; at least one.",
                        ],
                        label: Label::Optional,
                        ty: TypeRef::Scalar("uint32"),
                        name: "rows",
                        number: 1,
                    }),
                    FieldDef::Field(FieldSpec {
                        docs: vec![
                            " The number of columns; at least one.",
                        ],
                        label: Label::Optional,
                        ty: TypeRef::Scalar("uint32"),
                        name: "cols",
                        number: 2,
                    }),
                ],
                reserved: vec![],
            }),
            ItemDef::Message(MessageDef {
                name: "Provenance",
                docs: vec![
                    " A record of the software that produced a figure.",
                ],
                fields: vec![
                    FieldDef::Field(FieldSpec {
                        docs: vec![
                            " The version of IronLAB that wrote the figure.",
                        ],
                        label: Label::Singular,
                        ty: TypeRef::Scalar("string"),
                        name: "ironlab_version",
                        number: 1,
                    }),
                    FieldDef::Field(FieldSpec {
                        docs: vec![
                            " The name and version of the mathematics typesetter.",
                        ],
                        label: Label::Singular,
                        ty: TypeRef::Scalar("string"),
                        name: "typesetter",
                        number: 2,
                    }),
                    FieldDef::Field(FieldSpec {
                        docs: vec![
                            " The names of the fonts used for text.",
                        ],
                        label: Label::Repeated,
                        ty: TypeRef::Scalar("string"),
                        name: "fonts",
                        number: 3,
                    }),
                ],
                reserved: vec![],
            }),
            ItemDef::Message(MessageDef {
                name: "Parameter",
                docs: vec![
                    " A named value that describes a figure.",
                ],
                fields: vec![
                    FieldDef::Oneof {
                        name: "kind",
                        docs: vec![
                            " The kind of value; it must be set.",
                        ],
                        variants: vec![
                            FieldSpec {
                                docs: vec![
                                    " A boolean.",
                                ],
                                label: Label::Singular,
                                ty: TypeRef::Named("ParameterBool"),
                                name: "bool_value",
                                number: 1,
                            },
                            FieldSpec {
                                docs: vec![
                                    " A signed 64-bit integer.",
                                ],
                                label: Label::Singular,
                                ty: TypeRef::Named("ParameterInteger"),
                                name: "integer_value",
                                number: 2,
                            },
                            FieldSpec {
                                docs: vec![
                                    " A double-precision floating-point number.",
                                ],
                                label: Label::Singular,
                                ty: TypeRef::Named("ParameterNumber"),
                                name: "number_value",
                                number: 3,
                            },
                            FieldSpec {
                                docs: vec![
                                    " A string of Unicode text.",
                                ],
                                label: Label::Singular,
                                ty: TypeRef::Named("ParameterString"),
                                name: "string_value",
                                number: 4,
                            },
                        ],
                    },
                ],
                reserved: vec![],
            }),
            ItemDef::Message(MessageDef {
                name: "ParameterBool",
                docs: vec![
                    " A boolean parameter.",
                ],
                fields: vec![
                    FieldDef::Field(FieldSpec {
                        docs: vec![
                            " The value; it must be present.",
                        ],
                        label: Label::Optional,
                        ty: TypeRef::Scalar("bool"),
                        name: "value",
                        number: 1,
                    }),
                ],
                reserved: vec![],
            }),
            ItemDef::Message(MessageDef {
                name: "ParameterInteger",
                docs: vec![
                    " A signed 64-bit integer parameter.",
                ],
                fields: vec![
                    FieldDef::Field(FieldSpec {
                        docs: vec![
                            " The value; it must be present.",
                        ],
                        label: Label::Optional,
                        ty: TypeRef::Scalar("int64"),
                        name: "value",
                        number: 1,
                    }),
                ],
                reserved: vec![],
            }),
            ItemDef::Message(MessageDef {
                name: "ParameterNumber",
                docs: vec![
                    " A double-precision floating-point number parameter.",
                ],
                fields: vec![
                    FieldDef::Field(FieldSpec {
                        docs: vec![
                            " The value, which must be present and, in a valid figure, finite.",
                        ],
                        label: Label::Optional,
                        ty: TypeRef::Scalar("double"),
                        name: "value",
                        number: 1,
                    }),
                ],
                reserved: vec![],
            }),
            ItemDef::Message(MessageDef {
                name: "ParameterString",
                docs: vec![
                    " A string parameter.",
                ],
                fields: vec![
                    FieldDef::Field(FieldSpec {
                        docs: vec![
                            " The value, which may be empty.",
                        ],
                        label: Label::Singular,
                        ty: TypeRef::Scalar("string"),
                        name: "value",
                        number: 1,
                    }),
                ],
                reserved: vec![],
            }),
        ],
    };
    assert(file_view(f) =~~= spec_file());
    f
}

} // verus!
