//! Wire types of `ironlab/ir/v0/style.proto`.

use vstd::prelude::*;

use super::view::{file_view, FieldSpecView, FieldView, FileView, ItemView, MessageView, EnumView, ValueView, TypeRefView};
use super::schema::{EnumDef, FieldDef, FieldSpec, FileDef, ItemDef, Label, MessageDef, TypeRef, ValueDef};

verus! {

/// The declarations of this module's `.proto` file, as values.
pub closed spec fn spec_file() -> FileView {
    FileView {
        module: "ironlab_ir::wire::style"@,
        items: seq![
            ItemView::Message(MessageView {
                name: "Color"@,
                docs: seq![
                    " An sRGB colour with straight (non-premultiplied) alpha, each component from 0"@,
                    " to 1."@,
                ],
                fields: seq![
                    FieldView::Field(FieldSpecView {
                        docs: seq![
                            " The red component."@,
                        ],
                        label: Label::Singular,
                        ty: TypeRefView::Scalar("float"@),
                        name: "r"@,
                        number: 1,
                    }),
                    FieldView::Field(FieldSpecView {
                        docs: seq![
                            " The green component."@,
                        ],
                        label: Label::Singular,
                        ty: TypeRefView::Scalar("float"@),
                        name: "g"@,
                        number: 2,
                    }),
                    FieldView::Field(FieldSpecView {
                        docs: seq![
                            " The blue component."@,
                        ],
                        label: Label::Singular,
                        ty: TypeRefView::Scalar("float"@),
                        name: "b"@,
                        number: 3,
                    }),
                    FieldView::Field(FieldSpecView {
                        docs: seq![
                            " The opacity, from 0 (transparent) to 1 (opaque)."@,
                        ],
                        label: Label::Singular,
                        ty: TypeRefView::Scalar("float"@),
                        name: "a"@,
                        number: 4,
                    }),
                ],
                reserved: seq![],
            }),
            ItemView::Message(MessageView {
                name: "ColorSpec"@,
                docs: seq![
                    " How a colour is chosen for a stroke, fill or marker."@,
                ],
                fields: seq![
                    FieldView::Oneof {
                        name: "kind"@,
                        docs: seq![
                            " The kind of colour; unset means the default of the context."@,
                        ],
                        variants: seq![
                            FieldSpecView {
                                docs: seq![
                                    " The renderer chooses the colour."@,
                                ],
                                label: Label::Singular,
                                ty: TypeRefView::Named("ColorSpecAuto"@),
                                name: "automatic"@,
                                number: 1,
                            },
                            FieldSpecView {
                                docs: seq![
                                    " A fixed colour."@,
                                ],
                                label: Label::Singular,
                                ty: TypeRefView::Named("ColorSpecRgba"@),
                                name: "rgba"@,
                                number: 2,
                            },
                            FieldSpecView {
                                docs: seq![
                                    " Nothing is drawn."@,
                                ],
                                label: Label::Singular,
                                ty: TypeRefView::Named("ColorSpecNone"@),
                                name: "none"@,
                                number: 3,
                            },
                            FieldSpecView {
                                docs: seq![
                                    " The colour is taken from the axes colormap."@,
                                ],
                                label: Label::Singular,
                                ty: TypeRefView::Named("ColorSpecColormapped"@),
                                name: "colormapped"@,
                                number: 4,
                            },
                        ],
                    },
                ],
                reserved: seq![],
            }),
            ItemView::Message(MessageView {
                name: "ColorSpecAuto"@,
                docs: seq![
                    " The renderer chooses the colour: for series the next colour of the axes colour"@,
                    " order, and inside a scatter marker the scatter colour."@,
                ],
                fields: seq![],
                reserved: seq![],
            }),
            ItemView::Message(MessageView {
                name: "ColorSpecRgba"@,
                docs: seq![
                    " A fixed colour."@,
                ],
                fields: seq![
                    FieldView::Field(FieldSpecView {
                        docs: seq![
                            " The colour to use."@,
                        ],
                        label: Label::Singular,
                        ty: TypeRefView::Named("Color"@),
                        name: "color"@,
                        number: 1,
                    }),
                ],
                reserved: seq![],
            }),
            ItemView::Message(MessageView {
                name: "ColorSpecNone"@,
                docs: seq![
                    " Nothing is drawn."@,
                ],
                fields: seq![],
                reserved: seq![],
            }),
            ItemView::Message(MessageView {
                name: "ColorSpecColormapped"@,
                docs: seq![
                    " The colour is taken from the axes colormap, indexed by the data value scaled"@,
                    " into the axes colour limits."@,
                ],
                fields: seq![],
                reserved: seq![],
            }),
            ItemView::Message(MessageView {
                name: "LineStyle"@,
                docs: seq![
                    " The style of a stroked line."@,
                ],
                fields: seq![
                    FieldView::Field(FieldSpecView {
                        docs: seq![
                            " The line colour."@,
                        ],
                        label: Label::Singular,
                        ty: TypeRefView::Named("ColorSpec"@),
                        name: "color"@,
                        number: 1,
                    }),
                    FieldView::Field(FieldSpecView {
                        docs: seq![
                            " The line width in points."@,
                        ],
                        label: Label::Optional,
                        ty: TypeRefView::Scalar("double"@),
                        name: "width_pt"@,
                        number: 2,
                    }),
                    FieldView::Field(FieldSpecView {
                        docs: seq![
                            " The dash pattern of the line."@,
                        ],
                        label: Label::Singular,
                        ty: TypeRefView::Named("DashStyle"@),
                        name: "dash"@,
                        number: 3,
                    }),
                ],
                reserved: seq![],
            }),
            ItemView::Enum(EnumView {
                name: "DashStyle"@,
                docs: seq![
                    " The dash pattern of a stroked line."@,
                ],
                values: seq![
                    ValueView { name: "Solid"@, docs: seq![
                        " A continuous line."@,
                    ], number: 1 },
                    ValueView { name: "Dashed"@, docs: seq![
                        " A line of dashes."@,
                    ], number: 2 },
                    ValueView { name: "Dotted"@, docs: seq![
                        " A line of dots."@,
                    ], number: 3 },
                    ValueView { name: "DashDot"@, docs: seq![
                        " A line of alternating dashes and dots."@,
                    ], number: 4 },
                    ValueView { name: "None"@, docs: seq![
                        " No line is drawn."@,
                    ], number: 5 },
                ],
                reserved: seq![],
            }),
            ItemView::Message(MessageView {
                name: "MarkerStyle"@,
                docs: seq![
                    " The style of the markers drawn at data points."@,
                ],
                fields: seq![
                    FieldView::Field(FieldSpecView {
                        docs: seq![
                            " The marker shape."@,
                        ],
                        label: Label::Singular,
                        ty: TypeRefView::Named("MarkerShape"@),
                        name: "shape"@,
                        number: 1,
                    }),
                    FieldView::Field(FieldSpecView {
                        docs: seq![
                            " The marker size in points, measured as the width of the marker."@,
                        ],
                        label: Label::Optional,
                        ty: TypeRefView::Scalar("double"@),
                        name: "size_pt"@,
                        number: 2,
                    }),
                    FieldView::Field(FieldSpecView {
                        docs: seq![
                            " The colour of the marker interior."@,
                        ],
                        label: Label::Singular,
                        ty: TypeRefView::Named("ColorSpec"@),
                        name: "face"@,
                        number: 3,
                    }),
                    FieldView::Field(FieldSpecView {
                        docs: seq![
                            " The colour of the marker outline."@,
                        ],
                        label: Label::Singular,
                        ty: TypeRefView::Named("ColorSpec"@),
                        name: "edge"@,
                        number: 4,
                    }),
                ],
                reserved: seq![],
            }),
            ItemView::Enum(EnumView {
                name: "MarkerShape"@,
                docs: seq![
                    " The shape of a marker."@,
                ],
                values: seq![
                    ValueView { name: "None"@, docs: seq![
                        " No marker is drawn."@,
                    ], number: 1 },
                    ValueView { name: "Circle"@, docs: seq![
                        " A circle."@,
                    ], number: 2 },
                    ValueView { name: "Square"@, docs: seq![
                        " An axis-aligned square."@,
                    ], number: 3 },
                    ValueView { name: "Diamond"@, docs: seq![
                        " A square rotated by 45 degrees."@,
                    ], number: 4 },
                    ValueView { name: "TriangleUp"@, docs: seq![
                        " A triangle pointing upwards."@,
                    ], number: 5 },
                    ValueView { name: "TriangleDown"@, docs: seq![
                        " A triangle pointing downwards."@,
                    ], number: 6 },
                    ValueView { name: "Plus"@, docs: seq![
                        " A plus sign."@,
                    ], number: 7 },
                    ValueView { name: "Cross"@, docs: seq![
                        " A diagonal cross."@,
                    ], number: 8 },
                    ValueView { name: "Point"@, docs: seq![
                        " A small filled dot."@,
                    ], number: 9 },
                ],
                reserved: seq![],
            }),
        ],
    }
}

/// The declaration of this module's `.proto` file.
pub fn file() -> (f: FileDef)
    ensures
        f.module@ == "ironlab_ir::wire::style"@,
        file_view(f) == spec_file(),
{
    let f = FileDef {
        module: "ironlab_ir::wire::style",
        items: vec![
            ItemDef::Message(MessageDef {
                name: "Color",
                docs: vec![
                    " An sRGB colour with straight (non-premultiplied) alpha, each component from 0",
                    " to 1.",
                ],
                fields: vec![
                    FieldDef::Field(FieldSpec {
                        docs: vec![
                            " The red component.",
                        ],
                        label: Label::Singular,
                        ty: TypeRef::Scalar("float"),
                        name: "r",
                        number: 1,
                    }),
                    FieldDef::Field(FieldSpec {
                        docs: vec![
                            " The green component.",
                        ],
                        label: Label::Singular,
                        ty: TypeRef::Scalar("float"),
                        name: "g",
                        number: 2,
                    }),
                    FieldDef::Field(FieldSpec {
                        docs: vec![
                            " The blue component.",
                        ],
                        label: Label::Singular,
                        ty: TypeRef::Scalar("float"),
                        name: "b",
                        number: 3,
                    }),
                    FieldDef::Field(FieldSpec {
                        docs: vec![
                            " The opacity, from 0 (transparent) to 1 (opaque).",
                        ],
                        label: Label::Singular,
                        ty: TypeRef::Scalar("float"),
                        name: "a",
                        number: 4,
                    }),
                ],
                reserved: vec![],
            }),
            ItemDef::Message(MessageDef {
                name: "ColorSpec",
                docs: vec![
                    " How a colour is chosen for a stroke, fill or marker.",
                ],
                fields: vec![
                    FieldDef::Oneof {
                        name: "kind",
                        docs: vec![
                            " The kind of colour; unset means the default of the context.",
                        ],
                        variants: vec![
                            FieldSpec {
                                docs: vec![
                                    " The renderer chooses the colour.",
                                ],
                                label: Label::Singular,
                                ty: TypeRef::Named("ColorSpecAuto"),
                                name: "automatic",
                                number: 1,
                            },
                            FieldSpec {
                                docs: vec![
                                    " A fixed colour.",
                                ],
                                label: Label::Singular,
                                ty: TypeRef::Named("ColorSpecRgba"),
                                name: "rgba",
                                number: 2,
                            },
                            FieldSpec {
                                docs: vec![
                                    " Nothing is drawn.",
                                ],
                                label: Label::Singular,
                                ty: TypeRef::Named("ColorSpecNone"),
                                name: "none",
                                number: 3,
                            },
                            FieldSpec {
                                docs: vec![
                                    " The colour is taken from the axes colormap.",
                                ],
                                label: Label::Singular,
                                ty: TypeRef::Named("ColorSpecColormapped"),
                                name: "colormapped",
                                number: 4,
                            },
                        ],
                    },
                ],
                reserved: vec![],
            }),
            ItemDef::Message(MessageDef {
                name: "ColorSpecAuto",
                docs: vec![
                    " The renderer chooses the colour: for series the next colour of the axes colour",
                    " order, and inside a scatter marker the scatter colour.",
                ],
                fields: vec![],
                reserved: vec![],
            }),
            ItemDef::Message(MessageDef {
                name: "ColorSpecRgba",
                docs: vec![
                    " A fixed colour.",
                ],
                fields: vec![
                    FieldDef::Field(FieldSpec {
                        docs: vec![
                            " The colour to use.",
                        ],
                        label: Label::Singular,
                        ty: TypeRef::Named("Color"),
                        name: "color",
                        number: 1,
                    }),
                ],
                reserved: vec![],
            }),
            ItemDef::Message(MessageDef {
                name: "ColorSpecNone",
                docs: vec![
                    " Nothing is drawn.",
                ],
                fields: vec![],
                reserved: vec![],
            }),
            ItemDef::Message(MessageDef {
                name: "ColorSpecColormapped",
                docs: vec![
                    " The colour is taken from the axes colormap, indexed by the data value scaled",
                    " into the axes colour limits.",
                ],
                fields: vec![],
                reserved: vec![],
            }),
            ItemDef::Message(MessageDef {
                name: "LineStyle",
                docs: vec![
                    " The style of a stroked line.",
                ],
                fields: vec![
                    FieldDef::Field(FieldSpec {
                        docs: vec![
                            " The line colour.",
                        ],
                        label: Label::Singular,
                        ty: TypeRef::Named("ColorSpec"),
                        name: "color",
                        number: 1,
                    }),
                    FieldDef::Field(FieldSpec {
                        docs: vec![
                            " The line width in points.",
                        ],
                        label: Label::Optional,
                        ty: TypeRef::Scalar("double"),
                        name: "width_pt",
                        number: 2,
                    }),
                    FieldDef::Field(FieldSpec {
                        docs: vec![
                            " The dash pattern of the line.",
                        ],
                        label: Label::Singular,
                        ty: TypeRef::Named("DashStyle"),
                        name: "dash",
                        number: 3,
                    }),
                ],
                reserved: vec![],
            }),
            ItemDef::Enum(EnumDef {
                name: "DashStyle",
                docs: vec![
                    " The dash pattern of a stroked line.",
                ],
                values: vec![
                    ValueDef { name: "Solid", docs: vec![
                        " A continuous line.",
                    ], number: 1 },
                    ValueDef { name: "Dashed", docs: vec![
                        " A line of dashes.",
                    ], number: 2 },
                    ValueDef { name: "Dotted", docs: vec![
                        " A line of dots.",
                    ], number: 3 },
                    ValueDef { name: "DashDot", docs: vec![
                        " A line of alternating dashes and dots.",
                    ], number: 4 },
                    ValueDef { name: "None", docs: vec![
                        " No line is drawn.",
                    ], number: 5 },
                ],
                reserved: vec![],
            }),
            ItemDef::Message(MessageDef {
                name: "MarkerStyle",
                docs: vec![
                    " The style of the markers drawn at data points.",
                ],
                fields: vec![
                    FieldDef::Field(FieldSpec {
                        docs: vec![
                            " The marker shape.",
                        ],
                        label: Label::Singular,
                        ty: TypeRef::Named("MarkerShape"),
                        name: "shape",
                        number: 1,
                    }),
                    FieldDef::Field(FieldSpec {
                        docs: vec![
                            " The marker size in points, measured as the width of the marker.",
                        ],
                        label: Label::Optional,
                        ty: TypeRef::Scalar("double"),
                        name: "size_pt",
                        number: 2,
                    }),
                    FieldDef::Field(FieldSpec {
                        docs: vec![
                            " The colour of the marker interior.",
                        ],
                        label: Label::Singular,
                        ty: TypeRef::Named("ColorSpec"),
                        name: "face",
                        number: 3,
                    }),
                    FieldDef::Field(FieldSpec {
                        docs: vec![
                            " The colour of the marker outline.",
                        ],
                        label: Label::Singular,
                        ty: TypeRef::Named("ColorSpec"),
                        name: "edge",
                        number: 4,
                    }),
                ],
                reserved: vec![],
            }),
            ItemDef::Enum(EnumDef {
                name: "MarkerShape",
                docs: vec![
                    " The shape of a marker.",
                ],
                values: vec![
                    ValueDef { name: "None", docs: vec![
                        " No marker is drawn.",
                    ], number: 1 },
                    ValueDef { name: "Circle", docs: vec![
                        " A circle.",
                    ], number: 2 },
                    ValueDef { name: "Square", docs: vec![
                        " An axis-aligned square.",
                    ], number: 3 },
                    ValueDef { name: "Diamond", docs: vec![
                        " A square rotated by 45 degrees.",
                    ], number: 4 },
                    ValueDef { name: "TriangleUp", docs: vec![
                        " A triangle pointing upwards.",
                    ], number: 5 },
                    ValueDef { name: "TriangleDown", docs: vec![
                        " A triangle pointing downwards.",
                    ], number: 6 },
                    ValueDef { name: "Plus", docs: vec![
                        " A plus sign.",
                    ], number: 7 },
                    ValueDef { name: "Cross", docs: vec![
                        " A diagonal cross.",
                    ], number: 8 },
                    ValueDef { name: "Point", docs: vec![
                        " A small filled dot.",
                    ], number: 9 },
                ],
                reserved: vec![],
            }),
        ],
    };
    assert(file_view(f) =~~= spec_file());
    f
}

} // verus!
