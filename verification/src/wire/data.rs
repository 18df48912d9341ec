//! Wire types of `ironlab/ir/v0/data.proto`.

use vstd::prelude::*;

use super::view::{file_view, FieldSpecView, FieldView, FileView, ItemView, MessageView, EnumView, ValueView, TypeRefView};
use super::schema::{EnumDef, FieldDef, FieldSpec, FileDef, ItemDef, Label, MessageDef, TypeRef, ValueDef};

verus! {

/// The declarations of this module's `.proto` file, as values.
pub closed spec fn spec_file() -> FileView {
    FileView {
        module: "ironlab_ir::wire::data"@,
        items: seq![
            ItemView::Enum(EnumView {
                name: "NdArrayElement"@,
                docs: seq![
                    " The element type of an array, which names the field of the array that holds"@,
                    " its values."@,
                ],
                values: seq![
                    ValueView { name: "F64"@, docs: seq![
                        " 64-bit floating-point values, held in `values`."@,
                    ], number: 1 },
                    ValueView { name: "U8"@, docs: seq![
                        " 8-bit unsigned integers, held in `u8_values`."@,
                    ], number: 2 },
                ],
                reserved: seq![],
            }),
            ItemView::Message(MessageView {
                name: "NdArray"@,
                docs: seq![
                    " A dense, row-major, n-dimensional array of numeric values."@,
                    ""@,
                    " A two-dimensional array with `ny` rows and `nx` columns has shape `[ny, nx]`,"@,
                    " and the value in row `j` and column `i` is at index `j * nx + i` of the field"@,
                    " that holds the values. The `element` names that field: `values` for 64-bit"@,
                    " floating-point values, in which a missing value is NaN, or `u8_values` for"@,
                    " 8-bit unsigned integers. The other field is empty. An unspecified element"@,
                    " means floating-point values, which is what every file written before the"@,
                    " element existed holds."@,
                ],
                fields: seq![
                    FieldView::Field(FieldSpecView {
                        docs: seq![
                            " The length of each dimension, outermost first."@,
                        ],
                        label: Label::Repeated,
                        ty: TypeRefView::Scalar("uint64"@),
                        name: "shape"@,
                        number: 1,
                    }),
                    FieldView::Field(FieldSpecView {
                        docs: seq![
                            " The values in row-major order, as IEEE 754 doubles, when the element is"@,
                            " `ND_ARRAY_ELEMENT_F64` or unspecified; otherwise empty."@,
                        ],
                        label: Label::Repeated,
                        ty: TypeRefView::Scalar("double"@),
                        name: "values"@,
                        number: 2,
                    }),
                    FieldView::Field(FieldSpecView {
                        docs: seq![
                            " The element type of the values, which names the field that holds them."@,
                        ],
                        label: Label::Singular,
                        ty: TypeRefView::Named("NdArrayElement"@),
                        name: "element"@,
                        number: 3,
                    }),
                    FieldView::Field(FieldSpecView {
                        docs: seq![
                            " The values in row-major order, one byte per value, when the element is"@,
                            " `ND_ARRAY_ELEMENT_U8`; otherwise empty."@,
                        ],
                        label: Label::Singular,
                        ty: TypeRefView::Scalar("bytes"@),
                        name: "u8_values"@,
                        number: 4,
                    }),
                ],
                reserved: seq![],
            }),
        ],
    }
}

/// The declaration of this module's `.proto` file.
pub fn file() -> (f: FileDef)
    ensures
        f.module@ == "ironlab_ir::wire::data"@,
        file_view(f) == spec_file(),
{
    let f = FileDef {
        module: "ironlab_ir::wire::data",
        items: vec![
            ItemDef::Enum(EnumDef {
                name: "NdArrayElement",
                docs: vec![
                    " The element type of an array, which names the field of the array that holds",
                    " its values.",
                ],
                values: vec![
                    ValueDef { name: "F64", docs: vec![
                        " 64-bit floating-point values, held in `values`.",
                    ], number: 1 },
                    ValueDef { name: "U8", docs: vec![
                        " 8-bit unsigned integers, held in `u8_values`.",
                    ], number: 2 },
                ],
                reserved: vec![],
            }),
            ItemDef::Message(MessageDef {
                name: "NdArray",
                docs: vec![
                    " A dense, row-major, n-dimensional array of numeric values.",
                    "",
                    " A two-dimensional array with `ny` rows and `nx` columns has shape `[ny, nx]`,",
                    " and the value in row `j` and column `i` is at index `j * nx + i` of the field",
                    " that holds the values. The `element` names that field: `values` for 64-bit",
                    " floating-point values, in which a missing value is NaN, or `u8_values` for",
                    " 8-bit unsigned integers. The other field is empty. An unspecified element",
                    " means floating-point values, which is what every file written before the",
                    " element existed holds.",
                ],
                fields: vec![
                    FieldDef::Field(FieldSpec {
                        docs: vec![
                            " The length of each dimension, outermost first.",
                        ],
                        label: Label::Repeated,
                        ty: TypeRef::Scalar("uint64"),
                        name: "shape",
                        number: 1,
                    }),
                    FieldDef::Field(FieldSpec {
                        docs: vec![
                            " The values in row-major order, as IEEE 754 doubles, when the element is",
                            " `ND_ARRAY_ELEMENT_F64` or unspecified; otherwise empty.",
                        ],
                        label: Label::Repeated,
                        ty: TypeRef::Scalar("double"),
                        name: "values",
                        number: 2,
                    }),
                    FieldDef::Field(FieldSpec {
                        docs: vec![
                            " The element type of the values, which names the field that holds them.",
                        ],
                        label: Label::Singular,
                        ty: TypeRef::Named("NdArrayElement"),
                        name: "element",
                        number: 3,
                    }),
                    FieldDef::Field(FieldSpec {
                        docs: vec![
                            " The values in row-major order, one byte per value, when the element is",
                            " `ND_ARRAY_ELEMENT_U8`; otherwise empty.",
                        ],
                        label: Label::Singular,
                        ty: TypeRef::Scalar("bytes"),
                        name: "u8_values",
                        number: 4,
                    }),
                ],
                reserved: vec![],
            }),
        ],
    };
    assert(file_view(f) =~~= spec_file());
    f
}

} // verus!
