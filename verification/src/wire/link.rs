//! Wire types of `ironlab/ir/v0/link.proto`.

use vstd::prelude::*;

use super::view::{file_view, FieldSpecView, FieldView, FileView, ItemView, MessageView, EnumView, ValueView, TypeRefView};
use super::schema::{EnumDef, FieldDef, FieldSpec, FileDef, ItemDef, Label, MessageDef, TypeRef, ValueDef};

verus! {

/// The declarations of this module's `.proto` file, as values.
pub closed spec fn spec_file() -> FileView {
    FileView {
        module: "ironlab_ir::wire::link"@,
        items: seq![
            ItemView::Message(MessageView {
                name: "AxisLink"@,
                docs: seq![
                    " A group of axes whose limits along one dimension are kept equal."@,
                ],
                fields: seq![
                    FieldView::Field(FieldSpecView {
                        docs: seq![
                            " The dimension whose limits are linked; it must be specified."@,
                        ],
                        label: Label::Singular,
                        ty: TypeRefView::Named("Dimension"@),
                        name: "dimension"@,
                        number: 1,
                    }),
                    FieldView::Field(FieldSpecView {
                        docs: seq![
                            " The node identifiers of the linked axes."@,
                        ],
                        label: Label::Repeated,
                        ty: TypeRefView::Scalar("uint64"@),
                        name: "axes"@,
                        number: 2,
                    }),
                ],
                reserved: seq![],
            }),
            ItemView::Enum(EnumView {
                name: "Dimension"@,
                docs: seq![
                    " A coordinate dimension of an axes."@,
                ],
                values: seq![
                    ValueView { name: "X"@, docs: seq![
                        " The x axis."@,
                    ], number: 1 },
                    ValueView { name: "Y"@, docs: seq![
                        " The y axis."@,
                    ], number: 2 },
                    ValueView { name: "Z"@, docs: seq![
                        " The z axis."@,
                    ], number: 3 },
                ],
                reserved: seq![],
            }),
        ],
    }
}

/// The declaration of this module's `.proto` file.
pub fn file() -> (f: FileDef)
    ensures
        f.module@ == "ironlab_ir::wire::link"@,
        file_view(f) == spec_file(),
{
    let f = FileDef {
        module: "ironlab_ir::wire::link",
        items: vec![
            ItemDef::Message(MessageDef {
                name: "AxisLink",
                docs: vec![
                    " A group of axes whose limits along one dimension are kept equal.",
                ],
                fields: vec![
                    FieldDef::Field(FieldSpec {
                        docs: vec![
                            " The dimension whose limits are linked; it must be specified.",
                        ],
                        label: Label::Singular,
                        ty: TypeRef::Named("Dimension"),
                        name: "dimension",
                        number: 1,
                    }),
                    FieldDef::Field(FieldSpec {
                        docs: vec![
                            " The node identifiers of the linked axes.",
                        ],
                        label: Label::Repeated,
                        ty: TypeRef::Scalar("uint64"),
                        name: "axes",
                        number: 2,
                    }),
                ],
                reserved: vec![],
            }),
            ItemDef::Enum(EnumDef {
                name: "Dimension",
                docs: vec![
                    " A coordinate dimension of an axes.",
                ],
                values: vec![
                    ValueDef { name: "X", docs: vec![
                        " The x axis.",
                    ], number: 1 },
                    ValueDef { name: "Y", docs: vec![
                        " The y axis.",
                    ], number: 2 },
                    ValueDef { name: "Z", docs: vec![
                        " The z axis.",
                    ], number: 3 },
                ],
                reserved: vec![],
            }),
        ],
    };
    assert(file_view(f) =~~= spec_file());
    f
}

} // verus!
