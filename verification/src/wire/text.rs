//! Wire types of `ironlab/ir/v0/text.proto`.

use vstd::prelude::*;

use super::view::{file_view, FieldSpecView, FieldView, FileView, ItemView, MessageView, EnumView, ValueView, TypeRefView};
use super::schema::{EnumDef, FieldDef, FieldSpec, FileDef, ItemDef, Label, MessageDef, TypeRef, ValueDef};

verus! {

/// The declarations of this module's `.proto` file, as values.
pub closed spec fn spec_file() -> FileView {
    FileView {
        module: "ironlab_ir::wire::text"@,
        items: seq![
            ItemView::Message(MessageView {
                name: "Text"@,
                docs: seq![
                    " A piece of text, stored as its source so that renderers typeset it lazily."@,
                ],
                fields: seq![
                    FieldView::Field(FieldSpecView {
                        docs: seq![
                            " The source text. With the LaTeX interpreter, segments delimited by `$…$`"@,
                            " are typeset as mathematics and the remainder as plain text."@,
                        ],
                        label: Label::Singular,
                        ty: TypeRefView::Scalar("string"@),
                        name: "content"@,
                        number: 1,
                    }),
                    FieldView::Field(FieldSpecView {
                        docs: seq![
                            " How the source text is interpreted; unspecified means LaTeX."@,
                        ],
                        label: Label::Singular,
                        ty: TypeRefView::Named("Interpreter"@),
                        name: "interpreter"@,
                        number: 2,
                    }),
                ],
                reserved: seq![],
            }),
            ItemView::Enum(EnumView {
                name: "Interpreter"@,
                docs: seq![
                    " How the source of a text is interpreted."@,
                ],
                values: seq![
                    ValueView { name: "Latex"@, docs: seq![
                        " Mixed plain text and `$…$` LaTeX mathematics."@,
                    ], number: 1 },
                    ValueView { name: "None"@, docs: seq![
                        " Plain text, rendered literally, including any dollar signs."@,
                    ], number: 2 },
                ],
                reserved: seq![],
            }),
        ],
    }
}

/// The declaration of this module's `.proto` file.
pub fn file() -> (f: FileDef)
    ensures
        f.module@ == "ironlab_ir::wire::text"@,
        file_view(f) == spec_file(),
{
    let f = FileDef {
        module: "ironlab_ir::wire::text",
        items: vec![
            ItemDef::Message(MessageDef {
                name: "Text",
                docs: vec![
                    " A piece of text, stored as its source so that renderers typeset it lazily.",
                ],
                fields: vec![
                    FieldDef::Field(FieldSpec {
                        docs: vec![
                            " The source text. With the LaTeX interpreter, segments delimited by `$…$`",
                            " are typeset as mathematics and the remainder as plain text.",
                        ],
                        label: Label::Singular,
                        ty: TypeRef::Scalar("string"),
                        name: "content",
                        number: 1,
                    }),
                    FieldDef::Field(FieldSpec {
                        docs: vec![
                            " How the source text is interpreted; unspecified means LaTeX.",
                        ],
                        label: Label::Singular,
                        ty: TypeRef::Named("Interpreter"),
                        name: "interpreter",
                        number: 2,
                    }),
                ],
                reserved: vec![],
            }),
            ItemDef::Enum(EnumDef {
                name: "Interpreter",
                docs: vec![
                    " How the source of a text is interpreted.",
                ],
                values: vec![
                    ValueDef { name: "Latex", docs: vec![
                        " Mixed plain text and `$…$` LaTeX mathematics.",
                    ], number: 1 },
                    ValueDef { name: "None", docs: vec![
                        " Plain text, rendered literally, including any dollar signs.",
                    ], number: 2 },
                ],
                reserved: vec![],
            }),
        ],
    };
    assert(file_view(f) =~~= spec_file());
    f
}

} // verus!
