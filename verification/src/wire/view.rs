//! The declarations of the `.proto` files as mathematical values: each name, type and
//! line of documentation as a sequence of characters, and each list as a sequence.

use vstd::prelude::*;

use super::schema::{declares_item, item_name, spec_module_declaring, spec_stem, EnumDef, FieldDef, FieldSpec, FileDef, ItemDef, Label, MessageDef, ReservedDef, ReservedItem, TypeRef, ValueDef};

verus! {

/// The type of a field.
#[verifier::ext_equal]
pub enum TypeRefView {
    /// A scalar type, by its Protocol Buffers name.
    Scalar(Seq<char>),
    /// A message or enum of the package, by name.
    Named(Seq<char>),
    /// A map from a scalar key type to a named value type.
    Mapping(Seq<char>, Seq<char>),
}

/// One field.
#[verifier::ext_equal]
pub struct FieldSpecView {
    pub docs: Seq<Seq<char>>,
    pub label: Label,
    pub ty: TypeRefView,
    pub name: Seq<char>,
    pub number: u32,
}

/// A field or a oneof of a message.
#[verifier::ext_equal]
pub enum FieldView {
    Field(FieldSpecView),
    Oneof { name: Seq<char>, docs: Seq<Seq<char>>, variants: Seq<FieldSpecView> },
}

/// A number or a name that a message or an enum reserves.
#[verifier::ext_equal]
pub enum ReservedItemView {
    Number(i64),
    Name(Seq<char>),
}

/// A `reserved` statement.
#[verifier::ext_equal]
pub struct ReservedView {
    pub docs: Seq<Seq<char>>,
    pub items: Seq<ReservedItemView>,
}

/// A message.
#[verifier::ext_equal]
pub struct MessageView {
    pub name: Seq<char>,
    pub docs: Seq<Seq<char>>,
    pub fields: Seq<FieldView>,
    pub reserved: Seq<ReservedView>,
}

/// An enum value other than the zero value.
#[verifier::ext_equal]
pub struct ValueView {
    pub name: Seq<char>,
    pub docs: Seq<Seq<char>>,
    pub number: i32,
}

/// An enum.
#[verifier::ext_equal]
pub struct EnumView {
    pub name: Seq<char>,
    pub docs: Seq<Seq<char>>,
    pub values: Seq<ValueView>,
    pub reserved: Seq<ReservedView>,
}

/// A message or an enum.
#[verifier::ext_equal]
pub enum ItemView {
    Message(MessageView),
    Enum(EnumView),
}

/// A `.proto` file.
#[verifier::ext_equal]
pub struct FileView {
    pub module: Seq<char>,
    pub items: Seq<ItemView>,
}

pub open spec fn docs_view(docs: Seq<&'static str>) -> Seq<Seq<char>> {
    docs.map_values(|s: &'static str| s@)
}

pub open spec fn type_ref_view(t: TypeRef) -> TypeRefView {
    match t {
        TypeRef::Scalar(s) => TypeRefView::Scalar(s@),
        TypeRef::Named(s) => TypeRefView::Named(s@),
        TypeRef::Mapping(k, v) => TypeRefView::Mapping(k@, v@),
    }
}

pub open spec fn field_spec_view(f: FieldSpec) -> FieldSpecView {
    FieldSpecView { docs: docs_view(f.docs@), label: f.label, ty: type_ref_view(f.ty), name: f.name@, number: f.number }
}

pub open spec fn field_view(f: FieldDef) -> FieldView {
    match f {
        FieldDef::Field(s) => FieldView::Field(field_spec_view(s)),
        FieldDef::Oneof { name, docs, variants } => FieldView::Oneof {
            name: name@,
            docs: docs_view(docs@),
            variants: variants@.map_values(|v: FieldSpec| field_spec_view(v)),
        },
    }
}

pub open spec fn reserved_item_view(i: ReservedItem) -> ReservedItemView {
    match i {
        ReservedItem::Number(n) => ReservedItemView::Number(n),
        ReservedItem::Name(s) => ReservedItemView::Name(s@),
    }
}

pub open spec fn reserved_view(r: ReservedDef) -> ReservedView {
    ReservedView { docs: docs_view(r.docs@), items: r.items@.map_values(|i: ReservedItem| reserved_item_view(i)) }
}

pub open spec fn reserveds_view(r: Seq<ReservedDef>) -> Seq<ReservedView> {
    r.map_values(|x: ReservedDef| reserved_view(x))
}

pub open spec fn message_view(m: MessageDef) -> MessageView {
    MessageView {
        name: m.name@,
        docs: docs_view(m.docs@),
        fields: m.fields@.map_values(|f: FieldDef| field_view(f)),
        reserved: reserveds_view(m.reserved@),
    }
}

pub open spec fn value_view(v: ValueDef) -> ValueView {
    ValueView { name: v.name@, docs: docs_view(v.docs@), number: v.number }
}

pub open spec fn enum_view(e: EnumDef) -> EnumView {
    EnumView {
        name: e.name@,
        docs: docs_view(e.docs@),
        values: e.values@.map_values(|v: ValueDef| value_view(v)),
        reserved: reserveds_view(e.reserved@),
    }
}

pub open spec fn item_view(i: ItemDef) -> ItemView {
    match i {
        ItemDef::Message(m) => ItemView::Message(message_view(m)),
        ItemDef::Enum(e) => ItemView::Enum(enum_view(e)),
    }
}

/// A file's declarations as values.
pub open spec fn file_view(f: FileDef) -> FileView {
    FileView { module: f.module@, items: f.items@.map_values(|i: ItemDef| item_view(i)) }
}

/// Files' declarations as values.
pub open spec fn files_view(files: Seq<FileDef>) -> Seq<FileView> {
    files.map_values(|f: FileDef| file_view(f))
}


/// The name of a message or an enum.
pub open spec fn item_view_name(i: ItemView) -> Seq<char> {
    match i {
        ItemView::Message(m) => m.name,
        ItemView::Enum(e) => e.name,
    }
}

/// Whether a file declares a message or an enum of the name.
pub open spec fn declares_item_view(f: FileView, name: Seq<char>) -> bool {
    exists|i: int| 0 <= i < f.items.len() && item_view_name(#[trigger] f.items[i]) == name
}

/// The stem of the first file that declares an item of the name, or `None`.
pub open spec fn module_declaring_view(files: Seq<FileView>, name: Seq<char>) -> Option<Seq<char>>
    decreases files.len(),
{
    if files.len() == 0 {
        None
    } else if declares_item_view(files[0], name) {
        Some(spec_stem(files[0].module))
    } else {
        module_declaring_view(files.drop_first(), name)
    }
}

/// Which file declares a name depends on the declarations as values alone.
pub proof fn lemma_module_declaring_view(files: Seq<FileDef>, name: Seq<char>)
    ensures
        spec_module_declaring(files, name) == module_declaring_view(files_view(files), name),
    decreases files.len(),
{
    if files.len() > 0 {
        let f = files[0];
        let v = files_view(files)[0];
        assert(v == file_view(f));
        assert(declares_item(f, name) == declares_item_view(v, name)) by {
            if declares_item(f, name) {
                let i = choose|i: int| 0 <= i < f.items@.len() && item_name(#[trigger] f.items@[i]) == name;
                assert(item_view_name(v.items[i]) == name);
            }
            if declares_item_view(v, name) {
                let i = choose|i: int| 0 <= i < v.items.len() && item_view_name(#[trigger] v.items[i]) == name;
                assert(item_name(f.items@[i]) == name);
            }
        }
        assert(files_view(files).drop_first() =~= files_view(files.drop_first()));
        lemma_module_declaring_view(files.drop_first(), name);
    }
}

} // verus!
