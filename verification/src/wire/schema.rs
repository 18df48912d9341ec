//! Descriptions of the wire types, from which the `.proto` files are rendered.

use vstd::prelude::*;

use crate::textfmt::{
    insert_sorted, lemma_text_less_asymmetric, lemma_text_less_irreflexive, lemma_text_less_total,
    str_eq, str_less, strictly_sorted, string_views, text_less,
    decimal, push_char, push_decimal, push_signed_decimal, push_trimmed_end, signed_decimal,
    strip_raw, strip_raw_prefix, trim_end,
};

verus! {

/// The description of one `.proto` file.
pub struct FileDef {
    /// The path of the Rust module that declares the file's types; its last segment
    /// names the file.
    pub module: &'static str,
    /// The messages and enums of the file, in declaration order.
    pub items: Vec<ItemDef>,
}

/// A message or an enum.
pub enum ItemDef {
    /// A message.
    Message(MessageDef),
    /// An enum.
    Enum(EnumDef),
}

/// The description of a message.
pub struct MessageDef {
    /// The name of the message.
    pub name: &'static str,
    /// The lines of its documentation.
    pub docs: Vec<&'static str>,
    /// Its fields and oneofs, in declaration order.
    pub fields: Vec<FieldDef>,
    /// Its `reserved` statements.
    pub reserved: Vec<ReservedDef>,
}

/// A field or a oneof of a message.
pub enum FieldDef {
    /// A field outside any oneof.
    Field(FieldSpec),
    /// A oneof and its variant fields.
    Oneof {
        /// The name of the oneof.
        name: &'static str,
        /// The lines of its documentation.
        docs: Vec<&'static str>,
        /// Its variants, in declaration order.
        variants: Vec<FieldSpec>,
    },
}

/// The description of one field.
pub struct FieldSpec {
    /// The lines of its documentation.
    pub docs: Vec<&'static str>,
    /// Its label.
    pub label: Label,
    /// Its type.
    pub ty: TypeRef,
    /// Its name, which may be written as a raw identifier (`r#box`).
    pub name: &'static str,
    /// Its number.
    pub number: u32,
}

/// The label of a field.
#[derive(Clone, Copy, PartialEq, Eq, Debug, Structural)]
pub enum Label {
    /// A field without a label: a scalar without presence, a message, an enum or a map.
    Singular,
    /// A scalar with explicit presence.
    Optional,
    /// A repeated field.
    Repeated,
}

/// The type of a field.
#[derive(Clone, Copy)]
pub enum TypeRef {
    /// A scalar type, by its Protocol Buffers name.
    Scalar(&'static str),
    /// A message or enum of the package, by name.
    Named(&'static str),
    /// A map from a scalar key type to a named value type.
    Mapping(&'static str, &'static str),
}

/// The description of an enum.
pub struct EnumDef {
    /// The name of the enum.
    pub name: &'static str,
    /// The lines of its documentation.
    pub docs: Vec<&'static str>,
    /// Its values other than the zero value, in declaration order.
    pub values: Vec<ValueDef>,
    /// Its `reserved` statements.
    pub reserved: Vec<ReservedDef>,
}

/// The description of one enum value other than the zero value.
pub struct ValueDef {
    /// The Rust name of the value, in upper camel case.
    pub name: &'static str,
    /// The lines of its documentation.
    pub docs: Vec<&'static str>,
    /// Its number.
    pub number: i32,
}

/// A `reserved` statement of a message or an enum.
pub struct ReservedDef {
    /// The lines of its documentation.
    pub docs: Vec<&'static str>,
    /// The numbers and names it reserves.
    pub items: Vec<ReservedItem>,
}

/// A number or a name that a message or an enum reserves.
#[derive(Clone, Copy)]
pub enum ReservedItem {
    /// A field number of a message or a value number of an enum.
    Number(i64),
    /// A field name of a message, or the Rust name of an enum value, which is rendered
    /// with the enum's prefix in upper snake case.
    Name(&'static str),
}

// ---------------------------------------------------------------------------------
// Upper snake case
// ---------------------------------------------------------------------------------

pub open spec fn is_upper(c: char) -> bool {
    'A' <= c && c <= 'Z'
}

pub open spec fn is_lower(c: char) -> bool {
    'a' <= c && c <= 'z'
}

pub open spec fn is_digit(c: char) -> bool {
    '0' <= c && c <= '9'
}

/// The ASCII upper-case form of a character; every other character is unchanged.
pub open spec fn to_upper(c: char) -> char {
    if is_lower(c) {
        ((c as int) - 32) as char
    } else {
        c
    }
}

/// Whether an underscore goes before the character at `i` in upper snake case: an
/// upper-case letter that follows a lower-case letter or a digit, or that follows an
/// upper-case letter and precedes a lower-case one.
pub open spec fn snake_break(s: Seq<char>, i: int) -> bool {
    &&& i > 0
    &&& is_upper(s[i])
    &&& (is_lower(s[i - 1]) || is_digit(s[i - 1]) || (is_upper(s[i - 1]) && i + 1 < s.len()
        && is_lower(s[i + 1])))
}

/// The upper snake case of the first `n` characters of a name.
pub open spec fn upper_snake_prefix(s: Seq<char>, n: int) -> Seq<char>
    decreases n,
{
    if n <= 0 {
        seq![]
    } else {
        upper_snake_prefix(s, n - 1) + (if snake_break(s, n - 1) {
            seq!['_']
        } else {
            seq![]
        }) + seq![to_upper(s[n - 1])]
    }
}

/// The upper snake case of a name in upper camel case, so that `NorthEast` becomes
/// `NORTH_EAST` and `View3d` becomes `VIEW3D`.
pub open spec fn spec_upper_snake(s: Seq<char>) -> Seq<char> {
    upper_snake_prefix(s, s.len() as int)
}

fn upper_char(c: char) -> (r: char)
    ensures
        r == to_upper(c),
{
    if 'a' <= c && c <= 'z' {
        let u: u32 = c as u32;
        assert(u as u8 == u) by (bit_vector)
            requires
                97 <= u <= 122,
        ;
        let b: u8 = c as u8;
        (b - 32) as char
    } else {
        c
    }
}

/// Appends the upper snake case of a name.
pub fn push_upper_snake(out: &mut String, name: &str)
    ensures
        final(out)@ == old(out)@ + spec_upper_snake(name@),
{
    let len = name.unicode_len();
    let mut i: usize = 0;
    while i < len
        invariant
            i <= len,
            len == name@.len(),
            out@ == old(out)@ + upper_snake_prefix(name@, i as int),
        decreases len - i,
    {
        let c = name.get_char(i);
        if i > 0 && 'A' <= c && c <= 'Z' {
            let previous = name.get_char(i - 1);
            let next_is_lower = i + 1 < len && {
                let next = name.get_char(i + 1);
                'a' <= next && next <= 'z'
            };
            if ('a' <= previous && previous <= 'z') || ('0' <= previous && previous <= '9') || (
            'A' <= previous && previous <= 'Z' && next_is_lower) {
                push_char(out, '_');
            }
        }
        push_char(out, upper_char(c));
        i = i + 1;
        assert(out@ =~= old(out)@ + upper_snake_prefix(name@, i as int));
    }
}

/// Converts a Rust type or variant name in upper camel case to upper snake case, so
/// that `NorthEast` becomes `NORTH_EAST` and `View3d` becomes `VIEW3D`.
pub fn upper_snake(name: &str) -> (s: String)
    ensures
        s@ == spec_upper_snake(name@),
{
    let mut s = String::new();
    push_upper_snake(&mut s, name);
    assert(s@ =~= spec_upper_snake(name@));
    s
}


// ---------------------------------------------------------------------------------
// Names of declarations
// ---------------------------------------------------------------------------------

/// The name of a message or an enum.
pub open spec fn item_name(item: ItemDef) -> Seq<char> {
    match item {
        ItemDef::Message(m) => m.name@,
        ItemDef::Enum(e) => e.name@,
    }
}

/// The name that a reserved name of a message or an enum renders as: the field name of
/// a message without a raw prefix, or the prefixed upper snake case of an enum value.
pub open spec fn spec_reserved_name(item: ItemDef, name: Seq<char>) -> Seq<char> {
    match item {
        ItemDef::Message(_) => strip_raw(name),
        ItemDef::Enum(e) => spec_upper_snake(e.name@) + seq!['_'] + spec_upper_snake(name),
    }
}

impl ItemDef {
    /// Returns the name of the message or enum.
    pub fn name(&self) -> (n: &'static str)
        ensures
            n@ == item_name(*self),
    {
        match self {
            ItemDef::Message(m) => m.name,
            ItemDef::Enum(e) => e.name,
        }
    }
}

/// Returns the name that a reserved name of a message or an enum renders as.
pub fn reserved_name(item: &ItemDef, name: &str) -> (r: String)
    ensures
        r@ == spec_reserved_name(*item, name@),
{
    match item {
        ItemDef::Message(_) => {
            let mut r = String::new();
            r.append(strip_raw_prefix(name));
            assert(r@ =~= strip_raw(name@));
            r
        },
        ItemDef::Enum(def) => {
            let mut r = upper_snake(def.name);
            push_char(&mut r, '_');
            push_upper_snake(&mut r, name);
            r
        },
    }
}

// ---------------------------------------------------------------------------------
// The numbers and names a declaration uses
// ---------------------------------------------------------------------------------

/// A use of a number or of a name by a message or an enum: whether it is a number, the
/// number, the name, and the words that describe the user, such as `field a`.
pub type SpecUse = (bool, int, Seq<char>, Seq<char>);

pub open spec fn number_use(n: int, user: Seq<char>) -> SpecUse {
    (true, n, seq![], user)
}

pub open spec fn name_use(name: Seq<char>, user: Seq<char>) -> SpecUse {
    (false, 0, name, user)
}

/// Whether two uses claim the same number or the same name.
pub open spec fn same_key(a: SpecUse, b: SpecUse) -> bool {
    a.0 == b.0 && (if a.0 { a.1 == b.1 } else { a.2 == b.2 })
}

pub open spec fn variant_uses(oneof: Seq<char>, variants: Seq<FieldSpec>) -> Seq<SpecUse>
    decreases variants.len(),
{
    if variants.len() == 0 {
        seq![]
    } else {
        let v = variants.last();
        let user = "variant "@ + v.name@ + " of oneof "@ + oneof;
        variant_uses(oneof, variants.drop_last()) + seq![
            number_use(v.number as int, user),
            name_use(v.name@, user),
        ]
    }
}

pub open spec fn field_uses(field: FieldDef) -> Seq<SpecUse> {
    match field {
        FieldDef::Field(spec) => {
            let name = strip_raw(spec.name@);
            let user = "field "@ + name;
            seq![number_use(spec.number as int, user), name_use(name, user)]
        },
        FieldDef::Oneof { name, variants, .. } => seq![name_use(name@, "oneof "@ + name@)]
            + variant_uses(name@, variants@),
    }
}

pub open spec fn fields_uses(fields: Seq<FieldDef>) -> Seq<SpecUse>
    decreases fields.len(),
{
    if fields.len() == 0 {
        seq![]
    } else {
        fields_uses(fields.drop_last()) + field_uses(fields.last())
    }
}

pub open spec fn value_uses(prefix: Seq<char>, values: Seq<ValueDef>) -> Seq<SpecUse>
    decreases values.len(),
{
    if values.len() == 0 {
        seq![]
    } else {
        let v = values.last();
        let name = prefix + seq!['_'] + spec_upper_snake(v.name@);
        value_uses(prefix, values.drop_last()) + seq![
            number_use(v.number as int, "value "@ + name),
            name_use(name, "value "@ + name),
        ]
    }
}

pub open spec fn reserved_item_uses(item: ItemDef, items: Seq<ReservedItem>) -> Seq<SpecUse>
    decreases items.len(),
{
    if items.len() == 0 {
        seq![]
    } else {
        reserved_item_uses(item, items.drop_last()) + seq![
            match items.last() {
                ReservedItem::Number(n) => number_use(
                    n as int,
                    "reserved number "@ + signed_decimal(n as int),
                ),
                ReservedItem::Name(name) => name_use(
                    spec_reserved_name(item, name@),
                    "reserved name "@ + spec_reserved_name(item, name@),
                ),
            },
        ]
    }
}

pub open spec fn reserved_uses(item: ItemDef, reserved: Seq<ReservedDef>) -> Seq<SpecUse>
    decreases reserved.len(),
{
    if reserved.len() == 0 {
        seq![]
    } else {
        reserved_uses(item, reserved.drop_last()) + reserved_item_uses(item, reserved.last().items@)
    }
}

/// Every number and name that a message or an enum uses, in the order in which they are
/// checked: in a message the numbers and names of its fields, its oneofs and their
/// variants, then its reserved numbers and names; in an enum the number and name of its
/// zero value, of its other values, then its reserved numbers and names.
pub open spec fn uses(item: ItemDef) -> Seq<SpecUse> {
    match item {
        ItemDef::Message(m) => fields_uses(m.fields@) + reserved_uses(item, m.reserved@),
        ItemDef::Enum(e) => {
            let prefix = spec_upper_snake(e.name@);
            let zero = prefix + "_UNSPECIFIED"@;
            seq![number_use(0, "value "@ + zero), name_use(zero, "value "@ + zero)]
                + value_uses(prefix, e.values@) + reserved_uses(item, e.reserved@)
        },
    }
}

/// Whether the first `k` uses claim distinct numbers and distinct names.
pub open spec fn distinct_uses(us: Seq<SpecUse>, k: int) -> bool {
    forall|i: int, j: int| 0 <= i < j < k ==> !same_key(#[trigger] us[i], #[trigger] us[j])
}

/// The description of a number or name that two uses share.
pub open spec fn duplicate_message(item: ItemDef, first: SpecUse, second: SpecUse) -> Seq<char> {
    item_name(item) + (if first.0 {
        " uses number "@ + signed_decimal(first.1)
    } else {
        " uses name "@ + first.2
    }) + " for both "@ + first.3 + " and "@ + second.3
}

/// Whether `message` describes the first number or name that the uses claim twice: the
/// use at `k` is the first that repeats an earlier one, and `message` names the earlier
/// use and it.
pub open spec fn reports_first_duplicate(item: ItemDef, message: Seq<char>) -> bool {
    let us = uses(item);
    exists|j: int, k: int|
        0 <= j < k < us.len() && distinct_uses(us, k) && same_key(#[trigger] us[j], #[trigger] us[k])
            && message == duplicate_message(item, us[j], us[k])
}

/// The key of a use, by which two uses of one declaration are compared.
pub enum UseKey {
    Number(i64),
    Name(String),
}

pub open spec fn use_view(u: (UseKey, String)) -> SpecUse {
    match u.0 {
        UseKey::Number(n) => number_use(n as int, u.1@),
        UseKey::Name(s) => name_use(s@, u.1@),
    }
}

pub open spec fn uses_view(v: Seq<(UseKey, String)>) -> Seq<SpecUse> {
    v.map_values(|u: (UseKey, String)| use_view(u))
}

fn push_use(v: &mut Vec<(UseKey, String)>, key: UseKey, user: String)
    ensures
        uses_view(final(v)@) == uses_view(old(v)@).push(use_view((key, user))),
{
    let ghost u = (key, user);
    v.push((key, user));
    assert(uses_view(v@) =~= uses_view(old(v)@).push(use_view(u)));
}

fn str_string(s: &str) -> (r: String)
    ensures
        r@ == s@,
{
    let mut r = String::new();
    r.append(s);
    assert(r@ =~= s@);
    r
}

fn cat(a: &str, b: &str) -> (r: String)
    ensures
        r@ == a@ + b@,
{
    let mut r = String::new();
    r.append(a);
    r.append(b);
    assert(r@ =~= a@ + b@);
    r
}

fn push_field_uses(v: &mut Vec<(UseKey, String)>, field: &FieldDef)
    ensures
        uses_view(final(v)@) == uses_view(old(v)@) + field_uses(*field),
{
    match field {
        FieldDef::Field(spec) => {
            let name = strip_raw_prefix(spec.name);
            let user = cat("field ", name);
            push_use(v, UseKey::Number(spec.number as i64), user.clone());
            push_use(v, UseKey::Name(str_string(name)), user);
            assert(uses_view(v@) =~= uses_view(old(v)@) + field_uses(*field));
        },
        FieldDef::Oneof { name, variants, .. } => {
            push_use(v, UseKey::Name(str_string(name)), cat("oneof ", name));
            let ghost after_oneof = uses_view(v@);
            let mut i: usize = 0;
            while i < variants.len()
                invariant
                    i <= variants.len(),
                    uses_view(v@) == after_oneof + variant_uses(name@, variants@.take(i as int)),
                decreases variants.len() - i,
            {
                let spec = &variants[i];
                let mut user = cat("variant ", spec.name);
                user.append(" of oneof ");
                user.append(name);
                push_use(v, UseKey::Number(spec.number as i64), user.clone());
                push_use(v, UseKey::Name(str_string(spec.name)), user);
                assert(variants@.take(i + 1).drop_last() =~= variants@.take(i as int));
                i = i + 1;
                assert(uses_view(v@) =~= after_oneof + variant_uses(name@, variants@.take(i as int)));
            }
            assert(variants@.take(i as int) =~= variants@);
            assert(uses_view(v@) =~= uses_view(old(v)@) + field_uses(*field));
        },
    }
}

fn push_reserved_uses(v: &mut Vec<(UseKey, String)>, item: &ItemDef, reserved: &Vec<ReservedDef>)
    ensures
        uses_view(final(v)@) == uses_view(old(v)@) + reserved_uses(*item, reserved@),
{
    let mut s: usize = 0;
    while s < reserved.len()
        invariant
            s <= reserved.len(),
            uses_view(v@) == uses_view(old(v)@) + reserved_uses(*item, reserved@.take(s as int)),
        decreases reserved.len() - s,
    {
        let items = &reserved[s].items;
        let ghost before = uses_view(v@);
        let mut i: usize = 0;
        while i < items.len()
            invariant
                i <= items.len(),
                uses_view(v@) == before + reserved_item_uses(*item, items@.take(i as int)),
            decreases items.len() - i,
        {
            match items[i] {
                ReservedItem::Number(number) => {
                    let mut user = str_string("reserved number ");
                    push_signed_decimal(&mut user, number);
                    push_use(v, UseKey::Number(number), user);
                },
                ReservedItem::Name(name) => {
                    let rendered = reserved_name(item, name);
                    let mut user = str_string("reserved name ");
                    user.append(rendered.as_str());
                    push_use(v, UseKey::Name(rendered), user);
                },
            }
            assert(items@.take(i + 1).drop_last() =~= items@.take(i as int));
            i = i + 1;
            assert(uses_view(v@) =~= before + reserved_item_uses(*item, items@.take(i as int)));
        }
        assert(items@.take(i as int) =~= items@);
        assert(reserved@.take(s + 1).drop_last() =~= reserved@.take(s as int));
        s = s + 1;
        assert(uses_view(v@) =~= uses_view(old(v)@) + reserved_uses(*item, reserved@.take(s as int)));
    }
    assert(reserved@.take(s as int) =~= reserved@);
}

/// Returns every number and name that a message or an enum uses, in the order in which
/// they are checked.
fn uses_of(item: &ItemDef) -> (v: Vec<(UseKey, String)>)
    ensures
        uses_view(v@) == uses(*item),
{
    let mut v: Vec<(UseKey, String)> = Vec::new();
    assert(uses_view(v@) =~= seq![]);
    match item {
        ItemDef::Message(message) => {
            let mut f: usize = 0;
            while f < message.fields.len()
                invariant
                    f <= message.fields.len(),
                    uses_view(v@) == fields_uses(message.fields@.take(f as int)),
                decreases message.fields.len() - f,
            {
                push_field_uses(&mut v, &message.fields[f]);
                assert(message.fields@.take(f + 1).drop_last() =~= message.fields@.take(f as int));
                f = f + 1;
            }
            assert(message.fields@.take(f as int) =~= message.fields@);
            push_reserved_uses(&mut v, item, &message.reserved);
        },
        ItemDef::Enum(def) => {
            let prefix = upper_snake(def.name);
            let mut zero = prefix.clone();
            zero.append("_UNSPECIFIED");
            let mut user = str_string("value ");
            user.append(zero.as_str());
            push_use(&mut v, UseKey::Number(0), user.clone());
            push_use(&mut v, UseKey::Name(zero), user);
            let ghost after_zero = uses_view(v@);
            let mut i: usize = 0;
            while i < def.values.len()
                invariant
                    i <= def.values.len(),
                    prefix@ == spec_upper_snake(def.name@),
                    uses_view(v@) == after_zero + value_uses(prefix@, def.values@.take(i as int)),
                decreases def.values.len() - i,
            {
                let value = &def.values[i];
                let mut name = prefix.clone();
                push_char(&mut name, '_');
                push_upper_snake(&mut name, value.name);
                assert(name@ =~= prefix@ + seq!['_'] + spec_upper_snake(value.name@));
                let mut user = str_string("value ");
                user.append(name.as_str());
                push_use(&mut v, UseKey::Number(value.number as i64), user.clone());
                push_use(&mut v, UseKey::Name(name), user);
                assert(def.values@.take(i + 1).drop_last() =~= def.values@.take(i as int));
                i = i + 1;
                assert(uses_view(v@) =~= after_zero + value_uses(prefix@, def.values@.take(i as int)));
            }
            assert(def.values@.take(i as int) =~= def.values@);
            push_reserved_uses(&mut v, item, &def.reserved);
        },
    }
    v
}

fn same_key_exec(a: &(UseKey, String), b: &(UseKey, String)) -> (r: bool)
    ensures
        r == same_key(use_view(*a), use_view(*b)),
{
    match (&a.0, &b.0) {
        (UseKey::Number(x), UseKey::Number(y)) => *x == *y,
        (UseKey::Name(x), UseKey::Name(y)) => *x == *y,
        _ => false,
    }
}

/// Returns the first use that repeats an earlier one, with that earlier use.
fn first_duplicate(v: &Vec<(UseKey, String)>) -> (r: Option<(usize, usize)>)
    ensures
        r is None <==> distinct_uses(uses_view(v@), v@.len() as int),
        r matches Some((j, k)) ==> j < k < v@.len() && distinct_uses(uses_view(v@), k as int)
            && same_key(uses_view(v@)[j as int], uses_view(v@)[k as int]),
{
    let ghost us = uses_view(v@);
    let mut k: usize = 0;
    while k < v.len()
        invariant
            k <= v.len(),
            us == uses_view(v@),
            us.len() == v@.len(),
            distinct_uses(us, k as int),
        decreases v.len() - k,
    {
        let mut j: usize = 0;
        while j < k
            invariant
                j <= k < v.len(),
                us == uses_view(v@),
                us.len() == v@.len(),
                distinct_uses(us, k as int),
                forall|i: int| 0 <= i < j ==> !same_key(#[trigger] us[i], us[k as int]),
            decreases k - j,
        {
            if same_key_exec(&v[j], &v[k]) {
                assert(us[j as int] == use_view(v@[j as int]));
                assert(us[k as int] == use_view(v@[k as int]));
                assert(!distinct_uses(us, v@.len() as int));
                return Some((j, k));
            }
            j = j + 1;
        }
        k = k + 1;
    }
    None
}

/// Checks that a message or an enum uses every number and every name once.
///
/// In a message, the numbers are those of its fields, its oneof variants and its
/// reserved numbers, and the names are those of its fields, its oneofs, its oneof
/// variants and its reserved names. In an enum, the numbers are those of its values
/// (including the zero value) and its reserved numbers, and the names are the rendered
/// names of its values and its reserved names.
///
/// # Errors
///
/// Returns a description of the first number or name that is used twice, such as
/// `Sample uses number 1 for both field a and field b`.
pub fn check_unique(item: &ItemDef) -> (r: Result<(), String>)
    ensures
        r is Ok <==> distinct_uses(uses(*item), uses(*item).len() as int),
        r matches Err(message) ==> reports_first_duplicate(*item, message@),
{
    let v = uses_of(item);
    match first_duplicate(&v) {
        None => Ok(()),
        Some((j, k)) => {
            let ghost us = uses_view(v@);
            let mut message = str_string(item.name());
            match &v[j].0 {
                UseKey::Number(n) => {
                    message.append(" uses number ");
                    push_signed_decimal(&mut message, *n);
                },
                UseKey::Name(name) => {
                    message.append(" uses name ");
                    message.append(name.as_str());
                },
            }
            message.append(" for both ");
            message.append(v[j].1.as_str());
            message.append(" and ");
            message.append(v[k].1.as_str());
            assert(us[j as int] == use_view(v@[j as int]));
            assert(us[k as int] == use_view(v@[k as int]));
            assert(message@ =~= duplicate_message(*item, us[j as int], us[k as int]));
            Err(message)
        },
    }
}


// ---------------------------------------------------------------------------------
// Rendering
// ---------------------------------------------------------------------------------

/// The documentation lines, each as a comment after `indent`, without trailing white
/// space.
pub open spec fn docs_text(indent: Seq<char>, docs: Seq<&'static str>) -> Seq<char>
    decreases docs.len(),
{
    if docs.len() == 0 {
        seq![]
    } else {
        docs_text(indent, docs.drop_last()) + indent + "//"@ + trim_end(docs.last()@) + "\n"@
    }
}

pub open spec fn label_text(label: Label) -> Seq<char> {
    match label {
        Label::Singular => ""@,
        Label::Optional => "optional "@,
        Label::Repeated => "repeated "@,
    }
}

pub open spec fn type_text(ty: TypeRef) -> Seq<char> {
    match ty {
        TypeRef::Scalar(name) => name@,
        TypeRef::Named(name) => name@,
        TypeRef::Mapping(key, value) => "map<"@ + key@ + ", "@ + value@ + ">"@,
    }
}

/// The text of a field: its documentation, then its label, type, name and number.
pub open spec fn field_text(indent: Seq<char>, spec: FieldSpec) -> Seq<char> {
    docs_text(indent, spec.docs@) + indent + label_text(spec.label) + type_text(spec.ty) + " "@
        + strip_raw(spec.name@) + " = "@ + decimal(spec.number as nat) + ";\n"@
}

/// The parts joined by the separator.
pub open spec fn joined(parts: Seq<Seq<char>>, sep: Seq<char>) -> Seq<char>
    decreases parts.len(),
{
    if parts.len() == 0 {
        seq![]
    } else if parts.len() == 1 {
        parts[0]
    } else {
        joined(parts.drop_last(), sep) + sep + parts.last()
    }
}

/// The reserved numbers of a statement, as written.
pub open spec fn reserved_numbers(items: Seq<ReservedItem>) -> Seq<Seq<char>>
    decreases items.len(),
{
    if items.len() == 0 {
        seq![]
    } else {
        match items.last() {
            ReservedItem::Number(n) => reserved_numbers(items.drop_last()).push(
                signed_decimal(n as int),
            ),
            ReservedItem::Name(_) => reserved_numbers(items.drop_last()),
        }
    }
}

/// The reserved names of a statement, as written, in quotes.
pub open spec fn reserved_names(item: ItemDef, items: Seq<ReservedItem>) -> Seq<Seq<char>>
    decreases items.len(),
{
    if items.len() == 0 {
        seq![]
    } else {
        match items.last() {
            ReservedItem::Number(_) => reserved_names(item, items.drop_last()),
            ReservedItem::Name(name) => reserved_names(item, items.drop_last()).push(
                "\""@ + spec_reserved_name(item, name@) + "\""@,
            ),
        }
    }
}

/// A `reserved` line listing the parts, or nothing when there are none.
pub open spec fn reserved_line(parts: Seq<Seq<char>>) -> Seq<char> {
    if parts.len() == 0 {
        seq![]
    } else {
        "  reserved "@ + joined(parts, ", "@) + ";\n"@
    }
}

/// The text of the `reserved` statements: each statement's documentation, its numbers
/// and its names on separate lines, and a blank line.
pub open spec fn reserved_text(item: ItemDef, reserved: Seq<ReservedDef>) -> Seq<char>
    decreases reserved.len(),
{
    if reserved.len() == 0 {
        seq![]
    } else {
        let statement = reserved.last();
        reserved_text(item, reserved.drop_last()) + docs_text("  "@, statement.docs@)
            + reserved_line(reserved_numbers(statement.items@)) + reserved_line(
            reserved_names(item, statement.items@),
        ) + "\n"@
    }
}

/// The variants of a oneof, separated by blank lines.
pub open spec fn variants_text(variants: Seq<FieldSpec>) -> Seq<char>
    decreases variants.len(),
{
    if variants.len() == 0 {
        seq![]
    } else {
        variants_text(variants.drop_last()) + (if variants.len() > 1 {
            "\n"@
        } else {
            seq![]
        }) + field_text("    "@, variants.last())
    }
}

pub open spec fn field_def_text(field: FieldDef) -> Seq<char> {
    match field {
        FieldDef::Field(spec) => field_text("  "@, spec),
        FieldDef::Oneof { name, docs, variants } => docs_text("  "@, docs@) + "  oneof "@ + name@
            + " {\n"@ + variants_text(variants@) + "  }\n"@,
    }
}

/// The fields of a message, separated by blank lines.
pub open spec fn fields_text(fields: Seq<FieldDef>) -> Seq<char>
    decreases fields.len(),
{
    if fields.len() == 0 {
        seq![]
    } else {
        fields_text(fields.drop_last()) + (if fields.len() > 1 {
            "\n"@
        } else {
            seq![]
        }) + field_def_text(fields.last())
    }
}

/// The text of a message.
pub open spec fn message_text(item: ItemDef, m: MessageDef) -> Seq<char> {
    let head = docs_text(""@, m.docs@);
    if m.fields.len() == 0 && m.reserved.len() == 0 {
        head + "message "@ + m.name@ + " {}\n"@
    } else {
        let opened = "message "@ + m.name@ + " {\n"@ + reserved_text(item, m.reserved@);
        head + (if m.fields.len() == 0 {
            opened.drop_last()
        } else {
            opened
        }) + fields_text(m.fields@) + "}\n"@
    }
}

/// The values of an enum after its zero value, each after a blank line.
pub open spec fn values_text(prefix: Seq<char>, values: Seq<ValueDef>) -> Seq<char>
    decreases values.len(),
{
    if values.len() == 0 {
        seq![]
    } else {
        let v = values.last();
        values_text(prefix, values.drop_last()) + "\n"@ + docs_text("  "@, v.docs@) + "  "@ + prefix
            + "_"@ + spec_upper_snake(v.name@) + " = "@ + signed_decimal(v.number as int) + ";\n"@
    }
}

/// The text of an enum.
pub open spec fn enum_text(item: ItemDef, e: EnumDef) -> Seq<char> {
    let prefix = spec_upper_snake(e.name@);
    docs_text(""@, e.docs@) + "enum "@ + e.name@ + " {\n"@ + reserved_text(item, e.reserved@)
        + "  // The value is absent; it decodes to the default of its context.\n  "@ + prefix
        + "_UNSPECIFIED = 0;\n"@ + values_text(prefix, e.values@) + "}\n"@
}

pub open spec fn item_text(item: ItemDef) -> Seq<char> {
    match item {
        ItemDef::Message(m) => message_text(item, m),
        ItemDef::Enum(e) => enum_text(item, e),
    }
}

/// The messages and enums of a file, separated by blank lines.
pub open spec fn items_text(items: Seq<ItemDef>) -> Seq<char>
    decreases items.len(),
{
    if items.len() == 0 {
        seq![]
    } else {
        items_text(items.drop_last()) + (if items.len() > 1 {
            "\n"@
        } else {
            seq![]
        }) + item_text(items.last())
    }
}

/// The import statements of a file.
pub open spec fn imports_text(imports: Seq<Seq<char>>) -> Seq<char>
    decreases imports.len(),
{
    if imports.len() == 0 {
        seq![]
    } else {
        imports_text(imports.drop_last()) + "import \""@ + imports.last() + "\";\n"@
    }
}

/// The text of a `.proto` file with the given imports.
pub open spec fn file_text(file: FileDef, imports: Seq<Seq<char>>) -> Seq<char> {
    "// Generated from the Rust wire types of ironlab-ir; do not edit.\n\n"@
        + "syntax = \"proto3\";\n\n"@ + "package ironlab.ir.v0;\n\n"@ + imports_text(imports) + (
    if imports.len() == 0 {
        seq![]
    } else {
        "\n"@
    }) + items_text(file.items@)
}

/// Appends the documentation lines, each as a comment after `indent`.
pub fn render_docs(out: &mut String, indent: &str, docs: &Vec<&'static str>)
    ensures
        final(out)@ == old(out)@ + docs_text(indent@, docs@),
{
    let mut i: usize = 0;
    while i < docs.len()
        invariant
            i <= docs.len(),
            out@ == old(out)@ + docs_text(indent@, docs@.take(i as int)),
        decreases docs.len() - i,
    {
        out.append(indent);
        out.append("//");
        push_trimmed_end(out, docs[i]);
        out.append("\n");
        assert(docs@.take(i + 1).drop_last() =~= docs@.take(i as int));
        i = i + 1;
        assert(out@ =~= old(out)@ + docs_text(indent@, docs@.take(i as int)));
    }
    assert(docs@.take(i as int) =~= docs@);
}

/// Appends a field.
pub fn render_field(out: &mut String, indent: &str, spec: &FieldSpec)
    ensures
        final(out)@ == old(out)@ + field_text(indent@, *spec),
{
    render_docs(out, indent, &spec.docs);
    out.append(indent);
    match spec.label {
        Label::Singular => {},
        Label::Optional => out.append("optional "),
        Label::Repeated => out.append("repeated "),
    }
    match spec.ty {
        TypeRef::Scalar(name) => out.append(name),
        TypeRef::Named(name) => out.append(name),
        TypeRef::Mapping(key, value) => {
            out.append("map<");
            out.append(key);
            out.append(", ");
            out.append(value);
            out.append(">");
        },
    }
    out.append(" ");
    out.append(strip_raw_prefix(spec.name));
    out.append(" = ");
    push_decimal(out, spec.number as u64);
    out.append(";\n");
    proof {
        if spec.label == Label::Singular {
            reveal_strlit("");
        }
    }
    assert(out@ =~= old(out)@ + field_text(indent@, *spec));
}

/// Appends the parts joined by the separator.
fn push_joined(out: &mut String, parts: &Vec<String>, sep: &str)
    ensures
        final(out)@ == old(out)@ + joined(parts@.map_values(|p: String| p@), sep@),
{
    let ghost views = parts@.map_values(|p: String| p@);
    let mut i: usize = 0;
    while i < parts.len()
        invariant
            i <= parts.len(),
            views == parts@.map_values(|p: String| p@),
            out@ == old(out)@ + joined(views.take(i as int), sep@),
        decreases parts.len() - i,
    {
        if i > 0 {
            out.append(sep);
        }
        out.append(parts[i].as_str());
        assert(views.take(i + 1).drop_last() =~= views.take(i as int));
        assert(views[i as int] == parts@[i as int]@);
        i = i + 1;
        assert(out@ =~= old(out)@ + joined(views.take(i as int), sep@));
    }
    assert(views.take(i as int) =~= views);
}

fn push_reserved_line(out: &mut String, parts: &Vec<String>)
    ensures
        final(out)@ == old(out)@ + reserved_line(parts@.map_values(|p: String| p@)),
{
    if parts.len() > 0 {
        out.append("  reserved ");
        push_joined(out, parts, ", ");
        out.append(";\n");
        assert(out@ =~= old(out)@ + reserved_line(parts@.map_values(|p: String| p@)));
    } else {
        assert(parts@.map_values(|p: String| p@) =~= seq![]);
        assert(out@ =~= old(out)@ + reserved_line(parts@.map_values(|p: String| p@)));
    }
}

/// Appends the `reserved` statements of a message or an enum, with numbers and names in
/// separate statements as Protocol Buffers requires.
pub fn render_reserved(out: &mut String, item: &ItemDef, reserved: &Vec<ReservedDef>)
    ensures
        final(out)@ == old(out)@ + reserved_text(*item, reserved@),
{
    let mut s: usize = 0;
    while s < reserved.len()
        invariant
            s <= reserved.len(),
            out@ == old(out)@ + reserved_text(*item, reserved@.take(s as int)),
        decreases reserved.len() - s,
    {
        let statement = &reserved[s];
        render_docs(out, "  ", &statement.docs);
        let mut numbers: Vec<String> = Vec::new();
        let mut names: Vec<String> = Vec::new();
        let mut i: usize = 0;
        while i < statement.items.len()
            invariant
                i <= statement.items.len(),
                numbers@.map_values(|p: String| p@) == reserved_numbers(
                    statement.items@.take(i as int),
                ),
                names@.map_values(|p: String| p@) == reserved_names(
                    *item,
                    statement.items@.take(i as int),
                ),
            decreases statement.items.len() - i,
        {
            let ghost old_numbers = numbers@;
            let ghost old_names = names@;
            match statement.items[i] {
                ReservedItem::Number(number) => {
                    let mut text = String::new();
                    push_signed_decimal(&mut text, number);
                    assert(text@ =~= signed_decimal(number as int));
                    numbers.push(text);
                },
                ReservedItem::Name(name) => {
                    let mut text = String::new();
                    text.append("\"");
                    text.append(reserved_name(item, name).as_str());
                    text.append("\"");
                    assert(text@ =~= "\""@ + spec_reserved_name(*item, name@) + "\""@);
                    names.push(text);
                },
            }
            assert(statement.items@.take(i + 1).drop_last() =~= statement.items@.take(i as int));
            assert(numbers@.map_values(|p: String| p@) =~= reserved_numbers(
                statement.items@.take(i + 1),
            )) by {
                assert(old_numbers.map_values(|p: String| p@) == reserved_numbers(
                    statement.items@.take(i as int),
                ));
            }
            assert(names@.map_values(|p: String| p@) =~= reserved_names(
                *item,
                statement.items@.take(i + 1),
            )) by {
                assert(old_names.map_values(|p: String| p@) == reserved_names(
                    *item,
                    statement.items@.take(i as int),
                ));
            }
            i = i + 1;
        }
        assert(statement.items@.take(i as int) =~= statement.items@);
        push_reserved_line(out, &numbers);
        push_reserved_line(out, &names);
        out.append("\n");
        assert(reserved@.take(s + 1).drop_last() =~= reserved@.take(s as int));
        s = s + 1;
        assert(out@ =~= old(out)@ + reserved_text(*item, reserved@.take(s as int)));
    }
    assert(reserved@.take(s as int) =~= reserved@);
}


proof fn lemma_reserved_text_nonempty(item: ItemDef, reserved: Seq<ReservedDef>)
    requires
        reserved.len() > 0,
    ensures
        reserved_text(item, reserved).len() > 0,
{
    reveal_strlit("\n");
}

/// Appends a field or a oneof with its variants.
fn render_field_def(out: &mut String, field: &FieldDef)
    ensures
        final(out)@ == old(out)@ + field_def_text(*field),
{
    match field {
        FieldDef::Field(spec) => render_field(out, "  ", spec),
        FieldDef::Oneof { name, docs, variants } => {
            render_docs(out, "  ", docs);
            out.append("  oneof ");
            out.append(name);
            out.append(" {\n");
            let ghost before_variants = out@;
            let mut v: usize = 0;
            while v < variants.len()
                invariant
                    v <= variants.len(),
                    out@ == before_variants + variants_text(variants@.take(v as int)),
                decreases variants.len() - v,
            {
                if v > 0 {
                    out.append("\n");
                }
                render_field(out, "    ", &variants[v]);
                assert(variants@.take(v + 1).drop_last() =~= variants@.take(v as int));
                v = v + 1;
                proof {
                    if v == 1 {
                        assert(variants@.take(0) =~= Seq::<FieldSpec>::empty());
                    }
                    assert(out@ =~= before_variants + variants_text(variants@.take(v as int)));
                }
            }
            assert(variants@.take(v as int) =~= variants@);
            out.append("  }\n");
            assert(out@ =~= old(out)@ + field_def_text(*field));
        },
    }
}

/// Appends a message or an enum.
fn render_item(out: &mut String, item: &ItemDef)
    ensures
        final(out)@ == old(out)@ + item_text(*item),
{
    match item {
        ItemDef::Message(message) => render_message(out, item, message),
        ItemDef::Enum(def) => render_enum(out, item, def),
    }
}

/// Appends a message.
pub fn render_message(out: &mut String, item: &ItemDef, message: &MessageDef)
    requires
        *item == ItemDef::Message(*message),
    ensures
        final(out)@ == old(out)@ + message_text(*item, *message),
{
    render_docs(out, "", &message.docs);
    if message.fields.len() == 0 && message.reserved.len() == 0 {
        out.append("message ");
        out.append(message.name);
        out.append(" {}\n");
        assert(out@ =~= old(out)@ + message_text(*item, *message));
        return;
    }
    let ghost head = out@;
    out.append("message ");
    out.append(message.name);
    out.append(" {\n");
    let mut reserved = String::new();
    render_reserved(&mut reserved, item, &message.reserved);
    if message.fields.len() == 0 {
        proof {
            lemma_reserved_text_nonempty(*item, message.reserved@);
        }
        let text = reserved.as_str();
        let len = text.unicode_len();
        out.append(text.substring_char(0, len - 1));
        let ghost opened = "message "@ + message.name@ + " {\n"@ + reserved_text(*item, message.reserved@);
        assert(out@ =~= head + opened.drop_last());
    } else {
        out.append(reserved.as_str());
    }
    let ghost before_fields = out@;
    let mut f: usize = 0;
    while f < message.fields.len()
        invariant
            f <= message.fields.len(),
            out@ == before_fields + fields_text(message.fields@.take(f as int)),
        decreases message.fields.len() - f,
    {
        if f > 0 {
            out.append("\n");
        }
        render_field_def(out, &message.fields[f]);
        assert(message.fields@.take(f + 1).drop_last() =~= message.fields@.take(f as int));
        f = f + 1;
        proof {
            if f == 1 {
                assert(message.fields@.take(0) =~= Seq::<FieldDef>::empty());
            }
            assert(out@ =~= before_fields + fields_text(message.fields@.take(f as int)));
        }
    }
    assert(message.fields@.take(f as int) =~= message.fields@);
    out.append("}\n");
    assert(out@ =~= old(out)@ + message_text(*item, *message));
}

/// Appends the values of an enum after its zero value.
fn render_values(out: &mut String, prefix: &str, values: &Vec<ValueDef>)
    ensures
        final(out)@ == old(out)@ + values_text(prefix@, values@),
{
    let mut i: usize = 0;
    while i < values.len()
        invariant
            i <= values.len(),
            out@ == old(out)@ + values_text(prefix@, values@.take(i as int)),
        decreases values.len() - i,
    {
        let value = &values[i];
        out.append("\n");
        render_docs(out, "  ", &value.docs);
        out.append("  ");
        out.append(prefix);
        out.append("_");
        push_upper_snake(out, value.name);
        out.append(" = ");
        push_signed_decimal(out, value.number as i64);
        out.append(";\n");
        assert(values@.take(i + 1).drop_last() =~= values@.take(i as int));
        i = i + 1;
        assert(out@ =~= old(out)@ + values_text(prefix@, values@.take(i as int)));
    }
    assert(values@.take(i as int) =~= values@);
}

/// Appends an enum, with its zero value first.
pub fn render_enum(out: &mut String, item: &ItemDef, def: &EnumDef)
    requires
        *item == ItemDef::Enum(*def),
    ensures
        final(out)@ == old(out)@ + enum_text(*item, *def),
{
    let prefix = upper_snake(def.name);
    render_docs(out, "", &def.docs);
    out.append("enum ");
    out.append(def.name);
    out.append(" {\n");
    render_reserved(out, item, &def.reserved);
    out.append("  // The value is absent; it decodes to the default of its context.\n  ");
    out.append(prefix.as_str());
    out.append("_UNSPECIFIED = 0;\n");
    render_values(out, prefix.as_str(), &def.values);
    out.append("}\n");
    assert(out@ =~= old(out)@ + enum_text(*item, *def));
}

/// Appends the messages and enums of a file, separated by blank lines.
fn render_items(out: &mut String, items: &Vec<ItemDef>)
    ensures
        final(out)@ == old(out)@ + items_text(items@),
{
    let ghost start = out@;
    let mut k: usize = 0;
    while k < items.len()
        invariant
            k <= items.len(),
            out@ == start + items_text(items@.take(k as int)),
        decreases items.len() - k,
    {
        let ghost before = out@;
        if k > 0 {
            out.append("\n");
        }
        let ghost separated = out@;
        render_item(out, &items[k]);
        proof {
            let t = items@.take(k + 1);
            assert(t.drop_last() =~= items@.take(k as int));
            assert(t.last() == items@[k as int]);
            if k == 0 {
                assert(items@.take(0) =~= Seq::<ItemDef>::empty());
                assert(separated == before);
            } else {
                assert(separated == before + "\n"@);
            }
            assert(items_text(t) == items_text(items@.take(k as int)) + (if t.len() > 1 {
                "\n"@
            } else {
                seq![]
            }) + item_text(items@[k as int]));
            assert(out@ =~= start + items_text(t));
        }
        k = k + 1;
    }
    assert(items@.take(k as int) =~= items@);
}

/// Returns the text of one `.proto` file with the given imports.
pub fn render_file(file: &FileDef, imports: &Vec<String>) -> (text: String)
    ensures
        text@ == file_text(*file, imports@.map_values(|p: String| p@)),
{
    let ghost views = imports@.map_values(|p: String| p@);
    let mut out = String::new();
    out.append("// Generated from the Rust wire types of ironlab-ir; do not edit.\n\n");
    out.append("syntax = \"proto3\";\n\n");
    out.append("package ironlab.ir.v0;\n\n");
    let ghost before_imports = out@;
    let mut i: usize = 0;
    while i < imports.len()
        invariant
            i <= imports.len(),
            views == imports@.map_values(|p: String| p@),
            out@ == before_imports + imports_text(views.take(i as int)),
        decreases imports.len() - i,
    {
        out.append("import \"");
        out.append(imports[i].as_str());
        out.append("\";\n");
        assert(views.take(i + 1).drop_last() =~= views.take(i as int));
        i = i + 1;
        assert(out@ =~= before_imports + imports_text(views.take(i as int)));
    }
    assert(views.take(i as int) =~= views);
    if imports.len() > 0 {
        out.append("\n");
    }
    render_items(&mut out, &file.items);
    proof {
        if imports.len() == 0 {
            assert(views =~= Seq::<Seq<char>>::empty());
        }
    }
    assert(out@ =~= file_text(*file, views));
    out
}


// ---------------------------------------------------------------------------------
// Files
// ---------------------------------------------------------------------------------

/// The last segment of a module path: the text after its last `::`, or the whole path
/// when it has none.
pub open spec fn spec_stem(m: Seq<char>) -> Seq<char>
    decreases m.len(),
{
    if m.len() == 0 {
        seq![]
    } else if m.len() >= 2 && m[m.len() - 2] == ':' && m[m.len() - 1] == ':' {
        seq![]
    } else {
        spec_stem(m.drop_last()).push(m.last())
    }
}

/// Whether a `::` starts at position `i`.
pub open spec fn separator_at(m: Seq<char>, i: int) -> bool {
    0 <= i && i + 1 < m.len() && m[i] == ':' && m[i + 1] == ':'
}

/// The path of a file relative to the root of a proto source tree.
pub open spec fn path_text(file: FileDef) -> Seq<char> {
    "ironlab/ir/v0/"@ + spec_stem(file.module@) + ".proto"@
}

proof fn lemma_stem_after(m: Seq<char>, i: int)
    requires
        separator_at(m, i),
        forall|j: int| i < j < m.len() ==> !separator_at(m, j),
    ensures
        spec_stem(m) == m.skip(i + 2),
    decreases m.len(),
{
    if m.len() == i + 2 {
        assert(m.skip(i + 2) =~= Seq::<char>::empty());
    } else {
        let d = m.drop_last();
        assert(separator_at(d, i));
        assert forall|j: int| i < j < d.len() implies !separator_at(d, j) by {
            assert(!separator_at(m, j));
        }
        lemma_stem_after(d, i);
        assert(!separator_at(m, m.len() - 2));
        assert(m.skip(i + 2) =~= d.skip(i + 2).push(m.last()));
    }
}

proof fn lemma_stem_whole(m: Seq<char>)
    requires
        forall|j: int| !separator_at(m, j),
    ensures
        spec_stem(m) == m,
    decreases m.len(),
{
    if m.len() > 0 {
        let d = m.drop_last();
        assert forall|j: int| !separator_at(d, j) by {
            assert(!separator_at(m, j));
        }
        lemma_stem_whole(d);
        assert(!separator_at(m, m.len() - 2));
        assert(m =~= d.push(m.last()));
    }
}

pub open spec fn type_refs(ty: TypeRef) -> Set<Seq<char>> {
    match ty {
        TypeRef::Scalar(_) => Set::empty(),
        TypeRef::Named(name) => set![name@],
        TypeRef::Mapping(_, value) => set![value@],
    }
}

pub open spec fn specs_refs(specs: Seq<FieldSpec>) -> Set<Seq<char>>
    decreases specs.len(),
{
    if specs.len() == 0 {
        Set::empty()
    } else {
        specs_refs(specs.drop_last()).union(type_refs(specs.last().ty))
    }
}

pub open spec fn field_refs(field: FieldDef) -> Set<Seq<char>> {
    match field {
        FieldDef::Field(spec) => type_refs(spec.ty),
        FieldDef::Oneof { variants, .. } => specs_refs(variants@),
    }
}

pub open spec fn fields_refs(fields: Seq<FieldDef>) -> Set<Seq<char>>
    decreases fields.len(),
{
    if fields.len() == 0 {
        Set::empty()
    } else {
        fields_refs(fields.drop_last()).union(field_refs(fields.last()))
    }
}

pub open spec fn items_refs(items: Seq<ItemDef>) -> Set<Seq<char>>
    decreases items.len(),
{
    if items.len() == 0 {
        Set::empty()
    } else {
        items_refs(items.drop_last()).union(
            match items.last() {
                ItemDef::Message(m) => fields_refs(m.fields@),
                ItemDef::Enum(_) => Set::empty(),
            },
        )
    }
}

/// The names of the package types that the fields of a file refer to.
pub open spec fn referenced(file: FileDef) -> Set<Seq<char>> {
    items_refs(file.items@)
}

fn add_type_ref(names: &mut Vec<String>, ty: TypeRef)
    requires
        strictly_sorted(string_views(old(names)@)),
    ensures
        strictly_sorted(string_views(final(names)@)),
        string_views(final(names)@).to_set() == string_views(old(names)@).to_set().union(
            type_refs(ty),
        ),
{
    match ty {
        TypeRef::Scalar(_) => {
            assert(string_views(names@).to_set().union(type_refs(ty)) =~= string_views(names@).to_set());
        },
        TypeRef::Named(name) => {
            let mut n = String::new();
            n.append(name);
            insert_sorted(names, n);
            assert(string_views(old(names)@).to_set().insert(name@) =~= string_views(old(names)@).to_set().union(type_refs(ty)));
        },
        TypeRef::Mapping(_, name) => {
            let mut n = String::new();
            n.append(name);
            insert_sorted(names, n);
            assert(string_views(old(names)@).to_set().insert(name@) =~= string_views(old(names)@).to_set().union(type_refs(ty)));
        },
    }
}

fn add_field_refs(names: &mut Vec<String>, field: &FieldDef)
    requires
        strictly_sorted(string_views(old(names)@)),
    ensures
        strictly_sorted(string_views(final(names)@)),
        string_views(final(names)@).to_set() == string_views(old(names)@).to_set().union(
            field_refs(*field),
        ),
{
    match field {
        FieldDef::Field(spec) => add_type_ref(names, spec.ty),
        FieldDef::Oneof { variants, .. } => {
            let mut v: usize = 0;
            while v < variants.len()
                invariant
                    v <= variants.len(),
                    strictly_sorted(string_views(names@)),
                    string_views(names@).to_set() == string_views(old(names)@).to_set().union(
                        specs_refs(variants@.take(v as int)),
                    ),
                decreases variants.len() - v,
            {
                add_type_ref(names, variants[v].ty);
                assert(variants@.take(v + 1).drop_last() =~= variants@.take(v as int));
                v = v + 1;
                assert(string_views(names@).to_set() =~= string_views(old(names)@).to_set().union(
                    specs_refs(variants@.take(v as int))));
            }
            assert(variants@.take(v as int) =~= variants@);
        },
    }
}

impl FileDef {
    /// Returns the name of the file without its extension: the last segment of the
    /// module path.
    pub fn stem(&self) -> (r: &'static str)
        ensures
            r@ == spec_stem(self.module@),
    {
        let m = self.module;
        let len = m.unicode_len();
        let mut i = len;
        while i >= 2 && !(m.get_char(i - 2) == ':' && m.get_char(i - 1) == ':')
            invariant
                i <= len,
                len == m@.len(),
                forall|j: int| i - 1 <= j < len ==> !separator_at(m@, j),
            decreases i,
        {
            i = i - 1;
        }
        if i >= 2 {
            proof {
                lemma_stem_after(m@, i - 2);
            }
            let r = m.substring_char(i, len);
            assert(r@ =~= m@.skip(i as int));
            r
        } else {
            proof {
                assert forall|j: int| !separator_at(m@, j) by {
                    if 0 <= j && j + 1 < m@.len() {
                        assert(i - 1 <= j);
                    }
                }
                lemma_stem_whole(m@);
            }
            m
        }
    }

    /// Returns the path of the file relative to the root of a proto source tree.
    pub fn path(&self) -> (p: String)
        ensures
            p@ == path_text(*self),
    {
        let mut p = String::new();
        p.append("ironlab/ir/v0/");
        p.append(self.stem());
        p.append(".proto");
        assert(p@ =~= path_text(*self));
        p
    }

    /// Returns the names of the package types that the file's fields refer to, in
    /// ascending order and each once.
    pub fn referenced_types(&self) -> (names: Vec<String>)
        ensures
            strictly_sorted(string_views(names@)),
            string_views(names@).to_set() == referenced(*self),
    {
        let mut names: Vec<String> = Vec::new();
        assert(string_views(names@).to_set() =~= Set::empty());
        let mut k: usize = 0;
        while k < self.items.len()
            invariant
                k <= self.items.len(),
                strictly_sorted(string_views(names@)),
                string_views(names@).to_set() == items_refs(self.items@.take(k as int)),
            decreases self.items.len() - k,
        {
            let ghost before = string_views(names@).to_set();
            match &self.items[k] {
                ItemDef::Message(message) => {
                    let mut f: usize = 0;
                    while f < message.fields.len()
                        invariant
                            f <= message.fields.len(),
                            strictly_sorted(string_views(names@)),
                            string_views(names@).to_set() == before.union(
                                fields_refs(message.fields@.take(f as int)),
                            ),
                        decreases message.fields.len() - f,
                    {
                        add_field_refs(&mut names, &message.fields[f]);
                        assert(message.fields@.take(f + 1).drop_last() =~= message.fields@.take(f as int));
                        f = f + 1;
                        assert(string_views(names@).to_set() =~= before.union(
                            fields_refs(message.fields@.take(f as int))));
                    }
                    assert(message.fields@.take(f as int) =~= message.fields@);
                },
                ItemDef::Enum(_) => {
                    assert(before.union(Set::empty()) =~= before);
                },
            }
            assert(self.items@.take(k + 1).drop_last() =~= self.items@.take(k as int));
            k = k + 1;
        }
        assert(self.items@.take(k as int) =~= self.items@);
        names
    }
}


// ---------------------------------------------------------------------------------
// Rendering the package
// ---------------------------------------------------------------------------------

/// Whether `(f, i)` names an item of the files.
pub open spec fn is_pos(files: Seq<FileDef>, f: int, i: int) -> bool {
    0 <= f < files.len() && 0 <= i < files[f].items@.len()
}

/// Whether the item at `(f1, i1)` comes before the item at `(f2, i2)`.
pub open spec fn pos_before(f1: int, i1: int, f2: int, i2: int) -> bool {
    f1 < f2 || (f1 == f2 && i1 < i2)
}

pub open spec fn name_at(files: Seq<FileDef>, f: int, i: int) -> Seq<char> {
    item_name(files[f].items@[i])
}

/// Whether a message or an enum uses every number and every name once.
pub open spec fn item_unique(item: ItemDef) -> bool {
    distinct_uses(uses(item), uses(item).len() as int)
}

/// Whether every item before `(f, i)` uses every number and name once.
pub open spec fn unique_before(files: Seq<FileDef>, f: int, i: int) -> bool {
    forall|g: int, j: int|
        is_pos(files, g, j) && pos_before(g, j, f, i) ==> item_unique(#[trigger] files[g].items@[j])
}

pub open spec fn all_unique(files: Seq<FileDef>) -> bool {
    forall|g: int, j: int| is_pos(files, g, j) ==> item_unique(#[trigger] files[g].items@[j])
}

/// Whether the items before `(f, i)` have distinct names.
pub open spec fn names_distinct_before(files: Seq<FileDef>, f: int, i: int) -> bool {
    forall|g: int, j: int, h: int, k: int|
        is_pos(files, g, j) && is_pos(files, h, k) && pos_before(g, j, h, k) && pos_before(h, k, f, i)
            ==> #[trigger] name_at(files, g, j) != #[trigger] name_at(files, h, k)
}

pub open spec fn names_distinct(files: Seq<FileDef>) -> bool {
    forall|g: int, j: int, h: int, k: int|
        is_pos(files, g, j) && is_pos(files, h, k) && pos_before(g, j, h, k)
            ==> #[trigger] name_at(files, g, j) != #[trigger] name_at(files, h, k)
}

/// Whether some file declares a type of the name.
pub open spec fn declares(files: Seq<FileDef>, name: Seq<char>) -> bool {
    exists|g: int, j: int| is_pos(files, g, j) && #[trigger] name_at(files, g, j) == name
}

pub open spec fn refs_declared(files: Seq<FileDef>, f: int) -> bool {
    forall|n: Seq<char>| #[trigger] referenced(files[f]).contains(n) ==> declares(files, n)
}

pub open spec fn all_refs_declared(files: Seq<FileDef>) -> bool {
    forall|f: int| 0 <= f < files.len() ==> #[trigger] refs_declared(files, f)
}

/// Whether the files can be rendered: every item uses every number and name once, no
/// two items share a name, and every type referred to is declared.
pub open spec fn consistent(files: Seq<FileDef>) -> bool {
    all_unique(files) && names_distinct(files) && all_refs_declared(files)
}

/// Whether file `g` declares a type of the name.
pub open spec fn file_declares(files: Seq<FileDef>, g: int, name: Seq<char>) -> bool {
    exists|j: int| is_pos(files, g, j) && #[trigger] name_at(files, g, j) == name
}

/// The index of the file that declares a type.
pub open spec fn owner(files: Seq<FileDef>, name: Seq<char>) -> int {
    choose|g: int| #[trigger] file_declares(files, g, name)
}

/// The paths that a file imports: those of the other files that declare a type it
/// refers to.
pub open spec fn import_set(files: Seq<FileDef>, f: int) -> Set<Seq<char>> {
    Set::new(
        |p: Seq<char>|
            exists|n: Seq<char>|
                #[trigger] referenced(files[f]).contains(n) && files[owner(files, n)].module@
                    != files[f].module@ && p == path_text(files[owner(files, n)]),
    )
}

/// Whether `text` is the rendering of file `f` with its imports in ascending order.
pub open spec fn renders_file(files: Seq<FileDef>, f: int, text: Seq<char>) -> bool {
    exists|imports: Seq<Seq<char>>|
        strictly_sorted(imports) && imports.to_set() == import_set(files, f) && text == file_text(
            files[f],
            imports,
        )
}

/// The error of an item that uses a number or a name twice.
pub open spec fn reports_duplicate_use(files: Seq<FileDef>, message: Seq<char>) -> bool {
    exists|f: int, i: int|
        is_pos(files, f, i) && !item_unique(#[trigger] files[f].items@[i]) && unique_before(files, f, i)
            && exists|problem: Seq<char>|
            reports_first_duplicate(files[f].items@[i], problem) && message
                == "invalid wire declaration in "@ + path_text(files[f]) + ": "@ + problem
}

/// The error of the first item whose name an earlier item has.
pub open spec fn reports_duplicate_name(files: Seq<FileDef>, message: Seq<char>) -> bool {
    exists|f: int, i: int, g: int, j: int|
        is_pos(files, f, i) && is_pos(files, g, j) && pos_before(g, j, f, i) && #[trigger] name_at(
            files,
            g,
            j,
        ) == #[trigger] name_at(files, f, i) && names_distinct_before(files, f, i) && message
            == "wire type "@ + name_at(files, f, i) + " is declared in both "@ + path_text(files[g])
            + " and "@ + path_text(files[f])
}

/// The error of the first file that refers to an undeclared type, naming the first such
/// type in ascending order.
pub open spec fn reports_undeclared(files: Seq<FileDef>, message: Seq<char>) -> bool {
    exists|f: int, n: Seq<char>|
        0 <= f < files.len() && #[trigger] referenced(files[f]).contains(n) && !declares(files, n)
            && (forall|g: int| 0 <= g < f ==> #[trigger] refs_declared(files, g)) && (forall|
            m: Seq<char>,
        |
            #[trigger] referenced(files[f]).contains(m) && text_less(m, n) ==> declares(files, m))
            && message == path_text(files[f]) + " refers to undeclared wire type "@ + n
}

/// Checks every item, returning the error of the first that uses a number or a name
/// twice.
fn check_items(files: &Vec<FileDef>) -> (r: Result<(), String>)
    ensures
        r is Ok <==> all_unique(files@),
        r matches Err(m) ==> reports_duplicate_use(files@, m@),
{
    let mut f: usize = 0;
    while f < files.len()
        invariant
            f <= files.len(),
            unique_before(files@, f as int, 0),
        decreases files.len() - f,
    {
        let file = &files[f];
        let mut i: usize = 0;
        while i < file.items.len()
            invariant
                f < files.len(),
                file == &files@[f as int],
                i <= file.items.len(),
                unique_before(files@, f as int, i as int),
            decreases file.items.len() - i,
        {
            match check_unique(&file.items[i]) {
                Ok(()) => {},
                Err(problem) => {
                    let mut message = String::new();
                    message.append("invalid wire declaration in ");
                    message.append(file.path().as_str());
                    message.append(": ");
                    message.append(problem.as_str());
                    assert(!item_unique(files@[f as int].items@[i as int]));
                    assert(message@ =~= "invalid wire declaration in "@ + path_text(files@[f as int])
                        + ": "@ + problem@);
                    assert(!all_unique(files@));
                    return Err(message);
                },
            }
            i = i + 1;
        }
        f = f + 1;
    }
    Ok(())
}

/// The number of items in the files before file `g`.
pub open spec fn offset(files: Seq<FileDef>, g: int) -> int
    decreases g,
{
    if g <= 0 {
        0
    } else {
        offset(files, g - 1) + files[g - 1].items@.len()
    }
}

proof fn lemma_offset_nonnegative(files: Seq<FileDef>, g: int)
    ensures
        offset(files, g) >= 0,
    decreases g,
{
    if g > 0 {
        lemma_offset_nonnegative(files, g - 1);
    }
}

proof fn lemma_offset_monotonic(files: Seq<FileDef>, g: int, f: int)
    requires
        0 <= g < f <= files.len(),
    ensures
        offset(files, g) + files[g].items@.len() <= offset(files, f),
    decreases f,
{
    if g + 1 < f {
        lemma_offset_monotonic(files, g, f - 1);
    }
}

/// The position of item `(g, j)` in the list of every item of the files.
pub open spec fn index_of(files: Seq<FileDef>, g: int, j: int) -> int {
    offset(files, g) + j
}

proof fn lemma_index_before(files: Seq<FileDef>, g: int, j: int, f: int, i: int)
    requires
        is_pos(files, g, j),
        pos_before(g, j, f, i),
        0 <= f <= files.len(),
        0 <= i,
    ensures
        0 <= index_of(files, g, j) < index_of(files, f, i),
{
    lemma_offset_nonnegative(files, g);
    if g < f {
        lemma_offset_monotonic(files, g, f);
    }
}

/// Whether an entry holds the name of an item before `(f, i)`, with its file and its
/// position in the file.
pub open spec fn entry_ok(files: Seq<FileDef>, e: (&'static str, usize, usize), f: int, i: int) -> bool {
    is_pos(files, e.1 as int, e.2 as int) && pos_before(e.1 as int, e.2 as int, f, i) && e.0@
        == name_at(files, e.1 as int, e.2 as int)
}

/// The owners found so far: the entry at the index of each item before `(f, i)` holds
/// its name, its file and its position in the file.
pub open spec fn owners_cover(
    files: Seq<FileDef>,
    owners: Seq<(&'static str, usize, usize)>,
    f: int,
    i: int,
) -> bool {
    &&& owners.len() == index_of(files, f, i)
    &&& forall|k: int| 0 <= k < owners.len() ==> #[trigger] entry_ok(files, owners[k], f, i)
    &&& forall|g: int, j: int|
        is_pos(files, g, j) && pos_before(g, j, f, i) ==> #[trigger] owners[index_of(files, g, j)].0@
            == name_at(files, g, j) && owners[index_of(files, g, j)].1 == g
}

fn find_owner(owners: &Vec<(&'static str, usize, usize)>, name: &str) -> (r: Option<usize>)
    ensures
        r is None ==> forall|k: int| 0 <= k < owners@.len() ==> #[trigger] owners@[k].0@ != name@,
        r matches Some(k) ==> k < owners@.len() && owners@[k as int].0@ == name@,
{
    let mut k: usize = 0;
    while k < owners.len()
        invariant
            k <= owners.len(),
            forall|t: int| 0 <= t < k ==> #[trigger] owners@[t].0@ != name@,
        decreases owners.len() - k,
    {
        if str_eq(owners[k].0, name) {
            return Some(k);
        }
        k = k + 1;
    }
    None
}

/// Finds the file that declares each item, returning the error of the first item whose
/// name an earlier item has.
fn collect_owners(files: &Vec<FileDef>) -> (r: Result<Vec<(&'static str, usize, usize)>, String>)
    ensures
        r is Ok <==> names_distinct(files@),
        r matches Err(m) ==> reports_duplicate_name(files@, m@),
        r matches Ok(owners) ==> owners_cover(files@, owners@, files@.len() as int, 0),
{
    let mut owners: Vec<(&'static str, usize, usize)> = Vec::new();
    let mut f: usize = 0;
    while f < files.len()
        invariant
            f <= files.len(),
            names_distinct_before(files@, f as int, 0),
            owners_cover(files@, owners@, f as int, 0),
        decreases files.len() - f,
    {
        let file = &files[f];
        let mut i: usize = 0;
        while i < file.items.len()
            invariant
                f < files.len(),
                file == &files@[f as int],
                i <= file.items.len(),
                names_distinct_before(files@, f as int, i as int),
                owners_cover(files@, owners@, f as int, i as int),
            decreases file.items.len() - i,
        {
            let name = file.items[i].name();
            match find_owner(&owners, name) {
                Some(k) => {
                    assert(entry_ok(files@, owners@[k as int], f as int, i as int));
                    let other = owners[k].1;
                    let ghost (g, j) = (owners@[k as int].1 as int, owners@[k as int].2 as int);
                    let mut message = String::new();
                    message.append("wire type ");
                    message.append(name);
                    message.append(" is declared in both ");
                    message.append(files[other].path().as_str());
                    message.append(" and ");
                    message.append(file.path().as_str());
                    assert(name_at(files@, g, j) == name_at(files@, f as int, i as int));
                    assert(message@ =~= "wire type "@ + name_at(files@, f as int, i as int)
                        + " is declared in both "@ + path_text(files@[g]) + " and "@ + path_text(
                        files@[f as int],
                    ));
                    assert(!names_distinct(files@));
                    return Err(message);
                },
                None => {
                    let ghost old_owners = owners@;
                    owners.push((name, f, i));
                    assert forall|g: int, j: int, h: int, k: int|
                        is_pos(files@, g, j) && is_pos(files@, h, k) && pos_before(g, j, h, k)
                            && pos_before(h, k, f as int, i + 1) implies #[trigger] name_at(
                        files@,
                        g,
                        j,
                    ) != #[trigger] name_at(files@, h, k) by {
                        if h == f && k == i {
                            assert(old_owners.len() == index_of(files@, f as int, i as int));
                            lemma_index_before(files@, g, j, f as int, i as int);
                            assert(index_of(files@, g, j) < old_owners.len());
                            assert(old_owners[index_of(files@, g, j)].0@ == name_at(files@, g, j));
                            assert(old_owners[index_of(files@, g, j)].0@ != name@);
                        } else {
                            assert(pos_before(h, k, f as int, i as int));
                        }
                    }
                    assert forall|g: int, j: int|
                        is_pos(files@, g, j) && pos_before(g, j, f as int, i + 1) implies #[trigger] owners@[index_of(
                        files@,
                        g,
                        j,
                    )].0@ == name_at(files@, g, j) && owners@[index_of(files@, g, j)].1 == g by {
                        if !(g == f && j == i) {
                            assert(pos_before(g, j, f as int, i as int));
                            lemma_index_before(files@, g, j, f as int, i as int);
                            assert(owners@[index_of(files@, g, j)] == old_owners[index_of(files@, g, j)]);
                        }
                    }
                    assert forall|k: int| 0 <= k < owners@.len() implies #[trigger] entry_ok(
                        files@,
                        owners@[k],
                        f as int,
                        i + 1,
                    ) by {
                        if k < old_owners.len() {
                            assert(owners@[k] == old_owners[k]);
                            assert(entry_ok(files@, old_owners[k], f as int, i as int));
                        } else {
                            assert(owners@[k] == (name, f, i));
                            assert(file.items@[i as int] == files@[f as int].items@[i as int]);
                            assert(name@ == name_at(files@, f as int, i as int));
                        }
                    }
                    assert(owners@.len() == index_of(files@, f as int, i + 1));
                    assert(owners_cover(files@, owners@, f as int, i + 1));
                },
            }
            i = i + 1;
        }
        assert forall|g: int, j: int, h: int, k: int|
            is_pos(files@, g, j) && is_pos(files@, h, k) && pos_before(g, j, h, k)
                && pos_before(h, k, f + 1, 0) implies #[trigger] name_at(files@, g, j)
            != #[trigger] name_at(files@, h, k) by {
            assert(pos_before(h, k, f as int, i as int));
        }
        assert(offset(files@, f + 1) == offset(files@, f as int) + files@[f as int].items@.len());
        assert forall|k: int| 0 <= k < owners@.len() implies #[trigger] entry_ok(
            files@,
            owners@[k],
            f + 1,
            0,
        ) by {
            assert(entry_ok(files@, owners@[k], f as int, i as int));
        }
        assert forall|g: int, j: int|
            is_pos(files@, g, j) && pos_before(g, j, f + 1, 0) implies #[trigger] owners@[index_of(
            files@,
            g,
            j,
        )].0@ == name_at(files@, g, j) && owners@[index_of(files@, g, j)].1 == g by {
            assert(pos_before(g, j, f as int, i as int));
            lemma_index_before(files@, g, j, f as int, i as int);
        }
        f = f + 1;
    }
    Ok(owners)
}


proof fn lemma_owner(files: Seq<FileDef>, n: Seq<char>, g: int, j: int)
    requires
        names_distinct(files),
        is_pos(files, g, j),
        name_at(files, g, j) == n,
    ensures
        owner(files, n) == g,
        declares(files, n),
{
    assert(file_declares(files, g, n));
    let o = owner(files, n);
    assert(file_declares(files, o, n));
    let i = choose|i: int| is_pos(files, o, i) && #[trigger] name_at(files, o, i) == n;
    if pos_before(g, j, o, i) {
        assert(name_at(files, g, j) != name_at(files, o, i));
    } else if pos_before(o, i, g, j) {
        assert(name_at(files, o, i) != name_at(files, g, j));
    }
}

proof fn lemma_undeclared(
    files: Seq<FileDef>,
    owners: Seq<(&'static str, usize, usize)>,
    n: Seq<char>,
)
    requires
        owners_cover(files, owners, files.len() as int, 0),
        forall|k: int| 0 <= k < owners.len() ==> #[trigger] owners[k].0@ != n,
    ensures
        !declares(files, n),
{
    if declares(files, n) {
        let (g, j) = choose|g: int, j: int| is_pos(files, g, j) && #[trigger] name_at(files, g, j) == n;
        lemma_index_before(files, g, j, files.len() as int, 0);
        assert(owners[index_of(files, g, j)].0@ == name_at(files, g, j));
    }
}

/// The paths imported for the first names of a file's references.
pub open spec fn partial_imports(files: Seq<FileDef>, f: int, names: Seq<Seq<char>>) -> Set<Seq<char>> {
    Set::new(
        |p: Seq<char>|
            exists|n: Seq<char>|
                #[trigger] names.contains(n) && files[owner(files, n)].module@ != files[f].module@ && p
                    == path_text(files[owner(files, n)]),
    )
}

/// Returns the paths of the files that declare the types a file refers to, other than
/// the file itself, in ascending order, or the error of the first type in ascending
/// order that no file declares.
fn file_imports(files: &Vec<FileDef>, owners: &Vec<(&'static str, usize, usize)>, f: usize) -> (r: Result<Vec<String>, String>)
    requires
        f < files@.len(),
        names_distinct(files@),
        owners_cover(files@, owners@, files@.len() as int, 0),
    ensures
        r is Ok <==> refs_declared(files@, f as int),
        r matches Ok(imports) ==> strictly_sorted(string_views(imports@)) && string_views(
            imports@,
        ).to_set() == import_set(files@, f as int),
        r matches Err(m) ==> exists|n: Seq<char>|
            #[trigger] referenced(files@[f as int]).contains(n) && !declares(files@, n) && (forall|
                m: Seq<char>,
            |
                #[trigger] referenced(files@[f as int]).contains(m) && text_less(m, n) ==> declares(
                    files@,
                    m,
                )) && m@ == path_text(files@[f as int]) + " refers to undeclared wire type "@ + n,
{
    let file = &files[f];
    let names = file.referenced_types();
    let ghost views = string_views(names@);
    let mut imports: Vec<String> = Vec::new();
    assert(string_views(imports@).to_set() =~= partial_imports(files@, f as int, views.take(0)));
    let mut t: usize = 0;
    while t < names.len()
        invariant
            t <= names.len(),
            file == &files@[f as int],
            views == string_views(names@),
            strictly_sorted(views),
            views.to_set() == referenced(files@[f as int]),
            f < files@.len(),
            names_distinct(files@),
            owners_cover(files@, owners@, files@.len() as int, 0),
            forall|u: int| 0 <= u < t ==> declares(files@, #[trigger] views[u]),
            strictly_sorted(string_views(imports@)),
            string_views(imports@).to_set() == partial_imports(files@, f as int, views.take(t as int)),
        decreases names.len() - t,
    {
        let name = names[t].as_str();
        assert(views[t as int] == name@);
        match find_owner(owners, name) {
            None => {
                proof {
                    lemma_undeclared(files@, owners@, name@);
                    assert(views.to_set().contains(name@));
                    assert forall|m: Seq<char>|
                        #[trigger] referenced(files@[f as int]).contains(m) && text_less(m, name@) implies declares(
                        files@,
                        m,
                    ) by {
                        assert(views.to_set().contains(m));
                        let u = choose|u: int| 0 <= u < views.len() && views[u] == m;
                        if u == t {
                            lemma_text_less_irreflexive(m);
                        } else if u > t {
                            lemma_text_less_asymmetric(views[t as int], views[u]);
                        }
                    }
                    assert(!refs_declared(files@, f as int));
                }
                let mut message = file.path();
                message.append(" refers to undeclared wire type ");
                message.append(name);
                return Err(message);
            },
            Some(k) => {
                assert(entry_ok(files@, owners@[k as int], files@.len() as int, 0));
                let g = owners[k].1;
                proof {
                    lemma_owner(files@, name@, g as int, owners@[k as int].2 as int);
                }
                let ghost before = string_views(imports@);
                if !str_eq(files[g].module, file.module) {
                    insert_sorted(&mut imports, files[g].path());
                }
                assert(views.take(t + 1) =~= views.take(t as int).push(name@));
                assert(string_views(imports@).to_set() =~= partial_imports(files@, f as int, views.take(t + 1))) by {
                    let next = views.take(t + 1);
                    let prev = views.take(t as int);
                    assert forall|p: Seq<char>| partial_imports(files@, f as int, next).contains(p)
                        implies string_views(imports@).to_set().contains(p) by {
                        let n = choose|n: Seq<char>|
                            #[trigger] next.contains(n) && files@[owner(files@, n)].module@
                                != files@[f as int].module@ && p == path_text(files@[owner(files@, n)]);
                        if n != name@ {
                            let u = choose|u: int| 0 <= u < next.len() && next[u] == n;
                            assert(prev[u] == n);
                            assert(prev.contains(n));
                            assert(partial_imports(files@, f as int, prev).contains(p));
                        }
                    }
                    assert forall|p: Seq<char>| string_views(imports@).to_set().contains(p)
                        implies partial_imports(files@, f as int, next).contains(p) by {
                        if before.to_set().contains(p) {
                            let n = choose|n: Seq<char>|
                                #[trigger] prev.contains(n) && files@[owner(files@, n)].module@
                                    != files@[f as int].module@ && p == path_text(files@[owner(files@, n)]);
                            let u = choose|u: int| 0 <= u < prev.len() && prev[u] == n;
                            assert(next[u] == n);
                            assert(next.contains(n));
                        } else {
                            assert(next[t as int] == name@);
                            assert(next.contains(name@));
                        }
                    }
                }
            },
        }
        t = t + 1;
    }
    proof {
        assert(views.take(t as int) =~= views);
        assert forall|n: Seq<char>| #[trigger] referenced(files@[f as int]).contains(n) implies declares(files@, n) by {
            assert(views.to_set().contains(n));
            let u = choose|u: int| 0 <= u < views.len() && views[u] == n;
        }
        assert(refs_declared(files@, f as int));
        assert(partial_imports(files@, f as int, views) =~= import_set(files@, f as int)) by {
            assert forall|n: Seq<char>| views.contains(n) == referenced(files@[f as int]).contains(n) by {
                assert(views.to_set().contains(n) == views.contains(n));
            }
        }
    }
    Ok(imports)
}

/// Checks the declarations of the `.proto` files of the package before they are
/// rendered.
///
/// # Errors
///
/// Returns a description of the first mistake in the declarations: an item that uses
/// a number or a name twice (as described in [`check_unique`]), a type declared in two
/// files or twice in one, or a field that refers to a type that no file declares.
pub fn check_declarations(files: &Vec<FileDef>) -> (r: Result<(), String>)
    ensures
        r is Ok <==> consistent(files@),
        r matches Err(m) ==> {
            &&& !all_unique(files@) ==> reports_duplicate_use(files@, m@)
            &&& all_unique(files@) && !names_distinct(files@) ==> reports_duplicate_name(files@, m@)
            &&& all_unique(files@) && names_distinct(files@) && !all_refs_declared(files@)
                ==> reports_undeclared(files@, m@)
        },
{
    check_items(files)?;
    let owners = collect_owners(files)?;
    let mut f: usize = 0;
    while f < files.len()
        invariant
            f <= files.len(),
            all_unique(files@),
            names_distinct(files@),
            owners_cover(files@, owners@, files@.len() as int, 0),
            forall|g: int| 0 <= g < f ==> #[trigger] refs_declared(files@, g),
        decreases files.len() - f,
    {
        match file_imports(files, &owners, f) {
            Err(message) => {
                assert(!all_refs_declared(files@));
                assert(reports_undeclared(files@, message@));
                return Err(message);
            },
            Ok(_) => {},
        }
        f = f + 1;
    }
    assert(consistent(files@));
    Ok(())
}

/// Renders the given `.proto` files of the package, each with its path relative to the
/// root of a proto source tree. The declarations must be consistent, as
/// [`check_declarations`] checks.
pub fn render(files: &Vec<FileDef>) -> (r: Vec<(String, String)>)
    requires
        consistent(files@),
    ensures
        r@.len() == files@.len(),
        forall|f: int|
            0 <= f < files@.len() ==> #[trigger] r@[f].0@ == path_text(files@[f]) && renders_file(files@, f, r@[f].1@),
{
    let owners = match collect_owners(files) {
        Ok(owners) => owners,
        Err(_) => {
            return Vec::new();
        },
    };
    let mut rendered: Vec<(String, String)> = Vec::new();
    let mut f: usize = 0;
    while f < files.len()
        invariant
            f <= files.len(),
            consistent(files@),
            owners_cover(files@, owners@, files@.len() as int, 0),
            rendered@.len() == f,
            forall|g: int|
                0 <= g < f ==> #[trigger] rendered@[g].0@ == path_text(files@[g]) && renders_file(
                    files@,
                    g,
                    rendered@[g].1@,
                ),
        decreases files.len() - f,
    {
        assert(refs_declared(files@, f as int));
        match file_imports(files, &owners, f) {
            Err(_) => {
                return Vec::new();
            },
            Ok(imports) => {
                let text = render_file(&files[f], &imports);
                assert(renders_file(files@, f as int, text@));
                rendered.push((files[f].path(), text));
            },
        }
        f = f + 1;
    }
    rendered
}

/// Whether a file declares an item of the given name.
pub open spec fn declares_item(file: FileDef, name: Seq<char>) -> bool {
    exists|i: int| 0 <= i < file.items@.len() && item_name(#[trigger] file.items@[i]) == name
}

/// The stem of the first file that declares an item of the given name, or `None` when
/// no file declares one.
pub open spec fn spec_module_declaring(files: Seq<FileDef>, name: Seq<char>) -> Option<Seq<char>>
    decreases files.len(),
{
    if files.len() == 0 {
        None
    } else if declares_item(files[0], name) {
        Some(spec_stem(files[0].module@))
    } else {
        spec_module_declaring(files.drop_first(), name)
    }
}

/// Returns the stem of the first of the given files that declares an item of the given
/// name, such as `artist` for `Line`, or `None` when none does.
#[verifier::loop_isolation(false)]
pub fn module_declaring_in(files: &Vec<FileDef>, wanted: &str) -> (r: Option<&'static str>)
    ensures
        r matches Some(stem) ==> spec_module_declaring(files@, wanted@) == Some(stem@),
        r is None <==> spec_module_declaring(files@, wanted@) is None,
{
    let mut f: usize = 0;
    assert(files@.skip(0) =~= files@);
    while f < files.len()
        invariant
            f <= files@.len(),
            spec_module_declaring(files@.skip(f as int), wanted@) == spec_module_declaring(files@, wanted@),
        decreases files.len() - f,
    {
        let file = &files[f];
        assert(files@.skip(f as int)[0] == files@[f as int]);
        assert(files@.skip(f as int).drop_first() =~= files@.skip(f + 1));
        let mut i: usize = 0;
        while i < file.items.len()
            invariant
                i <= file.items@.len(),
                forall|k: int| 0 <= k < i ==> item_name(#[trigger] file.items@[k]) != wanted@,
            decreases file.items.len() - i,
        {
            if crate::textfmt::str_eq(file.items[i].name(), wanted) {
                assert(declares_item(files@[f as int], wanted@)) by {
                    assert(item_name(file.items@[i as int]) == wanted@);
                }
                return Some(file.stem());
            }
            i = i + 1;
        }
        assert(!declares_item(files@[f as int], wanted@));
        f = f + 1;
    }
    assert(files@.skip(f as int) =~= Seq::<FileDef>::empty());
    None
}


} // verus!
