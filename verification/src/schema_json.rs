//! The JSON Schema of the `.fig.json` format as one file per module: the definitions of
//! the schemas of a figure and of a transaction are merged, each is placed in the file
//! of the module that declares its type, and a reference to a definition of another
//! module is rewritten into a reference to that module's file.

use vstd::prelude::*;

use crate::text::owned;
use crate::textfmt::{insert_sorted, str_eq, string_views, strictly_sorted};
use crate::wire::declared_module;

verus! {

/// A JSON value: an object lists its members in order.
#[derive(Debug, PartialEq)]
pub enum JsonValue {
    Null,
    Bool(bool),
    /// A number, as it is written.
    Number(String),
    String(String),
    Array(Vec<JsonValue>),
    Object(Vec<(String, JsonValue)>),
}

/// A JSON value as a mathematical value.
pub enum JsonView {
    Null,
    Bool(bool),
    Number(Seq<char>),
    String(Seq<char>),
    Array(Seq<JsonView>),
    Object(Seq<(Seq<char>, JsonView)>),
}

pub open spec fn json_view(v: JsonValue) -> JsonView
    decreases v, 1int,
{
    match v {
        JsonValue::Null => JsonView::Null,
        JsonValue::Bool(b) => JsonView::Bool(b),
        JsonValue::Number(s) => JsonView::Number(s@),
        JsonValue::String(s) => JsonView::String(s@),
        JsonValue::Array(items) => JsonView::Array(json_views(items@)),
        JsonValue::Object(members) => JsonView::Object(members_view(members@)),
    }
}

pub open spec fn json_views(s: Seq<JsonValue>) -> Seq<JsonView>
    decreases s, 0int,
{
    if s.len() == 0 {
        seq![]
    } else {
        json_views(s.subrange(0, s.len() - 1)).push(json_view(s[s.len() - 1]))
    }
}

pub open spec fn members_view(s: Seq<(String, JsonValue)>) -> Seq<(Seq<char>, JsonView)>
    decreases s, 0int,
{
    if s.len() == 0 {
        seq![]
    } else {
        members_view(s.subrange(0, s.len() - 1)).push((s[s.len() - 1].0@, json_view(s[s.len() - 1].1)))
    }
}


pub proof fn lemma_json_views(s: Seq<JsonValue>)
    ensures
        json_views(s).len() == s.len(),
        forall|i: int| 0 <= i < s.len() ==> #[trigger] json_views(s)[i] == json_view(s[i]),
    decreases s.len(),
{
    if s.len() > 0 {
        lemma_json_views(s.subrange(0, s.len() - 1));
    }
}

pub proof fn lemma_members_view(s: Seq<(String, JsonValue)>)
    ensures
        members_view(s).len() == s.len(),
        forall|i: int| 0 <= i < s.len() ==> #[trigger] members_view(s)[i] == (s[i].0@, json_view(s[i].1)),
    decreases s.len(),
{
    if s.len() > 0 {
        lemma_members_view(s.subrange(0, s.len() - 1));
    }
}

/// Returns a copy of a JSON value.
#[verifier::loop_isolation(false)]
pub fn copy_json(v: &JsonValue) -> (r: JsonValue)
    ensures
        json_view(r) == json_view(*v),
    decreases v,
{
    match v {
        JsonValue::Null => JsonValue::Null,
        JsonValue::Bool(b) => JsonValue::Bool(*b),
        JsonValue::Number(s) => JsonValue::Number(owned(s.as_str())),
        JsonValue::String(s) => JsonValue::String(owned(s.as_str())),
        JsonValue::Array(items) => {
            let mut out: Vec<JsonValue> = Vec::new();
            let mut i: usize = 0;
            while i < items.len()
                invariant
                    i <= items@.len(),
                    out@.len() == i,
                    forall|k: int| 0 <= k < i ==> #[trigger] json_view(out@[k]) == json_view(items@[k]),
                decreases items.len() - i,
            {
                assert(decreases_to!(*v => *items));
                assert(decreases_to!(*items => items@));
                assert(decreases_to!(items@ => items@[i as int]));
                let c = copy_json(&items[i]);
                out.push(c);
                i = i + 1;
            }
            proof {
                lemma_json_views(out@);
                lemma_json_views(items@);
                assert(json_views(out@) =~= json_views(items@));
            }
            JsonValue::Array(out)
        },
        JsonValue::Object(members) => {
            let mut out: Vec<(String, JsonValue)> = Vec::new();
            let mut i: usize = 0;
            while i < members.len()
                invariant
                    i <= members@.len(),
                    out@.len() == i,
                    forall|k: int| 0 <= k < i ==> #[trigger] out@[k].0@ == members@[k].0@ && json_view(out@[k].1) == json_view(members@[k].1),
                decreases members.len() - i,
            {
                assert(decreases_to!(*v => *members));
                assert(decreases_to!(*members => members@));
                assert(decreases_to!(members@ => members@[i as int]));
                assert(decreases_to!(members@[i as int] => members@[i as int].1));
                let c = copy_json(&members[i].1);
                out.push((owned(members[i].0.as_str()), c));
                i = i + 1;
            }
            proof {
                lemma_members_view(out@);
                lemma_members_view(members@);
                assert(members_view(out@) =~= members_view(members@));
            }
            JsonValue::Object(out)
        },
    }
}


/// The name of the definition that a reference within the same document names:
/// what follows `#/$defs/`.
pub open spec fn local_ref(s: Seq<char>) -> Option<Seq<char>> {
    if s.len() >= 8 && s.subrange(0, 8) == "#/$defs/"@ {
        Some(s.subrange(8, s.len() as int))
    } else {
        None
    }
}

/// The module of the crate that declares the type of a definition: `ids` for the node
/// and data identifiers, `edit` for a property path, which has no wire message of its
/// own, and otherwise the module that declares its wire type.
pub open spec fn definition_module(name: Seq<char>) -> Option<Seq<char>> {
    if name == "NodeId"@ || name == "DataId"@ {
        Some("ids"@)
    } else if name == "PropertyPath"@ {
        Some("edit"@)
    } else {
        declared_module(name)
    }
}

/// Whether a member is a reference: the key `$ref` with a string.
pub open spec fn is_ref_member(k: Seq<char>, x: JsonView) -> bool {
    k == "$ref"@ && x is String
}

/// Whether a value holds a local reference to the definition of a name.
pub open spec fn refers_to(v: JsonView, n: Seq<char>) -> bool
    decreases v, 1int,
{
    match v {
        JsonView::Array(xs) => items_refer(xs, n),
        JsonView::Object(ms) => members_refer(ms, n),
        _ => false,
    }
}

pub open spec fn items_refer(xs: Seq<JsonView>, n: Seq<char>) -> bool
    decreases xs, 0int,
{
    if xs.len() == 0 {
        false
    } else {
        items_refer(xs.subrange(0, xs.len() - 1), n) || refers_to(xs[xs.len() - 1], n)
    }
}

pub open spec fn members_refer(ms: Seq<(Seq<char>, JsonView)>, n: Seq<char>) -> bool
    decreases ms, 0int,
{
    if ms.len() == 0 {
        false
    } else {
        members_refer(ms.subrange(0, ms.len() - 1), n) || if is_ref_member(ms[ms.len() - 1].0, ms[ms.len() - 1].1) {
            local_ref(ms[ms.len() - 1].1->String_0) == Some(n)
        } else {
            refers_to(ms[ms.len() - 1].1, n)
        }
    }
}

/// A reference member as it stands in the file of a module: a local reference to a
/// definition of another module names that module's file.
pub open spec fn relocated_ref(k: Seq<char>, s: Seq<char>, m: Seq<char>) -> (Seq<char>, JsonView) {
    match local_ref(s) {
        Some(n) => match definition_module(n) {
            Some(owner) => if owner != m {
                (k, JsonView::String(owner + ".schema.json#/$defs/"@ + n))
            } else {
                (k, JsonView::String(s))
            },
            None => (k, JsonView::String(s)),
        },
        None => (k, JsonView::String(s)),
    }
}

/// A value as it stands in the file of module `m`: every local reference to a
/// definition of another module is rewritten into a reference to that module's file.
pub open spec fn relocated(v: JsonView, m: Seq<char>) -> JsonView
    decreases v, 1int,
{
    match v {
        JsonView::Array(xs) => JsonView::Array(relocated_items(xs, m)),
        JsonView::Object(ms) => JsonView::Object(relocated_members(ms, m)),
        _ => v,
    }
}

pub open spec fn relocated_items(xs: Seq<JsonView>, m: Seq<char>) -> Seq<JsonView>
    decreases xs, 0int,
{
    if xs.len() == 0 {
        seq![]
    } else {
        relocated_items(xs.subrange(0, xs.len() - 1), m).push(relocated(xs[xs.len() - 1], m))
    }
}

pub open spec fn relocated_members(ms: Seq<(Seq<char>, JsonView)>, m: Seq<char>) -> Seq<(Seq<char>, JsonView)>
    decreases ms, 0int,
{
    if ms.len() == 0 {
        seq![]
    } else {
        let k = ms[ms.len() - 1].0;
        let x = ms[ms.len() - 1].1;
        relocated_members(ms.subrange(0, ms.len() - 1), m).push(
            if is_ref_member(k, x) {
                relocated_ref(k, x->String_0, m)
            } else {
                (k, relocated(x, m))
            },
        )
    }
}

/// The message of a definition whose type no module declares.
pub open spec fn unplaced_message(n: Seq<char>) -> Seq<char> {
    "the JSON Schema definition "@ + n + " has no module"@
}

/// Returns the module of the crate that declares the type of a definition, or `None`.
pub fn definition_module_of(name: &str) -> (r: Option<&'static str>)
    ensures
        r is None <==> definition_module(name@) is None,
        r matches Some(m) ==> definition_module(name@) == Some(m@),
{
    if str_eq(name, "NodeId") || str_eq(name, "DataId") {
        Some("ids")
    } else if str_eq(name, "PropertyPath") {
        Some("edit")
    } else {
        crate::wire::module_declaring(name)
    }
}

/// Returns the message of a definition whose type no module declares.
fn unplaced(name: &str) -> (r: String)
    ensures
        r@ == unplaced_message(name@),
{
    let mut r = owned("the JSON Schema definition ");
    r.append(name);
    r.append(" has no module");
    proof {
        reveal_strlit(" has no module");
    }
    r
}


/// A value that refers to a name through a prefix of its items or members refers to it.
proof fn lemma_refer_prefix(v: JsonView, n: Seq<char>, j: int)
    ensures
        v matches JsonView::Array(xs) && 0 <= j <= xs.len() && items_refer(xs.subrange(0, j), n) ==> refers_to(v, n),
        v matches JsonView::Object(ms) && 0 <= j <= ms.len() && members_refer(ms.subrange(0, j), n) ==> refers_to(v, n),
{
    match v {
        JsonView::Array(xs) => lemma_items_refer_prefix(xs, n, j),
        JsonView::Object(ms) => lemma_members_refer_prefix(ms, n, j),
        _ => {},
    }
}

proof fn lemma_items_refer_prefix(xs: Seq<JsonView>, n: Seq<char>, j: int)
    ensures
        0 <= j <= xs.len() && items_refer(xs.subrange(0, j), n) ==> items_refer(xs, n),
    decreases xs.len() - j,
{
    if 0 <= j < xs.len() && items_refer(xs.subrange(0, j), n) {
        assert(xs.subrange(0, j + 1).subrange(0, j) =~= xs.subrange(0, j));
        lemma_items_refer_prefix(xs, n, j + 1);
    } else if j == xs.len() {
        assert(xs.subrange(0, j) =~= xs);
    }
}

proof fn lemma_members_refer_prefix(ms: Seq<(Seq<char>, JsonView)>, n: Seq<char>, j: int)
    ensures
        0 <= j <= ms.len() && members_refer(ms.subrange(0, j), n) ==> members_refer(ms, n),
    decreases ms.len() - j,
{
    if 0 <= j < ms.len() && members_refer(ms.subrange(0, j), n) {
        assert(ms.subrange(0, j + 1).subrange(0, j) =~= ms.subrange(0, j));
        lemma_members_refer_prefix(ms, n, j + 1);
    } else if j == ms.len() {
        assert(ms.subrange(0, j) =~= ms);
    }
}

/// Returns the name of the definition that a local reference names.
fn local_ref_of(s: &str) -> (r: Option<&str>)
    ensures
        r matches Some(n) ==> local_ref(s@) == Some(n@),
        r is None ==> local_ref(s@) is None,
{
    let len = s.unicode_len();
    if len < 8 {
        return None;
    }
    let head = s.substring_char(0, 8);
    if str_eq(head, "#/$defs/") {
        Some(s.substring_char(8, len))
    } else {
        None
    }
}

/// Returns a value as it stands in the file of `module`: every local reference to a
/// definition of another module is rewritten into a reference to that module's file.
///
/// # Errors
///
/// Returns the message naming a referenced definition whose type no module declares.
#[verifier::loop_isolation(false)]
pub fn relocate(v: JsonValue, module: &str) -> (r: Result<JsonValue, String>)
    ensures
        match r {
            Ok(x) => json_view(x) == relocated(json_view(v), module@) && forall|n: Seq<char>|
                #[trigger] refers_to(json_view(v), n) ==> definition_module(n) is Some,
            Err(msg) => exists|n: Seq<char>|
                #[trigger] refers_to(json_view(v), n) && definition_module(n) is None && msg@ == unplaced_message(n),
        },
    decreases v,
{
    let ghost view = json_view(v);
    match v {
        JsonValue::Array(items) => {
            let ghost orig = items@;
            let ghost xs = json_views(orig);
            proof {
                lemma_json_views(orig);
            }
            let mut rest = items;
            let total = rest.len();
            let mut out: Vec<JsonValue> = Vec::new();
            let mut i: usize = 0;
            assert(view == JsonView::Array(xs));
            while rest.len() > 0
                invariant
                    i <= orig.len(),
                    total == orig.len(),
                    i + rest@.len() == orig.len(),
                    rest@ == orig.subrange(i as int, orig.len() as int),
                    json_views(out@) == relocated_items(xs.subrange(0, i as int), module@),
                    forall|n: Seq<char>| #[trigger] items_refer(xs.subrange(0, i as int), n) ==> definition_module(n) is Some,
                decreases rest.len(),
            {
                let x = rest.remove(0);
                assert(x == orig[i as int]);
                assert(decreases_to!(v => orig));
                assert(decreases_to!(orig => orig[i as int]));
                assert(xs.subrange(0, i + 1).subrange(0, i as int) =~= xs.subrange(0, i as int));
                assert(xs.subrange(0, i + 1)[i as int] == json_view(x));
                match relocate(x, module) {
                    Ok(y) => {
                        let ghost before = out@;
                        out.push(y);
                        proof {
                            assert(out@.subrange(0, out@.len() - 1) =~= before);
                            let pre = xs.subrange(0, i + 1);
                            assert forall|n: Seq<char>| #[trigger] items_refer(pre, n) implies definition_module(n) is Some by {
                                assert(items_refer(pre, n) == (items_refer(pre.subrange(0, i as int), n) || refers_to(pre[i as int], n)));
                            }
                        }
                    },
                    Err(e) => {
                        proof {
                            let n = choose|n: Seq<char>|
                                #[trigger] refers_to(json_view(x), n) && definition_module(n) is None && e@ == unplaced_message(n);
                            assert(items_refer(xs.subrange(0, i + 1), n));
                            lemma_refer_prefix(view, n, i + 1);
                        }
                        return Err(e);
                    },
                }
                i = i + 1;
            }
            proof {
                assert(xs.subrange(0, i as int) =~= xs);
                assert forall|n: Seq<char>| #[trigger] refers_to(view, n) implies definition_module(n) is Some by {
                    assert(items_refer(xs, n));
                    assert(items_refer(xs.subrange(0, i as int), n));
                }
            }
            Ok(JsonValue::Array(out))
        },
        JsonValue::Object(members) => {
            let ghost orig = members@;
            let ghost ms = members_view(orig);
            proof {
                lemma_members_view(orig);
            }
            let mut rest = members;
            let total = rest.len();
            let mut out: Vec<(String, JsonValue)> = Vec::new();
            let mut i: usize = 0;
            assert(view == JsonView::Object(ms));
            while rest.len() > 0
                invariant
                    i <= orig.len(),
                    total == orig.len(),
                    i + rest@.len() == orig.len(),
                    rest@ == orig.subrange(i as int, orig.len() as int),
                    members_view(out@) == relocated_members(ms.subrange(0, i as int), module@),
                    forall|n: Seq<char>| #[trigger] members_refer(ms.subrange(0, i as int), n) ==> definition_module(n) is Some,
                decreases rest.len(),
            {
                let (k, x) = rest.remove(0);
                assert((k, x) == orig[i as int]);
                assert(decreases_to!(v => orig));
                assert(decreases_to!(orig => orig[i as int]));
                assert(decreases_to!(orig[i as int] => orig[i as int].1));
                let ghost pre = ms.subrange(0, i + 1);
                assert(pre.subrange(0, i as int) =~= ms.subrange(0, i as int));
                assert(pre[i as int] == (k@, json_view(x)));
                let ghost before = out@;
                let ghost expected = if is_ref_member(k@, json_view(x)) {
                    relocated_ref(k@, json_view(x)->String_0, module@)
                } else {
                    (k@, relocated(json_view(x), module@))
                };
                assert(relocated_members(pre, module@) == relocated_members(ms.subrange(0, i as int), module@).push(expected));
                let is_ref = str_eq(k.as_str(), "$ref");
                match x {
                    JsonValue::String(text) if is_ref => {
                        assert(is_ref_member(k@, json_view(JsonValue::String(text))));
                        let member = match local_ref_of(text.as_str()) {
                            Some(name) => match definition_module_of(name) {
                                Some(owner) => {
                                    if str_eq(owner, module) {
                                        (k, JsonValue::String(text))
                                    } else {
                                        let mut t = owned(owner);
                                        t.append(".schema.json#/$defs/");
                                        t.append(name);
                                        proof {
                                            reveal_strlit(".schema.json#/$defs/");
                                        }
                                        (k, JsonValue::String(t))
                                    }
                                },
                                None => {
                                    let msg = unplaced(name);
                                    proof {
                                        assert(members_refer(pre, name@));
                                        lemma_refer_prefix(view, name@, i + 1);
                                    }
                                    return Err(msg);
                                },
                            },
                            None => (k, JsonValue::String(text)),
                        };
                        out.push(member);
                    },
                    x => {
                        assert(!is_ref_member(k@, json_view(x)));
                        match relocate(x, module) {
                            Ok(y) => {
                                out.push((k, y));
                            },
                            Err(e) => {
                                proof {
                                    let n = choose|n: Seq<char>|
                                        #[trigger] refers_to(json_view(x), n) && definition_module(n) is None && e@ == unplaced_message(n);
                                    assert(members_refer(pre, n));
                                    lemma_refer_prefix(view, n, i + 1);
                                }
                                return Err(e);
                            },
                        }
                    },
                }
                proof {
                    lemma_members_view(out@);
                    lemma_members_view(before);
                    assert(members_view(out@)[before.len() as int] == expected);
                    assert(members_view(out@) =~= members_view(before).push(expected));
                    assert forall|n: Seq<char>| #[trigger] members_refer(pre, n) implies definition_module(n) is Some by {
                        if !members_refer(ms.subrange(0, i as int), n) {
                            assert(members_refer(pre, n) == (members_refer(pre.subrange(0, i as int), n) || if is_ref_member(pre[i as int].0, pre[i as int].1) {
                                local_ref(pre[i as int].1->String_0) == Some(n)
                            } else {
                                refers_to(pre[i as int].1, n)
                            }));
                        }
                    }
                }
                i = i + 1;
            }
            proof {
                assert(ms.subrange(0, i as int) =~= ms);
                assert forall|n: Seq<char>| #[trigger] refers_to(view, n) implies definition_module(n) is Some by {
                    assert(members_refer(ms, n));
                    assert(members_refer(ms.subrange(0, i as int), n));
                }
            }
            Ok(JsonValue::Object(out))
        },
        other => Ok(other),
    }
}


/// The value of the first member with the key, or `None`.
pub open spec fn first_value(ms: Seq<(Seq<char>, JsonView)>, k: Seq<char>) -> Option<JsonView>
    decreases ms.len(),
{
    if ms.len() == 0 {
        None
    } else {
        match first_value(ms.subrange(0, ms.len() - 1), k) {
            Some(x) => Some(x),
            None => if ms[ms.len() - 1].0 == k {
                Some(ms[ms.len() - 1].1)
            } else {
                None
            },
        }
    }
}

/// The members without those of the key.
pub open spec fn without_key(ms: Seq<(Seq<char>, JsonView)>, k: Seq<char>) -> Seq<(Seq<char>, JsonView)>
    decreases ms.len(),
{
    if ms.len() == 0 {
        seq![]
    } else {
        let rest = without_key(ms.subrange(0, ms.len() - 1), k);
        if ms[ms.len() - 1].0 == k {
            rest
        } else {
            rest.push(ms[ms.len() - 1])
        }
    }
}

/// The definitions of a root document: the members of its `$defs` object.
pub open spec fn root_definitions(ms: Seq<(Seq<char>, JsonView)>) -> Seq<(Seq<char>, JsonView)> {
    match first_value(ms, "$defs"@) {
        Some(JsonView::Object(d)) => d,
        _ => seq![],
    }
}

/// The definitions of a list as a map, where a later definition of a name replaces an
/// earlier one.
pub open spec fn definitions_map(ds: Seq<(Seq<char>, JsonView)>) -> Map<Seq<char>, JsonView>
    decreases ds.len(),
{
    if ds.len() == 0 {
        Map::empty()
    } else {
        definitions_map(ds.subrange(0, ds.len() - 1)).insert(ds[ds.len() - 1].0, ds[ds.len() - 1].1)
    }
}

/// Whether no two members share a key.
pub open spec fn keys_distinct(ms: Seq<(Seq<char>, JsonView)>) -> bool {
    forall|i: int, j: int| 0 <= i < j < ms.len() ==> (#[trigger] ms[i]).0 != (#[trigger] ms[j]).0
}

/// Takes the definitions out of the members of a root document, leaving the members
/// that describe its own type.
fn split_root(members: Vec<(String, JsonValue)>) -> (r: (Vec<(String, JsonValue)>, Vec<(String, JsonValue)>))
    ensures
        members_view(r.0@) == without_key(members_view(members@), "$defs"@),
        members_view(r.1@) == root_definitions(members_view(members@)),
{
    let ghost orig = members@;
    let ghost ms = members_view(orig);
    proof {
        lemma_members_view(orig);
    }
    let mut rest = members;
    let total = rest.len();
    let mut kept: Vec<(String, JsonValue)> = Vec::new();
    let mut found: Option<JsonValue> = None;
    let mut i: usize = 0;
    while rest.len() > 0
        invariant
            total == orig.len(),
            i + rest@.len() == orig.len(),
            rest@ == orig.subrange(i as int, orig.len() as int),
            ms == members_view(orig),
            ms.len() == orig.len(),
            forall|k: int| 0 <= k < orig.len() ==> #[trigger] ms[k] == (orig[k].0@, json_view(orig[k].1)),
            members_view(kept@) == without_key(ms.subrange(0, i as int), "$defs"@),
            match found {
                Some(x) => first_value(ms.subrange(0, i as int), "$defs"@) == Some(json_view(x)),
                None => first_value(ms.subrange(0, i as int), "$defs"@) is None,
            },
        decreases rest.len(),
    {
        let (k, x) = rest.remove(0);
        assert((k, x) == orig[i as int]);
        let ghost pre = ms.subrange(0, i + 1);
        assert(pre.subrange(0, i as int) =~= ms.subrange(0, i as int));
        assert(pre[i as int] == (k@, json_view(x)));
        let ghost before = kept@;
        if str_eq(k.as_str(), "$defs") {
            if found.is_none() {
                found = Some(x);
            }
        } else {
            kept.push((k, x));
            proof {
                lemma_members_view(kept@);
                lemma_members_view(before);
                assert(members_view(kept@) =~= members_view(before).push((k@, json_view(x))));
            }
        }
        i = i + 1;
    }
    assert(ms.subrange(0, i as int) =~= ms);
    let defs = match found {
        Some(JsonValue::Object(d)) => d,
        _ => Vec::new(),
    };
    (kept, defs)
}


/// The names that the map of a list holds are its keys, and where no two members share
/// a key, it maps each key to the member's value.
proof fn lemma_definitions_map(ds: Seq<(Seq<char>, JsonView)>)
    ensures
        forall|n: Seq<char>| #[trigger] definitions_map(ds).contains_key(n) <==> exists|j: int| 0 <= j < ds.len() && (#[trigger] ds[j]).0 == n,
        keys_distinct(ds) ==> forall|j: int| 0 <= j < ds.len() ==> #[trigger] definitions_map(ds)[ds[j].0] == ds[j].1,
    decreases ds.len(),
{
    if ds.len() > 0 {
        let init = ds.subrange(0, ds.len() - 1);
        lemma_definitions_map(init);
        assert(definitions_map(ds) == definitions_map(init).insert(ds[ds.len() - 1].0, ds[ds.len() - 1].1));
        assert forall|n: Seq<char>| #[trigger] definitions_map(ds).contains_key(n) <==> exists|j: int| 0 <= j < ds.len() && (#[trigger] ds[j]).0 == n by {
            if definitions_map(ds).contains_key(n) && n != ds[ds.len() - 1].0 {
                assert(definitions_map(init).contains_key(n));
                let j = choose|j: int| 0 <= j < init.len() && (#[trigger] init[j]).0 == n;
                assert(ds[j] == init[j]);
            }
            if n == ds[ds.len() - 1].0 {
                assert(ds[ds.len() - 1].0 == n);
            }
            if exists|j: int| 0 <= j < ds.len() && (#[trigger] ds[j]).0 == n {
                let j = choose|j: int| 0 <= j < ds.len() && (#[trigger] ds[j]).0 == n;
                if j < ds.len() - 1 {
                    assert(init[j] == ds[j]);
                    assert(definitions_map(init).contains_key(n));
                }
            }
        }
        if keys_distinct(ds) {
            assert(keys_distinct(init)) by {
                assert forall|i: int, j: int| 0 <= i < j < init.len() implies (#[trigger] init[i]).0 != (#[trigger] init[j]).0 by {
                    assert(init[i] == ds[i] && init[j] == ds[j]);
                }
            }
            assert forall|j: int| 0 <= j < ds.len() implies #[trigger] definitions_map(ds)[ds[j].0] == ds[j].1 by {
                if j < ds.len() - 1 {
                    assert(init[j] == ds[j]);
                    assert(ds[j].0 != ds[ds.len() - 1].0);
                }
            }
        }
    }
}

/// Returns the position of the member with the key, or `None`.
fn find_key(v: &Vec<(String, JsonValue)>, k: &str) -> (r: Option<usize>)
    ensures
        r matches Some(j) ==> j < v@.len() && v@[j as int].0@ == k@,
        r is None ==> forall|i: int| 0 <= i < v@.len() ==> (#[trigger] v@[i]).0@ != k@,
{
    let mut i: usize = 0;
    while i < v.len()
        invariant
            i <= v@.len(),
            forall|j: int| 0 <= j < i ==> (#[trigger] v@[j]).0@ != k@,
        decreases v.len() - i,
    {
        if str_eq(v[i].0.as_str(), k) {
            return Some(i);
        }
        i = i + 1;
    }
    None
}

/// Adds definitions to a list whose keys are distinct, a later definition of a name
/// replacing the earlier one in its place.
fn merge_definitions(out: &mut Vec<(String, JsonValue)>, defs: Vec<(String, JsonValue)>)
    requires
        keys_distinct(members_view(old(out)@)),
    ensures
        keys_distinct(members_view(final(out)@)),
        definitions_map(members_view(final(out)@)) == definitions_map(members_view(old(out)@) + members_view(defs@)),
{
    let ghost start = members_view(out@);
    let ghost orig = defs@;
    let ghost ds = members_view(orig);
    proof {
        lemma_members_view(orig);
    }
    let mut rest = defs;
    let total = rest.len();
    let mut i: usize = 0;
    assert(start + ds.subrange(0, 0) =~= start);
    while rest.len() > 0
        invariant
            total == orig.len(),
            i + rest@.len() == orig.len(),
            rest@ == orig.subrange(i as int, orig.len() as int),
            ds == members_view(orig),
            ds.len() == orig.len(),
            forall|k: int| 0 <= k < orig.len() ==> #[trigger] ds[k] == (orig[k].0@, json_view(orig[k].1)),
            keys_distinct(members_view(out@)),
            definitions_map(members_view(out@)) == definitions_map(start + ds.subrange(0, i as int)),
        decreases rest.len(),
    {
        let (k, x) = rest.remove(0);
        assert((k, x) == orig[i as int]);
        let ghost all = start + ds.subrange(0, i + 1);
        assert(all.subrange(0, all.len() - 1) =~= start + ds.subrange(0, i as int));
        assert(all[all.len() - 1] == (k@, json_view(x)));
        let ghost before = members_view(out@);
        let ghost old_out = out@;
        proof {
            lemma_members_view(old_out);
            lemma_definitions_map(before);
        }
        match find_key(out, k.as_str()) {
            Some(j) => {
                out.set(j, (k, x));
                proof {
                    let after = members_view(out@);
                    lemma_members_view(out@);
                    assert(after =~= before.update(j as int, (k@, json_view(x))));
                    assert(keys_distinct(after)) by {
                        assert forall|a: int, b: int| 0 <= a < b < after.len() implies (#[trigger] after[a]).0 != (#[trigger] after[b]).0 by {
                            assert(after[a].0 == before[a].0 && after[b].0 == before[b].0);
                        }
                    }
                    lemma_definitions_map(after);
                    assert(definitions_map(after) =~= definitions_map(before).insert(k@, json_view(x))) by {
                        assert forall|n: Seq<char>| #[trigger] definitions_map(after).contains_key(n) <==> definitions_map(before).insert(k@, json_view(x)).contains_key(n) by {
                            if definitions_map(after).contains_key(n) {
                                let a = choose|a: int| 0 <= a < after.len() && (#[trigger] after[a]).0 == n;
                                assert(before[a].0 == n);
                            }
                            if definitions_map(before).contains_key(n) {
                                let a = choose|a: int| 0 <= a < before.len() && (#[trigger] before[a]).0 == n;
                                assert(after[a].0 == n);
                            }
                            assert(before[j as int].0 == k@);
                        }
                        assert forall|n: Seq<char>| #[trigger] definitions_map(after).contains_key(n) implies definitions_map(after)[n] == definitions_map(before).insert(k@, json_view(x))[n] by {
                            let a = choose|a: int| 0 <= a < after.len() && (#[trigger] after[a]).0 == n;
                            if a != j {
                                assert(after[a] == before[a]);
                                assert(before[a].0 != before[j as int].0);
                            }
                        }
                    }
                }
            },
            None => {
                out.push((k, x));
                proof {
                    let after = members_view(out@);
                    lemma_members_view(out@);
                    assert(after =~= before.push((k@, json_view(x))));
                    assert(keys_distinct(after)) by {
                        assert forall|a: int, b: int| 0 <= a < b < after.len() implies (#[trigger] after[a]).0 != (#[trigger] after[b]).0 by {
                            if b == after.len() - 1 {
                                assert(old_out[a].0@ != k@);
                            }
                        }
                    }
                    assert(after.subrange(0, after.len() - 1) =~= before);
                }
            },
        }
        i = i + 1;
    }
    assert(ds.subrange(0, i as int) =~= ds);
}


/// Whether a name has no module although the files need one for it: the name of a
/// definition, or a name that a definition, or what remains of a root once its
/// definitions are taken out, refers to.
pub open spec fn unplaced_name(
    d: Map<Seq<char>, JsonView>,
    figure: Seq<(Seq<char>, JsonView)>,
    edit: Seq<(Seq<char>, JsonView)>,
    n: Seq<char>,
) -> bool {
    &&& definition_module(n) is None
    &&& {
        ||| d.contains_key(n)
        ||| exists|x: Seq<char>| d.contains_key(x) && #[trigger] refers_to(d[x], n)
        ||| members_refer(without_key(figure, "$defs"@), n)
        ||| members_refer(without_key(edit, "$defs"@), n)
    }
}

/// A definition placed in a module: its name, the module, and its value as it stands in
/// the module's file.
pub open spec fn placed_view(p: (String, String, JsonValue)) -> (Seq<char>, Seq<char>, JsonView) {
    (p.0@, p.1@, json_view(p.2))
}

/// Whether a definition stands as it should in the file of its module.
pub open spec fn placed_well(d: Map<Seq<char>, JsonView>, p: (Seq<char>, Seq<char>, JsonView)) -> bool {
    d.contains_key(p.0) && definition_module(p.0) == Some(p.1) && p.2 == relocated(d[p.0], p.1)
}

/// The modules of the files: the figure's, the transaction's, and that of every
/// definition.
pub open spec fn schema_modules(d: Map<Seq<char>, JsonView>) -> Set<Seq<char>> {
    set!["edit"@, "figure"@].union(Set::new(|m: Seq<char>| exists|n: Seq<char>| d.contains_key(n) && definition_module(n) == Some(m)))
}

/// Places each definition of a list whose keys are distinct in the module that declares
/// its type, with the references of its value relocated for that module's file, and
/// returns the placed definitions in the order of the list together with the modules
/// of the files in ascending order.
///
/// # Errors
///
/// Returns the message naming a definition, or a name that a definition refers to,
/// whose type no module declares.
fn place_definitions(merged: Vec<(String, JsonValue)>, Ghost(d): Ghost<Map<Seq<char>, JsonView>>) -> (r: Result<(Vec<(String, String, JsonValue)>, Vec<String>), String>)
    requires
        keys_distinct(members_view(merged@)),
        definitions_map(members_view(merged@)) == d,
    ensures
        r matches Ok(p) ==> forall|n: Seq<char>| d.contains_key(n) ==> definition_module(n) is Some,
        r matches Ok(p) ==> forall|n: Seq<char>, x: Seq<char>| d.contains_key(x) && #[trigger] refers_to(d[x], n) ==> definition_module(n) is Some,
        r matches Ok(p) ==> forall|j: int| 0 <= j < p.0@.len() ==> placed_well(d, #[trigger] placed_view(p.0@[j])),
        r matches Ok(p) ==> forall|i: int, j: int| 0 <= i < j < p.0@.len() ==> (#[trigger] p.0@[i]).0@ != (#[trigger] p.0@[j]).0@,
        r matches Ok(p) ==> p.0@.len() == merged@.len() && forall|j: int| 0 <= j < p.0@.len() ==> (#[trigger] p.0@[j]).0@ == merged@[j].0@,
        r matches Ok(p) ==> strictly_sorted(string_views(p.1@)),
        r matches Ok(p) ==> string_views(p.1@).to_set() == schema_modules(d),
        r matches Err(msg) ==> exists|n: Seq<char>|
            definition_module(n) is None && (d.contains_key(n) || exists|x: Seq<char>| d.contains_key(x) && #[trigger] refers_to(d[x], n))
                && msg@ == unplaced_message(n),
{
    let ghost orig = merged@;
    let ghost ms = members_view(orig);
    proof {
        lemma_members_view(orig);
        lemma_definitions_map(ms);
    }
    let mut rest = merged;
    let total = rest.len();
    let mut placed: Vec<(String, String, JsonValue)> = Vec::new();
    let mut mods: Vec<String> = Vec::new();
    mods.push(owned("edit"));
    mods.push(owned("figure"));
    proof {
        reveal_strlit("edit");
        reveal_strlit("figure");
        let _ = text_less_edit_figure();
        assert(string_views(mods@) =~= seq!["edit"@, "figure"@]);
        assert(seq!["edit"@, "figure"@].to_set() =~= set!["edit"@, "figure"@]) by {
            assert(seq!["edit"@, "figure"@][0] == "edit"@);
            assert(seq!["edit"@, "figure"@][1] == "figure"@);
        }
    }
    let mut i: usize = 0;
    while rest.len() > 0
        invariant
            total == orig.len(),
            i + rest@.len() == orig.len(),
            rest@ == orig.subrange(i as int, orig.len() as int),
            ms == members_view(orig),
            ms.len() == orig.len(),
            forall|k: int| 0 <= k < orig.len() ==> #[trigger] ms[k] == (orig[k].0@, json_view(orig[k].1)),
            keys_distinct(ms),
            d == definitions_map(ms),
            forall|j: int| 0 <= j < ms.len() ==> #[trigger] d[ms[j].0] == ms[j].1,
            forall|n: Seq<char>| #[trigger] d.contains_key(n) <==> exists|j: int| 0 <= j < ms.len() && (#[trigger] ms[j]).0 == n,
            placed@.len() == i,
            forall|j: int| 0 <= j < i ==> (#[trigger] placed@[j]).0@ == ms[j].0,
            forall|j: int| 0 <= j < i ==> placed_well(d, #[trigger] placed_view(placed@[j])),
            forall|j: int, n: Seq<char>| 0 <= j < i && #[trigger] refers_to(ms[j].1, n) ==> definition_module(n) is Some,
            strictly_sorted(string_views(mods@)),
            string_views(mods@).to_set() == set!["edit"@, "figure"@].union(
                Set::new(|m: Seq<char>| exists|j: int| 0 <= j < i && definition_module(#[trigger] ms[j].0) == Some(m)),
            ),
        decreases rest.len(),
    {
        let (name, value) = rest.remove(0);
        assert((name, value) == orig[i as int]);
        assert(ms[i as int] == (name@, json_view(value)));
        assert(d.contains_key(name@));
        let module = match definition_module_of(name.as_str()) {
            Some(m) => m,
            None => {
                return Err(unplaced(name.as_str()));
            },
        };
        let ghost v = json_view(value);
        let relocated_value = match relocate(value, module) {
            Ok(y) => y,
            Err(msg) => {
                proof {
                    let n = choose|n: Seq<char>| #[trigger] refers_to(v, n) && definition_module(n) is None && msg@ == unplaced_message(n);
                    assert(d[name@] == v);
                    assert(d.contains_key(name@) && refers_to(d[name@], n));
                }
                return Err(msg);
            },
        };
        let ghost before_mods = string_views(mods@).to_set();
        insert_sorted(&mut mods, owned(module));
        placed.push((name, owned(module), relocated_value));
        proof {
            assert(placed_view(placed@[i as int]) == (ms[i as int].0, module@, relocated(v, module@)));
            let s_old = Set::new(|m: Seq<char>| exists|j: int| 0 <= j < i && definition_module(#[trigger] ms[j].0) == Some(m));
            let s_new = Set::new(|m: Seq<char>| exists|j: int| 0 <= j < i + 1 && definition_module(#[trigger] ms[j].0) == Some(m));
            assert(s_new =~= s_old.insert(module@)) by {
                assert(definition_module(ms[i as int].0) == Some(module@));
            }
            assert(set!["edit"@, "figure"@].union(s_new) =~= set!["edit"@, "figure"@].union(s_old).insert(module@));
        }
        i = i + 1;
    }
    proof {
        assert forall|n: Seq<char>| d.contains_key(n) implies definition_module(n) is Some by {
            let j = choose|j: int| 0 <= j < ms.len() && (#[trigger] ms[j]).0 == n;
            assert(placed_well(d, placed_view(placed@[j])));
        }
        assert forall|n: Seq<char>, x: Seq<char>| d.contains_key(x) && #[trigger] refers_to(d[x], n) implies definition_module(n) is Some by {
            let j = choose|j: int| 0 <= j < ms.len() && (#[trigger] ms[j]).0 == x;
            assert(d[ms[j].0] == ms[j].1);
        }
        assert forall|a: int, b: int| 0 <= a < b < placed@.len() implies (#[trigger] placed@[a]).0@ != (#[trigger] placed@[b]).0@ by {
            assert(ms[a].0 != ms[b].0);
        }
        assert forall|n: Seq<char>| d.contains_key(n) implies exists|j: int| 0 <= j < placed@.len() && (#[trigger] placed@[j]).0@ == n by {
            let j = choose|j: int| 0 <= j < ms.len() && (#[trigger] ms[j]).0 == n;
            assert(placed@[j].0@ == ms[j].0);
            assert(placed@[j].0@ == n);
        }
        let s = Set::new(|m: Seq<char>| exists|j: int| 0 <= j < i && definition_module(#[trigger] ms[j].0) == Some(m));
        let t = Set::new(|m: Seq<char>| exists|n: Seq<char>| d.contains_key(n) && definition_module(n) == Some(m));
        assert(s =~= t) by {
            assert forall|m: Seq<char>| s.contains(m) implies t.contains(m) by {
                let j = choose|j: int| 0 <= j < i && definition_module(#[trigger] ms[j].0) == Some(m);
                assert(d.contains_key(ms[j].0));
            }
            assert forall|m: Seq<char>| t.contains(m) implies s.contains(m) by {
                let n = choose|n: Seq<char>| d.contains_key(n) && definition_module(n) == Some(m);
                let j = choose|j: int| 0 <= j < ms.len() && (#[trigger] ms[j]).0 == n;
                assert(definition_module(ms[j].0) == Some(m));
            }
        }
        assert(string_views(mods@).to_set() == schema_modules(d));
        assert forall|j: int| 0 <= j < placed@.len() implies placed_well(d, #[trigger] placed_view(placed@[j])) by {}
    }
    Ok((placed, mods))
}

proof fn text_less_edit_figure() -> (r: bool)
    ensures
        r,
        crate::textfmt::text_less("edit"@, "figure"@),
{
    reveal_strlit("edit");
    reveal_strlit("figure");
    assert("edit"@[0] == 'e' && "figure"@[0] == 'f');
    true
}


pub open spec fn placed_views(ps: Seq<(String, String, JsonValue)>) -> Seq<(Seq<char>, Seq<char>, JsonView)> {
    ps.map_values(|p: (String, String, JsonValue)| placed_view(p))
}

/// The placed definitions of a module, in order: each name with its value.
pub open spec fn defs_for(ps: Seq<(Seq<char>, Seq<char>, JsonView)>, m: Seq<char>) -> Seq<(Seq<char>, JsonView)>
    decreases ps.len(),
{
    if ps.len() == 0 {
        seq![]
    } else {
        let earlier = defs_for(ps.subrange(0, ps.len() - 1), m);
        let p = ps[ps.len() - 1];
        if p.1 == m {
            earlier.push((p.0, p.2))
        } else {
            earlier
        }
    }
}

/// Whether definitions stand exactly as they should in the file of module `m`: no name
/// twice, each a definition of a type that `m` declares with its references relocated
/// for `m`'s file, and every such definition present.
pub open spec fn placed_in(defs: Seq<(Seq<char>, JsonView)>, d: Map<Seq<char>, JsonView>, m: Seq<char>) -> bool {
    &&& keys_distinct(defs)
    &&& forall|i: int| 0 <= i < defs.len() ==> {
        &&& d.contains_key((#[trigger] defs[i]).0)
        &&& definition_module(defs[i].0) == Some(m)
        &&& defs[i].1 == relocated(d[defs[i].0], m)
    }
    &&& forall|n: Seq<char>| d.contains_key(n) && definition_module(n) == Some(m) ==> exists|i: int|
        0 <= i < defs.len() && (#[trigger] defs[i]).0 == n
}

/// Whether an entry stands as it should in the file of module `m`.
pub open spec fn placed_entry(d: Map<Seq<char>, JsonView>, m: Seq<char>, e: (Seq<char>, JsonView)) -> bool {
    d.contains_key(e.0) && definition_module(e.0) == Some(m) && e.1 == relocated(d[e.0], m)
}

/// Whether an entry is the placed definition at `j`, of module `m`.
pub open spec fn from_placed(ps: Seq<(Seq<char>, Seq<char>, JsonView)>, j: int, m: Seq<char>, e: (Seq<char>, JsonView)) -> bool {
    ps[j].1 == m && e == (ps[j].0, ps[j].2)
}

/// Each definition of a module comes from a placed definition of that module, and every
/// placed definition of the module is there, each name at most once when no two placed
/// definitions share a name.
proof fn lemma_defs_for(ps: Seq<(Seq<char>, Seq<char>, JsonView)>, m: Seq<char>, d: Map<Seq<char>, JsonView>)
    ensures
        (forall|j: int| 0 <= j < ps.len() ==> placed_well(d, #[trigger] ps[j])) ==> forall|e: int|
            0 <= e < defs_for(ps, m).len() ==> placed_entry(d, m, #[trigger] defs_for(ps, m)[e]),
        forall|j: int| 0 <= j < ps.len() && (#[trigger] ps[j]).1 == m ==> exists|e: int|
            0 <= e < defs_for(ps, m).len() && from_placed(ps, j, m, defs_for(ps, m)[e]),
        (forall|a: int, b: int| 0 <= a < b < ps.len() ==> (#[trigger] ps[a]).0 != (#[trigger] ps[b]).0) ==> keys_distinct(defs_for(ps, m)),
    decreases ps.len(),
{
    if ps.len() == 0 {
        assert(defs_for(ps, m).len() == 0);
    }
    if ps.len() > 0 {
        let init = ps.subrange(0, ps.len() - 1);
        let last = ps[ps.len() - 1];
        lemma_defs_for(init, m, d);
        let r = defs_for(ps, m);
        let q = defs_for(init, m);
        assert(r == if last.1 == m { q.push((last.0, last.2)) } else { q });
        if forall|j: int| 0 <= j < ps.len() ==> placed_well(d, #[trigger] ps[j]) {
            assert forall|j: int| 0 <= j < init.len() implies placed_well(d, #[trigger] init[j]) by {
                assert(init[j] == ps[j]);
            }
            assert(placed_well(d, ps[ps.len() - 1]));
            assert forall|e: int| 0 <= e < r.len() implies placed_entry(d, m, #[trigger] r[e]) by {
                if e < q.len() {
                    assert(r[e] == q[e]);
                }
            }
        }
        assert forall|j: int| 0 <= j < ps.len() && (#[trigger] ps[j]).1 == m implies exists|e: int|
            0 <= e < r.len() && from_placed(ps, j, m, r[e]) by {
            if j < ps.len() - 1 {
                assert(init[j] == ps[j]);
                let e = choose|e: int| 0 <= e < q.len() && from_placed(init, j, m, q[e]);
                assert(r[e] == q[e]);
                assert(from_placed(ps, j, m, r[e]));
            } else {
                assert(r[q.len() as int] == (last.0, last.2));
                assert(from_placed(ps, j, m, r[q.len() as int]));
            }
        }
        if forall|a: int, b: int| 0 <= a < b < ps.len() ==> (#[trigger] ps[a]).0 != (#[trigger] ps[b]).0 {
            assert forall|a: int, b: int| 0 <= a < b < init.len() implies (#[trigger] init[a]).0 != (#[trigger] init[b]).0 by {
                assert(init[a] == ps[a] && init[b] == ps[b]);
            }
            assert forall|a: int, b: int| 0 <= a < b < r.len() implies (#[trigger] r[a]).0 != (#[trigger] r[b]).0 by {
                if b == q.len() && last.1 == m {
                    assert(r[a] == q[a]);
                    assert forall|j: int| 0 <= j < init.len() implies (#[trigger] init[j]).0 != last.0 by {
                        assert(init[j] == ps[j]);
                        assert(ps[ps.len() - 1] == last);
                    }
                    lemma_defs_names(init, m, last.0);
                    assert(q[a].0 != last.0);
                } else {
                    assert(r[a] == q[a] && r[b] == q[b]);
                }
            }
        }
    }
}

/// A name that no placed definition has is the name of no definition of a module.
proof fn lemma_defs_names(ps: Seq<(Seq<char>, Seq<char>, JsonView)>, m: Seq<char>, n: Seq<char>)
    requires
        forall|j: int| 0 <= j < ps.len() ==> (#[trigger] ps[j]).0 != n,
    ensures
        forall|e: int| 0 <= e < defs_for(ps, m).len() ==> (#[trigger] defs_for(ps, m)[e]).0 != n,
    decreases ps.len(),
{
    if ps.len() > 0 {
        let init = ps.subrange(0, ps.len() - 1);
        assert forall|j: int| 0 <= j < init.len() implies (#[trigger] init[j]).0 != n by {
            assert(init[j] == ps[j]);
        }
        lemma_defs_names(init, m, n);
        assert(ps[ps.len() - 1].0 != n);
        let q = defs_for(init, m);
        let last = ps[ps.len() - 1];
        assert(defs_for(ps, m) == if last.1 == m { q.push((last.0, last.2)) } else { q });
        assert forall|e: int| 0 <= e < defs_for(ps, m).len() implies (#[trigger] defs_for(ps, m)[e]).0 != n by {
            if e < q.len() {
                assert(defs_for(ps, m)[e] == q[e]);
            }
        }
    }
}

/// Returns copies of the placed definitions of a module, in order.
fn defs_of_module(placed: &Vec<(String, String, JsonValue)>, m: &str) -> (r: Vec<(String, JsonValue)>)
    ensures
        members_view(r@) == defs_for(placed_views(placed@), m@),
{
    let ghost ps = placed_views(placed@);
    let mut r: Vec<(String, JsonValue)> = Vec::new();
    let mut i: usize = 0;
    while i < placed.len()
        invariant
            i <= placed@.len(),
            ps == placed_views(placed@),
            members_view(r@) == defs_for(ps.subrange(0, i as int), m@),
        decreases placed.len() - i,
    {
        let ghost before = r@;
        assert(ps.subrange(0, i + 1).subrange(0, i as int) =~= ps.subrange(0, i as int));
        assert(ps.subrange(0, i + 1)[i as int] == placed_view(placed@[i as int]));
        if str_eq(placed[i].1.as_str(), m) {
            let x = copy_json(&placed[i].2);
            r.push((owned(placed[i].0.as_str()), x));
            proof {
                lemma_members_view(r@);
                lemma_members_view(before);
                assert(members_view(r@) =~= members_view(before).push((placed@[i as int].0@, json_view(placed@[i as int].2))));
            }
        }
        i = i + 1;
    }
    assert(ps.subrange(0, i as int) =~= ps);
    r
}


/// Maps of lists that agree give maps that agree once the same definitions follow.
proof fn lemma_definitions_map_append(a1: Seq<(Seq<char>, JsonView)>, a2: Seq<(Seq<char>, JsonView)>, b: Seq<(Seq<char>, JsonView)>)
    requires
        definitions_map(a1) == definitions_map(a2),
    ensures
        definitions_map(a1 + b) == definitions_map(a2 + b),
    decreases b.len(),
{
    if b.len() == 0 {
        assert(a1 + b =~= a1);
        assert(a2 + b =~= a2);
    } else {
        let bi = b.subrange(0, b.len() - 1);
        lemma_definitions_map_append(a1, a2, bi);
        assert((a1 + b).subrange(0, (a1 + b).len() - 1) =~= a1 + bi);
        assert((a2 + b).subrange(0, (a2 + b).len() - 1) =~= a2 + bi);
    }
}

/// Returns a copy of the value of the first member with the key, or `None`.
fn first_copy(members: &Vec<(String, JsonValue)>, k: &str) -> (r: Option<JsonValue>)
    ensures
        match first_value(members_view(members@), k@) {
            Some(x) => r matches Some(y) && json_view(y) == x,
            None => r is None,
        },
{
    let ghost ms = members_view(members@);
    proof {
        lemma_members_view(members@);
    }
    let mut i: usize = 0;
    while i < members.len()
        invariant
            i <= members@.len(),
            ms == members_view(members@),
            ms.len() == members@.len(),
            forall|j: int| 0 <= j < members@.len() ==> #[trigger] ms[j] == (members@[j].0@, json_view(members@[j].1)),
            first_value(ms.subrange(0, i as int), k@) is None,
        decreases members.len() - i,
    {
        assert(ms.subrange(0, i + 1).subrange(0, i as int) =~= ms.subrange(0, i as int));
        if str_eq(members[i].0.as_str(), k) {
            proof {
                lemma_first_value_prefix(ms, k@, i + 1);
            }
            return Some(copy_json(&members[i].1));
        }
        i = i + 1;
    }
    assert(ms.subrange(0, i as int) =~= ms);
    None
}

/// Once a prefix holds the key, the first value is the prefix's.
proof fn lemma_first_value_prefix(ms: Seq<(Seq<char>, JsonView)>, k: Seq<char>, j: int)
    requires
        0 <= j <= ms.len(),
        first_value(ms.subrange(0, j), k) is Some,
    ensures
        first_value(ms, k) == first_value(ms.subrange(0, j), k),
    decreases ms.len() - j,
{
    if j < ms.len() {
        assert(ms.subrange(0, j + 1).subrange(0, j) =~= ms.subrange(0, j));
        lemma_first_value_prefix(ms, k, j + 1);
    } else {
        assert(ms.subrange(0, j) =~= ms);
    }
}

/// The members of a root document.
pub open spec fn root_members(v: JsonValue) -> Seq<(Seq<char>, JsonView)> {
    match v {
        JsonValue::Object(ms) => members_view(ms@),
        _ => seq![],
    }
}

/// The definitions of the schemas of a figure and of a transaction, where a definition
/// of the transaction's schema replaces one of the same name in the figure's.
pub open spec fn all_definitions(figure: Seq<(Seq<char>, JsonView)>, edit: Seq<(Seq<char>, JsonView)>) -> Map<Seq<char>, JsonView> {
    definitions_map(root_definitions(figure) + root_definitions(edit))
}

/// The name of the file of a module.
pub open spec fn file_name(m: Seq<char>) -> Seq<char> {
    m + ".schema.json"@
}

/// The `$schema` member of the figure's schema, which every file that describes no
/// document of its own repeats.
pub open spec fn dialect(figure: Seq<(Seq<char>, JsonView)>) -> Seq<(Seq<char>, JsonView)> {
    match first_value(figure, "$schema"@) {
        Some(x) => seq![("$schema"@, x)],
        None => seq![],
    }
}

/// The document of the file of module `m`, holding the definitions `defs`: the figure's
/// and the transaction's schemas keep what describes their own type, with their
/// references relocated; every other file has the figure's `$schema` and a title.
pub open spec fn file_document(
    m: Seq<char>,
    figure: Seq<(Seq<char>, JsonView)>,
    edit: Seq<(Seq<char>, JsonView)>,
    defs: Seq<(Seq<char>, JsonView)>,
) -> JsonView {
    if m == "figure"@ {
        JsonView::Object(relocated_members(without_key(figure, "$defs"@), m).push(("$defs"@, JsonView::Object(defs))))
    } else if m == "edit"@ {
        JsonView::Object(relocated_members(without_key(edit, "$defs"@), m).push(("$defs"@, JsonView::Object(defs))))
    } else {
        JsonView::Object(dialect(figure) + seq![
            ("title"@, JsonView::String("The definitions of the "@ + m + " module"@)),
            ("$defs"@, JsonView::Object(defs)),
        ])
    }
}

/// The definitions that a document holds: its last member, `$defs`.
pub open spec fn document_definitions(doc: JsonView) -> Seq<(Seq<char>, JsonView)> {
    match doc {
        JsonView::Object(ms) => if ms.len() > 0 {
            match ms[ms.len() - 1].1 {
                JsonView::Object(defs) => defs,
                _ => seq![],
            }
        } else {
            seq![]
        },
        _ => seq![],
    }
}

/// Whether a file is that of module `m`: its name, and a document whose definitions
/// stand exactly as they should in `m`'s file.
pub open spec fn file_of_module(
    file: (String, JsonValue),
    m: Seq<char>,
    d: Map<Seq<char>, JsonView>,
    figure: Seq<(Seq<char>, JsonView)>,
    edit: Seq<(Seq<char>, JsonView)>,
) -> bool {
    let defs = document_definitions(json_view(file.1));
    &&& file.0@ == file_name(m)
    &&& placed_in(defs, d, m)
    &&& json_view(file.1) == file_document(m, figure, edit, defs)
}

/// Whether files are those of the modules, in ascending order of module: one for the
/// figure, one for the transaction, and one for every module that declares the type of
/// a definition.
pub open spec fn files_of_modules(
    files: Seq<(String, JsonValue)>,
    mods: Seq<Seq<char>>,
    d: Map<Seq<char>, JsonView>,
    figure: Seq<(Seq<char>, JsonView)>,
    edit: Seq<(Seq<char>, JsonView)>,
) -> bool {
    &&& strictly_sorted(mods)
    &&& mods.to_set() == schema_modules(d)
    &&& files.len() == mods.len()
    &&& forall|i: int| 0 <= i < files.len() ==> #[trigger] file_of_module(files[i], mods[i], d, figure, edit)
}


/// The definitions placed in a module stand exactly as they should in its file.
proof fn lemma_defs_placed(ps: Seq<(Seq<char>, Seq<char>, JsonView)>, d: Map<Seq<char>, JsonView>, m: Seq<char>)
    requires
        forall|j: int| 0 <= j < ps.len() ==> placed_well(d, #[trigger] ps[j]),
        forall|a: int, b: int| 0 <= a < b < ps.len() ==> (#[trigger] ps[a]).0 != (#[trigger] ps[b]).0,
        forall|n: Seq<char>| d.contains_key(n) ==> exists|j: int| 0 <= j < ps.len() && (#[trigger] ps[j]).0 == n,
    ensures
        placed_in(defs_for(ps, m), d, m),
{
    let defs = defs_for(ps, m);
    lemma_defs_for(ps, m, d);
    assert forall|i: int| 0 <= i < defs.len() implies {
        &&& d.contains_key((#[trigger] defs[i]).0)
        &&& definition_module(defs[i].0) == Some(m)
        &&& defs[i].1 == relocated(d[defs[i].0], m)
    } by {
        assert(placed_entry(d, m, defs[i]));
    }
    assert forall|n: Seq<char>| d.contains_key(n) && definition_module(n) == Some(m) implies exists|i: int|
        0 <= i < defs.len() && (#[trigger] defs[i]).0 == n by {
        let j = choose|j: int| 0 <= j < ps.len() && (#[trigger] ps[j]).0 == n;
        assert(placed_well(d, ps[j]));
        assert(ps[j].1 == m);
        let e = choose|e: int| 0 <= e < defs.len() && from_placed(ps, j, m, defs[e]);
        assert(defs[e].0 == n);
    }
}

/// Returns the JSON Schema of the `.fig.json` format as one file per module of the
/// crate, in ascending order of module, from the schemas of a figure and of a
/// transaction, each a single document whose `$defs` hold every type.
///
/// The definitions of the two schemas are merged, a definition of the transaction's
/// schema replacing one of the same name in the figure's. Each stands in the file of
/// the module that declares its type (`ids` for the node and data identifiers, `edit`
/// for a property path), and every local reference `#/$defs/N` to a definition of
/// another module is rewritten into `<module>.schema.json#/$defs/N`. The file
/// `figure.schema.json` describes a figure and `edit.schema.json` a transaction, each
/// keeping what its schema says of its own type; every other file holds only
/// definitions, under the figure's `$schema` and a title.
///
/// # Errors
///
/// Returns the message naming a definition, or a name that a definition or a schema
/// refers to, whose type no module declares.
pub fn schema_files(figure: JsonValue, transaction: JsonValue) -> (r: Result<Vec<(String, JsonValue)>, String>)
    requires
        figure is Object,
        transaction is Object,
    ensures
        r is Err <==> exists|n: Seq<char>|
            #[trigger] unplaced_name(
                all_definitions(root_members(figure), root_members(transaction)),
                root_members(figure),
                root_members(transaction),
                n,
            ),
        r matches Err(msg) ==> exists|n: Seq<char>|
            #[trigger] unplaced_name(
                all_definitions(root_members(figure), root_members(transaction)),
                root_members(figure),
                root_members(transaction),
                n,
            ) && msg@ == unplaced_message(n),
        r matches Ok(files) ==> exists|mods: Seq<Seq<char>>|
            #[trigger] files_of_modules(
                files@,
                mods,
                all_definitions(root_members(figure), root_members(transaction)),
                root_members(figure),
                root_members(transaction),
            ),
{
    let ghost f = root_members(figure);
    let ghost e = root_members(transaction);
    let ghost d = all_definitions(f, e);
    let fig_members = match figure {
        JsonValue::Object(ms) => ms,
        _ => Vec::new(),
    };
    let edit_members = match transaction {
        JsonValue::Object(ms) => ms,
        _ => Vec::new(),
    };
    let dialect_value = first_copy(&fig_members, "$schema");
    let (fig_rest, fig_defs) = split_root(fig_members);
    let (edit_rest, edit_defs) = split_root(edit_members);
    let ghost fd = members_view(fig_defs@);
    let ghost ed = members_view(edit_defs@);
    let mut merged: Vec<(String, JsonValue)> = Vec::new();
    proof {
        lemma_members_view(merged@);
        assert(members_view(merged@) =~= Seq::<(Seq<char>, JsonView)>::empty());
        assert(Seq::<(Seq<char>, JsonView)>::empty() + fd =~= fd);
    }
    merge_definitions(&mut merged, fig_defs);
    let ghost m1 = members_view(merged@);
    merge_definitions(&mut merged, edit_defs);
    proof {
        lemma_definitions_map_append(m1, fd, ed);
        assert(definitions_map(members_view(merged@)) == d);
    }
    let ghost mv = members_view(merged@);
    proof {
        lemma_members_view(merged@);
        lemma_definitions_map(mv);
    }
    let (placed, mods) = match place_definitions(merged, Ghost(d)) {
        Ok(p) => p,
        Err(msg) => {
            proof {
                let n = choose|n: Seq<char>|
                    definition_module(n) is None && (d.contains_key(n) || exists|x: Seq<char>| d.contains_key(x) && #[trigger] refers_to(d[x], n))
                        && msg@ == unplaced_message(n);
                assert(unplaced_name(d, f, e, n));
            }
            return Err(msg);
        },
    };
    let ghost fig_view = json_view(JsonValue::Object(fig_rest));
    assert(fig_view == JsonView::Object(without_key(f, "$defs"@)));
    let fig_doc = match relocate(JsonValue::Object(fig_rest), "figure") {
        Ok(JsonValue::Object(ms)) => ms,
        Ok(_) => Vec::new(),
        Err(msg) => {
            proof {
                let n = choose|n: Seq<char>| #[trigger] refers_to(fig_view, n) && definition_module(n) is None && msg@ == unplaced_message(n);
                assert(unplaced_name(d, f, e, n));
            }
            return Err(msg);
        },
    };
    let ghost edit_view = json_view(JsonValue::Object(edit_rest));
    assert(edit_view == JsonView::Object(without_key(e, "$defs"@)));
    let edit_doc = match relocate(JsonValue::Object(edit_rest), "edit") {
        Ok(JsonValue::Object(ms)) => ms,
        Ok(_) => Vec::new(),
        Err(msg) => {
            proof {
                let n = choose|n: Seq<char>| #[trigger] refers_to(edit_view, n) && definition_module(n) is None && msg@ == unplaced_message(n);
                assert(unplaced_name(d, f, e, n));
            }
            return Err(msg);
        },
    };
    proof {
        reveal_strlit("figure");
        reveal_strlit("edit");
        assert(members_view(fig_doc@) == relocated_members(without_key(f, "$defs"@), "figure"@));
        assert(members_view(edit_doc@) == relocated_members(without_key(e, "$defs"@), "edit"@));
        assert forall|n: Seq<char>| !#[trigger] unplaced_name(d, f, e, n) by {
            if definition_module(n) is None {
                assert(!members_refer(without_key(f, "$defs"@), n)) by {
                    if members_refer(without_key(f, "$defs"@), n) {
                        assert(refers_to(fig_view, n));
                    }
                }
                assert(!members_refer(without_key(e, "$defs"@), n)) by {
                    if members_refer(without_key(e, "$defs"@), n) {
                        assert(refers_to(edit_view, n));
                    }
                }
            }
        }
    }
    let ghost ps = placed_views(placed@);
    let ghost modsv = string_views(mods@);
    proof {
        assert forall|j: int| 0 <= j < ps.len() implies placed_well(d, #[trigger] ps[j]) by {
            assert(ps[j] == placed_view(placed@[j]));
        }
        assert forall|a: int, b: int| 0 <= a < b < ps.len() implies (#[trigger] ps[a]).0 != (#[trigger] ps[b]).0 by {
            assert(ps[a].0 == placed@[a].0@ && ps[b].0 == placed@[b].0@);
        }
        assert forall|n: Seq<char>| d.contains_key(n) implies exists|j: int| 0 <= j < ps.len() && (#[trigger] ps[j]).0 == n by {
            let j = choose|j: int| 0 <= j < mv.len() && (#[trigger] mv[j]).0 == n;
            assert(ps[j].0 == placed@[j].0@);
        }
    }
    let mut out: Vec<(String, JsonValue)> = Vec::new();
    let mut fig_left: Option<Vec<(String, JsonValue)>> = Some(fig_doc);
    let mut edit_left: Option<Vec<(String, JsonValue)>> = Some(edit_doc);
    let mut i: usize = 0;
    while i < mods.len()
        invariant
            i <= mods@.len(),
            modsv == string_views(mods@),
            modsv.len() == mods@.len(),
            strictly_sorted(modsv),
            modsv.to_set() == schema_modules(d),
            ps == placed_views(placed@),
            forall|j: int| 0 <= j < ps.len() ==> placed_well(d, #[trigger] ps[j]),
            forall|a: int, b: int| 0 <= a < b < ps.len() ==> (#[trigger] ps[a]).0 != (#[trigger] ps[b]).0,
            forall|n: Seq<char>| d.contains_key(n) ==> exists|j: int| 0 <= j < ps.len() && (#[trigger] ps[j]).0 == n,
            out@.len() == i,
            forall|k: int| 0 <= k < i ==> #[trigger] file_of_module(out@[k], modsv[k], d, f, e),
            fig_left matches Some(ms) ==> members_view(ms@) == relocated_members(without_key(f, "$defs"@), "figure"@),
            fig_left is None ==> exists|k: int| 0 <= k < i && modsv[k] == "figure"@,
            edit_left matches Some(ms) ==> members_view(ms@) == relocated_members(without_key(e, "$defs"@), "edit"@),
            edit_left is None ==> exists|k: int| 0 <= k < i && modsv[k] == "edit"@,
            match first_value(f, "$schema"@) {
                Some(x) => dialect_value matches Some(y) && json_view(y) == x,
                None => dialect_value is None,
            },
        decreases mods.len() - i,
    {
        let m = mods[i].as_str();
        assert(m@ == modsv[i as int]);
        let defs = defs_of_module(&placed, m);
        let ghost dv = members_view(defs@);
        proof {
            lemma_defs_placed(ps, d, m@);
        }
        let mut doc: Vec<(String, JsonValue)> = Vec::new();
        let is_figure = str_eq(m, "figure");
        let is_edit = str_eq(m, "edit");
        if is_figure || is_edit {
            proof {
                if fig_left is None && is_figure {
                    let k = choose|k: int| 0 <= k < i && modsv[k] == "figure"@;
                    assert(crate::textfmt::text_less(modsv[k], modsv[i as int]));
                    crate::textfmt::lemma_text_less_irreflexive(modsv[k]);
                }
                if edit_left is None && is_edit {
                    let k = choose|k: int| 0 <= k < i && modsv[k] == "edit"@;
                    assert(crate::textfmt::text_less(modsv[k], modsv[i as int]));
                    crate::textfmt::lemma_text_less_irreflexive(modsv[k]);
                }
            }
            let root = if is_figure {
                let taken = match fig_left {
                    Some(ms) => ms,
                    None => Vec::new(),
                };
                fig_left = None;
                taken
            } else {
                let taken = match edit_left {
                    Some(ms) => ms,
                    None => Vec::new(),
                };
                edit_left = None;
                taken
            };
            doc = root;
        } else {
            match &dialect_value {
                Some(x) => {
                    doc.push((owned("$schema"), copy_json(x)));
                },
                None => {},
            }
            let mut title = owned("The definitions of the ");
            title.append(m);
            title.append(" module");
            proof {
                reveal_strlit(" module");
            }
            doc.push((owned("title"), JsonValue::String(title)));
        }
        let ghost head_values = doc@;
        let ghost head = members_view(doc@);
        proof {
            lemma_members_view(head_values);
            if !is_figure && !is_edit {
                reveal_strlit("$schema");
                reveal_strlit("title");
                assert(head =~= dialect(f) + seq![("title"@, JsonView::String("The definitions of the "@ + m@ + " module"@))]);
            }
        }
        doc.push((owned("$defs"), JsonValue::Object(defs)));
        let mut name = owned(m);
        name.append(".schema.json");
        let ghost before = out@;
        out.push((name, JsonValue::Object(doc)));
        proof {
            lemma_members_view(doc@);
            let hv = members_view(doc@);
            assert(json_view(JsonValue::Object(defs)) == JsonView::Object(dv));
            assert(hv =~= head.push(("$defs"@, JsonView::Object(dv)))) by {
                assert forall|k: int| 0 <= k < head.len() implies hv[k] == head[k] by {
                    assert(doc@[k] == head_values[k]);
                }
            }
            assert(document_definitions(json_view(out@[i as int].1)) == dv);
            assert(out@[i as int].0@ == file_name(modsv[i as int]));
            assert(placed_in(dv, d, modsv[i as int]));
            assert(json_view(out@[i as int].1) == JsonView::Object(hv));
            let mm = modsv[i as int];
            if is_figure {
                assert(mm == "figure"@);
                assert(head == relocated_members(without_key(f, "$defs"@), mm));
                assert(file_document(mm, f, e, dv) == JsonView::Object(head.push(("$defs"@, JsonView::Object(dv)))));
            } else if is_edit {
                assert(mm == "edit"@);
                assert(mm != "figure"@);
                assert(head == relocated_members(without_key(e, "$defs"@), mm));
                assert(file_document(mm, f, e, dv) == JsonView::Object(head.push(("$defs"@, JsonView::Object(dv)))));
            } else {
                assert(mm != "figure"@ && mm != "edit"@);
                assert(head.push(("$defs"@, JsonView::Object(dv))) =~= dialect(f) + seq![
                    ("title"@, JsonView::String("The definitions of the "@ + mm + " module"@)),
                    ("$defs"@, JsonView::Object(dv)),
                ]);
            }
            assert(json_view(out@[i as int].1) == file_document(modsv[i as int], f, e, dv));
            assert(file_of_module(out@[i as int], modsv[i as int], d, f, e));
            assert forall|k: int| 0 <= k < i + 1 implies #[trigger] file_of_module(out@[k], modsv[k], d, f, e) by {
                if k < i {
                    assert(out@[k] == before[k]);
                }
            }
        }
        i = i + 1;
    }
    assert(files_of_modules(out@, modsv, d, f, e));
    let ghost outv = out@;
    let r: Result<Vec<(String, JsonValue)>, String> = Ok(out);
    assert(r->Ok_0@ == outv);
    assert(files_of_modules(r->Ok_0@, modsv, d, f, e));
    r
}


/// The definitions of the node and data identifiers stand in `ids.schema.json` and that
/// of a property path in `edit.schema.json`, whatever the wire declarations hold, so a
/// schema that defines them never fails for want of their module.
pub proof fn law_identifier_definitions(name: Seq<char>)
    ensures
        name == "NodeId"@ || name == "DataId"@ ==> definition_module(name) == Some("ids"@),
        name == "PropertyPath"@ ==> definition_module(name) == Some("edit"@),
{
    reveal_strlit("NodeId");
    reveal_strlit("DataId");
    reveal_strlit("PropertyPath");
    assert("PropertyPath"@.len() == 12 && "NodeId"@.len() == 6 && "DataId"@.len() == 6);
}

} // verus!
