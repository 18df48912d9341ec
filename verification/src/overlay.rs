//! The view overlay: the user's changes to a figure, kept apart from its source.
//!
//! A figure shown in the viewer has two parts. The **source** is the figure as its
//! owner defines it, and every edit of the owner is applied to it. The [`Overlay`] is an
//! ordered list of sets made by the user: limits, three-dimensional views, visibility
//! and any property changed in the property editor. The viewer draws the source with the
//! overlay's entries applied on top, in order.
//!
//! When a transaction of the owner is applied to the source, [`Overlay::reconcile`]
//! compares it with the overlay. An entry whose node and path the transaction does not
//! touch is kept without notice, so new data never resets a user's zoom. An entry whose
//! path overlaps a path that the transaction sets is a [`Conflict`]; the user's value
//! remains displayed until the conflict is resolved with [`Overlay::resolve`]. An entry
//! whose node the transaction removes is dropped.
//!
//! Undo and redo act on the overlay only, in steps: a gesture of many sets is one step.

use vstd::prelude::*;

use crate::edit::effect::{EditEffect, ValueId};
use crate::edit::error::EditError;
use crate::edit::path::{valid_segment, PropertyPath};
use crate::edit::tree::{find_first, spec_apply, spec_subtree, AxesView, NodeTree, TreeChange};
use crate::ids::NodeId;
use crate::link::contains_id;

verus! {

/// An overlay entry whose path the owner of the figure has since set: the owner's set
/// equals, contains or is contained by the path of the entry.
#[derive(Debug)]
pub struct Conflict {
    /// The node of the entry and of the owner's set.
    pub node: NodeId,
    /// The path of the overlay entry.
    pub overlay_path: PropertyPath,
    /// The path set by the owner, which equals, contains or is contained by the path of
    /// the entry.
    pub source_path: PropertyPath,
}

/// How a conflict is resolved.
#[derive(Debug, Clone, Copy, PartialEq, Eq, Hash, Structural)]
pub enum Resolution {
    /// The owner's value is used: the overlay entry is removed.
    UseSource,
    /// The user's value is kept: the entry remains and the conflict is cleared.
    KeepMine,
}

/// The paths of the view of an axes: its limits along each dimension, and its
/// three-dimensional camera view.
pub open spec fn view_paths() -> Seq<Seq<Seq<char>>> {
    seq![
        seq!["x"@, "limits"@],
        seq!["y"@, "limits"@],
        seq!["z"@, "limits"@],
        seq!["projection"@, "view3d"@],
    ]
}

/// Returns the path of two segments.
fn pair(first: &'static str, second: &'static str) -> (p: PropertyPath)
    requires
        valid_segment(first@),
        valid_segment(second@),
    ensures
        p@ == seq![first@, second@],
{
    let mut segments: Vec<&'static str> = Vec::new();
    segments.push(first);
    segments.push(second);
    assert(segments@.map_values(|s: &'static str| s@) =~= seq![first@, second@]);
    PropertyPath::of(&segments)
}

/// Whether a path names a property of the view of an axes, or a property below one.
pub open spec fn view_path(path: Seq<Seq<char>>) -> bool {
    exists|i: int| 0 <= i < view_paths().len() && (#[trigger] view_paths()[i]).is_prefix_of(path)
}

/// Returns whether a path names a property of the view of an axes, or a property below
/// one: its limits along a dimension, or its three-dimensional camera view.
pub fn is_view_property(path: &PropertyPath) -> (r: bool)
    ensures
        r == view_path(path@),
{
    proof {
        reveal_strlit("x");
        reveal_strlit("y");
        reveal_strlit("z");
        reveal_strlit("limits");
        reveal_strlit("projection");
        reveal_strlit("view3d");
    }
    let views = [pair("x", "limits"), pair("y", "limits"), pair("z", "limits"), pair("projection", "view3d")];
    assert(views@.map_values(|p: PropertyPath| p@) =~= view_paths());
    let mut i: usize = 0;
    while i < 4
        invariant
            i <= 4,
            views@.map_values(|p: PropertyPath| p@) == view_paths(),
            forall|k: int| 0 <= k < i ==> !(#[trigger] view_paths()[k]).is_prefix_of(path@),
        decreases 4 - i,
    {
        assert(views@[i as int]@ == view_paths()[i as int]);
        if views[i].contains(path) {
            return true;
        }
        i = i + 1;
    }
    false
}

/// A conflict as values: its node, the segments of the path of the overlay entry, and
/// those of the path the owner set.
pub type ConflictView = (NodeId, Seq<Seq<char>>, Seq<Seq<char>>);

impl View for Conflict {
    type V = ConflictView;

    open spec fn view(&self) -> ConflictView {
        (self.node, self.overlay_path@, self.source_path@)
    }
}

impl Clone for Conflict {
    fn clone(&self) -> (r: Self)
        ensures
            r@ == self@,
    {
        Conflict { node: self.node, overlay_path: self.overlay_path.clone(), source_path: self.source_path.clone() }
    }
}

/// One property set by the user.
#[derive(Debug)]
pub struct OverlayEntry {
    /// The node whose property is set.
    pub node: NodeId,
    /// The path of the property within the node.
    pub path: PropertyPath,
    /// The value set by the user.
    pub value: ValueId,
}

/// An overlay entry as values: its node, the segments of its path, and its value.
pub type EntryView = (NodeId, Seq<Seq<char>>, ValueId);

impl View for OverlayEntry {
    type V = EntryView;

    open spec fn view(&self) -> EntryView {
        (self.node, self.path@, self.value)
    }
}

impl Clone for OverlayEntry {
    fn clone(&self) -> (r: Self)
        ensures
            r@ == self@,
    {
        OverlayEntry { node: self.node, path: self.path.clone(), value: self.value }
    }
}

/// An overlay entry that could not be applied to the source, with the reason.
#[derive(Debug)]
pub struct Dropped {
    /// The entry.
    pub entry: OverlayEntry,
    /// Why it could not be applied: its node no longer exists, its path is no longer
    /// reachable, its value does not have the type of the property, or applying it
    /// would add validation errors that the source does not have.
    pub reason: EditError,
}

/// The entries of a list as values.
pub open spec fn entries_view(v: Seq<OverlayEntry>) -> Seq<EntryView> {
    v.map_values(|e: OverlayEntry| e@)
}

/// The conflicts of a list as values.
pub open spec fn conflicts_view(v: Seq<Conflict>) -> Seq<ConflictView> {
    v.map_values(|c: Conflict| c@)
}

/// The steps of an undo or redo history as values.
pub open spec fn steps_view(v: Seq<Vec<OverlayEntry>>) -> Seq<Seq<EntryView>> {
    v.map_values(|s: Vec<OverlayEntry>| entries_view(s@))
}

/// The user's changes to a figure, as an ordered list of property sets, with the undo
/// history of those changes and the conflicts with the source that await resolution.
#[derive(Debug)]
pub struct Overlay {
    /// The entries, in the order in which they are applied.
    entries: Vec<OverlayEntry>,
    /// The conflicts that have not been resolved.
    conflicts: Vec<Conflict>,
    /// The entries before each step that can be undone, most recent last.
    undo: Vec<Vec<OverlayEntry>>,
    /// The entries before each step that can be redone, most recent last.
    redo: Vec<Vec<OverlayEntry>>,
    /// The entries before the step that is open, if any.
    open_step: Option<Vec<OverlayEntry>>,
}

/// An overlay as values.
pub struct OverlayView {
    /// The entries, in the order in which they are applied.
    pub entries: Seq<EntryView>,
    /// The conflicts that have not been resolved.
    pub conflicts: Seq<ConflictView>,
    /// The entries before each step that can be undone, most recent last.
    pub undo: Seq<Seq<EntryView>>,
    /// The entries before each step that can be redone, most recent last.
    pub redo: Seq<Seq<EntryView>>,
    /// The entries before the step that is open, if any.
    pub open_step: Option<Seq<EntryView>>,
}

impl View for Overlay {
    type V = OverlayView;

    closed spec fn view(&self) -> OverlayView {
        OverlayView {
            entries: entries_view(self.entries@),
            conflicts: conflicts_view(self.conflicts@),
            undo: steps_view(self.undo@),
            redo: steps_view(self.redo@),
            open_step: match self.open_step {
                Some(v) => Some(entries_view(v@)),
                None => None,
            },
        }
    }
}

/// The empty overlay, with no history.
pub open spec fn empty_overlay() -> OverlayView {
    OverlayView { entries: seq![], conflicts: seq![], undo: seq![], redo: seq![], open_step: None }
}

/// An overlay after a change from the entries `before`: unless a step is open, a change
/// that changed the entries is a step that can be undone, and clears the redo history.
pub open spec fn spec_commit(o: OverlayView, before: Seq<EntryView>) -> OverlayView {
    if o.open_step is None && before != o.entries {
        OverlayView { undo: o.undo.push(before), redo: seq![], ..o }
    } else {
        o
    }
}

/// An overlay after undoing its most recent step, if it has one.
pub open spec fn spec_undo(o: OverlayView) -> OverlayView {
    if o.undo.len() > 0 {
        OverlayView { entries: o.undo.last(), undo: o.undo.drop_last(), redo: o.redo.push(o.entries), ..o }
    } else {
        o
    }
}

/// An overlay after redoing its most recently undone step, if it has one.
pub open spec fn spec_redo(o: OverlayView) -> OverlayView {
    if o.redo.len() > 0 {
        OverlayView { entries: o.redo.last(), redo: o.redo.drop_last(), undo: o.undo.push(o.entries), ..o }
    } else {
        o
    }
}

/// Returns a copy of a list of entries.
fn copy_entries(v: &Vec<OverlayEntry>) -> (r: Vec<OverlayEntry>)
    ensures
        entries_view(r@) == entries_view(v@),
{
    let mut r: Vec<OverlayEntry> = Vec::new();
    let mut i: usize = 0;
    while i < v.len()
        invariant
            i <= v@.len(),
            entries_view(r@) == entries_view(v@).take(i as int),
        decreases v.len() - i,
    {
        let e = v[i].clone();
        assert(e@ == v@[i as int]@);
        let ghost before = r@;
        r.push(e);
        assert(entries_view(r@) =~= entries_view(before).push(e@));
        assert(entries_view(v@).take(i + 1) =~= entries_view(v@).take(i as int).push(entries_view(v@)[i as int]));
        i = i + 1;
    }
    assert(entries_view(v@).take(i as int) =~= entries_view(v@));
    r
}

/// Returns whether two entries are equal.
fn same_entry(a: &OverlayEntry, b: &OverlayEntry) -> (r: bool)
    ensures
        r == (a@ == b@),
{
    a.node == b.node && a.path == b.path && a.value == b.value
}

/// Returns whether two lists of entries are equal.
fn same_entries(a: &Vec<OverlayEntry>, b: &Vec<OverlayEntry>) -> (r: bool)
    ensures
        r == (entries_view(a@) == entries_view(b@)),
{
    if a.len() != b.len() {
        assert(entries_view(a@).len() != entries_view(b@).len());
        return false;
    }
    let mut i: usize = 0;
    while i < a.len()
        invariant
            i <= a@.len(),
            a@.len() == b@.len(),
            forall|k: int| 0 <= k < i ==> entries_view(a@)[k] == entries_view(b@)[k],
        decreases a.len() - i,
    {
        if !same_entry(&a[i], &b[i]) {
            assert(entries_view(a@)[i as int] != entries_view(b@)[i as int]);
            return false;
        }
        i = i + 1;
    }
    assert(entries_view(a@) =~= entries_view(b@));
    true
}

/// The entries after a set of a node's property: every entry of the node whose path
/// the new path contains (the same path or a path below it) is removed, and the new
/// entry is appended.
pub open spec fn spec_set(entries: Seq<EntryView>, node: NodeId, path: Seq<Seq<char>>, value: ValueId) -> Seq<EntryView> {
    entries.filter(not_below(node, path)).push((node, path, value))
}

/// Any entry but those of a node whose path a path contains.
pub open spec fn not_below(node: NodeId, path: Seq<Seq<char>>) -> spec_fn(EntryView) -> bool {
    |e: EntryView| !(e.0 == node && path.is_prefix_of(e.1))
}

/// Any entry but the one of a node and path.
pub open spec fn not_entry(node: NodeId, path: Seq<Seq<char>>) -> spec_fn(EntryView) -> bool {
    |e: EntryView| !(e.0 == node && e.1 == path)
}

/// Any entry but the view entries of an axes, or of every axes.
pub open spec fn not_view_of(axes: Option<NodeId>) -> spec_fn(EntryView) -> bool {
    |e: EntryView| !((axes matches Some(a) ==> e.0 == a) && view_path(e.1))
}

/// Any entry but those listed.
pub open spec fn not_listed(listed: Seq<EntryView>) -> spec_fn(EntryView) -> bool {
    |e: EntryView| !listed.contains(e)
}

/// Any entry but those of some nodes.
pub open spec fn not_of_nodes(nodes: Seq<NodeId>) -> spec_fn(EntryView) -> bool {
    |e: EntryView| !nodes.contains(e.0)
}

/// The entries after the sets of a transaction, in order; its other edits are ignored.
pub open spec fn spec_sets(entries: Seq<EntryView>, edits: Seq<EditEffect>) -> Seq<EntryView>
    decreases edits.len(),
{
    if edits.len() == 0 {
        entries
    } else {
        let earlier = spec_sets(entries, edits.drop_last());
        match edits.last() {
            EditEffect::SetProperty { node, path, value } => spec_set(earlier, node, path@, value),
            _ => earlier,
        }
    }
}

/// Whether an edit is anything but a set.
pub open spec fn not_a_set() -> spec_fn(EditEffect) -> bool {
    |e: EditEffect| !(e is SetProperty)
}

/// The overlay after recording the sets of a transaction made by the user, or the error
/// when an edit is not a set.
pub open spec fn spec_record(o: OverlayView, edits: Seq<EditEffect>) -> Result<OverlayView, EditError> {
    let i = find_first(edits, not_a_set());
    if i >= 0 {
        Err(EditError::NotASet { edit: Some(i as usize) })
    } else {
        Ok(spec_commit(OverlayView { entries: spec_sets(o.entries, edits), ..o }, o.entries))
    }
}

/// The entries without the one of a node and path.
pub open spec fn without_entry(entries: Seq<EntryView>, node: NodeId, path: Seq<Seq<char>>) -> Seq<EntryView> {
    entries.filter(not_entry(node, path))
}

/// The conflicts without those of the entry of a node and path.
pub open spec fn without_conflicts_of(conflicts: Seq<ConflictView>, node: NodeId, path: Seq<Seq<char>>) -> Seq<ConflictView> {
    conflicts.filter(not_conflict_of_entry(node, path))
}

/// Any conflict but those of the entry of a node and path.
pub open spec fn not_conflict_of_entry(node: NodeId, path: Seq<Seq<char>>) -> spec_fn(ConflictView) -> bool {
    |c: ConflictView| !(c.0 == node && c.1 == path)
}

/// The overlay after reverting the entry of a node and path, and whether it had one.
pub open spec fn spec_revert(o: OverlayView, node: NodeId, path: Seq<Seq<char>>) -> (OverlayView, bool) {
    let entries = without_entry(o.entries, node, path);
    if entries.len() == o.entries.len() {
        (o, false)
    } else {
        (
            spec_commit(
                OverlayView { entries, conflicts: without_conflicts_of(o.conflicts, node, path), ..o },
                o.entries,
            ),
            true,
        )
    }
}

/// The overlay after removing the view entries of one axes, or of every axes.
pub open spec fn spec_reset(o: OverlayView, axes: Option<NodeId>) -> OverlayView {
    let entries = o.entries.filter(not_view_of(axes));
    spec_commit(OverlayView { entries, ..o }, o.entries)
}

/// The overlay after resolving a conflict, and whether it was pending.
pub open spec fn spec_resolve(o: OverlayView, c: ConflictView, resolution: Resolution) -> (OverlayView, bool) {
    if !o.conflicts.contains(c) {
        (o, false)
    } else {
        let entries = if resolution == Resolution::UseSource {
            without_entry(o.entries, c.0, c.1)
        } else {
            o.entries
        };
        (OverlayView { entries, conflicts: without_conflicts_of(o.conflicts, c.0, c.1), ..o }, true)
    }
}

/// The overlay after the given dropped entries are removed: when that leaves the entries
/// as they were before the most recent step, and no step is open, that step is removed
/// from the undo history.
pub open spec fn spec_discard(o: OverlayView, dropped: Seq<EntryView>) -> OverlayView {
    let entries = o.entries.filter(not_listed(dropped));
    if o.open_step is None && o.undo.len() > 0 && o.undo.last() == entries {
        OverlayView { entries, undo: o.undo.drop_last(), ..o }
    } else {
        OverlayView { entries, ..o }
    }
}

/// The entries of dropped entries.
pub open spec fn dropped_view(v: Seq<Dropped>) -> Seq<EntryView> {
    v.map_values(|d: Dropped| d.entry@)
}

/// The entry that an edit sets, when it is a set.
pub open spec fn set_view(e: EditEffect) -> Option<EntryView> {
    match e {
        EditEffect::SetProperty { node, path, value } => Some((node, path@, value)),
        _ => None,
    }
}

/// What reconciling follows through a transaction of the owner: the tree of nodes, the
/// overlay, and the conflicts raised so far.
pub type Reconciling = (Seq<AxesView>, OverlayView, Seq<ConflictView>);

/// The conflicts raised so far, with those that a set of a node's path raises against
/// the entries, in order: one for each entry of that node whose path equals, contains or
/// is contained by the path set, unless it was raised already.
pub open spec fn spec_raise(raised: Seq<ConflictView>, entries: Seq<EntryView>, node: NodeId, path: Seq<Seq<char>>) -> Seq<ConflictView>
    decreases entries.len(),
{
    if entries.len() == 0 {
        raised
    } else {
        let earlier = spec_raise(raised, entries.drop_last(), node, path);
        let e = entries.last();
        if e.0 == node && (e.1.is_prefix_of(path) || path.is_prefix_of(e.1)) {
            if earlier.contains((node, e.1, path)) {
                earlier
            } else {
                earlier.push((node, e.1, path))
            }
        } else {
            earlier
        }
    }
}

/// A list of conflicts with those of another appended in order, each unless the list
/// holds it already.
pub open spec fn spec_add_new(acc: Seq<ConflictView>, new: Seq<ConflictView>) -> Seq<ConflictView>
    decreases new.len(),
{
    if new.len() == 0 {
        acc
    } else {
        let earlier = spec_add_new(acc, new.drop_last());
        if earlier.contains(new.last()) {
            earlier
        } else {
            earlier.push(new.last())
        }
    }
}

/// Any conflict but those of some nodes.
pub open spec fn conflict_not_of(nodes: Seq<NodeId>) -> spec_fn(ConflictView) -> bool {
    |c: ConflictView| !nodes.contains(c.0)
}

/// A step of the history without the entries of some nodes.
pub open spec fn step_without(nodes: Seq<NodeId>) -> spec_fn(Seq<EntryView>) -> Seq<EntryView> {
    |st: Seq<EntryView>| st.filter(not_of_nodes(nodes))
}

/// An overlay without the entries and conflicts of some nodes, in its entries and in
/// every step of its history.
pub open spec fn without_nodes(o: OverlayView, nodes: Seq<NodeId>) -> OverlayView {
    OverlayView {
        entries: o.entries.filter(not_of_nodes(nodes)),
        conflicts: o.conflicts.filter(conflict_not_of(nodes)),
        undo: o.undo.map_values(step_without(nodes)),
        redo: o.redo.map_values(step_without(nodes)),
        open_step: match o.open_step {
            Some(st) => Some(st.filter(not_of_nodes(nodes))),
            None => None,
        },
    }
}

/// Reconciling one edit of the owner: a set raises the conflicts of the entries it
/// overlaps; the removal of a node drops the entries and conflicts of the node and of
/// its descendants at that time; structural edits change the tree; every other edit
/// changes nothing.
pub open spec fn reconcile_step(s: Reconciling, edit: EditEffect) -> Reconciling {
    match edit {
        EditEffect::SetProperty { node, path, .. } => (s.0, s.1, spec_raise(s.2, s.1.entries, node, path@)),
        EditEffect::Tree(change) => match change {
            TreeChange::Remove { node } => {
                let removed = spec_subtree(s.0, node);
                (spec_apply(s.0, change), without_nodes(s.1, removed), s.2.filter(conflict_not_of(removed)))
            },
            _ => (spec_apply(s.0, change), s.1, s.2),
        },
        _ => s,
    }
}

/// Reconciling the edits of a transaction of the owner, in order.
pub open spec fn reconciled(s: Reconciling, edits: Seq<EditEffect>) -> Reconciling
    decreases edits.len(),
{
    if edits.len() == 0 {
        s
    } else {
        reconciled(reconcile_step(s, edits[0]), edits.drop_first())
    }
}

/// The overlay after a transaction of the owner is reconciled with it, from the tree of
/// the source before the transaction, and the conflicts raised: the conflicts raised are
/// added to those pending, each unless it is pending already.
pub open spec fn spec_reconcile(o: OverlayView, tree: Seq<AxesView>, edits: Seq<EditEffect>) -> (OverlayView, Seq<ConflictView>) {
    let t = reconciled((tree, o, seq![]), edits);
    (OverlayView { conflicts: spec_add_new(t.1.conflicts, t.2), ..t.1 }, t.2)
}

/// What an entry filter removes: the entries of a node whose path a path contains, the
/// entry of a node and path, the view entries of an axes or of every axes, the entries
/// of some nodes, or some entries.
enum Removal {
    Below { node: NodeId, path: PropertyPath },
    Exactly { node: NodeId, path: PropertyPath },
    View { axes: Option<NodeId> },
    Nodes { nodes: Vec<NodeId> },
    Listed { entries: Vec<OverlayEntry> },
}

/// Whether a filter removes an entry.
spec fn removes(r: Removal, e: EntryView) -> bool {
    match r {
        Removal::Below { node, path } => e.0 == node && path@.is_prefix_of(e.1),
        Removal::Exactly { node, path } => e.0 == node && e.1 == path@,
        Removal::View { axes } => (axes matches Some(a) ==> e.0 == a) && view_path(e.1),
        Removal::Nodes { nodes } => nodes@.contains(e.0),
        Removal::Listed { entries } => entries_view(entries@).contains(e),
    }
}

/// The entries that a filter keeps.
spec fn keeps(r: Removal) -> spec_fn(EntryView) -> bool {
    |e: EntryView| !removes(r, e)
}

/// Filtering by predicates that agree on every element gives the same sequence.
proof fn lemma_filter_same<A>(v: Seq<A>, p: spec_fn(A) -> bool, q: spec_fn(A) -> bool)
    requires
        forall|a: A| #[trigger] p(a) == q(a),
    ensures
        v.filter(p) == v.filter(q),
    decreases v.len(),
{
    broadcast use Seq::lemma_filter_push;
    if v.len() > 0 {
        lemma_filter_same(v.drop_last(), p, q);
        assert(v =~= v.drop_last().push(v.last()));
    }
}

/// Returns whether a list of entries holds one.
fn contains_entry(v: &Vec<OverlayEntry>, e: &OverlayEntry) -> (r: bool)
    ensures
        r == entries_view(v@).contains(e@),
{
    let mut i: usize = 0;
    while i < v.len()
        invariant
            i <= v@.len(),
            forall|k: int| 0 <= k < i ==> entries_view(v@)[k] != e@,
        decreases v.len() - i,
    {
        if same_entry(&v[i], e) {
            assert(entries_view(v@)[i as int] == e@);
            return true;
        }
        i = i + 1;
    }
    false
}

/// Returns whether a filter removes an entry.
fn is_removed(r: &Removal, e: &OverlayEntry) -> (b: bool)
    ensures
        b == removes(*r, e@),
{
    match r {
        Removal::Below { node, path } => e.node == *node && path.contains(&e.path),
        Removal::Exactly { node, path } => e.node == *node && e.path == *path,
        Removal::View { axes } => {
            let of_axes = match axes {
                Some(a) => e.node == *a,
                None => true,
            };
            of_axes && is_view_property(&e.path)
        },
        Removal::Nodes { nodes } => contains_id(nodes, e.node),
        Removal::Listed { entries } => contains_entry(entries, e),
    }
}

/// Returns the entries that a filter keeps, in order.
fn keep(v: &Vec<OverlayEntry>, r: &Removal) -> (k: Vec<OverlayEntry>)
    ensures
        entries_view(k@) == entries_view(v@).filter(keeps(*r)),
{
    let ghost pred = keeps(*r);
    let mut k: Vec<OverlayEntry> = Vec::new();
    let mut i: usize = 0;
    while i < v.len()
        invariant
            i <= v@.len(),
            pred == keeps(*r),
            entries_view(k@) == entries_view(v@).take(i as int).filter(pred),
        decreases v.len() - i,
    {
        proof {
            broadcast use Seq::lemma_filter_push;
            assert(entries_view(v@).take(i + 1) =~= entries_view(v@).take(i as int).push(entries_view(v@)[i as int]));
        }
        if !is_removed(r, &v[i]) {
            let e = v[i].clone();
            let ghost before = k@;
            k.push(e);
            assert(entries_view(k@) =~= entries_view(before).push(e@));
        }
        i = i + 1;
    }
    assert(entries_view(v@).take(i as int) =~= entries_view(v@));
    k
}

/// Returns the conflicts that do not belong to the entry of a node and path, in order.
fn keep_conflicts_except(v: &Vec<Conflict>, node: NodeId, path: &PropertyPath) -> (k: Vec<Conflict>)
    ensures
        conflicts_view(k@) == without_conflicts_of(conflicts_view(v@), node, path@),
{
    let mut k: Vec<Conflict> = Vec::new();
    let mut i: usize = 0;
    while i < v.len()
        invariant
            i <= v@.len(),
            conflicts_view(k@) == without_conflicts_of(conflicts_view(v@).take(i as int), node, path@),
        decreases v.len() - i,
    {
        proof {
            broadcast use Seq::lemma_filter_push;
            assert(conflicts_view(v@).take(i + 1) =~= conflicts_view(v@).take(i as int).push(conflicts_view(v@)[i as int]));
        }
        if !(v[i].node == node && v[i].overlay_path == *path) {
            let c = v[i].clone();
            let ghost before = k@;
            k.push(c);
            assert(conflicts_view(k@) =~= conflicts_view(before).push(c@));
        }
        i = i + 1;
    }
    assert(conflicts_view(v@).take(i as int) =~= conflicts_view(v@));
    k
}

/// Returns whether a list of conflicts holds one.
fn contains_conflict(v: &Vec<Conflict>, c: &Conflict) -> (r: bool)
    ensures
        r == conflicts_view(v@).contains(c@),
{
    let mut i: usize = 0;
    while i < v.len()
        invariant
            i <= v@.len(),
            forall|k: int| 0 <= k < i ==> conflicts_view(v@)[k] != c@,
        decreases v.len() - i,
    {
        if v[i].node == c.node && v[i].overlay_path == c.overlay_path && v[i].source_path == c.source_path {
            assert(conflicts_view(v@)[i as int] == c@);
            return true;
        }
        i = i + 1;
    }
    false
}

/// Returns the conflicts that do not belong to some nodes, in order.
fn keep_conflicts_not_of(v: &Vec<Conflict>, nodes: &Vec<NodeId>) -> (k: Vec<Conflict>)
    ensures
        conflicts_view(k@) == conflicts_view(v@).filter(conflict_not_of(nodes@)),
{
    let mut k: Vec<Conflict> = Vec::new();
    let mut i: usize = 0;
    while i < v.len()
        invariant
            i <= v@.len(),
            conflicts_view(k@) == conflicts_view(v@).take(i as int).filter(conflict_not_of(nodes@)),
        decreases v.len() - i,
    {
        proof {
            broadcast use Seq::lemma_filter_push;
            assert(conflicts_view(v@).take(i + 1) =~= conflicts_view(v@).take(i as int).push(conflicts_view(v@)[i as int]));
        }
        if !contains_id(nodes, v[i].node) {
            let c = v[i].clone();
            let ghost before = k@;
            k.push(c);
            assert(conflicts_view(k@) =~= conflicts_view(before).push(c@));
        }
        i = i + 1;
    }
    assert(conflicts_view(v@).take(i as int) =~= conflicts_view(v@));
    k
}

/// Returns the entries that do not belong to some nodes, in order.
fn keep_not_of(v: &Vec<OverlayEntry>, nodes: &Vec<NodeId>) -> (k: Vec<OverlayEntry>)
    ensures
        entries_view(k@) == entries_view(v@).filter(not_of_nodes(nodes@)),
{
    let removal = Removal::Nodes { nodes: crate::edit::tree::copy_ids(nodes) };
    let k = keep(v, &removal);
    proof {
        lemma_filter_same(entries_view(v@), keeps(removal), not_of_nodes(nodes@));
    }
    k
}

/// Returns the steps of a history without the entries of some nodes.
fn steps_not_of(steps: &Vec<Vec<OverlayEntry>>, nodes: &Vec<NodeId>) -> (r: Vec<Vec<OverlayEntry>>)
    ensures
        steps_view(r@) == steps_view(steps@).map_values(step_without(nodes@)),
{
    let mut r: Vec<Vec<OverlayEntry>> = Vec::new();
    let mut i: usize = 0;
    while i < steps.len()
        invariant
            i <= steps@.len(),
            steps_view(r@) == steps_view(steps@).take(i as int).map_values(step_without(nodes@)),
        decreases steps.len() - i,
    {
        let st = keep_not_of(&steps[i], nodes);
        let ghost before = r@;
        r.push(st);
        assert(steps_view(r@) =~= steps_view(before).push(entries_view(st@)));
        assert(steps_view(steps@).take(i + 1).map_values(step_without(nodes@)) =~= steps_view(steps@).take(i as int).map_values(
            step_without(nodes@),
        ).push(step_without(nodes@)(steps_view(steps@)[i as int])));
        i = i + 1;
    }
    assert(steps_view(steps@).take(i as int) =~= steps_view(steps@));
    r
}

/// Adds to a list of conflicts the set of a node's path raises against the entries.
fn raise(raised: &mut Vec<Conflict>, entries: &Vec<OverlayEntry>, node: NodeId, path: &PropertyPath)
    ensures
        conflicts_view(final(raised)@) == spec_raise(conflicts_view(old(raised)@), entries_view(entries@), node, path@),
{
    let ghost start = conflicts_view(raised@);
    let mut i: usize = 0;
    while i < entries.len()
        invariant
            i <= entries@.len(),
            conflicts_view(raised@) == spec_raise(start, entries_view(entries@).take(i as int), node, path@),
        decreases entries.len() - i,
    {
        let ghost ev = entries_view(entries@);
        assert(ev.take(i + 1).drop_last() =~= ev.take(i as int));
        assert(ev.take(i + 1).last() == entries@[i as int]@);
        let e = &entries[i];
        if e.node == node && e.path.overlaps(path) {
            let c = Conflict { node, overlay_path: e.path.clone(), source_path: path.clone() };
            if !contains_conflict(raised, &c) {
                let ghost before = raised@;
                raised.push(c);
                assert(conflicts_view(raised@) =~= conflicts_view(before).push(c@));
            }
        }
        i = i + 1;
    }
    assert(entries_view(entries@).take(i as int) =~= entries_view(entries@));
}

impl Overlay {
    /// Creates an empty overlay with no history.
    pub fn new() -> (r: Self)
        ensures
            r@ == empty_overlay(),
    {
        let r = Overlay { entries: Vec::new(), conflicts: Vec::new(), undo: Vec::new(), redo: Vec::new(), open_step: None };
        assert(r@.entries =~= seq![]);
        assert(r@.conflicts =~= seq![]);
        assert(r@.undo =~= seq![]);
        assert(r@.redo =~= seq![]);
        r
    }

    /// Returns the entries, in the order in which they are applied.
    pub fn entries(&self) -> (r: &Vec<OverlayEntry>)
        ensures
            entries_view(r@) == self@.entries,
    {
        &self.entries
    }

    /// Returns the conflicts that have not been resolved, in the order they were raised.
    pub fn conflicts(&self) -> (r: &Vec<Conflict>)
        ensures
            conflicts_view(r@) == self@.conflicts,
    {
        &self.conflicts
    }

    /// Returns whether there is a step to undo.
    pub fn can_undo(&self) -> (r: bool)
        ensures
            r == (self@.undo.len() > 0),
    {
        self.undo.len() > 0
    }

    /// Returns whether there is a step to redo.
    pub fn can_redo(&self) -> (r: bool)
        ensures
            r == (self@.redo.len() > 0),
    {
        self.redo.len() > 0
    }

    /// Adds the entries before a change to the undo history, unless a step is open, in
    /// which case the change belongs to that step, or unless nothing changed.
    fn commit(&mut self, before: Vec<OverlayEntry>)
        ensures
            final(self)@ == spec_commit(old(self)@, entries_view(before@)),
    {
        if self.open_step.is_none() && !same_entries(&before, &self.entries) {
            let ghost start = self@;
            self.undo.push(before);
            self.redo.clear();
            assert(self@.undo =~= start.undo.push(entries_view(before@)));
            assert(self@.redo =~= seq![]);
        }
    }

    /// Opens an undo step, so that everything recorded or reset until
    /// [`Overlay::end_step`] is undone and redone as one step, as for a drag.
    pub fn begin_step(&mut self)
        ensures
            final(self)@ == if old(self)@.open_step is None {
                OverlayView { open_step: Some(old(self)@.entries), ..old(self)@ }
            } else {
                old(self)@
            },
    {
        if self.open_step.is_none() {
            self.open_step = Some(copy_entries(&self.entries));
        }
    }

    /// Closes the open undo step. A step that changed nothing adds nothing to the undo
    /// history.
    pub fn end_step(&mut self)
        ensures
            final(self)@ == match old(self)@.open_step {
                Some(before) => spec_commit(OverlayView { open_step: None, ..old(self)@ }, before),
                None => old(self)@,
            },
    {
        let mut open: Option<Vec<OverlayEntry>> = None;
        std::mem::swap(&mut open, &mut self.open_step);
        if let Some(before) = open {
            self.commit(before);
        }
    }

    /// Records the sets of a transaction made by the user.
    ///
    /// Each set is recorded in order. Recording a set removes every entry of the same
    /// node whose path the new path contains (the same path or a path below it), and
    /// then appends the new entry, so that the successive sets of a drag leave one entry
    /// and setting `projection.view3d` replaces an entry for
    /// `projection.view3d.zoom`. An entry for a path above the new path is kept, and the
    /// new entry is applied after it.
    ///
    /// Unless a step is open (see [`Overlay::begin_step`]), the transaction is one undo
    /// step, and recording it clears the redo history.
    ///
    /// # Errors
    ///
    /// Returns [`EditError::NotASet`], with the index of the first edit that is not a
    /// set, when the transaction holds any other kind of edit; the entries and the undo
    /// and redo history are then left unchanged.
    pub fn record(&mut self, edits: &Vec<EditEffect>) -> (r: Result<(), EditError>)
        ensures
            match spec_record(old(self)@, edits@) {
                Ok(o) => r is Ok && final(self)@ == o,
                Err(e) => r == Err::<(), EditError>(e) && final(self)@ == old(self)@,
            },
    {
        let mut i: usize = 0;
        while i < edits.len()
            invariant
                i <= edits@.len(),
                forall|k: int| 0 <= k < i ==> !not_a_set()(#[trigger] edits@[k]),
            decreases edits.len() - i,
        {
            match &edits[i] {
                EditEffect::SetProperty { .. } => {},
                _ => {
                    proof {
                        crate::edit::tree::lemma_find_first_at(edits@, not_a_set(), i as int);
                    }
                    return Err(EditError::NotASet { edit: Some(i) });
                },
            }
            i = i + 1;
        }
        proof {
            crate::edit::tree::lemma_find_first(edits@, not_a_set());
        }
        let ghost start = self@;
        let before = copy_entries(&self.entries);
        let mut j: usize = 0;
        while j < edits.len()
            invariant
                j <= edits@.len(),
                self@ == (OverlayView { entries: spec_sets(start.entries, edits@.take(j as int)), ..start }),
            decreases edits.len() - j,
        {
            assert(edits@.take(j + 1).drop_last() =~= edits@.take(j as int));
            assert(edits@.take(j + 1).last() == edits@[j as int]);
            if let EditEffect::SetProperty { node, path, value } = &edits[j] {
                let removal = Removal::Below { node: *node, path: path.clone() };
                let mut kept = keep(&self.entries, &removal);
                proof {
                    lemma_filter_same(entries_view(self.entries@), keeps(removal), not_below(*node, path@));
                }
                let entry = OverlayEntry { node: *node, path: path.clone(), value: *value };
                let ghost k = kept@;
                kept.push(entry);
                assert(entries_view(kept@) =~= entries_view(k).push(entry@));
                self.entries = kept;
            }
            j = j + 1;
        }
        assert(edits@.take(j as int) =~= edits@);
        self.commit(before);
        Ok(())
    }

    /// Removes the entry for exactly one node and path, which is what the property
    /// editor's revert control does, and returns whether there was one.
    ///
    /// Only an entry whose node and path are equal to those given is removed: an entry
    /// for a path above it or below it, and every entry of another node, is kept. A
    /// conflict pending on the entry is cleared with it. Unless a step is open, a revert
    /// that removes an entry is one undo step, and a revert that removes nothing adds no
    /// step and leaves the redo history alone.
    pub fn revert(&mut self, node: NodeId, path: &PropertyPath) -> (r: bool)
        ensures
            (final(self)@, r) == spec_revert(old(self)@, node, path@),
    {
        let removal = Removal::Exactly { node, path: path.clone() };
        let kept = keep(&self.entries, &removal);
        proof {
            lemma_filter_same(entries_view(self.entries@), keeps(removal), not_entry(node, path@));
        }
        if kept.len() == self.entries.len() {
            return false;
        }
        let before = copy_entries(&self.entries);
        self.entries = kept;
        self.conflicts = keep_conflicts_except(&self.conflicts, node, path);
        self.commit(before);
        true
    }

    /// Removes the view entries of the given axes, or of every axes.
    fn reset(&mut self, axes: Option<NodeId>)
        ensures
            final(self)@ == spec_reset(old(self)@, axes),
    {
        let before = copy_entries(&self.entries);
        let removal = Removal::View { axes };
        let kept = keep(&self.entries, &removal);
        proof {
            lemma_filter_same(entries_view(self.entries@), keeps(removal), not_view_of(axes));
        }
        self.entries = kept;
        self.commit(before);
    }

    /// Removes the view entries of one axes: the entries of that axes whose path is
    /// `x.limits`, `y.limits`, `z.limits` or `projection.view3d`, or below one of them.
    ///
    /// Every other entry, including the visibility of artists and entries above those
    /// paths (such as `projection`), is kept. Unless a step is open, a reset that
    /// removes an entry is one undo step, and a reset that removes nothing adds no step.
    pub fn reset_view(&mut self, axes: NodeId)
        ensures
            final(self)@ == spec_reset(old(self)@, Some(axes)),
    {
        self.reset(Some(axes));
    }

    /// Removes the view entries of every axes, as [`Overlay::reset_view`] does for one.
    pub fn reset_all_views(&mut self)
        ensures
            final(self)@ == spec_reset(old(self)@, None),
    {
        self.reset(None);
    }

    /// Resolves a conflict: [`Resolution::UseSource`] removes the overlay entry, and
    /// [`Resolution::KeepMine`] keeps it. Either way, every conflict of that entry is
    /// cleared. Returns whether the conflict was pending.
    pub fn resolve(&mut self, conflict: &Conflict, resolution: Resolution) -> (r: bool)
        ensures
            (final(self)@, r) == spec_resolve(old(self)@, conflict@, resolution),
    {
        if !contains_conflict(&self.conflicts, conflict) {
            return false;
        }
        self.conflicts = keep_conflicts_except(&self.conflicts, conflict.node, &conflict.overlay_path);
        if resolution == Resolution::UseSource {
            let removal = Removal::Exactly { node: conflict.node, path: conflict.overlay_path.clone() };
            let kept = keep(&self.entries, &removal);
            proof {
                lemma_filter_same(entries_view(self.entries@), keeps(removal), not_entry(conflict.node, conflict.overlay_path@));
            }
            self.entries = kept;
        }
        true
    }

    /// Removes the given dropped entries from the overlay, without adding an undo step.
    ///
    /// An entry that was discarded never changed what the user saw, so the step that
    /// recorded it is spent: if the discards leave the entries as they were before the
    /// most recent step, that step is removed from the undo history, and the next undo
    /// reaches the change before it. A step some of whose entries survive is kept; the
    /// redo history, which recording cleared, is not restored.
    pub fn discard(&mut self, dropped: &Vec<Dropped>)
        ensures
            final(self)@ == spec_discard(old(self)@, dropped_view(dropped@)),
    {
        let mut listed: Vec<OverlayEntry> = Vec::new();
        let mut i: usize = 0;
        while i < dropped.len()
            invariant
                i <= dropped@.len(),
                entries_view(listed@) == dropped_view(dropped@).take(i as int),
            decreases dropped.len() - i,
        {
            let e = dropped[i].entry.clone();
            let ghost k = listed@;
            listed.push(e);
            assert(entries_view(listed@) =~= entries_view(k).push(e@));
            assert(dropped_view(dropped@).take(i + 1) =~= dropped_view(dropped@).take(i as int).push(e@));
            i = i + 1;
        }
        assert(dropped_view(dropped@).take(i as int) =~= dropped_view(dropped@));
        let removal = Removal::Listed { entries: listed };
        let kept = keep(&self.entries, &removal);
        proof {
            lemma_filter_same(entries_view(self.entries@), keeps(removal), not_listed(dropped_view(dropped@)));
        }
        let ghost start = self@;
        self.entries = kept;
        if self.open_step.is_none() && self.undo.len() > 0 && same_entries(&self.undo[self.undo.len() - 1], &self.entries) {
            self.undo.pop();
            assert(self@.undo =~= start.undo.drop_last());
        }
    }

    /// Returns the entries as a transaction of sets, in order, which is what saving
    /// writes into a source that the viewer owns.
    pub fn to_transaction(&self) -> (r: Vec<EditEffect>)
        ensures
            r@.len() == self@.entries.len(),
            forall|i: int| 0 <= i < r@.len() ==> set_view(#[trigger] r@[i]) == Some(self@.entries[i]),
    {
        let mut r: Vec<EditEffect> = Vec::new();
        let mut i: usize = 0;
        while i < self.entries.len()
            invariant
                i <= self.entries@.len(),
                r@.len() == i,
                forall|k: int| 0 <= k < i ==> set_view(#[trigger] r@[k]) == Some(entries_view(self.entries@)[k]),
            decreases self.entries.len() - i,
        {
            let e = &self.entries[i];
            r.push(EditEffect::SetProperty { node: e.node, path: e.path.clone(), value: e.value });
            i = i + 1;
        }
        r
    }

    /// Drops the entries and conflicts of some nodes, from the entries and from every
    /// step of the history.
    fn drop_nodes(&mut self, nodes: &Vec<NodeId>)
        ensures
            final(self)@ == without_nodes(old(self)@, nodes@),
    {
        self.entries = keep_not_of(&self.entries, nodes);
        self.conflicts = keep_conflicts_not_of(&self.conflicts, nodes);
        self.undo = steps_not_of(&self.undo, nodes);
        self.redo = steps_not_of(&self.redo, nodes);
        let mut open: Option<Vec<OverlayEntry>> = None;
        std::mem::swap(&mut open, &mut self.open_step);
        self.open_step = match open {
            Some(st) => Some(keep_not_of(&st, nodes)),
            None => None,
        };
    }

    /// Compares the overlay with a transaction of the owner, and returns the conflicts
    /// that it raises.
    ///
    /// `tree` is the tree of the source before the transaction was applied to it, from
    /// which the descendants of removed nodes are found; the caller reconciles only a
    /// transaction that the source accepts. For each edit of the transaction, in order:
    ///
    /// - a set of a path that overlaps the path of an entry of the same node (equal to
    ///   it, above it or below it) raises a conflict, and the entry is kept; the node of
    ///   the set is compared, not its link group;
    /// - the removal of a node drops the entries of that node and of its descendants at
    ///   the time of the removal, and their conflicts, without raising a conflict, so
    ///   that an entry never applies to a different node inserted later with the same
    ///   identifier; the same entries are removed from every step of the undo and redo
    ///   history, so that undo never restores them;
    /// - data edits, insertions, moves and sets of paths that do not overlap an entry
    ///   leave the overlay unchanged.
    ///
    /// Reconciling adds no undo step. The conflicts raised are returned, each once, and
    /// are also kept in the overlay until they are resolved; a conflict equal to one that
    /// is already pending is not kept twice.
    pub fn reconcile(&mut self, tree: NodeTree, edits: &Vec<EditEffect>) -> (r: Vec<Conflict>)
        ensures
            (final(self)@, conflicts_view(r@)) == spec_reconcile(old(self)@, tree@, edits@),
    {
        let ghost start: Reconciling = (tree@, self@, Seq::<ConflictView>::empty());
        let mut nodes = tree;
        let mut raised: Vec<Conflict> = Vec::new();
        assert(edits@.skip(0) =~= edits@);
        assert(conflicts_view(raised@) =~= Seq::<ConflictView>::empty());
        let mut i: usize = 0;
        while i < edits.len()
            invariant
                i <= edits@.len(),
                start == (tree@, old(self)@, Seq::<ConflictView>::empty()),
                reconciled((nodes@, self@, conflicts_view(raised@)), edits@.skip(i as int)) == reconciled(start, edits@),
            decreases edits.len() - i,
        {
            let ghost rest = edits@.skip(i as int);
            assert(rest[0] == edits@[i as int]);
            assert(rest.drop_first() =~= edits@.skip(i + 1));
            match &edits[i] {
                EditEffect::SetProperty { node, path, .. } => {
                    raise(&mut raised, &self.entries, *node, path);
                },
                EditEffect::Tree(change) => {
                    if let TreeChange::Remove { node } = change {
                        let removed = nodes.subtree(*node);
                        self.drop_nodes(&removed);
                        raised = keep_conflicts_not_of(&raised, &removed);
                    }
                    nodes.apply(change);
                },
                _ => {},
            }
            i = i + 1;
        }
        assert(edits@.skip(i as int) =~= Seq::<EditEffect>::empty());
        let ghost t = reconciled(start, edits@);
        let ghost pending = self@.conflicts;
        let mut k: usize = 0;
        while k < raised.len()
            invariant
                k <= raised@.len(),
                self@ == (OverlayView { conflicts: spec_add_new(pending, conflicts_view(raised@).take(k as int)), ..t.1 }),
            decreases raised.len() - k,
        {
            let ghost rv = conflicts_view(raised@);
            assert(rv.take(k + 1).drop_last() =~= rv.take(k as int));
            assert(rv.take(k + 1).last() == raised@[k as int]@);
            if !contains_conflict(&self.conflicts, &raised[k]) {
                let c = raised[k].clone();
                let ghost before = self.conflicts@;
                self.conflicts.push(c);
                assert(conflicts_view(self.conflicts@) =~= conflicts_view(before).push(c@));
            }
            k = k + 1;
        }
        assert(conflicts_view(raised@).take(k as int) =~= conflicts_view(raised@));
        raised
    }

    /// Restores the entries to their state before the most recent step, and returns
    /// whether there was a step to undo.
    pub fn undo(&mut self) -> (r: bool)
        ensures
            r == (old(self)@.undo.len() > 0),
            final(self)@ == spec_undo(old(self)@),
    {
        let ghost start = self@;
        match self.undo.pop() {
            None => false,
            Some(mut entries) => {
                std::mem::swap(&mut entries, &mut self.entries);
                self.redo.push(entries);
                assert(self@.undo =~= start.undo.drop_last());
                assert(self@.redo =~= start.redo.push(start.entries));
                true
            },
        }
    }

    /// Re-applies the most recently undone step, and returns whether there was a step to
    /// redo.
    pub fn redo(&mut self) -> (r: bool)
        ensures
            r == (old(self)@.redo.len() > 0),
            final(self)@ == spec_redo(old(self)@),
    {
        let ghost start = self@;
        match self.redo.pop() {
            None => false,
            Some(mut entries) => {
                std::mem::swap(&mut entries, &mut self.entries);
                self.undo.push(entries);
                assert(self@.redo =~= start.redo.drop_last());
                assert(self@.undo =~= start.undo.push(start.entries));
                true
            },
        }
    }
}

impl Default for Overlay {
    fn default() -> (r: Self)
        ensures
            r@ == empty_overlay(),
    {
        Overlay::new()
    }
}

/// Undoing a step and redoing it gives back the overlay as it was, and so does redoing
/// an undone step and undoing it again.
pub proof fn law_undo_redo(o: OverlayView)
    ensures
        o.undo.len() > 0 ==> spec_redo(spec_undo(o)) == o,
        o.redo.len() > 0 ==> spec_undo(spec_redo(o)) == o,
{
    if o.undo.len() > 0 {
        assert(spec_redo(spec_undo(o)).undo =~= o.undo);
        assert(spec_redo(spec_undo(o)).redo =~= o.redo);
    }
    if o.redo.len() > 0 {
        assert(spec_undo(spec_redo(o)).undo =~= o.undo);
        assert(spec_undo(spec_redo(o)).redo =~= o.redo);
    }
}

/// Filtering by a predicate, then by one that only holds where the first does, is
/// filtering by the second.
proof fn lemma_filter_twice<A>(v: Seq<A>, p: spec_fn(A) -> bool, q: spec_fn(A) -> bool)
    requires
        forall|a: A| #[trigger] q(a) ==> p(a),
    ensures
        v.filter(p).filter(q) == v.filter(q),
    decreases v.len(),
{
    broadcast use Seq::lemma_filter_push;
    if v.len() > 0 {
        lemma_filter_twice(v.drop_last(), p, q);
        assert(v =~= v.drop_last().push(v.last()));
    }
}

/// Recording a set of a node's path replaces what an earlier set of that node left at
/// the same path or below it: the successive sets of a drag leave one entry, and setting
/// `projection.view3d` replaces an entry for `projection.view3d.zoom`.
pub proof fn law_set_replaces_below(
    entries: Seq<EntryView>,
    node: NodeId,
    first: Seq<Seq<char>>,
    first_value: ValueId,
    second: Seq<Seq<char>>,
    second_value: ValueId,
)
    requires
        second.is_prefix_of(first),
    ensures
        spec_set(spec_set(entries, node, first, first_value), node, second, second_value)
            == spec_set(entries, node, second, second_value),
{
    broadcast use Seq::lemma_filter_push;
    let kept = entries.filter(not_below(node, first));
    assert(!not_below(node, second)((node, first, first_value))) by {
        assert(first.take(second.len() as int) =~= second);
    }
    assert forall|e: EntryView| #[trigger] not_below(node, second)(e) implies not_below(node, first)(e) by {
        if e.0 == node && first.is_prefix_of(e.1) {
            assert(e.1.take(second.len() as int) =~= first.take(second.len() as int));
        }
    }
    lemma_filter_twice(entries, not_below(node, first), not_below(node, second));
    assert(kept.push((node, first, first_value)).filter(not_below(node, second)) == kept.filter(not_below(node, second)));
}

/// After a set of a node's path is recorded, its entry comes last, and no other entry of
/// that node has the path set or a path below it.
pub proof fn law_set_is_last_and_alone(entries: Seq<EntryView>, node: NodeId, path: Seq<Seq<char>>, value: ValueId)
    ensures
        spec_set(entries, node, path, value).last() == (node, path, value),
        forall|i: int| 0 <= i < spec_set(entries, node, path, value).len() - 1
            ==> !(#[trigger] spec_set(entries, node, path, value)[i].0 == node
                && path.is_prefix_of(spec_set(entries, node, path, value)[i].1)),
{
    let kept = entries.filter(not_below(node, path));
    assert forall|i: int| 0 <= i < spec_set(entries, node, path, value).len() - 1
        implies !(#[trigger] spec_set(entries, node, path, value)[i].0 == node
            && path.is_prefix_of(spec_set(entries, node, path, value)[i].1)) by {
        entries.lemma_filter_pred(not_below(node, path), i);
        assert(spec_set(entries, node, path, value)[i] == kept[i]);
    }
}

/// Reconciling one edit after the others is reconciling them all.
proof fn lemma_reconciled_split(s: Reconciling, a: Seq<EditEffect>, b: Seq<EditEffect>)
    ensures
        reconciled(s, a + b) == reconciled(reconciled(s, a), b),
    decreases a.len(),
{
    if a.len() > 0 {
        assert((a + b)[0] == a[0]);
        assert((a + b).drop_first() =~= a.drop_first() + b);
        lemma_reconciled_split(reconcile_step(s, a[0]), a.drop_first(), b);
    } else {
        assert(a + b =~= b);
    }
}

/// Reconciling keeps the number of steps of the history and whether a step is open.
proof fn lemma_reconciled_history(s: Reconciling, edits: Seq<EditEffect>)
    ensures
        reconciled(s, edits).1.undo.len() == s.1.undo.len(),
        reconciled(s, edits).1.redo.len() == s.1.redo.len(),
        reconciled(s, edits).1.open_step is Some <==> s.1.open_step is Some,
    decreases edits.len(),
{
    if edits.len() > 0 {
        lemma_reconciled_history(reconcile_step(s, edits[0]), edits.drop_first());
    }
}

/// Reconciling a transaction of the owner adds no undo or redo step, and neither opens
/// nor closes a step.
pub proof fn law_reconcile_adds_no_step(o: OverlayView, tree: Seq<AxesView>, edits: Seq<EditEffect>)
    ensures
        spec_reconcile(o, tree, edits).0.undo.len() == o.undo.len(),
        spec_reconcile(o, tree, edits).0.redo.len() == o.redo.len(),
        spec_reconcile(o, tree, edits).0.open_step is Some <==> o.open_step is Some,
{
    lemma_reconciled_history((tree, o, seq![]), edits);
}

/// Filtering a sequence without duplicates leaves none.
proof fn lemma_filter_no_duplicates<A>(v: Seq<A>, p: spec_fn(A) -> bool)
    requires
        v.no_duplicates(),
    ensures
        v.filter(p).no_duplicates(),
    decreases v.len(),
{
    broadcast use Seq::lemma_filter_push;
    if v.len() > 0 {
        let rest = v.drop_last();
        assert(rest.no_duplicates());
        lemma_filter_no_duplicates(rest, p);
        assert(v =~= rest.push(v.last()));
        if p(v.last()) {
            if rest.filter(p).contains(v.last()) {
                rest.lemma_filter_contains_rev(p, v.last());
                let j = choose|j: int| 0 <= j < rest.len() && rest[j] == v.last();
                assert(v[j] == v[v.len() - 1]);
            }
        }
    }
}

/// Raising conflicts keeps a list of them without duplicates.
proof fn lemma_raise_no_duplicates(raised: Seq<ConflictView>, entries: Seq<EntryView>, node: NodeId, path: Seq<Seq<char>>)
    requires
        raised.no_duplicates(),
    ensures
        spec_raise(raised, entries, node, path).no_duplicates(),
    decreases entries.len(),
{
    if entries.len() > 0 {
        lemma_raise_no_duplicates(raised, entries.drop_last(), node, path);
    }
}

/// Adding the conflicts that a list does not hold keeps it without duplicates.
proof fn lemma_add_new_no_duplicates(acc: Seq<ConflictView>, new: Seq<ConflictView>)
    requires
        acc.no_duplicates(),
    ensures
        spec_add_new(acc, new).no_duplicates(),
    decreases new.len(),
{
    if new.len() > 0 {
        lemma_add_new_no_duplicates(acc, new.drop_last());
    }
}

/// Reconciling keeps the pending and the raised conflicts without duplicates.
proof fn lemma_reconciled_no_duplicates(s: Reconciling, edits: Seq<EditEffect>)
    requires
        s.1.conflicts.no_duplicates(),
        s.2.no_duplicates(),
    ensures
        reconciled(s, edits).1.conflicts.no_duplicates(),
        reconciled(s, edits).2.no_duplicates(),
    decreases edits.len(),
{
    if edits.len() > 0 {
        let t = reconcile_step(s, edits[0]);
        match edits[0] {
            EditEffect::SetProperty { node, path, .. } => {
                lemma_raise_no_duplicates(s.2, s.1.entries, node, path@);
            },
            EditEffect::Tree(change) => {
                if let TreeChange::Remove { node } = change {
                    let removed = spec_subtree(s.0, node);
                    lemma_filter_no_duplicates(s.1.conflicts, conflict_not_of(removed));
                    lemma_filter_no_duplicates(s.2, conflict_not_of(removed));
                }
            },
            _ => {},
        }
        lemma_reconciled_no_duplicates(t, edits.drop_first());
    }
}

/// A pending conflict is kept once: reconciling, which adds the conflicts it raises,
/// adds none that is pending already and raises each once, and resolving and reverting
/// only remove conflicts.
pub proof fn law_conflicts_kept_once(
    o: OverlayView,
    tree: Seq<AxesView>,
    edits: Seq<EditEffect>,
    conflict: ConflictView,
    resolution: Resolution,
    node: NodeId,
    path: Seq<Seq<char>>,
)
    requires
        o.conflicts.no_duplicates(),
    ensures
        spec_reconcile(o, tree, edits).0.conflicts.no_duplicates(),
        spec_reconcile(o, tree, edits).1.no_duplicates(),
        spec_resolve(o, conflict, resolution).0.conflicts.no_duplicates(),
        spec_revert(o, node, path).0.conflicts.no_duplicates(),
{
    let t = reconciled((tree, o, seq![]), edits);
    lemma_reconciled_no_duplicates((tree, o, seq![]), edits);
    lemma_add_new_no_duplicates(t.1.conflicts, t.2);
    lemma_filter_no_duplicates(o.conflicts, not_conflict_of_entry(conflict.0, conflict.1));
    lemma_filter_no_duplicates(o.conflicts, not_conflict_of_entry(node, path));
}

/// Whether no entry of a list belongs to a node.
pub open spec fn no_entry_of(entries: Seq<EntryView>, node: NodeId) -> bool {
    forall|i: int| 0 <= i < entries.len() ==> (#[trigger] entries[i]).0 != node
}

/// Whether no conflict of a list belongs to a node.
pub open spec fn no_conflict_of(conflicts: Seq<ConflictView>, node: NodeId) -> bool {
    forall|i: int| 0 <= i < conflicts.len() ==> (#[trigger] conflicts[i]).0 != node
}

/// Whether an overlay holds nothing of a node: no entry, in its entries or in any step
/// of its history, and no pending conflict.
pub open spec fn holds_nothing_of(o: OverlayView, node: NodeId) -> bool {
    &&& no_entry_of(o.entries, node)
    &&& forall|k: int| 0 <= k < o.undo.len() ==> no_entry_of(#[trigger] o.undo[k], node)
    &&& forall|k: int| 0 <= k < o.redo.len() ==> no_entry_of(#[trigger] o.redo[k], node)
    &&& (o.open_step matches Some(st) ==> no_entry_of(st, node))
    &&& no_conflict_of(o.conflicts, node)
}

/// Filtering entries keeps a list that holds no entry of a node without one, and so does
/// filtering out the entries of nodes among which it is.
proof fn lemma_entries_filtered(entries: Seq<EntryView>, nodes: Seq<NodeId>, node: NodeId)
    requires
        no_entry_of(entries, node) || nodes.contains(node),
    ensures
        no_entry_of(entries.filter(not_of_nodes(nodes)), node),
{
    assert forall|i: int| 0 <= i < entries.filter(not_of_nodes(nodes)).len()
        implies (#[trigger] entries.filter(not_of_nodes(nodes))[i]).0 != node by {
        entries.lemma_filter_pred(not_of_nodes(nodes), i);
        let e = entries.filter(not_of_nodes(nodes))[i];
        if !nodes.contains(node) {
            assert(entries.filter(not_of_nodes(nodes)).contains(e));
            entries.lemma_filter_contains_rev(not_of_nodes(nodes), e);
        }
    }
}

/// Filtering conflicts keeps a list that holds no conflict of a node without one, and
/// so does filtering out the conflicts of nodes among which it is.
proof fn lemma_conflicts_filtered(conflicts: Seq<ConflictView>, nodes: Seq<NodeId>, node: NodeId)
    requires
        no_conflict_of(conflicts, node) || nodes.contains(node),
    ensures
        no_conflict_of(conflicts.filter(conflict_not_of(nodes)), node),
{
    assert forall|i: int| 0 <= i < conflicts.filter(conflict_not_of(nodes)).len()
        implies (#[trigger] conflicts.filter(conflict_not_of(nodes))[i]).0 != node by {
        conflicts.lemma_filter_pred(conflict_not_of(nodes), i);
        let c = conflicts.filter(conflict_not_of(nodes))[i];
        if !nodes.contains(node) {
            assert(conflicts.filter(conflict_not_of(nodes)).contains(c));
            conflicts.lemma_filter_contains_rev(conflict_not_of(nodes), c);
        }
    }
}

/// Dropping the entries of some nodes from an overlay that holds nothing of a node, or
/// of nodes among which it is, leaves it holding nothing of the node.
proof fn lemma_without_nodes(o: OverlayView, nodes: Seq<NodeId>, node: NodeId)
    requires
        holds_nothing_of(o, node) || nodes.contains(node),
    ensures
        holds_nothing_of(without_nodes(o, nodes), node),
{
    let r = without_nodes(o, nodes);
    lemma_entries_filtered(o.entries, nodes, node);
    lemma_conflicts_filtered(o.conflicts, nodes, node);
    assert forall|k: int| 0 <= k < r.undo.len() implies no_entry_of(#[trigger] r.undo[k], node) by {
        lemma_entries_filtered(o.undo[k], nodes, node);
    }
    assert forall|k: int| 0 <= k < r.redo.len() implies no_entry_of(#[trigger] r.redo[k], node) by {
        lemma_entries_filtered(o.redo[k], nodes, node);
    }
    if let Some(st) = o.open_step {
        lemma_entries_filtered(st, nodes, node);
    }
}

/// A set raises no conflict of a node that no entry belongs to.
proof fn lemma_raise_none_of(raised: Seq<ConflictView>, entries: Seq<EntryView>, node: NodeId, path: Seq<Seq<char>>, gone: NodeId)
    requires
        no_conflict_of(raised, gone),
        no_entry_of(entries, gone),
    ensures
        no_conflict_of(spec_raise(raised, entries, node, path), gone),
    decreases entries.len(),
{
    if entries.len() > 0 {
        lemma_raise_none_of(raised, entries.drop_last(), node, path, gone);
        assert(entries.last() == entries[entries.len() - 1]);
    }
}

/// Adding conflicts of other nodes to a list with none of a node leaves it with none.
proof fn lemma_add_new_none_of(acc: Seq<ConflictView>, new: Seq<ConflictView>, gone: NodeId)
    requires
        no_conflict_of(acc, gone),
        no_conflict_of(new, gone),
    ensures
        no_conflict_of(spec_add_new(acc, new), gone),
    decreases new.len(),
{
    if new.len() > 0 {
        lemma_add_new_none_of(acc, new.drop_last(), gone);
        assert(new.last() == new[new.len() - 1]);
    }
}

/// Reconciling never adds to an overlay anything of a node it holds nothing of.
proof fn lemma_reconciled_keeps_gone(s: Reconciling, edits: Seq<EditEffect>, gone: NodeId)
    requires
        holds_nothing_of(s.1, gone),
        no_conflict_of(s.2, gone),
    ensures
        holds_nothing_of(reconciled(s, edits).1, gone),
        no_conflict_of(reconciled(s, edits).2, gone),
    decreases edits.len(),
{
    if edits.len() > 0 {
        let t = reconcile_step(s, edits[0]);
        match edits[0] {
            EditEffect::SetProperty { node, path, .. } => {
                lemma_raise_none_of(s.2, s.1.entries, node, path@, gone);
            },
            EditEffect::Tree(change) => {
                if let TreeChange::Remove { node } = change {
                    let removed = spec_subtree(s.0, node);
                    lemma_without_nodes(s.1, removed, gone);
                    lemma_conflicts_filtered(s.2, removed, gone);
                }
            },
            _ => {},
        }
        lemma_reconciled_keeps_gone(t, edits.drop_first(), gone);
    }
}

/// Once a transaction of the owner removes a node, or its ancestor at the time of the
/// removal, nothing of the node is left in the overlay after reconciling: no entry, in
/// the entries or in any step of the undo and redo history, and no conflict, pending or
/// raised. So an entry never applies to a different node inserted later with the same
/// identifier, and undo never restores one.
pub proof fn law_removed_nodes_leave_nothing(o: OverlayView, tree: Seq<AxesView>, edits: Seq<EditEffect>, k: int, gone: NodeId)
    requires
        0 <= k < edits.len(),
        edits[k] matches EditEffect::Tree(TreeChange::Remove { node: removed })
            && spec_subtree(reconciled((tree, o, seq![]), edits.take(k)).0, removed).contains(gone),
    ensures
        holds_nothing_of(spec_reconcile(o, tree, edits).0, gone),
        no_conflict_of(spec_reconcile(o, tree, edits).1, gone),
{
    let start: Reconciling = (tree, o, seq![]);
    let before = reconciled(start, edits.take(k));
    lemma_reconciled_split(start, edits.take(k), edits.skip(k));
    assert(edits.take(k) + edits.skip(k) =~= edits);
    let rest = edits.skip(k);
    assert(rest[0] == edits[k]);
    if let EditEffect::Tree(TreeChange::Remove { node: removed }) = edits[k] {
        let removed_nodes = spec_subtree(before.0, removed);
        lemma_without_nodes(before.1, removed_nodes, gone);
        lemma_conflicts_filtered(before.2, removed_nodes, gone);
        lemma_reconciled_keeps_gone(reconcile_step(before, rest[0]), rest.drop_first(), gone);
    }
    let t = reconciled(start, edits);
    lemma_add_new_none_of(t.1.conflicts, t.2, gone);
}


/// The field of an axes that holds its axis along a dimension.
pub open spec fn axis_field(d: crate::link::Dimension) -> Seq<char> {
    match d {
        crate::link::Dimension::X => "x"@,
        crate::link::Dimension::Y => "y"@,
        crate::link::Dimension::Z => "z"@,
    }
}

/// Resetting the view of an axes removes every entry of that axes that sets its limits
/// along any dimension, or its three-dimensional camera view, or a property below
/// either, and keeps every other entry.
pub proof fn law_reset_view_clears_limits_and_camera(
    o: OverlayView,
    axes: NodeId,
    d: crate::link::Dimension,
    rest: Seq<Seq<char>>,
    value: ValueId,
)
    ensures
        !spec_reset(o, Some(axes)).entries.contains((axes, seq![axis_field(d), "limits"@] + rest, value)),
        !spec_reset(o, Some(axes)).entries.contains((axes, seq!["projection"@, "view3d"@] + rest, value)),
        forall|e: EntryView| e.0 != axes ==> (#[trigger] spec_reset(o, Some(axes)).entries.contains(e) <==> o.entries.contains(e)),
{
    let limits = seq![axis_field(d), "limits"@] + rest;
    let camera = seq!["projection"@, "view3d"@] + rest;
    let i: int = match d {
        crate::link::Dimension::X => 0,
        crate::link::Dimension::Y => 1,
        crate::link::Dimension::Z => 2,
    };
    assert(view_paths()[i] =~= limits.subrange(0, 2));
    assert(view_paths()[i].is_prefix_of(limits));
    assert(view_path(limits));
    assert(view_paths()[3] =~= camera.subrange(0, 2));
    assert(view_paths()[3].is_prefix_of(camera));
    assert(view_path(camera));
    let kept = o.entries.filter(not_view_of(Some(axes)));
    assert(spec_reset(o, Some(axes)).entries == kept);
    broadcast use vstd::seq_lib::group_filter_ensures;
    if kept.contains((axes, limits, value)) {
        let k = choose|k: int| 0 <= k < kept.len() && kept[k] == (axes, limits, value);
        assert(not_view_of(Some(axes))(kept[k]));
    }
    if kept.contains((axes, camera, value)) {
        let k = choose|k: int| 0 <= k < kept.len() && kept[k] == (axes, camera, value);
        assert(not_view_of(Some(axes))(kept[k]));
    }
    assert forall|e: EntryView| e.0 != axes implies (#[trigger] spec_reset(o, Some(axes)).entries.contains(e) <==> o.entries.contains(e)) by {
        if kept.contains(e) {
            o.entries.lemma_filter_contains_rev(not_view_of(Some(axes)), e);
        }
        if o.entries.contains(e) {
            let k = choose|k: int| 0 <= k < o.entries.len() && o.entries[k] == e;
            o.entries.lemma_filter_contains(not_view_of(Some(axes)), k);
        }
    }
}

} // verus!
