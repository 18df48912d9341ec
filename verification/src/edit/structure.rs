//! The structural edits of a figure, decided on the tree of its nodes: inserting an axes
//! or an artist with its subtree, removing a node, and moving a node. Each edit that
//! applies returns its inverse, the edit that undoes it.

use vstd::prelude::*;

use crate::edit::error::{as_index, spec_as_index, EditError};
use crate::edit::tree::{
    axes_is, axes_view, copy_ids, find_first, holds, is_id, lemma_find_first, lemma_find_first_at, position_of,
    position_of_axes, position_of_holder, AxesView,
};
use crate::ids::NodeId;
use crate::link::contains_id;

verus! {

/// A node that can be inserted into a figure, with its subtree, as identifiers.
#[derive(Debug, Clone, PartialEq, Eq)]
pub enum Subtree {
    /// An axes with its artists.
    Axes(NodeId, Vec<NodeId>),
    /// An artist.
    Artist(NodeId),
}

/// A structural edit of a figure.
#[derive(Debug, Clone, PartialEq, Eq)]
pub enum StructuralEdit {
    /// Inserts an axes into the figure, or an artist into an axes, with its subtree.
    Insert {
        /// The parent: the figure for an axes, or an axes for an artist.
        parent: NodeId,
        /// The position in the parent's list at which the node is inserted, or `None`
        /// to append it.
        index: Option<u32>,
        /// The node with its subtree.
        node: Subtree,
    },
    /// Removes a node and its subtree.
    Remove {
        /// The axes or artist to remove.
        node: NodeId,
    },
    /// Moves an axes within the figure's list, or an artist within its axes or to
    /// another axes.
    Move {
        /// The axes or artist to move.
        node: NodeId,
        /// The new parent: the figure for an axes, or an axes for an artist.
        parent: NodeId,
        /// The position in the new parent's list after the node has been removed from
        /// its old position, or `None` to append.
        index: Option<u32>,
    },
}

/// A subtree as identifiers.
pub enum SubtreeView {
    Axes(NodeId, Seq<NodeId>),
    Artist(NodeId),
}

/// A structural edit as identifiers.
pub enum EditView {
    Insert { parent: NodeId, index: Option<u32>, node: SubtreeView },
    Remove { node: NodeId },
    Move { node: NodeId, parent: NodeId, index: Option<u32> },
}

impl View for Subtree {
    type V = SubtreeView;

    open spec fn view(&self) -> SubtreeView {
        match self {
            Subtree::Axes(id, artists) => SubtreeView::Axes(*id, artists@),
            Subtree::Artist(id) => SubtreeView::Artist(*id),
        }
    }
}

impl View for StructuralEdit {
    type V = EditView;

    open spec fn view(&self) -> EditView {
        match self {
            StructuralEdit::Insert { parent, index, node } => EditView::Insert { parent: *parent, index: *index, node: node@ },
            StructuralEdit::Remove { node } => EditView::Remove { node: *node },
            StructuralEdit::Move { node, parent, index } => EditView::Move { node: *node, parent: *parent, index: *index },
        }
    }
}

/// What an identifier names in a figure.
#[derive(Debug, Clone, Copy, PartialEq, Eq, Structural)]
pub enum Place {
    /// The figure, the root.
    Figure,
    /// An axes of the figure.
    Axes,
    /// An artist of an axes.
    Artist,
}

/// The tree of a figure's nodes: the figure's identifier, its axes in drawing order
/// each with its artists in drawing order, and the smallest identifier that the
/// figure's allocator has not handed out.
#[derive(Debug, Clone, PartialEq, Eq)]
pub struct FigureTree {
    /// The identifier of the figure.
    pub figure: NodeId,
    /// The axes, each with its artists.
    pub axes: Vec<(NodeId, Vec<NodeId>)>,
    /// The smallest identifier that has not been handed out by the allocator.
    pub next: u64,
}

pub type TreeView = (NodeId, Seq<AxesView>, u64);

impl View for FigureTree {
    type V = TreeView;

    open spec fn view(&self) -> TreeView {
        (self.figure, axes_view(self.axes@), self.next)
    }
}

/// Whether a figure uses an identifier: for itself, an axes or an artist.
pub open spec fn in_tree(figure: NodeId, axes: Seq<AxesView>, x: NodeId) -> bool {
    x == figure || exists|i: int| 0 <= i < axes.len() && ((#[trigger] axes[i]).0 == x || axes[i].1.contains(x))
}

/// What an identifier names: the figure first, then the first axes with it, then the
/// first axes that holds it as an artist.
pub open spec fn spec_place(figure: NodeId, axes: Seq<AxesView>, node: NodeId) -> Option<Place> {
    if node == figure {
        Some(Place::Figure)
    } else if find_first(axes, axes_is(node)) >= 0 {
        Some(Place::Axes)
    } else if find_first(axes, holds(node)) >= 0 {
        Some(Place::Artist)
    } else {
        None
    }
}

/// The identifiers of a subtree, its root first.
pub open spec fn subtree_ids(node: SubtreeView) -> Seq<NodeId> {
    match node {
        SubtreeView::Axes(id, artists) => seq![id] + artists,
        SubtreeView::Artist(id) => seq![id],
    }
}

pub open spec fn subtree_root(node: SubtreeView) -> NodeId {
    match node {
        SubtreeView::Axes(id, _) => id,
        SubtreeView::Artist(id) => id,
    }
}

/// The position of the first identifier of a list that the figure already uses or that
/// occurs earlier in the list, or -1 when there is none.
pub open spec fn first_repeat(figure: NodeId, axes: Seq<AxesView>, ids: Seq<NodeId>) -> int
    decreases ids.len(),
{
    if ids.len() == 0 {
        -1
    } else {
        let r = first_repeat(figure, axes, ids.drop_last());
        if r >= 0 {
            r
        } else if in_tree(figure, axes, ids.last()) || ids.drop_last().contains(ids.last()) {
            ids.len() - 1
        } else {
            -1
        }
    }
}

/// The identifier after another, or the largest identifier when there is none after it.
pub open spec fn after(id: NodeId) -> u64 {
    if id.0 == u64::MAX {
        u64::MAX
    } else {
        (id.0 + 1) as u64
    }
}

/// The allocator's next identifier once identifiers have been inserted: above each of
/// them, and never lower than before.
pub open spec fn bump(next: u64, ids: Seq<NodeId>) -> u64
    decreases ids.len(),
{
    if ids.len() == 0 {
        next
    } else {
        let n = bump(next, ids.drop_last());
        if after(ids.last()) > n {
            after(ids.last())
        } else {
            n
        }
    }
}

/// The position at which an edit places a node in a list of `len` nodes: the index it
/// names, or the end of the list.
pub open spec fn placed_at(at: Option<u32>, len: int) -> int {
    match at {
        Some(a) => a as int,
        None => spec_as_index(len as usize) as int,
    }
}

/// The outcome of inserting a subtree: the tree afterwards and the inverse edit, or the
/// error. The parent must be known and able to hold the node, no identifier of the
/// subtree may be in use or occur twice, and the position must lie within the list.
pub open spec fn insert_outcome(t: TreeView, parent: NodeId, at: Option<u32>, node: SubtreeView, index: Option<usize>) -> Result<(TreeView, EditView), EditError> {
    let (figure, axes, next) = t;
    let root = subtree_root(node);
    match spec_place(figure, axes, parent) {
        None => Err(EditError::UnknownNode { edit: index, node: parent }),
        Some(place) => {
            let is_axes = node is Axes;
            if (is_axes && place != Place::Figure) || (!is_axes && place != Place::Axes) {
                Err(EditError::InvalidParent { edit: index, node: root, parent })
            } else {
                let ids = subtree_ids(node);
                let r = first_repeat(figure, axes, ids);
                if r >= 0 {
                    Err(EditError::DuplicateId { edit: index, node: ids[r] })
                } else {
                    let target = find_first(axes, axes_is(parent));
                    let len: int = if is_axes { axes.len() as int } else { axes[target].1.len() as int };
                    let pos = placed_at(at, len);
                    if pos > len {
                        Err(EditError::IndexOutOfRange { edit: index, parent, index: pos as u32, len: len as usize })
                    } else {
                        let inserted = match node {
                            SubtreeView::Axes(id, artists) => axes.insert(pos, (id, artists)),
                            SubtreeView::Artist(a) => axes.update(target, (axes[target].0, axes[target].1.insert(pos, a))),
                        };
                        Ok(((figure, inserted, bump(next, ids)), EditView::Remove { node: root }))
                    }
                }
            }
        }
    }
}

/// The outcome of removing a node: the tree afterwards and the edit that inserts the
/// node back where it was, or the error. The figure cannot be removed.
pub open spec fn remove_outcome(t: TreeView, node: NodeId, index: Option<usize>) -> Result<(TreeView, EditView), EditError> {
    let (figure, axes, next) = t;
    if node == figure {
        Err(EditError::RootNode { edit: index, node })
    } else {
        let i = find_first(axes, axes_is(node));
        if i >= 0 {
            Ok((
                (figure, axes.remove(i), next),
                EditView::Insert { parent: figure, index: Some(spec_as_index(i as usize)), node: SubtreeView::Axes(node, axes[i].1) },
            ))
        } else {
            let h = find_first(axes, holds(node));
            if h >= 0 {
                let k = find_first(axes[h].1, is_id(node));
                Ok((
                    (figure, axes.update(h, (axes[h].0, axes[h].1.remove(k))), next),
                    EditView::Insert { parent: axes[h].0, index: Some(spec_as_index(k as usize)), node: SubtreeView::Artist(node) },
                ))
            } else {
                Err(EditError::UnknownNode { edit: index, node })
            }
        }
    }
}

/// The outcome of moving a node: the tree afterwards and the edit that moves it back,
/// or the error. An axes moves within the figure's list and an artist into the list of
/// an axes; the position counts the list without the node.
pub open spec fn move_outcome(t: TreeView, node: NodeId, parent: NodeId, at: Option<u32>, index: Option<usize>) -> Result<(TreeView, EditView), EditError> {
    let (figure, axes, next) = t;
    if node == figure {
        Err(EditError::RootNode { edit: index, node })
    } else {
        match spec_place(figure, axes, node) {
            None => Err(EditError::UnknownNode { edit: index, node }),
            Some(kind) => match spec_place(figure, axes, parent) {
                None => Err(EditError::UnknownNode { edit: index, node: parent }),
                Some(parent_kind) => {
                    let wanted = if kind == Place::Axes { Place::Figure } else { Place::Axes };
                    if parent_kind != wanted {
                        Err(EditError::InvalidParent { edit: index, node, parent })
                    } else if kind == Place::Axes {
                        let from = find_first(axes, axes_is(node));
                        let len = axes.len() - 1;
                        let to = placed_at(at, len);
                        if to > len {
                            Err(EditError::IndexOutOfRange { edit: index, parent, index: to as u32, len: len as usize })
                        } else {
                            Ok((
                                (figure, axes.remove(from).insert(to, axes[from]), next),
                                EditView::Move { node, parent, index: Some(spec_as_index(from as usize)) },
                            ))
                        }
                    } else {
                        let source = find_first(axes, holds(node));
                        let from = find_first(axes[source].1, is_id(node));
                        let target = find_first(axes, axes_is(parent));
                        let len = axes[target].1.len() - if target == source { 1int } else { 0int };
                        let to = placed_at(at, len);
                        if to > len {
                            Err(EditError::IndexOutOfRange { edit: index, parent, index: to as u32, len: len as usize })
                        } else {
                            let removed = axes.update(source, (axes[source].0, axes[source].1.remove(from)));
                            let moved = removed.update(target, (removed[target].0, removed[target].1.insert(to, node)));
                            Ok((
                                (figure, moved, next),
                                EditView::Move { node, parent: axes[source].0, index: Some(spec_as_index(from as usize)) },
                            ))
                        }
                    }
                },
            },
        }
    }
}

/// The outcome of a structural edit.
pub open spec fn edit_outcome(t: TreeView, edit: EditView, index: Option<usize>) -> Result<(TreeView, EditView), EditError> {
    match edit {
        EditView::Insert { parent, index: at, node } => insert_outcome(t, parent, at, node, index),
        EditView::Remove { node } => remove_outcome(t, node, index),
        EditView::Move { node, parent, index: at } => move_outcome(t, node, parent, at, index),
    }
}

/// The largest identifier of a figure.
pub open spec fn largest_id(figure: NodeId, axes: Seq<AxesView>) -> u64
    decreases axes.len(),
{
    if axes.len() == 0 {
        figure.0
    } else {
        let m = largest_id(figure, axes.drop_last());
        let e = axes.last();
        let m2 = if e.0.0 > m { e.0.0 } else { m };
        largest_in(m2, e.1)
    }
}

/// The largest of a bound and the identifiers of a list.
pub open spec fn largest_in(m: u64, ids: Seq<NodeId>) -> u64
    decreases ids.len(),
{
    if ids.len() == 0 {
        m
    } else {
        let n = largest_in(m, ids.drop_last());
        if ids.last().0 > n {
            ids.last().0
        } else {
            n
        }
    }
}

/// The identifier that the allocator hands out next: above the largest identifier of
/// the figure, and at least the allocator's next.
pub open spec fn spec_allocated(figure: NodeId, axes: Seq<AxesView>, next: u64) -> u64 {
    let above = largest_id(figure, axes) + 1;
    if above > next {
        above as u64
    } else {
        next
    }
}

proof fn lemma_largest_in(m: u64, ids: Seq<NodeId>)
    ensures
        largest_in(m, ids) >= m,
        forall|j: int| 0 <= j < ids.len() ==> (#[trigger] ids[j]).0 <= largest_in(m, ids),
    decreases ids.len(),
{
    if ids.len() > 0 {
        lemma_largest_in(m, ids.drop_last());
        assert forall|j: int| 0 <= j < ids.len() implies (#[trigger] ids[j]).0 <= largest_in(m, ids) by {
            if j < ids.len() - 1 {
                assert(ids[j] == ids.drop_last()[j]);
            }
        }
    }
}

proof fn lemma_largest_id(figure: NodeId, axes: Seq<AxesView>, x: NodeId)
    requires
        in_tree(figure, axes, x),
    ensures
        x.0 <= largest_id(figure, axes),
    decreases axes.len(),
{
    if axes.len() > 0 {
        let rest = axes.drop_last();
        let e = axes.last();
        let m = largest_id(figure, rest);
        let m2 = if e.0.0 > m { e.0.0 } else { m };
        lemma_largest_in(m2, e.1);
        if x != figure && !(x == e.0 || e.1.contains(x)) {
            let i = choose|i: int| 0 <= i < axes.len() && ((#[trigger] axes[i]).0 == x || axes[i].1.contains(x));
            assert(i < rest.len());
            assert(rest[i] == axes[i]);
            lemma_largest_id(figure, rest, x);
        } else if x == figure {
            if rest.len() > 0 {
                lemma_largest_id(figure, rest, x);
            }
        } else if e.1.contains(x) {
            let j = choose|j: int| 0 <= j < e.1.len() && e.1[j] == x;
            assert(e.1[j].0 <= largest_in(m2, e.1));
        }
    }
}

impl FigureTree {
    /// Returns what an identifier names in the figure, or `None` when the figure does
    /// not use it.
    pub fn place(&self, node: NodeId) -> (r: Option<Place>)
        ensures
            r == spec_place(self@.0, self@.1, node),
    {
        if node == self.figure {
            Some(Place::Figure)
        } else if position_of_axes(&self.axes, node).is_some() {
            Some(Place::Axes)
        } else if position_of_holder(&self.axes, node).is_some() {
            Some(Place::Artist)
        } else {
            None
        }
    }

    /// Returns the identifiers of every node: the figure, then each axes followed by its
    /// artists.
    pub fn node_ids(&self) -> (r: Vec<NodeId>)
        ensures
            forall|x: NodeId| r@.contains(x) <==> in_tree(self@.0, self@.1, x),
    {
        let ghost axes = self@.1;
        let mut r: Vec<NodeId> = Vec::new();
        r.push(self.figure);
        assert forall|x: NodeId| r@.contains(x) <==> in_tree(self.figure, axes.take(0), x) by {
            lemma_push_contains(Seq::<NodeId>::empty(), self.figure, x);
            assert(r@ == Seq::<NodeId>::empty().push(self.figure));
        }
        let mut i: usize = 0;
        while i < self.axes.len()
            invariant
                i <= self.axes@.len(),
                axes == axes_view(self.axes@),
                forall|x: NodeId| r@.contains(x) <==> in_tree(self.figure, axes.take(i as int), x),
            decreases self.axes.len() - i,
        {
            let ghost before = r@;
            r.push(self.axes[i].0);
            let artists = &self.axes[i].1;
            let mut k: usize = 0;
            while k < artists.len()
                invariant
                    k <= artists@.len(),
                    r@ == before.push(self.axes@[i as int].0) + artists@.take(k as int),
                decreases artists.len() - k,
            {
                r.push(artists[k]);
                assert(r@ =~= before.push(self.axes@[i as int].0) + artists@.take(k + 1));
                k = k + 1;
            }
            assert(artists@.take(k as int) =~= artists@);
            assert forall|x: NodeId| r@.contains(x) <==> in_tree(self.figure, axes.take(i + 1), x) by {
                let t = axes.take(i + 1);
                assert(t[i as int] == (self.axes@[i as int].0, artists@));
                if r@.contains(x) {
                    let j = choose|j: int| 0 <= j < r@.len() && r@[j] == x;
                    if j < before.len() {
                        assert(before.contains(x));
                        if x != self.figure {
                            let a = choose|a: int| 0 <= a < i && ((#[trigger] axes.take(i as int)[a]).0 == x || axes.take(i as int)[a].1.contains(x));
                            assert(t[a] == axes.take(i as int)[a]);
                        }
                    } else if j == before.len() {
                        assert(t[i as int].0 == x);
                    } else {
                        assert(artists@[j - before.len() - 1] == x);
                        assert(t[i as int].1.contains(x));
                    }
                }
                if in_tree(self.figure, t, x) {
                    if x == self.figure {
                        assert(before.contains(x));
                        assert(r@[before.index_of(x)] == x);
                    } else {
                        let a = choose|a: int| 0 <= a < t.len() && ((#[trigger] t[a]).0 == x || t[a].1.contains(x));
                        if a < i {
                            assert(axes.take(i as int)[a] == t[a]);
                            assert(in_tree(self.figure, axes.take(i as int), x));
                            assert(before.contains(x));
                            assert(r@[before.index_of(x)] == x);
                        } else if t[a].0 == x {
                            assert(r@[before.len() as int] == x);
                        } else {
                            let m = choose|m: int| 0 <= m < artists@.len() && artists@[m] == x;
                            assert(r@[before.len() + 1 + m] == x);
                        }
                    }
                }
            }
            i = i + 1;
        }
        assert(axes.take(i as int) =~= axes);
        r
    }

    /// Inserts an axes into the figure, or an artist into an axes, with its subtree, and
    /// returns the edit that removes it again.
    ///
    /// Every identifier of the subtree raises the allocator's next identifier above it.
    #[verifier::loop_isolation(false)]
    pub fn apply_insert(&mut self, parent: NodeId, at: Option<u32>, node: Subtree, index: Option<usize>) -> (r: Result<StructuralEdit, EditError>)
        ensures
            match insert_outcome(old(self)@, parent, at, node@, index) {
                Ok((t, inverse)) => r matches Ok(e) && e@ == inverse && final(self)@ == t,
                Err(e) => r == Err::<StructuralEdit, EditError>(e) && final(self)@ == old(self)@,
            },
    {
        let ghost view = node@;
        let ids: Vec<NodeId> = match &node {
            Subtree::Axes(a, artists) => {
                let mut v: Vec<NodeId> = Vec::new();
                v.push(*a);
                let mut k: usize = 0;
                while k < artists.len()
                    invariant
                        k <= artists@.len(),
                        v@ == seq![*a] + artists@.take(k as int),
                    decreases artists.len() - k,
                {
                    v.push(artists[k]);
                    assert(v@ =~= seq![*a] + artists@.take(k + 1));
                    k = k + 1;
                }
                assert(artists@.take(k as int) =~= artists@);
                v
            },
            Subtree::Artist(a) => vec![*a],
        };
        assert(ids@ == subtree_ids(view));
        let root = ids[0];
        let parent_kind = match self.place(parent) {
            Some(p) => p,
            None => {
                return Err(EditError::UnknownNode { edit: index, node: parent });
            },
        };
        let is_axes = match &node {
            Subtree::Axes(..) => true,
            Subtree::Artist(_) => false,
        };
        let fits = if is_axes { parent_kind == Place::Figure } else { parent_kind == Place::Axes };
        if !fits {
            return Err(EditError::InvalidParent { edit: index, node: root, parent });
        }
        let ghost figure = self.figure;
        let ghost axes = self@.1;
        let mut used = self.node_ids();
        let mut k: usize = 0;
        while k < ids.len()
            invariant
                k <= ids@.len(),
                figure == self.figure,
                axes == self@.1,
                forall|x: NodeId| used@.contains(x) <==> (in_tree(figure, axes, x) || ids@.take(k as int).contains(x)),
                first_repeat(figure, axes, ids@.take(k as int)) == -1,
            decreases ids.len() - k,
        {
            let id = ids[k];
            assert(ids@.take(k + 1).drop_last() =~= ids@.take(k as int));
            assert(ids@.take(k + 1).last() == id);
            if contains_id(&used, id) {
                assert(first_repeat(figure, axes, ids@.take(k + 1)) == k);
                proof {
                    lemma_first_repeat_prefix(figure, axes, ids@, k as int + 1);
                }
                assert(insert_outcome(old(self)@, parent, at, view, index) == Err::<(TreeView, EditView), EditError>(
                    EditError::DuplicateId { edit: index, node: id },
                ));
                return Err(EditError::DuplicateId { edit: index, node: id });
            }
            let ghost before = used@;
            used.push(id);
            assert forall|x: NodeId| used@.contains(x) <==> (in_tree(figure, axes, x) || ids@.take(k + 1).contains(x)) by {
                assert(ids@.take(k + 1) == ids@.take(k as int).push(id));
                lemma_push_contains(before, id, x);
                lemma_push_contains(ids@.take(k as int), id, x);
            }
            k = k + 1;
        }
        assert(ids@.take(k as int) =~= ids@);
        let target: usize = if is_axes {
            0
        } else {
            match position_of_axes(&self.axes, parent) {
                Some(t) => t,
                None => {
                    return Err(EditError::UnknownNode { edit: index, node: parent });
                },
            }
        };
        let len: usize = if is_axes { self.axes.len() } else { self.axes[target].1.len() };
        let pos: u32 = match at {
            Some(a) => a,
            None => as_index(len),
        };
        if pos as usize > len {
            return Err(EditError::IndexOutOfRange { edit: index, parent, index: pos, len });
        }
        let ghost old_axes = self.axes@;
        match node {
            Subtree::Axes(a, artists) => {
                self.axes.insert(pos as usize, (a, artists));
                assert(axes_view(self.axes@) =~= axes.insert(pos as int, (a, artists@)));
            },
            Subtree::Artist(a) => {
                let (tid, mut list) = self.axes.remove(target);
                list.insert(pos as usize, a);
                self.axes.insert(target, (tid, list));
                assert(axes_view(self.axes@) =~= axes.update(target as int, (axes[target as int].0, axes[target as int].1.insert(pos as int, a))));
            },
        }
        let ghost inserted = axes_view(self.axes@);
        let mut k: usize = 0;
        while k < ids.len()
            invariant
                k <= ids@.len(),
                self.figure == old(self).figure,
                axes_view(self.axes@) == inserted,
                self.next == bump(old(self).next, ids@.take(k as int)),
            decreases ids.len() - k,
        {
            let id = ids[k];
            let bumped: u64 = if id.0 == u64::MAX { u64::MAX } else { id.0 + 1 };
            if bumped > self.next {
                self.next = bumped;
            }
            assert(ids@.take(k + 1).drop_last() =~= ids@.take(k as int));
            k = k + 1;
        }
        assert(ids@.take(k as int) =~= ids@);
        assert(insert_outcome(old(self)@, parent, at, view, index) == Ok::<(TreeView, EditView), EditError>(
            ((figure, inserted, self.next), EditView::Remove { node: root }),
        ));
        Ok(StructuralEdit::Remove { node: root })
    }

    /// Removes an axes or an artist with its subtree, and returns the edit that inserts
    /// it back where it was.
    pub fn apply_remove(&mut self, node: NodeId, index: Option<usize>) -> (r: Result<StructuralEdit, EditError>)
        ensures
            match remove_outcome(old(self)@, node, index) {
                Ok((t, inverse)) => r matches Ok(e) && e@ == inverse && final(self)@ == t,
                Err(e) => r == Err::<StructuralEdit, EditError>(e) && final(self)@ == old(self)@,
            },
    {
        let ghost axes = self@.1;
        if node == self.figure {
            return Err(EditError::RootNode { edit: index, node });
        }
        if let Some(i) = position_of_axes(&self.axes, node) {
            let (id, artists) = self.axes.remove(i);
            assert(axes_view(self.axes@) =~= axes.remove(i as int));
            return Ok(StructuralEdit::Insert {
                parent: self.figure,
                index: Some(as_index(i)),
                node: Subtree::Axes(id, artists),
            });
        }
        if let Some(h) = position_of_holder(&self.axes, node) {
            let (id, mut artists) = self.axes.remove(h);
            let k = match position_of(&artists, node) {
                Some(k) => k,
                None => {
                    self.axes.insert(h, (id, artists));
                    assert(axes_view(self.axes@) =~= axes);
                    return Err(EditError::UnknownNode { edit: index, node });
                },
            };
            artists.remove(k);
            self.axes.insert(h, (id, artists));
            assert(axes_view(self.axes@) =~= axes.update(h as int, (axes[h as int].0, axes[h as int].1.remove(k as int))));
            return Ok(StructuralEdit::Insert {
                parent: id,
                index: Some(as_index(k)),
                node: Subtree::Artist(node),
            });
        }
        Err(EditError::UnknownNode { edit: index, node })
    }

    /// Moves an axes within the figure's list, or an artist within its axes or to
    /// another axes, and returns the edit that moves it back.
    pub fn apply_move(&mut self, node: NodeId, parent: NodeId, at: Option<u32>, index: Option<usize>) -> (r: Result<StructuralEdit, EditError>)
        ensures
            match move_outcome(old(self)@, node, parent, at, index) {
                Ok((t, inverse)) => r matches Ok(e) && e@ == inverse && final(self)@ == t,
                Err(e) => r == Err::<StructuralEdit, EditError>(e) && final(self)@ == old(self)@,
            },
    {
        let ghost axes = self@.1;
        if node == self.figure {
            return Err(EditError::RootNode { edit: index, node });
        }
        let kind = match self.place(node) {
            Some(k) => k,
            None => {
                return Err(EditError::UnknownNode { edit: index, node });
            },
        };
        let parent_kind = match self.place(parent) {
            Some(k) => k,
            None => {
                return Err(EditError::UnknownNode { edit: index, node: parent });
            },
        };
        let wanted = if kind == Place::Axes { Place::Figure } else { Place::Axes };
        if parent_kind != wanted {
            return Err(EditError::InvalidParent { edit: index, node, parent });
        }
        if kind == Place::Axes {
            let from = match position_of_axes(&self.axes, node) {
                Some(f) => f,
                None => {
                    return Err(EditError::UnknownNode { edit: index, node });
                },
            };
            let len = self.axes.len() - 1;
            let to: u32 = match at {
                Some(a) => a,
                None => as_index(len),
            };
            if to as usize > len {
                return Err(EditError::IndexOutOfRange { edit: index, parent, index: to, len });
            }
            let moved = self.axes.remove(from);
            self.axes.insert(to as usize, moved);
            assert(axes_view(self.axes@) =~= axes.remove(from as int).insert(to as int, axes[from as int]));
            return Ok(StructuralEdit::Move { node, parent, index: Some(as_index(from)) });
        }
        let source = match position_of_holder(&self.axes, node) {
            Some(s) => s,
            None => {
                return Err(EditError::UnknownNode { edit: index, node });
            },
        };
        let from = match position_of(&self.axes[source].1, node) {
            Some(f) => f,
            None => {
                return Err(EditError::UnknownNode { edit: index, node });
            },
        };
        let target = match position_of_axes(&self.axes, parent) {
            Some(t) => t,
            None => {
                return Err(EditError::UnknownNode { edit: index, node: parent });
            },
        };
        let len = self.axes[target].1.len() - if target == source { 1usize } else { 0usize };
        let to: u32 = match at {
            Some(a) => a,
            None => as_index(len),
        };
        if to as usize > len {
            return Err(EditError::IndexOutOfRange { edit: index, parent, index: to, len });
        }
        let source_id = self.axes[source].0;
        let (sid, mut artists) = self.axes.remove(source);
        artists.remove(from);
        self.axes.insert(source, (sid, artists));
        let ghost removed = axes.update(source as int, (axes[source as int].0, axes[source as int].1.remove(from as int)));
        assert(axes_view(self.axes@) =~= removed);
        let (tid, mut list) = self.axes.remove(target);
        list.insert(to as usize, node);
        self.axes.insert(target, (tid, list));
        assert(axes_view(self.axes@) =~= removed.update(target as int, (removed[target as int].0, removed[target as int].1.insert(to as int, node))));
        Ok(StructuralEdit::Move { node, parent: source_id, index: Some(as_index(from)) })
    }

    /// Applies a structural edit and returns its inverse, leaving the tree unchanged
    /// when the edit cannot be applied.
    pub fn apply_edit(&mut self, edit: StructuralEdit, index: Option<usize>) -> (r: Result<StructuralEdit, EditError>)
        ensures
            match edit_outcome(old(self)@, edit@, index) {
                Ok((t, inverse)) => r matches Ok(e) && e@ == inverse && final(self)@ == t,
                Err(e) => r == Err::<StructuralEdit, EditError>(e) && final(self)@ == old(self)@,
            },
    {
        match edit {
            StructuralEdit::Insert { parent, index: at, node } => self.apply_insert(parent, at, node, index),
            StructuralEdit::Remove { node } => self.apply_remove(node, index),
            StructuralEdit::Move { node, parent, index: at } => self.apply_move(node, parent, at, index),
        }
    }

    /// Allocates a node identifier that differs from the figure's identifier, every
    /// axes and artist identifier in the figure, and every identifier previously
    /// allocated: the identifier above the largest present, or the allocator's next
    /// when that is larger.
    pub fn alloc_node_id(&mut self) -> (r: NodeId)
        requires
            spec_allocated(old(self)@.0, old(self)@.1, old(self)@.2) < u64::MAX,
            largest_id(old(self)@.0, old(self)@.1) < u64::MAX,
        ensures
            r.0 == spec_allocated(old(self)@.0, old(self)@.1, old(self)@.2),
            final(self)@ == (old(self)@.0, old(self)@.1, (r.0 + 1) as u64),
            !in_tree(old(self)@.0, old(self)@.1, r),
            r.0 >= old(self)@.2,
    {
        let ghost axes = self@.1;
        let mut largest: u64 = self.figure.0;
        let mut i: usize = 0;
        while i < self.axes.len()
            invariant
                i <= self.axes@.len(),
                axes == axes_view(self.axes@),
                largest == largest_id(self.figure, axes.take(i as int)),
            decreases self.axes.len() - i,
        {
            assert(axes.take(i + 1).drop_last() =~= axes.take(i as int));
            if self.axes[i].0.0 > largest {
                largest = self.axes[i].0.0;
            }
            let ghost start = largest;
            let artists = &self.axes[i].1;
            let mut k: usize = 0;
            while k < artists.len()
                invariant
                    k <= artists@.len(),
                    largest == largest_in(start, artists@.take(k as int)),
                decreases artists.len() - k,
            {
                assert(artists@.take(k + 1).drop_last() =~= artists@.take(k as int));
                if artists[k].0 > largest {
                    largest = artists[k].0;
                }
                k = k + 1;
            }
            assert(artists@.take(k as int) =~= artists@);
            assert(axes.take(i + 1).last() == (self.axes@[i as int].0, artists@));
            i = i + 1;
        }
        assert(axes.take(i as int) =~= axes);
        let above = largest + 1;
        let id = if above > self.next { above } else { self.next };
        self.next = id + 1;
        proof {
            if in_tree(self.figure, axes, NodeId(id)) {
                lemma_largest_id(self.figure, axes, NodeId(id));
            }
        }
        NodeId(id)
    }
}

proof fn lemma_push_contains<T>(s: Seq<T>, a: T, x: T)
    ensures
        s.push(a).contains(x) <==> (s.contains(x) || x == a),
{
    if s.contains(x) {
        let j = choose|j: int| 0 <= j < s.len() && s[j] == x;
        assert(s.push(a)[j] == x);
    }
    if x == a {
        assert(s.push(a)[s.len() as int] == x);
    }
    if s.push(a).contains(x) && x != a {
        let j = choose|j: int| 0 <= j < s.push(a).len() && s.push(a)[j] == x;
        assert(s[j] == x);
    }
}

proof fn lemma_first_repeat_prefix(figure: NodeId, axes: Seq<AxesView>, ids: Seq<NodeId>, n: int)
    requires
        0 <= n <= ids.len(),
        first_repeat(figure, axes, ids.take(n)) >= 0,
    ensures
        first_repeat(figure, axes, ids) == first_repeat(figure, axes, ids.take(n)),
    decreases ids.len() - n,
{
    if n < ids.len() {
        assert(ids.take(n + 1).drop_last() =~= ids.take(n));
        lemma_first_repeat_prefix(figure, axes, ids, n + 1);
    } else {
        assert(ids.take(n) =~= ids);
    }
}

/// Whether no two nodes of a figure share an identifier: the figure, the axes and the
/// artists all have identifiers of their own.
pub open spec fn distinct_nodes(figure: NodeId, axes: Seq<AxesView>) -> bool {
    &&& forall|i: int| 0 <= i < axes.len() ==> (#[trigger] axes[i]).0 != figure && !axes[i].1.contains(figure)
    &&& forall|i: int, j: int| 0 <= i < axes.len() && 0 <= j < axes.len() && i != j ==> (#[trigger] axes[i]).0 != (#[trigger] axes[j]).0
    &&& forall|i: int, j: int| 0 <= i < axes.len() && 0 <= j < axes.len() ==> !(#[trigger] axes[i]).1.contains((#[trigger] axes[j]).0)
    &&& forall|i: int| 0 <= i < axes.len() ==> (#[trigger] axes[i]).1.no_duplicates()
    &&& forall|i: int, j: int| 0 <= i < axes.len() && 0 <= j < axes.len() && i != j ==> (#[trigger] axes[i]).1.disjoint((#[trigger] axes[j]).1)
}

/// Whether every position in the figure's lists can be written as the index of an edit.
pub open spec fn indexable(axes: Seq<AxesView>) -> bool {
    axes.len() <= u32::MAX && forall|i: int| 0 <= i < axes.len() ==> (#[trigger] axes[i]).1.len() <= u32::MAX
}

proof fn lemma_insert_remove<T>(s: Seq<T>, i: int, x: T)
    requires
        0 <= i <= s.len(),
    ensures
        s.insert(i, x).remove(i) == s,
        s.insert(i, x)[i] == x,
        s.insert(i, x).len() == s.len() + 1,
{
    s.insert_ensures(i, x);
    s.insert(i, x).remove_ensures(i);
    assert(s.insert(i, x).remove(i) =~= s);
}

proof fn lemma_remove_insert<T>(s: Seq<T>, i: int)
    requires
        0 <= i < s.len(),
    ensures
        s.remove(i).insert(i, s[i]) == s,
{
    s.remove_ensures(i);
    s.remove(i).insert_ensures(i, s[i]);
    assert(s.remove(i).insert(i, s[i]) =~= s);
}

/// An element that a sequence holds once is not in the sequence without it.
proof fn lemma_remove_only<T>(s: Seq<T>, k: int)
    requires
        0 <= k < s.len(),
        s.no_duplicates(),
    ensures
        !s.remove(k).contains(s[k]),
        forall|x: T| x != s[k] ==> (s.remove(k).contains(x) <==> s.contains(x)),
{
    s.remove_ensures(k);
    let r = s.remove(k);
    if r.contains(s[k]) {
        let j = choose|j: int| 0 <= j < r.len() && r[j] == s[k];
        if j < k {
            assert(s[j] == s[k]);
        } else {
            assert(s[j + 1] == s[k]);
        }
    }
    assert forall|x: T| x != s[k] implies (r.contains(x) <==> s.contains(x)) by {
        if r.contains(x) {
            let j = choose|j: int| 0 <= j < r.len() && r[j] == x;
            if j < k {
                assert(s[j] == x);
            } else {
                assert(s[j + 1] == x);
            }
        }
        if s.contains(x) {
            let j = choose|j: int| 0 <= j < s.len() && s[j] == x;
            if j < k {
                assert(r[j] == x);
            } else {
                assert(j != k);
                assert(r[j - 1] == x);
            }
        }
    }
}

/// Inserting an element adds it and keeps every other element.
proof fn lemma_insert_contains<T>(s: Seq<T>, i: int, x: T, y: T)
    requires
        0 <= i <= s.len(),
    ensures
        s.insert(i, x).contains(y) <==> (s.contains(y) || y == x),
{
    s.insert_ensures(i, x);
    let t = s.insert(i, x);
    if t.contains(y) {
        let j = choose|j: int| 0 <= j < t.len() && t[j] == y;
        if j < i {
            assert(s[j] == y);
        } else if j > i {
            assert(s[j - 1] == y);
        }
    }
    if s.contains(y) {
        let j = choose|j: int| 0 <= j < s.len() && s[j] == y;
        if j < i {
            assert(t[j] == y);
        } else {
            assert(t[j + 1] == y);
        }
    }
    if y == x {
        assert(t[i] == y);
    }
}

/// No identifier of a list is in use nor repeated when none is found.
proof fn lemma_no_repeat(figure: NodeId, axes: Seq<AxesView>, ids: Seq<NodeId>)
    requires
        first_repeat(figure, axes, ids) == -1,
    ensures
        forall|k: int| 0 <= k < ids.len() ==> !in_tree(figure, axes, #[trigger] ids[k]),
        ids.no_duplicates(),
    decreases ids.len(),
{
    if ids.len() > 0 {
        let rest = ids.drop_last();
        lemma_no_repeat(figure, axes, rest);
        assert forall|k: int| 0 <= k < ids.len() implies !in_tree(figure, axes, #[trigger] ids[k]) by {
            if k < rest.len() {
                assert(rest[k] == ids[k]);
            }
        }
        assert forall|a: int, b: int| 0 <= a < ids.len() && 0 <= b < ids.len() && a != b implies ids[a] != ids[b] by {
            if a < rest.len() && b < rest.len() {
                assert(rest[a] == ids[a] && rest[b] == ids[b]);
            } else if a < rest.len() {
                assert(rest[a] == ids[a]);
                assert(rest.contains(ids[a]));
            } else {
                assert(rest[b] == ids[b]);
                assert(rest.contains(ids[b]));
            }
        }
    }
}

/// A list of identifiers none of which is in use, and none repeated, has no repeat.
proof fn lemma_first_repeat_none(figure: NodeId, axes: Seq<AxesView>, ids: Seq<NodeId>)
    requires
        forall|k: int| 0 <= k < ids.len() ==> !in_tree(figure, axes, #[trigger] ids[k]),
        ids.no_duplicates(),
    ensures
        first_repeat(figure, axes, ids) == -1,
    decreases ids.len(),
{
    if ids.len() > 0 {
        let rest = ids.drop_last();
        assert forall|k: int| 0 <= k < rest.len() implies !in_tree(figure, axes, #[trigger] rest[k]) by {
            assert(rest[k] == ids[k]);
        }
        lemma_first_repeat_none(figure, axes, rest);
        assert(!in_tree(figure, axes, ids[ids.len() - 1]));
        if rest.contains(ids.last()) {
            let j = choose|j: int| 0 <= j < rest.len() && rest[j] == ids.last();
            assert(ids[j] == ids[ids.len() - 1]);
        }
    }
}

/// The edit returned by an insertion undoes it: removing the inserted node restores
/// the figure's tree.
pub proof fn law_insert_undone(t: TreeView, parent: NodeId, at: Option<u32>, node: SubtreeView, index: Option<usize>, undo: Option<usize>)
    requires
        insert_outcome(t, parent, at, node, index) is Ok,
    ensures
        ({
            let (t1, inverse) = insert_outcome(t, parent, at, node, index)->Ok_0;
            edit_outcome(t1, inverse, undo) matches Ok((t2, _)) && t2.0 == t.0 && t2.1 == t.1
        }),
{
    let (figure, axes, next) = t;
    let ids = subtree_ids(node);
    let root = subtree_root(node);
    lemma_no_repeat(figure, axes, ids);
    assert(ids[0] == root);
    assert(!in_tree(figure, axes, root));
    let (t1, inverse) = insert_outcome(t, parent, at, node, index)->Ok_0;
    let a1 = t1.1;
    assert(inverse == EditView::Remove { node: root });
    assert(root != figure);
    lemma_find_first(axes, axes_is(parent));
    let target = find_first(axes, axes_is(parent));
    let len: int = if node is Axes { axes.len() as int } else { axes[target].1.len() as int };
    let pos = placed_at(at, len);
    match node {
        SubtreeView::Axes(id, artists) => {
            assert(a1 == axes.insert(pos, (id, artists)));
            lemma_insert_remove(axes, pos, (id, artists));
            axes.insert_ensures(pos, (id, artists));
            assert forall|j: int| 0 <= j < pos implies !axes_is(root)(#[trigger] a1[j]) by {
                assert(a1[j] == axes[j]);
                if a1[j].0 == root {
                    assert(in_tree(figure, axes, root));
                }
            }
            lemma_find_first_at(a1, axes_is(root), pos);
        },
        SubtreeView::Artist(a) => {
            let list = axes[target].1;
            assert(a1 == axes.update(target, (axes[target].0, list.insert(pos, a))));
            assert forall|j: int| 0 <= j < a1.len() implies !axes_is(a)(#[trigger] a1[j]) by {
                assert(a1[j].0 == axes[j].0);
                if a1[j].0 == a {
                    assert(in_tree(figure, axes, a));
                }
            }
            lemma_find_first(a1, axes_is(a));
            lemma_insert_contains(list, pos, a, a);
            assert forall|j: int| 0 <= j < target implies !holds(a)(#[trigger] a1[j]) by {
                assert(a1[j] == axes[j]);
                if a1[j].1.contains(a) {
                    assert(in_tree(figure, axes, a));
                }
            }
            lemma_find_first_at(a1, holds(a), target);
            list.insert_ensures(pos, a);
            assert forall|j: int| 0 <= j < pos implies !is_id(a)(#[trigger] list.insert(pos, a)[j]) by {
                assert(list.insert(pos, a)[j] == list[j]);
                if list[j] == a {
                    assert(axes[target].1.contains(a));
                    assert(in_tree(figure, axes, a));
                }
            }
            lemma_find_first_at(list.insert(pos, a), is_id(a), pos);
            lemma_insert_remove(list, pos, a);
            assert(a1.update(target, (a1[target].0, a1[target].1.remove(pos))) =~= axes);
        },
    }
}

/// The edit returned by a removal undoes it: inserting the node back restores the
/// figure's tree, when no two nodes share an identifier.
pub proof fn law_remove_undone(t: TreeView, node: NodeId, index: Option<usize>, undo: Option<usize>)
    requires
        distinct_nodes(t.0, t.1),
        indexable(t.1),
        remove_outcome(t, node, index) is Ok,
    ensures
        ({
            let (t1, inverse) = remove_outcome(t, node, index)->Ok_0;
            edit_outcome(t1, inverse, undo) matches Ok((t2, _)) && t2.0 == t.0 && t2.1 == t.1
        }),
{
    let (figure, axes, next) = t;
    let (t1, inverse) = remove_outcome(t, node, index)->Ok_0;
    let a1 = t1.1;
    lemma_find_first(axes, axes_is(node));
    lemma_find_first(axes, holds(node));
    let i = find_first(axes, axes_is(node));
    if i >= 0 {
        let list = axes[i].1;
        axes.remove_ensures(i);
        assert(a1 == axes.remove(i));
        assert(inverse == EditView::Insert { parent: figure, index: Some(i as u32), node: SubtreeView::Axes(node, list) });
        // The figure is the parent, and none of the reinserted identifiers is in use.
        let ids = subtree_ids(SubtreeView::Axes(node, list));
        assert forall|k: int| 0 <= k < ids.len() implies !in_tree(figure, a1, #[trigger] ids[k]) by {
            let x = ids[k];
            if k == 0 {
                assert(x == axes[i].0);
            } else {
                assert(x == list[k - 1]);
                assert(list.contains(x));
            }
            if in_tree(figure, a1, x) && x != figure {
                let m = choose|m: int| 0 <= m < a1.len() && ((#[trigger] a1[m]).0 == x || a1[m].1.contains(x));
                let m2 = if m < i { m } else { m + 1 };
                assert(a1[m] == axes[m2]);
                if k > 0 && axes[m2].1.contains(x) {
                    let p = choose|p: int| 0 <= p < axes[m2].1.len() && axes[m2].1[p] == x;
                    let q = choose|q: int| 0 <= q < list.len() && list[q] == x;
                    assert(axes[i].1.disjoint(axes[m2].1));
                }
            }
        }
        assert(ids.no_duplicates()) by {
            assert forall|a: int, b: int| 0 <= a < ids.len() && 0 <= b < ids.len() && a != b implies ids[a] != ids[b] by {
                if a > 0 && b > 0 {
                    assert(ids[a] == list[a - 1] && ids[b] == list[b - 1]);
                } else if a == 0 {
                    assert(ids[b] == list[b - 1]);
                    assert(list.contains(ids[b]));
                } else {
                    assert(ids[a] == list[a - 1]);
                    assert(list.contains(ids[a]));
                }
            }
        }
        lemma_first_repeat_none(figure, a1, ids);
        lemma_remove_insert(axes, i);
        assert(axes[i] == (node, list));
    } else {
        let h = find_first(axes, holds(node));
        let list = axes[h].1;
        let owner = axes[h].0;
        lemma_find_first(list, is_id(node));
        let k = find_first(list, is_id(node));
        assert(k >= 0) by {
            if k == -1 {
                let p = choose|p: int| 0 <= p < list.len() && list[p] == node;
                assert(!is_id(node)(list[p]));
            }
        }
        assert(list[k] == node);
        assert(a1 == axes.update(h, (owner, list.remove(k))));
        assert(inverse == EditView::Insert { parent: owner, index: Some(k as u32), node: SubtreeView::Artist(node) });
        lemma_remove_only(list, k);
        list.remove_ensures(k);
        // The owner is still an axes, found where it was.
        assert forall|j: int| 0 <= j < h implies !axes_is(owner)(#[trigger] a1[j]) by {
            assert(a1[j] == axes[j]);
        }
        lemma_find_first_at(a1, axes_is(owner), h);
        assert(owner != figure);
        // The artist is no longer in use.
        assert(!in_tree(figure, a1, node)) by {
            if in_tree(figure, a1, node) && node != figure {
                let m = choose|m: int| 0 <= m < a1.len() && ((#[trigger] a1[m]).0 == node || a1[m].1.contains(node));
                if m != h {
                    assert(a1[m] == axes[m]);
                    if axes[m].0 == node {
                        assert(axes_is(node)(axes[m]));
                    } else {
                        let p = choose|p: int| 0 <= p < axes[m].1.len() && axes[m].1[p] == node;
                        assert(axes[h].1.disjoint(axes[m].1));
                    }
                } else {
                    assert(a1[h].0 == axes[h].0);
                    assert(!axes_is(node)(axes[h]));
                }
            }
        }
        assert(axes[h].1.contains(node));
        lemma_first_repeat_none(figure, a1, seq![node]);
        assert(a1.update(h, (a1[h].0, a1[h].1.insert(k, node))) =~= axes) by {
            lemma_remove_insert(list, k);
        }
    }
}

/// The edit returned by a move undoes it: moving the node back restores the figure's
/// tree, when no two nodes share an identifier.
pub proof fn law_move_undone(t: TreeView, node: NodeId, parent: NodeId, at: Option<u32>, index: Option<usize>, undo: Option<usize>)
    requires
        distinct_nodes(t.0, t.1),
        indexable(t.1),
        move_outcome(t, node, parent, at, index) is Ok,
    ensures
        ({
            let (t1, inverse) = move_outcome(t, node, parent, at, index)->Ok_0;
            edit_outcome(t1, inverse, undo) matches Ok((t2, _)) && t2 == t
        }),
{
    let (figure, axes, next) = t;
    let (t1, inverse) = move_outcome(t, node, parent, at, index)->Ok_0;
    let m = t1.1;
    lemma_find_first(axes, axes_is(node));
    lemma_find_first(axes, holds(node));
    lemma_find_first(axes, axes_is(parent));
    let kind = spec_place(figure, axes, node)->Some_0;
    if kind == Place::Axes {
        let from = find_first(axes, axes_is(node));
        let len = axes.len() - 1;
        let to = placed_at(at, len);
        assert(parent == figure);
        let moved = axes[from];
        axes.remove_ensures(from);
        axes.remove(from).insert_ensures(to, moved);
        assert(m == axes.remove(from).insert(to, moved));
        assert(inverse == EditView::Move { node, parent, index: Some(from as u32) });
        assert forall|j: int| 0 <= j < to implies !axes_is(node)(#[trigger] m[j]) by {
            let j2 = if j < from { j } else { j + 1 };
            assert(m[j] == axes[j2]);
        }
        lemma_find_first_at(m, axes_is(node), to);
        lemma_insert_remove(axes.remove(from), to, moved);
        lemma_remove_insert(axes, from);
    } else {
        assert(kind == Place::Artist);
        let source = find_first(axes, holds(node));
        let list = axes[source].1;
        lemma_find_first(list, is_id(node));
        let from = find_first(list, is_id(node));
        assert(from >= 0) by {
            if from == -1 {
                let p = choose|p: int| 0 <= p < list.len() && list[p] == node;
                assert(!is_id(node)(list[p]));
            }
        }
        let target = find_first(axes, axes_is(parent));
        let len = axes[target].1.len() - if target == source { 1int } else { 0int };
        let to = placed_at(at, len);
        let owner = axes[source].0;
        let removed = axes.update(source, (owner, list.remove(from)));
        assert(m == removed.update(target, (removed[target].0, removed[target].1.insert(to, node))));
        assert(inverse == EditView::Move { node, parent: owner, index: Some(from as u32) });
        lemma_remove_only(list, from);
        list.remove_ensures(from);
        removed[target].1.insert_ensures(to, node);
        lemma_insert_contains(removed[target].1, to, node, node);
        // The node is an artist of the target, and of no other axes.
        assert forall|j: int| 0 <= j < m.len() implies (#[trigger] m[j]).0 == axes[j].0 by {}
        assert forall|j: int| 0 <= j < m.len() && j != target implies !(#[trigger] m[j]).1.contains(node) by {
            if j == source {
                assert(m[j].1 == list.remove(from));
            } else {
                assert(m[j] == axes[j]);
                if axes[j].1.contains(node) {
                    let p = choose|p: int| 0 <= p < axes[j].1.len() && axes[j].1[p] == node;
                    assert(axes[source].1.disjoint(axes[j].1));
                }
            }
        }
        assert(!removed[target].1.contains(node)) by {
            if target != source {
                assert(removed[target] == axes[target]);
                if axes[target].1.contains(node) {
                    let p = choose|p: int| 0 <= p < axes[target].1.len() && axes[target].1[p] == node;
                    assert(axes[source].1.disjoint(axes[target].1));
                }
            }
        }
        assert(m[target].1 == removed[target].1.insert(to, node));
        assert forall|j: int| 0 <= j < m.len() implies !axes_is(node)(#[trigger] m[j]) by {
            assert(!axes_is(node)(axes[j]));
        }
        lemma_find_first(m, axes_is(node));
        assert forall|j: int| 0 <= j < target implies !holds(node)(#[trigger] m[j]) by {}
        lemma_find_first_at(m, holds(node), target);
        assert forall|j: int| 0 <= j < source implies !axes_is(owner)(#[trigger] m[j]) by {}
        lemma_find_first_at(m, axes_is(owner), source);
        assert(owner != figure);
        assert(spec_place(figure, m, node) == Some(Place::Artist));
        assert(spec_place(figure, m, owner) == Some(Place::Axes));
        assert forall|j: int| 0 <= j < to implies !is_id(node)(#[trigger] m[target].1[j]) by {
            assert(m[target].1[j] == removed[target].1[j]);
        }
        lemma_find_first_at(m[target].1, is_id(node), to);
        lemma_insert_remove(removed[target].1, to, node);
        if target == source {
            lemma_remove_insert(list, from);
            assert(edit_outcome(t1, inverse, undo) matches Ok((t2, _)) && t2 == t) by {
                let r2 = m.update(target, (m[target].0, m[target].1.remove(to)));
                assert(r2 =~= removed);
                assert(r2.update(source, (r2[source].0, r2[source].1.insert(from, node))) =~= axes);
            }
        } else {
            lemma_remove_insert(list, from);
            assert(edit_outcome(t1, inverse, undo) matches Ok((t2, _)) && t2 == t) by {
                let r2 = m.update(target, (m[target].0, m[target].1.remove(to)));
                assert(r2 =~= removed);
                assert(r2.update(source, (r2[source].0, r2[source].1.insert(from, node))) =~= axes);
            }
        }
    }
}

/// A tree whose axes are distinct axes of a tree of distinct nodes, each with some of
/// its artists, once each, has distinct nodes too.
proof fn lemma_distinct_from(figure: NodeId, axes: Seq<AxesView>, b: Seq<AxesView>, f: spec_fn(int) -> int)
    requires
        distinct_nodes(figure, axes),
        forall|j: int| 0 <= j < b.len() ==> 0 <= #[trigger] f(j) < axes.len(),
        forall|j: int, k: int| 0 <= j < b.len() && 0 <= k < b.len() && j != k ==> #[trigger] f(j) != #[trigger] f(k),
        forall|j: int| 0 <= j < b.len() ==> (#[trigger] b[j]).0 == axes[f(j)].0,
        forall|j: int, x: NodeId| 0 <= j < b.len() && #[trigger] b[j].1.contains(x) ==> axes[f(j)].1.contains(x),
        forall|j: int| 0 <= j < b.len() ==> (#[trigger] b[j]).1.no_duplicates(),
    ensures
        distinct_nodes(figure, b),
{
    assert forall|i: int| 0 <= i < b.len() implies (#[trigger] b[i]).0 != figure && !b[i].1.contains(figure) by {
        assert(axes[f(i)].0 != figure);
        if b[i].1.contains(figure) {
            assert(axes[f(i)].1.contains(figure));
        }
    }
    assert forall|i: int, j: int| 0 <= i < b.len() && 0 <= j < b.len() && i != j implies (#[trigger] b[i]).0 != (#[trigger] b[j]).0 by {
        assert(axes[f(i)].0 != axes[f(j)].0);
    }
    assert forall|i: int, j: int| 0 <= i < b.len() && 0 <= j < b.len() implies !(#[trigger] b[i]).1.contains((#[trigger] b[j]).0) by {
        if b[i].1.contains(b[j].0) {
            assert(axes[f(i)].1.contains(axes[f(j)].0));
        }
    }
    assert forall|i: int, j: int| 0 <= i < b.len() && 0 <= j < b.len() && i != j implies (#[trigger] b[i]).1.disjoint((#[trigger] b[j]).1) by {
        assert forall|p: int, q: int| 0 <= p < b[i].1.len() && 0 <= q < b[j].1.len() implies b[i].1[p] != b[j].1[q] by {
            let x = b[i].1[p];
            assert(b[i].1.contains(x));
            if b[j].1[q] == x {
                assert(b[j].1.contains(x));
                assert(axes[f(i)].1.contains(x) && axes[f(j)].1.contains(x));
                let li = axes[f(i)].1;
                let lj = axes[f(j)].1;
                let pi = choose|pi: int| 0 <= pi < li.len() && #[trigger] li[pi] == x;
                let qj = choose|qj: int| 0 <= qj < lj.len() && #[trigger] lj[qj] == x;
                assert(li.disjoint(lj));
                assert(li[pi] != lj[qj]);
            }
        }
    }
}

/// A list without duplicates keeps none when an element is removed.
proof fn lemma_remove_no_duplicates<T>(s: Seq<T>, k: int)
    requires
        0 <= k < s.len(),
        s.no_duplicates(),
    ensures
        s.remove(k).no_duplicates(),
        forall|x: T| #[trigger] s.remove(k).contains(x) ==> s.contains(x),
{
    s.remove_ensures(k);
    let r = s.remove(k);
    assert forall|a: int, b: int| 0 <= a < r.len() && 0 <= b < r.len() && a != b implies r[a] != r[b] by {
        let sa = if a < k { a } else { a + 1 };
        let sb = if b < k { b } else { b + 1 };
        assert(r[a] == s[sa] && r[b] == s[sb]);
    }
    assert forall|x: T| #[trigger] r.contains(x) implies s.contains(x) by {
        let j = choose|j: int| 0 <= j < r.len() && r[j] == x;
        if j < k {
            assert(s[j] == x);
        } else {
            assert(s[j + 1] == x);
        }
    }
}

/// Removing an artist from its list keeps the nodes of a tree distinct.
proof fn lemma_remove_artist_distinct(figure: NodeId, axes: Seq<AxesView>, h: int, k: int)
    requires
        distinct_nodes(figure, axes),
        0 <= h < axes.len(),
        0 <= k < axes[h].1.len(),
    ensures
        distinct_nodes(figure, axes.update(h, (axes[h].0, axes[h].1.remove(k)))),
{
    let b = axes.update(h, (axes[h].0, axes[h].1.remove(k)));
    lemma_remove_no_duplicates(axes[h].1, k);
    lemma_distinct_from(figure, axes, b, |j: int| j);
}

/// Removing an axes keeps the nodes of a tree distinct.
proof fn lemma_remove_axes_distinct(figure: NodeId, axes: Seq<AxesView>, i: int)
    requires
        distinct_nodes(figure, axes),
        0 <= i < axes.len(),
    ensures
        distinct_nodes(figure, axes.remove(i)),
{
    axes.remove_ensures(i);
    let b = axes.remove(i);
    let f = |j: int| if j < i { j } else { j + 1 };
    assert forall|j: int| 0 <= j < b.len() implies (#[trigger] b[j]) == axes[f(j)] by {}
    lemma_distinct_from(figure, axes, b, f);
}

/// Inserting an artist that the tree does not use keeps the nodes of a tree distinct.
proof fn lemma_insert_artist_distinct(figure: NodeId, axes: Seq<AxesView>, target: int, pos: int, a: NodeId)
    requires
        distinct_nodes(figure, axes),
        !in_tree(figure, axes, a),
        0 <= target < axes.len(),
        0 <= pos <= axes[target].1.len(),
    ensures
        distinct_nodes(figure, axes.update(target, (axes[target].0, axes[target].1.insert(pos, a)))),
{
    let list = axes[target].1;
    let grown = list.insert(pos, a);
    let b = axes.update(target, (axes[target].0, grown));
    list.insert_ensures(pos, a);
    assert forall|x: NodeId| #[trigger] grown.contains(x) <==> (list.contains(x) || x == a) by {
        lemma_insert_contains(list, pos, a, x);
    }
    assert(!list.contains(a)) by {
        assert(!(axes[target].1.contains(a)));
    }
    assert(grown.no_duplicates()) by {
        assert forall|p: int, q: int| 0 <= p < grown.len() && 0 <= q < grown.len() && p != q implies grown[p] != grown[q] by {
            if p == pos {
                assert(grown[q] == if q < pos { list[q] } else { list[q - 1] });
                assert(list.contains(grown[q]));
            } else if q == pos {
                assert(grown[p] == if p < pos { list[p] } else { list[p - 1] });
                assert(list.contains(grown[p]));
            } else {
                let lp = if p < pos { p } else { p - 1 };
                let lq = if q < pos { q } else { q - 1 };
                assert(grown[p] == list[lp] && grown[q] == list[lq]);
            }
        }
    }
    assert forall|i: int| 0 <= i < b.len() implies (#[trigger] b[i]).0 != figure && !b[i].1.contains(figure) by {
        if i == target {
            assert(axes[target].0 != figure);
        }
    }
    assert forall|i: int, j: int| 0 <= i < b.len() && 0 <= j < b.len() && i != j implies (#[trigger] b[i]).0 != (#[trigger] b[j]).0 by {
        assert(axes[i].0 != axes[j].0);
    }
    assert forall|i: int, j: int| 0 <= i < b.len() && 0 <= j < b.len() implies !(#[trigger] b[i]).1.contains((#[trigger] b[j]).0) by {
        assert(!axes[i].1.contains(axes[j].0));
        assert(axes[j].0 != a);
    }
    assert forall|i: int| 0 <= i < b.len() implies (#[trigger] b[i]).1.no_duplicates() by {}
    assert forall|i: int, j: int| 0 <= i < b.len() && 0 <= j < b.len() && i != j implies (#[trigger] b[i]).1.disjoint((#[trigger] b[j]).1) by {
        assert forall|p: int, q: int| 0 <= p < b[i].1.len() && 0 <= q < b[j].1.len() implies b[i].1[p] != b[j].1[q] by {
            let x = b[i].1[p];
            assert(b[i].1.contains(x));
            if b[j].1[q] == x {
                assert(b[j].1.contains(x));
                if i == target {
                    assert(axes[j].1.contains(x));
                    if x == a {
                    } else {
                        assert(list.contains(x));
                        let pi = choose|pi: int| 0 <= pi < list.len() && #[trigger] list[pi] == x;
                        let qj = choose|qj: int| 0 <= qj < axes[j].1.len() && #[trigger] axes[j].1[qj] == x;
                        assert(axes[target].1.disjoint(axes[j].1));
                    }
                } else if j == target {
                    assert(axes[i].1.contains(x));
                    if x == a {
                    } else {
                        assert(list.contains(x));
                        let pi = choose|pi: int| 0 <= pi < axes[i].1.len() && #[trigger] axes[i].1[pi] == x;
                        let qj = choose|qj: int| 0 <= qj < list.len() && #[trigger] list[qj] == x;
                        assert(axes[i].1.disjoint(axes[target].1));
                    }
                } else {
                    assert(axes[i].1.disjoint(axes[j].1));
                }
            }
        }
    }
}

/// Inserting an axes whose identifiers the tree does not use, none twice, keeps the
/// nodes of a tree distinct.
proof fn lemma_insert_axes_distinct(figure: NodeId, axes: Seq<AxesView>, pos: int, id: NodeId, artists: Seq<NodeId>)
    requires
        distinct_nodes(figure, axes),
        forall|k: int| 0 <= k < (seq![id] + artists).len() ==> !in_tree(figure, axes, #[trigger] (seq![id] + artists)[k]),
        (seq![id] + artists).no_duplicates(),
        0 <= pos <= axes.len(),
    ensures
        distinct_nodes(figure, axes.insert(pos, (id, artists))),
{
    let ids = seq![id] + artists;
    let b = axes.insert(pos, (id, artists));
    axes.insert_ensures(pos, (id, artists));
    assert(ids[0] == id);
    assert(!in_tree(figure, axes, id));
    assert forall|x: NodeId| #[trigger] artists.contains(x) implies !in_tree(figure, axes, x) && x != id by {
        let p = choose|p: int| 0 <= p < artists.len() && artists[p] == x;
        assert(ids[p + 1] == x);
    }
    assert(artists.no_duplicates()) by {
        assert forall|p: int, q: int| 0 <= p < artists.len() && 0 <= q < artists.len() && p != q implies artists[p] != artists[q] by {
            assert(ids[p + 1] == artists[p] && ids[q + 1] == artists[q]);
        }
    }
    let old_at = |j: int| if j < pos { j } else { j - 1 };
    assert forall|j: int| 0 <= j < b.len() && j != pos implies (#[trigger] b[j]) == axes[old_at(j)] by {}
    assert forall|i: int| 0 <= i < b.len() implies (#[trigger] b[i]).0 != figure && !b[i].1.contains(figure) by {
        if i == pos {
            if artists.contains(figure) {
                assert(in_tree(figure, axes, figure));
            }
        } else {
            assert(b[i] == axes[old_at(i)]);
        }
    }
    assert forall|i: int, j: int| 0 <= i < b.len() && 0 <= j < b.len() && i != j implies (#[trigger] b[i]).0 != (#[trigger] b[j]).0 by {
        if i == pos {
            assert(b[j] == axes[old_at(j)]);
            assert(!(axes[old_at(j)].0 == id));
        } else if j == pos {
            assert(b[i] == axes[old_at(i)]);
            assert(!(axes[old_at(i)].0 == id));
        } else {
            assert(b[i] == axes[old_at(i)] && b[j] == axes[old_at(j)]);
        }
    }
    assert forall|i: int, j: int| 0 <= i < b.len() && 0 <= j < b.len() implies !(#[trigger] b[i]).1.contains((#[trigger] b[j]).0) by {
        if i == pos && j == pos {
        } else if i == pos {
            assert(b[j] == axes[old_at(j)]);
            if artists.contains(axes[old_at(j)].0) {
                assert(in_tree(figure, axes, axes[old_at(j)].0));
            }
        } else if j == pos {
            assert(b[i] == axes[old_at(i)]);
            assert(!axes[old_at(i)].1.contains(id));
        } else {
            assert(b[i] == axes[old_at(i)] && b[j] == axes[old_at(j)]);
        }
    }
    assert forall|i: int| 0 <= i < b.len() implies (#[trigger] b[i]).1.no_duplicates() by {
        if i != pos {
            assert(b[i] == axes[old_at(i)]);
        }
    }
    assert forall|i: int, j: int| 0 <= i < b.len() && 0 <= j < b.len() && i != j implies (#[trigger] b[i]).1.disjoint((#[trigger] b[j]).1) by {
        assert forall|p: int, q: int| 0 <= p < b[i].1.len() && 0 <= q < b[j].1.len() implies b[i].1[p] != b[j].1[q] by {
            let x = b[i].1[p];
            assert(b[i].1.contains(x));
            if b[j].1[q] == x {
                assert(b[j].1.contains(x));
                if i == pos {
                    assert(b[j] == axes[old_at(j)]);
                    assert(artists.contains(x));
                    assert(in_tree(figure, axes, x));
                } else if j == pos {
                    assert(b[i] == axes[old_at(i)]);
                    assert(artists.contains(x));
                    assert(in_tree(figure, axes, x));
                } else {
                    assert(b[i] == axes[old_at(i)] && b[j] == axes[old_at(j)]);
                    assert(axes[old_at(i)].1.disjoint(axes[old_at(j)].1));
                }
            }
        }
    }
}

/// Moving an axes within the figure's list keeps the nodes of a tree distinct.
proof fn lemma_move_axes_distinct(figure: NodeId, axes: Seq<AxesView>, from: int, to: int)
    requires
        distinct_nodes(figure, axes),
        0 <= from < axes.len(),
        0 <= to < axes.len(),
    ensures
        distinct_nodes(figure, axes.remove(from).insert(to, axes[from])),
{
    let r = axes.remove(from);
    axes.remove_ensures(from);
    r.insert_ensures(to, axes[from]);
    let b = r.insert(to, axes[from]);
    let f = |j: int| if j == to {
        from
    } else {
        let k = if j < to { j } else { j - 1 };
        if k < from { k } else { k + 1 }
    };
    assert forall|j: int| 0 <= j < b.len() implies (#[trigger] b[j]) == axes[f(j)] by {
        if j != to {
            let k = if j < to { j } else { j - 1 };
            assert(b[j] == r[k]);
        }
    }
    lemma_distinct_from(figure, axes, b, f);
}

/// Every structural edit that applies keeps the nodes of a tree distinct.
pub(crate) proof fn lemma_edit_keeps_distinct(t: TreeView, edit: EditView, index: Option<usize>)
    requires
        distinct_nodes(t.0, t.1),
        edit_outcome(t, edit, index) is Ok,
    ensures
        distinct_nodes(edit_outcome(t, edit, index)->Ok_0.0.0, edit_outcome(t, edit, index)->Ok_0.0.1),
{
    let (figure, axes, next) = t;
    lemma_find_first(axes, axes_is(figure));
    match edit {
        EditView::Insert { parent, index: at, node } => {
            let ids = subtree_ids(node);
            lemma_no_repeat(figure, axes, ids);
            let target = find_first(axes, axes_is(parent));
            lemma_find_first(axes, axes_is(parent));
            match node {
                SubtreeView::Axes(id, artists) => {
                    let pos = placed_at(at, axes.len() as int);
                    lemma_insert_axes_distinct(figure, axes, pos, id, artists);
                },
                SubtreeView::Artist(a) => {
                    let pos = placed_at(at, axes[target].1.len() as int);
                    assert(ids[0] == a);
                    lemma_insert_artist_distinct(figure, axes, target, pos, a);
                },
            }
        },
        EditView::Remove { node } => {
            let i = find_first(axes, axes_is(node));
            lemma_find_first(axes, axes_is(node));
            if i >= 0 {
                lemma_remove_axes_distinct(figure, axes, i);
            } else {
                let h = find_first(axes, holds(node));
                lemma_find_first(axes, holds(node));
                let k = find_first(axes[h].1, is_id(node));
                lemma_find_first(axes[h].1, is_id(node));
                if k < 0 {
                    let j = choose|j: int| 0 <= j < axes[h].1.len() && axes[h].1[j] == node;
                    assert(is_id(node)(axes[h].1[j]));
                }
                lemma_remove_artist_distinct(figure, axes, h, k);
            }
        },
        EditView::Move { node, parent, index: at } => {
            lemma_find_first(axes, axes_is(node));
            lemma_find_first(axes, axes_is(parent));
            lemma_find_first(axes, holds(node));
            if find_first(axes, axes_is(node)) >= 0 {
                let from = find_first(axes, axes_is(node));
                let to = placed_at(at, axes.len() - 1);
                lemma_move_axes_distinct(figure, axes, from, to);
            } else {
                let source = find_first(axes, holds(node));
                let from = find_first(axes[source].1, is_id(node));
                lemma_find_first(axes[source].1, is_id(node));
                if from < 0 {
                    let j = choose|j: int| 0 <= j < axes[source].1.len() && axes[source].1[j] == node;
                    assert(is_id(node)(axes[source].1[j]));
                }
                let target = find_first(axes, axes_is(parent));
                let removed = axes.update(source, (axes[source].0, axes[source].1.remove(from)));
                lemma_remove_artist_distinct(figure, axes, source, from);
                lemma_remove_only(axes[source].1, from);
                assert(!in_tree(figure, removed, node)) by {
                    assert forall|i: int| 0 <= i < removed.len() implies !((#[trigger] removed[i]).0 == node || removed[i].1.contains(node)) by {
                        assert(!axes_is(node)(axes[i]));
                        if i != source && removed[i].1.contains(node) {
                            let p = choose|p: int| 0 <= p < axes[i].1.len() && axes[i].1[p] == node;
                            assert(axes[i].1.disjoint(axes[source].1));
                            assert(axes[source].1[from] == node);
                        }
                    }
                }
                let len = removed[target].1.len() as int;
                let to = placed_at(at, len);
                lemma_insert_artist_distinct(figure, removed, target, to, node);
            }
        },
    }
}

} // verus!
