//! The tree of a figure's nodes: the figure, its axes in drawing order, and the artists
//! of each axes in drawing order. The structural edits (insertion, removal and moving of
//! nodes) change only this tree, and are decided on it.

use vstd::prelude::*;

use crate::edit::error::{as_index, spec_as_index, EditError};
use crate::ids::NodeId;
use crate::link::contains_id;

verus! {

/// An axes and the artists it holds, as identifiers.
pub type AxesView = (NodeId, Seq<NodeId>);

/// The position of the first element of a sequence that has a property, or -1 when
/// none has it.
pub open spec fn find_first<T>(s: Seq<T>, p: spec_fn(T) -> bool) -> int
    decreases s.len(),
{
    if s.len() == 0 {
        -1
    } else {
        let i = find_first(s.drop_last(), p);
        if i >= 0 {
            i
        } else if p(s.last()) {
            s.len() - 1
        } else {
            -1
        }
    }
}

/// What [`find_first`] finds: the first element with the property, or none when no
/// element has it.
pub proof fn lemma_find_first<T>(s: Seq<T>, p: spec_fn(T) -> bool)
    ensures
        -1 <= find_first(s, p) < s.len(),
        find_first(s, p) == -1 <==> forall|j: int| 0 <= j < s.len() ==> !p(#[trigger] s[j]),
        find_first(s, p) >= 0 ==> p(s[find_first(s, p)]),
        forall|j: int| 0 <= j < find_first(s, p) ==> !p(#[trigger] s[j]),
    decreases s.len(),
{
    if s.len() > 0 {
        let rest = s.drop_last();
        lemma_find_first(rest, p);
        assert forall|j: int| 0 <= j < rest.len() implies rest[j] == s[j] by {}
        if find_first(rest, p) < 0 && !p(s.last()) {
            assert forall|j: int| 0 <= j < s.len() implies !p(#[trigger] s[j]) by {
                if j < rest.len() {
                    assert(rest[j] == s[j]);
                }
            }
        }
    }
}

/// The first element with a property is at the position where it is found.
pub proof fn lemma_find_first_at<T>(s: Seq<T>, p: spec_fn(T) -> bool, i: int)
    requires
        0 <= i < s.len(),
        p(s[i]),
        forall|j: int| 0 <= j < i ==> !p(#[trigger] s[j]),
    ensures
        find_first(s, p) == i,
{
    lemma_find_first(s, p);
}

/// The axes with an identifier.
pub open spec fn axes_is(id: NodeId) -> spec_fn(AxesView) -> bool {
    |e: AxesView| e.0 == id
}

/// The axes that holds an artist.
pub open spec fn holds(node: NodeId) -> spec_fn(AxesView) -> bool {
    |e: AxesView| e.1.contains(node)
}

/// Any identifier but one.
pub open spec fn other_than(node: NodeId) -> spec_fn(NodeId) -> bool {
    |a: NodeId| a != node
}

/// An axes without the artists that have an identifier.
pub open spec fn without_artist(e: AxesView, node: NodeId) -> AxesView {
    (e.0, e.1.filter(other_than(node)))
}

/// An identifier.
pub open spec fn is_id(node: NodeId) -> spec_fn(NodeId) -> bool {
    |a: NodeId| a == node
}

/// The axes and their artists as identifiers.
pub open spec fn axes_view(axes: Seq<(NodeId, Vec<NodeId>)>) -> Seq<AxesView> {
    axes.map_values(|e: (NodeId, Vec<NodeId>)| (e.0, e.1@))
}

/// Returns the position of the first axes with an identifier.
pub(crate) fn position_of_axes(axes: &Vec<(NodeId, Vec<NodeId>)>, id: NodeId) -> (r: Option<usize>)
    ensures
        r matches Some(i) ==> i == find_first(axes_view(axes@), axes_is(id)) && i < axes@.len() && axes@[i as int].0 == id,
        r is None <==> find_first(axes_view(axes@), axes_is(id)) == -1,
{
    let ghost v = axes_view(axes@);
    let mut i: usize = 0;
    while i < axes.len()
        invariant
            i <= axes@.len(),
            v == axes_view(axes@),
            forall|j: int| 0 <= j < i ==> !axes_is(id)(#[trigger] v[j]),
        decreases axes.len() - i,
    {
        if axes[i].0 == id {
            proof {
                lemma_find_first_at(v, axes_is(id), i as int);
            }
            return Some(i);
        }
        i = i + 1;
    }
    proof {
        lemma_find_first(v, axes_is(id));
    }
    None
}

/// Returns the position of the first axes that holds an artist.
pub(crate) fn position_of_holder(axes: &Vec<(NodeId, Vec<NodeId>)>, node: NodeId) -> (r: Option<usize>)
    ensures
        r matches Some(i) ==> i == find_first(axes_view(axes@), holds(node)) && i < axes@.len() && axes@[i as int].1@.contains(node),
        r is None <==> find_first(axes_view(axes@), holds(node)) == -1,
{
    let ghost v = axes_view(axes@);
    let mut i: usize = 0;
    while i < axes.len()
        invariant
            i <= axes@.len(),
            v == axes_view(axes@),
            forall|j: int| 0 <= j < i ==> !holds(node)(#[trigger] v[j]),
        decreases axes.len() - i,
    {
        if contains_id(&axes[i].1, node) {
            proof {
                lemma_find_first_at(v, holds(node), i as int);
            }
            return Some(i);
        }
        i = i + 1;
    }
    proof {
        lemma_find_first(v, holds(node));
    }
    None
}

/// Returns the position of the first occurrence of an identifier.
pub(crate) fn position_of(ids: &Vec<NodeId>, node: NodeId) -> (r: Option<usize>)
    ensures
        r matches Some(i) ==> i == find_first(ids@, is_id(node)) && i < ids@.len() && ids@[i as int] == node,
        r is None <==> find_first(ids@, is_id(node)) == -1,
        r is None <==> !ids@.contains(node),
{
    let mut i: usize = 0;
    while i < ids.len()
        invariant
            i <= ids@.len(),
            forall|j: int| 0 <= j < i ==> !is_id(node)(#[trigger] ids@[j]),
        decreases ids.len() - i,
    {
        if ids[i] == node {
            proof {
                lemma_find_first_at(ids@, is_id(node), i as int);
            }
            return Some(i);
        }
        i = i + 1;
    }
    proof {
        lemma_find_first(ids@, is_id(node));
        assert forall|j: int| 0 <= j < ids@.len() implies ids@[j] != node by {
            assert(!is_id(node)(ids@[j]));
        }
    }
    None
}

/// Returns a copy of a list of identifiers.
pub(crate) fn copy_ids(v: &Vec<NodeId>) -> (r: Vec<NodeId>)
    ensures
        r@ == v@,
{
    let mut r: Vec<NodeId> = Vec::new();
    let mut i: usize = 0;
    while i < v.len()
        invariant
            i <= v@.len(),
            r@ == v@.take(i as int),
        decreases v.len() - i,
    {
        r.push(v[i]);
        assert(r@ =~= v@.take(i + 1));
        i = i + 1;
    }
    assert(r@ =~= v@);
    r
}

/// The node and its descendants, or nothing when no axes holds the node: the first axes
/// that is the node or holds it decides.
pub open spec fn spec_subtree(axes: Seq<AxesView>, node: NodeId) -> Seq<NodeId>
    decreases axes.len(),
{
    if axes.len() == 0 {
        seq![]
    } else {
        let earlier = spec_subtree(axes.drop_last(), node);
        if earlier.len() > 0 {
            earlier
        } else if axes.last().0 == node {
            seq![node] + axes.last().1
        } else if axes.last().1.contains(node) {
            seq![node]
        } else {
            seq![]
        }
    }
}

/// The tree after an artist is appended to the first axes with the parent's
/// identifier; without such an axes the tree is unchanged.
pub open spec fn spec_push_artist(axes: Seq<AxesView>, parent: NodeId, artist: NodeId) -> Seq<AxesView> {
    let i = find_first(axes, axes_is(parent));
    if i >= 0 {
        axes.update(i, (axes[i].0, axes[i].1.push(artist)))
    } else {
        axes
    }
}

/// The tree after a node is removed: the first axes with its identifier, with its
/// artists; or, when no axes has it, every artist with its identifier.
pub open spec fn spec_remove(axes: Seq<AxesView>, node: NodeId) -> Seq<AxesView> {
    let i = find_first(axes, axes_is(node));
    if i >= 0 {
        axes.remove(i)
    } else {
        axes.map_values(|e: AxesView| without_artist(e, node))
    }
}

/// The structural change that an edit makes to the tree of nodes.
#[derive(Debug, Clone, PartialEq, Eq)]
pub enum TreeChange {
    /// An axes is inserted with its artists.
    InsertAxes {
        /// The identifier of the axes.
        axes: NodeId,
        /// The identifiers of its artists.
        artists: Vec<NodeId>,
    },
    /// An artist is inserted into an axes.
    InsertArtist {
        /// The axes that receives the artist.
        parent: NodeId,
        /// The identifier of the artist.
        artist: NodeId,
    },
    /// A node is removed with its subtree.
    Remove {
        /// The node removed.
        node: NodeId,
    },
    /// A node is moved to a parent.
    Move {
        /// The node moved.
        node: NodeId,
        /// The new parent.
        parent: NodeId,
    },
}

/// The tree after a structural change: an inserted axes is appended, an inserted or
/// moved artist is appended to its new axes, and moving an axes changes nothing.
pub open spec fn spec_apply(axes: Seq<AxesView>, change: TreeChange) -> Seq<AxesView> {
    match change {
        TreeChange::InsertAxes { axes: id, artists } => axes.push((id, artists@)),
        TreeChange::InsertArtist { parent, artist } => spec_push_artist(axes, parent, artist),
        TreeChange::Remove { node } => spec_remove(axes, node),
        TreeChange::Move { node, parent } => if find_first(axes, axes_is(node)) >= 0 {
            axes
        } else {
            spec_push_artist(spec_remove(axes, node), parent, node)
        },
    }
}

/// The tree of a figure's nodes, as the structural edits of a transaction leave it.
///
/// It tells which nodes a removal takes with it at the moment of the removal, so that an
/// artist moved out of an axes earlier in the same transaction is not counted among its
/// descendants. Only membership and descent are tracked: an inserted or moved node is
/// appended to its parent's list.
pub struct NodeTree {
    axes: Vec<(NodeId, Vec<NodeId>)>,
}

impl View for NodeTree {
    type V = Seq<AxesView>;

    closed spec fn view(&self) -> Seq<AxesView> {
        axes_view(self.axes@)
    }
}

impl NodeTree {
    /// Returns the tree of the given axes, each with its artists, in figure order.
    pub fn new(axes: Vec<(NodeId, Vec<NodeId>)>) -> (r: Self)
        ensures
            r@ == axes_view(axes@),
    {
        NodeTree { axes }
    }

    /// Returns the node and its descendants, or nothing when the tree does not hold the
    /// node.
    pub fn subtree(&self, node: NodeId) -> (r: Vec<NodeId>)
        ensures
            r@ == spec_subtree(self@, node),
    {
        let ghost v = self@;
        let mut i: usize = 0;
        while i < self.axes.len()
            invariant
                i <= self.axes@.len(),
                v == axes_view(self.axes@),
                spec_subtree(v.take(i as int), node).len() == 0,
            decreases self.axes.len() - i,
        {
            assert(v.take(i + 1).drop_last() =~= v.take(i as int));
            assert(v.take(i + 1).last() == v[i as int]);
            if self.axes[i].0 == node {
                let mut r: Vec<NodeId> = Vec::new();
                r.push(node);
                let mut k: usize = 0;
                let artists = &self.axes[i].1;
                while k < artists.len()
                    invariant
                        k <= artists@.len(),
                        r@ == seq![node] + artists@.take(k as int),
                    decreases artists.len() - k,
                {
                    r.push(artists[k]);
                    assert(r@ =~= seq![node] + artists@.take(k + 1));
                    k = k + 1;
                }
                assert(artists@.take(k as int) =~= artists@);
                proof {
                    lemma_subtree_prefix(v, i as int + 1, node);
                }
                return r;
            }
            if contains_id(&self.axes[i].1, node) {
                proof {
                    lemma_subtree_prefix(v, i as int + 1, node);
                }
                return vec![node];
            }
            i = i + 1;
        }
        assert(v.take(i as int) =~= v);
        Vec::new()
    }

    /// Appends an axes with its artists.
    pub fn push_axes(&mut self, axes: NodeId, artists: Vec<NodeId>)
        ensures
            final(self)@ == old(self)@.push((axes, artists@)),
    {
        self.axes.push((axes, artists));
        assert(self@ =~= old(self)@.push((axes, artists@)));
    }

    /// Appends an artist to the axes with the parent's identifier, if the tree holds one.
    pub fn push_artist(&mut self, parent: NodeId, artist: NodeId)
        ensures
            final(self)@ == spec_push_artist(old(self)@, parent, artist),
    {
        if let Some(i) = position_of_axes(&self.axes, parent) {
            let (id, mut artists) = self.axes.remove(i);
            artists.push(artist);
            self.axes.insert(i, (id, artists));
            assert(self@ =~= spec_push_artist(old(self)@, parent, artist));
        }
    }

    /// Removes a node: an axes with its artists, or every occurrence of an artist.
    pub fn remove(&mut self, node: NodeId)
        ensures
            final(self)@ == spec_remove(old(self)@, node),
    {
        if let Some(i) = position_of_axes(&self.axes, node) {
            self.axes.remove(i);
            assert(self@ =~= spec_remove(old(self)@, node));
            return;
        }
        let ghost start = self@;
        let ghost target = start.map_values(|e: AxesView| without_artist(e, node));
        let mut kept: Vec<(NodeId, Vec<NodeId>)> = Vec::new();
        let mut i: usize = 0;
        while i < self.axes.len()
            invariant
                i <= self.axes@.len(),
                start == axes_view(self.axes@),
                target == start.map_values(|e: AxesView| without_artist(e, node)),
                axes_view(kept@) == target.take(i as int),
            decreases self.axes.len() - i,
        {
            let artists = &self.axes[i].1;
            let mut others: Vec<NodeId> = Vec::new();
            let mut k: usize = 0;
            while k < artists.len()
                invariant
                    k <= artists@.len(),
                    others@ == artists@.take(k as int).filter(other_than(node)),
                decreases artists.len() - k,
            {
                proof {
                    broadcast use Seq::lemma_filter_push;
                    assert(artists@.take(k + 1) =~= artists@.take(k as int).push(artists@[k as int]));
                }
                if artists[k] != node {
                    others.push(artists[k]);
                }
                k = k + 1;
            }
            assert(artists@.take(k as int) =~= artists@);
            let ghost before = kept@;
            assert(others@ == start[i as int].1.filter(other_than(node)));
            assert(target[i as int] == without_artist(start[i as int], node));
            kept.push((self.axes[i].0, others));
            assert(axes_view(kept@) =~= axes_view(before).push((self.axes@[i as int].0, others@)));
            assert(axes_view(kept@) =~= target.take(i + 1));
            i = i + 1;
        }
        assert(target.take(i as int) =~= target);
        self.axes = kept;
    }

    /// Applies the structural effect of an edit.
    pub fn apply(&mut self, change: &TreeChange)
        ensures
            final(self)@ == spec_apply(old(self)@, *change),
    {
        match change {
            TreeChange::InsertAxes { axes, artists } => {
                let copy = copy_ids(artists);
                self.push_axes(*axes, copy);
            },
            TreeChange::InsertArtist { parent, artist } => self.push_artist(*parent, *artist),
            TreeChange::Remove { node } => self.remove(*node),
            TreeChange::Move { node, parent } => {
                if position_of_axes(&self.axes, *node).is_none() {
                    self.remove(*node);
                    self.push_artist(*parent, *node);
                }
            },
        }
    }
}

proof fn lemma_subtree_prefix(axes: Seq<AxesView>, n: int, node: NodeId)
    requires
        0 <= n <= axes.len(),
        spec_subtree(axes.take(n), node).len() > 0,
    ensures
        spec_subtree(axes, node) == spec_subtree(axes.take(n), node),
    decreases axes.len() - n,
{
    if n < axes.len() {
        assert(axes.take(n + 1).drop_last() =~= axes.take(n));
        lemma_subtree_prefix(axes, n + 1, node);
    } else {
        assert(axes.take(n) =~= axes);
    }
}

} // verus!
