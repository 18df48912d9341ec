//! Transactions of structural edits: the edits are applied in order, each to the tree
//! as the edits before it left it, and either all apply or the tree is left as it was;
//! a transaction that applies returns its inverse, which lists the inverse of each edit
//! in reverse order.

use vstd::prelude::*;

use crate::edit::error::EditError;
use crate::edit::structure::{
    distinct_nodes, edit_outcome, indexable, insert_outcome, lemma_edit_keeps_distinct, law_insert_undone,
    law_move_undone, law_remove_undone, move_outcome, remove_outcome, EditView, FigureTree, StructuralEdit, TreeView,
};
use crate::edit::tree::{axes_view, copy_ids};
use crate::ids::NodeId;

verus! {

/// The edits of a list as identifiers.
pub open spec fn edits_view(v: Seq<StructuralEdit>) -> Seq<EditView> {
    v.map_values(|e: StructuralEdit| e@)
}

/// The outcome of applying structural edits in order, each numbered by its position:
/// the tree afterwards and the inverse transaction, which lists the inverse of each
/// edit in reverse order; or the error of the first edit that does not apply, with the
/// allocator's next identifier as the edits before it left it.
pub open spec fn run_edits(t: TreeView, edits: Seq<EditView>) -> Result<(TreeView, Seq<EditView>), (EditError, u64)>
    decreases edits.len(),
{
    if edits.len() == 0 {
        Ok((t, seq![]))
    } else {
        match run_edits(t, edits.drop_last()) {
            Err(x) => Err(x),
            Ok((t1, inverses)) => match edit_outcome(t1, edits.last(), Some((edits.len() - 1) as usize)) {
                Err(e) => Err((e, t1.2)),
                Ok((t2, inverse)) => Ok((t2, seq![inverse] + inverses)),
            },
        }
    }
}

/// Once an edit does not apply, the transaction fails with its error, whatever follows.
proof fn lemma_run_error_stays(t: TreeView, edits: Seq<EditView>, k: int)
    requires
        0 <= k <= edits.len(),
        run_edits(t, edits.take(k)) is Err,
    ensures
        run_edits(t, edits) == run_edits(t, edits.take(k)),
    decreases edits.len() - k,
{
    if k < edits.len() {
        assert(edits.take(k + 1).drop_last() =~= edits.take(k));
        lemma_run_error_stays(t, edits, k + 1);
    } else {
        assert(edits.take(k) =~= edits);
    }
}

/// Returns a copy of the axes of a tree.
fn copy_axes(axes: &Vec<(NodeId, Vec<NodeId>)>) -> (r: Vec<(NodeId, Vec<NodeId>)>)
    ensures
        axes_view(r@) == axes_view(axes@),
{
    let mut r: Vec<(NodeId, Vec<NodeId>)> = Vec::new();
    let mut i: usize = 0;
    while i < axes.len()
        invariant
            i <= axes@.len(),
            axes_view(r@) == axes_view(axes@).take(i as int),
        decreases axes.len() - i,
    {
        let artists = copy_ids(&axes[i].1);
        let ghost before = r@;
        r.push((axes[i].0, artists));
        assert(axes_view(r@) =~= axes_view(before).push((axes@[i as int].0, artists@)));
        assert(axes_view(axes@).take(i + 1) =~= axes_view(axes@).take(i as int).push(axes_view(axes@)[i as int]));
        i = i + 1;
    }
    assert(axes_view(axes@).take(i as int) =~= axes_view(axes@));
    r
}

impl FigureTree {
    /// Applies the structural edits of a transaction in order, each to the tree as the
    /// edits before it left it, and returns the inverse transaction, which lists the
    /// inverse of each edit in reverse order.
    ///
    /// # Errors
    ///
    /// Returns the error of the first edit that cannot be applied, identified by its
    /// index; the tree is then left as it was, and only the identifiers that the edits
    /// before it inserted stay excluded from allocation.
    pub fn apply(&mut self, edits: Vec<StructuralEdit>) -> (r: Result<Vec<StructuralEdit>, EditError>)
        ensures
            match run_edits(old(self)@, edits_view(edits@)) {
                Ok((t, inverse)) => r matches Ok(v) && edits_view(v@) == inverse && final(self)@ == t,
                Err((e, next)) => r == Err::<Vec<StructuralEdit>, EditError>(e)
                    && final(self)@ == (old(self)@.0, old(self)@.1, next),
            },
    {
        let ghost start = self@;
        let ghost all = edits_view(edits@);
        let saved = copy_axes(&self.axes);
        let mut inverses: Vec<StructuralEdit> = Vec::new();
        let mut rest = edits;
        let total = rest.len();
        let mut i: usize = 0;
        assert(all.take(0) =~= Seq::<EditView>::empty());
        assert(edits_view(inverses@) =~= Seq::<EditView>::empty());
        while rest.len() > 0
            invariant
                i <= total,
                total == all.len(),
                start == old(self)@,
                all == edits_view(edits@),
                edits_view(rest@) == all.skip(i as int),
                axes_view(saved@) == start.1,
                run_edits(start, all.take(i as int)) == Ok::<(TreeView, Seq<EditView>), (EditError, u64)>((self@, edits_view(inverses@))),
                self.figure == start.0,
            decreases rest.len(),
        {
            let ghost old_rest = rest@;
            assert(edits_view(old_rest).len() == old_rest.len());
            assert(i < total);
            let edit = rest.remove(0);
            assert(edits_view(old_rest)[0] == edit@);
            assert(all.skip(i as int)[0] == all[i as int]);
            assert(edit@ == all[i as int]);
            assert(edits_view(rest@) =~= all.skip(i + 1)) by {
                assert forall|k: int| 0 <= k < rest@.len() implies edits_view(rest@)[k] == all.skip(i + 1)[k] by {
                    assert(rest@[k] == old_rest[k + 1]);
                    assert(edits_view(old_rest)[k + 1] == all.skip(i as int)[k + 1]);
                }
            }
            assert(all.take(i + 1).drop_last() =~= all.take(i as int));
            assert(all.take(i + 1).last() == all[i as int]);
            match self.apply_edit(edit, Some(i)) {
                Ok(inverse) => {
                    let ghost was = inverses@;
                    inverses.insert(0, inverse);
                    assert(edits_view(inverses@) =~= seq![inverse@] + edits_view(was));
                },
                Err(e) => {
                    proof {
                        lemma_run_error_stays(start, all, i + 1);
                        assert(all.take(total as int) =~= all);
                    }
                    self.axes = saved;
                    return Err(e);
                },
            }
            i = i + 1;
        }
        assert(all.take(i as int) =~= all);
        Ok(inverses)
    }
}

/// A structural edit decides nothing by its index, which only numbers its error.
proof fn lemma_outcome_index(t: TreeView, edit: EditView, i: Option<usize>, j: Option<usize>)
    ensures
        edit_outcome(t, edit, i) is Ok <==> edit_outcome(t, edit, j) is Ok,
        edit_outcome(t, edit, i) is Ok ==> edit_outcome(t, edit, i)->Ok_0 == edit_outcome(t, edit, j)->Ok_0,
{
}

/// A structural edit decides nothing by the allocator's next identifier, which it only
/// raises past the identifiers it inserts.
proof fn lemma_outcome_next(t: TreeView, u: TreeView, edit: EditView, i: Option<usize>)
    requires
        t.0 == u.0,
        t.1 == u.1,
    ensures
        edit_outcome(t, edit, i) is Ok <==> edit_outcome(u, edit, i) is Ok,
        edit_outcome(t, edit, i) is Ok ==> ({
            let (t1, inverse) = edit_outcome(t, edit, i)->Ok_0;
            let (u1, inverse_u) = edit_outcome(u, edit, i)->Ok_0;
            t1.0 == u1.0 && t1.1 == u1.1 && inverse == inverse_u
        }),
{
}

/// Applying edits leaves the figure's own identifier as it was.
proof fn lemma_run_figure(t: TreeView, edits: Seq<EditView>)
    ensures
        run_edits(t, edits) matches Ok((t1, _)) ==> t1.0 == t.0,
    decreases edits.len(),
{
    if edits.len() > 0 {
        lemma_run_figure(t, edits.drop_last());
    }
}

/// Applying structural edits in order without numbering them: the tree afterwards and
/// the inverse transaction, or `None` when an edit does not apply.
spec fn replay(t: TreeView, edits: Seq<EditView>) -> Option<(TreeView, Seq<EditView>)>
    decreases edits.len(),
{
    if edits.len() == 0 {
        Some((t, seq![]))
    } else {
        match replay(t, edits.drop_last()) {
            None => None,
            Some((t1, inverses)) => match edit_outcome(t1, edits.last(), None) {
                Err(_) => None,
                Ok((t2, inverse)) => Some((t2, seq![inverse] + inverses)),
            },
        }
    }
}

/// A transaction applies exactly when its edits, unnumbered, apply, and to the same
/// tree with the same inverse.
proof fn lemma_run_replay(t: TreeView, edits: Seq<EditView>)
    ensures
        run_edits(t, edits) is Ok <==> replay(t, edits) is Some,
        run_edits(t, edits) is Ok ==> run_edits(t, edits)->Ok_0 == replay(t, edits)->Some_0,
    decreases edits.len(),
{
    if edits.len() > 0 {
        lemma_run_replay(t, edits.drop_last());
        if let Some((t1, _)) = replay(t, edits.drop_last()) {
            lemma_outcome_index(t1, edits.last(), Some((edits.len() - 1) as usize), None);
        }
    }
}

/// Applying some edits and then others is applying them all, the inverse of the later
/// ones first.
proof fn lemma_replay_split(t: TreeView, a: Seq<EditView>, b: Seq<EditView>)
    ensures
        replay(t, a + b) == match replay(t, a) {
            None => None,
            Some((t1, ia)) => match replay(t1, b) {
                None => None,
                Some((t2, ib)) => Some((t2, ib + ia)),
            },
        },
    decreases b.len(),
{
    if b.len() == 0 {
        assert(a + b =~= a);
        if let Some((t1, ia)) = replay(t, a) {
            assert(Seq::<EditView>::empty() + ia =~= ia);
        }
    } else {
        assert((a + b).drop_last() =~= a + b.drop_last());
        assert((a + b).last() == b.last());
        lemma_replay_split(t, a, b.drop_last());
        if let Some((t1, ia)) = replay(t, a) {
            if let Some((t2, ib)) = replay(t1, b.drop_last()) {
                if let Ok((t3, inverse)) = edit_outcome(t2, b.last(), None) {
                    assert(seq![inverse] + (ib + ia) =~= (seq![inverse] + ib) + ia);
                }
            }
        }
    }
}

/// Edits apply to trees that differ only in the allocator's next identifier alike.
proof fn lemma_replay_next(t: TreeView, u: TreeView, edits: Seq<EditView>)
    requires
        t.0 == u.0,
        t.1 == u.1,
    ensures
        replay(t, edits) is Some <==> replay(u, edits) is Some,
        replay(t, edits) is Some ==> ({
            let (t1, it) = replay(t, edits)->Some_0;
            let (u1, iu) = replay(u, edits)->Some_0;
            t1.0 == u1.0 && t1.1 == u1.1 && it == iu
        }),
    decreases edits.len(),
{
    if edits.len() > 0 {
        lemma_replay_next(t, u, edits.drop_last());
        if let Some((t1, _)) = replay(t, edits.drop_last()) {
            let (u1, _) = replay(u, edits.drop_last())->Some_0;
            lemma_outcome_next(t1, u1, edits.last(), None);
        }
    }
}

/// Edits that apply keep the nodes of a tree distinct.
proof fn lemma_replay_distinct(t: TreeView, edits: Seq<EditView>)
    requires
        distinct_nodes(t.0, t.1),
        replay(t, edits) is Some,
    ensures
        distinct_nodes(replay(t, edits)->Some_0.0.0, replay(t, edits)->Some_0.0.1),
    decreases edits.len(),
{
    if edits.len() > 0 {
        lemma_replay_distinct(t, edits.drop_last());
        let (t1, _) = replay(t, edits.drop_last())->Some_0;
        lemma_edit_keeps_distinct(t1, edits.last(), None);
    }
}

/// The inverse of one edit undoes it, when the tree's nodes are distinct and its lists
/// indexable.
proof fn lemma_edit_undone(t: TreeView, edit: EditView)
    requires
        distinct_nodes(t.0, t.1),
        indexable(t.1),
        edit_outcome(t, edit, None) is Ok,
    ensures
        ({
            let (t1, inverse) = edit_outcome(t, edit, None)->Ok_0;
            edit_outcome(t1, inverse, None) matches Ok((t2, _)) && t2.0 == t.0 && t2.1 == t.1
        }),
{
    match edit {
        EditView::Insert { parent, index: at, node } => law_insert_undone(t, parent, at, node, None, None),
        EditView::Remove { node } => law_remove_undone(t, node, None, None),
        EditView::Move { node, parent, index: at } => law_move_undone(t, node, parent, at, None, None),
    }
}

/// Applying the inverse of edits that apply restores the tree, when its nodes are
/// distinct and every tree along the way has indexable lists.
proof fn lemma_replay_undone(t: TreeView, edits: Seq<EditView>)
    requires
        distinct_nodes(t.0, t.1),
        replay(t, edits) is Some,
        forall|k: int| 0 <= k <= edits.len() ==> (#[trigger] replay(t, edits.take(k)) matches Some((s, _)) ==> indexable(s.1)),
    ensures
        ({
            let (t1, inverse) = replay(t, edits)->Some_0;
            replay(t1, inverse) matches Some((t2, _)) && t2.0 == t.0 && t2.1 == t.1
        }),
    decreases edits.len(),
{
    if edits.len() == 0 {
        return;
    }
    let p = edits.drop_last();
    let e = edits.last();
    assert forall|k: int| 0 <= k <= p.len() implies (#[trigger] replay(t, p.take(k)) matches Some((s, _)) ==> indexable(s.1)) by {
        assert(p.take(k) =~= edits.take(k));
    }
    lemma_replay_undone(t, p);
    let (t1, invp) = replay(t, p)->Some_0;
    let (t3, _) = replay(t1, invp)->Some_0;
    lemma_replay_distinct(t, p);
    assert(edits.take(p.len() as int) =~= p);
    assert(indexable(t1.1));
    let (t2, inv_e) = edit_outcome(t1, e, None)->Ok_0;
    lemma_edit_undone(t1, e);
    let (t4, ii) = edit_outcome(t2, inv_e, None)->Ok_0;
    assert(seq![inv_e].drop_last() =~= Seq::<EditView>::empty());
    assert(seq![inv_e].last() == inv_e);
    assert(replay(t2, Seq::<EditView>::empty()) == Some((t2, Seq::<EditView>::empty())));
    assert(replay(t2, seq![inv_e]) == Some((t4, seq![ii] + Seq::<EditView>::empty())));
    lemma_replay_split(t2, seq![inv_e], invp);
    lemma_replay_next(t4, t1, invp);
}

/// Applying the inverse of a transaction of structural edits restores the tree of the
/// figure: the inverse, which lists the inverse of each edit in reverse order, applies,
/// and leaves the figure with the axes and the artists it had, in their order. This
/// holds when no two nodes of the figure share an identifier and every list that the
/// edits leave is short enough for its positions to be written as an index.
pub proof fn law_transaction_undone(t: TreeView, edits: Seq<EditView>)
    requires
        distinct_nodes(t.0, t.1),
        run_edits(t, edits) is Ok,
        forall|k: int| 0 <= k <= edits.len() ==> (#[trigger] run_edits(t, edits.take(k)) matches Ok((s, _)) ==> indexable(s.1)),
    ensures
        ({
            let (t1, inverse) = run_edits(t, edits)->Ok_0;
            run_edits(t1, inverse) matches Ok((t2, _)) && t2.0 == t.0 && t2.1 == t.1
        }),
{
    lemma_run_replay(t, edits);
    assert forall|k: int| 0 <= k <= edits.len() implies (#[trigger] replay(t, edits.take(k)) matches Some((s, _)) ==> indexable(s.1)) by {
        lemma_run_replay(t, edits.take(k));
        assert(run_edits(t, edits.take(k)) matches Ok((s, _)) ==> indexable(s.1));
    }
    lemma_replay_undone(t, edits);
    let (t1, inverse) = run_edits(t, edits)->Ok_0;
    lemma_run_replay(t1, inverse);
}

} // verus!
