//! Links between the limits of axes.

use vstd::prelude::*;

use crate::edit::path::{valid_segments, PropertyPath};
use crate::edit::value::{PlainEdit, PlainValue};
use crate::edit::tree::{copy_ids, find_first, is_id, lemma_find_first, other_than, position_of};
use crate::ids::NodeId;

verus! {

/// A coordinate dimension of an axes.
#[derive(Debug, Clone, Copy, PartialEq, Eq, Hash, PartialOrd, Ord, Structural)]
pub enum Dimension {
    /// The x axis.
    X,
    /// The y axis.
    Y,
    /// The z axis.
    Z,
}

/// A group of axes whose limits along one dimension are kept equal.
///
/// For each dimension, the groups of a figure are disjoint: an axes belongs to at
/// most one group per dimension.
#[derive(Debug, Clone, PartialEq, Eq)]
pub struct AxisLink {
    /// The dimension whose limits are linked.
    pub dimension: Dimension,
    /// The identifiers of the linked axes.
    pub axes: Vec<NodeId>,
}

/// The members of every set of a sequence.
pub open spec fn union_all(s: Seq<Set<NodeId>>) -> Set<NodeId>
    decreases s.len(),
{
    if s.len() == 0 {
        Set::empty()
    } else {
        union_all(s.drop_last()).union(s.last())
    }
}

/// One pass of the merge of a group into the components: the components, in order,
/// that share no member with the group as merged so far are kept, and every other is
/// merged into the group. Returns the kept components and the merged group.
pub open spec fn sweep(components: Seq<Set<NodeId>>, group: Set<NodeId>) -> (Seq<Set<NodeId>>, Set<NodeId>)
    decreases components.len(),
{
    if components.len() == 0 {
        (seq![], group)
    } else {
        let (kept, merged) = sweep(components.drop_last(), group);
        let c = components.last();
        if c.disjoint(merged) {
            (kept.push(c), merged)
        } else {
            (kept, merged.union(c))
        }
    }
}

/// The components after a group is merged in: those that share no member with it, in
/// order, followed by the union of the group and all the others.
pub open spec fn merge_group(components: Seq<Set<NodeId>>, group: Set<NodeId>) -> Seq<Set<NodeId>> {
    let (kept, merged) = sweep(components, group);
    kept.push(merged)
}

/// The disjoint unions of groups that share a member, as the groups are merged in one
/// after another.
pub open spec fn spec_components(groups: Seq<Set<NodeId>>) -> Seq<Set<NodeId>>
    decreases groups.len(),
{
    if groups.len() == 0 {
        seq![]
    } else {
        merge_group(spec_components(groups.drop_last()), groups.last())
    }
}

/// The members of each list, as sets.
pub open spec fn id_sets(v: Seq<Vec<NodeId>>) -> Seq<Set<NodeId>> {
    v.map_values(|g: Vec<NodeId>| g@.to_set())
}

/// Whether no two sets of a sequence share a member.
pub open spec fn pairwise_disjoint(s: Seq<Set<NodeId>>) -> bool {
    forall|i: int, j: int| 0 <= i < s.len() && 0 <= j < s.len() && i != j ==> (#[trigger] s[i]).disjoint(#[trigger] s[j])
}

/// Returns whether a list holds an identifier.
pub fn contains_id(v: &Vec<NodeId>, id: NodeId) -> (r: bool)
    ensures
        r == v@.contains(id),
{
    let mut i: usize = 0;
    while i < v.len()
        invariant
            i <= v@.len(),
            forall|k: int| 0 <= k < i ==> v@[k] != id,
        decreases v.len() - i,
    {
        if v[i] == id {
            return true;
        }
        i = i + 1;
    }
    false
}

/// Adds to `into` the identifiers of `from` that it does not hold yet.
fn add_ids(into: &mut Vec<NodeId>, from: &Vec<NodeId>)
    requires
        old(into)@.no_duplicates(),
    ensures
        final(into)@.no_duplicates(),
        final(into)@.to_set() == old(into)@.to_set().union(from@.to_set()),
{
    let ghost start = into@.to_set();
    let mut i: usize = 0;
    while i < from.len()
        invariant
            i <= from@.len(),
            into@.no_duplicates(),
            into@.to_set() == start.union(from@.take(i as int).to_set()),
        decreases from.len() - i,
    {
        let id = from[i];
        let ghost before = into@;
        if !contains_id(into, id) {
            into.push(id);
            assert(into@ == before.push(id));
            assert(into@.to_set() =~= before.to_set().insert(id)) by {
                broadcast use vstd::seq_lib::group_seq_properties;
            }
        }
        assert(from@.take(i + 1) =~= from@.take(i as int).push(id));
        assert(from@.take(i + 1).to_set() =~= from@.take(i as int).to_set().insert(id)) by {
            broadcast use vstd::seq_lib::group_seq_properties;
        }
        assert(into@.to_set() =~= start.union(from@.take(i + 1).to_set()));
        i = i + 1;
    }
    assert(from@.take(i as int) =~= from@);
}

/// Returns whether two lists share no identifier.
fn disjoint_ids(a: &Vec<NodeId>, b: &Vec<NodeId>) -> (r: bool)
    ensures
        r == a@.to_set().disjoint(b@.to_set()),
{
    let mut i: usize = 0;
    while i < a.len()
        invariant
            i <= a@.len(),
            forall|k: int| 0 <= k < i ==> !b@.contains(#[trigger] a@[k]),
        decreases a.len() - i,
    {
        if contains_id(b, a[i]) {
            assert(a@.to_set().contains(a@[i as int]));
            return false;
        }
        i = i + 1;
    }
    assert forall|x: NodeId| a@.to_set().contains(x) implies !b@.to_set().contains(x) by {
        let k = choose|k: int| 0 <= k < a@.len() && a@[k] == x;
        assert(!b@.contains(a@[k]));
    }
    true
}

/// Merges groups that share a member, returning the disjoint unions.
///
/// Each group is merged in turn: the components found so far that share a member with
/// it are taken out and united with it, and the union is placed after the components
/// that remain. Every component lists each of its members once.
pub fn connected_components(groups: &Vec<Vec<NodeId>>) -> (r: Vec<Vec<NodeId>>)
    ensures
        id_sets(r@) == spec_components(id_sets(groups@)),
        forall|i: int| 0 <= i < r@.len() ==> (#[trigger] r@[i])@.no_duplicates(),
{
    let mut components: Vec<Vec<NodeId>> = Vec::new();
    let mut g: usize = 0;
    while g < groups.len()
        invariant
            g <= groups@.len(),
            id_sets(components@) == spec_components(id_sets(groups@).take(g as int)),
            forall|i: int| 0 <= i < components@.len() ==> (#[trigger] components@[i])@.no_duplicates(),
        decreases groups.len() - g,
    {
        let mut merged: Vec<NodeId> = Vec::new();
        add_ids(&mut merged, &groups[g]);
        assert(merged@.to_set() =~= groups@[g as int]@.to_set()) by {
            assert(Seq::<NodeId>::empty().to_set() =~= Set::<NodeId>::empty());
        }
        let ghost group = groups@[g as int]@.to_set();
        let ghost previous = id_sets(components@);
        let mut kept: Vec<Vec<NodeId>> = Vec::new();
        let mut c: usize = 0;
        while c < components.len()
            invariant
                c <= components@.len(),
                previous == id_sets(components@),
                group == groups@[g as int]@.to_set(),
                (id_sets(kept@), merged@.to_set()) == sweep(previous.take(c as int), group),
                merged@.no_duplicates(),
                forall|i: int| 0 <= i < components@.len() ==> (#[trigger] components@[i])@.no_duplicates(),
                forall|i: int| 0 <= i < kept@.len() ==> (#[trigger] kept@[i])@.no_duplicates(),
            decreases components.len() - c,
        {
            assert(previous.take(c + 1).drop_last() =~= previous.take(c as int));
            assert(previous.take(c + 1).last() == components@[c as int]@.to_set());
            if disjoint_ids(&components[c], &merged) {
                let ghost before = kept@;
                kept.push(copy_ids(&components[c]));
                assert(id_sets(kept@) =~= id_sets(before).push(components@[c as int]@.to_set()));
                assert(components@[c as int]@.to_set().disjoint(merged@.to_set()));
            } else {
                assert(!components@[c as int]@.to_set().disjoint(merged@.to_set()));
                add_ids(&mut merged, &components[c]);
                assert(merged@.to_set() =~= sweep(previous.take(c as int), group).1.union(components@[c as int]@.to_set()));
            }
            c = c + 1;
        }
        assert(previous.take(c as int) =~= previous);
        let ghost before = kept@;
        kept.push(merged);
        assert(id_sets(kept@) =~= id_sets(before).push(sweep(previous, group).1));
        assert(id_sets(groups@).take(g + 1).drop_last() =~= id_sets(groups@).take(g as int));
        assert(id_sets(groups@).take(g + 1).last() == group);
        components = kept;
        g = g + 1;
    }
    assert(id_sets(groups@).take(g as int) =~= id_sets(groups@));
    components
}

/// What one pass keeps and merges, when the components share no member: every kept
/// component is one of the components, none shares a member with the merged group,
/// the kept components share no member with each other, the merged group holds the
/// group, and every component is either kept or inside the merged group.
proof fn lemma_sweep(components: Seq<Set<NodeId>>, group: Set<NodeId>)
    requires
        pairwise_disjoint(components),
    ensures
        ({
            let (kept, merged) = sweep(components, group);
            &&& forall|i: int| 0 <= i < kept.len() ==> exists|j: int| 0 <= j < components.len() && components[j] == #[trigger] kept[i]
            &&& forall|i: int| 0 <= i < kept.len() ==> (#[trigger] kept[i]).disjoint(merged)
            &&& pairwise_disjoint(kept)
            &&& group.subset_of(merged)
            &&& forall|j: int| 0 <= j < components.len() ==> (#[trigger] components[j]).subset_of(merged)
                || exists|i: int| 0 <= i < kept.len() && kept[i] == components[j]
            &&& union_all(kept).union(merged) == union_all(components).union(group)
        }),
    decreases components.len(),
{
    if components.len() > 0 {
        let rest = components.drop_last();
        assert(pairwise_disjoint(rest)) by {
            assert forall|i: int, j: int| 0 <= i < rest.len() && 0 <= j < rest.len() && i != j implies (#[trigger] rest[i]).disjoint(#[trigger] rest[j]) by {
                assert(rest[i] == components[i] && rest[j] == components[j]);
            }
        }
        lemma_sweep(rest, group);
        let (k0, m0) = sweep(rest, group);
        let c = components.last();
        let n = components.len() - 1;
        assert(c == components[n]);
        // Every component kept so far is an earlier component, so it shares nothing with c.
        assert forall|i: int| 0 <= i < k0.len() implies (#[trigger] k0[i]).disjoint(c) by {
            let j = choose|j: int| 0 <= j < rest.len() && rest[j] == k0[i];
            assert(components[j] == k0[i]);
            assert(components[j].disjoint(components[n]));
        }
        let (kept, merged) = sweep(components, group);
        if c.disjoint(m0) {
            assert(kept == k0.push(c) && merged == m0);
            assert forall|i: int| 0 <= i < kept.len() implies exists|j: int| 0 <= j < components.len() && components[j] == #[trigger] kept[i] by {
                if i < k0.len() {
                    let j = choose|j: int| 0 <= j < rest.len() && rest[j] == k0[i];
                    assert(components[j] == kept[i]);
                } else {
                    assert(components[n] == kept[i]);
                }
            }
            assert forall|i: int, j: int| 0 <= i < kept.len() && 0 <= j < kept.len() && i != j implies (#[trigger] kept[i]).disjoint(#[trigger] kept[j]) by {
                if i < k0.len() && j < k0.len() {
                    assert(k0[i].disjoint(k0[j]));
                } else if i < k0.len() {
                    assert(k0[i].disjoint(c));
                } else {
                    assert(k0[j].disjoint(c));
                }
            }
            assert forall|j: int| 0 <= j < components.len() implies (#[trigger] components[j]).subset_of(merged)
                || exists|i: int| 0 <= i < kept.len() && kept[i] == components[j] by {
                if j < n {
                    assert(components[j] == rest[j]);
                    if !rest[j].subset_of(m0) {
                        let i = choose|i: int| 0 <= i < k0.len() && k0[i] == rest[j];
                        assert(kept[i] == components[j]);
                    }
                } else {
                    assert(kept[k0.len() as int] == components[j]);
                }
            }
            assert(kept.drop_last() =~= k0);
            assert(union_all(kept) == union_all(k0).union(c));
            assert(union_all(components) == union_all(rest).union(c));
            assert(union_all(k0).union(m0) == union_all(rest).union(group));
            assert(union_all(kept).union(merged) =~= union_all(components).union(group)) by {
                assert forall|x: NodeId| union_all(kept).union(merged).contains(x) <==> union_all(components).union(group).contains(x) by {
                    assert(union_all(k0).union(m0).contains(x) <==> union_all(rest).union(group).contains(x));
                }
            }
        } else {
            assert(kept == k0 && merged == m0.union(c));
            assert forall|j: int| 0 <= j < components.len() implies (#[trigger] components[j]).subset_of(merged)
                || exists|i: int| 0 <= i < kept.len() && kept[i] == components[j] by {
                if j < n {
                    assert(components[j] == rest[j]);
                    if !rest[j].subset_of(m0) {
                        let i = choose|i: int| 0 <= i < k0.len() && k0[i] == rest[j];
                        assert(kept[i] == components[j]);
                    }
                }
            }
            assert forall|i: int| 0 <= i < kept.len() implies (#[trigger] kept[i]).disjoint(merged) by {
                assert(k0[i].disjoint(m0));
                assert(k0[i].disjoint(c));
            }
            assert forall|i: int| 0 <= i < kept.len() implies exists|j: int| 0 <= j < components.len() && components[j] == #[trigger] kept[i] by {
                let j = choose|j: int| 0 <= j < rest.len() && rest[j] == k0[i];
                assert(components[j] == kept[i]);
            }
            assert(union_all(components) == union_all(rest).union(c));
            assert(union_all(k0).union(m0) == union_all(rest).union(group));
            assert(union_all(kept).union(merged) =~= union_all(components).union(group)) by {
                assert forall|x: NodeId| union_all(kept).union(merged).contains(x) <==> union_all(components).union(group).contains(x) by {
                    assert(union_all(k0).union(m0).contains(x) <==> union_all(rest).union(group).contains(x));
                }
            }
        }
    } else {
        assert(union_all(seq![]).union(group) =~= union_all(components).union(group));
    }
}

/// The components of any groups share no member with each other, hold exactly the
/// members of the groups, and each group lies wholly within one component.
pub proof fn law_components_partition_groups(groups: Seq<Set<NodeId>>)
    ensures
        pairwise_disjoint(spec_components(groups)),
        union_all(spec_components(groups)) == union_all(groups),
        forall|g: int| 0 <= g < groups.len() ==> exists|c: int|
            0 <= c < spec_components(groups).len() && (#[trigger] groups[g]).subset_of(spec_components(groups)[c]),
    decreases groups.len(),
{
    if groups.len() > 0 {
        let rest = groups.drop_last();
        law_components_partition_groups(rest);
        let previous = spec_components(rest);
        let group = groups.last();
        lemma_sweep(previous, group);
        let (kept, merged) = sweep(previous, group);
        let result = spec_components(groups);
        assert(result == kept.push(merged));
        assert forall|i: int, j: int| 0 <= i < result.len() && 0 <= j < result.len() && i != j implies (#[trigger] result[i]).disjoint(#[trigger] result[j]) by {
            if i < kept.len() && j < kept.len() {
                assert(kept[i].disjoint(kept[j]));
            } else if i < kept.len() {
                assert(kept[i].disjoint(merged));
            } else {
                assert(kept[j].disjoint(merged));
            }
        }
        assert(union_all(result) =~= union_all(groups)) by {
            assert(result.drop_last() =~= kept);
        }
        assert forall|g: int| 0 <= g < groups.len() implies exists|c: int|
            0 <= c < result.len() && (#[trigger] groups[g]).subset_of(result[c]) by {
            if g == groups.len() - 1 {
                assert(groups[g].subset_of(result[kept.len() as int]));
            } else {
                assert(groups[g] == rest[g]);
                let c0 = choose|c: int| 0 <= c < previous.len() && rest[g].subset_of(previous[c]);
                if previous[c0].subset_of(merged) {
                    assert(groups[g].subset_of(result[kept.len() as int]));
                } else {
                    let i = choose|i: int| 0 <= i < kept.len() && kept[i] == previous[c0];
                    assert(groups[g].subset_of(result[i]));
                }
            }
        }
    }
}

/// The groups of the links along a dimension, as sets, in the order of the links.
pub open spec fn groups_along(links: Seq<AxisLink>, dimension: Dimension) -> Seq<Set<NodeId>>
    decreases links.len(),
{
    if links.len() == 0 {
        seq![]
    } else {
        let earlier = groups_along(links.drop_last(), dimension);
        if links.last().dimension == dimension {
            earlier.push(links.last().axes@.to_set())
        } else {
            earlier
        }
    }
}

/// The first component that holds an axes, or the axes alone when none does.
pub open spec fn component_of(components: Seq<Set<NodeId>>, axes: NodeId) -> Set<NodeId>
    decreases components.len(),
{
    if components.len() == 0 {
        set![axes]
    } else if components[0].contains(axes) {
        components[0]
    } else {
        component_of(components.drop_first(), axes)
    }
}

/// The members of a set in the order of a list, each once.
pub open spec fn members_in_order(order: Seq<NodeId>, members: Set<NodeId>) -> Seq<NodeId>
    decreases order.len(),
{
    if order.len() == 0 {
        seq![]
    } else {
        let earlier = members_in_order(order.drop_last(), members);
        if members.contains(order.last()) && !earlier.contains(order.last()) {
            earlier.push(order.last())
        } else {
            earlier
        }
    }
}

/// The axes linked with an axes along a dimension, itself included, in figure order;
/// nothing for an identifier that is not an axes.
pub open spec fn spec_linked_axes(order: Seq<NodeId>, links: Seq<AxisLink>, axes: NodeId, dimension: Dimension) -> Seq<NodeId> {
    if !order.contains(axes) {
        seq![]
    } else {
        members_in_order(order, component_of(spec_components(groups_along(links, dimension)), axes))
    }
}

/// The links without an axes: each group without it, and without the groups left with
/// fewer than two members.
pub open spec fn spec_links_without(links: Seq<AxisLink>, axes: NodeId) -> Seq<(Dimension, Seq<NodeId>)>
    decreases links.len(),
{
    if links.len() == 0 {
        seq![]
    } else {
        let earlier = spec_links_without(links.drop_last(), axes);
        let members = links.last().axes@.filter(other_than(axes));
        if members.len() >= 2 {
            earlier.push((links.last().dimension, members))
        } else {
            earlier
        }
    }
}

pub open spec fn link_views(links: Seq<AxisLink>) -> Seq<(Dimension, Seq<NodeId>)> {
    links.map_values(|l: AxisLink| (l.dimension, l.axes@))
}

/// The axes of a figure in figure order, with the links between their limits: what the
/// links of a figure are read and changed by.
pub struct FigureLinks {
    /// The identifiers of the axes, in figure order.
    pub axes: Vec<NodeId>,
    /// The groups of axes whose limits are linked along a dimension.
    pub links: Vec<AxisLink>,
}

impl FigureLinks {
    /// Returns the axes linked with the given axes along a dimension, including the
    /// given axes itself, in the order the axes appear in the figure.
    ///
    /// An unlinked axes yields only itself, and an unknown identifier yields an empty
    /// list. Groups that overlap are treated as one group, and identifiers in a group
    /// that do not refer to an axes are ignored.
    pub fn linked_axes(&self, axes: NodeId, dimension: Dimension) -> (r: Vec<NodeId>)
        ensures
            r@ == spec_linked_axes(self.axes@, self.links@, axes, dimension),
    {
        if !contains_id(&self.axes, axes) {
            return Vec::new();
        }
        let mut groups: Vec<Vec<NodeId>> = Vec::new();
        let mut i: usize = 0;
        while i < self.links.len()
            invariant
                i <= self.links@.len(),
                id_sets(groups@) == groups_along(self.links@.take(i as int), dimension),
            decreases self.links.len() - i,
        {
            assert(self.links@.take(i + 1).drop_last() =~= self.links@.take(i as int));
            if self.links[i].dimension == dimension {
                let ghost before = groups@;
                groups.push(copy_ids(&self.links[i].axes));
                assert(id_sets(groups@) =~= id_sets(before).push(self.links@[i as int].axes@.to_set()));
            }
            i = i + 1;
        }
        assert(self.links@.take(i as int) =~= self.links@);
        let components = connected_components(&groups);
        let ghost comps = id_sets(components@);
        let mut component: Vec<NodeId> = vec![axes];
        let mut c: usize = 0;
        let mut found = false;
        assert(comps.skip(0) =~= comps);
        while !found && c < components.len()
            invariant
                c <= components@.len(),
                comps == id_sets(components@),
                found ==> component@.to_set() == component_of(comps, axes),
                !found ==> component@ == seq![axes],
                !found ==> component_of(comps.skip(c as int), axes) == component_of(comps, axes),
            decreases components.len() - c, if found { 0int } else { 1int },
        {
            assert(comps.skip(c as int)[0] == components@[c as int]@.to_set());
            assert(comps.skip(c as int).drop_first() =~= comps.skip(c + 1));
            if contains_id(&components[c], axes) {
                component = copy_ids(&components[c]);
                found = true;
            } else {
                c = c + 1;
            }
        }
        if !found {
            assert(comps.skip(c as int) =~= Seq::<Set<NodeId>>::empty());
            assert(component@.to_set() =~= set![axes]) by {
                assert(component@ == seq![axes]);
                assert(component@[0] == axes);
            }
        }
        let ghost members = component@.to_set();
        let mut r: Vec<NodeId> = Vec::new();
        let mut k: usize = 0;
        while k < self.axes.len()
            invariant
                k <= self.axes@.len(),
                members == component@.to_set(),
                r@ == members_in_order(self.axes@.take(k as int), members),
            decreases self.axes.len() - k,
        {
            let id = self.axes[k];
            assert(self.axes@.take(k + 1).drop_last() =~= self.axes@.take(k as int));
            assert(self.axes@.take(k + 1).last() == id);
            if contains_id(&component, id) && !contains_id(&r, id) {
                r.push(id);
            }
            k = k + 1;
        }
        assert(self.axes@.take(k as int) =~= self.axes@);
        r
    }

    /// Returns the links without an axes: each group without it, and without the groups
    /// left with fewer than two members, as the removal of the axes leaves them.
    pub fn links_without(&self, axes: NodeId) -> (r: Vec<AxisLink>)
        ensures
            link_views(r@) == spec_links_without(self.links@, axes),
    {
        let mut r: Vec<AxisLink> = Vec::new();
        let mut i: usize = 0;
        while i < self.links.len()
            invariant
                i <= self.links@.len(),
                link_views(r@) == spec_links_without(self.links@.take(i as int), axes),
            decreases self.links.len() - i,
        {
            let link = &self.links[i];
            assert(self.links@.take(i + 1).drop_last() =~= self.links@.take(i as int));
            assert(self.links@.take(i + 1).last() == *link);
            let mut members: Vec<NodeId> = Vec::new();
            let mut k: usize = 0;
            while k < link.axes.len()
                invariant
                    k <= link.axes@.len(),
                    members@ == link.axes@.take(k as int).filter(other_than(axes)),
                decreases link.axes.len() - k,
            {
                proof {
                    broadcast use Seq::lemma_filter_push;
                    assert(link.axes@.take(k + 1) =~= link.axes@.take(k as int).push(link.axes@[k as int]));
                }
                if link.axes[k] != axes {
                    members.push(link.axes[k]);
                }
                k = k + 1;
            }
            assert(link.axes@.take(k as int) =~= link.axes@);
            if members.len() >= 2 {
                let ghost before = r@;
                r.push(AxisLink { dimension: link.dimension, axes: members });
                assert(link_views(r@) =~= link_views(before).push((link.dimension, members@)));
            }
            i = i + 1;
        }
        assert(self.links@.take(i as int) =~= self.links@);
        r
    }
}

proof fn lemma_component_of(components: Seq<Set<NodeId>>, axes: NodeId)
    ensures
        component_of(components, axes).contains(axes),
        component_of(components, axes) == set![axes] || exists|i: int|
            0 <= i < components.len() && component_of(components, axes) == components[i] && components[i].contains(axes)
            && forall|j: int| 0 <= j < i ==> !(#[trigger] components[j]).contains(axes),
    decreases components.len(),
{
    if components.len() > 0 && !components[0].contains(axes) {
        let rest = components.drop_first();
        lemma_component_of(rest, axes);
        if component_of(rest, axes) != set![axes] {
            let i = choose|i: int|
                0 <= i < rest.len() && component_of(rest, axes) == rest[i] && rest[i].contains(axes)
                && forall|j: int| 0 <= j < i ==> !(#[trigger] rest[j]).contains(axes);
            assert(components[i + 1] == rest[i]);
            assert forall|j: int| 0 <= j < i + 1 implies !(#[trigger] components[j]).contains(axes) by {
                if j > 0 {
                    assert(components[j] == rest[j - 1]);
                }
            }
        }
    } else if components.len() > 0 {
        assert(component_of(components, axes) == components[0]);
    }
}

proof fn lemma_component_at(components: Seq<Set<NodeId>>, axes: NodeId, i: int)
    requires
        0 <= i < components.len(),
        components[i].contains(axes),
        forall|j: int| 0 <= j < i ==> !(#[trigger] components[j]).contains(axes),
    ensures
        component_of(components, axes) == components[i],
    decreases i,
{
    if i > 0 {
        let rest = components.drop_first();
        assert forall|j: int| 0 <= j < i - 1 implies !(#[trigger] rest[j]).contains(axes) by {
            assert(rest[j] == components[j + 1]);
        }
        lemma_component_at(rest, axes, i - 1);
    }
}

proof fn lemma_members_in_order(order: Seq<NodeId>, members: Set<NodeId>, x: NodeId)
    ensures
        members_in_order(order, members).contains(x) <==> (members.contains(x) && order.contains(x)),
    decreases order.len(),
{
    if order.len() > 0 {
        let rest = order.drop_last();
        lemma_members_in_order(rest, members, x);
        let earlier = members_in_order(rest, members);
        if earlier.contains(x) {
            let j = choose|j: int| 0 <= j < earlier.len() && earlier[j] == x;
            if members.contains(order.last()) && !earlier.contains(order.last()) {
                assert(earlier.push(order.last())[j] == x);
            }
            let k = choose|k: int| 0 <= k < rest.len() && rest[k] == x;
            assert(order[k] == x);
        }
        if members.contains(x) && order.contains(x) && !earlier.contains(x) {
            let k = choose|k: int| 0 <= k < order.len() && order[k] == x;
            if k < rest.len() {
                assert(rest[k] == x);
            } else {
                assert(order.last() == x);
                assert(earlier.push(x)[earlier.len() as int] == x);
            }
        }
        if members_in_order(order, members).contains(x) && !earlier.contains(x) {
            let j = choose|j: int| 0 <= j < members_in_order(order, members).len() && members_in_order(order, members)[j] == x;
            if members.contains(order.last()) && !earlier.contains(order.last()) {
                if j < earlier.len() {
                    assert(earlier.push(order.last())[j] == earlier[j]);
                } else {
                    assert(order[order.len() - 1] == x);
                }
            }
        }
    }
}

/// Linking is shared by the group: every axes linked with an axes along a dimension is
/// linked with exactly the same axes, and an axes of the figure is linked with itself.
pub proof fn law_linked_axes_shared(order: Seq<NodeId>, links: Seq<AxisLink>, a: NodeId, b: NodeId, dimension: Dimension)
    ensures
        order.contains(a) ==> spec_linked_axes(order, links, a, dimension).contains(a),
        spec_linked_axes(order, links, a, dimension).contains(b) ==> spec_linked_axes(order, links, b, dimension)
            == spec_linked_axes(order, links, a, dimension),
{
    let comps = spec_components(groups_along(links, dimension));
    law_components_partition_groups(groups_along(links, dimension));
    lemma_component_of(comps, a);
    lemma_component_of(comps, b);
    let ca = component_of(comps, a);
    lemma_members_in_order(order, ca, a);
    lemma_members_in_order(order, ca, b);
    if spec_linked_axes(order, links, a, dimension).contains(b) {
        assert(order.contains(a));
        assert(ca.contains(b) && order.contains(b));
        if ca == set![a] {
            assert(b == a);
        } else {
            let i = choose|i: int|
                0 <= i < comps.len() && ca == comps[i] && comps[i].contains(a)
                && forall|j: int| 0 <= j < i ==> !(#[trigger] comps[j]).contains(a);
            assert forall|j: int| 0 <= j < i implies !(#[trigger] comps[j]).contains(b) by {
                assert(comps[j].disjoint(comps[i]));
            }
            lemma_component_at(comps, b, i);
        }
    }
}


/// The key that sorts identifiers as their axes appear in the figure, before the
/// identifiers that are not axes, which sort by identifier.
pub open spec fn spec_order_key(order: Seq<NodeId>, id: NodeId) -> (int, int) {
    let p = find_first(order, is_id(id));
    (if p >= 0 { p } else { usize::MAX as int }, id.0 as int)
}

/// Whether a key sorts before another.
pub open spec fn key_before(a: (int, int), b: (int, int)) -> bool {
    a.0 < b.0 || (a.0 == b.0 && a.1 < b.1)
}

/// Whether identifiers are in strictly ascending order of their keys.
pub open spec fn in_figure_order_by(order: Seq<NodeId>, ids: Seq<NodeId>) -> bool {
    forall|i: int, j: int| 0 <= i < j < ids.len() ==> key_before(#[trigger] spec_order_key(order, ids[i]), #[trigger] spec_order_key(order, ids[j]))
}

/// The links of other dimensions than one, in order.
pub open spec fn links_across(links: Seq<AxisLink>, dimension: Dimension) -> Seq<(Dimension, Seq<NodeId>)>
    decreases links.len(),
{
    if links.len() == 0 {
        seq![]
    } else {
        let earlier = links_across(links.drop_last(), dimension);
        if links.last().dimension != dimension {
            earlier.push((links.last().dimension, links.last().axes@))
        } else {
            earlier
        }
    }
}

/// Whether links are the groups of a dimension after the given axes are linked along
/// it: the links of the other dimensions unchanged and in order, followed by one group
/// for each component of at least two axes of the dimension's groups and the given
/// axes, each in figure order, the groups ordered by their first axes.
pub open spec fn spec_link_groups(order: Seq<NodeId>, links: Seq<AxisLink>, dimension: Dimension, axes: Seq<NodeId>, r: Seq<(Dimension, Seq<NodeId>)>) -> bool {
    let others = links_across(links, dimension);
    let components = spec_components(groups_along(links, dimension).push(axes.to_set()));
    &&& r.len() >= others.len()
    &&& r.take(others.len() as int) == others
    &&& forall|k: int| others.len() <= k < r.len() ==> {
        &&& (#[trigger] r[k]).0 == dimension
        &&& r[k].1.len() >= 2
        &&& r[k].1.no_duplicates()
        &&& in_figure_order_by(order, r[k].1)
        &&& exists|c: int| 0 <= c < components.len() && components[c] == r[k].1.to_set()
    }
    &&& forall|c: int| 0 <= c < components.len() && (#[trigger] components[c]).len() >= 2 ==> exists|k: int|
        others.len() <= k < r.len() && r[k].1.to_set() == components[c]
    &&& forall|k: int, l: int| others.len() <= k < l < r.len() ==> key_before(
        spec_order_key(order, (#[trigger] r[k]).1[0]),
        spec_order_key(order, (#[trigger] r[l]).1[0]),
    )
}

proof fn lemma_insert_to_set(s: Seq<NodeId>, p: int, x: NodeId)
    requires
        0 <= p <= s.len(),
    ensures
        s.insert(p, x).to_set() == s.to_set().insert(x),
{
    s.insert_ensures(p, x);
    let t = s.insert(p, x);
    assert forall|y: NodeId| t.to_set().contains(y) <==> s.to_set().insert(x).contains(y) by {
        if t.contains(y) {
            let j = choose|j: int| 0 <= j < t.len() && t[j] == y;
            if j < p {
                assert(s[j] == y);
            } else if j > p {
                assert(s[j - 1] == y);
            }
        }
        if s.contains(y) {
            let j = choose|j: int| 0 <= j < s.len() && s[j] == y;
            if j < p {
                assert(t[j] == y);
            } else {
                assert(t[j + 1] == y);
            }
        }
        if y == x {
            assert(t[p] == y);
        }
    }
    assert(t.to_set() =~= s.to_set().insert(x));
}

/// Returns whether a key sorts before another.
fn key_less(a: (usize, u64), b: (usize, u64)) -> (r: bool)
    ensures
        r == key_before((a.0 as int, a.1 as int), (b.0 as int, b.1 as int)),
{
    a.0 < b.0 || (a.0 == b.0 && a.1 < b.1)
}

impl FigureLinks {
    /// Returns a key that sorts axes in figure order, before identifiers that are not
    /// axes: the position of the axes, or the largest `usize` for an identifier that is
    /// not an axes, followed by the identifier.
    pub fn order_key(&self, id: NodeId) -> (r: (usize, NodeId))
        ensures
            (r.0 as int, r.1.0 as int) == spec_order_key(self.axes@, id),
            r.1 == id,
    {
        match position_of(&self.axes, id) {
            Some(p) => (p, id),
            None => (usize::MAX, id),
        }
    }

    /// Returns the key of an identifier as plain numbers.
    fn key_of(&self, id: NodeId) -> (r: (usize, u64))
        ensures
            (r.0 as int, r.1 as int) == spec_order_key(self.axes@, id),
    {
        let (p, id) = self.order_key(id);
        (p, id.0)
    }

    /// Orders identifiers as their axes appear in the figure, followed by any
    /// identifiers that are not axes in ascending order.
    pub fn in_figure_order(&self, ids: &Vec<NodeId>) -> (r: Vec<NodeId>)
        requires
            ids@.no_duplicates(),
        ensures
            r@.len() == ids@.len(),
            r@.to_set() == ids@.to_set(),
            r@.no_duplicates(),
            in_figure_order_by(self.axes@, r@),
    {
        let mut r: Vec<NodeId> = Vec::new();
        let mut i: usize = 0;
        while i < ids.len()
            invariant
                i <= ids@.len(),
                ids@.no_duplicates(),
                r@.len() == i,
                r@.to_set() == ids@.take(i as int).to_set(),
                r@.no_duplicates(),
                in_figure_order_by(self.axes@, r@),
            decreases ids.len() - i,
        {
            let id = ids[i];
            let (pos, _) = self.order_key(id);
            let key = (pos, id.0);
            let ghost k = spec_order_key(self.axes@, id);
            assert(!r@.contains(id)) by {
                if r@.contains(id) {
                    assert(r@.to_set().contains(id));
                    let j = choose|j: int| 0 <= j < i && ids@.take(i as int)[j] == id;
                    assert(ids@[j] == ids@[i as int]);
                }
            }
            let mut p: usize = 0;
            while p < r.len() && key_less(self.key_of(r[p]), key)
                invariant
                    p <= r@.len(),
                    (key.0 as int, key.1 as int) == k,
                    forall|m: int| 0 <= m < p ==> key_before(#[trigger] spec_order_key(self.axes@, r@[m]), k),
                decreases r.len() - p,
            {
                p = p + 1;
            }
            let ghost before = r@;
            proof {
                if p < before.len() {
                    let kp = spec_order_key(self.axes@, before[p as int]);
                    assert(!key_before(kp, k));
                    assert(kp.1 != k.1);
                }
            }
            r.insert(p, id);
            proof {
                before.insert_ensures(p as int, id);
                assert forall|a: int, b: int| 0 <= a < b < r@.len() implies key_before(#[trigger] spec_order_key(self.axes@, r@[a]), #[trigger] spec_order_key(self.axes@, r@[b])) by {
                    if b < p {
                        assert(r@[a] == before[a] && r@[b] == before[b]);
                    } else if a < p && b == p {
                        assert(r@[a] == before[a]);
                    } else if a < p {
                        assert(r@[a] == before[a] && r@[b] == before[b - 1]);
                        assert(key_before(spec_order_key(self.axes@, before[a]), k));
                        if b - 1 > p {
                            assert(key_before(spec_order_key(self.axes@, before[p as int]), spec_order_key(self.axes@, before[b - 1])));
                        }
                    } else if a == p {
                        assert(r@[b] == before[b - 1]);
                        if b - 1 > p {
                            assert(key_before(spec_order_key(self.axes@, before[p as int]), spec_order_key(self.axes@, before[b - 1])));
                        }
                    } else {
                        assert(r@[a] == before[a - 1] && r@[b] == before[b - 1]);
                    }
                }
                assert(ids@.take(i + 1) =~= ids@.take(i as int).push(id));
                assert(ids@.take(i + 1).to_set() =~= ids@.take(i as int).to_set().insert(id)) by {
                    broadcast use vstd::seq_lib::group_seq_properties;
                }
                lemma_insert_to_set(before, p as int, id);
                assert forall|a: int, b: int| 0 <= a < r@.len() && 0 <= b < r@.len() && a != b implies r@[a] != r@[b] by {
                    if a < b {
                        assert(key_before(spec_order_key(self.axes@, r@[a]), spec_order_key(self.axes@, r@[b])));
                    } else {
                        assert(key_before(spec_order_key(self.axes@, r@[b]), spec_order_key(self.axes@, r@[a])));
                    }
                }
            }
            i = i + 1;
        }
        assert(ids@.take(i as int) =~= ids@);
        r
    }
}


/// Whether the entries of a list of components are the components of a sequence, of at
/// least two members, among the first `n`; each in figure order; and the entries in
/// order of their first members.
pub open spec fn sorted_components(order: Seq<NodeId>, components: Seq<Set<NodeId>>, n: int, entries: Seq<Seq<NodeId>>) -> bool {
    &&& forall|k: int| 0 <= k < entries.len() ==> {
        &&& (#[trigger] entries[k]).len() >= 2
        &&& entries[k].no_duplicates()
        &&& in_figure_order_by(order, entries[k])
        &&& exists|c: int| 0 <= c < n && components[c] == entries[k].to_set()
    }
    &&& forall|c: int| 0 <= c < n && (#[trigger] components[c]).len() >= 2 ==> exists|k: int|
        0 <= k < entries.len() && entries[k].to_set() == components[c]
    &&& forall|k: int, l: int| 0 <= k < l < entries.len() ==> key_before(
        spec_order_key(order, (#[trigger] entries[k])[0]),
        spec_order_key(order, (#[trigger] entries[l])[0]),
    )
}

pub open spec fn seq_views(v: Seq<Vec<NodeId>>) -> Seq<Seq<NodeId>> {
    v.map_values(|g: Vec<NodeId>| g@)
}

/// Whether lists are in strictly ascending order of the keys of their first members.
pub open spec fn by_first(order: Seq<NodeId>, entries: Seq<Seq<NodeId>>) -> bool {
    forall|k: int, l: int| 0 <= k < l < entries.len() ==> key_before(
        spec_order_key(order, (#[trigger] entries[k])[0]),
        spec_order_key(order, (#[trigger] entries[l])[0]),
    )
}

impl FigureLinks {
    /// Inserts a list among lists kept in ascending order of the keys of their first
    /// members, where the key of its first member differs from theirs.
    fn insert_by_first(&self, sorted: &mut Vec<Vec<NodeId>>, entry: Vec<NodeId>)
        requires
            entry@.len() > 0,
            forall|k: int| 0 <= k < old(sorted)@.len() ==> (#[trigger] old(sorted)@[k])@.len() > 0,
            forall|k: int| 0 <= k < old(sorted)@.len() ==> (#[trigger] old(sorted)@[k])@[0] != entry@[0],
            by_first(self.axes@, seq_views(old(sorted)@)),
        ensures
            by_first(self.axes@, seq_views(final(sorted)@)),
            exists|p: int| 0 <= p <= old(sorted)@.len() && seq_views(final(sorted)@) == seq_views(old(sorted)@).insert(p, entry@),
    {
        let ghost entries = seq_views(sorted@);
        let key = self.key_of(entry[0]);
        let ghost k = spec_order_key(self.axes@, entry@[0]);
        let mut p: usize = 0;
        while p < sorted.len() && key_less(self.key_of(sorted[p][0]), key)
            invariant
                p <= sorted@.len(),
                entries == seq_views(sorted@),
                (key.0 as int, key.1 as int) == k,
                forall|m: int| 0 <= m < sorted@.len() ==> (#[trigger] sorted@[m])@.len() > 0,
                forall|m: int| 0 <= m < p ==> key_before(#[trigger] spec_order_key(self.axes@, entries[m][0]), k),
            decreases sorted.len() - p,
        {
            assert(entries[p as int] == sorted@[p as int]@);
            p = p + 1;
        }
        proof {
            if p < entries.len() {
                assert(entries[p as int] == sorted@[p as int]@);
                assert(entries[p as int][0] != entry@[0]);
                assert(!key_before(spec_order_key(self.axes@, entries[p as int][0]), k));
            }
        }
        sorted.insert(p, entry);
        proof {
            let new_entries = seq_views(sorted@);
            entries.insert_ensures(p as int, entry@);
            assert(new_entries =~= entries.insert(p as int, entry@));
            assert forall|a: int, b: int| 0 <= a < b < new_entries.len() implies key_before(
                spec_order_key(self.axes@, (#[trigger] new_entries[a])[0]),
                spec_order_key(self.axes@, (#[trigger] new_entries[b])[0]),
            ) by {
                if b < p {
                    assert(new_entries[a] == entries[a] && new_entries[b] == entries[b]);
                } else if a < p && b == p {
                    assert(new_entries[a] == entries[a]);
                } else if a < p {
                    assert(new_entries[a] == entries[a] && new_entries[b] == entries[b - 1]);
                    if b - 1 > p {
                        assert(key_before(spec_order_key(self.axes@, entries[p as int][0]), spec_order_key(self.axes@, entries[b - 1][0])));
                    }
                } else if a == p {
                    assert(new_entries[b] == entries[b - 1]);
                    if b - 1 > p {
                        assert(key_before(spec_order_key(self.axes@, entries[p as int][0]), spec_order_key(self.axes@, entries[b - 1][0])));
                    }
                } else {
                    assert(new_entries[a] == entries[a - 1] && new_entries[b] == entries[b - 1]);
                }
            }
        }
    }

    /// Returns the components of at least two members, each in figure order, in order of
    /// their first members.
    #[verifier::spinoff_prover]
    #[verifier::rlimit(40)]
    fn sorted_components(&self, components: &Vec<Vec<NodeId>>) -> (r: Vec<Vec<NodeId>>)
        requires
            pairwise_disjoint(id_sets(components@)),
            forall|m: int| 0 <= m < components@.len() ==> (#[trigger] components@[m])@.no_duplicates(),
        ensures
            sorted_components(self.axes@, id_sets(components@), components@.len() as int, seq_views(r@)),
    {
        let ghost comps = id_sets(components@);
        let mut sorted: Vec<Vec<NodeId>> = Vec::new();
        let mut c: usize = 0;
        while c < components.len()
            invariant
                c <= components@.len(),
                comps == id_sets(components@),
                pairwise_disjoint(comps),
                forall|m: int| 0 <= m < components@.len() ==> (#[trigger] components@[m])@.no_duplicates(),
                sorted_components(self.axes@, comps, c as int, seq_views(sorted@)),
            decreases components.len() - c,
        {
            let ghost entries = seq_views(sorted@);
            assert(comps[c as int] == components@[c as int]@.to_set());
            proof {
                components@[c as int]@.unique_seq_to_set();
            }
            if components[c].len() >= 2 {
                let ordered = self.in_figure_order(&components[c]);
                proof {
                    assert(ordered@.to_set().contains(ordered@[0]));
                    assert forall|k: int| 0 <= k < sorted@.len() implies (#[trigger] sorted@[k])@.len() > 0 by {
                        assert(entries[k] == sorted@[k]@);
                    }
                    assert forall|k: int| 0 <= k < sorted@.len() implies (#[trigger] sorted@[k])@[0] != ordered@[0] by {
                        assert(entries[k] == sorted@[k]@);
                        let c2 = choose|c2: int| 0 <= c2 < c && comps[c2] == entries[k].to_set();
                        assert(entries[k].to_set().contains(entries[k][0]));
                        assert(comps[c2].disjoint(comps[c as int]));
                    }
                }
                let ghost entry = ordered@;
                self.insert_by_first(&mut sorted, ordered);
                proof {
                    let new_entries = seq_views(sorted@);
                    let p = choose|p: int| 0 <= p <= entries.len() && new_entries == entries.insert(p, entry);
                    entries.insert_ensures(p, entry);
                    assert forall|k2: int| 0 <= k2 < new_entries.len() implies {
                        &&& (#[trigger] new_entries[k2]).len() >= 2
                        &&& new_entries[k2].no_duplicates()
                        &&& in_figure_order_by(self.axes@, new_entries[k2])
                        &&& exists|c2: int| 0 <= c2 < c + 1 && comps[c2] == new_entries[k2].to_set()
                    } by {
                        if k2 < p {
                            assert(new_entries[k2] == entries[k2]);
                        } else if k2 > p {
                            assert(new_entries[k2] == entries[k2 - 1]);
                        } else {
                            assert(new_entries[k2] == entry);
                        }
                    }
                    assert forall|c2: int| 0 <= c2 < c + 1 && (#[trigger] comps[c2]).len() >= 2 implies exists|k2: int|
                        0 <= k2 < new_entries.len() && new_entries[k2].to_set() == comps[c2] by {
                        if c2 < c {
                            let k2 = choose|k2: int| 0 <= k2 < entries.len() && entries[k2].to_set() == comps[c2];
                            if k2 < p {
                                assert(new_entries[k2] == entries[k2]);
                            } else {
                                assert(new_entries[k2 + 1] == entries[k2]);
                            }
                        } else {
                            assert(new_entries[p] == entry);
                        }
                    }
                }
            } else {
                proof {
                    assert forall|k2: int| 0 <= k2 < entries.len() implies exists|c2: int| 0 <= c2 < c + 1 && comps[c2] == (#[trigger] entries[k2]).to_set() by {
                        let c2 = choose|c2: int| 0 <= c2 < c && comps[c2] == entries[k2].to_set();
                    }
                }
            }
            c = c + 1;
        }
        sorted
    }

    /// Returns the links of the figure with the given axes linked along a dimension: the
    /// links of the other dimensions unchanged, followed by the normalised, disjoint
    /// groups of this one, each in figure order, ordered by their first axes. Groups
    /// that share a member are merged with each other and with the given axes, and a
    /// group of fewer than two axes is dropped.
    pub fn link_groups(&self, dimension: Dimension, axes: &Vec<NodeId>) -> (r: Vec<AxisLink>)
        ensures
            spec_link_groups(self.axes@, self.links@, dimension, axes@, link_views(r@)),
    {
        let mut groups: Vec<Vec<NodeId>> = Vec::new();
        let mut others: Vec<AxisLink> = Vec::new();
        let mut i: usize = 0;
        while i < self.links.len()
            invariant
                i <= self.links@.len(),
                id_sets(groups@) == groups_along(self.links@.take(i as int), dimension),
                link_views(others@) == links_across(self.links@.take(i as int), dimension),
            decreases self.links.len() - i,
        {
            assert(self.links@.take(i + 1).drop_last() =~= self.links@.take(i as int));
            let link = &self.links[i];
            if link.dimension == dimension {
                let ghost before = groups@;
                groups.push(copy_ids(&link.axes));
                assert(id_sets(groups@) =~= id_sets(before).push(self.links@[i as int].axes@.to_set()));
            } else {
                let ghost before = others@;
                others.push(AxisLink { dimension: link.dimension, axes: copy_ids(&link.axes) });
                assert(link_views(others@) =~= link_views(before).push((link.dimension, link.axes@)));
            }
            i = i + 1;
        }
        assert(self.links@.take(i as int) =~= self.links@);
        let ghost before = groups@;
        groups.push(copy_ids(axes));
        assert(id_sets(groups@) =~= id_sets(before).push(axes@.to_set()));
        let components = connected_components(&groups);
        proof {
            law_components_partition_groups(id_sets(groups@));
        }
        let sorted = self.sorted_components(&components);
        let ghost comps = id_sets(components@);
        let ghost entries = seq_views(sorted@);
        let ghost across = link_views(others@);
        let mut r = others;
        let mut k: usize = 0;
        let mut rest = sorted;
        let total: usize = rest.len();
        while rest.len() > 0
            invariant
                k <= entries.len(),
                entries.len() == total,
                seq_views(rest@) == entries.skip(k as int),
                link_views(r@).len() == across.len() + k,
                link_views(r@).take(across.len() as int) == across,
                forall|m: int| 0 <= m < k ==> #[trigger] link_views(r@)[across.len() + m] == (dimension, entries[m]),
            decreases rest.len(),
        {
            let ghost views = seq_views(rest@);
            let ghost old_rest = rest@;
            assert(views.len() == old_rest.len());
            assert(old_rest.len() > 0);
            assert(entries.skip(k as int).len() == entries.len() - k);
            assert(k < entries.len());
            assert(views[0] == old_rest[0]@);
            assert(entries.skip(k as int)[0] == entries[k as int]);
            let group = rest.remove(0);
            assert(group@ == entries[k as int]);
            assert forall|j: int| 0 <= j < seq_views(rest@).len() implies #[trigger] seq_views(rest@)[j] == entries.skip(k + 1)[j] by {
                assert(rest@[j] == old_rest[j + 1]);
                assert(views[j + 1] == old_rest[j + 1]@);
                assert(entries.skip(k as int)[j + 1] == entries[k + 1 + j]);
            }
            assert(seq_views(rest@) =~= entries.skip(k + 1));
            let ghost before = link_views(r@);
            r.push(AxisLink { dimension, axes: group });
            assert(link_views(r@) =~= before.push((dimension, group@)));
            assert(link_views(r@).take(across.len() as int) =~= before.take(across.len() as int));
            k = k + 1;
        }
        proof {
            let views = link_views(r@);
            let n = across.len() as int;
            assert(k == entries.len());
            assert forall|k2: int| n <= k2 < views.len() implies (#[trigger] views[k2]) == (dimension, entries[k2 - n]) by {
                assert(views[n + (k2 - n)] == (dimension, entries[k2 - n]));
            }
            assert forall|k2: int| n <= k2 < views.len() implies {
                &&& (#[trigger] views[k2]).0 == dimension
                &&& views[k2].1.len() >= 2
                &&& views[k2].1.no_duplicates()
                &&& in_figure_order_by(self.axes@, views[k2].1)
                &&& exists|c: int| 0 <= c < comps.len() && comps[c] == views[k2].1.to_set()
            } by {
                assert(views[k2] == (dimension, entries[k2 - n]));
            }
            assert forall|c: int| 0 <= c < comps.len() && (#[trigger] comps[c]).len() >= 2 implies exists|k2: int|
                n <= k2 < views.len() && views[k2].1.to_set() == comps[c] by {
                let e = choose|e: int| 0 <= e < entries.len() && entries[e].to_set() == comps[c];
                assert(views[n + e] == (dimension, entries[e]));
            }
            assert forall|a: int, b: int| n <= a < b < views.len() implies key_before(
                spec_order_key(self.axes@, (#[trigger] views[a]).1[0]),
                spec_order_key(self.axes@, (#[trigger] views[b]).1[0]),
            ) by {
                assert(views[a] == (dimension, entries[a - n]));
                assert(views[b] == (dimension, entries[b - n]));
            }
        }
        r
    }
}

proof fn lemma_sweep_finite(components: Seq<Set<NodeId>>, group: Set<NodeId>)
    requires
        forall|i: int| 0 <= i < components.len() ==> (#[trigger] components[i]).finite(),
        group.finite(),
    ensures
        sweep(components, group).1.finite(),
    decreases components.len(),
{
    if components.len() > 0 {
        let rest = components.drop_last();
        assert forall|i: int| 0 <= i < rest.len() implies (#[trigger] rest[i]).finite() by {
            assert(rest[i] == components[i]);
        }
        lemma_sweep_finite(rest, group);
        let m0 = sweep(rest, group).1;
        assert(components.last().finite());
        vstd::set::axiom_set_union_finite(m0, components.last());
    }
}

/// The components of finite groups are finite.
proof fn lemma_components_finite(groups: Seq<Set<NodeId>>)
    requires
        forall|i: int| 0 <= i < groups.len() ==> (#[trigger] groups[i]).finite(),
    ensures
        forall|c: int| 0 <= c < spec_components(groups).len() ==> (#[trigger] spec_components(groups)[c]).finite(),
    decreases groups.len(),
{
    if groups.len() > 0 {
        let rest = groups.drop_last();
        assert forall|i: int| 0 <= i < rest.len() implies (#[trigger] rest[i]).finite() by {
            assert(rest[i] == groups[i]);
        }
        lemma_components_finite(rest);
        let previous = spec_components(rest);
        law_components_partition_groups(rest);
        lemma_sweep(previous, groups.last());
        lemma_sweep_finite(previous, groups.last());
        let (kept, merged) = sweep(previous, groups.last());
        let result = spec_components(groups);
        assert forall|c: int| 0 <= c < result.len() implies (#[trigger] result[c]).finite() by {
            if c < kept.len() {
                let j = choose|j: int| 0 <= j < previous.len() && previous[j] == kept[c];
                assert(result[c] == kept[c]);
            } else {
                assert(result[c] == merged);
            }
        }
    }
}

proof fn lemma_groups_finite(links: Seq<AxisLink>, dimension: Dimension)
    ensures
        forall|i: int| 0 <= i < groups_along(links, dimension).len() ==> (#[trigger] groups_along(links, dimension)[i]).finite(),
    decreases links.len(),
{
    if links.len() > 0 {
        lemma_groups_finite(links.drop_last(), dimension);
        vstd::seq_lib::seq_to_set_is_finite(links.last().axes@);
        let earlier = groups_along(links.drop_last(), dimension);
        assert forall|i: int| 0 <= i < groups_along(links, dimension).len() implies (#[trigger] groups_along(links, dimension)[i]).finite() by {
            if i < earlier.len() {
                assert(groups_along(links, dimension)[i] == earlier[i]);
            }
        }
    }
}

/// The first member of a list in figure order sorts no later than any member.
proof fn lemma_first_is_least(order: Seq<NodeId>, ids: Seq<NodeId>, x: NodeId)
    requires
        in_figure_order_by(order, ids),
        ids.len() > 0,
        ids.contains(x),
    ensures
        spec_order_key(order, ids[0]) == spec_order_key(order, x) || key_before(spec_order_key(order, ids[0]), spec_order_key(order, x)),
{
    let j = choose|j: int| 0 <= j < ids.len() && ids[j] == x;
    if j > 0 {
        assert(key_before(spec_order_key(order, ids[0]), spec_order_key(order, ids[j])));
    }
}

/// Linking keeps the groups of a dimension disjoint: no two groups that linking leaves
/// along the dimension share an axes, and the axes that were linked, when there are at
/// least two of them, lie together in one group.
#[verifier::spinoff_prover]
#[verifier::rlimit(40)]
pub proof fn law_link_groups_disjoint(order: Seq<NodeId>, links: Seq<AxisLink>, dimension: Dimension, axes: Seq<NodeId>, r: Seq<(Dimension, Seq<NodeId>)>)
    requires
        spec_link_groups(order, links, dimension, axes, r),
    ensures
        forall|k: int, l: int| links_across(links, dimension).len() <= k < l < r.len() ==> (#[trigger] r[k]).1.to_set().disjoint((#[trigger] r[l]).1.to_set()),
        axes.to_set().len() >= 2 ==> exists|k: int| links_across(links, dimension).len() <= k < r.len() && axes.to_set().subset_of(r[k].1.to_set()),
{
    let n = links_across(links, dimension).len() as int;
    let groups = groups_along(links, dimension).push(axes.to_set());
    let comps = spec_components(groups);
    law_components_partition_groups(groups);
    assert forall|k: int, l: int| n <= k < l < r.len() implies (#[trigger] r[k]).1.to_set().disjoint((#[trigger] r[l]).1.to_set()) by {
        let ck = choose|c: int| 0 <= c < comps.len() && comps[c] == r[k].1.to_set();
        let cl = choose|c: int| 0 <= c < comps.len() && comps[c] == r[l].1.to_set();
        if ck == cl {
            let a = r[k].1;
            let b = r[l].1;
            assert(a.to_set().contains(a[0]));
            assert(b.to_set().contains(b[0]));
            assert(b.contains(a[0]));
            assert(a.contains(b[0]));
            lemma_first_is_least(order, a, b[0]);
            lemma_first_is_least(order, b, a[0]);
            assert(key_before(spec_order_key(order, a[0]), spec_order_key(order, b[0])));
        } else {
            assert(comps[ck].disjoint(comps[cl]));
        }
    }
    if axes.to_set().len() >= 2 {
        lemma_groups_finite(links, dimension);
        vstd::seq_lib::seq_to_set_is_finite(axes);
        assert forall|i: int| 0 <= i < groups.len() implies (#[trigger] groups[i]).finite() by {
            if i < groups.len() - 1 {
                assert(groups[i] == groups_along(links, dimension)[i]);
            }
        }
        lemma_components_finite(groups);
        assert(groups[groups.len() - 1] == axes.to_set());
        let c = choose|c: int| 0 <= c < comps.len() && groups[groups.len() - 1].subset_of(comps[c]);
        vstd::set_lib::lemma_len_subset(axes.to_set(), comps[c]);
        let k = choose|k: int| n <= k < r.len() && r[k].1.to_set() == comps[c];
        assert(axes.to_set().subset_of(r[k].1.to_set()));
    }
}


/// The given identifier does not refer to an axes of the figure.
#[derive(Debug, Clone, Copy, PartialEq, Eq, Structural)]
pub struct UnknownAxes(pub NodeId);

/// What linking the limits of axes does to a figure: the links it leaves, and the axes
/// of the resulting group, whose limits take those of the first axes given.
#[derive(Debug)]
pub struct LinkPlan {
    /// The links of the figure after linking.
    pub links: Vec<AxisLink>,
    /// The axes whose limits are set, in figure order.
    pub group: Vec<NodeId>,
}

/// The identifiers of a list, each once, in the order of their first occurrence.
pub open spec fn distinct_ids(s: Seq<NodeId>) -> Seq<NodeId>
    decreases s.len(),
{
    if s.len() == 0 {
        seq![]
    } else {
        let earlier = distinct_ids(s.drop_last());
        if earlier.contains(s.last()) {
            earlier
        } else {
            earlier.push(s.last())
        }
    }
}

/// Any identifier that is not an axes of the figure.
pub open spec fn not_an_axes(order: Seq<NodeId>) -> spec_fn(NodeId) -> bool {
    |id: NodeId| !order.contains(id)
}

/// A link along a dimension that holds an axes.
pub open spec fn holds_along(dimension: Dimension, axes: NodeId) -> spec_fn((Dimension, Seq<NodeId>)) -> bool {
    |l: (Dimension, Seq<NodeId>)| l.0 == dimension && l.1.contains(axes)
}

/// The axes of the first link along a dimension that holds an axes, or none.
pub open spec fn group_of(links: Seq<(Dimension, Seq<NodeId>)>, dimension: Dimension, axes: NodeId) -> Seq<NodeId> {
    let i = find_first(links, holds_along(dimension, axes));
    if i >= 0 {
        links[i].1
    } else {
        seq![]
    }
}

/// Returns the identifiers of a list, each once, in the order of their first occurrence.
fn distinct(v: &Vec<NodeId>) -> (r: Vec<NodeId>)
    ensures
        r@ == distinct_ids(v@),
{
    let mut r: Vec<NodeId> = Vec::new();
    let mut i: usize = 0;
    while i < v.len()
        invariant
            i <= v@.len(),
            r@ == distinct_ids(v@.take(i as int)),
        decreases v.len() - i,
    {
        assert(v@.take(i + 1).drop_last() =~= v@.take(i as int));
        assert(v@.take(i + 1).last() == v@[i as int]);
        if !contains_id(&r, v[i]) {
            r.push(v[i]);
        }
        i = i + 1;
    }
    assert(v@.take(i as int) =~= v@);
    r
}

/// The identifiers of a list, each once, hold every identifier of the list and no
/// other, none twice, the first one first.
proof fn lemma_distinct_ids(s: Seq<NodeId>)
    ensures
        distinct_ids(s).no_duplicates(),
        forall|x: NodeId| distinct_ids(s).contains(x) <==> s.contains(x),
        s.len() > 0 ==> distinct_ids(s).len() > 0 && distinct_ids(s)[0] == s[0],
    decreases s.len(),
{
    if s.len() > 0 {
        let rest = s.drop_last();
        let last = s.last();
        lemma_distinct_ids(rest);
        let earlier = distinct_ids(rest);
        assert forall|x: NodeId| s.contains(x) <==> (rest.contains(x) || x == last) by {
            if s.contains(x) && x != last {
                let j = choose|j: int| 0 <= j < s.len() && s[j] == x;
                assert(rest[j] == x);
            }
            if rest.contains(x) {
                let j = choose|j: int| 0 <= j < rest.len() && rest[j] == x;
                assert(s[j] == x);
            }
            if x == last {
                assert(s[s.len() - 1] == x);
            }
        }
        if !earlier.contains(last) {
            assert forall|x: NodeId| earlier.push(last).contains(x) <==> (earlier.contains(x) || x == last) by {
                if earlier.push(last).contains(x) && x != last {
                    let j = choose|j: int| 0 <= j < earlier.push(last).len() && earlier.push(last)[j] == x;
                    assert(earlier[j] == x);
                }
                if earlier.contains(x) {
                    let j = choose|j: int| 0 <= j < earlier.len() && earlier[j] == x;
                    assert(earlier.push(last)[j] == x);
                }
                if x == last {
                    assert(earlier.push(last)[earlier.len() as int] == x);
                }
            }
        }
        if rest.len() == 0 {
            assert(earlier =~= Seq::<NodeId>::empty());
        } else {
            assert(rest[0] == s[0]);
        }
    }
}

/// Returns whether two lists of links are equal.
fn same_links(a: &Vec<AxisLink>, b: &Vec<AxisLink>) -> (r: bool)
    ensures
        r == (link_views(a@) == link_views(b@)),
{
    if a.len() != b.len() {
        assert(link_views(a@).len() != link_views(b@).len());
        return false;
    }
    let mut i: usize = 0;
    while i < a.len()
        invariant
            i <= a@.len(),
            a@.len() == b@.len(),
            forall|k: int| 0 <= k < i ==> link_views(a@)[k] == link_views(b@)[k],
        decreases a.len() - i,
    {
        let x = &a[i];
        let y = &b[i];
        let mut same = x.dimension == y.dimension && x.axes.len() == y.axes.len();
        let mut k: usize = 0;
        while same && k < x.axes.len()
            invariant
                i < a@.len(),
                a@.len() == b@.len(),
                x.dimension == y.dimension || !same,
                same ==> x.axes@.len() == y.axes@.len() && k <= x.axes@.len(),
                same ==> forall|j: int| 0 <= j < k ==> x.axes@[j] == y.axes@[j],
                !same ==> link_views(a@)[i as int] != link_views(b@)[i as int],
                *x == a@[i as int],
                *y == b@[i as int],
            decreases x.axes.len() - k, if same { 1int } else { 0int },
        {
            if x.axes[k] != y.axes[k] {
                assert(x.axes@[k as int] != y.axes@[k as int]);
                same = false;
            } else {
                k = k + 1;
            }
        }
        if !same {
            return false;
        }
        assert(x.axes@ =~= y.axes@);
        i = i + 1;
    }
    assert(link_views(a@) =~= link_views(b@));
    true
}

impl FigureLinks {
    /// Returns the axes whose limits a set of the limits of an axes along a dimension
    /// sets: the axes and every axes linked with it along that dimension, in the order
    /// the axes appear in the figure. Every axes of the group is set, including one
    /// that cannot show the limits, so that applying the transaction fails rather than
    /// leave the group half-synchronised.
    ///
    /// # Errors
    ///
    /// Returns [`UnknownAxes`] when the identifier does not refer to an axes of the
    /// figure.
    pub fn set_limits(&self, axes: NodeId, dimension: Dimension) -> (r: Result<Vec<NodeId>, UnknownAxes>)
        ensures
            r is Err <==> !self.axes@.contains(axes),
            r matches Err(e) ==> e.0 == axes,
            r matches Ok(v) ==> v@ == spec_linked_axes(self.axes@, self.links@, axes, dimension),
    {
        if !contains_id(&self.axes, axes) {
            return Err(UnknownAxes(axes));
        }
        Ok(self.linked_axes(axes, dimension))
    }

    /// Returns what linking the limits of the given axes along a dimension does: the
    /// links the figure is left with, merged as [`FigureLinks::link_groups`] describes,
    /// and the resulting group of the first given axes, whose limits every axes of the
    /// group takes. Fewer than two distinct axes link nothing and give `None`.
    ///
    /// # Errors
    ///
    /// Returns [`UnknownAxes`] with the first identifier that does not refer to an axes
    /// of the figure.
    pub fn link(&self, dimension: Dimension, axes: &Vec<NodeId>) -> (r: Result<Option<LinkPlan>, UnknownAxes>)
        ensures
            r is Err <==> find_first(axes@, not_an_axes(self.axes@)) >= 0,
            r matches Err(e) ==> e.0 == axes@[find_first(axes@, not_an_axes(self.axes@))],
            r matches Ok(p) ==> (p is None <==> distinct_ids(axes@).len() < 2),
            r matches Ok(Some(plan)) ==> spec_link_groups(self.axes@, self.links@, dimension, distinct_ids(axes@), link_views(plan.links@))
                && plan.group@ == group_of(link_views(plan.links@), dimension, axes@[0]),
    {
        let mut i: usize = 0;
        while i < axes.len()
            invariant
                i <= axes@.len(),
                forall|k: int| 0 <= k < i ==> !not_an_axes(self.axes@)(#[trigger] axes@[k]),
            decreases axes.len() - i,
        {
            if !contains_id(&self.axes, axes[i]) {
                proof {
                    crate::edit::tree::lemma_find_first_at(axes@, not_an_axes(self.axes@), i as int);
                }
                return Err(UnknownAxes(axes[i]));
            }
            i = i + 1;
        }
        proof {
            lemma_find_first(axes@, not_an_axes(self.axes@));
            lemma_distinct_ids(axes@);
        }
        let given = distinct(axes);
        if given.len() < 2 {
            return Ok(None);
        }
        let reference = given[0];
        assert(reference == axes@[0]);
        let links = self.link_groups(dimension, &given);
        let ghost views = link_views(links@);
        let mut group: Vec<NodeId> = Vec::new();
        let mut k: usize = 0;
        while k < links.len()
            invariant
                k <= links@.len(),
                find_first(axes@, not_an_axes(self.axes@)) == -1,
                distinct_ids(axes@).len() >= 2,
                reference == axes@[0],
                spec_link_groups(self.axes@, self.links@, dimension, distinct_ids(axes@), link_views(links@)),
                views == link_views(links@),
                forall|j: int| 0 <= j < k ==> !holds_along(dimension, reference)(#[trigger] views[j]),
                group@ == Seq::<NodeId>::empty(),
            decreases links.len() - k,
        {
            if links[k].dimension == dimension && contains_id(&links[k].axes, reference) {
                assert(holds_along(dimension, reference)(views[k as int]));
                proof {
                    crate::edit::tree::lemma_find_first_at(views, holds_along(dimension, reference), k as int);
                }
                let found = copy_ids(&links[k].axes);
                return Ok(Some(LinkPlan { links, group: found }));
            }
            k = k + 1;
        }
        proof {
            lemma_find_first(views, holds_along(dimension, reference));
        }
        Ok(Some(LinkPlan { links, group }))
    }

    /// Returns the links that removing an axes leaves, so that no link is left
    /// dangling: each group without the axes, a group left with fewer than two members
    /// dropped; `None` when the axes is in no link group and the links stay as they are.
    ///
    /// # Errors
    ///
    /// Returns [`UnknownAxes`] when the identifier does not refer to an axes of the
    /// figure.
    pub fn remove_axes(&self, axes: NodeId) -> (r: Result<Option<Vec<AxisLink>>, UnknownAxes>)
        ensures
            r is Err <==> !self.axes@.contains(axes),
            r matches Err(e) ==> e.0 == axes,
            r matches Ok(o) ==> (o is Some <==> spec_links_without(self.links@, axes) != link_views(self.links@)),
            r matches Ok(Some(links)) ==> link_views(links@) == spec_links_without(self.links@, axes),
    {
        if !contains_id(&self.axes, axes) {
            return Err(UnknownAxes(axes));
        }
        let links = self.links_without(axes);
        if same_links(&links, &self.links) {
            Ok(None)
        } else {
            Ok(Some(links))
        }
    }
}

/// The links of the other dimensions lie along those dimensions.
proof fn lemma_links_across(links: Seq<AxisLink>, dimension: Dimension)
    ensures
        forall|j: int| 0 <= j < links_across(links, dimension).len() ==> (#[trigger] links_across(links, dimension)[j]).0 != dimension,
    decreases links.len(),
{
    if links.len() > 0 {
        lemma_links_across(links.drop_last(), dimension);
    }
}

/// Linking at least two distinct axes leaves them all in the group whose limits take
/// those of the first given axes.
pub proof fn law_link_group_holds_given_axes(
    order: Seq<NodeId>,
    links: Seq<AxisLink>,
    dimension: Dimension,
    axes: Seq<NodeId>,
    r: Seq<(Dimension, Seq<NodeId>)>,
)
    requires
        distinct_ids(axes).len() >= 2,
        spec_link_groups(order, links, dimension, distinct_ids(axes), r),
    ensures
        forall|i: int| 0 <= i < axes.len() ==> group_of(r, dimension, axes[0]).contains(#[trigger] axes[i]),
{
    let given = distinct_ids(axes);
    lemma_distinct_ids(axes);
    given.unique_seq_to_set();
    law_link_groups_disjoint(order, links, dimension, given, r);
    let n = links_across(links, dimension).len() as int;
    let k = choose|k: int| n <= k < r.len() && given.to_set().subset_of(r[k].1.to_set());
    let reference = axes[0];
    assert(given.to_set().contains(reference)) by {
        assert(given[0] == reference);
    }
    assert(r[k].1.contains(reference));
    assert(r[k].0 == dimension);
    lemma_find_first(r, holds_along(dimension, reference));
    let f = find_first(r, holds_along(dimension, reference));
    assert(holds_along(dimension, reference)(r[k]));
    assert(f >= 0 && f <= k);
    lemma_links_across(links, dimension);
    if f < n {
        assert(r.take(n) == links_across(links, dimension));
        assert(r[f] == links_across(links, dimension)[f]);
    }
    if n <= f && f < k {
        assert(r[f].1.contains(reference));
        assert(r[f].1.to_set().disjoint(r[k].1.to_set()));
        assert(r[f].1.to_set().contains(reference));
    }
    assert(f == k);
    assert forall|i: int| 0 <= i < axes.len() implies group_of(r, dimension, axes[0]).contains(#[trigger] axes[i]) by {
        assert(axes.contains(axes[i]));
        assert(given.contains(axes[i]));
        assert(given.to_set().contains(axes[i]));
    }
}


/// Returns the path `links` of the figure's links.
fn links_path() -> (p: PropertyPath)
    ensures
        p@ == seq!["links"@],
{
    let name = crate::text::owned("links");
    proof {
        reveal_strlit("links");
        assert(name@ == seq!['l', 'i', 'n', 'k', 's']);
        assert(!name@.contains('.')) by {
            assert forall|i: int| 0 <= i < name@.len() implies name@[i] != '.' by {}
        }
    }
    let segments = vec![name];
    assert(crate::edit::path::string_seqs(segments@) =~= seq!["links"@]);
    assert(valid_segments(seq!["links"@]));
    let p = PropertyPath::new(segments);
    p.unwrap()
}

/// Returns the edit that sets the links of a figure, which starts the transaction that
/// links the limits of axes and the one that removes an axes from its link groups.
pub fn links_edit(figure: NodeId, links: Vec<AxisLink>) -> (r: PlainEdit)
    ensures
        r matches PlainEdit::SetProperty { node, path, value } && node == figure && path@ == seq!["links"@]
            && value == PlainValue::Links(links),
{
    PlainEdit::SetProperty { node: figure, path: links_path(), value: PlainValue::Links(links) }
}


impl FigureLinks {
    /// Returns the transaction that removes an axes and every reference to it from the
    /// link groups, so that no link is left dangling: a set of the figure's `links`
    /// without the axes, in which a group left with fewer than two members is dropped,
    /// followed by the removal of the axes; only the removal when the axes is in no
    /// link group.
    ///
    /// # Errors
    ///
    /// Returns [`UnknownAxes`] when the identifier does not refer to an axes of the
    /// figure.
    pub fn remove_axes_transaction(&self, figure: NodeId, axes: NodeId) -> (r: Result<Vec<PlainEdit>, UnknownAxes>)
        ensures
            r is Err <==> !self.axes@.contains(axes),
            r matches Err(e) ==> e.0 == axes,
            r matches Ok(edits) ==> if spec_links_without(self.links@, axes) != link_views(self.links@) {
                &&& edits@.len() == 2
                &&& edits@[0] matches PlainEdit::SetProperty { node, path, value } && node == figure && path@ == seq![
                    "links"@,
                ] && (value matches PlainValue::Links(ls) && link_views(ls@) == spec_links_without(self.links@, axes))
                &&& edits@[1] == PlainEdit::Remove { node: axes }
            } else {
                edits@ == seq![PlainEdit::Remove { node: axes }]
            },
    {
        match self.remove_axes(axes) {
            Err(e) => Err(e),
            Ok(Some(links)) => {
                let set = links_edit(figure, links);
                Ok(vec![set, PlainEdit::Remove { node: axes }])
            },
            Ok(None) => Ok(vec![PlainEdit::Remove { node: axes }]),
        }
    }
}

} // verus!
