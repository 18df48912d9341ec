//! Selections of nodes and of data points.
//!
//! A [`Selection`] names a node and, optionally, flat indices into the primary array of
//! an artist: the x data of a line, scatter or quiver, and the z data of a contour or
//! surface, whose flat index of row `j` and column `i` is `j * nx + i`.

use vstd::prelude::*;

use crate::artist::Grid;
use crate::check::{present, present_ids, ArtistData};
use crate::data::{append_fits, checked_product, discarded_values, kept_entries, shapes_agree, spec_appended_shape};
use crate::edit::effect::EditEffect;
use crate::edit::tree::{spec_apply, spec_subtree, AxesView, NodeTree, TreeChange};
use crate::ids::{DataId, NodeId};
use crate::link::contains_id;

verus! {

/// A selected node, with optional selected points of its primary data array.
#[derive(Debug, Clone, PartialEq, Eq)]
pub struct Selection {
    /// The selected node.
    pub node: NodeId,
    /// The flat indices of the selected entries of the node's primary array, each once
    /// and in ascending order, or `None` when the node is selected as a whole.
    pub indices: Option<Vec<usize>>,
}

/// Whether a sequence of indices ascends strictly, so that it lists each index once.
pub open spec fn ascending(v: Seq<usize>) -> bool {
    forall|i: int, j: int| 0 <= i < j < v.len() ==> v[i] < v[j]
}

/// Inserts an index into an ascending list unless the list holds it already.
fn insert_index(v: &mut Vec<usize>, x: usize)
    requires
        ascending(old(v)@),
    ensures
        ascending(final(v)@),
        final(v)@.to_set() == old(v)@.to_set().insert(x),
{
    let ghost start = v@;
    let mut i: usize = 0;
    while i < v.len() && v[i] < x
        invariant
            i <= v@.len(),
            v@ == start,
            forall|k: int| 0 <= k < i ==> v@[k] < x,
        decreases v.len() - i,
    {
        i = i + 1;
    }
    if i < v.len() && v[i] == x {
        assert(v@.to_set() =~= start.to_set().insert(x)) by {
            assert(start.to_set().contains(x)) by {
                assert(start[i as int] == x);
            }
        }
        return;
    }
    v.insert(i, x);
    proof {
        start.insert_ensures(i as int, x);
        assert forall|a: int, b: int| 0 <= a < b < v@.len() implies v@[a] < v@[b] by {
            if b < i {
            } else if a < i && b == i {
            } else if a < i {
                assert(v@[b] == start[b - 1]);
            } else if a == i {
                assert(v@[b] == start[b - 1]);
                assert(start[b - 1] >= x);
                assert(start[b - 1] != x || b - 1 == i) by {
                    if b - 1 > i {
                        assert(start[i as int] < start[b - 1]);
                    }
                }
            } else {
                assert(v@[a] == start[a - 1] && v@[b] == start[b - 1]);
            }
        }
        assert forall|y: usize| v@.to_set().contains(y) <==> start.to_set().insert(x).contains(y) by {
            if v@.contains(y) {
                let k = choose|k: int| 0 <= k < v@.len() && v@[k] == y;
                if k < i {
                    assert(start[k] == y);
                } else if k > i {
                    assert(start[k - 1] == y);
                }
            }
            if start.contains(y) {
                let k = choose|k: int| 0 <= k < start.len() && start[k] == y;
                if k < i {
                    assert(v@[k] == y);
                } else {
                    assert(v@[k + 1] == y);
                }
            }
            if y == x {
                assert(v@[i as int] == x);
            }
        }
        assert(v@.to_set() =~= start.to_set().insert(x));
    }
}

impl Selection {
    /// Selects a node as a whole.
    pub fn node(node: NodeId) -> (r: Self)
        ensures
            r.node == node,
            r.indices is None,
    {
        Selection { node, indices: None }
    }

    /// Selects entries of the primary array of an artist by their flat indices; an
    /// index given more than once is selected once.
    pub fn points(node: NodeId, indices: Vec<usize>) -> (r: Self)
        ensures
            r.node == node,
            r.indices matches Some(v) && ascending(v@) && v@.to_set() == indices@.to_set(),
    {
        let mut set: Vec<usize> = Vec::new();
        let mut i: usize = 0;
        while i < indices.len()
            invariant
                i <= indices@.len(),
                ascending(set@),
                set@.to_set() == indices@.take(i as int).to_set(),
            decreases indices.len() - i,
        {
            insert_index(&mut set, indices[i]);
            assert(indices@.take(i + 1) =~= indices@.take(i as int).push(indices@[i as int]));
            assert(indices@.take(i + 1).to_set() =~= indices@.take(i as int).to_set().insert(indices@[i as int])) by {
                broadcast use vstd::seq_lib::group_seq_properties;
            }
            i = i + 1;
        }
        assert(indices@.take(i as int) =~= indices@);
        Selection { node, indices: Some(set) }
    }
}

/// The coordinate arrays of a grid, x first.
pub open spec fn spec_grid_data(grid: Grid) -> (DataId, DataId) {
    match grid {
        Grid::Rectilinear { x, y } => (x, y),
        Grid::Curvilinear { x, y } => (x, y),
    }
}

/// Returns the coordinate arrays of a grid, x first.
pub fn grid_data(grid: Grid) -> (r: (DataId, DataId))
    ensures
        r == spec_grid_data(grid),
{
    match grid {
        Grid::Rectilinear { x, y } => (x, y),
        Grid::Curvilinear { x, y } => (x, y),
    }
}

/// The data arrays of an artist: the primary array, whose entries the indices of a
/// selection number, and every array the artist refers to.
#[derive(Debug, Clone, PartialEq, Eq)]
pub struct ArtistArrays {
    /// The primary array.
    pub primary: DataId,
    /// Every array the artist refers to.
    pub all: Vec<DataId>,
}

/// The primary array of an artist and every array it refers to: the x data of a line,
/// scatter or quiver, the field of a contour or surface, and the array of an image.
pub open spec fn spec_arrays(artist: ArtistData) -> (DataId, Seq<DataId>) {
    match artist {
        ArtistData::Line { x, y, z } => (x, present(seq![Some(x), Some(y), z])),
        ArtistData::Scatter { x, y, z, size, color } => (x, present(seq![Some(x), Some(y), z, size, color])),
        ArtistData::Quiver { x, y, z, u, v, w } => (x, present(seq![Some(x), Some(y), Some(u), Some(v), z, w])),
        ArtistData::Contour { grid, z, .. } => (z, seq![spec_grid_data(grid).0, spec_grid_data(grid).1, z]),
        ArtistData::Surface { grid, z, c } => (
            z,
            present(seq![Some(spec_grid_data(grid).0), Some(spec_grid_data(grid).1), Some(z), c]),
        ),
        ArtistData::Image { pixels, .. } => (pixels, seq![pixels]),
        ArtistData::IndexedImage { indices, .. } => (indices, seq![indices]),
        ArtistData::MappedImage { values, .. } => (values, seq![values]),
    }
}

impl ArtistArrays {
    /// Returns the primary array of an artist and every array it refers to.
    pub fn of(artist: &ArtistData) -> (r: Self)
        ensures
            (r.primary, r.all@) == spec_arrays(*artist),
    {
        match *artist {
            ArtistData::Line { x, y, z } => ArtistArrays { primary: x, all: present_ids(&vec![Some(x), Some(y), z]) },
            ArtistData::Scatter { x, y, z, size, color } => ArtistArrays {
                primary: x,
                all: present_ids(&vec![Some(x), Some(y), z, size, color]),
            },
            ArtistData::Quiver { x, y, z, u, v, w } => ArtistArrays {
                primary: x,
                all: present_ids(&vec![Some(x), Some(y), Some(u), Some(v), z, w]),
            },
            ArtistData::Contour { grid, z, .. } => {
                let (gx, gy) = grid_data(grid);
                ArtistArrays { primary: z, all: vec![gx, gy, z] }
            },
            ArtistData::Surface { grid, z, c } => {
                let (gx, gy) = grid_data(grid);
                ArtistArrays { primary: z, all: present_ids(&vec![Some(gx), Some(gy), Some(z), c]) }
            },
            ArtistData::Image { pixels, .. } => ArtistArrays { primary: pixels, all: vec![pixels] },
            ArtistData::IndexedImage { indices, .. } => ArtistArrays { primary: indices, all: vec![indices] },
            ArtistData::MappedImage { values, .. } => ArtistArrays { primary: values, all: vec![values] },
        }
    }
}

/// What a selection follows through a transaction: the tree of nodes, the selected
/// indices, and the length of the primary array along its first dimension with the
/// number of values in one entry of it.
pub type Following = (Seq<AxesView>, Option<Seq<usize>>, Option<(nat, nat)>);

/// The selected indices of an optional list.
pub open spec fn indices_view(v: Option<Vec<usize>>) -> Option<Seq<usize>> {
    match v {
        Some(v) => Some(v@),
        None => None,
    }
}

/// The indices that remain when `d` values are discarded from the front of an array:
/// each index shifted down by `d`, those that would become negative dropped.
pub open spec fn shifted(v: Seq<usize>, d: nat) -> Seq<usize>
    decreases v.len(),
{
    if v.len() == 0 {
        seq![]
    } else {
        let rest = shifted(v.drop_last(), d);
        if v.last() >= d {
            rest.push((v.last() - d) as usize)
        } else {
            rest
        }
    }
}

/// The number of entries along the first dimension of a shape, or zero.
pub open spec fn first_or_zero(shape: Seq<usize>) -> nat {
    if shape.len() > 0 {
        shape[0] as nat
    } else {
        0
    }
}

/// The length along the first dimension and the number of values in one entry of the
/// primary array, when it exists and has a dimension.
pub open spec fn initial_window(primary_shape: Option<Seq<usize>>) -> Option<(nat, nat)> {
    match primary_shape {
        Some(shape) => if shape.len() > 0 && checked_product(shape.drop_first()) is Some {
            Some((shape[0] as nat, checked_product(shape.drop_first())->Some_0))
        } else {
            None
        },
        None => None,
    }
}

/// Whether the number of values in one entry of the primary array fits in a `usize`.
pub open spec fn window_fits(primary_shape: Option<Seq<usize>>) -> bool {
    match primary_shape {
        Some(shape) => shape.len() > 0 ==> checked_product(shape.drop_first()) is Some,
        None => true,
    }
}

/// A selection followed through one edit, or `None` when the edit clears it: removing
/// the selected node or its ancestor clears it; replacing an array of the artist drops
/// the indices; appending to the primary array with a `retain` that discards entries
/// shifts the indices down by the values discarded; structural edits change the tree;
/// every other edit changes nothing.
pub open spec fn follow_step(node: NodeId, arrays: Option<(DataId, Seq<DataId>)>, s: Following, edit: EditEffect) -> Option<Following> {
    match edit {
        EditEffect::Tree(change) => match change {
            TreeChange::Remove { node: removed } => if spec_subtree(s.0, removed).contains(node) {
                None
            } else {
                Some((spec_apply(s.0, change), s.1, s.2))
            },
            _ => Some((spec_apply(s.0, change), s.1, s.2)),
        },
        EditEffect::PutData { id } => if arrays matches Some((_, all)) && all.contains(id) {
            Some((s.0, None, s.2))
        } else {
            Some(s)
        },
        EditEffect::AppendData { id, shape, retain } => if arrays matches Some((primary, _)) && primary == id && s.2 is Some {
            let (entries, values) = s.2->Some_0;
            let total = entries + first_or_zero(shape@);
            let kept = kept_entries(total, retain);
            if kept < total {
                let discarded = ((total - kept) * values) as nat;
                let indices = match s.1 {
                    Some(v) => Some(shifted(v, discarded)),
                    None => None,
                };
                Some((s.0, indices, Some((kept, values))))
            } else {
                Some((s.0, s.1, Some((total, values))))
            }
        } else {
            Some(s)
        },
        EditEffect::SetProperty { .. } | EditEffect::RemoveData { .. } => Some(s),
    }
}

/// Whether following one edit computes only numbers that fit in a `usize`.
pub open spec fn step_fits(arrays: Option<(DataId, Seq<DataId>)>, s: Following, edit: EditEffect) -> bool {
    match edit {
        EditEffect::AppendData { id, shape, retain } => arrays matches Some((primary, _)) && primary == id && s.2 is Some ==> {
            let (entries, values) = s.2->Some_0;
            let total = entries + first_or_zero(shape@);
            &&& total <= usize::MAX
            &&& kept_entries(total, retain) < total ==> (total - kept_entries(total, retain)) * values <= usize::MAX
        },
        _ => true,
    }
}

/// A selection followed through the edits of a transaction in order, or `None` when
/// one of them clears it.
pub open spec fn follow(node: NodeId, arrays: Option<(DataId, Seq<DataId>)>, s: Following, edits: Seq<EditEffect>) -> Option<Following>
    decreases edits.len(),
{
    if edits.len() == 0 {
        Some(s)
    } else {
        match follow_step(node, arrays, s, edits[0]) {
            None => None,
            Some(t) => follow(node, arrays, t, edits.drop_first()),
        }
    }
}

/// Whether following the edits of a transaction computes only numbers that fit in a
/// `usize`.
pub open spec fn follow_fits(node: NodeId, arrays: Option<(DataId, Seq<DataId>)>, s: Following, edits: Seq<EditEffect>) -> bool
    decreases edits.len(),
{
    edits.len() == 0 || (step_fits(arrays, s, edits[0]) && match follow_step(node, arrays, s, edits[0]) {
        None => true,
        Some(t) => follow_fits(node, arrays, t, edits.drop_first()),
    })
}

/// The primary array and the arrays of an optional artist.
pub open spec fn arrays_view(arrays: Option<ArtistArrays>) -> Option<(DataId, Seq<DataId>)> {
    match arrays {
        Some(a) => Some((a.primary, a.all@)),
        None => None,
    }
}

/// The dimensions of an optional shape.
pub open spec fn shape_view(shape: Option<Vec<usize>>) -> Option<Seq<usize>> {
    match shape {
        Some(s) => Some(s@),
        None => None,
    }
}

/// The numbers of an optional window.
pub open spec fn window_view(w: Option<(usize, usize)>) -> Option<(nat, nat)> {
    match w {
        Some((e, v)) => Some((e as nat, v as nat)),
        None => None,
    }
}

/// Returns whether a list holds a data identifier.
fn contains_data(v: &Vec<DataId>, id: DataId) -> (r: bool)
    ensures
        r == v@.contains(id),
{
    let mut i: usize = 0;
    while i < v.len()
        invariant
            i <= v@.len(),
            forall|k: int| 0 <= k < i ==> v@[k] != id,
        decreases v.len() - i,
    {
        if v[i] == id {
            return true;
        }
        i = i + 1;
    }
    false
}

/// Returns a copy of a list of indices.
fn copy_indices(v: &Vec<usize>) -> (r: Vec<usize>)
    ensures
        r@ == v@,
{
    let mut r: Vec<usize> = Vec::new();
    let mut i: usize = 0;
    while i < v.len()
        invariant
            i <= v@.len(),
            r@ == v@.take(i as int),
        decreases v.len() - i,
    {
        r.push(v[i]);
        assert(r@ =~= v@.take(i + 1));
        i = i + 1;
    }
    assert(v@.take(i as int) =~= v@);
    r
}

/// Returns the indices that remain when `d` values are discarded from the front.
fn shift_indices(v: &Vec<usize>, d: usize) -> (r: Vec<usize>)
    ensures
        r@ == shifted(v@, d as nat),
{
    let mut r: Vec<usize> = Vec::new();
    let mut i: usize = 0;
    while i < v.len()
        invariant
            i <= v@.len(),
            r@ == shifted(v@.take(i as int), d as nat),
        decreases v.len() - i,
    {
        assert(v@.take(i + 1).drop_last() =~= v@.take(i as int));
        if v[i] >= d {
            r.push(v[i] - d);
        }
        i = i + 1;
    }
    assert(v@.take(i as int) =~= v@);
    r
}

/// Returns the length along the first dimension and the number of values in one entry
/// of the primary array, when it exists and has a dimension.
fn window_of(primary_shape: &Option<Vec<usize>>) -> (r: Option<(usize, usize)>)
    requires
        window_fits(shape_view(*primary_shape)),
    ensures
        window_view(r) == initial_window(shape_view(*primary_shape)),
{
    match primary_shape {
        Some(shape) => {
            if shape.len() == 0 {
                return None;
            }
            let ghost rest = shape@.drop_first();
            let mut product: usize = 1;
            let mut i: usize = 1;
            while i < shape.len()
                invariant
                    1 <= i <= shape@.len(),
                    rest == shape@.drop_first(),
                    checked_product(rest) is Some,
                    checked_product(rest.take(i - 1)) == Some(product as nat),
                decreases shape.len() - i,
            {
                assert(rest.take(i as int).drop_last() =~= rest.take(i - 1));
                assert(rest.take(i as int).last() == shape@[i as int]);
                proof {
                    lemma_product_prefix(rest, i as int);
                }
                product = product * shape[i];
                i = i + 1;
            }
            assert(rest.take(i - 1) =~= rest);
            Some((shape[0], product))
        },
        None => None,
    }
}

/// Every prefix of a shape whose product fits in a `usize` has a product that fits too.
proof fn lemma_product_prefix(shape: Seq<usize>, n: int)
    requires
        0 <= n <= shape.len(),
        checked_product(shape) is Some,
    ensures
        checked_product(shape.take(n)) is Some,
    decreases shape.len() - n,
{
    if n < shape.len() {
        lemma_product_prefix(shape, n + 1);
        assert(shape.take(n + 1).drop_last() =~= shape.take(n));
    } else {
        assert(shape.take(n) =~= shape);
    }
}

/// What a selection follows through the edits of a transaction, from the tree of the
/// figure before it, the arrays of the selected artist and the shape of its primary
/// array, or `None` when an edit clears it.
pub open spec fn spec_updated(
    node: NodeId,
    indices: Option<Vec<usize>>,
    tree: Seq<AxesView>,
    arrays: Option<ArtistArrays>,
    primary_shape: Option<Vec<usize>>,
    edits: Seq<EditEffect>,
) -> Option<Following> {
    follow(node, arrays_view(arrays), (tree, indices_view(indices), initial_window(shape_view(primary_shape))), edits)
}

impl Selection {
    /// Returns the selection after a transaction is applied, or `None` when the
    /// selection is cleared.
    ///
    /// `tree` is the tree of the figure before the transaction, which must have been
    /// applied successfully; `arrays` are the arrays of the selected artist, or `None`
    /// when the selected node is not an artist; `primary_shape` is the shape of its
    /// primary array before the transaction, when the data table holds it. The edits
    /// are considered in order:
    ///
    /// - appending to the primary array without `retain` keeps the indices;
    /// - appending to the primary array with a `retain` that discards the first `k`
    ///   entries along the first dimension shifts every index down by `k` times the
    ///   number of values in one entry, and drops the indices that would become
    ///   negative; when every index is dropped the selection keeps an empty list of
    ///   indices; `k` is found from the length of the array as left by the earlier
    ///   edits of the transaction;
    /// - replacing any array that the selected artist refers to keeps the node and
    ///   drops the indices;
    /// - removing the selected node, or its ancestor at the time of the removal, clears
    ///   the selection, even when a later edit inserts a node with the same identifier;
    /// - every other edit leaves the selection unchanged.
    pub fn updated(&self, tree: NodeTree, arrays: Option<ArtistArrays>, primary_shape: Option<Vec<usize>>, edits: &Vec<EditEffect>) -> (r: Option<Selection>)
        requires
            window_fits(shape_view(primary_shape)),
            follow_fits(
                self.node,
                arrays_view(arrays),
                (tree@, indices_view(self.indices), initial_window(shape_view(primary_shape))),
                edits@,
            ),
        ensures
            r is None <==> spec_updated(self.node, self.indices, tree@, arrays, primary_shape, edits@) is None,
            r matches Some(s) ==> s.node == self.node
                && indices_view(s.indices) == spec_updated(self.node, self.indices, tree@, arrays, primary_shape, edits@)->Some_0.1,
    {
        let ghost av = arrays_view(arrays);
        let ghost start: Following = (tree@, indices_view(self.indices), initial_window(shape_view(primary_shape)));
        let mut nodes = tree;
        let mut indices: Option<Vec<usize>> = match &self.indices {
            Some(v) => Some(copy_indices(v)),
            None => None,
        };
        let mut window = window_of(&primary_shape);
        assert(edits@.skip(0) =~= edits@);
        assert(indices_view(indices) == indices_view(self.indices));
        let mut i: usize = 0;
        while i < edits.len()
            invariant
                i <= edits@.len(),
                av == arrays_view(arrays),
                start == (tree@, indices_view(self.indices), initial_window(shape_view(primary_shape))),
                follow(self.node, av, (nodes@, indices_view(indices), window_view(window)), edits@.skip(i as int))
                    == follow(self.node, av, start, edits@),
                follow_fits(self.node, av, (nodes@, indices_view(indices), window_view(window)), edits@.skip(i as int)),
            decreases edits.len() - i,
        {
            let ghost s: Following = (nodes@, indices_view(indices), window_view(window));
            let ghost rest = edits@.skip(i as int);
            assert(rest[0] == edits@[i as int]);
            assert(rest.drop_first() =~= edits@.skip(i + 1));
            match &edits[i] {
                EditEffect::Tree(change) => {
                    if let TreeChange::Remove { node } = change {
                        let below = nodes.subtree(*node);
                        if contains_id(&below, self.node) {
                            assert(follow_step(self.node, av, s, rest[0]) is None);
                            assert(follow(self.node, av, s, rest) is None);
                            return None;
                        }
                    }
                    nodes.apply(change);
                },
                EditEffect::PutData { id } => {
                    if let Some(a) = &arrays {
                        if contains_data(&a.all, *id) {
                            indices = None;
                        }
                    }
                },
                EditEffect::AppendData { id, shape, retain } => {
                    let primary = match &arrays {
                        Some(a) => a.primary == *id,
                        None => false,
                    };
                    if primary {
                        if let Some((entries, values)) = window {
                            let appended: usize = if shape.len() > 0 { shape[0] } else { 0 };
                            let total = entries + appended;
                            let kept: usize = match retain {
                                None => total,
                                Some(k) => if *k <= usize::MAX as u64 { *k as usize } else { usize::MAX },
                            };
                            if kept < total {
                                let discarded = (total - kept) * values;
                                indices = match &indices {
                                    Some(v) => Some(shift_indices(v, discarded)),
                                    None => None,
                                };
                                window = Some((kept, values));
                            } else {
                                window = Some((total, values));
                            }
                        }
                    }
                },
                EditEffect::SetProperty { .. } | EditEffect::RemoveData { .. } => {},
            }
            i = i + 1;
        }
        assert(edits@.skip(i as int) =~= Seq::<EditEffect>::empty());
        Some(Selection { node: self.node, indices })
    }
}

/// Following a transaction is following its first edits, then the rest.
proof fn lemma_follow_split(node: NodeId, arrays: Option<(DataId, Seq<DataId>)>, s: Following, a: Seq<EditEffect>, b: Seq<EditEffect>)
    ensures
        follow(node, arrays, s, a + b) == match follow(node, arrays, s, a) {
            None => None,
            Some(t) => follow(node, arrays, t, b),
        },
    decreases a.len(),
{
    if a.len() == 0 {
        assert(a + b =~= b);
    } else {
        assert((a + b)[0] == a[0]);
        assert((a + b).drop_first() =~= a.drop_first() + b);
        match follow_step(node, arrays, s, a[0]) {
            None => {},
            Some(t) => lemma_follow_split(node, arrays, t, a.drop_first(), b),
        }
    }
}

/// Once an edit removes the selected node, or its ancestor at the time of the removal,
/// the selection stays cleared whatever the later edits of the transaction do, even when
/// one of them inserts a node with the same identifier.
pub proof fn law_removal_clears(node: NodeId, arrays: Option<(DataId, Seq<DataId>)>, s: Following, edits: Seq<EditEffect>, k: int)
    requires
        0 <= k < edits.len(),
        follow(node, arrays, s, edits.take(k)) is Some,
        edits[k] matches EditEffect::Tree(TreeChange::Remove { node: removed })
            && spec_subtree(follow(node, arrays, s, edits.take(k))->Some_0.0, removed).contains(node),
    ensures
        follow(node, arrays, s, edits) is None,
{
    lemma_follow_split(node, arrays, s, edits.take(k), edits.skip(k));
    assert(edits.take(k) + edits.skip(k) =~= edits);
    assert(edits.skip(k)[0] == edits[k]);
}

/// Every index that remains after discarding values from the front is an index of the
/// list shifted down by the number discarded.
proof fn lemma_shifted_members(v: Seq<usize>, d: nat)
    ensures
        forall|i: int| 0 <= i < shifted(v, d).len() ==> exists|j: int| 0 <= j < v.len() && #[trigger] shifted(v, d)[i] + d == v[j],
    decreases v.len(),
{
    if v.len() > 0 {
        let rest = v.drop_last();
        lemma_shifted_members(rest, d);
        assert forall|i: int| 0 <= i < shifted(v, d).len() implies exists|j: int| 0 <= j < v.len() && #[trigger] shifted(v, d)[i] + d == v[j] by {
            if i < shifted(rest, d).len() {
                let j = choose|j: int| 0 <= j < rest.len() && shifted(rest, d)[i] + d == rest[j];
                assert(v[j] == rest[j]);
            } else {
                assert(shifted(v, d)[i] + d == v[v.len() - 1]);
            }
        }
    }
}

/// Shifting an ascending list of indices keeps it ascending.
proof fn lemma_shifted_ascending(v: Seq<usize>, d: nat)
    requires
        ascending(v),
    ensures
        ascending(shifted(v, d)),
    decreases v.len(),
{
    if v.len() > 0 {
        let rest = v.drop_last();
        lemma_shifted_ascending(rest, d);
        lemma_shifted_members(rest, d);
        if v.last() >= d {
            assert forall|a: int, b: int| 0 <= a < b < shifted(v, d).len() implies shifted(v, d)[a] < shifted(v, d)[b] by {
                if b == shifted(v, d).len() - 1 {
                    let j = choose|j: int| 0 <= j < rest.len() && shifted(rest, d)[a] + d == rest[j];
                    assert(v[j] < v[v.len() - 1]);
                }
            }
        }
    }
}

/// Following a transaction keeps the selected indices ascending, so that each is
/// selected once.
pub proof fn law_indices_stay_ascending(node: NodeId, arrays: Option<(DataId, Seq<DataId>)>, s: Following, edits: Seq<EditEffect>)
    requires
        s.1 matches Some(v) ==> ascending(v),
    ensures
        follow(node, arrays, s, edits) matches Some(t) ==> (t.1 matches Some(v) ==> ascending(v)),
    decreases edits.len(),
{
    if edits.len() > 0 {
        match follow_step(node, arrays, s, edits[0]) {
            None => {},
            Some(t) => {
                if let EditEffect::AppendData { id, shape, retain } = edits[0] {
                    if let Some(v) = s.1 {
                        if s.2 is Some {
                            let (entries, values) = s.2->Some_0;
                            let total = entries + first_or_zero(shape@);
                            lemma_shifted_ascending(v, ((total - kept_entries(total, retain)) * values) as nat);
                        }
                    }
                }
                law_indices_stay_ascending(node, arrays, t, edits.drop_first());
            },
        }
    }
}

/// A selected index keeps naming the same value when entries are appended to the
/// primary array: the selection discards exactly the values the append discards from
/// the front, so every index that remains names the value it named before, and its
/// window follows the shape that the append leaves.
pub proof fn law_append_keeps_selected_values<T>(
    node: NodeId,
    primary: DataId,
    all: Seq<DataId>,
    s: Following,
    shape: Seq<usize>,
    values: Seq<T>,
    appended_shape: Vec<usize>,
    appended: Seq<T>,
    retain: Option<u64>,
)
    requires
        s.2 == initial_window(Some(shape)),
        checked_product(shape.drop_first()) is Some,
        shapes_agree(shape, appended_shape@),
        append_fits(shape, values.len(), appended_shape@, appended.len(), retain),
    ensures
        ({
            let d = discarded_values(shape, appended_shape@, retain);
            let edit = EditEffect::AppendData { id: primary, shape: appended_shape, retain };
            &&& follow_step(node, Some((primary, all)), s, edit) matches Some(t)
                && t.2 == initial_window(Some(spec_appended_shape(shape, appended_shape@, retain)))
                && (s.1 matches Some(v) ==> t.1 == Some(shifted(v, d)))
            &&& forall|x: int| d <= x < values.len() ==> #[trigger] (values + appended).skip(d as int)[x - d] == values[x]
        }),
{
    let new_shape = spec_appended_shape(shape, appended_shape@, retain);
    assert(new_shape.drop_first() =~= shape.drop_first());
    let total = (shape[0] + appended_shape@[0]) as nat;
    assert(first_or_zero(appended_shape@) == appended_shape@[0]);
    if let Some(v) = s.1 {
        if kept_entries(total, retain) >= total {
            lemma_shifted_zero(v);
        }
    }
    let d = discarded_values(shape, appended_shape@, retain);
    assert forall|x: int| d <= x < values.len() implies #[trigger] (values + appended).skip(d as int)[x - d] == values[x] by {
        assert((values + appended)[x] == values[x]);
    }
}

/// Discarding no value keeps every index.
proof fn lemma_shifted_zero(v: Seq<usize>)
    ensures
        shifted(v, 0) == v,
    decreases v.len(),
{
    if v.len() > 0 {
        lemma_shifted_zero(v.drop_last());
        assert(v.drop_last().push(v.last()) =~= v);
    }
}

} // verus!
