//! The checks of an artist against the data table of its figure: which arrays it refers
//! to and how it uses them, whether they exist and hold values of an element type it
//! can use, whether their lengths and shapes agree, and whether they give it anything to
//! draw.

use vstd::prelude::*;

use crate::artist::Grid;
use crate::data::{shape_product, NdArrayElement};
use crate::edit::tree::find_first;
use crate::ids::{data_text, DataId, NodeId};
use crate::link::Dimension;
use crate::selection::spec_grid_data;
use crate::text::owned;
use crate::textfmt::{decimal, push_decimal};
use crate::validate::{
    issue_view, issues_view, list_text, nodes_without_cells, push_list, ArrayShape, IssueKind,
    IssueView, ValidationIssue,
};

verus! {

/// What the checks read of an artist: the arrays it refers to, and whether it needs the
/// z axis to be placed.
#[derive(Debug, Clone, Copy, PartialEq, Eq)]
pub enum ArtistData {
    /// A line through points.
    Line { x: DataId, y: DataId, z: Option<DataId> },
    /// A scatter of markers, whose size and colour may come from arrays.
    Scatter { x: DataId, y: DataId, z: Option<DataId>, size: Option<DataId>, color: Option<DataId> },
    /// A quiver of arrows at positions with vector components.
    Quiver { x: DataId, y: DataId, z: Option<DataId>, u: DataId, v: DataId, w: Option<DataId> },
    /// A contour of a field on a grid, with its isolines drawn at their levels or not.
    Contour { grid: Grid, z: DataId, at_level: bool },
    /// A surface of a field on a grid, coloured by its own colour data or not.
    Surface { grid: Grid, z: DataId, c: Option<DataId> },
    /// A true-colour image, in the floor plane or on a wall.
    Image { pixels: DataId, on_wall: bool },
    /// A colour-indexed image, in the floor plane or on a wall.
    IndexedImage { indices: DataId, on_wall: bool },
    /// A colour-mapped image, in the floor plane or on a wall.
    MappedImage { values: DataId, on_wall: bool },
}

/// How an artist uses its data and the dimensions of its axes.
pub struct ArtistUsage {
    /// Every data identifier the artist refers to.
    pub references: Vec<DataId>,
    /// The arrays whose values are plotted as positions along a dimension.
    pub positions: Vec<(Dimension, DataId)>,
    /// Whether the artist can only be drawn in a three-dimensional axes, because it needs
    /// the z axis to be placed. A surface does not: seen from directly above, it is the
    /// pseudocolour plot of a two-dimensional axes.
    pub three_d: bool,
    /// Whether the artist can use arrays of 8-bit values, as the image kinds can.
    pub accepts_bytes: bool,
}

/// The identifiers of the present arrays of a list, in order.
pub open spec fn present(v: Seq<Option<DataId>>) -> Seq<DataId>
    decreases v.len(),
{
    if v.len() == 0 {
        seq![]
    } else {
        match v.last() {
            Some(id) => present(v.drop_last()).push(id),
            None => present(v.drop_last()),
        }
    }
}

/// The arrays that the grid of a contour or surface plots as positions.
pub open spec fn grid_positions(grid: Grid) -> Seq<(Dimension, DataId)> {
    seq![(Dimension::X, spec_grid_data(grid).0), (Dimension::Y, spec_grid_data(grid).1)]
}

/// The usage of an artist: the arrays it refers to, those it plots as positions, whether
/// it needs a three-dimensional axes, and whether it accepts 8-bit values.
pub open spec fn spec_usage(artist: ArtistData) -> (Seq<DataId>, Seq<(Dimension, DataId)>, bool, bool) {
    match artist {
        ArtistData::Line { x, y, z } => {
            let positions = seq![(Dimension::X, x), (Dimension::Y, y)] + match z {
                Some(z) => seq![(Dimension::Z, z)],
                None => seq![],
            };
            (present(seq![Some(x), Some(y), z]), positions, z is Some, false)
        },
        ArtistData::Scatter { x, y, z, size, color } => {
            let positions = seq![(Dimension::X, x), (Dimension::Y, y)] + match z {
                Some(z) => seq![(Dimension::Z, z)],
                None => seq![],
            };
            (present(seq![Some(x), Some(y), z, size, color]), positions, z is Some, false)
        },
        ArtistData::Quiver { x, y, z, u, v, w } => {
            let positions = seq![(Dimension::X, x), (Dimension::Y, y)] + match z {
                Some(z) => seq![(Dimension::Z, z)],
                None => seq![],
            };
            (present(seq![Some(x), Some(y), z, Some(u), Some(v), w]), positions, z is Some || w is Some, false)
        },
        ArtistData::Contour { grid, z, at_level } => {
            let (gx, gy) = spec_grid_data(grid);
            let positions = grid_positions(grid) + if at_level { seq![(Dimension::Z, z)] } else { seq![] };
            (seq![gx, gy, z], positions, at_level, false)
        },
        ArtistData::Surface { grid, z, c } => {
            let (gx, gy) = spec_grid_data(grid);
            (present(seq![Some(gx), Some(gy), Some(z), c]), grid_positions(grid).push((Dimension::Z, z)), false, false)
        },
        ArtistData::Image { pixels, on_wall } => (seq![pixels], seq![], on_wall, true),
        ArtistData::IndexedImage { indices, on_wall } => (seq![indices], seq![], on_wall, true),
        ArtistData::MappedImage { values, on_wall } => (seq![values], seq![], on_wall, true),
    }
}

/// Returns the identifiers of the present arrays of a list, in order.
pub(crate) fn present_ids(v: &Vec<Option<DataId>>) -> (r: Vec<DataId>)
    ensures
        r@ == present(v@),
{
    let mut r: Vec<DataId> = Vec::new();
    let mut i: usize = 0;
    while i < v.len()
        invariant
            i <= v@.len(),
            r@ == present(v@.take(i as int)),
        decreases v.len() - i,
    {
        assert(v@.take(i + 1).drop_last() =~= v@.take(i as int));
        if let Some(id) = v[i] {
            r.push(id);
        }
        i = i + 1;
    }
    assert(v@.take(i as int) =~= v@);
    r
}

impl ArtistUsage {
    /// The usage of an image, which refers to one array of either element type, plots
    /// nothing as a position along an axis, and needs a three-dimensional axes when it
    /// lies on a wall.
    fn image(data: DataId, on_wall: bool) -> (r: Self)
        ensures
            r.references@ == seq![data],
            r.positions@ == Seq::<(Dimension, DataId)>::empty(),
            r.three_d == on_wall,
            r.accepts_bytes,
    {
        ArtistUsage { references: vec![data], positions: Vec::new(), three_d: on_wall, accepts_bytes: true }
    }

    /// Returns how an artist uses its data and the dimensions of its axes.
    pub fn of(artist: &ArtistData) -> (r: Self)
        ensures
            (r.references@, r.positions@, r.three_d, r.accepts_bytes) == spec_usage(*artist),
    {
        match *artist {
            ArtistData::Line { x, y, z } => {
                let mut positions = vec![(Dimension::X, x), (Dimension::Y, y)];
                if let Some(z) = z {
                    positions.push((Dimension::Z, z));
                }
                let references = present_ids(&vec![Some(x), Some(y), z]);
                let r = ArtistUsage { references, positions, three_d: z.is_some(), accepts_bytes: false };
                assert(r.positions@ =~= spec_usage(*artist).1);
                r
            },
            ArtistData::Scatter { x, y, z, size, color } => {
                let mut positions = vec![(Dimension::X, x), (Dimension::Y, y)];
                if let Some(z) = z {
                    positions.push((Dimension::Z, z));
                }
                let references = present_ids(&vec![Some(x), Some(y), z, size, color]);
                let r = ArtistUsage { references, positions, three_d: z.is_some(), accepts_bytes: false };
                assert(r.positions@ =~= spec_usage(*artist).1);
                r
            },
            ArtistData::Quiver { x, y, z, u, v, w } => {
                let mut positions = vec![(Dimension::X, x), (Dimension::Y, y)];
                if let Some(z) = z {
                    positions.push((Dimension::Z, z));
                }
                let references = present_ids(&vec![Some(x), Some(y), z, Some(u), Some(v), w]);
                let r = ArtistUsage { references, positions, three_d: z.is_some() || w.is_some(), accepts_bytes: false };
                assert(r.positions@ =~= spec_usage(*artist).1);
                r
            },
            ArtistData::Contour { grid, z, at_level } => {
                let (gx, gy) = crate::selection::grid_data(grid);
                let mut positions = vec![(Dimension::X, gx), (Dimension::Y, gy)];
                if at_level {
                    positions.push((Dimension::Z, z));
                }
                let r = ArtistUsage { references: vec![gx, gy, z], positions, three_d: at_level, accepts_bytes: false };
                assert(r.positions@ =~= spec_usage(*artist).1);
                r
            },
            ArtistData::Surface { grid, z, c } => {
                let (gx, gy) = crate::selection::grid_data(grid);
                let positions = vec![(Dimension::X, gx), (Dimension::Y, gy), (Dimension::Z, z)];
                let references = present_ids(&vec![Some(gx), Some(gy), Some(z), c]);
                let r = ArtistUsage { references, positions, three_d: false, accepts_bytes: false };
                assert(r.positions@ =~= spec_usage(*artist).1);
                r
            },
            ArtistData::Image { pixels, on_wall } => ArtistUsage::image(pixels, on_wall),
            ArtistData::IndexedImage { indices, on_wall } => ArtistUsage::image(indices, on_wall),
            ArtistData::MappedImage { values, on_wall } => ArtistUsage::image(values, on_wall),
        }
    }
}

/// The array of a data table with an identifier.
pub open spec fn array_is(id: DataId) -> spec_fn(ArrayShape) -> bool {
    |a: ArrayShape| a.id == id
}

/// The position of the array with an identifier in a data table, or -1.
pub open spec fn find_array(table: Seq<ArrayShape>, id: DataId) -> int {
    find_first(table, array_is(id))
}

/// Returns the position of the array with an identifier in a data table.
fn position_of_array(table: &Vec<ArrayShape>, id: DataId) -> (r: Option<usize>)
    ensures
        r matches Some(i) ==> i == find_array(table@, id) && i < table@.len() && table@[i as int].id == id,
        r is None <==> find_array(table@, id) == -1,
{
    let mut i: usize = 0;
    while i < table.len()
        invariant
            i <= table@.len(),
            forall|j: int| 0 <= j < i ==> !array_is(id)(#[trigger] table@[j]),
        decreases table.len() - i,
    {
        if table[i].id == id {
            proof {
                crate::edit::tree::lemma_find_first_at(table@, array_is(id), i as int);
            }
            return Some(i);
        }
        i = i + 1;
    }
    proof {
        crate::edit::tree::lemma_find_first(table@, array_is(id));
    }
    None
}

/// The name of an element type as messages write it.
pub open spec fn element_name(e: NdArrayElement) -> Seq<char> {
    match e {
        NdArrayElement::F64 => "f64"@,
        NdArrayElement::U8 => "u8"@,
    }
}

/// What is wrong with a reference of an artist: the array is not in the data table, or
/// holds 8-bit values that the artist cannot use.
pub open spec fn reference_problem(table: Seq<ArrayShape>, accepts_bytes: bool, id: DataId) -> Option<(IssueKind, Seq<char>)> {
    let i = find_array(table, id);
    if i < 0 {
        Some((IssueKind::UnknownData, data_text(id) + " is not in the data table"@))
    } else if !accepts_bytes && table[i].element != NdArrayElement::F64 {
        Some((
            IssueKind::ElementTypeMismatch,
            data_text(id) + " holds "@ + element_name(table[i].element) + " values, but the artist requires f64 values"@,
        ))
    } else {
        None
    }
}

/// Whether a reference is to a known array of an element type the artist can use whose
/// values fill its shape.
pub open spec fn reference_valid(table: Seq<ArrayShape>, accepts_bytes: bool, id: DataId) -> bool {
    reference_problem(table, accepts_bytes, id) is None && shape_product(table[find_array(table, id)].shape@)
        == table[find_array(table, id)].len as nat
}

/// The errors of the references of an artist: each reference with a problem, reported
/// once however often the artist refers to it.
pub open spec fn spec_reference_issues(node: NodeId, table: Seq<ArrayShape>, accepts_bytes: bool, references: Seq<DataId>) -> Seq<IssueView>
    decreases references.len(),
{
    if references.len() == 0 {
        seq![]
    } else {
        let earlier = spec_reference_issues(node, table, accepts_bytes, references.drop_last());
        let id = references.last();
        match reference_problem(table, accepts_bytes, id) {
            Some((kind, message)) => if references.drop_last().contains(id) {
                earlier
            } else {
                earlier.push((Some(node), kind, message))
            },
            None => earlier,
        }
    }
}

/// Returns the errors of the references of an artist, each distinct unknown reference
/// and, unless the artist accepts 8-bit values, each distinct reference to an array of
/// them, and whether every reference is to a known array of an element type the artist
/// can use whose values match its shape.
pub fn check_references(node: NodeId, references: &Vec<DataId>, accepts_bytes: bool, table: &Vec<ArrayShape>) -> (r: (Vec<ValidationIssue>, bool))
    ensures
        issues_view(r.0@) == spec_reference_issues(node, table@, accepts_bytes, references@),
        r.1 == forall|i: int| 0 <= i < references@.len() ==> reference_valid(table@, accepts_bytes, #[trigger] references@[i]),
{
    let mut issues: Vec<ValidationIssue> = Vec::new();
    let mut valid = true;
    let mut reported: Vec<DataId> = Vec::new();
    let mut i: usize = 0;
    while i < references.len()
        invariant
            i <= references@.len(),
            issues_view(issues@) == spec_reference_issues(node, table@, accepts_bytes, references@.take(i as int)),
            valid == forall|k: int| 0 <= k < i ==> reference_valid(table@, accepts_bytes, #[trigger] references@[k]),
            forall|x: DataId| reported@.contains(x) <==> (references@.take(i as int).contains(x) && reference_problem(table@, accepts_bytes, x) is Some),
        decreases references.len() - i,
    {
        let data = references[i];
        let ghost prefix = references@.take(i as int);
        assert(references@.take(i + 1).drop_last() =~= prefix);
        assert(references@.take(i + 1).last() == data);
        let ghost before = issues@;
        let ghost was_valid = valid;
        let problem: Option<(IssueKind, String)> = match position_of_array(table, data) {
            None => {
                let mut message = data.display();
                message.append(" is not in the data table");
                proof {
                    reveal_strlit(" is not in the data table");
                }
                Some((IssueKind::UnknownData, message))
            },
            Some(a) => {
                if !accepts_bytes && table[a].element != NdArrayElement::F64 {
                    let mut message = data.display();
                    message.append(" holds ");
                    message.append(table[a].element.name());
                    message.append(" values, but the artist requires f64 values");
                    proof {
                        reveal_strlit(" holds ");
                        reveal_strlit(" values, but the artist requires f64 values");
                        reveal_strlit("f64");
                        reveal_strlit("u8");
                    }
                    Some((IssueKind::ElementTypeMismatch, message))
                } else {
                    let consistent = match crate::data::checked_shape(copy_shape(&table[a].shape), table[a].len) {
                        Ok(_) => true,
                        Err(_) => false,
                    };
                    valid = valid && consistent;
                    None
                }
            },
        };
        match problem {
            Some((kind, message)) => {
                valid = false;
                let ghost was_reported = reported@;
                if !contains_data(&reported, data) {
                    reported.push(data);
                    issues.push(ValidationIssue { node: Some(node), kind, message });
                    assert(issues_view(issues@) =~= issues_view(before).push(issue_view(issues@.last())));
                    assert(!prefix.contains(data));
                } else {
                    assert(prefix.contains(data));
                }
                assert forall|x: DataId| reported@.contains(x) <==> (references@.take(i + 1).contains(x) && reference_problem(table@, accepts_bytes, x) is Some) by {
                    lemma_contains_push(was_reported, data, x);
                    lemma_contains_push(prefix, data, x);
                    assert(references@.take(i + 1) == prefix.push(data));
                }
            },
            None => {
                assert forall|x: DataId| reported@.contains(x) <==> (references@.take(i + 1).contains(x) && reference_problem(table@, accepts_bytes, x) is Some) by {
                    lemma_contains_push(prefix, data, x);
                    assert(references@.take(i + 1) == prefix.push(data));
                }
            },
        }
        assert(valid == forall|k: int| 0 <= k < i + 1 ==> reference_valid(table@, accepts_bytes, #[trigger] references@[k])) by {
            if !was_valid {
                let k = choose|k: int| 0 <= k < i && !reference_valid(table@, accepts_bytes, #[trigger] references@[k]);
            }
        }
        i = i + 1;
    }
    assert(references@.take(i as int) =~= references@);
    (issues, valid)
}

proof fn lemma_contains_push<T>(s: Seq<T>, a: T, x: T)
    ensures
        s.push(a).contains(x) <==> (s.contains(x) || x == a),
{
    if s.contains(x) {
        let j = choose|j: int| 0 <= j < s.len() && s[j] == x;
        assert(s.push(a)[j] == x);
    }
    if x == a {
        assert(s.push(a)[s.len() as int] == x);
    }
    if s.push(a).contains(x) && x != a {
        let j = choose|j: int| 0 <= j < s.push(a).len() && s.push(a)[j] == x;
        assert(s[j] == x);
    }
}

/// Returns whether a list holds an identifier of data.
fn contains_data(v: &Vec<DataId>, id: DataId) -> (r: bool)
    ensures
        r == v@.contains(id),
{
    let mut i: usize = 0;
    while i < v.len()
        invariant
            i <= v@.len(),
            forall|k: int| 0 <= k < i ==> v@[k] != id,
        decreases v.len() - i,
    {
        if v[i] == id {
            return true;
        }
        i = i + 1;
    }
    false
}

/// Returns a copy of a shape.
fn copy_shape(v: &Vec<usize>) -> (r: Vec<usize>)
    ensures
        r@ == v@,
{
    let mut r: Vec<usize> = Vec::new();
    let mut i: usize = 0;
    while i < v.len()
        invariant
            i <= v@.len(),
            r@ == v@.take(i as int),
        decreases v.len() - i,
    {
        r.push(v[i]);
        assert(r@ =~= v@.take(i + 1));
        i = i + 1;
    }
    assert(r@ =~= v@);
    r
}


/// The array of a data table with an identifier, when the table holds it.
pub open spec fn array_of(table: Seq<ArrayShape>, id: DataId) -> ArrayShape {
    table[find_array(table, id)]
}

/// Whether a data table holds every array of a list.
pub open spec fn all_known(table: Seq<ArrayShape>, ids: Seq<DataId>) -> bool {
    forall|i: int| 0 <= i < ids.len() ==> find_array(table, #[trigger] ids[i]) >= 0
}

/// The numbers of values of arrays of a data table.
pub open spec fn counts_of(table: Seq<ArrayShape>, ids: Seq<DataId>) -> Seq<usize> {
    ids.map_values(|id: DataId| array_of(table, id).len)
}

/// Whether all numbers of a list are equal.
pub open spec fn all_equal(s: Seq<usize>) -> bool {
    forall|i: int, j: int| 0 <= i < s.len() && 0 <= j < s.len() ==> s[i] == s[j]
}

/// Returns the error of arrays that differ in their numbers of values, and whether they
/// agree.
pub fn check_equal_counts(node: NodeId, what: &str, arrays: &Vec<Option<DataId>>, table: &Vec<ArrayShape>) -> (r: (Option<ValidationIssue>, bool))
    requires
        all_known(table@, present(arrays@)),
    ensures
        r.1 == all_equal(counts_of(table@, present(arrays@))),
        r.0 is None <==> r.1,
        r.0 matches Some(i) ==> issue_view(i) == (
            Some(node),
            IssueKind::ShapeMismatch,
            what@ + " have different numbers of elements "@ + list_text(counts_of(table@, present(arrays@))),
        ),
{
    let ids = present_ids(arrays);
    let ghost expected = counts_of(table@, ids@);
    let mut counts: Vec<usize> = Vec::new();
    let mut i: usize = 0;
    while i < ids.len()
        invariant
            i <= ids@.len(),
            all_known(table@, ids@),
            expected == counts_of(table@, ids@),
            counts@ == expected.take(i as int),
        decreases ids.len() - i,
    {
        assert(find_array(table@, ids@[i as int]) >= 0);
        let a = match position_of_array(table, ids[i]) {
            Some(a) => a,
            None => 0,
        };
        counts.push(table[a].len);
        assert(counts@ =~= expected.take(i + 1));
        i = i + 1;
    }
    assert(counts@ =~= expected);
    let mut agree = true;
    let mut k: usize = 1;
    while k < counts.len() && agree
        invariant
            1 <= k,
            k <= counts@.len() || counts@.len() == 0,
            agree ==> forall|m: int| 0 <= m < k && m < counts@.len() ==> #[trigger] counts@[m] == counts@[0],
            !agree ==> !all_equal(counts@),
        decreases counts.len() - k, if agree { 1int } else { 0int },
    {
        if counts[k] != counts[k - 1] {
            agree = false;
        } else {
            k = k + 1;
        }
    }
    if agree {
        assert(all_equal(counts@)) by {
            assert forall|a: int, b: int| 0 <= a < counts@.len() && 0 <= b < counts@.len() implies counts@[a] == counts@[b] by {
                assert(counts@[a] == counts@[0] && counts@[b] == counts@[0]);
            }
        }
        (None, true)
    } else {
        let mut message = owned(what);
        message.append(" have different numbers of elements ");
        push_list(&mut message, &counts);
        proof {
            reveal_strlit(" have different numbers of elements ");
        }
        (Some(ValidationIssue { node: Some(node), kind: IssueKind::ShapeMismatch, message }), false)
    }
}

/// Returns whether two shapes are equal.
fn same_shape(a: &Vec<usize>, b: &Vec<usize>) -> (r: bool)
    ensures
        r == (a@ == b@),
{
    if a.len() != b.len() {
        return false;
    }
    let mut i: usize = 0;
    while i < a.len()
        invariant
            i <= a@.len(),
            a@.len() == b@.len(),
            forall|k: int| 0 <= k < i ==> a@[k] == b@[k],
        decreases a.len() - i,
    {
        if a[i] != b[i] {
            return false;
        }
        i = i + 1;
    }
    assert(a@ =~= b@);
    true
}

/// What is wrong with the grid of a field, when anything is: the field is not
/// two-dimensional, or the grid's arrays do not match its shape.
pub open spec fn grid_problem(table: Seq<ArrayShape>, grid: Grid, field: DataId) -> Option<Seq<char>> {
    let shape = array_of(table, field).shape@;
    if shape.len() != 2 {
        Some("the field has shape "@ + list_text(shape) + ", but it must be two-dimensional"@)
    } else {
        let (ny, nx) = (shape[0], shape[1]);
        match grid {
            Grid::Rectilinear { x, y } => {
                let (xl, yl) = (array_of(table, x).len, array_of(table, y).len);
                if xl != nx || yl != ny {
                    Some("the grid vectors have "@ + decimal(xl as nat) + " x and "@ + decimal(yl as nat)
                        + " y values, but the field of shape "@ + list_text(shape) + " needs "@ + decimal(nx as nat)
                        + " x and "@ + decimal(ny as nat) + " y values"@)
                } else {
                    None
                }
            },
            Grid::Curvilinear { x, y } => {
                let (xs, ys) = (array_of(table, x).shape@, array_of(table, y).shape@);
                if xs != shape || ys != shape {
                    Some("the grid coordinates have shapes "@ + list_text(xs) + " and "@ + list_text(ys)
                        + ", but the field has shape "@ + list_text(shape))
                } else {
                    None
                }
            },
        }
    }
}

/// Returns the index of an array that the data table holds.
fn known(table: &Vec<ArrayShape>, id: DataId) -> (r: usize)
    requires
        find_array(table@, id) >= 0,
    ensures
        r == find_array(table@, id),
        r < table@.len(),
{
    match position_of_array(table, id) {
        Some(a) => a,
        None => 0,
    }
}

/// Returns the error of a field that is not two-dimensional or whose grid does not
/// match it, and whether both hold.
pub fn check_grid(node: NodeId, grid: Grid, field: DataId, table: &Vec<ArrayShape>) -> (r: (Option<ValidationIssue>, bool))
    requires
        find_array(table@, field) >= 0,
        find_array(table@, spec_grid_data(grid).0) >= 0,
        find_array(table@, spec_grid_data(grid).1) >= 0,
    ensures
        r.1 <==> grid_problem(table@, grid, field) is None,
        r.0 is None <==> r.1,
        r.0 matches Some(i) ==> issue_view(i) == (Some(node), IssueKind::ShapeMismatch, grid_problem(table@, grid, field)->Some_0),
{
    let f = known(table, field);
    let shape = &table[f].shape;
    if shape.len() != 2 {
        let mut message = owned("the field has shape ");
        push_list(&mut message, shape);
        message.append(", but it must be two-dimensional");
        proof {
            reveal_strlit("the field has shape ");
            reveal_strlit(", but it must be two-dimensional");
        }
        return (Some(ValidationIssue { node: Some(node), kind: IssueKind::ShapeMismatch, message }), false);
    }
    let (ny, nx) = (shape[0], shape[1]);
    match grid {
        Grid::Rectilinear { x, y } => {
            let (xl, yl) = (table[known(table, x)].len, table[known(table, y)].len);
            if xl != nx || yl != ny {
                let mut message = owned("the grid vectors have ");
                push_decimal(&mut message, xl as u64);
                message.append(" x and ");
                push_decimal(&mut message, yl as u64);
                message.append(" y values, but the field of shape ");
                push_list(&mut message, shape);
                message.append(" needs ");
                push_decimal(&mut message, nx as u64);
                message.append(" x and ");
                push_decimal(&mut message, ny as u64);
                message.append(" y values");
                proof {
                    reveal_strlit("the grid vectors have ");
                    reveal_strlit(" x and ");
                    reveal_strlit(" y values, but the field of shape ");
                    reveal_strlit(" needs ");
                    reveal_strlit(" y values");
                }
                return (Some(ValidationIssue { node: Some(node), kind: IssueKind::ShapeMismatch, message }), false);
            }
            (None, true)
        },
        Grid::Curvilinear { x, y } => {
            let xs = &table[known(table, x)].shape;
            let ys = &table[known(table, y)].shape;
            if !same_shape(xs, shape) || !same_shape(ys, shape) {
                let mut message = owned("the grid coordinates have shapes ");
                push_list(&mut message, xs);
                message.append(" and ");
                push_list(&mut message, ys);
                message.append(", but the field has shape ");
                push_list(&mut message, shape);
                proof {
                    reveal_strlit("the grid coordinates have shapes ");
                    reveal_strlit(" and ");
                    reveal_strlit(", but the field has shape ");
                }
                return (Some(ValidationIssue { node: Some(node), kind: IssueKind::ShapeMismatch, message }), false);
            }
            (None, true)
        },
    }
}


/// The arrays whose numbers of values must agree for an artist other than a contour, a
/// surface or an image, with how messages name them.
pub open spec fn counted_arrays(artist: ArtistData) -> (Seq<char>, Seq<Option<DataId>>) {
    match artist {
        ArtistData::Line { x, y, z } => ("the coordinate arrays"@, seq![Some(x), Some(y), z]),
        ArtistData::Scatter { x, y, z, size, color } => (
            "the coordinate, size and colour arrays"@,
            seq![Some(x), Some(y), z, size, color],
        ),
        ArtistData::Quiver { x, y, z, u, v, w } => (
            "the position and component arrays"@,
            seq![Some(x), Some(y), z, Some(u), Some(v), w],
        ),
        _ => (seq![], seq![]),
    }
}

/// The errors of the shapes of an artist whose arrays all exist, and whether they agree:
/// the numbers of values of the arrays of a line, scatter or quiver agree; the field of
/// a contour or surface is two-dimensional and matches its grid; and the colour data of
/// a surface has the shape of its field. An image is checked elsewhere.
pub open spec fn spec_shapes(node: NodeId, table: Seq<ArrayShape>, artist: ArtistData) -> (Seq<IssueView>, bool) {
    match artist {
        ArtistData::Contour { grid, z, .. } => match grid_problem(table, grid, z) {
            Some(m) => (seq![(Some(node), IssueKind::ShapeMismatch, m)], false),
            None => (seq![], true),
        },
        ArtistData::Surface { grid, z, c } => {
            let grid_issues = match grid_problem(table, grid, z) {
                Some(m) => seq![(Some(node), IssueKind::ShapeMismatch, m)],
                None => seq![],
            };
            match c {
                Some(c) => if array_of(table, c).shape@ != array_of(table, z).shape@ {
                    (
                        grid_issues.push((
                            Some(node),
                            IssueKind::ShapeMismatch,
                            "the colour data has shape "@ + list_text(array_of(table, c).shape@) + ", but the field has shape "@
                                + list_text(array_of(table, z).shape@),
                        )),
                        false,
                    )
                } else {
                    (grid_issues, grid_problem(table, grid, z) is None)
                },
                None => (grid_issues, grid_problem(table, grid, z) is None),
            }
        },
        ArtistData::Image { .. } | ArtistData::IndexedImage { .. } | ArtistData::MappedImage { .. } => (seq![], true),
        _ => {
            let (what, arrays) = counted_arrays(artist);
            let counts = counts_of(table, present(arrays));
            if all_equal(counts) {
                (seq![], true)
            } else {
                (seq![(Some(node), IssueKind::ShapeMismatch, what + " have different numbers of elements "@ + list_text(counts))], false)
            }
        },
    }
}

/// Returns the errors of the shapes of an artist whose arrays all exist, and whether
/// they agree.
pub fn check_shapes(node: NodeId, artist: &ArtistData, table: &Vec<ArrayShape>) -> (r: (Vec<ValidationIssue>, bool))
    requires
        all_known(table@, spec_usage(*artist).0),
    ensures
        (issues_view(r.0@), r.1) == spec_shapes(node, table@, *artist),
{
    let usage = ArtistUsage::of(artist);
    let ghost refs = usage.references@;
    let mut issues: Vec<ValidationIssue> = Vec::new();
    match *artist {
        ArtistData::Contour { grid, z, .. } => {
            assert(refs[0] == spec_grid_data(grid).0 && refs[1] == spec_grid_data(grid).1 && refs[2] == z);
            let (issue, agrees) = check_grid(node, grid, z, table);
            if let Some(i) = issue {
                issues.push(i);
            }
            assert(issues_view(issues@) =~= spec_shapes(node, table@, *artist).0);
            (issues, agrees)
        },
        ArtistData::Surface { grid, z, c } => {
            let (gx, gy) = crate::selection::grid_data(grid);
            assert(present(seq![Some(gx), Some(gy), Some(z), c]) =~= match c {
                Some(c) => seq![gx, gy, z, c],
                None => seq![gx, gy, z],
            }) by {
                reveal_with_fuel(present, 5);
            }
            assert(refs[0] == gx && refs[1] == gy && refs[2] == z);
            let (issue, agrees) = check_grid(node, grid, z, table);
            if let Some(i) = issue {
                issues.push(i);
            }
            let ghost grid_issues = issues_view(issues@);
            if let Some(c) = c {
                assert(refs[3] == c);
                let cs = &table[known(table, c)].shape;
                let zs = &table[known(table, z)].shape;
                if !same_shape(cs, zs) {
                    let mut message = owned("the colour data has shape ");
                    push_list(&mut message, cs);
                    message.append(", but the field has shape ");
                    push_list(&mut message, zs);
                    proof {
                        reveal_strlit("the colour data has shape ");
                        reveal_strlit(", but the field has shape ");
                    }
                    issues.push(ValidationIssue { node: Some(node), kind: IssueKind::ShapeMismatch, message });
                    assert(issues_view(issues@) =~= grid_issues.push(issue_view(issues@.last())));
                    return (issues, false);
                }
            }
            (issues, agrees)
        },
        ArtistData::Image { .. } | ArtistData::IndexedImage { .. } | ArtistData::MappedImage { .. } => (issues, true),
        ArtistData::Line { x, y, z } => {
            let arrays = vec![Some(x), Some(y), z];
            assert(present(arrays@) == refs);
            let (issue, agrees) = check_equal_counts(node, "the coordinate arrays", &arrays, table);
            if let Some(i) = issue {
                issues.push(i);
            }
            assert(issues_view(issues@) =~= spec_shapes(node, table@, *artist).0);
            (issues, agrees)
        },
        ArtistData::Scatter { x, y, z, size, color } => {
            let arrays = vec![Some(x), Some(y), z, size, color];
            assert(present(arrays@) == refs);
            let (issue, agrees) = check_equal_counts(node, "the coordinate, size and colour arrays", &arrays, table);
            if let Some(i) = issue {
                issues.push(i);
            }
            assert(issues_view(issues@) =~= spec_shapes(node, table@, *artist).0);
            (issues, agrees)
        },
        ArtistData::Quiver { x, y, z, u, v, w } => {
            let arrays = vec![Some(x), Some(y), z, Some(u), Some(v), w];
            assert(present(arrays@) == refs);
            let (issue, agrees) = check_equal_counts(node, "the position and component arrays", &arrays, table);
            if let Some(i) = issue {
                issues.push(i);
            }
            assert(issues_view(issues@) =~= spec_shapes(node, table@, *artist).0);
            (issues, agrees)
        },
    }
}


/// The array whose shape tells whether an artist other than an image has anything to
/// draw, with how messages name it: the x data of a line, scatter or quiver, and the
/// field of a contour or surface.
pub open spec fn drawn_array(artist: ArtistData) -> Option<(Seq<char>, DataId)> {
    match artist {
        ArtistData::Line { x, .. } => Some(("the coordinate arrays"@, x)),
        ArtistData::Scatter { x, .. } => Some(("the coordinate arrays"@, x)),
        ArtistData::Quiver { x, .. } => Some(("the position arrays"@, x)),
        ArtistData::Contour { z, .. } => Some(("the field"@, z)),
        ArtistData::Surface { z, .. } => Some(("the field"@, z)),
        _ => None,
    }
}

/// The description of a grid of `ny` rows and `nx` columns without a cell, as
/// [`nodes_without_cells`] gives it.
pub open spec fn spec_without_cells(ny: usize, nx: usize) -> Option<Seq<char>> {
    if ny == 0 && nx == 0 {
        Some("has no rows and no columns"@)
    } else if ny == 0 {
        Some("has no rows"@)
    } else if nx == 0 {
        Some("has no columns"@)
    } else if ny == 1 && nx == 1 {
        Some("has a single node"@)
    } else if ny == 1 {
        Some("has a single row of nodes"@)
    } else if nx == 1 {
        Some("has a single column of nodes"@)
    } else {
        None
    }
}

/// The warning of an artist whose arrays, which exist and agree in shape, give it
/// nothing to draw: a line, scatter or quiver of no points, or a contour or surface
/// whose two-dimensional field has no cell between its nodes.
pub open spec fn spec_nothing_to_draw(table: Seq<ArrayShape>, artist: ArtistData) -> Option<Seq<char>> {
    match drawn_array(artist) {
        None => None,
        Some((what, id)) => {
            let shape = array_of(table, id).shape@;
            if artist is Contour || artist is Surface {
                if shape.len() == 2 && spec_without_cells(shape[0], shape[1]) is Some {
                    Some(what + " has shape "@ + list_text(shape) + ": it "@ + spec_without_cells(shape[0], shape[1])->Some_0
                        + ", and a contour or surface draws the cells between the nodes of its grid, of which there is none, so the artist is left out of the drawing"@)
                } else {
                    None
                }
            } else if shape_product(shape) > 0 {
                None
            } else {
                Some(what + " have shape "@ + list_text(shape) + ", so the artist has no points and is left out of the drawing"@)
            }
        },
    }
}

/// Returns the warning of an artist other than an image whose arrays, which exist and
/// agree in shape, give it nothing to draw, or `None`.
pub fn check_something_to_draw(node: NodeId, artist: &ArtistData, table: &Vec<ArrayShape>) -> (r: Option<ValidationIssue>)
    requires
        drawn_array(*artist) matches Some((_, id)) ==> find_array(table@, id) >= 0,
    ensures
        r is Some <==> spec_nothing_to_draw(table@, *artist) is Some,
        r matches Some(i) ==> issue_view(i) == (Some(node), IssueKind::NothingToDraw, spec_nothing_to_draw(table@, *artist)->Some_0),
{
    let (what, id, grid_field) = match *artist {
        ArtistData::Line { x, .. } => ("the coordinate arrays", x, false),
        ArtistData::Scatter { x, .. } => ("the coordinate arrays", x, false),
        ArtistData::Quiver { x, .. } => ("the position arrays", x, false),
        ArtistData::Contour { z, .. } => ("the field", z, true),
        ArtistData::Surface { z, .. } => ("the field", z, true),
        ArtistData::Image { .. } | ArtistData::IndexedImage { .. } | ArtistData::MappedImage { .. } => {
            return None;
        },
    };
    let shape = &table[known(table, id)].shape;
    let mut message = owned(what);
    if grid_field {
        if shape.len() != 2 {
            return None;
        }
        let case = match nodes_without_cells(shape[0], shape[1]) {
            Some(case) => case,
            None => {
                return None;
            },
        };
        message.append(" has shape ");
        push_list(&mut message, shape);
        message.append(": it ");
        message.append(case);
        message.append(", and a contour or surface draws the cells between the nodes of its grid, of which there is none, so the artist is left out of the drawing");
        proof {
            reveal_strlit(" has shape ");
            reveal_strlit(": it ");
            reveal_strlit(", and a contour or surface draws the cells between the nodes of its grid, of which there is none, so the artist is left out of the drawing");
            reveal_strlit("has no rows and no columns");
            reveal_strlit("has no rows");
            reveal_strlit("has no columns");
            reveal_strlit("has a single node");
            reveal_strlit("has a single row of nodes");
            reveal_strlit("has a single column of nodes");
        }
    } else {
        // The product of the dimensions is zero exactly when a dimension is.
        let mut k: usize = 0;
        let mut empty = false;
        while k < shape.len() && !empty
            invariant
                k <= shape@.len(),
                empty ==> shape@.contains(0usize),
                !empty ==> forall|j: int| 0 <= j < k ==> shape@[j] != 0usize,
            decreases shape.len() - k, if empty { 0int } else { 1int },
        {
            if shape[k] == 0 {
                assert(shape@[k as int] == 0usize);
                empty = true;
            } else {
                k = k + 1;
            }
        }
        proof {
            crate::data::lemma_checked_product(shape@);
        }
        if !empty {
            return None;
        }
        message.append(" have shape ");
        push_list(&mut message, shape);
        message.append(", so the artist has no points and is left out of the drawing");
        proof {
            reveal_strlit(" have shape ");
            reveal_strlit(", so the artist has no points and is left out of the drawing");
        }
    }
    Some(ValidationIssue { node: Some(node), kind: IssueKind::NothingToDraw, message })
}

proof fn lemma_present_prefix(v: Seq<Option<DataId>>, id: DataId)
    requires
        v.len() > 0,
        v[0] == Some(id),
    ensures
        present(v).contains(id),
    decreases v.len(),
{
    if v.len() == 1 {
        assert(v.drop_last().len() == 0);
        assert(present(v) == present(v.drop_last()).push(id));
        assert(present(v)[0] == id);
    } else {
        let rest = v.drop_last();
        assert(rest[0] == v[0]);
        lemma_present_prefix(rest, id);
        let j = choose|j: int| 0 <= j < present(rest).len() && present(rest)[j] == id;
        match v.last() {
            Some(last) => assert(present(v)[j] == id),
            None => assert(present(v)[j] == id),
        }
    }
}

/// The array whose shape tells whether an artist has anything to draw is one it refers
/// to.
proof fn lemma_drawn_referenced(artist: ArtistData)
    ensures
        drawn_array(artist) matches Some((_, id)) ==> spec_usage(artist).0.contains(id),
{
    match artist {
        ArtistData::Line { x, y, z } => lemma_present_prefix(seq![Some(x), Some(y), z], x),
        ArtistData::Scatter { x, y, z, size, color } => lemma_present_prefix(seq![Some(x), Some(y), z, size, color], x),
        ArtistData::Quiver { x, y, z, u, v, w } => lemma_present_prefix(seq![Some(x), Some(y), z, Some(u), Some(v), w], x),
        ArtistData::Contour { grid, z, at_level } => {
            let r = spec_usage(artist).0;
            assert(r[2] == z);
        },
        ArtistData::Surface { grid, z, c } => {
            let (gx, gy) = spec_grid_data(grid);
            let v = seq![Some(gx), Some(gy), Some(z), c];
            lemma_present_prefix(v.drop_last().drop_first().drop_first(), z);
            lemma_present_tail(v, z);
        },
        _ => {},
    }
}

/// An identifier present in the first entries of a list is present in the list.
proof fn lemma_present_tail(v: Seq<Option<DataId>>, id: DataId)
    requires
        v.len() == 4,
        v[2] == Some(id),
    ensures
        present(v).contains(id),
{
    reveal_with_fuel(present, 5);
    let p3 = present(v.drop_last());
    assert(v.drop_last().drop_last().drop_last().drop_last().len() == 0);
    assert(v.drop_last().last() == Some(id));
    assert(p3 == present(v.drop_last().drop_last()).push(id));
    assert(p3.contains(id)) by {
        assert(p3[p3.len() - 1] == id);
    }
    let j = choose|j: int| 0 <= j < p3.len() && p3[j] == id;
    match v.last() {
        Some(last) => assert(present(v)[j] == id),
        None => assert(present(v)[j] == id),
    }
}

/// The message of an artist that needs the z axis in an axes without one.
pub open spec fn three_d_message() -> Seq<char> {
    "a three-dimensional artist is placed in a two-dimensional axes"@
}

/// What the data table decides of an artist: its errors (a three-dimensional artist in
/// a two-dimensional axes, its references, and, when they are valid, the shapes of its
/// arrays) and its warnings (an artist other than an image whose valid arrays give it
/// nothing to draw).
pub open spec fn spec_artist_issues(node: NodeId, three_d_axes: bool, artist: ArtistData, table: Seq<ArrayShape>) -> (Seq<IssueView>, Seq<IssueView>) {
    let (references, _, three_d, accepts_bytes) = spec_usage(artist);
    let placed = if !three_d_axes && three_d {
        seq![(Some(node), IssueKind::ThreeDArtistInTwoDAxes, three_d_message())]
    } else {
        seq![]
    };
    let errors = placed + spec_reference_issues(node, table, accepts_bytes, references);
    let valid = forall|i: int| 0 <= i < references.len() ==> reference_valid(table, accepts_bytes, #[trigger] references[i]);
    let image = artist is Image || artist is IndexedImage || artist is MappedImage;
    if !image && valid {
        let (shape_issues, agree) = spec_shapes(node, table, artist);
        (
            errors + shape_issues,
            if agree {
                match spec_nothing_to_draw(table, artist) {
                    Some(m) => seq![(Some(node), IssueKind::NothingToDraw, m)],
                    None => seq![],
                }
            } else {
                seq![]
            },
        )
    } else if image && valid {
        let (id, what, channels) = image_array(artist)->Some_0;
        match spec_image_shape(what, channels, array_of(table, id).shape@) {
            Ok(_) => (errors, seq![]),
            Err(m) => (errors.push((Some(node), IssueKind::ShapeMismatch, m)), seq![]),
        }
    } else {
        (errors, seq![])
    }
}

/// Returns the errors and the warnings of an artist that its data table decides: a
/// three-dimensional artist in a two-dimensional axes, its unknown references and its
/// references to 8-bit values that it cannot use, and, when every reference is valid,
/// the shapes of its arrays and, for an artist other than an image, whether they give
/// it anything to draw. Whether an image has pixels to draw is decided once its
/// placement and policies are checked, from the rows and columns that
/// [`check_image_shape`] gives.
///
/// An artist is reported as having nothing to draw only when it is reported for no
/// error of its shapes, so that the error, which is what must be fixed, stands alone.
pub fn check_artist_data(node: NodeId, three_d_axes: bool, artist: &ArtistData, table: &Vec<ArrayShape>) -> (r: (Vec<ValidationIssue>, Vec<ValidationIssue>))
    ensures
        (issues_view(r.0@), issues_view(r.1@)) == spec_artist_issues(node, three_d_axes, *artist, table@),
{
    let usage = ArtistUsage::of(artist);
    let mut errors: Vec<ValidationIssue> = Vec::new();
    let mut warnings: Vec<ValidationIssue> = Vec::new();
    if !three_d_axes && usage.three_d {
        proof {
            reveal_strlit("a three-dimensional artist is placed in a two-dimensional axes");
        }
        errors.push(ValidationIssue {
            node: Some(node),
            kind: IssueKind::ThreeDArtistInTwoDAxes,
            message: owned("a three-dimensional artist is placed in a two-dimensional axes"),
        });
    }
    let ghost placed = issues_view(errors@);
    let (mut reference_issues, valid) = check_references(node, &usage.references, usage.accepts_bytes, table);
    let ghost references = issues_view(reference_issues@);
    errors.append(&mut reference_issues);
    assert(issues_view(errors@) =~= placed + references);
    let image = match artist {
        ArtistData::Image { .. } | ArtistData::IndexedImage { .. } | ArtistData::MappedImage { .. } => true,
        _ => false,
    };
    if image && valid {
        proof {
            let id = image_array(*artist)->Some_0.0;
            assert(usage.references@[0] == id);
            assert(reference_valid(table@, usage.accepts_bytes, usage.references@[0]));
        }
        let ghost before = issues_view(errors@);
        if let Err(issue) = check_image_shape(node, artist, table) {
            errors.push(issue);
            assert(issues_view(errors@) =~= before.push(issue_view(issue)));
        }
    }
    if !image && valid {
        proof {
            assert forall|i: int| 0 <= i < usage.references@.len() implies find_array(table@, #[trigger] usage.references@[i]) >= 0 by {
                assert(reference_valid(table@, usage.accepts_bytes, usage.references@[i]));
            }
            lemma_drawn_referenced(*artist);
            match drawn_array(*artist) {
                Some((_, id)) => {
                    let i = choose|i: int| 0 <= i < usage.references@.len() && usage.references@[i] == id;
                    assert(reference_valid(table@, usage.accepts_bytes, usage.references@[i]));
                },
                None => {},
            }
        }
        let ghost before = issues_view(errors@);
        let (mut shape_issues, agree) = check_shapes(node, artist, table);
        let ghost shapes = issues_view(shape_issues@);
        errors.append(&mut shape_issues);
        assert(issues_view(errors@) =~= before + shapes);
        if agree {
            if let Some(w) = check_something_to_draw(node, artist, table) {
                warnings.push(w);
                assert(issues_view(warnings@) =~= seq![issue_view(w)]);
            }
        }
    }
    (errors, warnings)
}


/// The array of an image, how messages name it, and whether it holds the colour
/// components of each pixel along a third dimension, as the pixels of a true-colour
/// image do; `None` for an artist that is not an image.
pub open spec fn image_array(artist: ArtistData) -> Option<(DataId, Seq<char>, bool)> {
    match artist {
        ArtistData::Image { pixels, .. } => Some((pixels, "pixels"@, true)),
        ArtistData::IndexedImage { indices, .. } => Some((indices, "indices"@, false)),
        ArtistData::MappedImage { values, .. } => Some((values, "values"@, false)),
        _ => None,
    }
}

/// The rows and columns of pixels of an image whose array has the shape its kind
/// requires, or the message of the error: a true-colour image needs three dimensions,
/// the last of 3 or 4 colour components, and the other kinds need two.
pub open spec fn spec_image_shape(what: Seq<char>, channels: bool, shape: Seq<usize>) -> Result<(usize, usize), Seq<char>> {
    if channels {
        if shape.len() == 3 && (shape[2] == 3 || shape[2] == 4) {
            Ok((shape[0], shape[1]))
        } else {
            Err("the pixels have shape "@ + list_text(shape)
                + ", but they must be a three-dimensional array whose last dimension holds the 3 or 4 colour components of a pixel"@)
        }
    } else if shape.len() == 2 {
        Ok((shape[0], shape[1]))
    } else {
        Err("the "@ + what + " have shape "@ + list_text(shape) + ", but they must be two-dimensional"@)
    }
}

/// Returns the array of an image, how messages name it, and whether it holds colour
/// components, or `None` for an artist that is not an image.
pub fn image_array_of(artist: &ArtistData) -> (r: Option<(DataId, &'static str, bool)>)
    ensures
        match image_array(*artist) {
            Some((id, what, channels)) => r matches Some(v) && v.0 == id && v.1@ == what && v.2 == channels,
            None => r is None,
        },
{
    proof {
        reveal_strlit("pixels");
        reveal_strlit("indices");
        reveal_strlit("values");
    }
    match *artist {
        ArtistData::Image { pixels, .. } => Some((pixels, "pixels", true)),
        ArtistData::IndexedImage { indices, .. } => Some((indices, "indices", false)),
        ArtistData::MappedImage { values, .. } => Some((values, "values", false)),
        _ => None,
    }
}

/// Returns the rows and columns of pixels of an image whose array has the shape its
/// kind requires, or the error of one that does not.
pub fn check_image_shape(node: NodeId, artist: &ArtistData, table: &Vec<ArrayShape>) -> (r: Result<(usize, usize), ValidationIssue>)
    requires
        image_array(*artist) matches Some((id, _, _)) && find_array(table@, id) >= 0,
    ensures
        ({
            let (id, what, channels) = image_array(*artist)->Some_0;
            match spec_image_shape(what, channels, array_of(table@, id).shape@) {
                Ok(rows_cols) => r == Ok::<(usize, usize), ValidationIssue>(rows_cols),
                Err(message) => r matches Err(i) && issue_view(i) == (Some(node), IssueKind::ShapeMismatch, message),
            }
        }),
{
    let (id, what, channels) = match image_array_of(artist) {
        Some(v) => v,
        None => (DataId(0), "", false),
    };
    let shape = &table[known(table, id)].shape;
    if channels {
        if shape.len() == 3 && (shape[2] == 3 || shape[2] == 4) {
            return Ok((shape[0], shape[1]));
        }
        let mut message = owned("the pixels have shape ");
        push_list(&mut message, shape);
        message.append(", but they must be a three-dimensional array whose last dimension holds the 3 or 4 colour components of a pixel");
        proof {
            reveal_strlit("the pixels have shape ");
            reveal_strlit(", but they must be a three-dimensional array whose last dimension holds the 3 or 4 colour components of a pixel");
        }
        return Err(ValidationIssue { node: Some(node), kind: IssueKind::ShapeMismatch, message });
    }
    if shape.len() == 2 {
        return Ok((shape[0], shape[1]));
    }
    let mut message = owned("the ");
    message.append(what);
    message.append(" have shape ");
    push_list(&mut message, shape);
    message.append(", but they must be two-dimensional");
    proof {
        reveal_strlit("the ");
        reveal_strlit(" have shape ");
        reveal_strlit(", but they must be two-dimensional");
    }
    Err(ValidationIssue { node: Some(node), kind: IssueKind::ShapeMismatch, message })
}

/// What an image of `ny` rows and `nx` columns of pixels lacks, when it has no pixel.
pub open spec fn spec_missing_pixels(ny: usize, nx: usize) -> Option<Seq<char>> {
    if ny == 0 && nx == 0 {
        Some("no rows and no columns"@)
    } else if ny == 0 {
        Some("no rows"@)
    } else if nx == 0 {
        Some("no columns"@)
    } else {
        None
    }
}

/// The warning of an image with no pixel to draw, as the shape of its array gives it.
pub open spec fn spec_image_nothing_to_draw(what: Seq<char>, shape: Seq<usize>, ny: usize, nx: usize) -> Option<Seq<char>> {
    match spec_missing_pixels(ny, nx) {
        Some(case) => Some("the "@ + what + " have shape "@ + list_text(shape) + ", so the image has "@ + case
            + " of pixels and is left out of the drawing"@),
        None => None,
    }
}

/// Returns the warning of an image, against which no error was reported, that has no
/// row or no column of pixels, as [`check_image_shape`] found them, or `None`.
pub fn check_image_pixels(node: NodeId, artist: &ArtistData, table: &Vec<ArrayShape>, ny: usize, nx: usize) -> (r: Option<ValidationIssue>)
    requires
        image_array(*artist) matches Some((id, _, _)) && find_array(table@, id) >= 0,
    ensures
        ({
            let (id, what, _) = image_array(*artist)->Some_0;
            let expected = spec_image_nothing_to_draw(what, array_of(table@, id).shape@, ny, nx);
            &&& r is Some <==> expected is Some
            &&& r matches Some(i) ==> issue_view(i) == (Some(node), IssueKind::NothingToDraw, expected->Some_0)
        }),
{
    let (id, what, _) = match image_array_of(artist) {
        Some(v) => v,
        None => (DataId(0), "", false),
    };
    proof {
        reveal_strlit("no rows and no columns");
        reveal_strlit("no rows");
        reveal_strlit("no columns");
    }
    let case = if ny == 0 && nx == 0 {
        "no rows and no columns"
    } else if ny == 0 {
        "no rows"
    } else if nx == 0 {
        "no columns"
    } else {
        return None;
    };
    let shape = &table[known(table, id)].shape;
    let mut message = owned("the ");
    message.append(what);
    message.append(" have shape ");
    push_list(&mut message, shape);
    message.append(", so the image has ");
    message.append(case);
    message.append(" of pixels and is left out of the drawing");
    proof {
        reveal_strlit("the ");
        reveal_strlit(" have shape ");
        reveal_strlit(", so the image has ");
        reveal_strlit(" of pixels and is left out of the drawing");
    }
    Some(ValidationIssue { node: Some(node), kind: IssueKind::NothingToDraw, message })
}

} // verus!
