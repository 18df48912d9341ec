//! The outcome of structural validation of figures, and the wording of its messages.

use vstd::prelude::*;

use crate::axes::Cell;
use crate::data::{shape_product, NdArrayElement};
use crate::figure::TileLayout;
use crate::ids::{data_text, node_text, DataId, NodeId};
use crate::link::{contains_id, AxisLink, Dimension};
use crate::text::owned;
use crate::textfmt::{decimal, push_decimal};

verus! {

/// The outcome of validating a figure.
#[derive(Debug, Clone, Default, PartialEq, Eq)]
pub struct ValidationReport {
    /// Problems that prevent the figure from being drawn as described.
    pub errors: Vec<ValidationIssue>,
    /// Problems that are tolerated, for example by omitting some data from drawing.
    pub warnings: Vec<ValidationIssue>,
}

impl ValidationReport {
    /// Returns true when the report contains no errors.
    pub fn is_valid(&self) -> (r: bool)
        ensures
            r == (self.errors@.len() == 0),
    {
        self.errors.len() == 0
    }
}

/// A single problem found by validation.
#[derive(Debug, Clone, PartialEq, Eq)]
pub struct ValidationIssue {
    /// The node at which the problem was found, if the problem belongs to a node.
    pub node: Option<NodeId>,
    /// The category of the problem.
    pub kind: IssueKind,
    /// A human-readable description of the problem.
    pub message: String,
}

/// The category of a validation problem.
#[derive(Debug, Clone, Copy, PartialEq, Eq, Hash, Structural)]
pub enum IssueKind {
    /// An artist refers to a data identifier that is not in the data table.
    UnknownData,
    /// An array's number of values differs from the product of its shape.
    InvalidArray,
    /// The arrays referenced by an artist have inconsistent lengths or shapes.
    ShapeMismatch,
    /// An artist refers to an array whose element type it cannot use: every artist
    /// other than an image requires 64-bit floating-point values, so such an artist
    /// cannot plot an array of 8-bit values. The three image kinds accept either
    /// element type.
    ElementTypeMismatch,
    /// An artist or placement that needs the z axis (z or w data, contours at their
    /// level, an image on a wall) is used in a two-dimensional axes. A surface is not
    /// such an artist: in a two-dimensional axes it is seen from directly above.
    ThreeDArtistInTwoDAxes,
    /// An axis link refers to an identifier that is not an axes of the figure.
    DanglingLink,
    /// Two nodes share an identifier.
    DuplicateNodeId,
    /// An axes cell lies outside the figure's tile layout or has a zero span.
    CellOutOfLayout,
    /// The figure's width, height or base font size is not a finite positive number.
    InvalidSize,
    /// Manual limits (of a coordinate axis or of the colour limits) are not finite,
    /// are not strictly increasing, or are not positive on a logarithmic axis.
    InvalidLimits,
    /// Contour levels are empty, not finite or not strictly increasing, or an
    /// automatic level count is zero.
    InvalidLevels,
    /// Data plotted along a logarithmic axis contains finite values less than or
    /// equal to zero, which are not drawn.
    NonPositiveOnLogAxis,
    /// An artist whose data gives it nothing to draw, so that it is left out of the
    /// drawing: a line, scatter or quiver of no points; an image of any kind with no rows
    /// or no columns; or a contour or surface whose field has no rows or no columns, or a
    /// single row or a single column (values, but no cell between nodes to draw them in).
    /// This is a warning, not an error, because empty and singleton data are valid.
    NothingToDraw,
    /// A figure parameter has an empty name, or is a number that is not finite.
    InvalidParameter,
    /// A figure label is empty, or occurs more than once.
    InvalidLabel,
    /// The placement of an image cannot be drawn: a pixel centre or the offset of its
    /// plane is not finite, or the centres of the first and last pixels along an axis
    /// coincide although the image has more than one pixel along that axis.
    InvalidImagePlacement,
    /// A pixel of a colour-indexed or colour-mapped image falls in a category whose
    /// out-of-range policy is strict.
    PixelOutOfRange,
    /// An image lies in a plane of which an axis is logarithmic, or its plane is offset
    /// to a non-positive coordinate along a logarithmic third axis, so the image is not
    /// drawn.
    ImageOnLogAxis,
}

/// Describes a grid of `ny` rows and `nx` columns of nodes that has no cell between its
/// nodes, as messages write it, or returns `None` for a grid with a cell.
pub fn nodes_without_cells(ny: usize, nx: usize) -> (r: Option<&'static str>)
    ensures
        r is None <==> (ny >= 2 && nx >= 2),
        ny == 0 && nx == 0 ==> (r matches Some(s) && s@ == "has no rows and no columns"@),
        ny == 0 && nx != 0 ==> (r matches Some(s) && s@ == "has no rows"@),
        ny != 0 && nx == 0 ==> (r matches Some(s) && s@ == "has no columns"@),
        ny == 1 && nx == 1 ==> (r matches Some(s) && s@ == "has a single node"@),
        ny == 1 && nx >= 2 ==> (r matches Some(s) && s@ == "has a single row of nodes"@),
        ny >= 2 && nx == 1 ==> (r matches Some(s) && s@ == "has a single column of nodes"@),
{
    if ny == 0 && nx == 0 {
        Some("has no rows and no columns")
    } else if ny == 0 {
        Some("has no rows")
    } else if nx == 0 {
        Some("has no columns")
    } else if ny == 1 && nx == 1 {
        Some("has a single node")
    } else if ny == 1 {
        Some("has a single row of nodes")
    } else if nx == 1 {
        Some("has a single column of nodes")
    } else {
        None
    }
}

/// The name of a dimension as messages write it.
pub open spec fn spec_dimension_name(dimension: Dimension) -> Seq<char> {
    match dimension {
        Dimension::X => "x"@,
        Dimension::Y => "y"@,
        Dimension::Z => "z"@,
    }
}

/// Returns the name of a dimension as messages write it.
pub fn dimension_name(dimension: Dimension) -> (r: &'static str)
    ensures
        r@ == spec_dimension_name(dimension),
{
    match dimension {
        Dimension::X => "x",
        Dimension::Y => "y",
        Dimension::Z => "z",
    }
}

/// An issue as plain values: its node, its kind and its message.
pub type IssueView = (Option<NodeId>, IssueKind, Seq<char>);

pub open spec fn issue_view(i: ValidationIssue) -> IssueView {
    (i.node, i.kind, i.message@)
}

pub open spec fn issues_view(v: Seq<ValidationIssue>) -> Seq<IssueView> {
    v.map_values(|i: ValidationIssue| issue_view(i))
}

/// How Rust's `Debug` formatting quotes a string: between double quotes, with quotes,
/// backslashes and characters that are not printable escaped.
pub uninterp spec fn debug_text(s: Seq<char>) -> Seq<char>;

/// Returns a string quoted as Rust's `Debug` formatting quotes it.
///
/// Calls `format!` with `{:?}`, which std documents as writing the string between
/// double quotes with its special characters escaped; the contract names the result as
/// a function of the string alone.
#[verifier::external_body]
pub(crate) fn debug_quoted(s: &str) -> (r: String)
    ensures
        r@ == debug_text(s@),
{
    format!("{s:?}")
}

/// The message of an empty label at a zero-based position, which names the label by
/// its position counted from one.
pub open spec fn empty_label_message(position: nat) -> Seq<char> {
    "the label in position "@ + decimal(position + 1) + " is empty"@
}

/// The message of a label that occurs again.
pub open spec fn repeated_label_message(label: Seq<char>) -> Seq<char> {
    "the label "@ + debug_text(label) + " occurs more than once"@
}

/// The issues of the labels of a figure, in order: each empty label, and each label
/// equal to an earlier one. Labels are compared exactly, so labels that differ only in
/// case are distinct.
pub open spec fn spec_label_issues(figure: NodeId, labels: Seq<Seq<char>>) -> Seq<IssueView>
    decreases labels.len(),
{
    if labels.len() == 0 {
        seq![]
    } else {
        let earlier = spec_label_issues(figure, labels.drop_last());
        let label = labels.last();
        if label.len() == 0 {
            earlier.push((Some(figure), IssueKind::InvalidLabel, empty_label_message((labels.len() - 1) as nat)))
        } else if labels.drop_last().contains(label) {
            earlier.push((Some(figure), IssueKind::InvalidLabel, repeated_label_message(label)))
        } else {
            earlier
        }
    }
}

/// The errors of the parameters of a figure, in the order of their names: one for each
/// parameter whose name is empty.
pub open spec fn spec_parameter_name_issues(figure: NodeId, names: Seq<Seq<char>>) -> Seq<IssueView>
    decreases names.len(),
{
    if names.len() == 0 {
        seq![]
    } else {
        let earlier = spec_parameter_name_issues(figure, names.drop_last());
        if names.last().len() == 0 {
            earlier.push((Some(figure), IssueKind::InvalidParameter, "a parameter has an empty name"@))
        } else {
            earlier
        }
    }
}

/// Returns the errors of the parameters of a figure, given by their names in order: a
/// parameter with an empty name is an error. Whether the value of a numeric parameter
/// is finite is checked with the value.
pub fn parameter_name_issues(figure: NodeId, names: &Vec<String>) -> (r: Vec<ValidationIssue>)
    ensures
        issues_view(r@) == spec_parameter_name_issues(figure, crate::textfmt::string_views(names@)),
{
    let ghost views = crate::textfmt::string_views(names@);
    let mut r: Vec<ValidationIssue> = Vec::new();
    let mut i: usize = 0;
    while i < names.len()
        invariant
            i <= names@.len(),
            views == crate::textfmt::string_views(names@),
            issues_view(r@) == spec_parameter_name_issues(figure, views.take(i as int)),
        decreases names.len() - i,
    {
        assert(views.take(i + 1).drop_last() =~= views.take(i as int));
        assert(views.take(i + 1).last() == names@[i as int]@);
        if names[i].as_str().unicode_len() == 0 {
            proof {
                reveal_strlit("a parameter has an empty name");
            }
            let issue = ValidationIssue {
                node: Some(figure),
                kind: IssueKind::InvalidParameter,
                message: owned("a parameter has an empty name"),
            };
            let ghost before = r@;
            r.push(issue);
            assert(issues_view(r@) =~= issues_view(before).push(issue_view(issue)));
        }
        i = i + 1;
    }
    assert(views.take(i as int) =~= views);
    r
}

/// Returns the errors of the labels of a figure: each label that is empty, and each
/// label that occurs more than once, at its second and later occurrences.
pub fn label_issues(figure: NodeId, labels: &Vec<String>) -> (r: Vec<ValidationIssue>)
    ensures
        issues_view(r@) == spec_label_issues(figure, crate::textfmt::string_views(labels@)),
{
    let ghost views = crate::textfmt::string_views(labels@);
    let mut r: Vec<ValidationIssue> = Vec::new();
    let mut i: usize = 0;
    while i < labels.len()
        invariant
            i <= labels@.len(),
            views == crate::textfmt::string_views(labels@),
            issues_view(r@) == spec_label_issues(figure, views.take(i as int)),
        decreases labels.len() - i,
    {
        let label = labels[i].as_str();
        assert(views.take(i + 1).drop_last() =~= views.take(i as int));
        assert(views.take(i + 1).last() == label@);
        let ghost before = r@;
        if label.unicode_len() == 0 {
            let mut message = owned("the label in position ");
            push_decimal(&mut message, i as u64 + 1);
            message.append(" is empty");
            proof {
                reveal_strlit("the label in position ");
                reveal_strlit(" is empty");
            }
            r.push(ValidationIssue { node: Some(figure), kind: IssueKind::InvalidLabel, message });
            assert(issues_view(r@) =~= issues_view(before).push(issue_view(r@.last())));
        } else {
            let mut repeated = false;
            let mut k: usize = 0;
            while k < i && !repeated
                invariant
                    k <= i,
                    i < labels@.len(),
                    views == crate::textfmt::string_views(labels@),
                    label@ == views[i as int],
                    repeated ==> views.take(i as int).contains(label@),
                    !repeated ==> forall|m: int| 0 <= m < k ==> views[m] != label@,
                decreases i - k, if repeated { 0int } else { 1int },
            {
                if crate::textfmt::str_eq(labels[k].as_str(), label) {
                    assert(views.take(i as int)[k as int] == label@);
                    repeated = true;
                } else {
                    k = k + 1;
                }
            }
            if repeated {
                let mut message = owned("the label ");
                message.append(debug_quoted(label).as_str());
                message.append(" occurs more than once");
                proof {
                    reveal_strlit("the label ");
                    reveal_strlit(" occurs more than once");
                }
                r.push(ValidationIssue { node: Some(figure), kind: IssueKind::InvalidLabel, message });
                assert(issues_view(r@) =~= issues_view(before).push(issue_view(r@.last())));
            } else {
                assert(!views.take(i as int).contains(label@)) by {
                    if views.take(i as int).contains(label@) {
                        let m = choose|m: int| 0 <= m < i && views.take(i as int)[m] == label@;
                        assert(views[m] == label@);
                    }
                }
            }
        }
        i = i + 1;
    }
    assert(views.take(i as int) =~= views);
    r
}

/// How many times an identifier occurs in a list.
pub open spec fn id_count(ids: Seq<NodeId>, x: NodeId) -> nat
    decreases ids.len(),
{
    if ids.len() == 0 {
        0
    } else {
        id_count(ids.drop_last(), x) + if ids.last() == x { 1nat } else { 0nat }
    }
}

/// The message of an identifier that several nodes share.
pub open spec fn shared_id_message(count: nat, id: NodeId) -> Seq<char> {
    decimal(count) + " nodes share the identifier of "@ + node_text(id)
}

/// Whether the issues of a list of node identifiers are those of the identifiers that
/// occur more than once, one for each, in ascending order of identifier.
pub open spec fn reports_shared_ids(ids: Seq<NodeId>, issues: Seq<IssueView>) -> bool {
    &&& forall|k: int| 0 <= k < issues.len() ==> {
        &&& (#[trigger] issues[k]).0 is Some
        &&& issues[k].1 == IssueKind::DuplicateNodeId
        &&& id_count(ids, issues[k].0->Some_0) > 1
        &&& issues[k].2 == shared_id_message(id_count(ids, issues[k].0->Some_0), issues[k].0->Some_0)
    }
    &&& forall|a: int, b: int| 0 <= a < b < issues.len() ==> (#[trigger] issues[a]).0->Some_0.0 < (#[trigger] issues[b]).0->Some_0.0
    &&& forall|x: NodeId| #[trigger] id_count(ids, x) > 1 ==> exists|k: int| 0 <= k < issues.len() && (#[trigger] issues[k]).0 == Some(x)
}

proof fn lemma_id_count_push(ids: Seq<NodeId>, e: NodeId, x: NodeId)
    ensures
        id_count(ids.push(e), x) == id_count(ids, x) + if e == x { 1nat } else { 0nat },
{
    assert(ids.push(e).drop_last() =~= ids);
}

proof fn lemma_id_count_bound(ids: Seq<NodeId>, x: NodeId)
    ensures
        id_count(ids, x) <= ids.len(),
    decreases ids.len(),
{
    if ids.len() > 0 {
        lemma_id_count_bound(ids.drop_last(), x);
    }
}

/// Returns the errors of the node identifiers of a figure: one for each identifier that
/// several nodes share, in ascending order of identifier, with the number of nodes.
pub fn duplicate_id_issues(ids: &Vec<NodeId>) -> (r: Vec<ValidationIssue>)
    ensures
        reports_shared_ids(ids@, issues_view(r@)),
{
    // The distinct identifiers in ascending order, each with its number of occurrences.
    let mut counts: Vec<(NodeId, usize)> = Vec::new();
    let mut i: usize = 0;
    while i < ids.len()
        invariant
            i <= ids@.len(),
            forall|a: int, b: int| 0 <= a < b < counts@.len() ==> (#[trigger] counts@[a]).0.0 < (#[trigger] counts@[b]).0.0,
            forall|k: int| 0 <= k < counts@.len() ==> (#[trigger] counts@[k]).1 == id_count(ids@.take(i as int), counts@[k].0),
            forall|x: NodeId| #[trigger] id_count(ids@.take(i as int), x) > 0 ==> exists|k: int| 0 <= k < counts@.len() && (#[trigger] counts@[k]).0 == x,
        decreases ids.len() - i,
    {
        let id = ids[i];
        let ghost prefix = ids@.take(i as int);
        assert(ids@.take(i + 1) =~= prefix.push(id));
        proof {
            lemma_id_count_bound(prefix, id);
        }
        let mut p: usize = 0;
        while p < counts.len() && counts[p].0.0 < id.0
            invariant
                p <= counts@.len(),
                forall|k: int| 0 <= k < p ==> (#[trigger] counts@[k]).0.0 < id.0,
            decreases counts.len() - p,
        {
            p = p + 1;
        }
        let ghost before = counts@;
        if p < counts.len() && counts[p].0 == id {
            let c = counts[p].1;
            assert(c == id_count(prefix, id));
            counts.set(p, (id, c + 1));
            assert forall|k: int| 0 <= k < counts@.len() implies (#[trigger] counts@[k]).1 == id_count(ids@.take(i + 1), counts@[k].0) by {
                lemma_id_count_push(prefix, id, counts@[k].0);
                if k != p {
                    assert(counts@[k] == before[k]);
                    assert(before[k].0 != id) by {
                        if k < p {
                        } else {
                            assert(before[p as int].0.0 < before[k].0.0);
                        }
                    }
                }
            }
            assert forall|x: NodeId| #[trigger] id_count(ids@.take(i + 1), x) > 0 implies exists|k: int| 0 <= k < counts@.len() && (#[trigger] counts@[k]).0 == x by {
                lemma_id_count_push(prefix, id, x);
                if x == id {
                    assert(counts@[p as int].0 == x);
                } else {
                    let k = choose|k: int| 0 <= k < before.len() && (#[trigger] before[k]).0 == x;
                    assert(counts@[k].0 == x);
                }
            }
        } else {
            proof {
                if id_count(prefix, id) > 0 {
                    let k = choose|k: int| 0 <= k < before.len() && (#[trigger] before[k]).0 == id;
                    if k < p {
                        assert(before[k].0.0 < id.0);
                    } else if k > p {
                        assert(before[p as int].0.0 < before[k].0.0);
                        assert(before[p as int].0.0 > id.0);
                    }
                }
            }
            counts.insert(p, (id, 1));
            proof {
                before.insert_ensures(p as int, (id, 1usize));
                assert forall|a: int, b: int| 0 <= a < b < counts@.len() implies (#[trigger] counts@[a]).0.0 < (#[trigger] counts@[b]).0.0 by {
                    if b < p {
                    } else if a < p && b == p {
                    } else if a < p {
                        assert(counts@[b] == before[b - 1]);
                    } else if a == p {
                        assert(counts@[b] == before[b - 1]);
                        assert(before[b - 1].0.0 >= id.0);
                        if b - 1 > p {
                            assert(before[p as int].0.0 < before[b - 1].0.0);
                        }
                    } else {
                        assert(counts@[a] == before[a - 1] && counts@[b] == before[b - 1]);
                    }
                }
                assert forall|k: int| 0 <= k < counts@.len() implies (#[trigger] counts@[k]).1 == id_count(ids@.take(i + 1), counts@[k].0) by {
                    lemma_id_count_push(prefix, id, counts@[k].0);
                    if k < p {
                        assert(counts@[k] == before[k]);
                    } else if k > p {
                        assert(counts@[k] == before[k - 1]);
                        assert(before[k - 1].0.0 >= id.0);
                        if before[k - 1].0 == id {
                            assert(k - 1 == p);
                        }
                    }
                }
                assert forall|x: NodeId| #[trigger] id_count(ids@.take(i + 1), x) > 0 implies exists|k: int| 0 <= k < counts@.len() && (#[trigger] counts@[k]).0 == x by {
                    lemma_id_count_push(prefix, id, x);
                    if x == id {
                        assert(counts@[p as int].0 == x);
                    } else {
                        let k = choose|k: int| 0 <= k < before.len() && (#[trigger] before[k]).0 == x;
                        if k < p {
                            assert(counts@[k].0 == x);
                        } else {
                            assert(counts@[k + 1].0 == x);
                        }
                    }
                }
            }
        }
        i = i + 1;
    }
    assert(ids@.take(i as int) =~= ids@);
    let mut r: Vec<ValidationIssue> = Vec::new();
    let mut k: usize = 0;
    let ghost shared = Seq::<int>::empty();
    while k < counts.len()
        invariant
            k <= counts@.len(),
            forall|a: int, b: int| 0 <= a < b < counts@.len() ==> (#[trigger] counts@[a]).0.0 < (#[trigger] counts@[b]).0.0,
            forall|m: int| 0 <= m < counts@.len() ==> (#[trigger] counts@[m]).1 == id_count(ids@, counts@[m].0),
            forall|x: NodeId| #[trigger] id_count(ids@, x) > 0 ==> exists|m: int| 0 <= m < counts@.len() && (#[trigger] counts@[m]).0 == x,
            forall|j: int| 0 <= j < r@.len() ==> {
                &&& (#[trigger] issues_view(r@)[j]).0 is Some
                &&& issues_view(r@)[j].1 == IssueKind::DuplicateNodeId
                &&& id_count(ids@, issues_view(r@)[j].0->Some_0) > 1
                &&& issues_view(r@)[j].2 == shared_id_message(id_count(ids@, issues_view(r@)[j].0->Some_0), issues_view(r@)[j].0->Some_0)
                &&& exists|m: int| 0 <= m < k && counts@[m].0 == issues_view(r@)[j].0->Some_0
            },
            forall|a: int, b: int| 0 <= a < b < r@.len() ==> (#[trigger] issues_view(r@)[a]).0->Some_0.0 < (#[trigger] issues_view(r@)[b]).0->Some_0.0,
            forall|m: int| 0 <= m < k && (#[trigger] counts@[m]).1 > 1 ==> exists|j: int| 0 <= j < r@.len() && issues_view(r@)[j].0 == Some(counts@[m].0),
            forall|j: int, m: int| 0 <= j < r@.len() && k <= m < counts@.len() ==> (#[trigger] issues_view(r@)[j]).0->Some_0.0 < (#[trigger] counts@[m]).0.0,
        decreases counts.len() - k,
    {
        let (id, count) = counts[k];
        if count > 1 {
            let mut message = String::new();
            push_decimal(&mut message, count as u64);
            message.append(" nodes share the identifier of ");
            message.append(id.display().as_str());
            proof {
                reveal_strlit(" nodes share the identifier of ");
            }
            let ghost before = r@;
            r.push(ValidationIssue { node: Some(id), kind: IssueKind::DuplicateNodeId, message });
            proof {
                assert(issues_view(r@) =~= issues_view(before).push(issue_view(r@.last())));
                assert(issues_view(r@)[r@.len() - 1].0 == Some(id));
                assert forall|m: int| 0 <= m < k + 1 && (#[trigger] counts@[m]).1 > 1 implies exists|j: int| 0 <= j < r@.len() && issues_view(r@)[j].0 == Some(counts@[m].0) by {
                    if m < k {
                        let j = choose|j: int| 0 <= j < before.len() && issues_view(before)[j].0 == Some(counts@[m].0);
                        assert(issues_view(r@)[j] == issues_view(before)[j]);
                    } else {
                        assert(issues_view(r@)[r@.len() - 1].0 == Some(counts@[m].0));
                    }
                }
                assert forall|j: int| 0 <= j < r@.len() implies exists|m: int| 0 <= m < k + 1 && counts@[m].0 == (#[trigger] issues_view(r@)[j]).0->Some_0 by {
                    if j < before.len() {
                        assert(issues_view(r@)[j] == issues_view(before)[j]);
                    } else {
                        assert(counts@[k as int].0 == id);
                    }
                }
            }
        }
        k = k + 1;
    }
    proof {
        assert forall|x: NodeId| #[trigger] id_count(ids@, x) > 1 implies exists|j: int| 0 <= j < issues_view(r@).len() && (#[trigger] issues_view(r@)[j]).0 == Some(x) by {
            let m = choose|m: int| 0 <= m < counts@.len() && (#[trigger] counts@[m]).0 == x;
            assert(counts@[m].1 > 1);
        }
    }
    r
}

/// How a dimension is written by Rust's `Debug` formatting.
pub open spec fn dimension_debug(d: Dimension) -> Seq<char> {
    match d {
        Dimension::X => "X"@,
        Dimension::Y => "Y"@,
        Dimension::Z => "Z"@,
    }
}

/// The message of a link member that is not an axes.
pub open spec fn dangling_message(d: Dimension, id: NodeId) -> Seq<char> {
    "a link along "@ + dimension_debug(d) + " refers to "@ + node_text(id) + ", which is not an axes"@
}

/// The issues of the members of one link that are not axes, in order.
pub open spec fn dangling_in(axes: Seq<NodeId>, d: Dimension, members: Seq<NodeId>) -> Seq<IssueView>
    decreases members.len(),
{
    if members.len() == 0 {
        seq![]
    } else {
        let earlier = dangling_in(axes, d, members.drop_last());
        if axes.contains(members.last()) {
            earlier
        } else {
            earlier.push((None, IssueKind::DanglingLink, dangling_message(d, members.last())))
        }
    }
}

/// The issues of every link member that is not an axes, link after link.
pub open spec fn spec_dangling_issues(axes: Seq<NodeId>, links: Seq<AxisLink>) -> Seq<IssueView>
    decreases links.len(),
{
    if links.len() == 0 {
        seq![]
    } else {
        spec_dangling_issues(axes, links.drop_last()) + dangling_in(axes, links.last().dimension, links.last().axes@)
    }
}

/// Returns the errors of the links of a figure: one for every member of a link that is
/// not an axes of the figure.
pub fn dangling_link_issues(axes: &Vec<NodeId>, links: &Vec<AxisLink>) -> (r: Vec<ValidationIssue>)
    ensures
        issues_view(r@) == spec_dangling_issues(axes@, links@),
{
    let mut r: Vec<ValidationIssue> = Vec::new();
    let mut i: usize = 0;
    while i < links.len()
        invariant
            i <= links@.len(),
            issues_view(r@) == spec_dangling_issues(axes@, links@.take(i as int)),
        decreases links.len() - i,
    {
        let link = &links[i];
        assert(links@.take(i + 1).drop_last() =~= links@.take(i as int));
        assert(links@.take(i + 1).last() == *link);
        let ghost start = issues_view(r@);
        let mut k: usize = 0;
        while k < link.axes.len()
            invariant
                k <= link.axes@.len(),
                issues_view(r@) == start + dangling_in(axes@, link.dimension, link.axes@.take(k as int)),
            decreases link.axes.len() - k,
        {
            let id = link.axes[k];
            assert(link.axes@.take(k + 1).drop_last() =~= link.axes@.take(k as int));
            assert(link.axes@.take(k + 1).last() == id);
            if !contains_id(axes, id) {
                let mut message = owned("a link along ");
                message.append(match link.dimension {
                    Dimension::X => "X",
                    Dimension::Y => "Y",
                    Dimension::Z => "Z",
                });
                message.append(" refers to ");
                message.append(id.display().as_str());
                message.append(", which is not an axes");
                proof {
                    reveal_strlit("a link along ");
                    reveal_strlit(" refers to ");
                    reveal_strlit(", which is not an axes");
                }
                let ghost before = r@;
                r.push(ValidationIssue { node: None, kind: IssueKind::DanglingLink, message });
                assert(issues_view(r@) =~= issues_view(before).push(issue_view(r@.last())));
            }
            k = k + 1;
        }
        assert(link.axes@.take(k as int) =~= link.axes@);
        i = i + 1;
    }
    assert(links@.take(i as int) =~= links@);
    r
}

/// What validation reads of an array of the figure's data table: its identifier, its
/// element type, its shape and its number of values.
pub struct ArrayShape {
    /// The identifier of the array.
    pub id: DataId,
    /// The element type of its values.
    pub element: NdArrayElement,
    /// The length of each dimension.
    pub shape: Vec<usize>,
    /// The number of values the array holds.
    pub len: usize,
}

/// How a list of numbers is written by Rust's `Debug` formatting: `[2, 3]`.
pub open spec fn list_text(v: Seq<usize>) -> Seq<char> {
    "["@ + list_items(v) + "]"@
}

/// The numbers of a list separated by `, `.
pub open spec fn list_items(v: Seq<usize>) -> Seq<char>
    decreases v.len(),
{
    if v.len() == 0 {
        seq![]
    } else if v.len() == 1 {
        decimal(v[0] as nat)
    } else {
        list_items(v.drop_last()) + ", "@ + decimal(v.last() as nat)
    }
}

/// The message of an array whose values do not fill its shape.
pub open spec fn inconsistent_message(a: (DataId, Seq<usize>, usize)) -> Seq<char> {
    data_text(a.0) + " has "@ + decimal(a.2 as nat) + " values, which does not match its shape "@ + list_text(a.1)
}

/// The issues of the arrays whose number of values is not the product of their shape,
/// in order.
pub open spec fn spec_array_issues(arrays: Seq<(DataId, Seq<usize>, usize)>) -> Seq<IssueView>
    decreases arrays.len(),
{
    if arrays.len() == 0 {
        seq![]
    } else {
        let earlier = spec_array_issues(arrays.drop_last());
        let a = arrays.last();
        if shape_product(a.1) == a.2 as nat {
            earlier
        } else {
            earlier.push((None, IssueKind::InvalidArray, inconsistent_message(a)))
        }
    }
}

pub open spec fn array_views(arrays: Seq<ArrayShape>) -> Seq<(DataId, Seq<usize>, usize)> {
    arrays.map_values(|a: ArrayShape| (a.id, a.shape@, a.len))
}

/// Appends the `Debug` form of a list of numbers.
pub(crate) fn push_list(out: &mut String, v: &Vec<usize>)
    ensures
        final(out)@ == old(out)@ + list_text(v@),
{
    out.append("[");
    let mut i: usize = 0;
    while i < v.len()
        invariant
            i <= v@.len(),
            out@ == old(out)@ + "["@ + list_items(v@.take(i as int)),
        decreases v.len() - i,
    {
        let ghost before = out@;
        if i > 0 {
            out.append(", ");
        }
        push_decimal(out, v[i] as u64);
        proof {
            reveal_strlit(", ");
            reveal_strlit("[");
            let t = v@.take(i + 1);
            assert(t.drop_last() =~= v@.take(i as int));
            assert(t.last() == v@[i as int]);
            if i == 0 {
                assert(t.len() == 1 && t[0] == v@[0]);
                assert(v@.take(0) =~= Seq::<usize>::empty());
                assert(list_items(Seq::<usize>::empty()) =~= Seq::<char>::empty());
            }
            assert(out@ =~= old(out)@ + "["@ + list_items(t));
        }
        i = i + 1;
    }
    out.append("]");
    assert(v@.take(i as int) =~= v@);
    proof {
        reveal_strlit("]");
    }
    assert(out@ =~= old(out)@ + list_text(v@));
}

/// Returns the errors of the data table of a figure: one for every array whose number
/// of values is not the product of its shape.
pub fn array_issues(arrays: &Vec<ArrayShape>) -> (r: Vec<ValidationIssue>)
    ensures
        issues_view(r@) == spec_array_issues(array_views(arrays@)),
{
    let ghost views = array_views(arrays@);
    let mut r: Vec<ValidationIssue> = Vec::new();
    let mut i: usize = 0;
    while i < arrays.len()
        invariant
            i <= arrays@.len(),
            views == array_views(arrays@),
            issues_view(r@) == spec_array_issues(views.take(i as int)),
        decreases arrays.len() - i,
    {
        let array = &arrays[i];
        assert(views.take(i + 1).drop_last() =~= views.take(i as int));
        assert(views.take(i + 1).last() == (array.id, array.shape@, array.len));
        if !crate::data::shape_fills(&array.shape, array.len) {
            let mut message = array.id.display();
            message.append(" has ");
            push_decimal(&mut message, array.len as u64);
            message.append(" values, which does not match its shape ");
            push_list(&mut message, &array.shape);
            proof {
                reveal_strlit(" has ");
                reveal_strlit(" values, which does not match its shape ");
            }
            let ghost before = r@;
            r.push(ValidationIssue { node: None, kind: IssueKind::InvalidArray, message });
            assert(issues_view(r@) =~= issues_view(before).push(issue_view(r@.last())));
        }
        i = i + 1;
    }
    assert(views.take(i as int) =~= views);
    r
}


/// Whether a cell lies outside a tile layout, or has a zero span.
pub open spec fn spec_outside(cell: Cell, layout: TileLayout) -> bool {
    cell.row_span == 0 || cell.col_span == 0 || cell.row + cell.row_span > layout.rows
        || cell.col + cell.col_span > layout.cols
}

/// How a cell is written by Rust's `Debug` formatting.
pub open spec fn cell_debug(cell: Cell) -> Seq<char> {
    "Cell { row: "@ + decimal(cell.row as nat) + ", col: "@ + decimal(cell.col as nat) + ", row_span: "@
        + decimal(cell.row_span as nat) + ", col_span: "@ + decimal(cell.col_span as nat) + " }"@
}

/// The message of a cell outside its tile layout.
pub open spec fn cell_message(cell: Cell, layout: TileLayout) -> Seq<char> {
    "the cell "@ + cell_debug(cell) + " does not lie within the "@ + decimal(layout.rows as nat) + " × "@
        + decimal(layout.cols as nat) + " tile layout"@
}

/// Returns the error of an axes whose cell does not lie within the figure's tile
/// layout, or has a zero span, or `None` when the cell lies within the layout.
pub fn cell_issue(axes: NodeId, cell: Cell, layout: TileLayout) -> (r: Option<ValidationIssue>)
    ensures
        r is Some <==> spec_outside(cell, layout),
        r matches Some(i) ==> issue_view(i) == (Some(axes), IssueKind::CellOutOfLayout, cell_message(cell, layout)),
{
    let outside = cell.row_span == 0 || cell.col_span == 0
        || (cell.row as u64) + (cell.row_span as u64) > (layout.rows as u64)
        || (cell.col as u64) + (cell.col_span as u64) > (layout.cols as u64);
    if !outside {
        return None;
    }
    let mut message = owned("the cell Cell { row: ");
    push_decimal(&mut message, cell.row as u64);
    message.append(", col: ");
    push_decimal(&mut message, cell.col as u64);
    message.append(", row_span: ");
    push_decimal(&mut message, cell.row_span as u64);
    message.append(", col_span: ");
    push_decimal(&mut message, cell.col_span as u64);
    message.append(" } does not lie within the ");
    push_decimal(&mut message, layout.rows as u64);
    message.append(" × ");
    push_decimal(&mut message, layout.cols as u64);
    message.append(" tile layout");
    proof {
        reveal_strlit("the cell Cell { row: ");
        reveal_strlit("the cell ");
        reveal_strlit("Cell { row: ");
        reveal_strlit(", col: ");
        reveal_strlit(", row_span: ");
        reveal_strlit(", col_span: ");
        reveal_strlit(" } does not lie within the ");
        reveal_strlit(" }");
        reveal_strlit(" does not lie within the ");
        reveal_strlit(" × ");
        reveal_strlit(" tile layout");
        assert(message@ =~= cell_message(cell, layout));
    }
    Some(ValidationIssue { node: Some(axes), kind: IssueKind::CellOutOfLayout, message })
}



/// Returns the errors of a figure that read no floating-point number, in the order in
/// which a figure is checked after its size and its parameters: its labels, the arrays
/// of its data table whose values do not fill their shapes, the identifiers that
/// several nodes share, and the links that refer to something other than an axes.
pub fn figure_structure_issues(
    figure: NodeId,
    labels: &Vec<String>,
    arrays: &Vec<ArrayShape>,
    node_ids: &Vec<NodeId>,
    axes: &Vec<NodeId>,
    links: &Vec<AxisLink>,
) -> (r: Vec<ValidationIssue>)
    ensures
        exists|shared: Seq<IssueView>|
            reports_shared_ids(node_ids@, shared) && issues_view(r@) == spec_label_issues(
                figure,
                crate::textfmt::string_views(labels@),
            ) + spec_array_issues(array_views(arrays@)) + shared + spec_dangling_issues(axes@, links@),
{
    let mut r = label_issues(figure, labels);
    let ghost l = issues_view(r@);
    let mut a = array_issues(arrays);
    let ghost av = issues_view(a@);
    r.append(&mut a);
    assert(issues_view(r@) =~= l + av);
    let mut d = duplicate_id_issues(node_ids);
    let ghost dv = issues_view(d@);
    r.append(&mut d);
    assert(issues_view(r@) =~= l + av + dv);
    let mut g = dangling_link_issues(axes, links);
    let ghost gv = issues_view(g@);
    r.append(&mut g);
    assert(issues_view(r@) =~= l + av + dv + gv);
    r
}


/// Whether a cell covers the tile at a row and a column.
pub open spec fn covers(cell: Cell, r: int, c: int) -> bool {
    cell.row <= r < cell.row + cell.row_span && cell.col <= c < cell.col + cell.col_span
}

/// An axes lies within the tile layout exactly when its spans are not empty and every
/// tile it covers, at each row from `row` below `row + row_span` and each column from
/// `col` below `col + col_span`, is a tile of the layout; otherwise [`cell_issue`]
/// reports it.
pub proof fn law_cell_within_layout(cell: Cell, layout: TileLayout)
    ensures
        !spec_outside(cell, layout) <==> {
            &&& cell.row_span > 0
            &&& cell.col_span > 0
            &&& forall|r: int, c: int| #[trigger] covers(cell, r, c) ==> r < layout.rows && c < layout.cols
        },
{
    if cell.row_span > 0 && cell.col_span > 0 && forall|r: int, c: int|
        #[trigger] covers(cell, r, c) ==> r < layout.rows && c < layout.cols {
        let r = cell.row + cell.row_span - 1;
        let c = cell.col + cell.col_span - 1;
        assert(covers(cell, r, c));
    }
}

} // verus!
