//! The errors of edits, and the comparison of validation reports by which a transaction
//! that introduces validation errors is rejected.

use vstd::prelude::*;

use crate::edit::path::PropertyPath;
use crate::edit::registry::{properties, NodeKind};
use crate::edit::value::ValueType;
use crate::edit::walk::{spec_properties, Step};
use crate::ids::{DataId, NodeId};
use crate::validate::{IssueKind, ValidationIssue, ValidationReport};

verus! {

/// An error raised when an edit cannot be applied or a property cannot be read.
///
/// Every variant that concerns one edit carries the zero-based index of that edit in its
/// transaction, which is `None` when the error comes from reading a property or from a
/// single edit outside a transaction.
#[derive(Debug, Clone, PartialEq)]
pub enum EditError {
    /// The node identifier does not refer to a node of the figure.
    UnknownNode {
        /// The index of the edit.
        edit: Option<usize>,
        /// The identifier that was not found.
        node: NodeId,
    },
    /// The data identifier does not refer to an array of the figure.
    UnknownData {
        /// The index of the edit.
        edit: Option<usize>,
        /// The identifier that was not found.
        id: DataId,
    },
    /// The path names a field that the node, or a value on the path, does not have.
    UnknownPath {
        /// The index of the edit.
        edit: Option<usize>,
        /// The node addressed.
        node: NodeId,
        /// The path addressed.
        path: PropertyPath,
    },
    /// The value is not of the type of the property, or is unset for a property that is
    /// not optional.
    TypeMismatch {
        /// The index of the edit.
        edit: Option<usize>,
        /// The node addressed.
        node: NodeId,
        /// The path addressed.
        path: PropertyPath,
        /// The type of the property.
        expected: ValueType,
        /// The type of the value supplied, or `None` for an unset value.
        found: Option<ValueType>,
    },
    /// The path descends into a variant of a tagged value that is not the variant
    /// currently set, such as `projection.view3d` of a two-dimensional axes.
    InactiveVariant {
        /// The index of the edit.
        edit: Option<usize>,
        /// The node addressed.
        node: NodeId,
        /// The path addressed.
        path: PropertyPath,
    },
    /// The path descends through an optional value that is absent, such as
    /// `title.content` of a node without a title.
    AbsentValue {
        /// The index of the edit.
        edit: Option<usize>,
        /// The node addressed.
        node: NodeId,
        /// The path addressed.
        path: PropertyPath,
    },
    /// The path names a property that edits cannot set: an identifier, the schema
    /// version, the provenance, a node list or the data table, or a path below one of
    /// them.
    ReadOnly {
        /// The index of the edit.
        edit: Option<usize>,
        /// The node addressed.
        node: NodeId,
        /// The path addressed.
        path: PropertyPath,
    },
    /// An inserted node, or a node of its subtree, has an identifier that is already in
    /// use in the figure or that occurs twice in the subtree.
    DuplicateId {
        /// The index of the edit.
        edit: Option<usize>,
        /// The identifier that is already in use.
        node: NodeId,
    },
    /// The parent of an inserted or moved node cannot hold it: an axes must be placed in
    /// the figure and an artist in an axes.
    InvalidParent {
        /// The index of the edit.
        edit: Option<usize>,
        /// The node inserted or moved.
        node: NodeId,
        /// The parent named by the edit.
        parent: NodeId,
    },
    /// The figure node was named by an edit that removes or moves a node; the figure is
    /// the root and can be neither.
    RootNode {
        /// The index of the edit.
        edit: Option<usize>,
        /// The identifier of the figure.
        node: NodeId,
    },
    /// The index of an inserted or moved node is larger than the length of the list it
    /// is placed in.
    IndexOutOfRange {
        /// The index of the edit.
        edit: Option<usize>,
        /// The parent named by the edit.
        parent: NodeId,
        /// The index requested.
        index: u32,
        /// The length of the list, after removing a moved node from it.
        len: usize,
    },
    /// Appended entries have a shape after the first dimension that differs from that
    /// of the existing array, or either array has no dimensions.
    ShapeMismatch {
        /// The index of the edit.
        edit: Option<usize>,
        /// The array appended to.
        id: DataId,
        /// The shape of the existing array.
        existing: Vec<usize>,
        /// The shape of the appended entries.
        appended: Vec<usize>,
    },
    /// An edit other than a set was given to an overlay, which holds only sets.
    NotASet {
        /// The index of the edit.
        edit: Option<usize>,
    },
    /// After its edits, the figure has validation errors that it did not have before;
    /// the transaction was rolled back.
    Invalid(Vec<ValidationIssue>),
}

/// The error with the index of the edit it concerns replaced; an error that concerns no
/// single edit is unchanged.
pub open spec fn with_edit(e: EditError, index: Option<usize>) -> EditError {
    match e {
        EditError::UnknownNode { node, .. } => EditError::UnknownNode { edit: index, node },
        EditError::UnknownData { id, .. } => EditError::UnknownData { edit: index, id },
        EditError::UnknownPath { node, path, .. } => EditError::UnknownPath { edit: index, node, path },
        EditError::TypeMismatch { node, path, expected, found, .. } => EditError::TypeMismatch {
            edit: index,
            node,
            path,
            expected,
            found,
        },
        EditError::InactiveVariant { node, path, .. } => EditError::InactiveVariant { edit: index, node, path },
        EditError::AbsentValue { node, path, .. } => EditError::AbsentValue { edit: index, node, path },
        EditError::ReadOnly { node, path, .. } => EditError::ReadOnly { edit: index, node, path },
        EditError::DuplicateId { node, .. } => EditError::DuplicateId { edit: index, node },
        EditError::InvalidParent { node, parent, .. } => EditError::InvalidParent { edit: index, node, parent },
        EditError::RootNode { node, .. } => EditError::RootNode { edit: index, node },
        EditError::IndexOutOfRange { parent, index: at, len, .. } => EditError::IndexOutOfRange {
            edit: index,
            parent,
            index: at,
            len,
        },
        EditError::ShapeMismatch { id, existing, appended, .. } => EditError::ShapeMismatch {
            edit: index,
            id,
            existing,
            appended,
        },
        EditError::NotASet { .. } => EditError::NotASet { edit: index },
        EditError::Invalid(issues) => EditError::Invalid(issues),
    }
}

impl EditError {
    /// Returns the error with the index of the edit it concerns replaced, so that an
    /// error raised by a transaction of one edit can be reported without an index.
    pub fn at_edit(self, index: Option<usize>) -> (r: Self)
        ensures
            r == with_edit(self, index),
    {
        match self {
            EditError::UnknownNode { node, .. } => EditError::UnknownNode { edit: index, node },
            EditError::UnknownData { id, .. } => EditError::UnknownData { edit: index, id },
            EditError::UnknownPath { node, path, .. } => EditError::UnknownPath { edit: index, node, path },
            EditError::TypeMismatch { node, path, expected, found, .. } => EditError::TypeMismatch {
                edit: index,
                node,
                path,
                expected,
                found,
            },
            EditError::InactiveVariant { node, path, .. } => EditError::InactiveVariant { edit: index, node, path },
            EditError::AbsentValue { node, path, .. } => EditError::AbsentValue { edit: index, node, path },
            EditError::ReadOnly { node, path, .. } => EditError::ReadOnly { edit: index, node, path },
            EditError::DuplicateId { node, .. } => EditError::DuplicateId { edit: index, node },
            EditError::InvalidParent { node, parent, .. } => EditError::InvalidParent { edit: index, node, parent },
            EditError::RootNode { node, .. } => EditError::RootNode { edit: index, node },
            EditError::IndexOutOfRange { parent, index: at, len, .. } => EditError::IndexOutOfRange {
                edit: index,
                parent,
                index: at,
                len,
            },
            EditError::ShapeMismatch { id, existing, appended, .. } => EditError::ShapeMismatch {
                edit: index,
                id,
                existing,
                appended,
            },
            EditError::NotASet { .. } => EditError::NotASet { edit: index },
            EditError::Invalid(issues) => EditError::Invalid(issues),
        }
    }
}

/// An index within a list as an edit writes it: the position itself, or the largest
/// index an edit can hold when the position is larger.
pub open spec fn spec_as_index(position: usize) -> u32 {
    if position <= u32::MAX {
        position as u32
    } else {
        u32::MAX
    }
}

/// Returns an index within a list as it is written in an edit.
pub fn as_index(position: usize) -> (r: u32)
    ensures
        r == spec_as_index(position),
{
    if position <= 0xffff_ffffusize {
        position as u32
    } else {
        u32::MAX
    }
}

/// What validation errors are compared by: the node and the kind of the error.
pub type IssueKey = (Option<NodeId>, IssueKind);

pub open spec fn issue_key(issue: ValidationIssue) -> IssueKey {
    (issue.node, issue.kind)
}

pub open spec fn keys_of(issues: Seq<ValidationIssue>) -> Seq<IssueKey> {
    issues.map_values(|i: ValidationIssue| issue_key(i))
}

/// How many times a key occurs in a sequence.
pub open spec fn occurrences(s: Seq<IssueKey>, k: IssueKey) -> nat
    decreases s.len(),
{
    if s.len() == 0 {
        0
    } else {
        occurrences(s.drop_last(), k) + if s.last() == k { 1nat } else { 0nat }
    }
}

/// The count that a table of counts holds for a key: the sum of its entries for it.
pub open spec fn count_in(counts: Seq<(IssueKey, usize)>, k: IssueKey) -> nat
    decreases counts.len(),
{
    if counts.len() == 0 {
        0
    } else {
        count_in(counts.drop_last(), k) + if counts.last().0 == k { counts.last().1 as nat } else { 0nat }
    }
}

/// Whether no key has two entries in a table of counts.
pub open spec fn distinct_keys(counts: Seq<(IssueKey, usize)>) -> bool {
    forall|i: int, j: int| 0 <= i < j < counts.len() ==> (#[trigger] counts[i]).0 != (#[trigger] counts[j]).0
}

/// The errors that counts taken of an earlier report do not account for, in order: an
/// error is introduced when the errors of its node and kind before it already use up the
/// count of the earlier report.
pub open spec fn spec_introduced(counts: Seq<(IssueKey, usize)>, errors: Seq<ValidationIssue>) -> Seq<ValidationIssue>
    decreases errors.len(),
{
    if errors.len() == 0 {
        seq![]
    } else {
        let earlier = spec_introduced(counts, errors.drop_last());
        let last = errors.last();
        if occurrences(keys_of(errors.drop_last()), issue_key(last)) >= count_in(counts, issue_key(last)) {
            earlier.push(last)
        } else {
            earlier
        }
    }
}

/// Returns whether two keys are equal.
fn same_key(a: &IssueKey, b: &IssueKey) -> (r: bool)
    ensures
        r == (*a == *b),
{
    let same_node = match (a.0, b.0) {
        (Some(x), Some(y)) => x == y,
        (None, None) => true,
        _ => false,
    };
    same_node && a.1 == b.1
}

proof fn lemma_count_in_entry(counts: Seq<(IssueKey, usize)>, j: int)
    requires
        0 <= j < counts.len(),
    ensures
        count_in(counts, counts[j].0) >= counts[j].1,
    decreases counts.len(),
{
    if j < counts.len() - 1 {
        lemma_count_in_entry(counts.drop_last(), j);
        assert(counts.drop_last()[j] == counts[j]);
    }
}

proof fn lemma_count_in_positive(counts: Seq<(IssueKey, usize)>, k: IssueKey)
    requires
        count_in(counts, k) > 0,
    ensures
        exists|j: int| 0 <= j < counts.len() && (#[trigger] counts[j]).0 == k && counts[j].1 > 0,
    decreases counts.len(),
{
    if counts.last().0 == k && counts.last().1 > 0 {
        assert(counts[counts.len() - 1].0 == k);
    } else {
        lemma_count_in_positive(counts.drop_last(), k);
        let j = choose|j: int| 0 <= j < counts.drop_last().len() && (#[trigger] counts.drop_last()[j]).0 == k && counts.drop_last()[j].1 > 0;
        assert(counts[j] == counts.drop_last()[j]);
    }
}

proof fn lemma_count_in_update(counts: Seq<(IssueKey, usize)>, j: int, c: usize, k: IssueKey)
    requires
        0 <= j < counts.len(),
    ensures
        count_in(counts.update(j, (counts[j].0, c)), k) + (if counts[j].0 == k { counts[j].1 as int } else { 0 })
            == count_in(counts, k) + (if counts[j].0 == k { c as int } else { 0 }),
    decreases counts.len(),
{
    let updated = counts.update(j, (counts[j].0, c));
    if j < counts.len() - 1 {
        assert(updated.drop_last() =~= counts.drop_last().update(j, (counts[j].0, c)));
        assert(counts.drop_last()[j] == counts[j]);
        lemma_count_in_update(counts.drop_last(), j, c, k);
    } else {
        assert(updated.drop_last() =~= counts.drop_last());
    }
}

proof fn lemma_count_in_push(counts: Seq<(IssueKey, usize)>, e: (IssueKey, usize), k: IssueKey)
    ensures
        count_in(counts.push(e), k) == count_in(counts, k) + if e.0 == k { e.1 as nat } else { 0nat },
{
    assert(counts.push(e).drop_last() =~= counts);
}

proof fn lemma_occurrences_push(s: Seq<IssueKey>, e: IssueKey, k: IssueKey)
    ensures
        occurrences(s.push(e), k) == occurrences(s, k) + if e == k { 1nat } else { 0nat },
{
    assert(s.push(e).drop_last() =~= s);
}

proof fn lemma_occurrences_bound(s: Seq<IssueKey>, k: IssueKey)
    ensures
        occurrences(s, k) <= s.len(),
    decreases s.len(),
{
    if s.len() > 0 {
        lemma_occurrences_bound(s.drop_last(), k);
    }
}

/// Counts the validation errors of a report by the node and kind of each error: one
/// entry for each node and kind that occurs, with the number of errors it has.
pub fn error_counts(report: &ValidationReport) -> (r: Vec<(IssueKey, usize)>)
    ensures
        distinct_keys(r@),
        forall|k: IssueKey| #[trigger] count_in(r@, k) == occurrences(keys_of(report.errors@), k),
{
    let errors = &report.errors;
    let mut counts: Vec<(IssueKey, usize)> = Vec::new();
    let mut i: usize = 0;
    while i < errors.len()
        invariant
            i <= errors@.len(),
            distinct_keys(counts@),
            forall|k: IssueKey| #[trigger] count_in(counts@, k) == occurrences(keys_of(errors@.take(i as int)), k),
        decreases errors.len() - i,
    {
        let key: IssueKey = (errors[i].node, errors[i].kind);
        let ghost prefix = keys_of(errors@.take(i as int));
        assert(keys_of(errors@.take(i + 1)) =~= prefix.push(key));
        proof {
            lemma_occurrences_bound(prefix, key);
        }
        let mut j: usize = 0;
        let mut found = false;
        while !found && j < counts.len()
            invariant
                j <= counts@.len(),
                found ==> j < counts@.len() && counts@[j as int].0 == key,
                forall|m: int| 0 <= m < j ==> (#[trigger] counts@[m]).0 != key,
            decreases counts.len() - j, if found { 0int } else { 1int },
        {
            if same_key(&counts[j].0, &key) {
                found = true;
            } else {
                j = j + 1;
            }
        }
        let ghost before = counts@;
        if found {
            proof {
                lemma_count_in_entry(before, j as int);
            }
            let c = counts[j].1;
            counts.set(j, (key, c + 1));
            assert forall|k: IssueKey| #[trigger] count_in(counts@, k) == occurrences(keys_of(errors@.take(i + 1)), k) by {
                lemma_count_in_update(before, j as int, (c + 1) as usize, k);
                lemma_occurrences_push(prefix, key, k);
            }
            assert forall|a: int, b: int| 0 <= a < b < counts@.len() implies (#[trigger] counts@[a]).0 != (#[trigger] counts@[b]).0 by {
                assert(before[a].0 != before[b].0);
            }
        } else {
            counts.push((key, 1));
            assert forall|k: IssueKey| #[trigger] count_in(counts@, k) == occurrences(keys_of(errors@.take(i + 1)), k) by {
                lemma_count_in_push(before, (key, 1usize), k);
                lemma_occurrences_push(prefix, key, k);
            }
            assert forall|a: int, b: int| 0 <= a < b < counts@.len() implies (#[trigger] counts@[a]).0 != (#[trigger] counts@[b]).0 by {
                if b < before.len() {
                    assert(before[a].0 != before[b].0);
                } else {
                    assert(before[a].0 != key);
                }
            }
        }
        i = i + 1;
    }
    assert(errors@.take(i as int) =~= errors@);
    counts
}

/// Returns the errors of a report that the counts of an earlier report do not account
/// for, which are the errors that the edits introduced.
pub fn introduced_errors(before: Vec<(IssueKey, usize)>, after: ValidationReport) -> (r: Vec<ValidationIssue>)
    ensures
        r@ == spec_introduced(before@, after.errors@),
{
    let ghost counts = before@;
    let ghost errors = after.errors@;
    let mut rest = after.errors;
    let total: usize = rest.len();
    let mut remaining = before;
    let mut introduced: Vec<ValidationIssue> = Vec::new();
    let mut i: usize = 0;
    while rest.len() > 0
        invariant
            i <= errors.len(),
            errors.len() == total,
            rest@ == errors.skip(i as int),
            introduced@ == spec_introduced(counts, errors.take(i as int)),
            forall|k: IssueKey| #[trigger] count_in(remaining@, k) as int == if occurrences(keys_of(errors.take(i as int)), k) >= count_in(counts, k) {
                0
            } else {
                count_in(counts, k) - occurrences(keys_of(errors.take(i as int)), k)
            },
        decreases rest.len(),
    {
        let issue = rest.remove(0);
        assert(issue == errors[i as int]);
        assert(rest@ =~= errors.skip(i + 1));
        let key: IssueKey = (issue.node, issue.kind);
        let ghost prefix = errors.take(i as int);
        assert(errors.take(i + 1) =~= prefix.push(issue));
        assert(errors.take(i + 1).drop_last() =~= prefix);
        assert(keys_of(errors.take(i + 1)) =~= keys_of(prefix).push(key));
        let mut j: usize = 0;
        let mut found = false;
        while !found && j < remaining.len()
            invariant
                j <= remaining@.len(),
                found ==> j < remaining@.len() && remaining@[j as int].0 == key && remaining@[j as int].1 > 0,
                forall|m: int| 0 <= m < j ==> !((#[trigger] remaining@[m]).0 == key && remaining@[m].1 > 0),
            decreases remaining.len() - j, if found { 0int } else { 1int },
        {
            if remaining[j].1 > 0 && same_key(&remaining[j].0, &key) {
                found = true;
            } else {
                j = j + 1;
            }
        }
        let ghost rem = remaining@;
        if found {
            proof {
                lemma_count_in_entry(rem, j as int);
            }
            assert(errors.take(i + 1).last() == issue);
            let c = remaining[j].1;
            remaining.set(j, (key, c - 1));
            assert forall|k: IssueKey| #[trigger] count_in(remaining@, k) as int == if occurrences(keys_of(errors.take(i + 1)), k) >= count_in(counts, k) {
                0
            } else {
                count_in(counts, k) - occurrences(keys_of(errors.take(i + 1)), k)
            } by {
                lemma_count_in_update(rem, j as int, (c - 1) as usize, k);
                lemma_occurrences_push(keys_of(prefix), key, k);
            }
            assert(introduced@ == spec_introduced(counts, errors.take(i + 1)));
        } else {
            proof {
                if count_in(rem, key) > 0 {
                    lemma_count_in_positive(rem, key);
                }
            }
            assert forall|k: IssueKey| #[trigger] count_in(remaining@, k) as int == if occurrences(keys_of(errors.take(i + 1)), k) >= count_in(counts, k) {
                0
            } else {
                count_in(counts, k) - occurrences(keys_of(errors.take(i + 1)), k)
            } by {
                lemma_occurrences_push(keys_of(prefix), key, k);
            }
            introduced.push(issue);
            assert(introduced@ == spec_introduced(counts, errors.take(i + 1)));
        }
        i = i + 1;
    }
    assert(errors.take(i as int) =~= errors);
    introduced
}

/// For every node and kind, the errors introduced are those by which the later report
/// exceeds the counts of the earlier one: as many as the later report has beyond the
/// count, and none when it has no more.
pub proof fn law_introduced_counts(counts: Seq<(IssueKey, usize)>, errors: Seq<ValidationIssue>, k: IssueKey)
    ensures
        occurrences(keys_of(spec_introduced(counts, errors)), k) == if occurrences(keys_of(errors), k) >= count_in(counts, k) {
            occurrences(keys_of(errors), k) - count_in(counts, k)
        } else {
            0
        },
    decreases errors.len(),
{
    if errors.len() > 0 {
        let rest = errors.drop_last();
        law_introduced_counts(counts, rest, k);
        let last = errors.last();
        assert(keys_of(errors) =~= keys_of(rest).push(issue_key(last)));
        lemma_occurrences_push(keys_of(rest), issue_key(last), k);
        let earlier = spec_introduced(counts, rest);
        assert(keys_of(earlier.push(last)) =~= keys_of(earlier).push(issue_key(last)));
        lemma_occurrences_push(keys_of(earlier), issue_key(last), k);
    }
}

/// A transaction introduces no validation error exactly when, for every node and kind,
/// the later report has no more errors than the earlier one counted.
pub proof fn law_nothing_introduced(counts: Seq<(IssueKey, usize)>, errors: Seq<ValidationIssue>)
    ensures
        spec_introduced(counts, errors).len() == 0 <==> forall|k: IssueKey| #[trigger] occurrences(keys_of(errors), k) <= count_in(counts, k),
{
    let introduced = spec_introduced(counts, errors);
    if introduced.len() == 0 {
        assert forall|k: IssueKey| #[trigger] occurrences(keys_of(errors), k) <= count_in(counts, k) by {
            law_introduced_counts(counts, errors, k);
            assert(keys_of(introduced) =~= Seq::<IssueKey>::empty());
        }
    } else {
        let k = issue_key(introduced[0]);
        law_introduced_counts(counts, errors, k);
        lemma_occurrences_contains(keys_of(introduced), 0);
        assert(keys_of(introduced)[0] == k);
    }
}

proof fn lemma_occurrences_contains(s: Seq<IssueKey>, i: int)
    requires
        0 <= i < s.len(),
    ensures
        occurrences(s, s[i]) >= 1,
    decreases s.len(),
{
    if i < s.len() - 1 {
        lemma_occurrences_contains(s.drop_last(), i);
        assert(s.drop_last()[i] == s[i]);
    }
}

/// Whether the registry lists a path for a kind of node.
pub open spec fn listed(kind: Option<NodeKind>, path: Seq<Seq<char>>) -> bool {
    kind matches Some(k) && exists|i: int| 0 <= i < spec_properties(k).len() && (#[trigger] spec_properties(k)[i]).0 == path
}

/// The error of a failed step of a path walk at a node of a kind (`None` when the node
/// is not in the figure). A path that the kind never has is unknown whatever the
/// variants and optional values currently set, so a step that stopped at an inactive
/// variant or an absent value is reported as unknown unless the registry lists the whole
/// path.
pub open spec fn spec_edit_error(kind: Option<NodeKind>, index: Option<usize>, node: NodeId, path: PropertyPath, step: Step) -> EditError {
    match step {
        Step::Unknown => EditError::UnknownPath { edit: index, node, path },
        Step::ReadOnly => EditError::ReadOnly { edit: index, node, path },
        Step::Inactive => if listed(kind, path@) {
            EditError::InactiveVariant { edit: index, node, path }
        } else {
            EditError::UnknownPath { edit: index, node, path }
        },
        Step::Absent => if listed(kind, path@) {
            EditError::AbsentValue { edit: index, node, path }
        } else {
            EditError::UnknownPath { edit: index, node, path }
        },
        Step::Type { expected, found } => EditError::TypeMismatch { edit: index, node, path, expected, found },
    }
}

/// Returns whether the registry lists a path for a kind of node.
fn is_listed(kind: Option<NodeKind>, path: &PropertyPath) -> (r: bool)
    ensures
        r == listed(kind, path@),
{
    match kind {
        None => false,
        Some(k) => {
            let registry = properties(k);
            let ghost views = crate::edit::walk::properties_view(registry@);
            let mut i: usize = 0;
            while i < registry.len()
                invariant
                    i <= registry@.len(),
                    kind == Some(k),
                    views == crate::edit::walk::properties_view(registry@),
                    views == spec_properties(k),
                    forall|j: int| 0 <= j < i ==> (#[trigger] views[j]).0 != path@,
                decreases registry.len() - i,
            {
                assert(views[i as int].0 == registry@[i as int].path@);
                if registry[i].path == *path {
                    assert(views[i as int].0 == path@);
                    assert(spec_properties(k)[i as int].0 == path@);
                    return true;
                }
                i = i + 1;
            }
            false
        },
    }
}

/// Returns the error of a failed step of a path walk at a node of the given kind, or of
/// no kind when the node is not in the figure.
///
/// A path that the node's kind never has is unknown whatever the variants and optional
/// values currently set, so a step that stopped at an inactive variant or an absent
/// value is reported as unknown unless the registry lists the whole path.
pub fn edit_error(kind: Option<NodeKind>, index: Option<usize>, node: NodeId, path: PropertyPath, step: Step) -> (r: EditError)
    ensures
        r == spec_edit_error(kind, index, node, path, step),
{
    match step {
        Step::Unknown => EditError::UnknownPath { edit: index, node, path },
        Step::ReadOnly => EditError::ReadOnly { edit: index, node, path },
        Step::Inactive => if is_listed(kind, &path) {
            EditError::InactiveVariant { edit: index, node, path }
        } else {
            EditError::UnknownPath { edit: index, node, path }
        },
        Step::Absent => if is_listed(kind, &path) {
            EditError::AbsentValue { edit: index, node, path }
        } else {
            EditError::UnknownPath { edit: index, node, path }
        },
        Step::Type { expected, found } => EditError::TypeMismatch { edit: index, node, path, expected, found },
    }
}


} // verus!
