use ironlab_ir::edit::choice::indexes_the_colormap;
use ironlab_ir::edit::error::edit_error;
use ironlab_ir::edit::structure::{FigureTree, Place, StructuralEdit, Subtree};
use ironlab_ir::edit::tree::{NodeTree, TreeChange};
use ironlab_ir::edit::walk::{inactive_or_unknown, Step};
use ironlab_ir::edit::{
    as_index, error_counts, introduced_errors, properties, EditError, NodeKind, PathError,
    PropertyPath, ValueType,
};
use ironlab_ir::ids::{DataId, NodeId};
use ironlab_ir::validate::{IssueKind, ValidationIssue, ValidationReport};

fn path(text: &str) -> PropertyPath {
    PropertyPath::from_str(text).expect("a valid path")
}

fn segments(parts: &[&str]) -> Vec<String> {
    parts.iter().map(|s| s.to_string()).collect()
}

#[test]
fn a_path_is_written_and_parsed_with_dots() {
    let p = PropertyPath::new(segments(&["x", "limits", "min"])).expect("valid");
    assert_eq!(p.to_string(), "x.limits.min");
    assert_eq!(p.segments(), &segments(&["x", "limits", "min"]));
    assert_eq!(PropertyPath::from_str("x.limits.min"), Ok(p));
}

#[test]
fn invalid_paths_are_refused_with_the_first_bad_segment() {
    assert_eq!(PropertyPath::new(vec![]), Err(PathError::Empty));
    assert_eq!(PropertyPath::from_str(""), Err(PathError::Empty));
    assert_eq!(
        PropertyPath::from_str("x..limits"),
        Err(PathError::EmptySegment {
            path: "x..limits".to_owned(),
            position: 1
        })
    );
    assert_eq!(
        PropertyPath::from_str(".x"),
        Err(PathError::EmptySegment {
            path: ".x".to_owned(),
            position: 0
        })
    );
    assert_eq!(
        PropertyPath::new(segments(&["x", "a.b", ""])),
        Err(PathError::SeparatorInSegment {
            segment: "a.b".to_owned(),
            position: 1
        })
    );
    assert_eq!(
        PropertyPath::new(segments(&["x", "", "a.b"])),
        Err(PathError::EmptySegment {
            path: "x..a.b".to_owned(),
            position: 1
        })
    );
}

#[test]
fn containment_is_by_whole_segments() {
    let x = path("x");
    let limits = path("x.limits");
    let min = path("x.limits.min");
    assert!(x.contains(&min));
    assert!(limits.contains(&limits));
    assert!(!min.contains(&limits));
    assert!(!path("x.lim").contains(&limits));
    assert!(min.overlaps(&x) && x.overlaps(&min));
    assert!(!path("y").overlaps(&x));
}

#[test]
fn the_text_of_a_path_reads_back_to_the_same_path() {
    for text in ["title", "size.width_mm", "projection.view3d.azimuth_deg", "line.width_pt"] {
        let p = path(text);
        assert_eq!(PropertyPath::from_str(&p.to_string()), Ok(p));
    }
}

fn listed(kind: NodeKind) -> Vec<String> {
    properties(kind).iter().map(|p| p.path.to_string()).collect()
}

#[test]
fn the_registry_lists_the_documented_paths() {
    let figure = listed(NodeKind::Figure);
    for p in ["title", "title.content", "size.width_mm", "layout.rows", "links", "parameters"] {
        assert!(figure.contains(&p.to_owned()), "{p} is not listed for the figure");
    }
    let axes = listed(NodeKind::Axes);
    for p in [
        "x",
        "x.label",
        "x.label.content",
        "x.limits",
        "x.limits.min",
        "colormap",
        "projection.view3d.azimuth_deg",
    ] {
        assert!(axes.contains(&p.to_owned()), "{p} is not listed for an axes");
    }
    let line = listed(NodeKind::Line);
    for p in ["line.width_pt", "visible", "marker.shape"] {
        assert!(line.contains(&p.to_owned()), "{p} is not listed for a line");
    }
    assert!(listed(NodeKind::Contour).contains(&"levels".to_owned()));
    for kind in NodeKind::ALL {
        let paths = listed(kind);
        assert!(!paths.contains(&"id".to_owned()));
        assert!(!paths.contains(&"schema_version".to_owned()));
    }
}

#[test]
fn every_path_of_the_registry_is_listed_once_after_its_parent() {
    for kind in NodeKind::ALL {
        let paths = listed(kind);
        for (i, p) in paths.iter().enumerate() {
            assert!(!paths[..i].contains(p), "{p} is listed twice for {kind:?}");
            if let Some((parent, _)) = p.rsplit_once('.') {
                assert!(paths[..i].contains(&parent.to_owned()), "{p} is listed before {parent}");
            }
        }
    }
}

#[test]
fn the_registry_describes_types_and_conditions() {
    let axes = properties(NodeKind::Axes);
    let find = |p: &str| axes.iter().find(|q| q.path.to_string() == p).expect("listed");
    let title = find("title");
    assert_eq!(title.value_type, ValueType::Text);
    assert!(title.optional && !title.conditional);
    let content = find("title.content");
    assert_eq!(content.value_type, ValueType::String);
    assert!(!content.optional && content.conditional);
    let min = find("x.limits.min");
    assert_eq!(min.value_type, ValueType::Double);
    assert!(min.conditional);
    let limits = find("x.limits");
    assert_eq!(limits.value_type, ValueType::Limits);
    assert!(!limits.conditional);
    assert_eq!(find("colormap").value_type, ValueType::ColormapName);
}

#[test]
fn a_path_shared_by_variants_is_listed_once() {
    let contour = listed(NodeKind::Contour);
    assert_eq!(contour.iter().filter(|p| p.as_str() == "grid.x").count(), 1);
    assert_eq!(contour.iter().filter(|p| p.as_str() == "grid.y").count(), 1);
    for p in &contour {
        assert_eq!(contour.iter().filter(|q| *q == p).count(), 1, "{p}");
    }
}

#[test]
fn an_unknown_segment_of_a_tagged_value_is_told_from_an_inactive_one() {
    assert_eq!(inactive_or_unknown("min", &["min", "max"]), Step::Inactive);
    assert_eq!(inactive_or_unknown("mid", &["min", "max"]), Step::Unknown);
    assert_eq!(inactive_or_unknown("min", &[]), Step::Unknown);
}

#[test]
fn the_colormap_is_indexed_by_contour_lines_and_surface_faces_and_edges() {
    assert!(indexes_the_colormap(NodeKind::Contour, &path("line.color")));
    assert!(!indexes_the_colormap(NodeKind::Contour, &path("line")));
    assert!(indexes_the_colormap(NodeKind::Surface, &path("face")));
    assert!(indexes_the_colormap(NodeKind::Surface, &path("edge")));
    assert!(!indexes_the_colormap(NodeKind::Surface, &path("line.color")));
    assert!(!indexes_the_colormap(NodeKind::Line, &path("line.color")));
}

#[test]
fn at_edit_replaces_the_index_of_the_edit() {
    let error = EditError::UnknownPath {
        edit: Some(3),
        node: NodeId(7),
        path: path("x.limits"),
    };
    assert_eq!(
        error.at_edit(None),
        EditError::UnknownPath {
            edit: None,
            node: NodeId(7),
            path: path("x.limits")
        }
    );
    let error = EditError::IndexOutOfRange {
        edit: None,
        parent: NodeId(1),
        index: 9,
        len: 2,
    };
    assert_eq!(
        error.at_edit(Some(0)),
        EditError::IndexOutOfRange {
            edit: Some(0),
            parent: NodeId(1),
            index: 9,
            len: 2
        }
    );
    let invalid = EditError::Invalid(vec![]);
    assert_eq!(invalid.at_edit(Some(1)), EditError::Invalid(vec![]));
}

#[test]
fn an_index_too_large_for_an_edit_saturates() {
    assert_eq!(as_index(0), 0);
    assert_eq!(as_index(41), 41);
    assert_eq!(as_index(u32::MAX as usize), u32::MAX);
    assert_eq!(as_index(usize::MAX), u32::MAX);
}

fn issue(node: Option<u64>, kind: IssueKind, message: &str) -> ValidationIssue {
    ValidationIssue {
        node: node.map(NodeId),
        kind,
        message: message.to_owned(),
    }
}

fn report(errors: Vec<ValidationIssue>) -> ValidationReport {
    ValidationReport {
        errors,
        warnings: vec![],
    }
}

#[test]
fn errors_are_counted_by_node_and_kind() {
    let before = report(vec![
        issue(Some(1), IssueKind::InvalidLimits, "a"),
        issue(Some(1), IssueKind::InvalidLimits, "b"),
        issue(None, IssueKind::InvalidArray, "c"),
    ]);
    let counts = error_counts(&before);
    assert_eq!(counts.len(), 2);
    assert!(counts.contains(&((Some(NodeId(1)), IssueKind::InvalidLimits), 2)));
    assert!(counts.contains(&((None, IssueKind::InvalidArray), 1)));
}

#[test]
fn only_errors_beyond_the_earlier_counts_are_introduced() {
    let before = report(vec![issue(Some(1), IssueKind::InvalidLimits, "old")]);
    let after = report(vec![
        issue(Some(1), IssueKind::InvalidLimits, "changed value, same error"),
        issue(Some(1), IssueKind::InvalidLimits, "a second error of the kind"),
        issue(Some(2), IssueKind::InvalidLimits, "another node"),
        issue(None, IssueKind::DanglingLink, "another kind"),
    ]);
    let introduced = introduced_errors(error_counts(&before), after);
    let messages: Vec<&str> = introduced.iter().map(|i| i.message.as_str()).collect();
    assert_eq!(
        messages,
        ["a second error of the kind", "another node", "another kind"]
    );
}

#[test]
fn nothing_is_introduced_when_no_count_grows() {
    let before = report(vec![
        issue(Some(1), IssueKind::InvalidLimits, "a"),
        issue(Some(2), IssueKind::CellOutOfLayout, "b"),
    ]);
    let after = report(vec![issue(Some(2), IssueKind::CellOutOfLayout, "b again")]);
    assert!(introduced_errors(error_counts(&before), after).is_empty());
    assert!(introduced_errors(error_counts(&report(vec![])), report(vec![])).is_empty());
}

fn n(id: u64) -> NodeId {
    NodeId(id)
}

fn tree() -> NodeTree {
    NodeTree::new(vec![(n(1), vec![n(10), n(11)]), (n(2), vec![n(20)])])
}

#[test]
fn a_subtree_is_the_node_and_its_descendants() {
    let t = tree();
    assert_eq!(t.subtree(n(1)), vec![n(1), n(10), n(11)]);
    assert_eq!(t.subtree(n(20)), vec![n(20)]);
    assert_eq!(t.subtree(n(99)), Vec::<NodeId>::new());
}

#[test]
fn the_node_tree_follows_structural_changes() {
    let mut t = tree();
    t.apply(&TreeChange::Move {
        node: n(10),
        parent: n(2),
    });
    assert_eq!(t.subtree(n(1)), vec![n(1), n(11)]);
    assert_eq!(t.subtree(n(2)), vec![n(2), n(20), n(10)]);
    t.apply(&TreeChange::Remove { node: n(2) });
    assert_eq!(t.subtree(n(10)), Vec::<NodeId>::new());
    t.apply(&TreeChange::InsertAxes {
        axes: n(3),
        artists: vec![n(30)],
    });
    t.apply(&TreeChange::InsertArtist {
        parent: n(3),
        artist: n(31),
    });
    assert_eq!(t.subtree(n(3)), vec![n(3), n(30), n(31)]);
    t.remove(n(30));
    assert_eq!(t.subtree(n(3)), vec![n(3), n(31)]);
    t.push_artist(n(99), n(5));
    assert_eq!(t.subtree(n(5)), Vec::<NodeId>::new());
    t.push_axes(n(4), vec![]);
    assert_eq!(t.subtree(n(4)), vec![n(4)]);
}

fn figure() -> FigureTree {
    FigureTree {
        figure: n(0),
        axes: vec![(n(1), vec![n(10), n(11)]), (n(2), vec![n(20)])],
        next: 0,
    }
}

#[test]
fn nodes_are_placed_by_what_they_are() {
    let f = figure();
    assert_eq!(f.place(n(0)), Some(Place::Figure));
    assert_eq!(f.place(n(2)), Some(Place::Axes));
    assert_eq!(f.place(n(11)), Some(Place::Artist));
    assert_eq!(f.place(n(5)), None);
    let mut ids = f.node_ids();
    ids.sort();
    assert_eq!(ids, vec![n(0), n(1), n(2), n(10), n(11), n(20)]);
}

#[test]
fn an_insertion_is_undone_by_its_inverse() {
    let mut f = figure();
    let inverse = f
        .apply_insert(n(2), Some(0), Subtree::Artist(n(21)), Some(0))
        .expect("the insertion applies");
    assert_eq!(inverse, StructuralEdit::Remove { node: n(21) });
    assert_eq!(f.axes[1], (n(2), vec![n(21), n(20)]));
    assert_eq!(f.next, 22);
    f.apply_edit(inverse, None).expect("the inverse applies");
    assert_eq!(f.axes, figure().axes);
    let inverse = f
        .apply_insert(n(0), None, Subtree::Axes(n(3), vec![n(30)]), None)
        .expect("the insertion applies");
    assert_eq!(f.axes[2], (n(3), vec![n(30)]));
    assert_eq!(f.next, 31);
    f.apply_edit(inverse, None).expect("the inverse applies");
    assert_eq!(f.axes, figure().axes);
}

#[test]
fn a_removal_is_undone_by_its_inverse() {
    let mut f = figure();
    let inverse = f.apply_remove(n(1), Some(2)).expect("the removal applies");
    assert_eq!(
        inverse,
        StructuralEdit::Insert {
            parent: n(0),
            index: Some(0),
            node: Subtree::Axes(n(1), vec![n(10), n(11)])
        }
    );
    assert_eq!(f.axes, vec![(n(2), vec![n(20)])]);
    f.apply_edit(inverse, None).expect("the inverse applies");
    assert_eq!(f.axes, figure().axes);
    let inverse = f.apply_remove(n(11), None).expect("the removal applies");
    assert_eq!(
        inverse,
        StructuralEdit::Insert {
            parent: n(1),
            index: Some(1),
            node: Subtree::Artist(n(11))
        }
    );
    f.apply_edit(inverse, None).expect("the inverse applies");
    assert_eq!(f.axes, figure().axes);
}

#[test]
fn a_move_is_undone_by_its_inverse() {
    let mut f = figure();
    let inverse = f.apply_move(n(10), n(2), None, None).expect("the move applies");
    assert_eq!(
        inverse,
        StructuralEdit::Move {
            node: n(10),
            parent: n(1),
            index: Some(0)
        }
    );
    assert_eq!(f.axes, vec![(n(1), vec![n(11)]), (n(2), vec![n(20), n(10)])]);
    f.apply_edit(inverse, None).expect("the inverse applies");
    assert_eq!(f, figure());
    let inverse = f.apply_move(n(1), n(0), Some(1), None).expect("the move applies");
    assert_eq!(f.axes[0].0, n(2));
    f.apply_edit(inverse, None).expect("the inverse applies");
    assert_eq!(f, figure());
    let inverse = f.apply_move(n(10), n(1), Some(1), None).expect("the move applies");
    assert_eq!(f.axes[0], (n(1), vec![n(11), n(10)]));
    f.apply_edit(inverse, None).expect("the inverse applies");
    assert_eq!(f, figure());
}

#[test]
fn structural_edits_report_each_error() {
    let mut f = figure();
    assert_eq!(
        f.apply_insert(n(7), None, Subtree::Artist(n(5)), Some(1)),
        Err(EditError::UnknownNode { edit: Some(1), node: n(7) })
    );
    assert_eq!(
        f.apply_insert(n(0), None, Subtree::Artist(n(5)), None),
        Err(EditError::InvalidParent { edit: None, node: n(5), parent: n(0) })
    );
    assert_eq!(
        f.apply_insert(n(1), None, Subtree::Axes(n(5), vec![]), None),
        Err(EditError::InvalidParent { edit: None, node: n(5), parent: n(1) })
    );
    assert_eq!(
        f.apply_insert(n(0), None, Subtree::Axes(n(5), vec![n(6), n(20)]), None),
        Err(EditError::DuplicateId { edit: None, node: n(20) })
    );
    assert_eq!(
        f.apply_insert(n(0), None, Subtree::Axes(n(5), vec![n(6), n(6)]), None),
        Err(EditError::DuplicateId { edit: None, node: n(6) })
    );
    assert_eq!(
        f.apply_insert(n(2), Some(2), Subtree::Artist(n(5)), None),
        Err(EditError::IndexOutOfRange { edit: None, parent: n(2), index: 2, len: 1 })
    );
    assert_eq!(
        f.apply_remove(n(0), Some(4)),
        Err(EditError::RootNode { edit: Some(4), node: n(0) })
    );
    assert_eq!(
        f.apply_remove(n(9), None),
        Err(EditError::UnknownNode { edit: None, node: n(9) })
    );
    assert_eq!(
        f.apply_move(n(0), n(1), None, None),
        Err(EditError::RootNode { edit: None, node: n(0) })
    );
    assert_eq!(
        f.apply_move(n(10), n(0), None, None),
        Err(EditError::InvalidParent { edit: None, node: n(10), parent: n(0) })
    );
    assert_eq!(
        f.apply_move(n(10), n(9), None, None),
        Err(EditError::UnknownNode { edit: None, node: n(9) })
    );
    assert_eq!(
        f.apply_move(n(1), n(0), Some(2), None),
        Err(EditError::IndexOutOfRange { edit: None, parent: n(0), index: 2, len: 1 })
    );
    assert_eq!(f, figure());
}

#[test]
fn allocated_identifiers_are_new_and_distinct() {
    let mut f = figure();
    let a = f.alloc_node_id();
    let b = f.alloc_node_id();
    assert_eq!(a, n(21));
    assert_eq!(b, n(22));
    f.next = 100;
    assert_eq!(f.alloc_node_id(), n(100));
    let _ = DataId(0);
}

#[test]
fn a_failed_step_becomes_the_error_of_the_edit() {
    let p = path("x.limits.min");
    assert_eq!(
        edit_error(Some(NodeKind::Axes), Some(2), n(5), p.clone(), Step::Inactive),
        EditError::InactiveVariant { edit: Some(2), node: n(5), path: p.clone() }
    );
    assert_eq!(
        edit_error(Some(NodeKind::Axes), None, n(5), path("title.content"), Step::Absent),
        EditError::AbsentValue { edit: None, node: n(5), path: path("title.content") }
    );
    assert_eq!(
        edit_error(Some(NodeKind::Line), None, n(5), p.clone(), Step::Inactive),
        EditError::UnknownPath { edit: None, node: n(5), path: p.clone() }
    );
    assert_eq!(
        edit_error(None, None, n(5), p.clone(), Step::Absent),
        EditError::UnknownPath { edit: None, node: n(5), path: p.clone() }
    );
    assert_eq!(
        edit_error(Some(NodeKind::Axes), None, n(5), path("id"), Step::ReadOnly),
        EditError::ReadOnly { edit: None, node: n(5), path: path("id") }
    );
    assert_eq!(
        edit_error(
            Some(NodeKind::Axes),
            None,
            n(5),
            p.clone(),
            Step::Type { expected: ValueType::Double, found: Some(ValueType::Bool) }
        ),
        EditError::TypeMismatch {
            edit: None,
            node: n(5),
            path: p.clone(),
            expected: ValueType::Double,
            found: Some(ValueType::Bool)
        }
    );
    assert_eq!(
        edit_error(Some(NodeKind::Axes), None, n(5), path("nope"), Step::Unknown),
        EditError::UnknownPath { edit: None, node: n(5), path: path("nope") }
    );
}

#[test]
fn a_transaction_returns_its_inverse_in_reverse_order() {
    let mut f = figure();
    let inverse = f
        .apply(vec![
            StructuralEdit::Insert { parent: n(2), index: Some(0), node: Subtree::Artist(n(21)) },
            StructuralEdit::Move { node: n(10), parent: n(2), index: None },
            StructuralEdit::Remove { node: n(1) },
        ])
        .expect("the transaction applies");
    assert_eq!(f.axes, vec![(n(2), vec![n(21), n(20), n(10)])]);
    assert_eq!(
        inverse,
        vec![
            StructuralEdit::Insert { parent: n(0), index: Some(0), node: Subtree::Axes(n(1), vec![n(11)]) },
            StructuralEdit::Move { node: n(10), parent: n(1), index: Some(0) },
            StructuralEdit::Remove { node: n(21) },
        ]
    );
    let again = f.apply(inverse).expect("the inverse applies");
    assert_eq!(f.axes, figure().axes);
    assert_eq!(again.len(), 3);
}

#[test]
fn a_failing_transaction_leaves_the_tree_as_it_was() {
    let mut f = figure();
    let result = f.apply(vec![
        StructuralEdit::Insert { parent: n(2), index: Some(0), node: Subtree::Artist(n(21)) },
        StructuralEdit::Remove { node: n(9) },
        StructuralEdit::Remove { node: n(1) },
    ]);
    assert_eq!(result, Err(EditError::UnknownNode { edit: Some(1), node: n(9) }));
    assert_eq!(f.axes, figure().axes);
    assert_eq!(f.next, 22);
    assert_eq!(f.alloc_node_id(), n(22));
}

#[test]
fn an_empty_transaction_changes_nothing() {
    let mut f = figure();
    assert_eq!(f.apply(vec![]), Ok(vec![]));
    assert_eq!(f, figure());
}

#[test]
fn the_registry_lists_no_unsettable_part() {
    for kind in [
        NodeKind::Figure,
        NodeKind::Axes,
        NodeKind::Line,
        NodeKind::Scatter,
        NodeKind::Contour,
        NodeKind::Quiver,
        NodeKind::Surface,
        NodeKind::Image,
        NodeKind::IndexedImage,
        NodeKind::MappedImage,
    ] {
        for p in properties(kind) {
            let first = p.path.segments()[0].as_str();
            assert!(
                !["id", "schema_version", "provenance", "data", "axes", "artists"].contains(&first),
                "{kind:?} lists {first}"
            );
        }
    }
}
