use ironlab_ir::axes::Cell;
use ironlab_ir::figure::TileLayout;
use ironlab_ir::data::NdArrayElement;
use ironlab_ir::ids::{DataId, NodeId};
use ironlab_ir::edit::value::{PlainEdit, PlainValue};
use ironlab_ir::edit::PropertyPath;
use ironlab_ir::link::{links_edit, AxisLink, Dimension, FigureLinks, UnknownAxes};
use ironlab_ir::validate::{
    array_issues, cell_issue, dangling_link_issues, duplicate_id_issues, figure_structure_issues, label_issues,
    parameter_name_issues, ArrayShape,
    IssueKind,
};

fn messages(issues: &[ironlab_ir::validate::ValidationIssue]) -> Vec<&str> {
    issues.iter().map(|i| i.message.as_str()).collect()
}

#[test]
fn empty_and_repeated_labels_are_errors() {
    let labels: Vec<String> = ["a", "", "A", "a", "b\"c", "b\"c", "a"]
        .iter()
        .map(|s| s.to_string())
        .collect();
    let issues = label_issues(NodeId(0), &labels);
    assert_eq!(
        messages(&issues),
        [
            "the label in position 2 is empty",
            "the label \"a\" occurs more than once",
            "the label \"b\\\"c\" occurs more than once",
            "the label \"a\" occurs more than once",
        ]
    );
    assert!(issues
        .iter()
        .all(|i| i.node == Some(NodeId(0)) && i.kind == IssueKind::InvalidLabel));
    assert!(label_issues(NodeId(0), &vec!["x".to_owned(), "y".to_owned()]).is_empty());
}

#[test]
fn shared_identifiers_are_reported_once_each_in_ascending_order() {
    let ids: Vec<NodeId> = [5, 1, 3, 5, 1, 5, 2].iter().map(|&i| NodeId(i)).collect();
    let issues = duplicate_id_issues(&ids);
    assert_eq!(
        messages(&issues),
        ["2 nodes share the identifier of node 1", "3 nodes share the identifier of node 5"]
    );
    assert_eq!(issues[0].node, Some(NodeId(1)));
    assert_eq!(issues[1].kind, IssueKind::DuplicateNodeId);
    assert!(duplicate_id_issues(&vec![NodeId(1), NodeId(2)]).is_empty());
}

#[test]
fn link_members_that_are_not_axes_are_dangling() {
    let axes = vec![NodeId(1), NodeId(2)];
    let links = vec![
        AxisLink { dimension: Dimension::X, axes: vec![NodeId(1), NodeId(9)] },
        AxisLink { dimension: Dimension::Z, axes: vec![NodeId(8), NodeId(2)] },
    ];
    let issues = dangling_link_issues(&axes, &links);
    assert_eq!(
        messages(&issues),
        [
            "a link along X refers to node 9, which is not an axes",
            "a link along Z refers to node 8, which is not an axes",
        ]
    );
    assert!(issues.iter().all(|i| i.node.is_none() && i.kind == IssueKind::DanglingLink));
}

#[test]
fn arrays_whose_values_do_not_fill_their_shape_are_errors() {
    let arrays = vec![
        ArrayShape { element: NdArrayElement::F64, id: DataId(0), shape: vec![2, 3], len: 6 },
        ArrayShape { element: NdArrayElement::F64, id: DataId(1), shape: vec![2, 3], len: 5 },
        ArrayShape { element: NdArrayElement::F64, id: DataId(2), shape: vec![], len: 0 },
        ArrayShape { element: NdArrayElement::F64, id: DataId(3), shape: vec![usize::MAX, 2, 0], len: 0 },
        ArrayShape { element: NdArrayElement::F64, id: DataId(4), shape: vec![usize::MAX, 2], len: 0 },
    ];
    let issues = array_issues(&arrays);
    assert_eq!(
        messages(&issues),
        [
            "data 1 has 5 values, which does not match its shape [2, 3]",
            "data 2 has 0 values, which does not match its shape []",
            "data 4 has 0 values, which does not match its shape [18446744073709551615, 2]",
        ]
    );
}

#[test]
fn cells_outside_the_layout_are_errors() {
    let layout = TileLayout { rows: 2, cols: 3 };
    let inside = Cell { row: 1, col: 1, row_span: 1, col_span: 2 };
    assert!(cell_issue(NodeId(4), inside, layout).is_none());
    let below = Cell { row: 1, col: 0, row_span: 2, col_span: 1 };
    let issue = cell_issue(NodeId(4), below, layout).expect("outside");
    assert_eq!(issue.node, Some(NodeId(4)));
    assert_eq!(issue.kind, IssueKind::CellOutOfLayout);
    assert_eq!(
        issue.message,
        "the cell Cell { row: 1, col: 0, row_span: 2, col_span: 1 } does not lie within the 2 × 3 tile layout"
    );
    let empty = Cell { row: 0, col: 0, row_span: 0, col_span: 1 };
    assert!(cell_issue(NodeId(4), empty, layout).is_some());
    let far = Cell { row: u32::MAX, col: 0, row_span: u32::MAX, col_span: 1 };
    assert!(cell_issue(NodeId(4), far, TileLayout { rows: u32::MAX, cols: 1 }).is_some());
}

fn ids(v: &[u64]) -> Vec<NodeId> {
    v.iter().map(|&i| NodeId(i)).collect()
}

fn figure_links() -> FigureLinks {
    FigureLinks {
        axes: ids(&[1, 2, 3, 4, 5]),
        links: vec![
            AxisLink { dimension: Dimension::X, axes: ids(&[4, 2]) },
            AxisLink { dimension: Dimension::Y, axes: ids(&[1, 2]) },
            AxisLink { dimension: Dimension::X, axes: ids(&[2, 1, 9]) },
        ],
    }
}

#[test]
fn linked_axes_follow_overlapping_groups_in_figure_order() {
    let f = figure_links();
    assert_eq!(f.linked_axes(NodeId(4), Dimension::X), ids(&[1, 2, 4]));
    assert_eq!(f.linked_axes(NodeId(1), Dimension::X), ids(&[1, 2, 4]));
    assert_eq!(f.linked_axes(NodeId(1), Dimension::Y), ids(&[1, 2]));
    assert_eq!(f.linked_axes(NodeId(3), Dimension::X), ids(&[3]));
    assert_eq!(f.linked_axes(NodeId(5), Dimension::Z), ids(&[5]));
    assert_eq!(f.linked_axes(NodeId(9), Dimension::X), ids(&[]));
}

#[test]
fn removing_an_axes_drops_it_from_every_link() {
    let f = figure_links();
    let links = f.links_without(NodeId(2));
    assert_eq!(
        links,
        vec![AxisLink { dimension: Dimension::X, axes: ids(&[1, 9]) }]
    );
    assert_eq!(f.links_without(NodeId(7)), f.links);
}

#[test]
fn identifiers_are_ordered_as_their_axes_appear() {
    let f = FigureLinks {
        axes: ids(&[7, 3, 5]),
        links: vec![],
    };
    assert_eq!(f.order_key(NodeId(3)), (1, NodeId(3)));
    assert_eq!(f.order_key(NodeId(9)), (usize::MAX, NodeId(9)));
    assert_eq!(f.in_figure_order(&ids(&[9, 5, 2, 7, 3])), ids(&[7, 3, 5, 2, 9]));
    assert_eq!(f.in_figure_order(&ids(&[])), ids(&[]));
}

#[test]
fn linking_merges_groups_and_keeps_other_dimensions() {
    let f = FigureLinks {
        axes: ids(&[1, 2, 3, 4, 5]),
        links: vec![
            AxisLink { dimension: Dimension::X, axes: ids(&[4, 5]) },
            AxisLink { dimension: Dimension::Y, axes: ids(&[1, 2]) },
            AxisLink { dimension: Dimension::X, axes: ids(&[3, 3]) },
            AxisLink { dimension: Dimension::X, axes: ids(&[2, 1]) },
        ],
    };
    let links = f.link_groups(Dimension::X, &ids(&[5, 1]));
    assert_eq!(
        links,
        vec![
            AxisLink { dimension: Dimension::Y, axes: ids(&[1, 2]) },
            AxisLink { dimension: Dimension::X, axes: ids(&[1, 2, 4, 5]) },
        ]
    );
    let links = f.link_groups(Dimension::X, &ids(&[3, 9]));
    assert_eq!(
        links,
        vec![
            AxisLink { dimension: Dimension::Y, axes: ids(&[1, 2]) },
            AxisLink { dimension: Dimension::X, axes: ids(&[1, 2]) },
            AxisLink { dimension: Dimension::X, axes: ids(&[3, 9]) },
            AxisLink { dimension: Dimension::X, axes: ids(&[4, 5]) },
        ]
    );
    let links = f.link_groups(Dimension::Z, &ids(&[2]));
    assert_eq!(links, f.links);
}

#[test]
fn setting_limits_sets_the_whole_group() {
    let f = figure_links();
    assert_eq!(f.set_limits(NodeId(4), Dimension::X), Ok(ids(&[1, 2, 4])));
    assert_eq!(f.set_limits(NodeId(3), Dimension::Y), Ok(ids(&[3])));
    assert_eq!(f.set_limits(NodeId(9), Dimension::X), Err(UnknownAxes(NodeId(9))));
}

#[test]
fn linking_sets_the_group_of_the_first_axes() {
    let f = figure_links();
    let plan = f.link(Dimension::Y, &ids(&[3, 1, 3])).unwrap().unwrap();
    assert_eq!(
        plan.links,
        vec![
            AxisLink { dimension: Dimension::X, axes: ids(&[4, 2]) },
            AxisLink { dimension: Dimension::X, axes: ids(&[2, 1, 9]) },
            AxisLink { dimension: Dimension::Y, axes: ids(&[1, 2, 3]) },
        ]
    );
    assert_eq!(plan.group, ids(&[1, 2, 3]));

    assert!(f.link(Dimension::X, &ids(&[5, 5])).unwrap().is_none());
    assert!(f.link(Dimension::X, &ids(&[])).unwrap().is_none());
    assert_eq!(f.link(Dimension::X, &ids(&[5, 8, 7])).err(), Some(UnknownAxes(NodeId(8))));
}

#[test]
fn removing_an_axes_unlinks_it_first() {
    let f = figure_links();
    assert_eq!(
        f.remove_axes(NodeId(1)),
        Ok(Some(vec![
            AxisLink { dimension: Dimension::X, axes: ids(&[4, 2]) },
            AxisLink { dimension: Dimension::X, axes: ids(&[2, 9]) },
        ]))
    );
    assert_eq!(f.remove_axes(NodeId(3)), Ok(None));
    assert_eq!(f.remove_axes(NodeId(9)), Err(UnknownAxes(NodeId(9))));
}

#[test]
fn removing_an_axes_is_a_transaction_that_sets_the_links_first() {
    let f = figure_links();
    let links = vec![
        AxisLink { dimension: Dimension::X, axes: ids(&[4, 2]) },
        AxisLink { dimension: Dimension::X, axes: ids(&[2, 9]) },
    ];
    assert_eq!(
        f.remove_axes_transaction(NodeId(0), NodeId(1)),
        Ok(vec![
            PlainEdit::SetProperty {
                node: NodeId(0),
                path: PropertyPath::from_str("links").expect("valid"),
                value: PlainValue::Links(links.clone())
            },
            PlainEdit::Remove { node: NodeId(1) },
        ])
    );
    assert_eq!(links_edit(NodeId(0), links.clone()), f.remove_axes_transaction(NodeId(0), NodeId(1)).unwrap()[0]);
    assert_eq!(f.remove_axes_transaction(NodeId(0), NodeId(3)), Ok(vec![PlainEdit::Remove { node: NodeId(3) }]));
    assert_eq!(f.remove_axes_transaction(NodeId(0), NodeId(9)), Err(UnknownAxes(NodeId(9))));
}

#[test]
fn a_parameter_needs_a_name() {
    let names: Vec<String> = ["", "alpha", "beta"].iter().map(|s| s.to_string()).collect();
    let issues = parameter_name_issues(NodeId(0), &names);
    assert_eq!(messages(&issues), ["a parameter has an empty name"]);
    assert_eq!(issues[0].kind, IssueKind::InvalidParameter);
    assert_eq!(issues[0].node, Some(NodeId(0)));
    assert!(parameter_name_issues(NodeId(0), &names[1..].to_vec()).is_empty());
}

#[test]
fn the_structure_of_a_figure_is_checked_in_order() {
    let labels = vec!["a".to_owned(), String::new()];
    let arrays = vec![ArrayShape { element: NdArrayElement::F64, id: DataId(1), shape: vec![2, 3], len: 5 }];
    let node_ids = ids(&[0, 1, 1, 2]);
    let axes = ids(&[1, 2]);
    let links = vec![AxisLink { dimension: Dimension::X, axes: ids(&[1, 9]) }];
    let issues = figure_structure_issues(NodeId(0), &labels, &arrays, &node_ids, &axes, &links);
    assert_eq!(
        messages(&issues),
        [
            "the label in position 2 is empty",
            "data 1 has 5 values, which does not match its shape [2, 3]",
            "2 nodes share the identifier of node 1",
            "a link along X refers to node 9, which is not an axes",
        ]
    );
    assert!(figure_structure_issues(NodeId(0), &vec![], &vec![], &ids(&[0, 1]), &axes, &vec![]).is_empty());
}
