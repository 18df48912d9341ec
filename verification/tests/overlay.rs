use ironlab_ir::edit::effect::{EditEffect, ValueId};
use ironlab_ir::edit::tree::{NodeTree, TreeChange};
use ironlab_ir::edit::{EditError, PropertyPath};
use ironlab_ir::ids::{DataId, NodeId};
use ironlab_ir::overlay::{Dropped, Overlay, OverlayEntry, Resolution};

fn p(text: &str) -> PropertyPath {
    PropertyPath::from_str(text).expect("valid path")
}

fn set(node: u64, path: &str, value: u64) -> EditEffect {
    EditEffect::SetProperty { node: NodeId(node), path: p(path), value: ValueId(value) }
}

fn remove(node: u64) -> EditEffect {
    EditEffect::Tree(TreeChange::Remove { node: NodeId(node) })
}

/// The entries as `(node, path, value)`.
fn entries(overlay: &Overlay) -> Vec<(u64, String, u64)> {
    overlay
        .entries()
        .iter()
        .map(|e| (e.node.0, e.path.to_string(), e.value.0))
        .collect()
}

fn entry(node: u64, path: &str, value: u64) -> (u64, String, u64) {
    (node, path.to_string(), value)
}

/// Axes 1 holds artists 2 and 3; axes 4 holds artist 5.
fn tree() -> NodeTree {
    NodeTree::new(vec![
        (NodeId(1), vec![NodeId(2), NodeId(3)]),
        (NodeId(4), vec![NodeId(5)]),
    ])
}

#[test]
fn a_set_replaces_entries_at_and_below_its_path() {
    let mut overlay = Overlay::new();
    overlay.record(&vec![set(1, "projection.view3d.zoom", 1), set(1, "x", 2)]).unwrap();
    overlay.record(&vec![set(1, "x.limits", 3), set(1, "x.limits", 4)]).unwrap();
    overlay.record(&vec![set(1, "projection.view3d", 5), set(2, "visible", 6)]).unwrap();
    assert_eq!(
        entries(&overlay),
        [
            entry(1, "x", 2),
            entry(1, "x.limits", 4),
            entry(1, "projection.view3d", 5),
            entry(2, "visible", 6),
        ]
    );
}

#[test]
fn a_transaction_with_another_edit_is_not_recorded() {
    let mut overlay = Overlay::new();
    overlay.record(&vec![set(1, "x.limits", 1)]).unwrap();
    let result = overlay.record(&vec![set(1, "y.limits", 2), EditEffect::PutData { id: DataId(3) }]);
    assert_eq!(result, Err(EditError::NotASet { edit: Some(1) }));
    assert_eq!(entries(&overlay), [entry(1, "x.limits", 1)]);
    assert!(overlay.can_undo());
    assert!(!overlay.can_redo());
}

#[test]
fn undo_and_redo_move_between_steps() {
    let mut overlay = Overlay::new();
    assert!(!overlay.undo());
    overlay.record(&vec![set(1, "x.limits", 1)]).unwrap();
    overlay.record(&vec![set(1, "x.limits", 2)]).unwrap();
    assert!(overlay.undo());
    assert_eq!(entries(&overlay), [entry(1, "x.limits", 1)]);
    assert!(overlay.undo());
    assert!(entries(&overlay).is_empty());
    assert!(!overlay.can_undo());
    assert!(overlay.redo());
    assert!(overlay.redo());
    assert_eq!(entries(&overlay), [entry(1, "x.limits", 2)]);
    assert!(!overlay.redo());

    // A new step clears what could be redone.
    assert!(overlay.undo());
    overlay.record(&vec![set(1, "y.limits", 3)]).unwrap();
    assert!(!overlay.can_redo());
}

#[test]
fn a_step_groups_a_gesture_and_an_empty_change_adds_none() {
    let mut overlay = Overlay::new();
    overlay.begin_step();
    overlay.record(&vec![set(1, "x.limits", 1)]).unwrap();
    overlay.record(&vec![set(1, "x.limits", 2)]).unwrap();
    overlay.record(&vec![set(1, "x.limits", 3)]).unwrap();
    overlay.end_step();
    assert_eq!(entries(&overlay), [entry(1, "x.limits", 3)]);
    assert!(overlay.undo());
    assert!(entries(&overlay).is_empty());
    assert!(!overlay.can_undo());

    overlay.redo();
    overlay.record(&vec![set(1, "x.limits", 3)]).unwrap();
    overlay.begin_step();
    overlay.end_step();
    overlay.undo();
    assert!(entries(&overlay).is_empty());
}

#[test]
fn reverting_removes_exactly_one_entry() {
    let mut overlay = Overlay::new();
    overlay.record(&vec![set(1, "x", 2), set(1, "x.limits", 1), set(2, "x.limits", 3)]).unwrap();
    assert!(!overlay.revert(NodeId(1), &p("x.limits.min")));
    assert!(overlay.revert(NodeId(1), &p("x.limits")));
    assert_eq!(entries(&overlay), [entry(1, "x", 2), entry(2, "x.limits", 3)]);
    assert!(overlay.undo());
    assert_eq!(entries(&overlay).len(), 3);
}

#[test]
fn resetting_views_keeps_other_properties() {
    let mut overlay = Overlay::new();
    overlay
        .record(&vec![
            set(1, "x.limits", 1),
            set(1, "projection.view3d.zoom", 2),
            set(1, "projection", 3),
            set(2, "visible", 4),
            set(4, "y.limits.max", 5),
        ])
        .unwrap();
    overlay.reset_view(NodeId(1));
    assert_eq!(
        entries(&overlay),
        [entry(1, "projection", 3), entry(2, "visible", 4), entry(4, "y.limits.max", 5)]
    );
    overlay.reset_all_views();
    assert_eq!(entries(&overlay), [entry(1, "projection", 3), entry(2, "visible", 4)]);
}

#[test]
fn sets_of_the_owner_raise_conflicts_once() {
    let mut overlay = Overlay::new();
    overlay.record(&vec![set(1, "x.limits", 1), set(1, "y.limits", 2)]).unwrap();
    let raised = overlay.reconcile(
        tree(),
        &vec![set(1, "x", 9), set(1, "x", 9), set(4, "x.limits", 9), set(1, "z.limits", 9)],
    );
    assert_eq!(raised.len(), 1);
    assert_eq!(raised[0].node, NodeId(1));
    assert_eq!(raised[0].overlay_path.to_string(), "x.limits");
    assert_eq!(raised[0].source_path.to_string(), "x");
    assert_eq!(entries(&overlay).len(), 2);

    // The same conflict raised again is not kept twice.
    let again = overlay.reconcile(tree(), &vec![set(1, "x", 9)]);
    assert_eq!(again.len(), 1);
    assert_eq!(overlay.conflicts().len(), 1);

    // Keeping the user's value clears the conflict and keeps the entry.
    let conflict = overlay.conflicts()[0].clone();
    assert!(overlay.resolve(&conflict, Resolution::KeepMine));
    assert!(overlay.conflicts().is_empty());
    assert_eq!(entries(&overlay).len(), 2);
    assert!(!overlay.resolve(&conflict, Resolution::KeepMine));

    // Using the source's value removes the entry.
    overlay.reconcile(tree(), &vec![set(1, "x.limits.min", 9)]);
    let conflict = overlay.conflicts()[0].clone();
    assert!(overlay.resolve(&conflict, Resolution::UseSource));
    assert_eq!(entries(&overlay), [entry(1, "y.limits", 2)]);
    assert!(!overlay.can_redo());
}

#[test]
fn removing_a_node_drops_its_entries_everywhere() {
    let mut overlay = Overlay::new();
    overlay.record(&vec![set(2, "visible", 1)]).unwrap();
    overlay.record(&vec![set(1, "x.limits", 2), set(5, "visible", 3)]).unwrap();
    overlay.reconcile(tree(), &vec![set(2, "visible", 9)]);
    assert_eq!(overlay.conflicts().len(), 1);

    let raised = overlay.reconcile(tree(), &vec![remove(1)]);
    assert!(raised.is_empty());
    assert_eq!(entries(&overlay), [entry(5, "visible", 3)]);
    assert!(overlay.conflicts().is_empty());
    // The history keeps its steps, without the entries of the removed nodes.
    assert!(overlay.undo());
    assert!(entries(&overlay).is_empty());
    assert!(overlay.undo());
    assert!(entries(&overlay).is_empty());
}

#[test]
fn an_artist_moved_out_of_a_removed_axes_keeps_its_entries() {
    let mut overlay = Overlay::new();
    overlay.record(&vec![set(2, "visible", 1), set(3, "visible", 2)]).unwrap();
    let edits = vec![
        EditEffect::Tree(TreeChange::Move { node: NodeId(2), parent: NodeId(4) }),
        remove(1),
        EditEffect::Tree(TreeChange::InsertArtist { parent: NodeId(4), artist: NodeId(3) }),
    ];
    overlay.reconcile(tree(), &edits);
    assert_eq!(entries(&overlay), [entry(2, "visible", 1)]);
}

#[test]
fn discarding_dropped_entries_spends_their_step() {
    let mut overlay = Overlay::new();
    overlay.record(&vec![set(1, "x.limits", 1)]).unwrap();
    overlay.record(&vec![set(7, "visible", 2)]).unwrap();
    let dropped = vec![Dropped {
        entry: OverlayEntry { node: NodeId(7), path: p("visible"), value: ValueId(2) },
        reason: EditError::UnknownNode { edit: None, node: NodeId(7) },
    }];
    overlay.discard(&dropped);
    assert_eq!(entries(&overlay), [entry(1, "x.limits", 1)]);
    // The next undo reaches the step before the spent one.
    assert!(overlay.undo());
    assert!(entries(&overlay).is_empty());
    assert!(!overlay.can_undo());
}

#[test]
fn the_entries_save_as_sets() {
    let mut overlay = Overlay::new();
    overlay.record(&vec![set(1, "x.limits", 1), set(2, "visible", 2)]).unwrap();
    let sets = overlay.to_transaction();
    assert_eq!(sets.len(), 2);
    match &sets[1] {
        EditEffect::SetProperty { node, path, value } => {
            assert_eq!(*node, NodeId(2));
            assert_eq!(path.to_string(), "visible");
            assert_eq!(*value, ValueId(2));
        }
        other => panic!("not a set: {other:?}"),
    }
}
