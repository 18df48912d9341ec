use ironlab_ir::artist::Grid;
use ironlab_ir::check::ArtistData;
use ironlab_ir::edit::tree::{NodeTree, TreeChange};
use ironlab_ir::ids::{DataId, NodeId};
use ironlab_ir::edit::effect::EditEffect;
use ironlab_ir::selection::{ArtistArrays, Selection};

/// Axes 1 holds artists 2 and 3; axes 4 holds artist 5.
fn tree() -> NodeTree {
    NodeTree::new(vec![
        (NodeId(1), vec![NodeId(2), NodeId(3)]),
        (NodeId(4), vec![NodeId(5)]),
    ])
}

fn line() -> ArtistData {
    ArtistData::Line { x: DataId(10), y: DataId(11), z: None }
}

fn append(id: u64, shape: &[usize], retain: Option<u64>) -> EditEffect {
    EditEffect::AppendData { id: DataId(id), shape: shape.to_vec(), retain }
}

fn follow(selection: &Selection, edits: Vec<EditEffect>) -> Option<Selection> {
    selection.updated(tree(), Some(ArtistArrays::of(&line())), Some(vec![5]), &edits)
}

#[test]
fn artist_arrays_name_the_primary_array_and_every_reference() {
    let arrays = ArtistArrays::of(&ArtistData::Quiver {
        x: DataId(1),
        y: DataId(2),
        z: Some(DataId(3)),
        u: DataId(4),
        v: DataId(5),
        w: None,
    });
    assert_eq!(arrays.primary, DataId(1));
    assert_eq!(arrays.all, vec![DataId(1), DataId(2), DataId(4), DataId(5), DataId(3)]);

    let arrays = ArtistArrays::of(&ArtistData::Surface {
        grid: Grid::Curvilinear { x: DataId(1), y: DataId(2) },
        z: DataId(3),
        c: Some(DataId(4)),
    });
    assert_eq!(arrays.primary, DataId(3));
    assert_eq!(arrays.all, vec![DataId(1), DataId(2), DataId(3), DataId(4)]);
}

#[test]
fn appending_without_retain_keeps_the_indices() {
    let selection = Selection::points(NodeId(2), vec![4, 1, 3]);
    let after = follow(&selection, vec![append(10, &[2], None)]).unwrap();
    assert_eq!(after, Selection::points(NodeId(2), vec![1, 3, 4]));
}

#[test]
fn retaining_a_window_shifts_the_indices_down() {
    let selection = Selection::points(NodeId(2), vec![1, 3, 4]);
    // 5 + 2 entries, of which the last 4 are kept: 3 are discarded.
    let after = follow(&selection, vec![append(10, &[2], Some(4))]).unwrap();
    assert_eq!(after.indices, Some(vec![0, 1]));

    // A window larger than the array discards nothing.
    let after = follow(&selection, vec![append(10, &[2], Some(100))]).unwrap();
    assert_eq!(after.indices, Some(vec![1, 3, 4]));

    // Appending to another array than the primary one changes nothing.
    let after = follow(&selection, vec![append(11, &[2], Some(1))]).unwrap();
    assert_eq!(after.indices, Some(vec![1, 3, 4]));
}

#[test]
fn the_window_follows_the_earlier_edits_of_the_transaction() {
    let selection = Selection::points(NodeId(2), vec![2, 4]);
    // 5 + 1 = 6 entries, 5 kept: 1 discarded; then 5 + 3 = 8 entries, 6 kept: 2
    // more discarded.
    let edits = vec![append(10, &[1], Some(5)), append(10, &[3], Some(6))];
    let after = follow(&selection, edits).unwrap();
    assert_eq!(after.indices, Some(vec![1]));
}

#[test]
fn discarding_every_selected_entry_keeps_an_empty_list() {
    let selection = Selection::points(NodeId(2), vec![0, 1]);
    let after = follow(&selection, vec![append(10, &[1], Some(1))]).unwrap();
    assert_eq!(after.node, NodeId(2));
    assert_eq!(after.indices, Some(vec![]));
}

#[test]
fn rows_of_a_field_are_discarded_with_all_their_values() {
    let contour = ArtistData::Contour {
        grid: Grid::Rectilinear { x: DataId(1), y: DataId(2) },
        z: DataId(3),
        at_level: false,
    };
    let selection = Selection::points(NodeId(3), vec![2, 5, 9]);
    let edits = vec![append(3, &[1, 4], Some(3))];
    let after = selection
        .updated(tree(), Some(ArtistArrays::of(&contour)), Some(vec![3, 4]), &edits)
        .unwrap();
    assert_eq!(after.indices, Some(vec![1, 5]));
}

#[test]
fn replacing_an_array_of_the_artist_drops_the_indices() {
    let selection = Selection::points(NodeId(2), vec![1]);
    let after = follow(&selection, vec![EditEffect::PutData { id: DataId(11) }]).unwrap();
    assert_eq!(after, Selection::node(NodeId(2)));

    let after = follow(&selection, vec![EditEffect::PutData { id: DataId(99) }]).unwrap();
    assert_eq!(after, selection);
}

#[test]
fn removing_the_node_or_its_axes_clears_the_selection() {
    let selection = Selection::node(NodeId(2));
    let remove = |node| EditEffect::Tree(TreeChange::Remove { node: NodeId(node) });
    assert_eq!(follow(&selection, vec![remove(2)]), None);
    assert_eq!(follow(&selection, vec![remove(1)]), None);
    assert_eq!(follow(&selection, vec![remove(3)]), Some(selection.clone()));

    // A later insertion of a node with the same identifier does not bring it back.
    let reinsert = EditEffect::Tree(TreeChange::InsertArtist { parent: NodeId(4), artist: NodeId(2) });
    assert_eq!(follow(&selection, vec![remove(1), reinsert]), None);
}

#[test]
fn an_artist_moved_out_of_a_removed_axes_stays_selected() {
    let selection = Selection::points(NodeId(2), vec![3]);
    let edits = vec![
        EditEffect::Tree(TreeChange::Move { node: NodeId(2), parent: NodeId(4) }),
        EditEffect::Tree(TreeChange::Remove { node: NodeId(1) }),
        EditEffect::RemoveData { id: DataId(10) },
    ];
    assert_eq!(follow(&selection, edits), Some(selection.clone()));
}
