use ironlab_ir::artist::Grid;
use ironlab_ir::check::{
    check_artist_data, check_equal_counts, check_grid, check_image_pixels, check_image_shape,
    check_references, check_shapes, check_something_to_draw, image_array_of, ArtistData,
    ArtistUsage,
};
use ironlab_ir::data::NdArrayElement;
use ironlab_ir::ids::{DataId, NodeId};
use ironlab_ir::link::Dimension;
use ironlab_ir::validate::{ArrayShape, IssueKind, ValidationIssue};

fn array(id: u64, shape: &[usize]) -> ArrayShape {
    ArrayShape {
        id: DataId(id),
        element: NdArrayElement::F64,
        shape: shape.to_vec(),
        len: shape.iter().product(),
    }
}

fn bytes(id: u64, shape: &[usize]) -> ArrayShape {
    ArrayShape { element: NdArrayElement::U8, ..array(id, shape) }
}

fn messages(issues: &[ValidationIssue]) -> Vec<&str> {
    issues.iter().map(|i| i.message.as_str()).collect()
}

fn line(x: u64, y: u64, z: Option<u64>) -> ArtistData {
    ArtistData::Line { x: DataId(x), y: DataId(y), z: z.map(DataId) }
}

#[test]
fn usage_lists_references_positions_and_needs() {
    let scatter = ArtistData::Scatter {
        x: DataId(1),
        y: DataId(2),
        z: None,
        size: Some(DataId(4)),
        color: None,
    };
    let usage = ArtistUsage::of(&scatter);
    assert_eq!(usage.references, vec![DataId(1), DataId(2), DataId(4)]);
    assert_eq!(usage.positions, vec![(Dimension::X, DataId(1)), (Dimension::Y, DataId(2))]);
    assert!(!usage.three_d);
    assert!(!usage.accepts_bytes);

    let quiver = ArtistData::Quiver {
        x: DataId(1),
        y: DataId(2),
        z: None,
        u: DataId(3),
        v: DataId(4),
        w: Some(DataId(5)),
    };
    let usage = ArtistUsage::of(&quiver);
    assert_eq!(usage.references, vec![DataId(1), DataId(2), DataId(3), DataId(4), DataId(5)]);
    assert!(usage.three_d);

    let surface = ArtistData::Surface {
        grid: Grid::Rectilinear { x: DataId(1), y: DataId(2) },
        z: DataId(3),
        c: None,
    };
    let usage = ArtistUsage::of(&surface);
    assert_eq!(
        usage.positions,
        vec![(Dimension::X, DataId(1)), (Dimension::Y, DataId(2)), (Dimension::Z, DataId(3))]
    );
    assert!(!usage.three_d);

    let image = ArtistData::IndexedImage { indices: DataId(9), on_wall: true };
    let usage = ArtistUsage::of(&image);
    assert_eq!(usage.references, vec![DataId(9)]);
    assert!(usage.positions.is_empty());
    assert!(usage.three_d && usage.accepts_bytes);
}

#[test]
fn unknown_and_byte_references_are_reported_once_each() {
    let table = vec![array(1, &[3]), bytes(2, &[3])];
    let references = vec![DataId(1), DataId(7), DataId(2), DataId(7), DataId(2)];
    let (issues, valid) = check_references(NodeId(5), &references, false, &table);
    assert!(!valid);
    assert_eq!(
        messages(&issues),
        [
            "data 7 is not in the data table",
            "data 2 holds u8 values, but the artist requires f64 values",
        ]
    );
    assert_eq!(issues[0].kind, IssueKind::UnknownData);
    assert_eq!(issues[1].kind, IssueKind::ElementTypeMismatch);
    assert_eq!(issues[0].node, Some(NodeId(5)));

    let (issues, valid) = check_references(NodeId(5), &vec![DataId(2)], true, &table);
    assert!(issues.is_empty());
    assert!(valid);
}

#[test]
fn an_array_that_does_not_fill_its_shape_is_no_valid_reference() {
    let mut broken = array(1, &[2, 2]);
    broken.len = 3;
    let (issues, valid) = check_references(NodeId(0), &vec![DataId(1)], false, &vec![broken]);
    assert!(issues.is_empty());
    assert!(!valid);
}

#[test]
fn differing_counts_are_a_shape_mismatch() {
    let table = vec![array(1, &[3]), array(2, &[2]), array(3, &[3])];
    let arrays = vec![Some(DataId(1)), Some(DataId(2)), None];
    let (issue, agree) = check_equal_counts(NodeId(4), "the coordinate arrays", &arrays, &table);
    assert!(!agree);
    let issue = issue.unwrap();
    assert_eq!(issue.kind, IssueKind::ShapeMismatch);
    assert_eq!(issue.message, "the coordinate arrays have different numbers of elements [3, 2]");

    let arrays = vec![Some(DataId(1)), None, Some(DataId(3))];
    let (issue, agree) = check_equal_counts(NodeId(4), "the coordinate arrays", &arrays, &table);
    assert!(agree);
    assert!(issue.is_none());
}

#[test]
fn grids_must_match_their_field() {
    let table = vec![array(1, &[4]), array(2, &[2]), array(3, &[3, 4]), array(4, &[12])];
    let rect = Grid::Rectilinear { x: DataId(1), y: DataId(2) };
    let (issue, agree) = check_grid(NodeId(1), rect, DataId(3), &table);
    assert!(!agree);
    assert_eq!(
        issue.unwrap().message,
        "the grid vectors have 4 x and 2 y values, but the field of shape [3, 4] needs 4 x and 3 y values"
    );

    let (issue, agree) = check_grid(NodeId(1), rect, DataId(4), &table);
    assert!(!agree);
    assert_eq!(issue.unwrap().message, "the field has shape [12], but it must be two-dimensional");

    let curvy = Grid::Curvilinear { x: DataId(3), y: DataId(4) };
    let (issue, agree) = check_grid(NodeId(1), curvy, DataId(3), &table);
    assert!(!agree);
    assert_eq!(
        issue.unwrap().message,
        "the grid coordinates have shapes [3, 4] and [12], but the field has shape [3, 4]"
    );

    let curvy = Grid::Curvilinear { x: DataId(3), y: DataId(3) };
    let (issue, agree) = check_grid(NodeId(1), curvy, DataId(3), &table);
    assert!(agree);
    assert!(issue.is_none());
}

#[test]
fn surface_colour_data_must_have_the_shape_of_its_field() {
    let table = vec![array(1, &[4]), array(2, &[3]), array(3, &[3, 4]), array(4, &[4, 3])];
    let surface = ArtistData::Surface {
        grid: Grid::Rectilinear { x: DataId(1), y: DataId(2) },
        z: DataId(3),
        c: Some(DataId(4)),
    };
    let (issues, agree) = check_shapes(NodeId(2), &surface, &table);
    assert!(!agree);
    assert_eq!(
        messages(&issues),
        ["the colour data has shape [4, 3], but the field has shape [3, 4]"]
    );
}

#[test]
fn empty_arrays_leave_nothing_to_draw() {
    let table = vec![array(1, &[0]), array(2, &[0]), array(3, &[1, 5]), array(4, &[5]), array(5, &[1])];
    let warning = check_something_to_draw(NodeId(3), &line(1, 2, None), &table).unwrap();
    assert_eq!(warning.kind, IssueKind::NothingToDraw);
    assert_eq!(
        warning.message,
        "the coordinate arrays have shape [0], so the artist has no points and is left out of the drawing"
    );

    let contour = ArtistData::Contour {
        grid: Grid::Rectilinear { x: DataId(4), y: DataId(5) },
        z: DataId(3),
        at_level: false,
    };
    let warning = check_something_to_draw(NodeId(3), &contour, &table).unwrap();
    assert_eq!(
        warning.message,
        "the field has shape [1, 5]: it has a single row of nodes, and a contour or surface draws \
         the cells between the nodes of its grid, of which there is none, so the artist is left out \
         of the drawing"
    );

    assert!(check_something_to_draw(NodeId(3), &line(4, 4, None), &table).is_none());
}

#[test]
fn artist_checks_combine_placement_references_shapes_and_warnings() {
    let table = vec![array(1, &[3]), array(2, &[2]), array(3, &[0]), array(4, &[0])];

    let (errors, warnings) = check_artist_data(NodeId(8), false, &line(1, 9, Some(2)), &table);
    assert_eq!(
        messages(&errors),
        [
            "a three-dimensional artist is placed in a two-dimensional axes",
            "data 9 is not in the data table",
        ]
    );
    assert_eq!(errors[0].kind, IssueKind::ThreeDArtistInTwoDAxes);
    assert!(warnings.is_empty());

    let (errors, warnings) = check_artist_data(NodeId(8), true, &line(1, 2, None), &table);
    assert_eq!(
        messages(&errors),
        ["the coordinate arrays have different numbers of elements [3, 2]"]
    );
    assert!(warnings.is_empty());

    let (errors, warnings) = check_artist_data(NodeId(8), false, &line(3, 4, None), &table);
    assert!(errors.is_empty());
    assert_eq!(
        messages(&warnings),
        ["the coordinate arrays have shape [0], so the artist has no points and is left out of the drawing"]
    );

    let image = ArtistData::Image { pixels: DataId(3), on_wall: false };
    let (errors, warnings) = check_artist_data(NodeId(8), false, &image, &table);
    assert_eq!(
        messages(&errors),
        ["the pixels have shape [0], but they must be a three-dimensional array whose last \
          dimension holds the 3 or 4 colour components of a pixel"]
    );
    assert!(warnings.is_empty());
    let mapped = ArtistData::MappedImage { values: DataId(9), on_wall: false };
    let (errors, _) = check_artist_data(NodeId(8), false, &mapped, &table);
    assert_eq!(messages(&errors), ["data 9 is not in the data table"]);
}

#[test]
fn images_need_the_shape_of_their_kind() {
    let table = vec![bytes(1, &[2, 3, 4]), bytes(2, &[2, 3, 2]), array(3, &[2, 3]), array(4, &[6])];
    let image = |id| ArtistData::Image { pixels: DataId(id), on_wall: false };
    let mapped = |id| ArtistData::MappedImage { values: DataId(id), on_wall: false };
    let indexed = |id| ArtistData::IndexedImage { indices: DataId(id), on_wall: true };

    assert_eq!(image_array_of(&indexed(3)), Some((DataId(3), "indices", false)));
    assert_eq!(image_array_of(&line(1, 2, None)), None);

    assert_eq!(check_image_shape(NodeId(6), &image(1), &table).unwrap(), (2, 3));
    let error = check_image_shape(NodeId(6), &image(2), &table).unwrap_err();
    assert_eq!(error.kind, IssueKind::ShapeMismatch);
    assert_eq!(
        error.message,
        "the pixels have shape [2, 3, 2], but they must be a three-dimensional array whose last \
         dimension holds the 3 or 4 colour components of a pixel"
    );
    assert_eq!(check_image_shape(NodeId(6), &mapped(3), &table).unwrap(), (2, 3));
    assert_eq!(
        check_image_shape(NodeId(6), &mapped(4), &table).unwrap_err().message,
        "the values have shape [6], but they must be two-dimensional"
    );
}

#[test]
fn images_without_pixels_leave_nothing_to_draw() {
    let table = vec![array(1, &[0, 5]), array(2, &[0, 0]), array(3, &[4, 0])];
    let mapped = |id| ArtistData::MappedImage { values: DataId(id), on_wall: false };
    let warning = check_image_pixels(NodeId(2), &mapped(1), &table, 0, 5).unwrap();
    assert_eq!(warning.kind, IssueKind::NothingToDraw);
    assert_eq!(
        warning.message,
        "the values have shape [0, 5], so the image has no rows of pixels and is left out of the drawing"
    );
    assert_eq!(
        check_image_pixels(NodeId(2), &mapped(2), &table, 0, 0).unwrap().message,
        "the values have shape [0, 0], so the image has no rows and no columns of pixels and is left out of the drawing"
    );
    assert_eq!(
        check_image_pixels(NodeId(2), &mapped(3), &table, 4, 0).unwrap().message,
        "the values have shape [4, 0], so the image has no columns of pixels and is left out of the drawing"
    );
    assert!(check_image_pixels(NodeId(2), &mapped(1), &table, 2, 2).is_none());
}
