use ironlab_ir::artist::Grid;
use ironlab_ir::axes::{Cell, ColormapName, Legend, LegendLocation, Scale};
use ironlab_ir::figure::{FontSetId, TileLayout};
use ironlab_ir::edit::value::{PlainEdit, PlainValue, ValueType};
use ironlab_ir::edit::{PathError, PropertyPath};
use ironlab_ir::ids::{DataId, NodeId};
use ironlab_ir::link::{AxisLink, Dimension};
use ironlab_ir::style::{DashStyle, MarkerShape};
use ironlab_ir::text::{Interpreter, Text};
use ironlab_ir::wire::convert::{
    data_id, decode_cell, decode_display_name, decode_edit, decode_enum, decode_grid, decode_legend,
    decode_links, decode_text, decode_tile_layout, decode_value, encode_cell, encode_grid,
    encode_legend, encode_links, encode_text, encode_tile_layout, encode_value, join, node_id,
    required, value_message, ProtobufError, WireEnum,
};
use ironlab_ir::wire::message as w;

fn missing(r: Result<impl std::fmt::Debug, ProtobufError>) -> String {
    match r {
        Err(ProtobufError::MissingField { field }) => field,
        other => panic!("expected a missing field, got {other:?}"),
    }
}

fn unknown(r: Result<impl std::fmt::Debug, ProtobufError>) -> (String, i32) {
    match r {
        Err(ProtobufError::UnknownEnumValue { field, value }) => (field, value),
        other => panic!("expected an unknown enum value, got {other:?}"),
    }
}

#[test]
fn paths_of_fields_are_joined_with_dots() {
    assert_eq!(join("", "axes"), "axes");
    assert_eq!(join("axes[0]", "x"), "axes[0].x");
}

#[test]
fn fields_without_a_default_are_required() {
    assert_eq!(required(Some(4), "a", "b").ok(), Some(4));
    assert_eq!(missing(required::<u8>(None, "axes[0]", "kind")), "axes[0].kind");
    assert_eq!(node_id(Some(9), "").ok(), Some(NodeId(9)));
    assert_eq!(missing(node_id(None, "axes[1]")), "axes[1].id");
    assert_eq!(data_id(Some(2), "", "x").ok(), Some(DataId(2)));
    assert_eq!(missing(data_id(None, "", "x")), "x");
    let (message, within) = value_message(Some(5u8), "edits[0]", "limits").ok().unwrap();
    assert_eq!(message, 5);
    assert_eq!(within, "edits[0].limits.value");
    assert_eq!(missing(value_message::<u8>(None, "edits[0]", "limits")), "edits[0].limits.value");
}

#[test]
fn enum_values_decode_with_defaults() {
    assert_eq!(decode_enum(2, None, "", "scale").ok(), Some(Scale::Log));
    assert_eq!(decode_enum(0, Some(Scale::Linear), "", "scale").ok(), Some(Scale::Linear));
    assert_eq!(missing(decode_enum::<Dimension>(0, None, "links[0]", "dimension")), "links[0].dimension");
    assert_eq!(
        unknown(decode_enum::<Scale>(9, Some(Scale::Linear), "axes[0].x", "scale")),
        ("axes[0].x.scale".to_owned(), 9)
    );
}

#[test]
fn every_enum_variant_survives_the_wire() {
    fn check<E: WireEnum + PartialEq + std::fmt::Debug>(values: &[E]) {
        for (i, &v) in values.iter().enumerate() {
            assert_eq!(v.to_wire(), i as i32 + 1);
            assert_eq!(E::from_wire(v.to_wire()), Some(Some(v)));
        }
        assert_eq!(E::from_wire(0), Some(None));
        assert_eq!(E::from_wire(values.len() as i32 + 1), None);
        assert_eq!(E::from_wire(-1), None);
    }
    check(&[FontSetId::StixTwo]);
    check(&[Interpreter::Latex, Interpreter::Plain]);
    check(&[Scale::Linear, Scale::Log]);
    check(&[
        ColormapName::Viridis,
        ColormapName::Cividis,
        ColormapName::Magma,
        ColormapName::Inferno,
        ColormapName::Plasma,
        ColormapName::Coolwarm,
        ColormapName::Gray,
    ]);
    check(&[
        LegendLocation::NorthEast,
        LegendLocation::NorthWest,
        LegendLocation::SouthEast,
        LegendLocation::SouthWest,
        LegendLocation::North,
        LegendLocation::South,
        LegendLocation::East,
        LegendLocation::West,
        LegendLocation::Best,
    ]);
    check(&[DashStyle::Solid, DashStyle::Dashed, DashStyle::Dotted, DashStyle::DashDot, DashStyle::NoLine]);
    check(&[
        MarkerShape::NoMarker,
        MarkerShape::Circle,
        MarkerShape::Square,
        MarkerShape::Diamond,
        MarkerShape::TriangleUp,
        MarkerShape::TriangleDown,
        MarkerShape::Plus,
        MarkerShape::Cross,
        MarkerShape::Point,
    ]);
    check(&[Dimension::X, Dimension::Y, Dimension::Z]);
}

#[test]
fn plain_properties_survive_the_wire() {
    let layout = TileLayout { rows: 2, cols: 3 };
    assert_eq!(encode_tile_layout(layout), w::TileLayout { rows: Some(2), cols: Some(3) });
    assert_eq!(decode_tile_layout(encode_tile_layout(layout)), layout);
    let cell = Cell { row: 1, col: 2, row_span: 3, col_span: 4 };
    assert_eq!(decode_cell(encode_cell(cell)), cell);
    let legend = Legend { location: LegendLocation::West, boxed: false };
    assert_eq!(encode_legend(legend).location, 8);
    assert_eq!(decode_legend(encode_legend(legend), "axes[0].legend").ok(), Some(legend));
    for grid in [
        Grid::Rectilinear { x: DataId(1), y: DataId(2) },
        Grid::Curvilinear { x: DataId(3), y: DataId(4) },
    ] {
        assert_eq!(decode_grid(Some(encode_grid(grid)), "grid").ok(), Some(grid));
    }
    let text = Text::plain("a $b$");
    let wire = encode_text(&text);
    assert_eq!(wire.interpreter, 2);
    assert_eq!(decode_text(wire, "title").ok(), Some(text));
    let links = vec![AxisLink { dimension: Dimension::Y, axes: vec![NodeId(1), NodeId(2)] }];
    let wire = encode_links(&links);
    assert_eq!(wire, vec![w::AxisLink { dimension: 2, axes: vec![1, 2] }]);
    assert_eq!(decode_links(wire, "").ok(), Some(links));
}

#[test]
fn absent_fields_take_their_defaults() {
    assert_eq!(decode_tile_layout(w::TileLayout::default()), TileLayout { rows: 1, cols: 1 });
    assert_eq!(
        decode_cell(w::Cell { row: Some(2), ..w::Cell::default() }),
        Cell { row: 2, col: 0, row_span: 1, col_span: 1 }
    );
    assert_eq!(
        decode_legend(w::Legend::default(), "").ok(),
        Some(Legend { location: LegendLocation::NorthEast, boxed: true })
    );
    let text = decode_text(w::Text { content: "t".to_owned(), interpreter: 0 }, "").ok().unwrap();
    assert_eq!(text.interpreter, Interpreter::Latex);
    assert_eq!(decode_display_name(None, "axes[0].artists[0]").ok(), Some(None));
}

#[test]
fn undefined_and_missing_values_are_reported_with_their_paths() {
    assert_eq!(
        unknown(decode_legend(w::Legend { location: 42, boxed: None }, "axes[0].legend")),
        ("axes[0].legend.location".to_owned(), 42)
    );
    assert_eq!(
        unknown(decode_display_name(
            Some(w::Text { content: String::new(), interpreter: 7 }),
            "axes[0].artists[2]"
        )),
        ("axes[0].artists[2].display_name.interpreter".to_owned(), 7)
    );
    let links = vec![
        w::AxisLink { dimension: 1, axes: vec![] },
        w::AxisLink { dimension: 0, axes: vec![3] },
    ];
    assert_eq!(missing(decode_links(links, "")), "links[1].dimension");
    let links = vec![w::AxisLink { dimension: 11, axes: vec![] }];
    assert_eq!(unknown(decode_links(links, "")), ("links[0].dimension".to_owned(), 11));
    assert_eq!(missing(decode_grid(None, "axes[0].artists[1].grid")), "axes[0].artists[1].grid");
    assert_eq!(missing(decode_grid(Some(w::Grid { kind: None }), "grid")), "grid.kind");
    let half = w::Grid {
        kind: Some(w::GridKind::Curvilinear(w::GridCurvilinear { x: Some(1), y: None })),
    };
    assert_eq!(missing(decode_grid(Some(half), "grid")), "grid.curvilinear.y");
    let none = w::Grid {
        kind: Some(w::GridKind::Rectilinear(w::GridRectilinear { x: None, y: None })),
    };
    assert_eq!(missing(decode_grid(Some(none), "grid")), "grid.rectilinear.x");
}

fn round_trip(value: PlainValue) -> PlainValue {
    decode_value(encode_value(&value), "edits[0].value").expect("the value decodes")
}

#[test]
fn plain_values_survive_the_wire() {
    assert!(matches!(round_trip(PlainValue::Unset), PlainValue::Unset));
    assert!(matches!(round_trip(PlainValue::Bool(true)), PlainValue::Bool(true)));
    assert!(matches!(round_trip(PlainValue::UInt32(7)), PlainValue::UInt32(7)));
    assert!(matches!(round_trip(PlainValue::DataId(DataId(3))), PlainValue::DataId(DataId(3))));
    match round_trip(PlainValue::String("T(x)".to_owned())) {
        PlainValue::String(s) => assert_eq!(s, "T(x)"),
        other => panic!("{other:?}"),
    }
    match round_trip(PlainValue::Text(Text::plain("$1"))) {
        PlainValue::Text(t) => assert_eq!(t, Text::plain("$1")),
        other => panic!("{other:?}"),
    }
    let links = vec![AxisLink { dimension: Dimension::Z, axes: vec![NodeId(1), NodeId(5)] }];
    match round_trip(PlainValue::Links(links.clone())) {
        PlainValue::Links(l) => assert_eq!(l, links),
        other => panic!("{other:?}"),
    }
    assert!(matches!(round_trip(PlainValue::Scale(Scale::Log)), PlainValue::Scale(Scale::Log)));
    assert!(matches!(
        round_trip(PlainValue::MarkerShape(MarkerShape::TriangleDown)),
        PlainValue::MarkerShape(MarkerShape::TriangleDown)
    ));
    let grid = Grid::Curvilinear { x: DataId(1), y: DataId(2) };
    assert!(matches!(round_trip(PlainValue::Grid(grid)), PlainValue::Grid(g) if g == grid));
    let legend = Legend { location: LegendLocation::South, boxed: false };
    assert!(matches!(round_trip(PlainValue::Legend(legend)), PlainValue::Legend(l) if l == legend));
    assert_eq!(PlainValue::Scale(Scale::Log).value_type(), Some(ValueType::Scale));
    assert_eq!(PlainValue::Unset.value_type(), None);
}

#[test]
fn values_need_their_kind_and_message() {
    let at = "edits[0].value";
    assert_eq!(missing(decode_value(w::Value { kind: None }, at)), "edits[0].value.kind");
    let absent = w::Value { kind: Some(w::ValueKind::Bool(None)) };
    assert_eq!(missing(decode_value(absent, at)), "edits[0].value.bool_value.value");
    let unspecified = w::Value { kind: Some(w::ValueKind::Scale(0)) };
    assert_eq!(missing(decode_value(unspecified, at)), "edits[0].value.scale_value.value");
    let undefined = w::Value { kind: Some(w::ValueKind::DashStyle(42)) };
    assert_eq!(
        unknown(decode_value(undefined, at)),
        ("edits[0].value.dash_style_value.value".to_owned(), 42)
    );
    let text = w::Value {
        kind: Some(w::ValueKind::Text(Some(w::Text { content: "a".to_owned(), interpreter: 9 }))),
    };
    assert_eq!(
        unknown(decode_value(text, at)),
        ("edits[0].value.text_value.value.interpreter".to_owned(), 9)
    );
    let links = w::Value {
        kind: Some(w::ValueKind::Links(vec![w::AxisLink { dimension: 0, axes: vec![1, 2] }])),
    };
    assert_eq!(missing(decode_value(links, at)), "edits[0].value.links_value.links[0].dimension");
    let grid = w::Value { kind: Some(w::ValueKind::Grid(Some(w::Grid { kind: None }))) };
    assert_eq!(missing(decode_value(grid, at)), "edits[0].value.grid_value.value.kind");
    let layout = w::Value { kind: Some(w::ValueKind::TileLayout(Some(w::TileLayout { rows: None, cols: Some(3) }))) };
    assert!(matches!(
        decode_value(layout, at),
        Ok(PlainValue::TileLayout(TileLayout { rows: 1, cols: 3 }))
    ));
}

fn invalid(r: Result<PlainEdit, ProtobufError>) -> (String, String) {
    match r {
        Err(ProtobufError::InvalidValue { field, reason }) => (field, reason),
        other => panic!("expected an invalid value, got {other:?}"),
    }
}

fn decoded(r: Result<PlainEdit, ProtobufError>) -> PlainEdit {
    r.expect("the edit decodes")
}

fn set(node: Option<u64>, path: &str, value: Option<w::Value>) -> w::Edit {
    w::Edit { kind: Some(w::EditKind::SetProperty(w::EditSet { node, path: path.to_owned(), value })) }
}

fn bool_value(b: bool) -> w::Value {
    w::Value { kind: Some(w::ValueKind::Bool(Some(b))) }
}

#[test]
fn edits_decode_to_plain_edits() {
    assert_eq!(
        decoded(decode_edit(set(Some(4), "x.visible", Some(bool_value(true))), "edits[0]")),
        PlainEdit::SetProperty {
            node: NodeId(4),
            path: PropertyPath::from_str("x.visible").expect("valid"),
            value: PlainValue::Bool(true)
        }
    );
    assert_eq!(
        decoded(decode_edit(w::Edit { kind: Some(w::EditKind::Remove(w::EditRemove { node: Some(7) })) }, "edits[1]")),
        PlainEdit::Remove { node: NodeId(7) }
    );
    assert_eq!(
        decoded(decode_edit(
            w::Edit { kind: Some(w::EditKind::Move(w::EditMove { node: Some(7), parent: Some(2), index: Some(0) })) },
            "edits[2]"
        )),
        PlainEdit::Move { node: NodeId(7), parent: NodeId(2), index: Some(0) }
    );
    assert_eq!(
        decoded(decode_edit(w::Edit { kind: Some(w::EditKind::RemoveData(w::EditRemoveData { id: Some(3) })) }, "")),
        PlainEdit::RemoveData { id: DataId(3) }
    );
}

#[test]
fn missing_fields_of_an_edit_are_reported_by_path() {
    assert_eq!(missing(decode_edit(w::Edit { kind: None }, "edits[0]")), "edits[0].kind");
    assert_eq!(missing(decode_edit(set(None, "x", Some(bool_value(true))), "edits[0]")), "edits[0].set_property.node");
    assert_eq!(missing(decode_edit(set(Some(1), "x", None), "edits[0]")), "edits[0].set_property.value");
    assert_eq!(
        missing(decode_edit(set(Some(1), "x", Some(w::Value { kind: None })), "edits[0]")),
        "edits[0].set_property.value.kind"
    );
    assert_eq!(
        missing(decode_edit(w::Edit { kind: Some(w::EditKind::Remove(w::EditRemove { node: None })) }, "edits[1]")),
        "edits[1].remove_node.node"
    );
    assert_eq!(
        missing(decode_edit(
            w::Edit { kind: Some(w::EditKind::Move(w::EditMove { node: Some(1), parent: None, index: None })) },
            "edits[2]"
        )),
        "edits[2].move_node.parent"
    );
    assert_eq!(
        missing(decode_edit(w::Edit { kind: Some(w::EditKind::RemoveData(w::EditRemoveData { id: None })) }, "")),
        "remove_data.id"
    );
}

#[test]
fn an_invalid_path_of_a_set_is_an_invalid_value() {
    assert_eq!(
        invalid(decode_edit(set(Some(1), "", Some(bool_value(true))), "edits[0]")),
        (
            "edits[0].set_property.path".to_owned(),
            "a property path must have at least one segment".to_owned()
        )
    );
    assert_eq!(
        invalid(decode_edit(set(Some(1), "x..limits", Some(bool_value(true))), "edits[0]")),
        (
            "edits[0].set_property.path".to_owned(),
            "the property path \"x..limits\" has an empty segment at position 1".to_owned()
        )
    );
    assert_eq!(
        PathError::SeparatorInSegment { segment: "a.b".to_owned(), position: 2 }.to_string(),
        "the segment \"a.b\" at position 2 of a property path contains '.'"
    );
}
