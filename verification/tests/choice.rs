use ironlab_ir::artist::Grid;
use ironlab_ir::axes::{ColormapName, LegendLocation, Scale};
use ironlab_ir::edit::choice::{
    indexes_the_colormap, plain_choices, plain_label_of, unavailable, ChoiceValue, PlainChoice,
    CLAMP_AT_NON_FINITE, COLORMAPPED_ELSEWHERE, COLORMAPPED_ON_A_LINE, COLORMAPPED_ON_A_MARKER,
    COLORMAPPED_ON_A_QUIVER, COLORMAPPED_ON_A_SINGLE_SCATTER_COLOUR,
};
use ironlab_ir::edit::value::PlainValue;
use ironlab_ir::edit::{NodeKind, PropertyPath, ValueType};
use ironlab_ir::figure::FontSetId;
use ironlab_ir::ids::DataId;
use ironlab_ir::style::{DashStyle, MarkerShape};
use ironlab_ir::text::Interpreter;

fn p(text: &str) -> PropertyPath {
    PropertyPath::from_str(text).expect("valid path")
}

#[test]
fn colormapped_colours_need_a_value_to_index_by() {
    let colormapped = ChoiceValue::Colormapped;
    assert!(indexes_the_colormap(NodeKind::Contour, &p("line.color")));
    assert_eq!(unavailable(NodeKind::Contour, &p("line.color"), colormapped), None);
    assert_eq!(unavailable(NodeKind::Surface, &p("face"), colormapped), None);
    assert_eq!(unavailable(NodeKind::Surface, &p("edge"), colormapped), None);
    assert_eq!(unavailable(NodeKind::Line, &p("line.color"), colormapped), Some(COLORMAPPED_ON_A_LINE));
    assert_eq!(unavailable(NodeKind::Quiver, &p("color"), colormapped), Some(COLORMAPPED_ON_A_QUIVER));
    assert_eq!(
        unavailable(NodeKind::Scatter, &p("color.spec"), colormapped),
        Some(COLORMAPPED_ON_A_SINGLE_SCATTER_COLOUR)
    );
    assert_eq!(unavailable(NodeKind::Line, &p("marker.face"), colormapped), Some(COLORMAPPED_ON_A_MARKER));
    assert_eq!(unavailable(NodeKind::Surface, &p("line.color"), colormapped), Some(COLORMAPPED_ELSEWHERE));
    assert_eq!(unavailable(NodeKind::Line, &p("line.color"), ChoiceValue::Other), None);
    assert!(COLORMAPPED_ON_A_LINE.starts_with("A line is drawn in one colour"));
    assert!(COLORMAPPED_ON_A_LINE.ends_with("and for a scatter whose colour comes from data."));
}

#[test]
fn a_clamp_needs_a_nearest_end() {
    let clamp = ChoiceValue::Clamp;
    assert_eq!(unavailable(NodeKind::MappedImage, &p("non_finite"), clamp), Some(CLAMP_AT_NON_FINITE));
    assert_eq!(unavailable(NodeKind::IndexedImage, &p("non_finite"), clamp), Some(CLAMP_AT_NON_FINITE));
    assert_eq!(unavailable(NodeKind::MappedImage, &p("below"), clamp), None);
    assert_eq!(unavailable(NodeKind::Image, &p("non_finite"), clamp), None);
    assert_eq!(unavailable(NodeKind::MappedImage, &p("non_finite"), ChoiceValue::Other), None);
}

fn labels(value_type: ValueType) -> Vec<&'static str> {
    plain_choices(value_type, None)
        .expect("plain choices")
        .iter()
        .map(|c| c.label)
        .collect()
}

#[test]
fn enumerations_offer_each_variant_in_order() {
    assert_eq!(labels(ValueType::Scale), vec!["Linear", "Logarithmic"]);
    assert_eq!(
        labels(ValueType::ColormapName),
        vec!["Viridis", "Cividis", "Magma", "Inferno", "Plasma", "Coolwarm", "Gray"]
    );
    assert_eq!(
        labels(ValueType::LegendLocation),
        vec![
            "North east", "North west", "South east", "South west", "North", "South", "East", "West",
            "Best"
        ]
    );
    assert_eq!(
        labels(ValueType::MarkerShape),
        vec![
            "None", "Circle", "Square", "Diamond", "Triangle up", "Triangle down", "Plus", "Cross",
            "Point"
        ]
    );
    assert_eq!(labels(ValueType::DashStyle), vec!["Solid", "Dashed", "Dotted", "Dash-dot", "None"]);
    assert_eq!(labels(ValueType::Interpreter), vec!["LaTeX", "Plain"]);
    assert_eq!(labels(ValueType::FontSetId), vec!["STIX Two"]);
    let scales = plain_choices(ValueType::Scale, None).expect("plain choices");
    assert_eq!(
        scales,
        vec![
            PlainChoice { label: "Linear", value: PlainValue::Scale(Scale::Linear), unavailable: None },
            PlainChoice { label: "Logarithmic", value: PlainValue::Scale(Scale::Log), unavailable: None },
        ]
    );
    assert!(scales.iter().all(PlainChoice::available));
}

#[test]
fn a_grid_keeps_the_arrays_of_the_grid_it_replaces() {
    let replacing = PlainValue::Grid(Grid::Curvilinear { x: DataId(4), y: DataId(5) });
    let grids = plain_choices(ValueType::Grid, Some(&replacing)).expect("plain choices");
    assert_eq!(
        grids.iter().map(|c| c.value.clone()).collect::<Vec<_>>(),
        vec![
            PlainValue::Grid(Grid::Rectilinear { x: DataId(4), y: DataId(5) }),
            PlainValue::Grid(Grid::Curvilinear { x: DataId(4), y: DataId(5) }),
        ]
    );
    let fallback = plain_choices(ValueType::Grid, Some(&PlainValue::Scale(Scale::Log))).expect("plain choices");
    assert_eq!(fallback[0].value, PlainValue::Grid(Grid::Rectilinear { x: DataId(0), y: DataId(0) }));
    assert_eq!(fallback[1].label, "Curvilinear");
}

#[test]
fn types_without_plain_choices() {
    assert_eq!(plain_choices(ValueType::Bool, None), Some(vec![]));
    assert_eq!(plain_choices(ValueType::Cell, None), Some(vec![]));
    assert_eq!(plain_choices(ValueType::Limits, None), None);
    assert_eq!(plain_choices(ValueType::ColorSpec, None), None);
    assert_eq!(plain_choices(ValueType::Projection, None), None);
}

#[test]
fn a_choice_matches_every_value_of_its_variant() {
    let grids = plain_choices(ValueType::Grid, None).expect("plain choices");
    let value = PlainValue::Grid(Grid::Rectilinear { x: DataId(7), y: DataId(8) });
    assert!(grids[0].matches(&value));
    assert!(!grids[1].matches(&value));
    let shapes = plain_choices(ValueType::MarkerShape, None).expect("plain choices");
    let none_marker = PlainValue::MarkerShape(MarkerShape::NoMarker);
    assert_eq!(shapes.iter().filter(|c| c.matches(&none_marker)).count(), 1);
    // A dash pattern labelled "None" is of another type.
    assert!(!shapes[0].matches(&PlainValue::DashStyle(DashStyle::NoLine)));
    assert!(!shapes[0].matches(&PlainValue::Bool(true)));
    for value in [
        PlainValue::ColormapName(ColormapName::Gray),
        PlainValue::LegendLocation(LegendLocation::Best),
        PlainValue::Interpreter(Interpreter::Plain),
        PlainValue::FontSetId(FontSetId::StixTwo),
    ] {
        let t = value.value_type().expect("a type");
        let offered = plain_choices(t, None).expect("plain choices");
        assert_eq!(offered.iter().filter(|c| c.matches(&value)).count(), 1);
    }
}

#[test]
fn labels_of_values() {
    assert_eq!(plain_label_of(&PlainValue::DashStyle(DashStyle::DashDot)), Some("Dash-dot"));
    assert_eq!(plain_label_of(&PlainValue::Scale(Scale::Log)), Some("Logarithmic"));
    assert_eq!(plain_label_of(&PlainValue::UInt32(3)), None);
    assert_eq!(plain_label_of(&PlainValue::Unset), None);
}

#[test]
fn the_labels_of_a_type_are_distinct() {
    for t in [
        ValueType::Scale,
        ValueType::ColormapName,
        ValueType::LegendLocation,
        ValueType::MarkerShape,
        ValueType::DashStyle,
        ValueType::Interpreter,
        ValueType::FontSetId,
        ValueType::Grid,
    ] {
        let mut seen = labels(t);
        let n = seen.len();
        seen.sort();
        seen.dedup();
        assert_eq!(seen.len(), n, "{t:?}");
    }
}
