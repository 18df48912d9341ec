use ironlab_ir::artist::Grid;
use ironlab_ir::axes::{Cell, ColormapName, Legend, LegendLocation, Scale};
use ironlab_ir::data::{checked_shape, InvalidShape, NdArrayElement};
use ironlab_ir::edit::PropertyPath;
use ironlab_ir::figure::{
    is_compatible, parse_version, FontSetId, NodeIdAllocator, Provenance, TileLayout,
    SCHEMA_VERSION,
};
use ironlab_ir::ids::{DataId, NodeId};
use ironlab_ir::link::{connected_components, Dimension};
use ironlab_ir::overlay::{is_view_property, Conflict, Resolution};
use ironlab_ir::selection::{grid_data, Selection};
use ironlab_ir::style::{hex_bytes, hex_text, hex_value, DashStyle, MarkerShape};
use ironlab_ir::text::{Interpreter, Text};
use ironlab_ir::validate::{dimension_name, nodes_without_cells, ValidationReport};

#[test]
fn versions_parse_as_three_decimal_components() {
    assert_eq!(parse_version("0.2.0"), Some([0, 2, 0]));
    assert_eq!(parse_version("12.0.345"), Some([12, 0, 345]));
    assert_eq!(parse_version("18446744073709551615.0.0"), Some([u64::MAX, 0, 0]));
    assert_eq!(parse_version("18446744073709551616.0.0"), None);
    assert_eq!(parse_version("0.2"), None);
    assert_eq!(parse_version("0.2.0.1"), None);
    assert_eq!(parse_version("0..0"), None);
    assert_eq!(parse_version("0.2.x"), None);
    assert_eq!(parse_version("+1.2.3"), None);
    assert_eq!(parse_version("٣.2.3"), None);
    assert_eq!(parse_version(""), None);
}

#[test]
fn versions_are_compatible_when_major_and_minor_agree() {
    assert_eq!(SCHEMA_VERSION, "0.2.0");
    assert!(is_compatible("0.2.0"));
    assert!(is_compatible("0.2.17"));
    assert!(!is_compatible("0.3.0"));
    assert!(!is_compatible("1.2.0"));
    assert!(!is_compatible("0.2"));
    assert!(!is_compatible("garbage"));
}

#[test]
fn colours_are_read_from_hexadecimal_digits() {
    assert_eq!(hex_value(b'0'), 0);
    assert_eq!(hex_value(b'9'), 9);
    assert_eq!(hex_value(b'a'), 10);
    assert_eq!(hex_value(b'F'), 15);
    assert_eq!(hex_bytes("#ff8000"), Some(vec![255, 128, 0, 255]));
    assert_eq!(hex_bytes("#FF800080"), Some(vec![255, 128, 0, 128]));
    assert_eq!(hex_bytes("#000000ff"), Some(vec![0, 0, 0, 255]));
    assert_eq!(hex_bytes("ff8000"), None);
    assert_eq!(hex_bytes("#ff800"), None);
    assert_eq!(hex_bytes("#ff80000"), None);
    assert_eq!(hex_bytes("#gg8000"), None);
    assert_eq!(hex_bytes("#ff80é0"), None);
}

#[test]
fn a_shape_is_checked_against_the_number_of_values() {
    assert_eq!(checked_shape(vec![2, 3], 6), Ok(vec![2, 3]));
    assert_eq!(checked_shape(vec![], 1), Ok(vec![]));
    assert_eq!(checked_shape(vec![0, 4], 0), Ok(vec![0, 4]));
    assert_eq!(
        checked_shape(vec![2, 3], 5),
        Err(InvalidShape {
            shape: vec![2, 3],
            len: 5
        })
    );
    // The product is zero, though multiplying from the first dimension overflows.
    assert_eq!(checked_shape(vec![usize::MAX, 2, 0], 0), Ok(vec![usize::MAX, 2, 0]));
    assert_eq!(
        checked_shape(vec![usize::MAX, 2], 0),
        Err(InvalidShape {
            shape: vec![usize::MAX, 2],
            len: 0
        })
    );
    assert_eq!(NdArrayElement::F64.name(), "f64");
    assert_eq!(NdArrayElement::U8.name(), "u8");
}

#[test]
fn selected_points_are_kept_once_in_ascending_order() {
    let s = Selection::points(NodeId(3), vec![5, 1, 5, 3, 0]);
    assert_eq!(s.node, NodeId(3));
    assert_eq!(s.indices, Some(vec![0, 1, 3, 5]));
    assert_eq!(Selection::points(NodeId(1), vec![]).indices, Some(vec![]));
    let whole = Selection::node(NodeId(4));
    assert_eq!(whole.node, NodeId(4));
    assert_eq!(whole.indices, None);
}

#[test]
fn the_data_of_a_grid_is_its_coordinates() {
    let grid = Grid::Curvilinear {
        x: DataId(4),
        y: DataId(5),
    };
    assert_eq!(grid_data(grid), (DataId(4), DataId(5)));
    assert_eq!(grid_data(Grid::default()), (DataId(0), DataId(0)));
}

fn ids(v: &[u64]) -> Vec<NodeId> {
    v.iter().map(|&i| NodeId(i)).collect()
}

#[test]
fn groups_that_share_a_member_are_merged() {
    let groups = vec![ids(&[1, 2]), ids(&[3, 4]), ids(&[2, 3]), ids(&[5, 5])];
    let components = connected_components(&groups);
    assert_eq!(components.len(), 2);
    let mut merged = components[0].clone();
    merged.sort();
    assert_eq!(merged, ids(&[1, 2, 3, 4]));
    assert_eq!(components[1], ids(&[5]));
    assert!(connected_components(&vec![]).is_empty());
    let disjoint = connected_components(&vec![ids(&[1]), ids(&[2])]);
    assert_eq!(disjoint, vec![ids(&[1]), ids(&[2])]);
}

#[test]
fn a_grid_without_a_cell_is_described() {
    assert_eq!(nodes_without_cells(0, 0), Some("has no rows and no columns"));
    assert_eq!(nodes_without_cells(0, 3), Some("has no rows"));
    assert_eq!(nodes_without_cells(3, 0), Some("has no columns"));
    assert_eq!(nodes_without_cells(1, 1), Some("has a single node"));
    assert_eq!(nodes_without_cells(1, 4), Some("has a single row of nodes"));
    assert_eq!(nodes_without_cells(4, 1), Some("has a single column of nodes"));
    assert_eq!(nodes_without_cells(2, 2), None);
    assert_eq!(dimension_name(Dimension::X), "x");
    assert_eq!(dimension_name(Dimension::Z), "z");
}

#[test]
fn a_report_is_valid_without_errors() {
    let mut report = ValidationReport::default();
    assert!(report.is_valid());
    report.warnings.push(ironlab_ir::validate::ValidationIssue {
        node: None,
        kind: ironlab_ir::validate::IssueKind::NothingToDraw,
        message: "empty".to_owned(),
    });
    assert!(report.is_valid());
    report.errors.push(ironlab_ir::validate::ValidationIssue {
        node: Some(NodeId(1)),
        kind: ironlab_ir::validate::IssueKind::InvalidLimits,
        message: "bad".to_owned(),
    });
    assert!(!report.is_valid());
}

#[test]
fn text_is_latex_unless_plain() {
    let t = Text::new("$x^2$");
    assert_eq!(t.content, "$x^2$");
    assert_eq!(t.interpreter, Interpreter::Latex);
    let p = Text::plain("costs $5");
    assert_eq!(p.content, "costs $5");
    assert_eq!(p.interpreter, Interpreter::Plain);
    assert_eq!(Text::default().interpreter, Interpreter::Latex);
}

#[test]
fn defaults_are_those_of_the_figure_format() {
    assert_eq!(
        Cell::default(),
        Cell {
            row: 0,
            col: 0,
            row_span: 1,
            col_span: 1
        }
    );
    assert_eq!(TileLayout::default(), TileLayout { rows: 1, cols: 1 });
    assert_eq!(
        Legend::default(),
        Legend {
            location: LegendLocation::NorthEast,
            boxed: true
        }
    );
    assert_eq!(Scale::default(), Scale::Linear);
    assert_eq!(ColormapName::default(), ColormapName::Viridis);
    assert_eq!(DashStyle::default(), DashStyle::Solid);
    assert_eq!(MarkerShape::default(), MarkerShape::NoMarker);
    assert_eq!(FontSetId::default(), FontSetId::StixTwo);
    let provenance = Provenance::default();
    assert_eq!(provenance.typesetter, "latex-rust 1.0.2");
    assert_eq!(provenance.fonts, vec!["STIX Two Text".to_owned(), "STIX Two Math".to_owned()]);
    assert_eq!(
        NodeIdAllocator { next: 3 },
        NodeIdAllocator { next: 9 }
    );
    assert_eq!(NodeId(7).display(), "node 7");
    assert_eq!(DataId(12).display(), "data 12");
}

#[test]
fn the_view_of_an_axes_is_its_limits_and_camera() {
    let p = |t: &str| PropertyPath::from_str(t).expect("valid");
    assert!(is_view_property(&p("x.limits")));
    assert!(is_view_property(&p("y.limits.min")));
    assert!(is_view_property(&p("projection.view3d.azimuth_deg")));
    assert!(!is_view_property(&p("x")));
    assert!(!is_view_property(&p("x.scale")));
    assert!(!is_view_property(&p("projection")));
    let conflict = Conflict {
        node: NodeId(1),
        overlay_path: p("x.limits"),
        source_path: p("x"),
    };
    assert!(conflict.source_path.contains(&conflict.overlay_path));
    assert_ne!(Resolution::UseSource, Resolution::KeepMine);
}

#[test]
fn colours_are_written_in_lower_case_and_read_back() {
    assert_eq!(hex_text(255, 0, 16, 255), "#ff0010");
    assert_eq!(hex_text(0, 170, 15, 128), "#00aa0f80");
    assert_eq!(hex_bytes(&hex_text(255, 0, 16, 255)), Some(vec![255, 0, 16, 255]));
    assert_eq!(hex_bytes(&hex_text(1, 2, 3, 4)), Some(vec![1, 2, 3, 4]));
}

#[test]
fn a_colour_text_reads_back_to_the_same_text() {
    for text in ["#1a2b3c", "#00ff7f80", "#ffffff", "#000000fe"] {
        let b = hex_bytes(text).expect("a colour");
        assert_eq!(hex_text(b[0], b[1], b[2], b[3]), text);
    }
    let b = hex_bytes("#102030ff").expect("a colour");
    assert_eq!(hex_text(b[0], b[1], b[2], b[3]), "#102030");
}
