//! The choices of a value type, and which choices of a property the IR acts on.
//!
//! A property whose type is an enumeration (a scale, a colormap name, a marker shape and
//! the rest) or a grid is changed by choosing one of a fixed set of alternatives, each
//! labelled for a combo box. The labels of one type are distinct, and every value of
//! such a type is matched by exactly one of its choices, so the combo box of a property
//! shows the choice the property holds.
//!
//! A choice the IR would not act on at a property is still offered, carrying the
//! sentence that says why it is unavailable and where it is available, so that a combo
//! box can show it disabled rather than hide it: a colormapped colour where the IR holds
//! no value to look it up by, and a clamp where a pixel has no nearest end of the
//! colormap.

use vstd::prelude::*;

use crate::artist::Grid;
use crate::axes::{ColormapName, LegendLocation, Scale};
use crate::edit::path::PropertyPath;
use crate::edit::registry::NodeKind;
use crate::edit::value::{spec_plain_value_type, PlainValue, ValueType};
use crate::figure::FontSetId;
use crate::ids::DataId;
use crate::style::{DashStyle, MarkerShape};
use crate::text::Interpreter;
use crate::textfmt::str_eq;

verus! {

/// Whether the IR gives the colour at a path of a kind of node a value to look up in
/// the colormap: the isolines of a contour, coloured by their levels, and the faces and
/// edges of a surface, coloured by their colour data or height.
pub open spec fn spec_indexes_the_colormap(kind: NodeKind, path: Seq<Seq<char>>) -> bool {
    match kind {
        NodeKind::Contour => path == seq!["line"@, "color"@],
        NodeKind::Surface => path == seq!["face"@] || path == seq!["edge"@],
        _ => false,
    }
}

/// Returns whether the segments of a path are the given names.
fn segments_are(path: &PropertyPath, names: &[&'static str]) -> (r: bool)
    ensures
        r == (path@ == names@.map_values(|s: &'static str| s@)),
{
    let segments = path.segments();
    let ghost expected = names@.map_values(|s: &'static str| s@);
    assert(crate::edit::path::string_seqs(segments@) == path@);
    if segments.len() != names.len() {
        assert(path@.len() != expected.len());
        return false;
    }
    let mut i: usize = 0;
    while i < names.len()
        invariant
            i <= names@.len(),
            segments@.len() == names@.len(),
            crate::edit::path::string_seqs(segments@) == path@,
            expected == names@.map_values(|s: &'static str| s@),
            forall|k: int| 0 <= k < i ==> path@[k] == expected[k],
        decreases names.len() - i,
    {
        assert(path@[i as int] == segments@[i as int]@);
        if !str_eq(segments[i].as_str(), names[i]) {
            assert(path@[i as int] != expected[i as int]);
            return false;
        }
        i = i + 1;
    }
    assert(path@ =~= expected);
    true
}

/// Returns whether the IR gives the colour at this property of this kind of node a
/// value to look up in the colormap.
pub fn indexes_the_colormap(kind: NodeKind, path: &PropertyPath) -> (r: bool)
    ensures
        r == spec_indexes_the_colormap(kind, path@),
{
    match kind {
        NodeKind::Contour => {
            let r = segments_are(path, &["line", "color"]);
            assert(["line", "color"]@.map_values(|s: &'static str| s@) =~= seq!["line"@, "color"@]);
            r
        },
        NodeKind::Surface => {
            let face = segments_are(path, &["face"]);
            let edge = segments_are(path, &["edge"]);
            assert(["face"]@.map_values(|s: &'static str| s@) =~= seq!["face"@]);
            assert(["edge"]@.map_values(|s: &'static str| s@) =~= seq!["edge"@]);
            face || edge
        },
        NodeKind::Figure | NodeKind::Axes | NodeKind::Line | NodeKind::Scatter | NodeKind::Quiver
        | NodeKind::Image | NodeKind::IndexedImage | NodeKind::MappedImage => false,
    }
}

/// Why a colormapped colour is unavailable on a line.
pub const COLORMAPPED_ON_A_LINE: &'static str = "A line is drawn in one colour and provides no value to look that colour up by, so a colormapped line is drawn in the middle colour of the colormap. Colouring by the colormap is available for the faces and edges of a surface, for the isolines of a contour, which take the colour of their level, and for a scatter whose colour comes from data.";

/// Why a colormapped colour is unavailable on a quiver.
pub const COLORMAPPED_ON_A_QUIVER: &'static str = "A quiver is drawn in one colour and provides no value to look that colour up by, so colormapped arrows are drawn in the middle colour of the colormap. Colouring by the colormap is available for the faces and edges of a surface, for the isolines of a contour, which take the colour of their level, and for a scatter whose colour comes from data.";

/// Why a colormapped colour is unavailable as the single colour of a scatter.
pub const COLORMAPPED_ON_A_SINGLE_SCATTER_COLOUR: &'static str = "A scatter that has one colour for every marker provides no value to look that colour up by, so colormapped markers are drawn in the middle colour of the colormap. Colouring by the colormap is available for the faces and edges of a surface, for the isolines of a contour, which take the colour of their level, and for a scatter whose colour comes from data.";

/// Why a colormapped colour is unavailable on the face or the edge of a marker.
pub const COLORMAPPED_ON_A_MARKER: &'static str = "A marker takes the colour of the plot it belongs to rather than looking a colour up itself, so a colormapped marker is drawn exactly as an automatic one. Colouring by the colormap is available for the faces and edges of a surface, for the isolines of a contour, which take the colour of their level, and for a scatter whose colour comes from data.";

/// Why a colormapped colour is unavailable anywhere else.
pub const COLORMAPPED_ELSEWHERE: &'static str = "This property provides no value to look a colour up by, so a colormapped colour here is drawn in the middle colour of the colormap. Colouring by the colormap is available for the faces and edges of a surface, for the isolines of a contour, which take the colour of their level, and for a scatter whose colour comes from data.";

/// Why a clamp is unavailable at the non-finite category of an image.
pub const CLAMP_AT_NON_FINITE: &'static str = "A non-finite value has no nearest end of the colormap to be clamped to, so clamping is available only below and above the range.";

/// What a choice sets, as far as the rules of availability read it.
#[derive(Debug, Clone, Copy, PartialEq, Eq, Hash, Structural)]
pub enum ChoiceValue {
    /// A colour looked up in the colormap.
    Colormapped,
    /// A clamp of out-of-range pixels to the nearest end of the colormap.
    Clamp,
    /// Any other value.
    Other,
}

/// Why a colormapped colour is unavailable at a property where the IR holds no value to
/// look the colour up by, or `None` for every other choice and every other property.
pub open spec fn spec_colormapped_reason(kind: NodeKind, path: Seq<Seq<char>>, value: ChoiceValue) -> Option<&'static str> {
    if value != ChoiceValue::Colormapped || spec_indexes_the_colormap(kind, path) {
        None
    } else if path.len() > 0 && path[0] == "marker"@ {
        Some(COLORMAPPED_ON_A_MARKER)
    } else {
        Some(match kind {
            NodeKind::Line => COLORMAPPED_ON_A_LINE,
            NodeKind::Quiver => COLORMAPPED_ON_A_QUIVER,
            NodeKind::Scatter => COLORMAPPED_ON_A_SINGLE_SCATTER_COLOUR,
            _ => COLORMAPPED_ELSEWHERE,
        })
    }
}

/// Why a clamp is unavailable at the `non_finite` category of a colour-indexed or
/// colour-mapped image, or `None` for every other choice and every other property.
pub open spec fn spec_clamp_reason(kind: NodeKind, path: Seq<Seq<char>>, value: ChoiceValue) -> Option<&'static str> {
    if value == ChoiceValue::Clamp && (kind == NodeKind::IndexedImage || kind == NodeKind::MappedImage) && path
        == seq!["non_finite"@] {
        Some(CLAMP_AT_NON_FINITE)
    } else {
        None
    }
}

/// Why the IR would not act on a choice at a property of a kind of node: the first reason
/// that a rule gives, the colormapped colour before the clamp, or `None` when it would.
pub open spec fn spec_unavailable(kind: NodeKind, path: Seq<Seq<char>>, value: ChoiceValue) -> Option<&'static str> {
    match spec_colormapped_reason(kind, path, value) {
        Some(reason) => Some(reason),
        None => spec_clamp_reason(kind, path, value),
    }
}

/// Returns why a colormapped colour is unavailable at a property where the IR holds no
/// value to look the colour up by, and `None` for every other choice and property.
pub fn colormapped_without_a_value_to_index_by(kind: NodeKind, path: &PropertyPath, value: ChoiceValue) -> (r: Option<&'static str>)
    ensures
        r == spec_colormapped_reason(kind, path@, value),
{
    if value != ChoiceValue::Colormapped || indexes_the_colormap(kind, path) {
        return None;
    }
    let segments = path.segments();
    proof {
        reveal_strlit("marker");
    }
    if segments.len() > 0 && str_eq(segments[0].as_str(), "marker") {
        assert(path@[0] == segments@[0]@);
        return Some(COLORMAPPED_ON_A_MARKER);
    }
    assert(path@.len() > 0 ==> path@[0] == segments@[0]@);
    Some(match kind {
        NodeKind::Line => COLORMAPPED_ON_A_LINE,
        NodeKind::Quiver => COLORMAPPED_ON_A_QUIVER,
        NodeKind::Scatter => COLORMAPPED_ON_A_SINGLE_SCATTER_COLOUR,
        NodeKind::Contour | NodeKind::Surface | NodeKind::Figure | NodeKind::Axes | NodeKind::Image
        | NodeKind::IndexedImage | NodeKind::MappedImage => COLORMAPPED_ELSEWHERE,
    })
}

/// Returns why a clamp is unavailable at the `non_finite` category of a colour-indexed
/// or colour-mapped image, where a pixel has no nearest end of the colormap to be
/// clamped to, and `None` for every other choice and property.
pub fn clamp_without_a_nearest_end_of_the_colormap(kind: NodeKind, path: &PropertyPath, value: ChoiceValue) -> (r: Option<&'static str>)
    ensures
        r == spec_clamp_reason(kind, path@, value),
{
    let clamp = value == ChoiceValue::Clamp;
    let image = kind == NodeKind::IndexedImage || kind == NodeKind::MappedImage;
    if clamp && image {
        let at = segments_are(path, &["non_finite"]);
        proof {
            reveal_strlit("non_finite");
        }
        assert(["non_finite"]@.map_values(|s: &'static str| s@) =~= seq!["non_finite"@]);
        if at {
            return Some(CLAMP_AT_NON_FINITE);
        }
    }
    None
}

/// Returns why the IR would not act on a choice at a property of a kind of node, which
/// the property editor shows on the disabled choice, or `None` when it would: the rules
/// are asked in order, and the first reason given is the one returned.
pub fn unavailable(kind: NodeKind, path: &PropertyPath, value: ChoiceValue) -> (r: Option<&'static str>)
    ensures
        r == spec_unavailable(kind, path@, value),
{
    match colormapped_without_a_value_to_index_by(kind, path, value) {
        Some(reason) => Some(reason),
        None => clamp_without_a_nearest_end_of_the_colormap(kind, path, value),
    }
}


/// The label under which a scale is offered.
pub open spec fn spec_scale_label(s: Scale) -> Seq<char> {
    match s {
        Scale::Linear => "Linear"@,
        Scale::Log => "Logarithmic"@,
    }
}

/// The label under which a colormap is offered.
pub open spec fn spec_colormap_name_label(c: ColormapName) -> Seq<char> {
    match c {
        ColormapName::Viridis => "Viridis"@,
        ColormapName::Cividis => "Cividis"@,
        ColormapName::Magma => "Magma"@,
        ColormapName::Inferno => "Inferno"@,
        ColormapName::Plasma => "Plasma"@,
        ColormapName::Coolwarm => "Coolwarm"@,
        ColormapName::Gray => "Gray"@,
    }
}

/// The label under which a legend location is offered.
pub open spec fn spec_legend_location_label(l: LegendLocation) -> Seq<char> {
    match l {
        LegendLocation::NorthEast => "North east"@,
        LegendLocation::NorthWest => "North west"@,
        LegendLocation::SouthEast => "South east"@,
        LegendLocation::SouthWest => "South west"@,
        LegendLocation::North => "North"@,
        LegendLocation::South => "South"@,
        LegendLocation::East => "East"@,
        LegendLocation::West => "West"@,
        LegendLocation::Best => "Best"@,
    }
}

/// The label under which a marker shape is offered.
pub open spec fn spec_marker_shape_label(m: MarkerShape) -> Seq<char> {
    match m {
        MarkerShape::NoMarker => "None"@,
        MarkerShape::Circle => "Circle"@,
        MarkerShape::Square => "Square"@,
        MarkerShape::Diamond => "Diamond"@,
        MarkerShape::TriangleUp => "Triangle up"@,
        MarkerShape::TriangleDown => "Triangle down"@,
        MarkerShape::Plus => "Plus"@,
        MarkerShape::Cross => "Cross"@,
        MarkerShape::Point => "Point"@,
    }
}

/// The label under which a dash pattern is offered.
pub open spec fn spec_dash_style_label(d: DashStyle) -> Seq<char> {
    match d {
        DashStyle::Solid => "Solid"@,
        DashStyle::Dashed => "Dashed"@,
        DashStyle::Dotted => "Dotted"@,
        DashStyle::DashDot => "Dash-dot"@,
        DashStyle::NoLine => "None"@,
    }
}

/// The label under which an interpreter of text is offered.
pub open spec fn spec_interpreter_label(i: Interpreter) -> Seq<char> {
    match i {
        Interpreter::Latex => "LaTeX"@,
        Interpreter::Plain => "Plain"@,
    }
}

/// The label under which a font set is offered.
pub open spec fn spec_font_set_id_label(f: FontSetId) -> Seq<char> {
    match f {
        FontSetId::StixTwo => "STIX Two"@,
    }
}

/// The label under which a kind of grid is offered, whatever its coordinate arrays.
pub open spec fn spec_grid_label(g: Grid) -> Seq<char> {
    match g {
        Grid::Rectilinear { .. } => "Rectilinear"@,
        Grid::Curvilinear { .. } => "Curvilinear"@,
    }
}

/// The label of the choice that a value is, or `None` when its type has no choices that
/// are plain values.
pub open spec fn spec_plain_label(value: PlainValue) -> Option<Seq<char>> {
    match value {
        PlainValue::Scale(v) => Some(spec_scale_label(v)),
        PlainValue::ColormapName(v) => Some(spec_colormap_name_label(v)),
        PlainValue::LegendLocation(v) => Some(spec_legend_location_label(v)),
        PlainValue::MarkerShape(v) => Some(spec_marker_shape_label(v)),
        PlainValue::DashStyle(v) => Some(spec_dash_style_label(v)),
        PlainValue::Interpreter(v) => Some(spec_interpreter_label(v)),
        PlainValue::FontSetId(v) => Some(spec_font_set_id_label(v)),
        PlainValue::Grid(v) => Some(spec_grid_label(v)),
        _ => None,
    }
}

fn scale_label(s: Scale) -> (r: &'static str)
    ensures
        r@ == spec_scale_label(s),
{
    match s {
        Scale::Linear => "Linear",
        Scale::Log => "Logarithmic",
    }
}

fn colormap_name_label(c: ColormapName) -> (r: &'static str)
    ensures
        r@ == spec_colormap_name_label(c),
{
    match c {
        ColormapName::Viridis => "Viridis",
        ColormapName::Cividis => "Cividis",
        ColormapName::Magma => "Magma",
        ColormapName::Inferno => "Inferno",
        ColormapName::Plasma => "Plasma",
        ColormapName::Coolwarm => "Coolwarm",
        ColormapName::Gray => "Gray",
    }
}

fn legend_location_label(l: LegendLocation) -> (r: &'static str)
    ensures
        r@ == spec_legend_location_label(l),
{
    match l {
        LegendLocation::NorthEast => "North east",
        LegendLocation::NorthWest => "North west",
        LegendLocation::SouthEast => "South east",
        LegendLocation::SouthWest => "South west",
        LegendLocation::North => "North",
        LegendLocation::South => "South",
        LegendLocation::East => "East",
        LegendLocation::West => "West",
        LegendLocation::Best => "Best",
    }
}

fn marker_shape_label(m: MarkerShape) -> (r: &'static str)
    ensures
        r@ == spec_marker_shape_label(m),
{
    match m {
        MarkerShape::NoMarker => "None",
        MarkerShape::Circle => "Circle",
        MarkerShape::Square => "Square",
        MarkerShape::Diamond => "Diamond",
        MarkerShape::TriangleUp => "Triangle up",
        MarkerShape::TriangleDown => "Triangle down",
        MarkerShape::Plus => "Plus",
        MarkerShape::Cross => "Cross",
        MarkerShape::Point => "Point",
    }
}

fn dash_style_label(d: DashStyle) -> (r: &'static str)
    ensures
        r@ == spec_dash_style_label(d),
{
    match d {
        DashStyle::Solid => "Solid",
        DashStyle::Dashed => "Dashed",
        DashStyle::Dotted => "Dotted",
        DashStyle::DashDot => "Dash-dot",
        DashStyle::NoLine => "None",
    }
}

fn interpreter_label(i: Interpreter) -> (r: &'static str)
    ensures
        r@ == spec_interpreter_label(i),
{
    match i {
        Interpreter::Latex => "LaTeX",
        Interpreter::Plain => "Plain",
    }
}

fn font_set_id_label(f: FontSetId) -> (r: &'static str)
    ensures
        r@ == spec_font_set_id_label(f),
{
    match f {
        FontSetId::StixTwo => "STIX Two",
    }
}

fn grid_label(g: Grid) -> (r: &'static str)
    ensures
        r@ == spec_grid_label(g),
{
    match g {
        Grid::Rectilinear { .. } => "Rectilinear",
        Grid::Curvilinear { .. } => "Curvilinear",
    }
}

/// Returns the label of the choice that a value is, or `None` when its type has no
/// choices that are plain values.
pub fn plain_label_of(value: &PlainValue) -> (r: Option<&'static str>)
    ensures
        match spec_plain_label(*value) {
            Some(label) => r matches Some(l) && l@ == label,
            None => r is None,
        },
{
    match value {
        PlainValue::Scale(v) => Some(scale_label(*v)),
        PlainValue::ColormapName(v) => Some(colormap_name_label(*v)),
        PlainValue::LegendLocation(v) => Some(legend_location_label(*v)),
        PlainValue::MarkerShape(v) => Some(marker_shape_label(*v)),
        PlainValue::DashStyle(v) => Some(dash_style_label(*v)),
        PlainValue::Interpreter(v) => Some(interpreter_label(*v)),
        PlainValue::FontSetId(v) => Some(font_set_id_label(*v)),
        PlainValue::Grid(v) => Some(grid_label(*v)),
        PlainValue::Unset | PlainValue::Bool(_) | PlainValue::UInt32(_) | PlainValue::String(_)
        | PlainValue::DataId(_) | PlainValue::Text(_) | PlainValue::TileLayout(_) | PlainValue::Links(_)
        | PlainValue::Cell(_) | PlainValue::Legend(_) => None,
    }
}


/// One of the values that a property of an enumeration or of a grid can be given, as
/// offered by [`plain_choices`].
#[derive(Debug, Clone, PartialEq)]
pub struct PlainChoice {
    /// The name of the choice, written for a combo box: a short noun phrase with only
    /// its first word capitalised. The labels of one type are distinct.
    pub label: &'static str,
    /// A value of the choice, which the property can be set to as it stands.
    pub value: PlainValue,
    /// Why the IR would not act on this choice at the property it was asked for, or
    /// `None` when it would.
    pub unavailable: Option<&'static str>,
}

/// Whether a choice offers a value, under the value's label, available.
pub open spec fn offered(choice: PlainChoice, value: PlainValue) -> bool {
    &&& choice.value == value
    &&& spec_plain_label(value) == Some(choice.label@)
    &&& choice.unavailable is None
}

/// Whether a list of choices offers the given values, in their order.
pub open spec fn offers(choices: Seq<PlainChoice>, values: Seq<PlainValue>) -> bool {
    &&& choices.len() == values.len()
    &&& forall|i: int| 0 <= i < values.len() ==> #[trigger] offered(choices[i], values[i])
}

/// Whether a choice selects the variant of a value, whatever contents the value carries:
/// both have labels, and they are of one type and carry one label.
pub open spec fn spec_matches(choice: PlainValue, value: PlainValue) -> bool {
    &&& spec_plain_label(choice) is Some
    &&& spec_plain_label(value) is Some
    &&& spec_plain_value_type(choice) == spec_plain_value_type(value)
    &&& spec_plain_label(choice) == spec_plain_label(value)
}

impl PlainChoice {
    /// Returns whether the choice can be taken at the property it was asked for.
    pub fn available(&self) -> (r: bool)
        ensures
            r == (self.unavailable is None),
    {
        self.unavailable.is_none()
    }

    /// Returns whether `value` is of the variant that this choice selects, whatever
    /// contents it carries; a value of another type never matches.
    pub fn matches(&self, value: &PlainValue) -> (r: bool)
        ensures
            r == spec_matches(self.value, *value),
    {
        let (mine, theirs) = match (plain_label_of(&self.value), plain_label_of(value)) {
            (Some(a), Some(b)) => (a, b),
            _ => return false,
        };
        let same_type = match (self.value.value_type(), value.value_type()) {
            (Some(a), Some(b)) => a == b,
            (None, None) => true,
            _ => false,
        };
        same_type && str_eq(mine, theirs)
    }
}

/// The coordinate arrays that a grid takes from the value it replaces, which both kinds
/// of grid have, or the array with identifier 0 for both.
pub open spec fn spec_replaced_grid(replacing: Option<&PlainValue>) -> (DataId, DataId) {
    match replacing {
        Some(v) => match *v {
            PlainValue::Grid(Grid::Rectilinear { x, y }) => (x, y),
            PlainValue::Grid(Grid::Curvilinear { x, y }) => (x, y),
            _ => (DataId(0), DataId(0)),
        },
        None => (DataId(0), DataId(0)),
    }
}

/// The values offered for a type, in the order in which they are offered: those of an
/// enumeration and of a grid; none for a type that is neither a tagged value nor an
/// enumeration; and `None` for a tagged type whose values carry floating-point numbers.
pub open spec fn spec_choice_values(t: ValueType, replacing: Option<&PlainValue>) -> Option<Seq<PlainValue>> {
    match t {
        ValueType::Scale => Some(seq![PlainValue::Scale(Scale::Linear), PlainValue::Scale(Scale::Log)]),
        ValueType::ColormapName => Some(seq![
            PlainValue::ColormapName(ColormapName::Viridis),
            PlainValue::ColormapName(ColormapName::Cividis),
            PlainValue::ColormapName(ColormapName::Magma),
            PlainValue::ColormapName(ColormapName::Inferno),
            PlainValue::ColormapName(ColormapName::Plasma),
            PlainValue::ColormapName(ColormapName::Coolwarm),
            PlainValue::ColormapName(ColormapName::Gray),
        ]),
        ValueType::LegendLocation => Some(seq![
            PlainValue::LegendLocation(LegendLocation::NorthEast),
            PlainValue::LegendLocation(LegendLocation::NorthWest),
            PlainValue::LegendLocation(LegendLocation::SouthEast),
            PlainValue::LegendLocation(LegendLocation::SouthWest),
            PlainValue::LegendLocation(LegendLocation::North),
            PlainValue::LegendLocation(LegendLocation::South),
            PlainValue::LegendLocation(LegendLocation::East),
            PlainValue::LegendLocation(LegendLocation::West),
            PlainValue::LegendLocation(LegendLocation::Best),
        ]),
        ValueType::MarkerShape => Some(seq![
            PlainValue::MarkerShape(MarkerShape::NoMarker),
            PlainValue::MarkerShape(MarkerShape::Circle),
            PlainValue::MarkerShape(MarkerShape::Square),
            PlainValue::MarkerShape(MarkerShape::Diamond),
            PlainValue::MarkerShape(MarkerShape::TriangleUp),
            PlainValue::MarkerShape(MarkerShape::TriangleDown),
            PlainValue::MarkerShape(MarkerShape::Plus),
            PlainValue::MarkerShape(MarkerShape::Cross),
            PlainValue::MarkerShape(MarkerShape::Point),
        ]),
        ValueType::DashStyle => Some(seq![
            PlainValue::DashStyle(DashStyle::Solid),
            PlainValue::DashStyle(DashStyle::Dashed),
            PlainValue::DashStyle(DashStyle::Dotted),
            PlainValue::DashStyle(DashStyle::DashDot),
            PlainValue::DashStyle(DashStyle::NoLine),
        ]),
        ValueType::Interpreter => Some(seq![PlainValue::Interpreter(Interpreter::Latex), PlainValue::Interpreter(Interpreter::Plain)]),
        ValueType::FontSetId => Some(seq![PlainValue::FontSetId(FontSetId::StixTwo)]),
        ValueType::Grid => {
            let (x, y) = spec_replaced_grid(replacing);
            Some(seq![PlainValue::Grid(Grid::Rectilinear { x, y }), PlainValue::Grid(Grid::Curvilinear { x, y })])
        },
        ValueType::Projection | ValueType::Limits | ValueType::ColorSpec | ValueType::ScatterSize
        | ValueType::ScatterColor | ValueType::Levels | ValueType::ContourPlacement | ValueType::QuiverScale
        | ValueType::ImagePlane | ValueType::OutOfRange => None,
        _ => Some(Seq::empty()),
    }
}

/// Every value offered for a type is of that type and has a label.
proof fn lemma_choice_values_of_type(t: ValueType, replacing: Option<&PlainValue>)
    ensures
        spec_choice_values(t, replacing) matches Some(vs) ==> forall|j: int| 0 <= j < vs.len() ==>
            spec_plain_value_type(#[trigger] vs[j]) == Some(t) && spec_plain_label(vs[j]) is Some,
{
}

fn replaced_grid(replacing: Option<&PlainValue>) -> (r: (DataId, DataId))
    ensures
        r == spec_replaced_grid(replacing),
{
    match replacing {
        Some(PlainValue::Grid(Grid::Rectilinear { x, y })) => (*x, *y),
        Some(PlainValue::Grid(Grid::Curvilinear { x, y })) => (*x, *y),
        _ => (DataId(0), DataId(0)),
    }
}

/// Offers each of the values, under its label, available.
fn offer_all(values: Vec<PlainValue>) -> (r: Vec<PlainChoice>)
    requires
        forall|j: int| 0 <= j < values@.len() ==> (#[trigger] spec_plain_label(values@[j])) is Some,
    ensures
        offers(r@, values@),
{
    let ghost all = values@;
    let mut rest = values;
    let mut out: Vec<PlainChoice> = Vec::new();
    while rest.len() > 0
        invariant
            out@.len() + rest@.len() == all.len(),
            rest@ == all.skip(out@.len() as int),
            forall|j: int| 0 <= j < all.len() ==> (#[trigger] spec_plain_label(all[j])) is Some,
            forall|i: int| 0 <= i < out@.len() ==> #[trigger] offered(out@[i], all[i]),
        decreases rest.len(),
    {
        let ghost before = out@;
        let v = rest.remove(0);
        assert(v == all[before.len() as int]);
        let label = match plain_label_of(&v) {
            Some(l) => l,
            None => {
                assert(spec_plain_label(all[before.len() as int]) is Some);
                ""
            },
        };
        out.push(PlainChoice { label, value: v, unavailable: None });
        assert(rest@ =~= all.skip(out@.len() as int));
        assert(offered(out@[before.len() as int], all[before.len() as int]));
    }
    out
}

/// Returns the choices of a value type whose values are plain, in the order in which
/// they are offered, each available and carrying a value that suits the value it
/// replaces: a grid keeps the coordinate arrays of the grid it replaces, and refers to
/// the array with identifier 0 for both when it replaces none.
///
/// A type that is neither an enumeration nor a grid nor a tagged value has no choices
/// and gives an empty list; a tagged type whose values carry floating-point numbers
/// (limits, a projection, a colour specification and the rest) gives `None`.
pub fn plain_choices(value_type: ValueType, replacing: Option<&PlainValue>) -> (r: Option<Vec<PlainChoice>>)
    ensures
        match spec_choice_values(value_type, replacing) {
            Some(values) => r matches Some(v) && offers(v@, values),
            None => r is None,
        },
{
    let values: Vec<PlainValue> = match value_type {
        ValueType::Scale => vec![PlainValue::Scale(Scale::Linear), PlainValue::Scale(Scale::Log)],
        ValueType::ColormapName => vec![
            PlainValue::ColormapName(ColormapName::Viridis),
            PlainValue::ColormapName(ColormapName::Cividis),
            PlainValue::ColormapName(ColormapName::Magma),
            PlainValue::ColormapName(ColormapName::Inferno),
            PlainValue::ColormapName(ColormapName::Plasma),
            PlainValue::ColormapName(ColormapName::Coolwarm),
            PlainValue::ColormapName(ColormapName::Gray),
        ],
        ValueType::LegendLocation => vec![
            PlainValue::LegendLocation(LegendLocation::NorthEast),
            PlainValue::LegendLocation(LegendLocation::NorthWest),
            PlainValue::LegendLocation(LegendLocation::SouthEast),
            PlainValue::LegendLocation(LegendLocation::SouthWest),
            PlainValue::LegendLocation(LegendLocation::North),
            PlainValue::LegendLocation(LegendLocation::South),
            PlainValue::LegendLocation(LegendLocation::East),
            PlainValue::LegendLocation(LegendLocation::West),
            PlainValue::LegendLocation(LegendLocation::Best),
        ],
        ValueType::MarkerShape => vec![
            PlainValue::MarkerShape(MarkerShape::NoMarker),
            PlainValue::MarkerShape(MarkerShape::Circle),
            PlainValue::MarkerShape(MarkerShape::Square),
            PlainValue::MarkerShape(MarkerShape::Diamond),
            PlainValue::MarkerShape(MarkerShape::TriangleUp),
            PlainValue::MarkerShape(MarkerShape::TriangleDown),
            PlainValue::MarkerShape(MarkerShape::Plus),
            PlainValue::MarkerShape(MarkerShape::Cross),
            PlainValue::MarkerShape(MarkerShape::Point),
        ],
        ValueType::DashStyle => vec![
            PlainValue::DashStyle(DashStyle::Solid),
            PlainValue::DashStyle(DashStyle::Dashed),
            PlainValue::DashStyle(DashStyle::Dotted),
            PlainValue::DashStyle(DashStyle::DashDot),
            PlainValue::DashStyle(DashStyle::NoLine),
        ],
        ValueType::Interpreter => vec![PlainValue::Interpreter(Interpreter::Latex), PlainValue::Interpreter(Interpreter::Plain)],
        ValueType::FontSetId => vec![PlainValue::FontSetId(FontSetId::StixTwo)],
        ValueType::Grid => {
            let (x, y) = replaced_grid(replacing);
            vec![PlainValue::Grid(Grid::Rectilinear { x, y }), PlainValue::Grid(Grid::Curvilinear { x, y })]
        },
        ValueType::Projection | ValueType::Limits | ValueType::ColorSpec | ValueType::ScatterSize
        | ValueType::ScatterColor | ValueType::Levels | ValueType::ContourPlacement | ValueType::QuiverScale
        | ValueType::ImagePlane | ValueType::OutOfRange => return None,
        ValueType::Bool | ValueType::UInt32 | ValueType::Double | ValueType::Float | ValueType::String
        | ValueType::DataId | ValueType::Doubles | ValueType::Strings | ValueType::Text | ValueType::FigureSize
        | ValueType::Color | ValueType::TileLayout | ValueType::Links | ValueType::Parameters | ValueType::Cell
        | ValueType::View3d | ValueType::Axis | ValueType::Legend | ValueType::LineStyle | ValueType::MarkerStyle
        | ValueType::ImagePlacement | ValueType::PixelRange => Vec::new(),
    };
    assert(values@ =~= spec_choice_values(value_type, replacing)->Some_0);
    proof {
        lemma_choice_values_of_type(value_type, replacing);
    }
    Some(offer_all(values))
}


/// The position among the choices of its type of the choice that a value is.
pub open spec fn spec_choice_index(value: PlainValue) -> int {
    match value {
        PlainValue::Scale(Scale::Linear) => 0,
        PlainValue::Scale(Scale::Log) => 1,
        PlainValue::ColormapName(c) => match c {
            ColormapName::Viridis => 0,
            ColormapName::Cividis => 1,
            ColormapName::Magma => 2,
            ColormapName::Inferno => 3,
            ColormapName::Plasma => 4,
            ColormapName::Coolwarm => 5,
            ColormapName::Gray => 6,
        },
        PlainValue::LegendLocation(l) => match l {
            LegendLocation::NorthEast => 0,
            LegendLocation::NorthWest => 1,
            LegendLocation::SouthEast => 2,
            LegendLocation::SouthWest => 3,
            LegendLocation::North => 4,
            LegendLocation::South => 5,
            LegendLocation::East => 6,
            LegendLocation::West => 7,
            LegendLocation::Best => 8,
        },
        PlainValue::MarkerShape(m) => match m {
            MarkerShape::NoMarker => 0,
            MarkerShape::Circle => 1,
            MarkerShape::Square => 2,
            MarkerShape::Diamond => 3,
            MarkerShape::TriangleUp => 4,
            MarkerShape::TriangleDown => 5,
            MarkerShape::Plus => 6,
            MarkerShape::Cross => 7,
            MarkerShape::Point => 8,
        },
        PlainValue::DashStyle(d) => match d {
            DashStyle::Solid => 0,
            DashStyle::Dashed => 1,
            DashStyle::Dotted => 2,
            DashStyle::DashDot => 3,
            DashStyle::NoLine => 4,
        },
        PlainValue::Interpreter(Interpreter::Latex) => 0,
        PlainValue::Interpreter(Interpreter::Plain) => 1,
        PlainValue::Grid(Grid::Rectilinear { .. }) => 0,
        PlainValue::Grid(Grid::Curvilinear { .. }) => 1,
        _ => 0,
    }
}

/// Each value offered for a type stands at its own position among the choices.
proof fn lemma_choice_positions(t: ValueType, replacing: Option<&PlainValue>)
    ensures
        spec_choice_values(t, replacing) matches Some(vs) ==> forall|i: int|
            0 <= i < vs.len() ==> spec_choice_index(#[trigger] vs[i]) == i,
{
}

/// One label is the label of one value of a type.
proof fn lemma_scale_label(x: Scale, y: Scale)
    requires
        spec_scale_label(x) == spec_scale_label(y),
    ensures
        x == y,
{
    reveal_strlit("Linear");
    reveal_strlit("Logarithmic");
    assert("Linear"@.len() == 6 && "Linear"@[1] == 'i');
    assert("Logarithmic"@.len() == 11 && "Logarithmic"@[1] == 'o');
    let l = spec_scale_label(x);
    let m = spec_scale_label(y);
    assert(l.len() == m.len() && l[1] == m[1]);
}

proof fn lemma_colormap_name_label(x: ColormapName, y: ColormapName)
    requires
        spec_colormap_name_label(x) == spec_colormap_name_label(y),
    ensures
        x == y,
{
    reveal_strlit("Viridis");
    reveal_strlit("Cividis");
    reveal_strlit("Magma");
    reveal_strlit("Inferno");
    reveal_strlit("Plasma");
    reveal_strlit("Coolwarm");
    reveal_strlit("Gray");
    assert("Viridis"@.len() == 7 && "Viridis"@[0] == 'V');
    assert("Cividis"@.len() == 7 && "Cividis"@[0] == 'C');
    assert("Magma"@.len() == 5 && "Magma"@[0] == 'M');
    assert("Inferno"@.len() == 7 && "Inferno"@[0] == 'I');
    assert("Plasma"@.len() == 6 && "Plasma"@[0] == 'P');
    assert("Coolwarm"@.len() == 8 && "Coolwarm"@[0] == 'C');
    assert("Gray"@.len() == 4 && "Gray"@[0] == 'G');
    let l = spec_colormap_name_label(x);
    let m = spec_colormap_name_label(y);
    assert(l.len() == m.len() && l[0] == m[0]);
}

proof fn lemma_legend_location_label(x: LegendLocation, y: LegendLocation)
    requires
        spec_legend_location_label(x) == spec_legend_location_label(y),
    ensures
        x == y,
{
    reveal_strlit("North east");
    reveal_strlit("North west");
    reveal_strlit("South east");
    reveal_strlit("South west");
    reveal_strlit("North");
    reveal_strlit("South");
    reveal_strlit("East");
    reveal_strlit("West");
    reveal_strlit("Best");
    assert("North east"@.len() == 10 && "North east"@[0] == 'N' && "North east"@[6] == 'e');
    assert("North west"@.len() == 10 && "North west"@[0] == 'N' && "North west"@[6] == 'w');
    assert("South east"@.len() == 10 && "South east"@[0] == 'S' && "South east"@[6] == 'e');
    assert("South west"@.len() == 10 && "South west"@[0] == 'S' && "South west"@[6] == 'w');
    assert("North"@.len() == 5 && "North"@[0] == 'N');
    assert("South"@.len() == 5 && "South"@[0] == 'S');
    assert("East"@.len() == 4 && "East"@[0] == 'E');
    assert("West"@.len() == 4 && "West"@[0] == 'W');
    assert("Best"@.len() == 4 && "Best"@[0] == 'B');
    let l = spec_legend_location_label(x);
    let m = spec_legend_location_label(y);
    assert(l.len() == m.len() && l[0] == m[0] && l[6] == m[6]);
}

proof fn lemma_marker_shape_label(x: MarkerShape, y: MarkerShape)
    requires
        spec_marker_shape_label(x) == spec_marker_shape_label(y),
    ensures
        x == y,
{
    reveal_strlit("None");
    reveal_strlit("Circle");
    reveal_strlit("Square");
    reveal_strlit("Diamond");
    reveal_strlit("Triangle up");
    reveal_strlit("Triangle down");
    reveal_strlit("Plus");
    reveal_strlit("Cross");
    reveal_strlit("Point");
    assert("None"@.len() == 4 && "None"@[0] == 'N');
    assert("Circle"@.len() == 6 && "Circle"@[0] == 'C');
    assert("Square"@.len() == 6 && "Square"@[0] == 'S');
    assert("Diamond"@.len() == 7 && "Diamond"@[0] == 'D');
    assert("Triangle up"@.len() == 11 && "Triangle up"@[0] == 'T');
    assert("Triangle down"@.len() == 13 && "Triangle down"@[0] == 'T');
    assert("Plus"@.len() == 4 && "Plus"@[0] == 'P');
    assert("Cross"@.len() == 5 && "Cross"@[0] == 'C');
    assert("Point"@.len() == 5 && "Point"@[0] == 'P');
    let l = spec_marker_shape_label(x);
    let m = spec_marker_shape_label(y);
    assert(l.len() == m.len() && l[0] == m[0]);
}

proof fn lemma_dash_style_label(x: DashStyle, y: DashStyle)
    requires
        spec_dash_style_label(x) == spec_dash_style_label(y),
    ensures
        x == y,
{
    reveal_strlit("Solid");
    reveal_strlit("Dashed");
    reveal_strlit("Dotted");
    reveal_strlit("Dash-dot");
    reveal_strlit("None");
    assert("Solid"@.len() == 5 && "Solid"@[0] == 'S' && "Solid"@[1] == 'o');
    assert("Dashed"@.len() == 6 && "Dashed"@[0] == 'D' && "Dashed"@[1] == 'a');
    assert("Dotted"@.len() == 6 && "Dotted"@[0] == 'D' && "Dotted"@[1] == 'o');
    assert("Dash-dot"@.len() == 8 && "Dash-dot"@[0] == 'D' && "Dash-dot"@[1] == 'a');
    assert("None"@.len() == 4 && "None"@[0] == 'N' && "None"@[1] == 'o');
    let l = spec_dash_style_label(x);
    let m = spec_dash_style_label(y);
    assert(l.len() == m.len() && l[0] == m[0] && l[1] == m[1]);
}

proof fn lemma_interpreter_label(x: Interpreter, y: Interpreter)
    requires
        spec_interpreter_label(x) == spec_interpreter_label(y),
    ensures
        x == y,
{
    reveal_strlit("LaTeX");
    reveal_strlit("Plain");
    assert("LaTeX"@.len() == 5 && "LaTeX"@[0] == 'L');
    assert("Plain"@.len() == 5 && "Plain"@[0] == 'P');
    let l = spec_interpreter_label(x);
    let m = spec_interpreter_label(y);
    assert(l.len() == m.len() && l[0] == m[0]);
}

proof fn lemma_grid_label(x: Grid, y: Grid)
    requires
        spec_grid_label(x) == spec_grid_label(y),
    ensures
        (x is Rectilinear) == (y is Rectilinear),
{
    reveal_strlit("Rectilinear");
    reveal_strlit("Curvilinear");
    assert("Rectilinear"@.len() == 11 && "Rectilinear"@[0] == 'R');
    assert("Curvilinear"@.len() == 11 && "Curvilinear"@[0] == 'C');
    let l = spec_grid_label(x);
    let m = spec_grid_label(y);
    assert(l.len() == m.len() && l[0] == m[0]);
}

/// Two values of one type with one label stand at one position among the choices.
proof fn lemma_label_gives_position(a: PlainValue, b: PlainValue)
    requires
        spec_plain_label(a) is Some,
        spec_plain_value_type(a) == spec_plain_value_type(b),
        spec_plain_label(a) == spec_plain_label(b),
    ensures
        spec_choice_index(a) == spec_choice_index(b),
{
    match (a, b) {
        (PlainValue::Scale(x), PlainValue::Scale(y)) => lemma_scale_label(x, y),
        (PlainValue::ColormapName(x), PlainValue::ColormapName(y)) => lemma_colormap_name_label(x, y),
        (PlainValue::LegendLocation(x), PlainValue::LegendLocation(y)) => lemma_legend_location_label(x, y),
        (PlainValue::MarkerShape(x), PlainValue::MarkerShape(y)) => lemma_marker_shape_label(x, y),
        (PlainValue::DashStyle(x), PlainValue::DashStyle(y)) => lemma_dash_style_label(x, y),
        (PlainValue::Interpreter(x), PlainValue::Interpreter(y)) => lemma_interpreter_label(x, y),
        (PlainValue::Grid(x), PlainValue::Grid(y)) => lemma_grid_label(x, y),
        _ => {},
    }
}

/// The labels of the choices of one type are distinct.
pub proof fn law_choice_labels_distinct(t: ValueType, replacing: Option<&PlainValue>)
    ensures
        spec_choice_values(t, replacing) matches Some(vs) ==> forall|i: int, j: int|
            0 <= i < vs.len() && 0 <= j < vs.len() && i != j ==> spec_plain_label(#[trigger] vs[i])
                != spec_plain_label(#[trigger] vs[j]),
{
    lemma_choice_values_of_type(t, replacing);
    lemma_choice_positions(t, replacing);
    if let Some(vs) = spec_choice_values(t, replacing) {
        assert forall|i: int, j: int| 0 <= i < vs.len() && 0 <= j < vs.len() && i != j implies spec_plain_label(
            #[trigger] vs[i],
        ) != spec_plain_label(#[trigger] vs[j]) by {
            if spec_plain_label(vs[i]) == spec_plain_label(vs[j]) {
                lemma_label_gives_position(vs[i], vs[j]);
            }
        }
    }
}

/// Every value of an enumeration or of a grid is matched by exactly one choice of its
/// type, whatever value the choices replace, so the combo box of a property shows the
/// choice the property holds.
pub proof fn law_value_matches_one_choice(value: PlainValue, replacing: Option<&PlainValue>)
    requires
        spec_plain_label(value) is Some,
    ensures
        spec_choice_values(spec_plain_value_type(value)->Some_0, replacing) matches Some(vs) && 0
            <= spec_choice_index(value) < vs.len() && forall|j: int|
            0 <= j < vs.len() ==> (spec_matches(#[trigger] vs[j], value) <==> j == spec_choice_index(value)),
{
    let t = spec_plain_value_type(value)->Some_0;
    lemma_choice_values_of_type(t, replacing);
    law_choice_labels_distinct(t, replacing);
    let vs = spec_choice_values(t, replacing)->Some_0;
    let k = spec_choice_index(value);
    assert(0 <= k < vs.len() && spec_plain_label(vs[k]) == spec_plain_label(value));
    assert forall|j: int| 0 <= j < vs.len() implies (spec_matches(#[trigger] vs[j], value) <==> j == k) by {
        assert(spec_plain_value_type(vs[j]) == Some(t));
        if j != k {
            assert(spec_plain_label(vs[j]) != spec_plain_label(vs[k]));
        }
    }
}



/// The grids offered in place of a grid, of either kind, keep its coordinate arrays:
/// both the rectilinear and the curvilinear choice refer to the `x` and `y` arrays of
/// the grid they replace.
pub proof fn law_grid_choices_keep_arrays(replaced: Grid, x: DataId, y: DataId)
    requires
        replaced == (Grid::Rectilinear { x, y }) || replaced == (Grid::Curvilinear { x, y }),
    ensures
        spec_choice_values(ValueType::Grid, Some(&PlainValue::Grid(replaced))) == Some(
            seq![PlainValue::Grid(Grid::Rectilinear { x, y }), PlainValue::Grid(Grid::Curvilinear { x, y })],
        ),
{
}

} // verus!
