//! The conversion between the plain properties of a figure and their wire messages.
//!
//! Absent and unspecified values follow the conventions of the figure format: an
//! absent optional field takes the default of its property, an unspecified enum value
//! takes the default of its enum where it has one, and a field that has no default is
//! reported missing by its path within the figure.

use vstd::prelude::*;

use crate::artist::Grid;
use crate::axes::{Cell, ColormapName, Legend, LegendLocation, Scale};
use crate::edit::path::{path_error_text, refused_with, split_dots, valid_segments, PathError, PropertyPath};
use crate::edit::value::{PlainEdit, PlainValue};
use crate::figure::{FontSetId, TileLayout};
use crate::ids::{DataId, NodeId};
use crate::link::{link_views, AxisLink, Dimension};
use crate::style::{DashStyle, MarkerShape};
use crate::text::{owned, Interpreter, Text};
use crate::textfmt::{decimal, push_decimal};
use crate::wire::message as w;

verus! {

/// The error that the Protocol Buffers decoder reports for bytes that are not a valid
/// encoding of a message.
#[verifier::external_type_specification]
#[verifier::external_body]
pub struct ExDecodeError(prost::DecodeError);

/// The reason why bytes could not be decoded as a Protocol Buffers figure.
#[derive(Debug)]
pub enum ProtobufError {
    /// The bytes are not a valid Protocol Buffers encoding of a figure message, for
    /// example because they are truncated inside a field.
    Decode(prost::DecodeError),
    /// An enum field holds a value that this build does not define.
    UnknownEnumValue {
        /// The path of the field within the figure, such as `axes[0].x.scale`.
        field: String,
        /// The value found.
        value: i32,
    },
    /// A field that has no default is absent or unspecified, such as the kind of an
    /// artist, the dimension of an axis link, a node identifier or a required
    /// reference to a data array.
    MissingField {
        /// The path of the field within the figure, such as `axes[0].artists[1].kind`.
        field: String,
    },
    /// A field holds a value that cannot be represented in memory, such as an array
    /// dimension larger than the address space.
    InvalidValue {
        /// The path of the field within the figure.
        field: String,
        /// Why the value cannot be represented.
        reason: String,
    },
}

/// A domain enum with a wire enum of the same variants, numbered from one in
/// declaration order; zero is the unspecified value.
pub trait WireEnum: Sized + Copy {
    /// The number of the wire value of the same name.
    spec fn wire_number(self) -> i32;

    /// The domain variant of a wire number: `Some(None)` for the unspecified value, and
    /// `None` for a number that the wire enum does not define.
    spec fn from_number(number: i32) -> Option<Option<Self>>;

    /// Returns the number of the wire value of the same name.
    fn to_wire(self) -> (r: i32)
        ensures
            r == self.wire_number(),
    ;

    /// Returns the domain variant of a wire value.
    fn from_wire(number: i32) -> (r: Option<Option<Self>>)
        ensures
            r == Self::from_number(number),
    ;

    /// Decoding the number of a variant gives the variant back, and no variant is
    /// encoded as the unspecified value.
    proof fn lemma_wire_round_trip(self)
        ensures
            Self::from_number(self.wire_number()) == Some(Some(self)),
            self.wire_number() != 0,
    ;
}

impl WireEnum for FontSetId {
    open spec fn wire_number(self) -> i32 {
        match self {
            FontSetId::StixTwo => 1,
        }
    }

    open spec fn from_number(number: i32) -> Option<Option<Self>> {
        if number == 0 {
            Some(None)
        } else if number == 1 {
            Some(Some(FontSetId::StixTwo))
        } else {
            None
        }
    }

    fn to_wire(self) -> (r: i32) {
        match self {
            FontSetId::StixTwo => 1,
        }
    }

    fn from_wire(number: i32) -> (r: Option<Option<Self>>) {
        match number {
            0 => Some(None),
            1 => Some(Some(FontSetId::StixTwo)),
            _ => None,
        }
    }

    proof fn lemma_wire_round_trip(self) {
    }
}

impl WireEnum for Interpreter {
    open spec fn wire_number(self) -> i32 {
        match self {
            Interpreter::Latex => 1,
            Interpreter::Plain => 2,
        }
    }

    open spec fn from_number(number: i32) -> Option<Option<Self>> {
        if number == 0 {
            Some(None)
        } else if number == 1 {
            Some(Some(Interpreter::Latex))
        } else if number == 2 {
            Some(Some(Interpreter::Plain))
        } else {
            None
        }
    }

    fn to_wire(self) -> (r: i32) {
        match self {
            Interpreter::Latex => 1,
            Interpreter::Plain => 2,
        }
    }

    fn from_wire(number: i32) -> (r: Option<Option<Self>>) {
        match number {
            0 => Some(None),
            1 => Some(Some(Interpreter::Latex)),
            2 => Some(Some(Interpreter::Plain)),
            _ => None,
        }
    }

    proof fn lemma_wire_round_trip(self) {
    }
}

impl WireEnum for Scale {
    open spec fn wire_number(self) -> i32 {
        match self {
            Scale::Linear => 1,
            Scale::Log => 2,
        }
    }

    open spec fn from_number(number: i32) -> Option<Option<Self>> {
        if number == 0 {
            Some(None)
        } else if number == 1 {
            Some(Some(Scale::Linear))
        } else if number == 2 {
            Some(Some(Scale::Log))
        } else {
            None
        }
    }

    fn to_wire(self) -> (r: i32) {
        match self {
            Scale::Linear => 1,
            Scale::Log => 2,
        }
    }

    fn from_wire(number: i32) -> (r: Option<Option<Self>>) {
        match number {
            0 => Some(None),
            1 => Some(Some(Scale::Linear)),
            2 => Some(Some(Scale::Log)),
            _ => None,
        }
    }

    proof fn lemma_wire_round_trip(self) {
    }
}

impl WireEnum for ColormapName {
    open spec fn wire_number(self) -> i32 {
        match self {
            ColormapName::Viridis => 1,
            ColormapName::Cividis => 2,
            ColormapName::Magma => 3,
            ColormapName::Inferno => 4,
            ColormapName::Plasma => 5,
            ColormapName::Coolwarm => 6,
            ColormapName::Gray => 7,
        }
    }

    open spec fn from_number(number: i32) -> Option<Option<Self>> {
        if number == 0 {
            Some(None)
        } else if number == 1 {
            Some(Some(ColormapName::Viridis))
        } else if number == 2 {
            Some(Some(ColormapName::Cividis))
        } else if number == 3 {
            Some(Some(ColormapName::Magma))
        } else if number == 4 {
            Some(Some(ColormapName::Inferno))
        } else if number == 5 {
            Some(Some(ColormapName::Plasma))
        } else if number == 6 {
            Some(Some(ColormapName::Coolwarm))
        } else if number == 7 {
            Some(Some(ColormapName::Gray))
        } else {
            None
        }
    }

    fn to_wire(self) -> (r: i32) {
        match self {
            ColormapName::Viridis => 1,
            ColormapName::Cividis => 2,
            ColormapName::Magma => 3,
            ColormapName::Inferno => 4,
            ColormapName::Plasma => 5,
            ColormapName::Coolwarm => 6,
            ColormapName::Gray => 7,
        }
    }

    fn from_wire(number: i32) -> (r: Option<Option<Self>>) {
        match number {
            0 => Some(None),
            1 => Some(Some(ColormapName::Viridis)),
            2 => Some(Some(ColormapName::Cividis)),
            3 => Some(Some(ColormapName::Magma)),
            4 => Some(Some(ColormapName::Inferno)),
            5 => Some(Some(ColormapName::Plasma)),
            6 => Some(Some(ColormapName::Coolwarm)),
            7 => Some(Some(ColormapName::Gray)),
            _ => None,
        }
    }

    proof fn lemma_wire_round_trip(self) {
    }
}

impl WireEnum for LegendLocation {
    open spec fn wire_number(self) -> i32 {
        match self {
            LegendLocation::NorthEast => 1,
            LegendLocation::NorthWest => 2,
            LegendLocation::SouthEast => 3,
            LegendLocation::SouthWest => 4,
            LegendLocation::North => 5,
            LegendLocation::South => 6,
            LegendLocation::East => 7,
            LegendLocation::West => 8,
            LegendLocation::Best => 9,
        }
    }

    open spec fn from_number(number: i32) -> Option<Option<Self>> {
        if number == 0 {
            Some(None)
        } else if number == 1 {
            Some(Some(LegendLocation::NorthEast))
        } else if number == 2 {
            Some(Some(LegendLocation::NorthWest))
        } else if number == 3 {
            Some(Some(LegendLocation::SouthEast))
        } else if number == 4 {
            Some(Some(LegendLocation::SouthWest))
        } else if number == 5 {
            Some(Some(LegendLocation::North))
        } else if number == 6 {
            Some(Some(LegendLocation::South))
        } else if number == 7 {
            Some(Some(LegendLocation::East))
        } else if number == 8 {
            Some(Some(LegendLocation::West))
        } else if number == 9 {
            Some(Some(LegendLocation::Best))
        } else {
            None
        }
    }

    fn to_wire(self) -> (r: i32) {
        match self {
            LegendLocation::NorthEast => 1,
            LegendLocation::NorthWest => 2,
            LegendLocation::SouthEast => 3,
            LegendLocation::SouthWest => 4,
            LegendLocation::North => 5,
            LegendLocation::South => 6,
            LegendLocation::East => 7,
            LegendLocation::West => 8,
            LegendLocation::Best => 9,
        }
    }

    fn from_wire(number: i32) -> (r: Option<Option<Self>>) {
        match number {
            0 => Some(None),
            1 => Some(Some(LegendLocation::NorthEast)),
            2 => Some(Some(LegendLocation::NorthWest)),
            3 => Some(Some(LegendLocation::SouthEast)),
            4 => Some(Some(LegendLocation::SouthWest)),
            5 => Some(Some(LegendLocation::North)),
            6 => Some(Some(LegendLocation::South)),
            7 => Some(Some(LegendLocation::East)),
            8 => Some(Some(LegendLocation::West)),
            9 => Some(Some(LegendLocation::Best)),
            _ => None,
        }
    }

    proof fn lemma_wire_round_trip(self) {
    }
}

impl WireEnum for DashStyle {
    open spec fn wire_number(self) -> i32 {
        match self {
            DashStyle::Solid => 1,
            DashStyle::Dashed => 2,
            DashStyle::Dotted => 3,
            DashStyle::DashDot => 4,
            DashStyle::NoLine => 5,
        }
    }

    open spec fn from_number(number: i32) -> Option<Option<Self>> {
        if number == 0 {
            Some(None)
        } else if number == 1 {
            Some(Some(DashStyle::Solid))
        } else if number == 2 {
            Some(Some(DashStyle::Dashed))
        } else if number == 3 {
            Some(Some(DashStyle::Dotted))
        } else if number == 4 {
            Some(Some(DashStyle::DashDot))
        } else if number == 5 {
            Some(Some(DashStyle::NoLine))
        } else {
            None
        }
    }

    fn to_wire(self) -> (r: i32) {
        match self {
            DashStyle::Solid => 1,
            DashStyle::Dashed => 2,
            DashStyle::Dotted => 3,
            DashStyle::DashDot => 4,
            DashStyle::NoLine => 5,
        }
    }

    fn from_wire(number: i32) -> (r: Option<Option<Self>>) {
        match number {
            0 => Some(None),
            1 => Some(Some(DashStyle::Solid)),
            2 => Some(Some(DashStyle::Dashed)),
            3 => Some(Some(DashStyle::Dotted)),
            4 => Some(Some(DashStyle::DashDot)),
            5 => Some(Some(DashStyle::NoLine)),
            _ => None,
        }
    }

    proof fn lemma_wire_round_trip(self) {
    }
}

impl WireEnum for MarkerShape {
    open spec fn wire_number(self) -> i32 {
        match self {
            MarkerShape::NoMarker => 1,
            MarkerShape::Circle => 2,
            MarkerShape::Square => 3,
            MarkerShape::Diamond => 4,
            MarkerShape::TriangleUp => 5,
            MarkerShape::TriangleDown => 6,
            MarkerShape::Plus => 7,
            MarkerShape::Cross => 8,
            MarkerShape::Point => 9,
        }
    }

    open spec fn from_number(number: i32) -> Option<Option<Self>> {
        if number == 0 {
            Some(None)
        } else if number == 1 {
            Some(Some(MarkerShape::NoMarker))
        } else if number == 2 {
            Some(Some(MarkerShape::Circle))
        } else if number == 3 {
            Some(Some(MarkerShape::Square))
        } else if number == 4 {
            Some(Some(MarkerShape::Diamond))
        } else if number == 5 {
            Some(Some(MarkerShape::TriangleUp))
        } else if number == 6 {
            Some(Some(MarkerShape::TriangleDown))
        } else if number == 7 {
            Some(Some(MarkerShape::Plus))
        } else if number == 8 {
            Some(Some(MarkerShape::Cross))
        } else if number == 9 {
            Some(Some(MarkerShape::Point))
        } else {
            None
        }
    }

    fn to_wire(self) -> (r: i32) {
        match self {
            MarkerShape::NoMarker => 1,
            MarkerShape::Circle => 2,
            MarkerShape::Square => 3,
            MarkerShape::Diamond => 4,
            MarkerShape::TriangleUp => 5,
            MarkerShape::TriangleDown => 6,
            MarkerShape::Plus => 7,
            MarkerShape::Cross => 8,
            MarkerShape::Point => 9,
        }
    }

    fn from_wire(number: i32) -> (r: Option<Option<Self>>) {
        match number {
            0 => Some(None),
            1 => Some(Some(MarkerShape::NoMarker)),
            2 => Some(Some(MarkerShape::Circle)),
            3 => Some(Some(MarkerShape::Square)),
            4 => Some(Some(MarkerShape::Diamond)),
            5 => Some(Some(MarkerShape::TriangleUp)),
            6 => Some(Some(MarkerShape::TriangleDown)),
            7 => Some(Some(MarkerShape::Plus)),
            8 => Some(Some(MarkerShape::Cross)),
            9 => Some(Some(MarkerShape::Point)),
            _ => None,
        }
    }

    proof fn lemma_wire_round_trip(self) {
    }
}

impl WireEnum for Dimension {
    open spec fn wire_number(self) -> i32 {
        match self {
            Dimension::X => 1,
            Dimension::Y => 2,
            Dimension::Z => 3,
        }
    }

    open spec fn from_number(number: i32) -> Option<Option<Self>> {
        if number == 0 {
            Some(None)
        } else if number == 1 {
            Some(Some(Dimension::X))
        } else if number == 2 {
            Some(Some(Dimension::Y))
        } else if number == 3 {
            Some(Some(Dimension::Z))
        } else {
            None
        }
    }

    fn to_wire(self) -> (r: i32) {
        match self {
            Dimension::X => 1,
            Dimension::Y => 2,
            Dimension::Z => 3,
        }
    }

    fn from_wire(number: i32) -> (r: Option<Option<Self>>) {
        match number {
            0 => Some(None),
            1 => Some(Some(Dimension::X)),
            2 => Some(Some(Dimension::Y)),
            3 => Some(Some(Dimension::Z)),
            _ => None,
        }
    }

    proof fn lemma_wire_round_trip(self) {
    }
}

/// The path of a field within the message at path `at`, which is empty for the figure.
pub open spec fn spec_join(at: Seq<char>, field: Seq<char>) -> Seq<char> {
    if at.len() == 0 {
        field
    } else {
        at + seq!['.'] + field
    }
}

/// Returns the path of a field within the message at path `at`, which is empty for the
/// figure.
pub fn join(at: &str, field: &str) -> (r: String)
    ensures
        r@ == spec_join(at@, field@),
{
    if at.unicode_len() == 0 {
        owned(field)
    } else {
        let mut r = owned(at);
        r.append(".");
        r.append(field);
        proof {
            reveal_strlit(".");
        }
        r
    }
}

/// Whether an error reports a field missing at a path.
pub open spec fn is_missing(e: ProtobufError, path: Seq<char>) -> bool {
    e matches ProtobufError::MissingField { field } && field@ == path
}

/// Whether an error reports an unknown enum value at a path.
pub open spec fn is_unknown_value(e: ProtobufError, path: Seq<char>, number: i32) -> bool {
    e matches ProtobufError::UnknownEnumValue { field, value } && field@ == path && value == number
}

/// Returns a value that has no default, or reports it as missing.
pub fn required<T>(value: Option<T>, at: &str, field: &str) -> (r: Result<T, ProtobufError>)
    ensures
        value matches Some(v) ==> r == Ok::<T, ProtobufError>(v),
        value is None ==> (r matches Err(e) && is_missing(e, spec_join(at@, field@))),
{
    match value {
        Some(v) => Ok(v),
        None => Err(ProtobufError::MissingField { field: join(at, field) }),
    }
}

/// Returns the identifier of a node, which has no default.
pub fn node_id(value: Option<u64>, at: &str) -> (r: Result<NodeId, ProtobufError>)
    ensures
        value matches Some(v) ==> r == Ok::<NodeId, ProtobufError>(NodeId(v)),
        value is None ==> (r matches Err(e) && is_missing(e, spec_join(at@, "id"@))),
{
    match required(value, at, "id") {
        Ok(v) => Ok(NodeId(v)),
        Err(e) => Err(e),
    }
}

/// Returns a reference to a data array, which has no default.
pub fn data_id(value: Option<u64>, at: &str, field: &str) -> (r: Result<DataId, ProtobufError>)
    ensures
        value matches Some(v) ==> r == Ok::<DataId, ProtobufError>(DataId(v)),
        value is None ==> (r matches Err(e) && is_missing(e, spec_join(at@, field@))),
{
    match required(value, at, field) {
        Ok(v) => Ok(DataId(v)),
        Err(e) => Err(e),
    }
}

/// What decoding an enum value gives: its variant; for the unspecified value the
/// default, or a missing field when there is none; and for an undefined number an
/// unknown value.
pub open spec fn decodes_enum<E: WireEnum>(r: Result<E, ProtobufError>, number: i32, default: Option<E>, path: Seq<char>) -> bool {
    match E::from_number(number) {
        Some(Some(v)) => r == Ok::<E, ProtobufError>(v),
        Some(None) => match default {
            Some(d) => r == Ok::<E, ProtobufError>(d),
            None => r matches Err(e) && is_missing(e, path),
        },
        None => r matches Err(e) && is_unknown_value(e, path, number),
    }
}

/// Decodes an enum value, taking `default` for the unspecified value, or reporting the
/// unspecified value as missing when there is no default.
pub fn decode_enum<E: WireEnum>(number: i32, default: Option<E>, at: &str, field: &str) -> (r: Result<E, ProtobufError>)
    ensures
        decodes_enum(r, number, default, spec_join(at@, field@)),
{
    match E::from_wire(number) {
        Some(Some(value)) => Ok(value),
        Some(None) => match default {
            Some(d) => Ok(d),
            None => Err(ProtobufError::MissingField { field: join(at, field) }),
        },
        None => Err(ProtobufError::UnknownEnumValue { field: join(at, field), value: number }),
    }
}

/// Returns the message held by a variant of a value message, with the path of that
/// message for the errors of the values within it.
pub fn value_message<T>(value: Option<T>, at: &str, variant: &str) -> (r: Result<(T, String), ProtobufError>)
    ensures
        value matches Some(v) ==> (r matches Ok((m, within)) && m == v && within@ == spec_join(spec_join(at@, variant@), "value"@)),
        value is None ==> (r matches Err(e) && is_missing(e, spec_join(spec_join(at@, variant@), "value"@))),
{
    let at = join(at, variant);
    let message = match required(value, at.as_str(), "value") {
        Ok(m) => m,
        Err(e) => {
            return Err(e);
        },
    };
    let within = join(at.as_str(), "value");
    Ok((message, within))
}

/// The wire message of a tile layout.
pub open spec fn spec_encode_tile_layout(layout: TileLayout) -> w::TileLayout {
    w::TileLayout { rows: Some(layout.rows), cols: Some(layout.cols) }
}

pub fn encode_tile_layout(layout: TileLayout) -> (r: w::TileLayout)
    ensures
        r == spec_encode_tile_layout(layout),
{
    w::TileLayout { rows: Some(layout.rows), cols: Some(layout.cols) }
}

/// The tile layout of a wire message, each absent field taking its default of one.
pub open spec fn spec_decode_tile_layout(wire: w::TileLayout) -> TileLayout {
    TileLayout { rows: wire.rows.unwrap_or(1), cols: wire.cols.unwrap_or(1) }
}

pub fn decode_tile_layout(wire: w::TileLayout) -> (r: TileLayout)
    ensures
        r == spec_decode_tile_layout(wire),
{
    let default = TileLayout::default();
    TileLayout {
        rows: match wire.rows {
            Some(v) => v,
            None => default.rows,
        },
        cols: match wire.cols {
            Some(v) => v,
            None => default.cols,
        },
    }
}

/// The wire message of a cell.
pub open spec fn spec_encode_cell(cell: Cell) -> w::Cell {
    w::Cell { row: Some(cell.row), col: Some(cell.col), row_span: Some(cell.row_span), col_span: Some(cell.col_span) }
}

pub fn encode_cell(cell: Cell) -> (r: w::Cell)
    ensures
        r == spec_encode_cell(cell),
{
    w::Cell { row: Some(cell.row), col: Some(cell.col), row_span: Some(cell.row_span), col_span: Some(cell.col_span) }
}

/// The cell of a wire message: an absent position is zero and an absent span one.
pub open spec fn spec_decode_cell(wire: w::Cell) -> Cell {
    Cell {
        row: wire.row.unwrap_or(0),
        col: wire.col.unwrap_or(0),
        row_span: wire.row_span.unwrap_or(1),
        col_span: wire.col_span.unwrap_or(1),
    }
}

pub fn decode_cell(wire: w::Cell) -> (r: Cell)
    ensures
        r == spec_decode_cell(wire),
{
    let default = Cell::default();
    Cell {
        row: match wire.row {
            Some(v) => v,
            None => default.row,
        },
        col: match wire.col {
            Some(v) => v,
            None => default.col,
        },
        row_span: match wire.row_span {
            Some(v) => v,
            None => default.row_span,
        },
        col_span: match wire.col_span {
            Some(v) => v,
            None => default.col_span,
        },
    }
}

/// The wire message of a legend.
pub open spec fn spec_encode_legend(legend: Legend) -> w::Legend {
    w::Legend { location: legend.location.wire_number(), boxed: Some(legend.boxed) }
}

pub fn encode_legend(legend: Legend) -> (r: w::Legend)
    ensures
        r == spec_encode_legend(legend),
{
    w::Legend { location: legend.location.to_wire(), boxed: Some(legend.boxed) }
}

/// Decodes a legend: an unspecified location is the top-right corner and an absent
/// box is drawn.
///
/// # Errors
///
/// Returns [`ProtobufError::UnknownEnumValue`] for a location that this build does not
/// define.
pub fn decode_legend(wire: w::Legend, at: &str) -> (r: Result<Legend, ProtobufError>)
    ensures
        match LegendLocation::from_number(wire.location) {
            Some(location) => r == Ok::<Legend, ProtobufError>(Legend {
                location: location.unwrap_or(LegendLocation::NorthEast),
                boxed: wire.boxed.unwrap_or(true),
            }),
            None => r matches Err(e) && is_unknown_value(e, spec_join(at@, "location"@), wire.location),
        },
{
    let default = Legend::default();
    let location = match decode_enum(wire.location, Some(default.location), at, "location") {
        Ok(l) => l,
        Err(e) => {
            return Err(e);
        },
    };
    Ok(Legend {
        location,
        boxed: match wire.boxed {
            Some(b) => b,
            None => default.boxed,
        },
    })
}

/// Returns the wire message of a text.
pub fn encode_text(text: &Text) -> (r: w::Text)
    ensures
        r.content@ == text.content@,
        r.interpreter == text.interpreter.wire_number(),
{
    w::Text { content: owned(text.content.as_str()), interpreter: text.interpreter.to_wire() }
}

/// Decodes a text; an unspecified interpreter is LaTeX.
///
/// # Errors
///
/// Returns [`ProtobufError::UnknownEnumValue`] for an interpreter that this build does
/// not define.
pub fn decode_text(wire: w::Text, at: &str) -> (r: Result<Text, ProtobufError>)
    ensures
        match Interpreter::from_number(wire.interpreter) {
            Some(interpreter) => r matches Ok(t) && t.content@ == wire.content@
                && t.interpreter == interpreter.unwrap_or(Interpreter::Latex),
            None => r matches Err(e) && is_unknown_value(e, spec_join(at@, "interpreter"@), wire.interpreter),
        },
{
    let interpreter = match decode_enum(wire.interpreter, Some(Interpreter::Latex), at, "interpreter") {
        Ok(i) => i,
        Err(e) => {
            return Err(e);
        },
    };
    Ok(Text { content: wire.content, interpreter })
}

/// Decodes the display name of an artist, which may be absent.
pub fn decode_display_name(wire: Option<w::Text>, at: &str) -> (r: Result<Option<Text>, ProtobufError>)
    ensures
        wire is None ==> r matches Ok(None),
        wire matches Some(t) ==> match Interpreter::from_number(t.interpreter) {
            Some(interpreter) => r matches Ok(Some(text)) && text.content@ == t.content@
                && text.interpreter == interpreter.unwrap_or(Interpreter::Latex),
            None => r matches Err(e) && is_unknown_value(
                e,
                spec_join(spec_join(at@, "display_name"@), "interpreter"@),
                t.interpreter,
            ),
        },
{
    match wire {
        None => Ok(None),
        Some(t) => {
            let at = join(at, "display_name");
            match decode_text(t, at.as_str()) {
                Ok(text) => Ok(Some(text)),
                Err(e) => Err(e),
            }
        },
    }
}

/// The identifiers of a list of axes as the wire writes them.
pub open spec fn id_numbers(ids: Seq<NodeId>) -> Seq<u64> {
    ids.map_values(|id: NodeId| id.0)
}

/// Whether wire links are what axis links encode to: for each, the number of its
/// dimension and the numbers of its axes.
pub open spec fn links_encoded(links: Seq<AxisLink>, wire: Seq<w::AxisLink>) -> bool {
    wire.len() == links.len() && forall|i: int| 0 <= i < links.len() ==> (#[trigger] wire[i]).dimension
        == links[i].dimension.wire_number() && wire[i].axes@ == id_numbers(links[i].axes@)
}

/// Returns the wire messages of axis links.
pub fn encode_links(links: &[AxisLink]) -> (r: Vec<w::AxisLink>)
    ensures
        links_encoded(links@, r@),
{
    let mut r: Vec<w::AxisLink> = Vec::new();
    let mut i: usize = 0;
    while i < links.len()
        invariant
            i <= links@.len(),
            r@.len() == i,
            forall|k: int| 0 <= k < i ==> (#[trigger] r@[k]).dimension == links@[k].dimension.wire_number()
                && r@[k].axes@ == id_numbers(links@[k].axes@),
        decreases links.len() - i,
    {
        let link = &links[i];
        let mut axes: Vec<u64> = Vec::new();
        let mut k: usize = 0;
        while k < link.axes.len()
            invariant
                k <= link.axes@.len(),
                axes@ == id_numbers(link.axes@.take(k as int)),
            decreases link.axes.len() - k,
        {
            axes.push(link.axes[k].0);
            assert(id_numbers(link.axes@.take(k + 1)) =~= id_numbers(link.axes@.take(k as int)).push(link.axes@[k as int].0));
            k = k + 1;
        }
        assert(link.axes@.take(k as int) =~= link.axes@);
        r.push(w::AxisLink { dimension: link.dimension.to_wire(), axes });
        i = i + 1;
    }
    r
}

/// The path of the link at a position, within the message at path `at`.
pub open spec fn link_path(at: Seq<char>, i: int) -> Seq<char> {
    spec_join(at, "links["@ + decimal(i as nat) + "]"@)
}

/// Returns the path of the link at a position, within the message at path `at`.
fn link_at(at: &str, i: usize) -> (r: String)
    ensures
        r@ == link_path(at@, i as int),
{
    let mut name = owned("links[");
    push_decimal(&mut name, i as u64);
    name.append("]");
    proof {
        reveal_strlit("links[");
        reveal_strlit("]");
    }
    join(at, name.as_str())
}

/// Whether the wire link at a position decodes: its dimension is defined and not
/// unspecified, for a dimension has no default.
pub open spec fn link_decodes(link: w::AxisLink) -> bool {
    Dimension::from_number(link.dimension) matches Some(Some(_))
}

/// Whether every wire link decodes.
pub open spec fn all_links_decode(wire: Seq<w::AxisLink>) -> bool {
    forall|i: int| 0 <= i < wire.len() ==> link_decodes(#[trigger] wire[i])
}

/// Whether links are what wire links decode to: for each, its dimension and its axes.
pub open spec fn links_decoded(wire: Seq<w::AxisLink>, links: Seq<AxisLink>) -> bool {
    links.len() == wire.len() && forall|i: int| 0 <= i < wire.len() ==> {
        &&& Dimension::from_number(wire[i].dimension) == Some(Some((#[trigger] links[i]).dimension))
        &&& id_numbers(links[i].axes@) == wire[i].axes@
    }
}

/// Whether an error is that of the first wire link, at path `at`, that does not decode.
pub open spec fn links_error(wire: Seq<w::AxisLink>, at: Seq<char>, e: ProtobufError) -> bool {
    exists|i: int| 0 <= i < wire.len() && !link_decodes(#[trigger] wire[i])
        && (forall|k: int| 0 <= k < i ==> link_decodes(#[trigger] wire[k]))
        && decodes_enum(Err::<Dimension, ProtobufError>(e), wire[i].dimension, None, spec_join(link_path(at, i), "dimension"@))
}

/// Decodes the axis links of a figure, whose dimensions have no default.
///
/// # Errors
///
/// Returns the error of the first link whose dimension is unspecified
/// ([`ProtobufError::MissingField`]) or undefined
/// ([`ProtobufError::UnknownEnumValue`]), at the path `links[i].dimension`.
pub fn decode_links(wire: Vec<w::AxisLink>, at: &str) -> (r: Result<Vec<AxisLink>, ProtobufError>)
    ensures
        r is Ok <==> all_links_decode(wire@),
        r matches Ok(links) ==> links_decoded(wire@, links@),
        r matches Err(e) ==> links_error(wire@, at@, e),
{
    let ghost received = wire@;
    let mut links: Vec<AxisLink> = Vec::new();
    let mut rest = wire;
    let mut i: usize = 0;
    let total = rest.len();
    while rest.len() > 0
        invariant
            i <= received.len(),
            received == wire@,
            received.len() == total,
            rest@ == received.skip(i as int),
            links@.len() == i,
            forall|k: int| 0 <= k < i ==> link_decodes(#[trigger] received[k]),
            forall|k: int| 0 <= k < i ==> {
                &&& Dimension::from_number(received[k].dimension) == Some(Some((#[trigger] links@[k]).dimension))
                &&& id_numbers(links@[k].axes@) == received[k].axes@
            },
        decreases rest.len(),
    {
        let link = rest.remove(0);
        assert(link == received[i as int]);
        assert(rest@ =~= received.skip(i + 1));
        let path = link_at(at, i);
        let dimension = match decode_enum(link.dimension, None, path.as_str(), "dimension") {
            Ok(d) => d,
            Err(e) => {
                assert(!link_decodes(received[i as int]));
                assert(!link_decodes(wire@[i as int]));
                return Err(e);
            },
        };
        let mut axes: Vec<NodeId> = Vec::new();
        let mut k: usize = 0;
        while k < link.axes.len()
            invariant
                k <= link.axes@.len(),
                id_numbers(axes@) == link.axes@.take(k as int),
            decreases link.axes.len() - k,
        {
            let ghost before = axes@;
            axes.push(NodeId(link.axes[k]));
            assert(id_numbers(axes@) =~= id_numbers(before).push(link.axes@[k as int]));
            assert(link.axes@.take(k + 1) =~= link.axes@.take(k as int).push(link.axes@[k as int]));
            k = k + 1;
        }
        assert(link.axes@.take(k as int) =~= link.axes@);
        links.push(AxisLink { dimension, axes });
        i = i + 1;
    }
    assert(i == received.len());
    Ok(links)
}

/// The wire message of a grid.
pub open spec fn spec_encode_grid(grid: Grid) -> w::Grid {
    match grid {
        Grid::Rectilinear { x, y } => w::Grid { kind: Some(w::GridKind::Rectilinear(w::GridRectilinear { x: Some(x.0), y: Some(y.0) })) },
        Grid::Curvilinear { x, y } => w::Grid { kind: Some(w::GridKind::Curvilinear(w::GridCurvilinear { x: Some(x.0), y: Some(y.0) })) },
    }
}

pub fn encode_grid(grid: Grid) -> (r: w::Grid)
    ensures
        r == spec_encode_grid(grid),
{
    let kind = match grid {
        Grid::Rectilinear { x, y } => w::GridKind::Rectilinear(w::GridRectilinear { x: Some(x.0), y: Some(y.0) }),
        Grid::Curvilinear { x, y } => w::GridKind::Curvilinear(w::GridCurvilinear { x: Some(x.0), y: Some(y.0) }),
    };
    w::Grid { kind: Some(kind) }
}

/// The grid of a wire message, when it is present with its kind and both coordinate
/// arrays; a grid has no default.
pub open spec fn spec_decode_grid(wire: Option<w::Grid>) -> Option<Grid> {
    match wire {
        Some(w::Grid { kind: Some(w::GridKind::Rectilinear(g)) }) => if g.x is Some && g.y is Some {
            Some(Grid::Rectilinear { x: DataId(g.x->Some_0), y: DataId(g.y->Some_0) })
        } else {
            None
        },
        Some(w::Grid { kind: Some(w::GridKind::Curvilinear(g)) }) => if g.x is Some && g.y is Some {
            Some(Grid::Curvilinear { x: DataId(g.x->Some_0), y: DataId(g.y->Some_0) })
        } else {
            None
        },
        _ => None,
    }
}

/// The path of the first field missing from a wire grid at path `at`.
pub open spec fn missing_grid_field(wire: Option<w::Grid>, at: Seq<char>) -> Seq<char> {
    match wire {
        None => at,
        Some(w::Grid { kind: None }) => spec_join(at, "kind"@),
        Some(w::Grid { kind: Some(w::GridKind::Rectilinear(g)) }) => spec_join(
            spec_join(at, "rectilinear"@),
            if g.x is None { "x"@ } else { "y"@ },
        ),
        Some(w::Grid { kind: Some(w::GridKind::Curvilinear(g)) }) => spec_join(
            spec_join(at, "curvilinear"@),
            if g.x is None { "x"@ } else { "y"@ },
        ),
    }
}

/// Decodes the grid of a contour or surface, which has no default; `at` is the path of
/// the grid itself.
///
/// # Errors
///
/// Returns [`ProtobufError::MissingField`] for the first of the grid, its kind and its
/// coordinate arrays that is absent.
pub fn decode_grid(wire: Option<w::Grid>, at: &str) -> (r: Result<Grid, ProtobufError>)
    ensures
        spec_decode_grid(wire) matches Some(g) ==> r == Ok::<Grid, ProtobufError>(g),
        spec_decode_grid(wire) is None ==> (r matches Err(e) && is_missing(e, missing_grid_field(wire, at@))),
{
    let grid = match wire {
        Some(g) => g,
        None => {
            return Err(ProtobufError::MissingField { field: owned(at) });
        },
    };
    let kind = match required(grid.kind, at, "kind") {
        Ok(k) => k,
        Err(e) => {
            return Err(e);
        },
    };
    match kind {
        w::GridKind::Rectilinear(g) => {
            let at = join(at, "rectilinear");
            let x = match data_id(g.x, at.as_str(), "x") {
                Ok(x) => x,
                Err(e) => {
                    return Err(e);
                },
            };
            let y = match data_id(g.y, at.as_str(), "y") {
                Ok(y) => y,
                Err(e) => {
                    return Err(e);
                },
            };
            Ok(Grid::Rectilinear { x, y })
        },
        w::GridKind::Curvilinear(g) => {
            let at = join(at, "curvilinear");
            let x = match data_id(g.x, at.as_str(), "x") {
                Ok(x) => x,
                Err(e) => {
                    return Err(e);
                },
            };
            let y = match data_id(g.y, at.as_str(), "y") {
                Ok(y) => y,
                Err(e) => {
                    return Err(e);
                },
            };
            Ok(Grid::Curvilinear { x, y })
        },
    }
}

/// Decoding what encoding writes gives back the tile layout, the cell, the legend
/// and the grid that were encoded.
pub proof fn law_plain_round_trip(layout: TileLayout, cell: Cell, legend: Legend, grid: Grid)
    ensures
        spec_decode_tile_layout(spec_encode_tile_layout(layout)) == layout,
        spec_decode_cell(spec_encode_cell(cell)) == cell,
        LegendLocation::from_number(spec_encode_legend(legend).location) == Some(Some(legend.location)),
        spec_decode_grid(Some(spec_encode_grid(grid))) == Some(grid),
{
    legend.location.lemma_wire_round_trip();
}

/// Decoding the wire number of any variant of an enum gives the variant back.
pub proof fn law_enum_round_trip<E: WireEnum>(value: E)
    ensures
        E::from_number(value.wire_number()) == Some(Some(value)),
{
    value.lemma_wire_round_trip();
}

/// The path of the value within a variant of a value message at path `at`.
pub open spec fn value_path(at: Seq<char>, variant: Seq<char>) -> Seq<char> {
    spec_join(spec_join(at, variant), "value"@)
}

/// What decoding the enum value of a value message gives: its variant as a value, and
/// for the unspecified value, which has no default here, a missing field.
pub open spec fn enum_value_decodes<E>(found: Option<Option<E>>, wrap: spec_fn(E) -> PlainValue, number: i32, path: Seq<char>, r: Result<PlainValue, ProtobufError>) -> bool {
    match found {
        Some(Some(v)) => r == Ok::<PlainValue, ProtobufError>(wrap(v)),
        Some(None) => r matches Err(e) && is_missing(e, path),
        None => r matches Err(e) && is_unknown_value(e, path, number),
    }
}

/// What decoding a wire value at path `at` gives. A value has no enclosing node to give
/// it a context, so the message that a value holds must be present and its enum value
/// specified, while the fields within that message take their defaults as they do in a
/// figure.
pub open spec fn value_decodes(wire: w::Value, at: Seq<char>, r: Result<PlainValue, ProtobufError>) -> bool {
    match wire.kind {
        None => r matches Err(e) && is_missing(e, spec_join(at, "kind"@)),
        Some(kind) => match kind {
            w::ValueKind::Unset => r matches Ok(PlainValue::Unset),
            w::ValueKind::Bool(v) => match v {
                Some(b) => r matches Ok(PlainValue::Bool(x)) && x == b,
                None => r matches Err(e) && is_missing(e, value_path(at, "bool_value"@)),
            },
            w::ValueKind::Uint32(v) => match v {
                Some(n) => r matches Ok(PlainValue::UInt32(x)) && x == n,
                None => r matches Err(e) && is_missing(e, value_path(at, "uint32_value"@)),
            },
            w::ValueKind::String(v) => r matches Ok(PlainValue::String(x)) && x@ == v@,
            w::ValueKind::DataId(v) => match v {
                Some(n) => r matches Ok(PlainValue::DataId(x)) && x == DataId(n),
                None => r matches Err(e) && is_missing(e, value_path(at, "data_id_value"@)),
            },
            w::ValueKind::Text(v) => match v {
                Some(t) => match Interpreter::from_number(t.interpreter) {
                    Some(i) => r matches Ok(PlainValue::Text(x)) && x.content@ == t.content@
                        && x.interpreter == i.unwrap_or(Interpreter::Latex),
                    None => r matches Err(e) && is_unknown_value(
                        e,
                        spec_join(value_path(at, "text_value"@), "interpreter"@),
                        t.interpreter,
                    ),
                },
                None => r matches Err(e) && is_missing(e, value_path(at, "text_value"@)),
            },
            w::ValueKind::Interpreter(n) => enum_value_decodes(
                Interpreter::from_number(n),
                |v: Interpreter| PlainValue::Interpreter(v),
                n,
                value_path(at, "interpreter_value"@),
                r,
            ),
            w::ValueKind::FontSetId(n) => enum_value_decodes(
                FontSetId::from_number(n),
                |v: FontSetId| PlainValue::FontSetId(v),
                n,
                value_path(at, "font_set_id_value"@),
                r,
            ),
            w::ValueKind::TileLayout(v) => match v {
                Some(t) => r == Ok::<PlainValue, ProtobufError>(PlainValue::TileLayout(spec_decode_tile_layout(t))),
                None => r matches Err(e) && is_missing(e, value_path(at, "tile_layout_value"@)),
            },
            w::ValueKind::Links(v) => if all_links_decode(v@) {
                r matches Ok(PlainValue::Links(x)) && links_decoded(v@, x@)
            } else {
                r matches Err(e) && links_error(v@, spec_join(at, "links_value"@), e)
            },
            w::ValueKind::Cell(v) => match v {
                Some(c) => r == Ok::<PlainValue, ProtobufError>(PlainValue::Cell(spec_decode_cell(c))),
                None => r matches Err(e) && is_missing(e, value_path(at, "cell_value"@)),
            },
            w::ValueKind::Scale(n) => enum_value_decodes(
                Scale::from_number(n),
                |v: Scale| PlainValue::Scale(v),
                n,
                value_path(at, "scale_value"@),
                r,
            ),
            w::ValueKind::ColormapName(n) => enum_value_decodes(
                ColormapName::from_number(n),
                |v: ColormapName| PlainValue::ColormapName(v),
                n,
                value_path(at, "colormap_name_value"@),
                r,
            ),
            w::ValueKind::Legend(v) => match v {
                Some(l) => match LegendLocation::from_number(l.location) {
                    Some(location) => r == Ok::<PlainValue, ProtobufError>(PlainValue::Legend(Legend {
                        location: location.unwrap_or(LegendLocation::NorthEast),
                        boxed: l.boxed.unwrap_or(true),
                    })),
                    None => r matches Err(e) && is_unknown_value(
                        e,
                        spec_join(value_path(at, "legend_value"@), "location"@),
                        l.location,
                    ),
                },
                None => r matches Err(e) && is_missing(e, value_path(at, "legend_value"@)),
            },
            w::ValueKind::LegendLocation(n) => enum_value_decodes(
                LegendLocation::from_number(n),
                |v: LegendLocation| PlainValue::LegendLocation(v),
                n,
                value_path(at, "legend_location_value"@),
                r,
            ),
            w::ValueKind::DashStyle(n) => enum_value_decodes(
                DashStyle::from_number(n),
                |v: DashStyle| PlainValue::DashStyle(v),
                n,
                value_path(at, "dash_style_value"@),
                r,
            ),
            w::ValueKind::MarkerShape(n) => enum_value_decodes(
                MarkerShape::from_number(n),
                |v: MarkerShape| PlainValue::MarkerShape(v),
                n,
                value_path(at, "marker_shape_value"@),
                r,
            ),
            w::ValueKind::Grid(v) => match v {
                Some(g) => match spec_decode_grid(Some(g)) {
                    Some(grid) => r == Ok::<PlainValue, ProtobufError>(PlainValue::Grid(grid)),
                    None => r matches Err(e) && is_missing(e, missing_grid_field(Some(g), value_path(at, "grid_value"@))),
                },
                None => r matches Err(e) && is_missing(e, value_path(at, "grid_value"@)),
            },
        },
    }
}

/// Decodes the value of a set, whose kind holds no floating-point number.
///
/// # Errors
///
/// Returns [`ProtobufError::MissingField`] for an absent kind or an absent message that
/// a kind wraps, and the errors of the message within it.
pub fn decode_value(wire: w::Value, at: &str) -> (r: Result<PlainValue, ProtobufError>)
    ensures
        value_decodes(wire, at@, r),
{
    let kind = match required(wire.kind, at, "kind") {
        Ok(k) => k,
        Err(e) => {
            return Err(e);
        },
    };
    match kind {
        w::ValueKind::Unset => Ok(PlainValue::Unset),
        w::ValueKind::Bool(v) => {
            let path = join(at, "bool_value");
            match required(v, path.as_str(), "value") {
                Ok(b) => Ok(PlainValue::Bool(b)),
                Err(e) => Err(e),
            }
        },
        w::ValueKind::Uint32(v) => {
            let path = join(at, "uint32_value");
            match required(v, path.as_str(), "value") {
                Ok(n) => Ok(PlainValue::UInt32(n)),
                Err(e) => Err(e),
            }
        },
        w::ValueKind::String(v) => Ok(PlainValue::String(v)),
        w::ValueKind::DataId(v) => {
            let path = join(at, "data_id_value");
            match required(v, path.as_str(), "value") {
                Ok(n) => Ok(PlainValue::DataId(DataId(n))),
                Err(e) => Err(e),
            }
        },
        w::ValueKind::Text(v) => {
            let (text, within) = match value_message(v, at, "text_value") {
                Ok(m) => m,
                Err(e) => {
                    return Err(e);
                },
            };
            match decode_text(text, within.as_str()) {
                Ok(t) => Ok(PlainValue::Text(t)),
                Err(e) => Err(e),
            }
        },
        w::ValueKind::Interpreter(n) => {
            let path = join(at, "interpreter_value");
            match decode_enum::<Interpreter>(n, None, path.as_str(), "value") {
                Ok(v) => Ok(PlainValue::Interpreter(v)),
                Err(e) => Err(e),
            }
        },
        w::ValueKind::FontSetId(n) => {
            let path = join(at, "font_set_id_value");
            match decode_enum::<FontSetId>(n, None, path.as_str(), "value") {
                Ok(v) => Ok(PlainValue::FontSetId(v)),
                Err(e) => Err(e),
            }
        },
        w::ValueKind::TileLayout(v) => {
            let (layout, _) = match value_message(v, at, "tile_layout_value") {
                Ok(m) => m,
                Err(e) => {
                    return Err(e);
                },
            };
            Ok(PlainValue::TileLayout(decode_tile_layout(layout)))
        },
        w::ValueKind::Links(v) => {
            let path = join(at, "links_value");
            match decode_links(v, path.as_str()) {
                Ok(links) => Ok(PlainValue::Links(links)),
                Err(e) => Err(e),
            }
        },
        w::ValueKind::Cell(v) => {
            let (cell, _) = match value_message(v, at, "cell_value") {
                Ok(m) => m,
                Err(e) => {
                    return Err(e);
                },
            };
            Ok(PlainValue::Cell(decode_cell(cell)))
        },
        w::ValueKind::Scale(n) => {
            let path = join(at, "scale_value");
            match decode_enum::<Scale>(n, None, path.as_str(), "value") {
                Ok(v) => Ok(PlainValue::Scale(v)),
                Err(e) => Err(e),
            }
        },
        w::ValueKind::ColormapName(n) => {
            let path = join(at, "colormap_name_value");
            match decode_enum::<ColormapName>(n, None, path.as_str(), "value") {
                Ok(v) => Ok(PlainValue::ColormapName(v)),
                Err(e) => Err(e),
            }
        },
        w::ValueKind::Legend(v) => {
            let (legend, within) = match value_message(v, at, "legend_value") {
                Ok(m) => m,
                Err(e) => {
                    return Err(e);
                },
            };
            match decode_legend(legend, within.as_str()) {
                Ok(l) => Ok(PlainValue::Legend(l)),
                Err(e) => Err(e),
            }
        },
        w::ValueKind::LegendLocation(n) => {
            let path = join(at, "legend_location_value");
            match decode_enum::<LegendLocation>(n, None, path.as_str(), "value") {
                Ok(v) => Ok(PlainValue::LegendLocation(v)),
                Err(e) => Err(e),
            }
        },
        w::ValueKind::DashStyle(n) => {
            let path = join(at, "dash_style_value");
            match decode_enum::<DashStyle>(n, None, path.as_str(), "value") {
                Ok(v) => Ok(PlainValue::DashStyle(v)),
                Err(e) => Err(e),
            }
        },
        w::ValueKind::MarkerShape(n) => {
            let path = join(at, "marker_shape_value");
            match decode_enum::<MarkerShape>(n, None, path.as_str(), "value") {
                Ok(v) => Ok(PlainValue::MarkerShape(v)),
                Err(e) => Err(e),
            }
        },
        w::ValueKind::Grid(v) => {
            let (grid, within) = match value_message(v, at, "grid_value") {
                Ok(m) => m,
                Err(e) => {
                    return Err(e);
                },
            };
            match decode_grid(Some(grid), within.as_str()) {
                Ok(g) => Ok(PlainValue::Grid(g)),
                Err(e) => Err(e),
            }
        },
    }
}

/// Whether a wire value is what a value encodes to.
pub open spec fn value_encodes(value: PlainValue, wire: w::Value) -> bool {
    wire.kind matches Some(k) && match value {
        PlainValue::Unset => k is Unset,
        PlainValue::Bool(b) => k matches w::ValueKind::Bool(x) && x == Some(b),
        PlainValue::UInt32(n) => k matches w::ValueKind::Uint32(x) && x == Some(n),
        PlainValue::String(t) => k matches w::ValueKind::String(x) && x@ == t@,
        PlainValue::DataId(d) => k matches w::ValueKind::DataId(x) && x == Some(d.0),
        PlainValue::Text(t) => k matches w::ValueKind::Text(Some(x)) && x.content@ == t.content@
            && x.interpreter == t.interpreter.wire_number(),
        PlainValue::Interpreter(i) => k matches w::ValueKind::Interpreter(x) && x == i.wire_number(),
        PlainValue::FontSetId(f) => k matches w::ValueKind::FontSetId(x) && x == f.wire_number(),
        PlainValue::TileLayout(t) => k matches w::ValueKind::TileLayout(x) && x == Some(spec_encode_tile_layout(t)),
        PlainValue::Links(l) => k matches w::ValueKind::Links(x) && links_encoded(l@, x@),
        PlainValue::Cell(c) => k matches w::ValueKind::Cell(x) && x == Some(spec_encode_cell(c)),
        PlainValue::Scale(v) => k matches w::ValueKind::Scale(x) && x == v.wire_number(),
        PlainValue::ColormapName(v) => k matches w::ValueKind::ColormapName(x) && x == v.wire_number(),
        PlainValue::Legend(l) => k matches w::ValueKind::Legend(x) && x == Some(spec_encode_legend(l)),
        PlainValue::LegendLocation(v) => k matches w::ValueKind::LegendLocation(x) && x == v.wire_number(),
        PlainValue::DashStyle(v) => k matches w::ValueKind::DashStyle(x) && x == v.wire_number(),
        PlainValue::MarkerShape(v) => k matches w::ValueKind::MarkerShape(x) && x == v.wire_number(),
        PlainValue::Grid(g) => k matches w::ValueKind::Grid(x) && x == Some(spec_encode_grid(g)),
    }
}

/// Returns the wire message of the value of a set.
pub fn encode_value(value: &PlainValue) -> (r: w::Value)
    ensures
        value_encodes(*value, r),
{
    let kind = match value {
        PlainValue::Unset => w::ValueKind::Unset,
        PlainValue::Bool(b) => w::ValueKind::Bool(Some(*b)),
        PlainValue::UInt32(n) => w::ValueKind::Uint32(Some(*n)),
        PlainValue::String(t) => w::ValueKind::String(owned(t.as_str())),
        PlainValue::DataId(d) => w::ValueKind::DataId(Some(d.0)),
        PlainValue::Text(t) => w::ValueKind::Text(Some(encode_text(t))),
        PlainValue::Interpreter(i) => w::ValueKind::Interpreter(i.to_wire()),
        PlainValue::FontSetId(f) => w::ValueKind::FontSetId(f.to_wire()),
        PlainValue::TileLayout(t) => w::ValueKind::TileLayout(Some(encode_tile_layout(*t))),
        PlainValue::Links(l) => w::ValueKind::Links(encode_links(l.as_slice())),
        PlainValue::Cell(c) => w::ValueKind::Cell(Some(encode_cell(*c))),
        PlainValue::Scale(v) => w::ValueKind::Scale(v.to_wire()),
        PlainValue::ColormapName(v) => w::ValueKind::ColormapName(v.to_wire()),
        PlainValue::Legend(l) => w::ValueKind::Legend(Some(encode_legend(*l))),
        PlainValue::LegendLocation(v) => w::ValueKind::LegendLocation(v.to_wire()),
        PlainValue::DashStyle(v) => w::ValueKind::DashStyle(v.to_wire()),
        PlainValue::MarkerShape(v) => w::ValueKind::MarkerShape(v.to_wire()),
        PlainValue::Grid(g) => w::ValueKind::Grid(Some(encode_grid(*g))),
    };
    w::Value { kind: Some(kind) }
}

/// Whether two values are the same, comparing strings, texts and links by their
/// contents.
pub open spec fn same_value(a: PlainValue, b: PlainValue) -> bool {
    match (a, b) {
        (PlainValue::String(x), PlainValue::String(y)) => x@ == y@,
        (PlainValue::Text(x), PlainValue::Text(y)) => x.content@ == y.content@ && x.interpreter == y.interpreter,
        (PlainValue::Links(x), PlainValue::Links(y)) => link_views(x@) == link_views(y@),
        _ => a == b,
    }
}

/// The numbers of the axes of a link determine its axes.
proof fn lemma_id_numbers_injective(a: Seq<NodeId>, b: Seq<NodeId>)
    requires
        id_numbers(a) == id_numbers(b),
    ensures
        a == b,
{
    assert(id_numbers(a).len() == a.len() && id_numbers(b).len() == b.len());
    assert(a.len() == b.len());
    assert forall|i: int| 0 <= i < a.len() implies a[i] == b[i] by {
        assert(id_numbers(a)[i] == a[i].0);
        assert(id_numbers(b)[i] == b[i].0);
        assert(id_numbers(a)[i] == id_numbers(b)[i]);
    }
    assert(a =~= b);
}

/// Decoding what encoding writes gives back the value that was encoded, at any path.
pub proof fn law_value_round_trip(value: PlainValue, wire: w::Value, at: Seq<char>, r: Result<PlainValue, ProtobufError>)
    requires
        value_encodes(value, wire),
        value_decodes(wire, at, r),
    ensures
        r matches Ok(x) && same_value(x, value),
{
    match value {
        PlainValue::Text(t) => t.interpreter.lemma_wire_round_trip(),
        PlainValue::Interpreter(v) => v.lemma_wire_round_trip(),
        PlainValue::FontSetId(v) => v.lemma_wire_round_trip(),
        PlainValue::Scale(v) => v.lemma_wire_round_trip(),
        PlainValue::ColormapName(v) => v.lemma_wire_round_trip(),
        PlainValue::LegendLocation(v) => v.lemma_wire_round_trip(),
        PlainValue::DashStyle(v) => v.lemma_wire_round_trip(),
        PlainValue::MarkerShape(v) => v.lemma_wire_round_trip(),
        PlainValue::Legend(l) => l.location.lemma_wire_round_trip(),
        PlainValue::Links(l) => {
            let k = wire.kind->Some_0;
            let wl = k->Links_0;
            assert forall|i: int| 0 <= i < wl@.len() implies link_decodes(#[trigger] wl@[i]) by {
                l@[i].dimension.lemma_wire_round_trip();
            }
            let x = r->Ok_0->Links_0;
            assert forall|i: int| 0 <= i < l@.len() implies #[trigger] link_views(x@)[i] == link_views(l@)[i] by {
                l@[i].dimension.lemma_wire_round_trip();
                assert(wl@[i].axes@ == id_numbers(l@[i].axes@));
                lemma_id_numbers_injective(x@[i].axes@, l@[i].axes@);
            }
            assert(link_views(x@) =~= link_views(l@));
        },
        _ => {},
    }
}


/// Whether a path error is the one that parsing the text of a path gives.
pub open spec fn path_refusal(text: Seq<char>, e: PathError) -> bool {
    if text.len() == 0 {
        e == PathError::Empty
    } else {
        refused_with(split_dots(text), e)
    }
}

/// What decoding an edit gives, with error paths below `at`: the edit, or the error of
/// the first field that has no default and is absent, of a path that is not a property
/// path, or of the value that is set.
pub open spec fn edit_decodes(wire: w::Edit, at: Seq<char>, r: Result<PlainEdit, ProtobufError>) -> bool {
    match wire.kind {
        None => r matches Err(e) && is_missing(e, spec_join(at, "kind"@)),
        Some(w::EditKind::SetProperty(set)) => {
            let here = spec_join(at, "set_property"@);
            match set.node {
                None => r matches Err(e) && is_missing(e, spec_join(here, "node"@)),
                Some(n) => if !(set.path@.len() > 0 && valid_segments(split_dots(set.path@))) {
                    r matches Err(ProtobufError::InvalidValue { field, reason }) && field@ == spec_join(here, "path"@)
                        && exists|pe: PathError| path_refusal(set.path@, pe) && reason@ == path_error_text(pe)
                } else {
                    match set.value {
                        None => r matches Err(e) && is_missing(e, spec_join(here, "value"@)),
                        Some(v) => match r {
                            Ok(PlainEdit::SetProperty { node, path, value }) => node == NodeId(n) && path@ == split_dots(set.path@)
                                && value_decodes(v, spec_join(here, "value"@), Ok(value)),
                            Ok(_) => false,
                            Err(e) => value_decodes(v, spec_join(here, "value"@), Err(e)),
                        },
                    }
                }
            }
        },
        Some(w::EditKind::Remove(remove)) => match remove.node {
            None => r matches Err(e) && is_missing(e, spec_join(spec_join(at, "remove_node"@), "node"@)),
            Some(n) => r == Ok::<PlainEdit, ProtobufError>(PlainEdit::Remove { node: NodeId(n) }),
        },
        Some(w::EditKind::Move(m)) => {
            let here = spec_join(at, "move_node"@);
            match (m.node, m.parent) {
                (None, _) => r matches Err(e) && is_missing(e, spec_join(here, "node"@)),
                (Some(_), None) => r matches Err(e) && is_missing(e, spec_join(here, "parent"@)),
                (Some(n), Some(p)) => r == Ok::<PlainEdit, ProtobufError>(
                    PlainEdit::Move { node: NodeId(n), parent: NodeId(p), index: m.index },
                ),
            }
        },
        Some(w::EditKind::RemoveData(remove)) => match remove.id {
            None => r matches Err(e) && is_missing(e, spec_join(spec_join(at, "remove_data"@), "id"@)),
            Some(id) => r == Ok::<PlainEdit, ProtobufError>(PlainEdit::RemoveData { id: DataId(id) }),
        },
    }
}

/// Decodes an edit that holds no floating-point number, with error paths below `at`,
/// such as `edits[0].set_property.value.kind`.
///
/// # Errors
///
/// Returns [`ProtobufError::MissingField`] for an absent kind, node, parent, data
/// identifier or value; [`ProtobufError::InvalidValue`] at `set_property.path` for a
/// path that is not a property path, with the reason the path is refused; and the
/// errors of the value that is set.
pub fn decode_edit(wire: w::Edit, at: &str) -> (r: Result<PlainEdit, ProtobufError>)
    ensures
        edit_decodes(wire, at@, r),
{
    let kind = match required(wire.kind, at, "kind") {
        Ok(k) => k,
        Err(e) => {
            return Err(e);
        },
    };
    match kind {
        w::EditKind::SetProperty(set) => {
            let here = join(at, "set_property");
            let node = match required(set.node, here.as_str(), "node") {
                Ok(n) => n,
                Err(e) => {
                    return Err(e);
                },
            };
            let path = match PropertyPath::from_str(set.path.as_str()) {
                Ok(p) => p,
                Err(reason) => {
                    return Err(ProtobufError::InvalidValue { field: join(here.as_str(), "path"), reason: reason.to_string() });
                },
            };
            let value = match required(set.value, here.as_str(), "value") {
                Ok(v) => v,
                Err(e) => {
                    return Err(e);
                },
            };
            let at_value = join(here.as_str(), "value");
            match decode_value(value, at_value.as_str()) {
                Ok(v) => Ok(PlainEdit::SetProperty { node: NodeId(node), path, value: v }),
                Err(e) => Err(e),
            }
        },
        w::EditKind::Remove(remove) => {
            let here = join(at, "remove_node");
            match required(remove.node, here.as_str(), "node") {
                Ok(n) => Ok(PlainEdit::Remove { node: NodeId(n) }),
                Err(e) => Err(e),
            }
        },
        w::EditKind::Move(m) => {
            let here = join(at, "move_node");
            let node = match required(m.node, here.as_str(), "node") {
                Ok(n) => n,
                Err(e) => {
                    return Err(e);
                },
            };
            match required(m.parent, here.as_str(), "parent") {
                Ok(p) => Ok(PlainEdit::Move { node: NodeId(node), parent: NodeId(p), index: m.index }),
                Err(e) => Err(e),
            }
        },
        w::EditKind::RemoveData(remove) => {
            let here = join(at, "remove_data");
            match required(remove.id, here.as_str(), "id") {
                Ok(id) => Ok(PlainEdit::RemoveData { id: DataId(id) }),
                Err(e) => Err(e),
            }
        },
    }
}

} // verus!
