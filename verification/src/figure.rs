//! The plain properties of a figure: its schema version, its identifier allocator, its
//! font set, its tile layout and its provenance.

use vstd::prelude::*;

use crate::edit::path::{split_dots, split_on_dots, string_seqs};
use crate::text::owned;

verus! {

/// The version of the figure schema implemented by this build.
///
/// Files are compatible when their major and minor components equal this version's;
/// the patch component may differ.
pub const SCHEMA_VERSION: &'static str = "0.2.0";

/// The version of this library, recorded in the provenance of the figures it writes.
pub const IRONLAB_VERSION: &'static str = "0.1.0";

/// The allocation state for node identifiers of a figure.
///
/// It remembers identifiers already handed out but not yet inserted into the figure,
/// so that successive allocations are distinct. It is not serialised, and it never
/// affects equality of figures.
#[derive(Debug, Clone, Copy, Default)]
pub struct NodeIdAllocator {
    /// The smallest identifier that has not been handed out by this allocator.
    pub next: u64,
}

impl PartialEq for NodeIdAllocator {
    /// Every two allocators are equal, so that the allocation state never makes two
    /// figures differ.
    fn eq(&self, other: &Self) -> (r: bool) {
        true
    }
}

impl vstd::std_specs::cmp::PartialEqSpecImpl for NodeIdAllocator {
    open spec fn obeys_eq_spec() -> bool {
        true
    }

    open spec fn eq_spec(&self, other: &Self) -> bool {
        true
    }
}

/// The identifier of a bundled font set.
#[derive(Debug, Clone, Copy, Default, PartialEq, Eq, Hash, Structural)]
pub enum FontSetId {
    /// STIX Two Text for text and STIX Two Math for mathematics.
    #[default]
    StixTwo,
}

/// The grid of cells in which the axes of a figure are placed.
#[derive(Debug, Clone, Copy, PartialEq, Eq, Hash, Structural)]
pub struct TileLayout {
    /// The number of rows; at least one.
    pub rows: u32,
    /// The number of columns; at least one.
    pub cols: u32,
}

impl Default for TileLayout {
    /// A single cell.
    fn default() -> (r: Self)
        ensures
            r == (TileLayout { rows: 1, cols: 1 }),
    {
        TileLayout { rows: 1, cols: 1 }
    }
}

/// A record of the software that produced a figure.
#[derive(Debug, Clone, PartialEq, Eq)]
pub struct Provenance {
    /// The version of IronLAB that wrote the figure.
    pub ironlab_version: String,
    /// The name and version of the mathematics typesetter.
    pub typesetter: String,
    /// The names of the fonts used for text.
    pub fonts: Vec<String>,
}

impl Default for Provenance {
    /// This version of IronLAB, its typesetter and the STIX Two fonts.
    fn default() -> (r: Self)
        ensures
            r.ironlab_version@ == IRONLAB_VERSION@,
            r.typesetter@ == "latex-rust 1.0.2"@,
            string_seqs(r.fonts@) == seq!["STIX Two Text"@, "STIX Two Math"@],
    {
        let mut fonts: Vec<String> = Vec::new();
        fonts.push(owned("STIX Two Text"));
        fonts.push(owned("STIX Two Math"));
        assert(string_seqs(fonts@) =~= seq!["STIX Two Text"@, "STIX Two Math"@]);
        Provenance { ironlab_version: owned(IRONLAB_VERSION), typesetter: owned("latex-rust 1.0.2"), fonts }
    }
}

/// Whether a text is a non-empty run of decimal digits.
pub open spec fn is_digits(s: Seq<char>) -> bool {
    s.len() > 0 && forall|i: int| 0 <= i < s.len() ==> '0' <= #[trigger] s[i] <= '9'
}

/// The number that a run of decimal digits writes.
pub open spec fn digits_value(s: Seq<char>) -> nat
    decreases s.len(),
{
    if s.len() == 0 {
        0
    } else {
        digits_value(s.drop_last()) * 10 + (s.last() as nat - '0' as nat) as nat
    }
}

/// The component of a version that a text writes: an unsigned decimal integer that
/// fits in 64 bits.
pub open spec fn version_part(s: Seq<char>) -> Option<u64> {
    if is_digits(s) && digits_value(s) <= u64::MAX {
        Some(digits_value(s) as u64)
    } else {
        None
    }
}

/// The components of a `major.minor.patch` version: exactly three parts between dots,
/// each an unsigned decimal integer.
pub open spec fn spec_parse_version(v: Seq<char>) -> Option<Seq<u64>> {
    let parts = split_dots(v);
    if parts.len() == 3 && version_part(parts[0]) is Some && version_part(parts[1]) is Some
        && version_part(parts[2]) is Some {
        Some(seq![version_part(parts[0])->Some_0, version_part(parts[1])->Some_0, version_part(parts[2])->Some_0])
    } else {
        None
    }
}

proof fn lemma_digits_value_grows(s: Seq<char>, n: int)
    requires
        0 <= n <= s.len(),
        forall|i: int| 0 <= i < s.len() ==> '0' <= #[trigger] s[i] <= '9',
    ensures
        digits_value(s.take(n)) <= digits_value(s),
    decreases s.len() - n,
{
    if n < s.len() {
        assert(s.take(n + 1).drop_last() =~= s.take(n));
        lemma_digits_value_grows(s, n + 1);
    } else {
        assert(s.take(n) =~= s);
    }
}

/// Returns the unsigned decimal integer that a text writes, or `None` when it is empty,
/// holds anything but decimal digits, or exceeds the largest `u64`.
fn parse_decimal(s: &str) -> (r: Option<u64>)
    ensures
        r == version_part(s@),
{
    let len = s.unicode_len();
    if len == 0 {
        return None;
    }
    let mut value: u64 = 0;
    let mut i: usize = 0;
    while i < len
        invariant
            i <= len,
            len == s@.len(),
            forall|k: int| 0 <= k < i ==> '0' <= #[trigger] s@[k] <= '9',
            value as nat == digits_value(s@.take(i as int)),
        decreases len - i,
    {
        let c = s.get_char(i);
        if !('0' <= c && c <= '9') {
            return None;
        }
        assert(s@.take(i + 1).drop_last() =~= s@.take(i as int));
        let digit = (c as u32 - '0' as u32) as u64;
        let next = match value.checked_mul(10) {
            Some(v) => v.checked_add(digit),
            None => None,
        };
        match next {
            Some(v) => value = v,
            None => {
                proof {
                    if forall|k: int| 0 <= k < s@.len() ==> '0' <= #[trigger] s@[k] <= '9' {
                        lemma_digits_value_grows(s@, i + 1);
                    }
                }
                return None;
            },
        }
        i = i + 1;
    }
    assert(s@.take(i as int) =~= s@);
    Some(value)
}

/// Parses a `major.minor.patch` version whose components are unsigned decimal
/// integers.
pub fn parse_version(version: &str) -> (r: Option<[u64; 3]>)
    ensures
        r is Some <==> spec_parse_version(version@) is Some,
        r matches Some(a) ==> a@ == spec_parse_version(version@)->Some_0,
{
    let parts = split_on_dots(version);
    if parts.len() != 3 {
        return None;
    }
    assert(string_seqs(parts@)[0] == parts@[0]@);
    assert(string_seqs(parts@)[1] == parts@[1]@);
    assert(string_seqs(parts@)[2] == parts@[2]@);
    let major = match parse_decimal(parts[0].as_str()) {
        Some(v) => v,
        None => {
            return None;
        },
    };
    let minor = match parse_decimal(parts[1].as_str()) {
        Some(v) => v,
        None => {
            return None;
        },
    };
    let patch = match parse_decimal(parts[2].as_str()) {
        Some(v) => v,
        None => {
            return None;
        },
    };
    let r = [major, minor, patch];
    assert(r@ =~= spec_parse_version(version@)->Some_0);
    Some(r)
}

/// The version that [`SCHEMA_VERSION`] writes.
proof fn lemma_schema_version()
    ensures
        spec_parse_version(SCHEMA_VERSION@) == Some(seq![0u64, 2u64, 0u64]),
{
    reveal_strlit("0.2.0");
    let v = SCHEMA_VERSION@;
    assert(v == seq!['0', '.', '2', '.', '0']);
    assert(v.drop_last() =~= seq!['0', '.', '2', '.']);
    assert(v.drop_last().drop_last() =~= seq!['0', '.', '2']);
    assert(v.drop_last().drop_last().drop_last() =~= seq!['0', '.']);
    assert(v.drop_last().drop_last().drop_last().drop_last() =~= seq!['0']);
    assert(seq!['0'].drop_last() =~= Seq::<char>::empty());
    assert(split_dots(Seq::<char>::empty()) =~= seq![seq![]]);
    assert(Seq::<char>::empty().push('0') =~= seq!['0']);
    assert(split_dots(seq!['0']) =~= seq![seq!['0']]);
    assert(split_dots(seq!['0', '.']) =~= seq![seq!['0'], seq![]]);
    assert(split_dots(seq!['0', '.', '2']) =~= seq![seq!['0'], seq!['2']]);
    assert(split_dots(seq!['0', '.', '2', '.']) =~= seq![seq!['0'], seq!['2'], seq![]]);
    assert(split_dots(v) =~= seq![seq!['0'], seq!['2'], seq!['0']]);
    assert(seq!['0'].drop_last() =~= Seq::<char>::empty());
    assert(seq!['2'].drop_last() =~= Seq::<char>::empty());
    assert(digits_value(Seq::<char>::empty()) == 0);
    assert(seq!['0'].last() == '0');
    assert(digits_value(seq!['0']) == 0);
    assert(digits_value(seq!['2']) == 2);
    assert(spec_parse_version(v) =~= Some(seq![0u64, 2u64, 0u64]));
}

/// Returns whether a declared schema version is a `major.minor.patch` version with the
/// same major and minor components as [`SCHEMA_VERSION`]: major 0 and minor 2.
pub fn is_compatible(version: &str) -> (r: bool)
    ensures
        r == (spec_parse_version(version@) matches Some(found) && found[0] == 0 && found[1] == 2),
{
    proof {
        lemma_schema_version();
    }
    match (parse_version(version), parse_version(SCHEMA_VERSION)) {
        (Some(found), Some(supported)) => {
            assert(supported@ == seq![0u64, 2u64, 0u64]);
            found[0] == supported[0] && found[1] == supported[1]
        },
        _ => false,
    }
}

} // verus!
