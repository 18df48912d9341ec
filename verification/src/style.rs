//! Line styles and marker shapes, and the hexadecimal digits of colours.

use vstd::prelude::*;

use crate::textfmt::push_char;

verus! {

/// The dash pattern of a stroked line.
#[derive(Debug, Clone, Copy, Default, PartialEq, Eq, Hash, Structural)]
pub enum DashStyle {
    /// A continuous line.
    #[default]
    Solid,
    /// A line of dashes.
    Dashed,
    /// A line of dots.
    Dotted,
    /// A line of alternating dashes and dots.
    DashDot,
    /// No line is drawn.
    NoLine,
}

/// The shape of a marker.
#[derive(Debug, Clone, Copy, Default, PartialEq, Eq, Hash, Structural)]
pub enum MarkerShape {
    /// No marker is drawn.
    #[default]
    NoMarker,
    /// A circle.
    Circle,
    /// An axis-aligned square.
    Square,
    /// A square rotated by 45 degrees.
    Diamond,
    /// A triangle pointing upwards.
    TriangleUp,
    /// A triangle pointing downwards.
    TriangleDown,
    /// A plus sign.
    Plus,
    /// A diagonal cross.
    Cross,
    /// A small filled dot.
    Point,
}

/// Whether a byte is an ASCII hexadecimal digit, in upper or lower case.
pub open spec fn is_hex_digit(b: u8) -> bool {
    (0x30 <= b <= 0x39) || (0x61 <= b <= 0x66) || (0x41 <= b <= 0x46)
}

/// The value of an ASCII hexadecimal digit.
pub open spec fn spec_hex_value(b: u8) -> u8 {
    if 0x30 <= b <= 0x39 {
        (b - 0x30) as u8
    } else if 0x61 <= b <= 0x66 {
        (b - 0x61 + 10) as u8
    } else {
        (b - 0x41 + 10) as u8
    }
}

/// Returns the value of an ASCII hexadecimal digit.
pub fn hex_value(digit: u8) -> (r: u8)
    requires
        is_hex_digit(digit),
    ensures
        r == spec_hex_value(digit),
        r < 16,
{
    if 0x30 <= digit && digit <= 0x39 {
        digit - 0x30
    } else if 0x61 <= digit && digit <= 0x66 {
        digit - 0x61 + 10
    } else {
        digit - 0x41 + 10
    }
}

/// The byte written by two hexadecimal digits, the first the more significant.
pub open spec fn hex_byte(high: u8, low: u8) -> u8 {
    (spec_hex_value(high) * 16 + spec_hex_value(low)) as u8
}

/// Whether a text is `#` followed by six or eight hexadecimal digits.
pub open spec fn is_hex_color(s: Seq<char>) -> bool {
    &&& (s.len() == 7 || s.len() == 9)
    &&& s[0] == '#'
    &&& forall|i: int| 1 <= i < s.len() ==> (#[trigger] s[i]) as u32 <= 0x7f && is_hex_digit(s[i] as u8)
}

/// The bytes of a colour written `#rrggbb` or `#rrggbbaa`: red, green, blue and alpha,
/// where an opaque colour written with six digits has the alpha byte 255.
pub open spec fn spec_hex_bytes(s: Seq<char>) -> Seq<u8> {
    let a = if s.len() == 9 { hex_byte(s[7] as u8, s[8] as u8) } else { 255u8 };
    seq![hex_byte(s[1] as u8, s[2] as u8), hex_byte(s[3] as u8, s[4] as u8), hex_byte(s[5] as u8, s[6] as u8), a]
}

/// Returns the red, green, blue and alpha bytes of a colour written `#rrggbb` or
/// `#rrggbbaa` with upper- or lower-case digits, or `None` when the text has any other
/// form. A colour written with six digits is opaque: its alpha byte is 255.
///
/// Each byte `n` stands for the component `n / 255` of the colour.
pub fn hex_bytes(hex: &str) -> (r: Option<Vec<u8>>)
    ensures
        r is Some <==> is_hex_color(hex@),
        r matches Some(bytes) ==> bytes@ == spec_hex_bytes(hex@),
{
    let len = hex.unicode_len();
    if len != 7 && len != 9 {
        return None;
    }
    if hex.get_char(0) != '#' {
        return None;
    }
    let mut digits: Vec<u8> = Vec::new();
    let mut i: usize = 1;
    while i < len
        invariant
            1 <= i <= len,
            len == hex@.len(),
            len == 7 || len == 9,
            hex@[0] == '#',
            digits@.len() == i - 1,
            forall|k: int| 1 <= k < i ==> (#[trigger] hex@[k]) as u32 <= 0x7f && is_hex_digit(hex@[k] as u8) && digits@[k - 1] == hex@[k] as u8,
        decreases len - i,
    {
        let c = hex.get_char(i);
        if (c as u32) > 0x7f {
            return None;
        }
        let b = c as u8;
        if !((0x30 <= b && b <= 0x39) || (0x61 <= b && b <= 0x66) || (0x41 <= b && b <= 0x46)) {
            assert(!is_hex_digit(hex@[i as int] as u8));
            return None;
        }
        digits.push(b);
        i = i + 1;
    }
    assert forall|j: int| 0 <= j < digits@.len() implies is_hex_digit(#[trigger] digits@[j]) && digits@[j] == hex@[j + 1] as u8 by {
        assert(hex@[j + 1] as u32 <= 0x7f);
    }
    let mut bytes: Vec<u8> = Vec::new();
    let mut k: usize = 0;
    while k + 1 < digits.len()
        invariant
            digits@.len() == len - 1,
            len == 7 || len == 9,
            k % 2 == 0,
            k <= digits@.len(),
            bytes@.len() == k / 2,
            forall|j: int| 0 <= j < digits@.len() ==> is_hex_digit(#[trigger] digits@[j]),
            forall|j: int| 0 <= j < bytes@.len() ==> #[trigger] bytes@[j] == hex_byte(digits@[2 * j], digits@[2 * j + 1]),
        decreases digits.len() - k,
    {
        assert(is_hex_digit(digits@[k as int]) && is_hex_digit(digits@[k + 1]));
        let high = hex_value(digits[k]);
        let low = hex_value(digits[k + 1]);
        bytes.push(high * 16 + low);
        k = k + 2;
    }
    if len == 7 {
        bytes.push(255);
    }
    proof {
        assert(digits@[0] == hex@[1] as u8 && digits@[1] == hex@[2] as u8);
        assert(digits@[2] == hex@[3] as u8 && digits@[3] == hex@[4] as u8);
        assert(digits@[4] == hex@[5] as u8 && digits@[5] == hex@[6] as u8);
        assert(bytes@[0] == hex_byte(digits@[0], digits@[1]));
        assert(bytes@[1] == hex_byte(digits@[2], digits@[3]));
        assert(bytes@[2] == hex_byte(digits@[4], digits@[5]));
        if len == 9 {
            assert(digits@[6] == hex@[7] as u8 && digits@[7] == hex@[8] as u8);
            assert(bytes@[3] == hex_byte(digits@[6], digits@[7]));
        }
        assert(bytes@.len() == 4);
        assert(bytes@[0] == hex_byte(hex@[1] as u8, hex@[2] as u8));
        assert(bytes@[1] == hex_byte(hex@[3] as u8, hex@[4] as u8));
        assert(bytes@[2] == hex_byte(hex@[5] as u8, hex@[6] as u8));
        assert(bytes@ =~= spec_hex_bytes(hex@));
    }
    Some(bytes)
}

/// The lower-case hexadecimal digit of a number below 16.
pub open spec fn hex_digit(n: u8) -> char {
    if n < 10 {
        ((0x30 + n) as u8) as char
    } else {
        ((0x61 + n - 10) as u8) as char
    }
}

/// A byte written as two lower-case hexadecimal digits, the more significant first.
pub open spec fn hex_pair(b: u8) -> Seq<char> {
    seq![hex_digit(b / 16), hex_digit(b % 16)]
}

/// A colour written from its red, green, blue and alpha bytes: `#rrggbb` when it is
/// opaque, and `#rrggbbaa` otherwise, in lower-case digits.
pub open spec fn spec_hex_text(bytes: Seq<u8>) -> Seq<char> {
    let rgb = seq!['#'] + hex_pair(bytes[0]) + hex_pair(bytes[1]) + hex_pair(bytes[2]);
    if bytes[3] == 255 {
        rgb
    } else {
        rgb + hex_pair(bytes[3])
    }
}

/// Returns the lower-case hexadecimal digit of a number below 16.
fn hex_digit_exec(n: u8) -> (c: char)
    requires
        n < 16,
    ensures
        c == hex_digit(n),
{
    let b: u8 = if n < 10 { 0x30 + n } else { 0x61 + n - 10 };
    b as char
}

/// Appends a byte as two lower-case hexadecimal digits.
fn push_hex_pair(out: &mut String, b: u8)
    ensures
        final(out)@ == old(out)@ + hex_pair(b),
{
    push_char(out, hex_digit_exec(b / 16));
    push_char(out, hex_digit_exec(b % 16));
    assert(final(out)@ =~= old(out)@ + hex_pair(b));
}

/// Returns a colour written from its red, green, blue and alpha bytes: lower-case
/// `#rrggbb` when it is opaque, or `#rrggbbaa` otherwise, which is how a colour is
/// formatted once each component is rounded to the nearest of 256 levels.
pub fn hex_text(red: u8, green: u8, blue: u8, alpha: u8) -> (r: String)
    ensures
        r@ == spec_hex_text(seq![red, green, blue, alpha]),
{
    let mut out = String::new();
    push_char(&mut out, '#');
    push_hex_pair(&mut out, red);
    push_hex_pair(&mut out, green);
    push_hex_pair(&mut out, blue);
    if alpha != 255 {
        push_hex_pair(&mut out, alpha);
    }
    assert(out@ =~= spec_hex_text(seq![red, green, blue, alpha]));
    out
}

/// A digit written by [`hex_digit`] is read back as the number it writes.
proof fn lemma_hex_digit(n: u8)
    requires
        n < 16,
    ensures
        hex_digit(n) as u32 <= 0x7f,
        is_hex_digit(hex_digit(n) as u8),
        spec_hex_value(hex_digit(n) as u8) == n,
{
}

/// Two digits written by [`hex_pair`] are read back as the byte they write.
proof fn lemma_hex_pair(b: u8)
    ensures
        hex_byte(hex_pair(b)[0] as u8, hex_pair(b)[1] as u8) == b,
        hex_pair(b)[0] as u32 <= 0x7f && is_hex_digit(hex_pair(b)[0] as u8),
        hex_pair(b)[1] as u32 <= 0x7f && is_hex_digit(hex_pair(b)[1] as u8),
{
    lemma_hex_digit(b / 16);
    lemma_hex_digit(b % 16);
}

/// Writing the bytes of a colour and reading them back gives the same bytes: a colour
/// written `#rrggbb` is read back opaque, and one written `#rrggbbaa` with its alpha.
pub proof fn law_hex_round_trip(red: u8, green: u8, blue: u8, alpha: u8)
    ensures
        is_hex_color(spec_hex_text(seq![red, green, blue, alpha])),
        spec_hex_bytes(spec_hex_text(seq![red, green, blue, alpha])) == seq![red, green, blue, alpha],
{
    let t = spec_hex_text(seq![red, green, blue, alpha]);
    lemma_hex_pair(red);
    lemma_hex_pair(green);
    lemma_hex_pair(blue);
    lemma_hex_pair(alpha);
    assert(t[1] == hex_pair(red)[0] && t[2] == hex_pair(red)[1]);
    assert(t[3] == hex_pair(green)[0] && t[4] == hex_pair(green)[1]);
    assert(t[5] == hex_pair(blue)[0] && t[6] == hex_pair(blue)[1]);
    if alpha != 255 {
        assert(t[7] == hex_pair(alpha)[0] && t[8] == hex_pair(alpha)[1]);
    }
    assert(spec_hex_bytes(t) =~= seq![red, green, blue, alpha]);
}


/// Whether a character is a lower-case hexadecimal digit.
pub open spec fn is_lower_hex_digit(c: char) -> bool {
    ('0' <= c <= '9') || ('a' <= c <= 'f')
}

/// Whether a text is how a colour is written: `#` followed by six lower-case
/// hexadecimal digits, or by eight whose last two are not `ff`, since an opaque colour
/// is written with six.
pub open spec fn is_canonical_hex_color(s: Seq<char>) -> bool {
    &&& (s.len() == 7 || s.len() == 9)
    &&& s[0] == '#'
    &&& forall|i: int| 1 <= i < s.len() ==> is_lower_hex_digit(#[trigger] s[i])
    &&& s.len() == 9 ==> !(s[7] == 'f' && s[8] == 'f')
}

/// Two lower-case digits read as a byte are written back as the same two digits.
proof fn lemma_digits_pair(h: char, l: char)
    requires
        is_lower_hex_digit(h),
        is_lower_hex_digit(l),
    ensures
        hex_pair(hex_byte(h as u8, l as u8)) == seq![h, l],
        hex_byte(h as u8, l as u8) == 255 <==> (h == 'f' && l == 'f'),
{
    let vh = spec_hex_value(h as u8);
    let vl = spec_hex_value(l as u8);
    assert(vh < 16 && vl < 16);
    let b = hex_byte(h as u8, l as u8);
    assert(b == vh * 16 + vl);
    assert(b / 16 == vh && b % 16 == vl);
    assert(hex_digit(vh) == h);
    assert(hex_digit(vl) == l);
    assert(hex_pair(b) =~= seq![h, l]);
}

/// A colour written as it is written reads back as bytes that are written as the same
/// text: `#rrggbb` in lower case for an opaque colour, and `#rrggbbaa` otherwise.
pub proof fn law_hex_text_round_trip(s: Seq<char>)
    requires
        is_canonical_hex_color(s),
    ensures
        is_hex_color(s),
        spec_hex_text(spec_hex_bytes(s)) == s,
{
    assert(is_lower_hex_digit(s[1]) && is_lower_hex_digit(s[2]) && is_lower_hex_digit(s[3]));
    assert(is_lower_hex_digit(s[4]) && is_lower_hex_digit(s[5]) && is_lower_hex_digit(s[6]));
    lemma_digits_pair(s[1], s[2]);
    lemma_digits_pair(s[3], s[4]);
    lemma_digits_pair(s[5], s[6]);
    if s.len() == 9 {
        assert(is_lower_hex_digit(s[7]) && is_lower_hex_digit(s[8]));
        lemma_digits_pair(s[7], s[8]);
    }
    assert forall|i: int| 1 <= i < s.len() implies (#[trigger] s[i]) as u32 <= 0x7f && is_hex_digit(s[i] as u8) by {
        assert(is_lower_hex_digit(s[i]));
    }
    assert(spec_hex_text(spec_hex_bytes(s)) =~= s);
}

} // verus!
