//! Building text: the decimal form of integers and the appending of characters.

use vstd::prelude::*;

verus! {

/// The character of a decimal digit from 0 to 9.
pub open spec fn digit_char(d: nat) -> char {
    if d == 0 { '0' }
    else if d == 1 { '1' }
    else if d == 2 { '2' }
    else if d == 3 { '3' }
    else if d == 4 { '4' }
    else if d == 5 { '5' }
    else if d == 6 { '6' }
    else if d == 7 { '7' }
    else if d == 8 { '8' }
    else { '9' }
}

/// The decimal form of a natural number, without leading zeros (zero is `0`).
pub open spec fn decimal(n: nat) -> Seq<char>
    decreases n,
{
    if n < 10 {
        seq![digit_char(n)]
    } else {
        decimal(n / 10).push(digit_char(n % 10))
    }
}

/// The decimal form of an integer, with a leading `-` when it is negative.
pub open spec fn signed_decimal(n: int) -> Seq<char> {
    if n < 0 {
        seq!['-'] + decimal((-n) as nat)
    } else {
        decimal(n as nat)
    }
}

/// Appends a character to a string.
///
/// Calls `String::push`, which std documents as appending the character to the end of
/// the string; the contract states exactly that.
#[verifier::external_body]
pub(crate) fn push_char(s: &mut String, c: char)
    ensures
        final(s)@ == old(s)@.push(c),
{
    s.push(c);
}

fn digit_char_exec(d: u64) -> (c: char)
    requires
        d < 10,
    ensures
        c == digit_char(d as nat),
{
    if d == 0 { '0' }
    else if d == 1 { '1' }
    else if d == 2 { '2' }
    else if d == 3 { '3' }
    else if d == 4 { '4' }
    else if d == 5 { '5' }
    else if d == 6 { '6' }
    else if d == 7 { '7' }
    else if d == 8 { '8' }
    else { '9' }
}

/// Appends the decimal form of `n` to `out`.
pub fn push_decimal(out: &mut String, n: u64)
    ensures
        final(out)@ == old(out)@ + decimal(n as nat),
    decreases n,
{
    if n < 10 {
        push_char(out, digit_char_exec(n));
        assert(decimal(n as nat) == seq![digit_char(n as nat)]);
    } else {
        push_decimal(out, n / 10);
        push_char(out, digit_char_exec(n % 10));
        assert(old(out)@ + decimal((n / 10) as nat) + seq![digit_char((n % 10) as nat)]
            =~= old(out)@ + decimal(n as nat));
    }
}

/// Appends the decimal form of a signed integer to `out`.
pub fn push_signed_decimal(out: &mut String, n: i64)
    ensures
        final(out)@ == old(out)@ + signed_decimal(n as int),
{
    if n < 0 {
        push_char(out, '-');
        let magnitude: u64 = if n == i64::MIN {
            9223372036854775808u64
        } else {
            (-n) as u64
        };
        push_decimal(out, magnitude);
        assert(old(out)@.push('-') + decimal(magnitude as nat)
            =~= old(out)@ + (seq!['-'] + decimal(magnitude as nat)));
    } else {
        push_decimal(out, n as u64);
    }
}



/// Whether a character has the Unicode `White_Space` property, as `char::is_whitespace`
/// tests it.
pub open spec fn is_white_space(c: char) -> bool {
    ||| ('\t' <= c && c <= '\r')
    ||| c == ' '
    ||| c == '\u{85}'
    ||| c == '\u{a0}'
    ||| c == '\u{1680}'
    ||| ('\u{2000}' <= c && c <= '\u{200a}')
    ||| c == '\u{2028}'
    ||| c == '\u{2029}'
    ||| c == '\u{202f}'
    ||| c == '\u{205f}'
    ||| c == '\u{3000}'
}

/// The text without its trailing white space.
pub open spec fn trim_end(s: Seq<char>) -> Seq<char>
    decreases s.len(),
{
    if s.len() > 0 && is_white_space(s.last()) {
        trim_end(s.drop_last())
    } else {
        s
    }
}

/// The text without every leading `r#`, as a raw identifier is written without its
/// prefix.
pub open spec fn strip_raw(s: Seq<char>) -> Seq<char>
    decreases s.len(),
{
    if s.len() >= 2 && s[0] == 'r' && s[1] == '#' {
        strip_raw(s.skip(2))
    } else {
        s
    }
}

fn white_space(c: char) -> (b: bool)
    ensures
        b == is_white_space(c),
{
    ('\t' <= c && c <= '\r') || c == ' ' || c == '\u{85}' || c == '\u{a0}' || c == '\u{1680}'
        || ('\u{2000}' <= c && c <= '\u{200a}') || c == '\u{2028}' || c == '\u{2029}'
        || c == '\u{202f}' || c == '\u{205f}' || c == '\u{3000}'
}

proof fn lemma_trim_end_take(s: Seq<char>, n: int)
    requires
        0 <= n <= s.len(),
        forall|i: int| n <= i < s.len() ==> is_white_space(#[trigger] s[i]),
    ensures
        trim_end(s) == trim_end(s.take(n)),
    decreases s.len() - n,
{
    if n < s.len() {
        assert(s.drop_last().take(n) =~= s.take(n));
        lemma_trim_end_take(s.drop_last(), n);
    } else {
        assert(s.take(n) =~= s);
    }
}

/// Appends a text without its trailing white space.
pub fn push_trimmed_end(out: &mut String, s: &str)
    ensures
        final(out)@ == old(out)@ + trim_end(s@),
{
    let len = s.unicode_len();
    let mut end = len;
    while end > 0 && white_space(s.get_char(end - 1))
        invariant
            end <= len,
            len == s@.len(),
            forall|i: int| end <= i < len ==> is_white_space(#[trigger] s@[i]),
        decreases end,
    {
        end = end - 1;
    }
    proof {
        lemma_trim_end_take(s@, end as int);
        if end > 0 {
            assert(s@.take(end as int).last() == s@[end - 1]);
        }
    }
    let kept = s.substring_char(0, end);
    assert(kept@ =~= s@.take(end as int));
    out.append(kept);
}

proof fn lemma_strip_raw_skip(s: Seq<char>, k: int)
    requires
        0 <= k <= s.len(),
        k % 2 == 0,
        forall|i: int| 0 <= i < k ==> #[trigger] s[i] == (if i % 2 == 0 { 'r' } else { '#' }),
    ensures
        strip_raw(s) == strip_raw(s.skip(k)),
    decreases k,
{
    if k > 0 {
        assert(s[0] == 'r' && s[1] == '#');
        let t = s.skip(2);
        assert forall|i: int| 0 <= i < k - 2 implies #[trigger] t[i] == (if i % 2 == 0 { 'r' } else { '#' }) by {
            assert(t[i] == s[i + 2]);
        }
        lemma_strip_raw_skip(t, k - 2);
        assert(t.skip(k - 2) =~= s.skip(k));
    } else {
        assert(s.skip(0) =~= s);
    }
}

/// Returns the text without every leading `r#`.
pub fn strip_raw_prefix(s: &str) -> (r: &str)
    ensures
        r@ == strip_raw(s@),
{
    let len = s.unicode_len();
    let mut k: usize = 0;
    while k + 1 < len && s.get_char(k) == 'r' && s.get_char(k + 1) == '#'
        invariant
            k <= len,
            len == s@.len(),
            k % 2 == 0,
            forall|i: int| 0 <= i < k ==> #[trigger] s@[i] == (if i % 2 == 0 { 'r' } else { '#' }),
        decreases len - k,
    {
        k = k + 2;
    }
    proof {
        lemma_strip_raw_skip(s@, k as int);
        let t = s@.skip(k as int);
        if t.len() >= 2 {
            assert(t[0] == s@[k as int] && t[1] == s@[k + 1]);
        }
    }
    let r = s.substring_char(k, len);
    assert(r@ =~= s@.skip(k as int));
    r
}


// ---------------------------------------------------------------------------------
// Ordering of texts
// ---------------------------------------------------------------------------------

/// Whether a text sorts before another, comparing characters by their code points as
/// strings compare in Rust (the order of their UTF-8 bytes).
pub open spec fn text_less(a: Seq<char>, b: Seq<char>) -> bool
    decreases a.len(),
{
    if a.len() == 0 {
        b.len() > 0
    } else if b.len() == 0 {
        false
    } else if a[0] != b[0] {
        a[0] < b[0]
    } else {
        text_less(a.drop_first(), b.drop_first())
    }
}

pub proof fn lemma_text_less_irreflexive(a: Seq<char>)
    ensures
        !text_less(a, a),
    decreases a.len(),
{
    if a.len() > 0 {
        lemma_text_less_irreflexive(a.drop_first());
    }
}

pub proof fn lemma_text_less_transitive(a: Seq<char>, b: Seq<char>, c: Seq<char>)
    requires
        text_less(a, b),
        text_less(b, c),
    ensures
        text_less(a, c),
    decreases a.len(),
{
    if a.len() > 0 && b.len() > 0 && c.len() > 0 {
        if a[0] == b[0] && b[0] == c[0] {
            lemma_text_less_transitive(a.drop_first(), b.drop_first(), c.drop_first());
        }
    }
}

pub proof fn lemma_text_less_total(a: Seq<char>, b: Seq<char>)
    ensures
        a == b || text_less(a, b) || text_less(b, a),
    decreases a.len(),
{
    if a.len() > 0 && b.len() > 0 {
        if a[0] == b[0] {
            lemma_text_less_total(a.drop_first(), b.drop_first());
            if a.drop_first() == b.drop_first() {
                assert(a =~= seq![a[0]] + a.drop_first());
                assert(b =~= seq![b[0]] + b.drop_first());
            }
        }
    } else if a.len() == 0 && b.len() == 0 {
        assert(a =~= b);
    }
}

pub proof fn lemma_text_less_asymmetric(a: Seq<char>, b: Seq<char>)
    requires
        text_less(a, b),
    ensures
        !text_less(b, a),
{
    if text_less(b, a) {
        lemma_text_less_transitive(a, b, a);
        lemma_text_less_irreflexive(a);
    }
}

/// Returns whether a text sorts before another.
pub fn str_less(a: &str, b: &str) -> (r: bool)
    ensures
        r == text_less(a@, b@),
{
    let la = a.unicode_len();
    let lb = b.unicode_len();
    let mut i: usize = 0;
    assert(a@.skip(0) =~= a@ && b@.skip(0) =~= b@);
    while i < la && i < lb && a.get_char(i) == b.get_char(i)
        invariant
            i <= la,
            i <= lb,
            la == a@.len(),
            lb == b@.len(),
            a@.take(i as int) == b@.take(i as int),
            text_less(a@, b@) == text_less(a@.skip(i as int), b@.skip(i as int)),
        decreases la - i,
    {
        let ghost (sa, sb) = (a@.skip(i as int), b@.skip(i as int));
        assert(sa[0] == sb[0]);
        assert(sa.drop_first() =~= a@.skip(i + 1));
        assert(sb.drop_first() =~= b@.skip(i + 1));
        assert(a@.take(i + 1) =~= a@.take(i as int).push(a@[i as int]));
        assert(b@.take(i + 1) =~= b@.take(i as int).push(b@[i as int]));
        i = i + 1;
    }
    let ghost (sa, sb) = (a@.skip(i as int), b@.skip(i as int));
    if i == la {
        assert(sa.len() == 0);
        i < lb
    } else if i == lb {
        assert(sb.len() == 0);
        false
    } else {
        let (x, y) = (a.get_char(i), b.get_char(i));
        assert(sa[0] == x && sb[0] == y);
        x < y
    }
}

/// Returns whether two texts are equal.
pub fn str_eq(a: &str, b: &str) -> (r: bool)
    ensures
        r == (a@ == b@),
{
    proof {
        lemma_text_less_total(a@, b@);
        lemma_text_less_irreflexive(a@);
    }
    !str_less(a, b) && !str_less(b, a)
}

/// Whether the texts are in strictly ascending order, so that none occurs twice.
pub open spec fn strictly_sorted(v: Seq<Seq<char>>) -> bool {
    forall|i: int, j: int| 0 <= i < j < v.len() ==> text_less(#[trigger] v[i], #[trigger] v[j])
}

pub open spec fn string_views(v: Seq<String>) -> Seq<Seq<char>> {
    v.map_values(|s: String| s@)
}

/// Inserts a text into a list kept in strictly ascending order, unless it is already
/// there, as inserting into an ordered set does.
pub fn insert_sorted(v: &mut Vec<String>, x: String)
    requires
        strictly_sorted(string_views(old(v)@)),
    ensures
        strictly_sorted(string_views(final(v)@)),
        string_views(final(v)@).to_set() == string_views(old(v)@).to_set().insert(x@),
{
    let ghost old_views = string_views(v@);
    let mut p: usize = 0;
    while p < v.len() && str_less(v[p].as_str(), x.as_str())
        invariant
            p <= v.len(),
            v@ == old(v)@,
            old_views == string_views(v@),
            forall|i: int| 0 <= i < p ==> text_less(#[trigger] old_views[i], x@),
        decreases v.len() - p,
    {
        p = p + 1;
    }
    if p < v.len() && v[p] == x {
        assert(old_views.to_set().insert(x@) =~= old_views.to_set()) by {
            assert(old_views[p as int] == x@);
            assert(old_views.to_set().contains(x@));
        }
        return;
    }
    proof {
        if p < v.len() {
            lemma_text_less_total(old_views[p as int], x@);
            assert(text_less(x@, old_views[p as int]));
            assert forall|j: int| p <= j < old_views.len() implies text_less(x@, #[trigger] old_views[j]) by {
                if j > p {
                    lemma_text_less_transitive(x@, old_views[p as int], old_views[j]);
                }
            }
        }
    }
    let ghost xv = x@;
    v.insert(p, x);
    let ghost new_views = string_views(v@);
    assert(new_views =~= old_views.insert(p as int, xv));
    assert(strictly_sorted(new_views)) by {
        assert forall|i: int, j: int| 0 <= i < j < new_views.len() implies text_less(#[trigger] new_views[i], #[trigger] new_views[j]) by {
            if j < p {
            } else if j == p {
            } else if i < p {
                lemma_text_less_transitive(new_views[i], xv, new_views[j]);
            } else if i == p {
            } else {
            }
        }
    }
    assert(new_views.to_set() =~= old_views.to_set().insert(xv)) by {
        assert forall|t: Seq<char>| new_views.to_set().contains(t) implies old_views.to_set().insert(xv).contains(t) by {
            let k = choose|k: int| 0 <= k < new_views.len() && new_views[k] == t;
            if k < p {
                assert(old_views[k] == t);
            } else if k > p {
                assert(old_views[k - 1] == t);
            }
        }
        assert forall|t: Seq<char>| old_views.to_set().insert(xv).contains(t) implies new_views.to_set().contains(t) by {
            if t == xv {
                assert(new_views[p as int] == t);
            } else {
                let k = choose|k: int| 0 <= k < old_views.len() && old_views[k] == t;
                if k < p {
                    assert(new_views[k] == t);
                } else {
                    assert(new_views[k + 1] == t);
                }
            }
        }
    }
}

} // verus!
