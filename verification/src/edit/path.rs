//! Property paths: the addresses of properties within a node.

use vstd::prelude::*;

use crate::textfmt::{decimal, push_char, push_decimal};
use crate::validate::{debug_quoted, debug_text};

verus! {

/// The address of a property within a node, as a sequence of Protocol Buffers field
/// names such as `x.limits.min` or `projection.view3d.azimuth_deg`.
///
/// A path starts at the fields of the node itself: the fields of the figure, of an
/// axes, or of the variant struct of an artist (such as `line.width_pt` of a line). A
/// path descends into a tagged value (such as limits or a projection) by naming a field
/// of the variant that is currently set.
///
/// A path has at least one segment, no segment is empty and no segment contains `.`.
/// In both encodings a path is a single string of segments joined by `.`, which is the
/// form parsed by [`PropertyPath::from_str`] and written by [`PropertyPath::to_string`].
#[derive(Debug, Eq, Hash, PartialOrd, Ord)]
pub struct PropertyPath {
    segments: Vec<String>,
}

/// The reason why a sequence of segments is not a property path.
#[derive(Debug, Clone, PartialEq, Eq)]
pub enum PathError {
    /// The path has no segments, as the empty string has.
    Empty,
    /// A segment of the path is empty, as in `x..limits`, `.x` or `x.`.
    EmptySegment {
        /// The path as written, with its segments joined by `.`.
        path: String,
        /// The zero-based position of the first empty segment.
        position: usize,
    },
    /// A segment given to [`PropertyPath::new`] contains `.`, so the path could not be
    /// written as a string and parsed back to the same segments.
    SeparatorInSegment {
        /// The segment as given.
        segment: String,
        /// The zero-based position of the segment.
        position: usize,
    },
}

/// The sentence that describes why segments are not a property path.
pub open spec fn path_error_text(e: PathError) -> Seq<char> {
    match e {
        PathError::Empty => "a property path must have at least one segment"@,
        PathError::EmptySegment { path, position } => "the property path "@ + debug_text(path@)
            + " has an empty segment at position "@ + decimal(position as nat),
        PathError::SeparatorInSegment { segment, position } => "the segment "@ + debug_text(segment@)
            + " at position "@ + decimal(position as nat) + " of a property path contains '.'"@,
    }
}

impl PathError {
    /// Returns the sentence that describes why the segments are not a property path.
    pub fn to_string(&self) -> (s: String)
        ensures
            s@ == path_error_text(*self),
    {
        match self {
            PathError::Empty => crate::text::owned("a property path must have at least one segment"),
            PathError::EmptySegment { path, position } => {
                let mut s = crate::text::owned("the property path ");
                s.append(debug_quoted(path.as_str()).as_str());
                s.append(" has an empty segment at position ");
                push_decimal(&mut s, *position as u64);
                proof {
                    reveal_strlit(" has an empty segment at position ");
                }
                s
            },
            PathError::SeparatorInSegment { segment, position } => {
                let mut s = crate::text::owned("the segment ");
                s.append(debug_quoted(segment.as_str()).as_str());
                s.append(" at position ");
                push_decimal(&mut s, *position as u64);
                s.append(" of a property path contains '.'");
                proof {
                    reveal_strlit(" at position ");
                    reveal_strlit(" of a property path contains '.'");
                }
                s
            },
        }
    }
}

/// Whether a segment may stand in a path: it is not empty and holds no `.`.
pub open spec fn valid_segment(s: Seq<char>) -> bool {
    s.len() > 0 && !s.contains('.')
}

/// Whether segments form a path: there is at least one, and each is valid.
pub open spec fn valid_segments(s: Seq<Seq<char>>) -> bool {
    s.len() > 0 && forall|i: int| 0 <= i < s.len() ==> valid_segment(#[trigger] s[i])
}

/// The segments joined by `.`.
pub open spec fn join_dots(s: Seq<Seq<char>>) -> Seq<char>
    decreases s.len(),
{
    if s.len() == 0 {
        seq![]
    } else if s.len() == 1 {
        s[0]
    } else {
        join_dots(s.drop_last()) + seq!['.'] + s.last()
    }
}

/// The pieces of a text between its `.` separators: one more than the number of
/// separators, some of which may be empty.
pub open spec fn split_dots(s: Seq<char>) -> Seq<Seq<char>>
    decreases s.len(),
{
    if s.len() == 0 {
        seq![seq![]]
    } else if s.last() == '.' {
        split_dots(s.drop_last()).push(seq![])
    } else {
        let parts = split_dots(s.drop_last());
        parts.update(parts.len() - 1, parts.last().push(s.last()))
    }
}

pub open spec fn string_seqs(v: Seq<String>) -> Seq<Seq<char>> {
    v.map_values(|s: String| s@)
}

/// The position of the first segment that is empty or holds `.`, which is what a path
/// is refused for.
pub open spec fn first_invalid(s: Seq<Seq<char>>, p: int) -> bool {
    0 <= p < s.len() && !valid_segment(s[p]) && forall|i: int| 0 <= i < p ==> valid_segment(#[trigger] s[i])
}

/// Whether an error is the one that the segments are refused with.
pub open spec fn refused_with(s: Seq<Seq<char>>, e: PathError) -> bool {
    match e {
        PathError::Empty => s.len() == 0,
        PathError::EmptySegment { path, position } => first_invalid(s, position as int)
            && s[position as int].len() == 0 && path@ == join_dots(s),
        PathError::SeparatorInSegment { segment, position } => first_invalid(s, position as int)
            && s[position as int].len() > 0 && segment@ == s[position as int],
    }
}

impl View for PropertyPath {
    type V = Seq<Seq<char>>;

    closed spec fn view(&self) -> Seq<Seq<char>> {
        string_seqs(self.segments@)
    }
}

impl PropertyPath {
    #[verifier::type_invariant]
    closed spec fn well_formed(self) -> bool {
        valid_segments(string_seqs(self.segments@))
    }

    /// Creates a path from its segments.
    ///
    /// # Errors
    ///
    /// Returns [`PathError::Empty`] when there are no segments,
    /// [`PathError::EmptySegment`] when a segment is empty, and
    /// [`PathError::SeparatorInSegment`] when a segment contains `.`; the error names
    /// the first segment that is empty or contains `.`.
    pub fn new(segments: Vec<String>) -> (r: Result<Self, PathError>)
        ensures
            r is Ok <==> valid_segments(string_seqs(segments@)),
            r matches Ok(p) ==> p@ == string_seqs(segments@),
            r matches Err(e) ==> refused_with(string_seqs(segments@), e),
    {
        let ghost s = string_seqs(segments@);
        if segments.len() == 0 {
            return Err(PathError::Empty);
        }
        let mut position: usize = 0;
        while position < segments.len()
            invariant
                position <= segments@.len(),
                s == string_seqs(segments@),
                forall|i: int| 0 <= i < position ==> valid_segment(#[trigger] s[i]),
            decreases segments.len() - position,
        {
            let segment = segments[position].as_str();
            assert(s[position as int] == segment@);
            let len = segment.unicode_len();
            if len == 0 {
                let path = join_strings(&segments);
                return Err(PathError::EmptySegment { path, position });
            }
            let mut k: usize = 0;
            while k < len
                invariant
                    k <= len,
                    len == segment@.len(),
                    position < segments@.len(),
                    s == string_seqs(segments@),
                    s[position as int] == segment@,
                    forall|i: int| 0 <= i < position ==> valid_segment(#[trigger] s[i]),
                    forall|j: int| 0 <= j < k ==> segment@[j] != '.',
                decreases len - k,
            {
                if segment.get_char(k) == '.' {
                    assert(segment@.contains('.'));
                    return Err(PathError::SeparatorInSegment {
                        segment: segments[position].clone(),
                        position,
                    });
                }
                k = k + 1;
            }
            position = position + 1;
        }
        Ok(PropertyPath { segments })
    }

    /// Creates a path from segments that are known to be valid, as the property
    /// registry's are, because they are the field names of the wire schema.
    pub fn of(segments: &Vec<&'static str>) -> (p: Self)
        requires
            valid_segments(segments@.map_values(|s: &'static str| s@)),
        ensures
            p@ == segments@.map_values(|s: &'static str| s@),
    {
        let ghost views = segments@.map_values(|s: &'static str| s@);
        let mut owned: Vec<String> = Vec::new();
        let mut i: usize = 0;
        while i < segments.len()
            invariant
                i <= segments@.len(),
                views == segments@.map_values(|s: &'static str| s@),
                string_seqs(owned@) == views.take(i as int),
            decreases segments.len() - i,
        {
            let mut segment = String::new();
            segment.append(segments[i]);
            let ghost before = owned@;
            owned.push(segment);
            assert(string_seqs(owned@) =~= string_seqs(before).push(segments@[i as int]@));
            assert(views.take(i + 1) =~= views.take(i as int).push(views[i as int]));
            i = i + 1;
        }
        assert(views.take(i as int) =~= views);
        PropertyPath { segments: owned }
    }

    /// Returns the segments of the path, outermost first: there is at least one, and
    /// none is empty or holds `.`, however the path was made.
    pub fn segments(&self) -> (s: &Vec<String>)
        ensures
            string_seqs(s@) == self@,
            valid_segments(self@),
    {
        proof {
            use_type_invariant(self);
        }
        &self.segments
    }

    /// Returns whether this path is equal to `other` or is an ancestor of it, comparing
    /// whole segments, so that `x.limits` contains `x.limits` and `x.limits.min` but
    /// not `x.limits_min` or `x`.
    pub fn contains(&self, other: &PropertyPath) -> (r: bool)
        ensures
            r == self@.is_prefix_of(other@),
    {
        let n = self.segments.len();
        if n > other.segments.len() {
            return false;
        }
        let mut i: usize = 0;
        while i < n
            invariant
                i <= n,
                n == self.segments@.len(),
                n <= other.segments@.len(),
                forall|j: int| 0 <= j < i ==> self@[j] == other@[j],
            decreases n - i,
        {
            if self.segments[i] != other.segments[i] {
                assert(self@[i as int] != other@[i as int]);
                return false;
            }
            i = i + 1;
        }
        assert(other@.take(n as int) =~= self@);
        true
    }

    /// Returns whether either path contains the other, which is the relation by which
    /// an overlay entry conflicts with an edit of the owner.
    pub fn overlaps(&self, other: &PropertyPath) -> (r: bool)
        ensures
            r == (self@.is_prefix_of(other@) || other@.is_prefix_of(self@)),
    {
        self.contains(other) || other.contains(self)
    }

    /// Returns the segments of the path separated by `.`.
    pub fn to_string(&self) -> (s: String)
        ensures
            s@ == join_dots(self@),
    {
        join_strings(&self.segments)
    }

    /// Parses a path whose segments are separated by `.`.
    ///
    /// # Errors
    ///
    /// Returns [`PathError::Empty`] for the empty string, and
    /// [`PathError::EmptySegment`] when a segment between the separators is empty.
    pub fn from_str(path: &str) -> (r: Result<Self, PathError>)
        ensures
            r is Ok <==> (path@.len() > 0 && valid_segments(split_dots(path@))),
            r matches Ok(p) ==> p@ == split_dots(path@),
            r matches Err(e) ==> if path@.len() == 0 {
                e == PathError::Empty
            } else {
                refused_with(split_dots(path@), e)
            },
    {
        if path.unicode_len() == 0 {
            return Err(PathError::Empty);
        }
        let pieces = split_on_dots(path);
        proof {
            lemma_split_dots_nonempty(path@);
        }
        PropertyPath::new(pieces)
    }
}

impl PartialEq for PropertyPath {
    fn eq(&self, other: &Self) -> (r: bool) {
        let r = self.contains(other) && other.contains(self);
        proof {
            if self@.is_prefix_of(other@) && other@.is_prefix_of(self@) {
                assert(self@ =~= other@);
            }
            if self@ == other@ {
                assert(self@.take(self@.len() as int) =~= self@);
            }
        }
        r
    }
}

impl vstd::std_specs::cmp::PartialEqSpecImpl for PropertyPath {
    open spec fn obeys_eq_spec() -> bool {
        true
    }

    open spec fn eq_spec(&self, other: &Self) -> bool {
        self@ == other@
    }
}

impl Clone for PropertyPath {
    fn clone(&self) -> (r: Self)
        ensures
            r@ == self@,
    {
        proof {
            use_type_invariant(self);
        }
        let mut segments: Vec<String> = Vec::new();
        let mut i: usize = 0;
        while i < self.segments.len()
            invariant
                i <= self.segments@.len(),
                string_seqs(segments@) == self@.take(i as int),
                valid_segments(self@),
            decreases self.segments.len() - i,
        {
            let ghost before = segments@;
            segments.push(self.segments[i].clone());
            assert(string_seqs(segments@) =~= string_seqs(before).push(self@[i as int]));
            assert(self@.take(i + 1) =~= self@.take(i as int).push(self@[i as int]));
            i = i + 1;
        }
        assert(self@.take(i as int) =~= self@);
        PropertyPath { segments }
    }
}

proof fn lemma_split_no_dots(t: Seq<char>)
    requires
        !t.contains('.'),
    ensures
        split_dots(t) == seq![t],
    decreases t.len(),
{
    if t.len() > 0 {
        let d = t.drop_last();
        assert(!d.contains('.')) by {
            if d.contains('.') {
                let k = choose|k: int| 0 <= k < d.len() && d[k] == '.';
                assert(t[k] == '.');
            }
        }
        lemma_split_no_dots(d);
        assert(t.last() != '.') by {
            assert(t[t.len() - 1] == t.last());
        }
        assert(d.push(t.last()) =~= t);
    } else {
        assert(t =~= Seq::<char>::empty());
    }
}

proof fn lemma_split_after_dot(a: Seq<char>, b: Seq<char>)
    requires
        !b.contains('.'),
    ensures
        split_dots(a + seq!['.'] + b) == split_dots(a).push(b),
    decreases b.len(),
{
    let x = a + seq!['.'] + b;
    if b.len() == 0 {
        assert(x.drop_last() =~= a);
        assert(b =~= Seq::<char>::empty());
    } else {
        let d = b.drop_last();
        assert(!d.contains('.')) by {
            if d.contains('.') {
                let k = choose|k: int| 0 <= k < d.len() && d[k] == '.';
                assert(b[k] == '.');
            }
        }
        lemma_split_after_dot(a, d);
        assert(x.drop_last() =~= a + seq!['.'] + d);
        assert(x.last() == b.last());
        assert(b.last() != '.') by {
            assert(b[b.len() - 1] == b.last());
        }
        assert(d.push(b.last()) =~= b);
        assert(split_dots(x) =~= split_dots(a).push(b));
    }
}

/// Splitting the text of a path at its separators gives back its segments.
pub proof fn lemma_split_join(s: Seq<Seq<char>>)
    requires
        valid_segments(s),
    ensures
        split_dots(join_dots(s)) == s,
    decreases s.len(),
{
    if s.len() == 1 {
        lemma_split_no_dots(s[0]);
        assert(seq![s[0]] =~= s);
    } else {
        let d = s.drop_last();
        assert(valid_segments(d)) by {
            assert forall|i: int| 0 <= i < d.len() implies valid_segment(#[trigger] d[i]) by {
                assert(valid_segment(s[i]));
            }
        }
        lemma_split_join(d);
        assert(valid_segment(s[s.len() - 1]));
        lemma_split_after_dot(join_dots(d), s.last());
        assert(d.push(s.last()) =~= s);
    }
}

proof fn lemma_join_update_last(p: Seq<Seq<char>>, x: Seq<char>)
    requires
        p.len() > 0,
    ensures
        join_dots(p.update(p.len() - 1, p.last().push(x.last()))) == join_dots(p).push(x.last()),
{
    let q = p.update(p.len() - 1, p.last().push(x.last()));
    if p.len() == 1 {
        assert(q[0] == p[0].push(x.last()));
    } else {
        assert(q.drop_last() =~= p.drop_last());
        assert(join_dots(q) =~= join_dots(p).push(x.last()));
    }
}

/// Joining the pieces of a text between its separators gives back the text.
pub proof fn lemma_join_split(t: Seq<char>)
    ensures
        join_dots(split_dots(t)) == t,
    decreases t.len(),
{
    if t.len() == 0 {
        assert(join_dots(seq![seq![]]) =~= t);
    } else {
        let d = t.drop_last();
        lemma_join_split(d);
        lemma_split_dots_nonempty(d);
        let p = split_dots(d);
        if t.last() == '.' {
            let q = p.push(seq![]);
            assert(q.drop_last() =~= p);
            assert(join_dots(q) =~= t);
        } else {
            lemma_join_update_last(p, t);
            assert(d.push(t.last()) =~= t);
        }
    }
}

/// A path written as text and parsed again is the same path, and the text of a parsed
/// path is the text it was parsed from. Every path has valid segments, as
/// [`PropertyPath::segments`] states, so the first half holds of every path.
pub proof fn law_path_text_round_trip(p: PropertyPath, text: Seq<char>)
    requires
        valid_segments(p@),
    ensures
        join_dots(p@).len() > 0,
        valid_segments(split_dots(join_dots(p@))),
        split_dots(join_dots(p@)) == p@,
        join_dots(split_dots(text)) == text,
{
    lemma_split_join(p@);
    lemma_join_split(text);
    lemma_join_nonempty(p@);
}

proof fn lemma_join_nonempty(s: Seq<Seq<char>>)
    requires
        valid_segments(s),
    ensures
        join_dots(s).len() > 0,
    decreases s.len(),
{
    assert(valid_segment(s[0]));
    if s.len() > 1 {
        let d = s.drop_last();
        assert(valid_segments(d)) by {
            assert forall|i: int| 0 <= i < d.len() implies valid_segment(#[trigger] d[i]) by {
                assert(valid_segment(s[i]));
            }
        }
        lemma_join_nonempty(d);
    }
}

/// Containment of paths is a partial order: every path contains itself, containment is
/// transitive, and two paths that contain each other are equal.
pub proof fn law_contains_partial_order(a: PropertyPath, b: PropertyPath, c: PropertyPath)
    ensures
        a@.is_prefix_of(a@),
        a@.is_prefix_of(b@) && b@.is_prefix_of(c@) ==> a@.is_prefix_of(c@),
        a@.is_prefix_of(b@) && b@.is_prefix_of(a@) ==> a@ == b@,
{
    assert(a@.take(a@.len() as int) =~= a@);
    if a@.is_prefix_of(b@) && b@.is_prefix_of(c@) {
        assert(c@.take(a@.len() as int) =~= b@.take(a@.len() as int));
    }
    if a@.is_prefix_of(b@) && b@.is_prefix_of(a@) {
        assert(a@ =~= b@);
    }
}

proof fn lemma_split_dots_nonempty(s: Seq<char>)
    ensures
        split_dots(s).len() > 0,
    decreases s.len(),
{
    if s.len() > 0 {
        lemma_split_dots_nonempty(s.drop_last());
    }
}

/// Returns the strings joined by `.`.
fn join_strings(parts: &Vec<String>) -> (s: String)
    ensures
        s@ == join_dots(string_seqs(parts@)),
{
    let ghost views = string_seqs(parts@);
    let mut s = String::new();
    let mut i: usize = 0;
    while i < parts.len()
        invariant
            i <= parts@.len(),
            views == string_seqs(parts@),
            s@ == join_dots(views.take(i as int)),
        decreases parts.len() - i,
    {
        if i > 0 {
            push_char(&mut s, '.');
        }
        s.append(parts[i].as_str());
        assert(views.take(i + 1).drop_last() =~= views.take(i as int));
        assert(views[i as int] == parts@[i as int]@);
        i = i + 1;
        proof {
            if i == 1 {
                assert(views.take(0) =~= Seq::<Seq<char>>::empty());
            }
        }
        assert(s@ =~= join_dots(views.take(i as int)));
    }
    assert(views.take(i as int) =~= views);
    s
}

/// Returns the pieces of a text between its `.` separators.
pub(crate) fn split_on_dots(text: &str) -> (pieces: Vec<String>)
    ensures
        string_seqs(pieces@) == split_dots(text@),
{
    let len = text.unicode_len();
    let mut pieces: Vec<String> = Vec::new();
    let mut current = String::new();
    let mut i: usize = 0;
    assert(split_dots(text@.take(0)) =~= seq![seq![]]);
    while i < len
        invariant
            i <= len,
            len == text@.len(),
            string_seqs(pieces@).push(current@) == split_dots(text@.take(i as int)),
        decreases len - i,
    {
        let c = text.get_char(i);
        let ghost prefix = text@.take(i as int);
        assert(text@.take(i + 1).drop_last() =~= prefix);
        assert(text@.take(i + 1).last() == c);
        if c == '.' {
            let ghost before = pieces@;
            let finished = current;
            current = String::new();
            pieces.push(finished);
            assert(string_seqs(pieces@) =~= string_seqs(before).push(finished@));
            assert(string_seqs(pieces@).push(current@) =~= split_dots(text@.take(i + 1)));
        } else {
            let ghost old_current = current@;
            push_char(&mut current, c);
            assert(string_seqs(pieces@).push(current@) =~= split_dots(text@.take(i + 1)));
        }
        i = i + 1;
    }
    assert(text@.take(len as int) =~= text@);
    let ghost before = pieces@;
    pieces.push(current);
    assert(string_seqs(pieces@) =~= string_seqs(before).push(pieces@.last()@));
    pieces
}

} // verus!
