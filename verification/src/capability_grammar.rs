//! Grammar and matching for static capability strings.
//!
//! ```text
//! capability  := segment (':' segment)*
//! segment     := '*' | [a-zA-Z0-9_-]+
//! ```
//!
//! Capabilities are ASCII-only, never contain the double glob `**`, and are
//! at most [`MAX_CAPABILITY_LEN`] bytes long.

use vstd::prelude::*;
use crate::text::{
    ascii_alnum, byte_len, byte_len_exceeds, char_debug_form, chars_eq, chars_to_string, debug_char,
    debug_str, is_ascii_alnum, split_acc, split_chars, split_on, str_debug_form, str_to_chars, views,
};

verus! {

/// Upper bound on the total length of a capability pattern, in bytes.
pub const MAX_CAPABILITY_LEN: usize = 256;

/// Errors raised by [`validate_capability`].
#[derive(Debug, Clone, PartialEq, Eq)]
pub enum CapabilityGrammarError {
    /// Capability string is empty.
    Empty,
    /// Capability string exceeds [`MAX_CAPABILITY_LEN`] bytes.
    TooLong,
    /// Capability contains the double-glob sequence `**` (reserved).
    DoubleStar,
    /// A segment between `:` separators is empty.
    EmptySegment,
    /// A segment contains a character outside the allowed grammar.
    InvalidCharacter {
        /// Segment that failed validation.
        segment: String,
        /// First offending character.
        bad: char,
    },
    /// A segment mixes `*` with other characters (e.g. `foo*`).
    PartialStar {
        /// Segment that failed validation.
        segment: String,
    },
}

/// What a [`CapabilityGrammarError`] says, with strings taken as characters.
pub ghost enum CapabilityErrorView {
    Empty,
    TooLong,
    DoubleStar,
    EmptySegment,
    InvalidCharacter { segment: Seq<char>, bad: char },
    PartialStar { segment: Seq<char> },
}

impl View for CapabilityGrammarError {
    type V = CapabilityErrorView;

    open spec fn view(&self) -> CapabilityErrorView {
        match self {
            CapabilityGrammarError::Empty => CapabilityErrorView::Empty,
            CapabilityGrammarError::TooLong => CapabilityErrorView::TooLong,
            CapabilityGrammarError::DoubleStar => CapabilityErrorView::DoubleStar,
            CapabilityGrammarError::EmptySegment => CapabilityErrorView::EmptySegment,
            CapabilityGrammarError::InvalidCharacter { segment, bad } =>
                CapabilityErrorView::InvalidCharacter { segment: segment@, bad: *bad },
            CapabilityGrammarError::PartialStar { segment } =>
                CapabilityErrorView::PartialStar { segment: segment@ },
        }
    }
}

/// The text of each error.
pub open spec fn capability_error_message(e: CapabilityErrorView) -> Seq<char> {
    match e {
        CapabilityErrorView::Empty => "capability must not be empty"@,
        CapabilityErrorView::TooLong => "capability exceeds 256 bytes"@,
        CapabilityErrorView::DoubleStar => "capability may not contain '**' (double glob is reserved)"@,
        CapabilityErrorView::EmptySegment =>
            "capability contains an empty segment (leading, trailing, or consecutive ':')"@,
        CapabilityErrorView::InvalidCharacter { segment, bad } => "capability segment "@
            + str_debug_form(segment) + " contains invalid character "@ + char_debug_form(bad)
            + " (allowed: a-z, A-Z, 0-9, -, _, or literal '*')"@,
        CapabilityErrorView::PartialStar { segment } => "capability segment "@ + str_debug_form(
            segment,
        ) + " mixes '*' with other characters; '*' must stand alone in a segment"@,
    }
}

impl CapabilityGrammarError {
    /// Human-readable description of the error; segments and characters
    /// appear in their quoted `Debug` form.
    pub fn message(&self) -> (r: String)
        ensures
            r@ == capability_error_message(self@),
    {
        match self {
            CapabilityGrammarError::Empty => String::from_str("capability must not be empty"),
            CapabilityGrammarError::TooLong => String::from_str("capability exceeds 256 bytes"),
            CapabilityGrammarError::DoubleStar => String::from_str(
                "capability may not contain '**' (double glob is reserved)",
            ),
            CapabilityGrammarError::EmptySegment => String::from_str(
                "capability contains an empty segment (leading, trailing, or consecutive ':')",
            ),
            CapabilityGrammarError::InvalidCharacter { segment, bad } => {
                let mut m = String::from_str("capability segment ");
                m.append(debug_str(segment.as_str()).as_str());
                m.append(" contains invalid character ");
                m.append(debug_char(*bad).as_str());
                m.append(" (allowed: a-z, A-Z, 0-9, -, _, or literal '*')");
                m
            },
            CapabilityGrammarError::PartialStar { segment } => {
                let mut m = String::from_str("capability segment ");
                m.append(debug_str(segment.as_str()).as_str());
                m.append(" mixes '*' with other characters; '*' must stand alone in a segment");
                m
            },
        }
    }
}

/// Characters allowed in a literal segment.
pub open spec fn is_segment_char(c: char) -> bool {
    is_ascii_alnum(c) || c == '-' || c == '_'
}

/// Index of the first character of `s` that is not a segment character
/// (`s.len()` when there is none).
pub open spec fn first_non_segment_char(s: Seq<char>) -> int
    decreases s.len(),
{
    if s.len() == 0 {
        0
    } else if !is_segment_char(s[0]) {
        0
    } else {
        1 + first_non_segment_char(s.drop_first())
    }
}

/// `s` contains two consecutive `*`.
pub open spec fn has_double_star(s: Seq<char>) -> bool {
    exists|i: int| 0 <= i && i + 1 < s.len() && #[trigger] s[i] == '*' && s[i + 1] == '*'
}

/// The error one segment produces, if any.
pub open spec fn segment_error(seg: Seq<char>) -> Option<CapabilityErrorView> {
    if seg.len() == 0 {
        Some(CapabilityErrorView::EmptySegment)
    } else if seg == seq!['*'] {
        None
    } else if seg.contains('*') {
        Some(CapabilityErrorView::PartialStar { segment: seg })
    } else if first_non_segment_char(seg) < seg.len() {
        Some(
            CapabilityErrorView::InvalidCharacter {
                segment: seg,
                bad: seg[first_non_segment_char(seg)],
            },
        )
    } else {
        None
    }
}

/// The error of the first failing segment, if any.
pub open spec fn first_segment_error(segs: Seq<Seq<char>>) -> Option<CapabilityErrorView>
    decreases segs.len(),
{
    if segs.len() == 0 {
        None
    } else {
        match segment_error(segs[0]) {
            Some(e) => Some(e),
            None => first_segment_error(segs.drop_first()),
        }
    }
}

/// The outcome of validating `cap`: the checks run in the order empty,
/// length, double glob, then segment by segment from the left.
pub open spec fn validation_result(cap: Seq<char>) -> Result<(), CapabilityErrorView> {
    if cap.len() == 0 {
        Err(CapabilityErrorView::Empty)
    } else if byte_len(cap) > MAX_CAPABILITY_LEN {
        Err(CapabilityErrorView::TooLong)
    } else if has_double_star(cap) {
        Err(CapabilityErrorView::DoubleStar)
    } else {
        match first_segment_error(split_on(cap, ':')) {
            Some(e) => Err(e),
            None => Ok(()),
        }
    }
}

/// A segment of the grammar: `*` alone, or a non-empty run of
/// `[a-zA-Z0-9_-]`.
pub open spec fn is_grammar_segment(seg: Seq<char>) -> bool {
    seg == seq!['*'] || (seg.len() > 0 && forall|i: int|
        0 <= i < seg.len() ==> #[trigger] is_segment_char(seg[i]))
}

/// `cap` belongs to the capability grammar.
pub open spec fn is_valid_capability(cap: Seq<char>) -> bool {
    &&& cap.len() > 0
    &&& byte_len(cap) <= MAX_CAPABILITY_LEN
    &&& !has_double_star(cap)
    &&& forall|k: int|
        0 <= k < split_on(cap, ':').len() ==> #[trigger] is_grammar_segment(
            split_on(cap, ':')[k],
        )
}

proof fn lemma_first_non_segment_char(s: Seq<char>)
    ensures
        0 <= first_non_segment_char(s) <= s.len(),
        forall|i: int| 0 <= i < first_non_segment_char(s) ==> is_segment_char(s[i]),
        first_non_segment_char(s) < s.len() ==> !is_segment_char(s[first_non_segment_char(s)]),
    decreases s.len(),
{
    if s.len() > 0 && is_segment_char(s[0]) {
        lemma_first_non_segment_char(s.drop_first());
        assert forall|i: int| 0 <= i < first_non_segment_char(s) implies is_segment_char(s[i]) by {
            if i > 0 {
                assert(s[i] == s.drop_first()[i - 1]);
            }
        }
    }
}

proof fn lemma_segment_error_none(seg: Seq<char>)
    ensures
        segment_error(seg) is None <==> is_grammar_segment(seg),
{
    lemma_first_non_segment_char(seg);
    if seg.len() > 0 && seg != seq!['*'] && !seg.contains('*') && first_non_segment_char(seg)
        == seg.len() {
        assert(is_grammar_segment(seg));
    }
    if is_grammar_segment(seg) && seg != seq!['*'] {
        if seg.contains('*') {
            let i = choose|i: int| 0 <= i < seg.len() && seg[i] == '*';
            assert(is_segment_char(seg[i]));
        }
        if first_non_segment_char(seg) < seg.len() {
            assert(is_segment_char(seg[first_non_segment_char(seg)]));
        }
    }
}

proof fn lemma_first_segment_error_none(segs: Seq<Seq<char>>)
    ensures
        first_segment_error(segs) is None <==> forall|k: int|
            0 <= k < segs.len() ==> #[trigger] is_grammar_segment(segs[k]),
    decreases segs.len(),
{
    if segs.len() > 0 {
        lemma_segment_error_none(segs[0]);
        lemma_first_segment_error_none(segs.drop_first());
        if first_segment_error(segs) is None {
            assert forall|k: int| 0 <= k < segs.len() implies #[trigger] is_grammar_segment(
                segs[k],
            ) by {
                if k > 0 {
                    assert(segs[k] == segs.drop_first()[k - 1]);
                }
            }
        }
        if forall|k: int| 0 <= k < segs.len() ==> #[trigger] is_grammar_segment(segs[k]) {
            assert(is_grammar_segment(segs[0]));
            assert forall|k: int| 0 <= k < segs.drop_first().len() implies #[trigger] is_grammar_segment(
                segs.drop_first()[k],
            ) by {
                assert(segs.drop_first()[k] == segs[k + 1]);
            }
        }
    }
}

/// The first character of `seg` that is not a segment character, if any.
fn find_non_segment_char(seg: &[char]) -> (r: Option<char>)
    ensures
        r is None <==> first_non_segment_char(seg@) == seg@.len(),
        r matches Some(c) ==> c == seg@[first_non_segment_char(seg@)],
{
    proof {
        lemma_first_non_segment_char(seg@);
    }
    let mut i: usize = 0;
    while i < seg.len()
        invariant
            i <= seg@.len(),
            0 <= first_non_segment_char(seg@) <= seg@.len(),
            forall|j: int| 0 <= j < i ==> is_segment_char(#[trigger] seg@[j]),
            forall|j: int| 0 <= j < first_non_segment_char(seg@) ==> is_segment_char(seg@[j]),
            first_non_segment_char(seg@) < seg@.len() ==> !is_segment_char(
                seg@[first_non_segment_char(seg@)],
            ),
        decreases seg@.len() - i,
    {
        let c = seg[i];
        if !(ascii_alnum(c) || c == '-' || c == '_') {
            assert(first_non_segment_char(seg@) == i);
            return Some(c);
        }
        i = i + 1;
    }
    None
}

fn contains_char(s: &[char], c: char) -> (r: bool)
    ensures
        r == s@.contains(c),
{
    let mut i: usize = 0;
    while i < s.len()
        invariant
            i <= s@.len(),
            forall|j: int| 0 <= j < i ==> s@[j] != c,
        decreases s@.len() - i,
    {
        if s[i] == c {
            return true;
        }
        i = i + 1;
    }
    false
}

fn contains_double_star(s: &[char]) -> (r: bool)
    ensures
        r == has_double_star(s@),
{
    let mut i: usize = 0;
    while i < s.len()
        invariant
            i <= s@.len(),
            forall|j: int| 0 <= j < i && j + 1 < s@.len() ==> !(#[trigger] s@[j] == '*' && s@[j + 1] == '*'),
        decreases s@.len() - i,
    {
        if i + 1 < s.len() && s[i] == '*' && s[i + 1] == '*' {
            return true;
        }
        i = i + 1;
    }
    false
}

/// Validate a capability string against the grammar.
///
/// Accepts exact identifiers (`system:shutdown`) and patterns (`self:*`,
/// `a:*:b`, `*`). Rejects empty input, input over [`MAX_CAPABILITY_LEN`]
/// bytes, the double glob, empty segments, characters outside
/// `[a-zA-Z0-9_-]`, and segments that mix `*` with other characters.
pub fn validate_capability(cap: &str) -> (r: Result<(), CapabilityGrammarError>)
    ensures
        match r {
            Ok(()) => validation_result(cap@) == Ok::<(), CapabilityErrorView>(()),
            Err(e) => validation_result(cap@) == Err::<(), CapabilityErrorView>(e@),
        },
        r is Ok <==> is_valid_capability(cap@),
{
    proof {
        lemma_first_segment_error_none(split_on(cap@, ':'));
    }
    if cap.is_empty() {
        return Err(CapabilityGrammarError::Empty);
    }
    let chars = str_to_chars(cap);
    if byte_len_exceeds(&chars, MAX_CAPABILITY_LEN) {
        return Err(CapabilityGrammarError::TooLong);
    }
    if contains_double_star(&chars) {
        return Err(CapabilityGrammarError::DoubleStar);
    }
    let segs = split_chars(&chars, ':');
    let ghost all = views(segs@);
    assert(all.skip(0) =~= all);
    proof {
        lemma_first_segment_error_none(all);
    }
    let mut k: usize = 0;
    while k < segs.len()
        invariant
            all == views(segs@),
            all == split_on(cap@, ':'),
            cap@.len() > 0,
            byte_len(cap@) <= MAX_CAPABILITY_LEN,
            !has_double_star(cap@),
            first_segment_error(all) is None <==> forall|j: int|
                0 <= j < all.len() ==> #[trigger] is_grammar_segment(all[j]),
            k <= segs@.len(),
            first_segment_error(all) == first_segment_error(all.skip(k as int)),
        decreases segs@.len() - k,
    {
        let seg = &segs[k];
        let ghost rest = all.skip(k as int);
        assert(rest.len() > 0);
        assert(rest[0] == seg@);
        assert(rest.drop_first() =~= all.skip(k + 1));
        if seg.len() == 0 {
            assert(segment_error(rest[0]) == Some(CapabilityErrorView::EmptySegment));
            assert(first_segment_error(rest) == Some(CapabilityErrorView::EmptySegment));
            return Err(CapabilityGrammarError::EmptySegment);
        }
        let is_star = seg.len() == 1 && seg[0] == '*';
        if is_star {
            assert(seg@ =~= seq!['*']);
        } else {
            proof {
                if seg@ == seq!['*'] {
                    assert(seg@[0] == '*');
                }
            }
            if contains_char(seg, '*') {
                let e = CapabilityGrammarError::PartialStar { segment: chars_to_string(seg) };
                assert(first_segment_error(rest) == Some(e@));
                return Err(e);
            }
            match find_non_segment_char(seg) {
                Some(bad) => {
                    proof {
                        lemma_first_non_segment_char(seg@);
                    }
                    assert(first_segment_error(rest) == Some(
                        CapabilityErrorView::InvalidCharacter { segment: seg@, bad },
                    ));
                    return Err(
                        CapabilityGrammarError::InvalidCharacter {
                            segment: chars_to_string(seg),
                            bad,
                        },
                    );
                },
                None => {},
            }
        }
        assert(segment_error(rest[0]) is None);
        k = k + 1;
    }
    assert(all.skip(k as int).len() == 0);
    assert(first_segment_error(all) is None);
    Ok(())
}

/// `pattern` matches `cap`, segment by segment: a trailing `*` absorbs one
/// or more remaining segments, a `*` elsewhere matches exactly one, other
/// segments match literally, and the segment counts must agree.
pub open spec fn segments_match(p: Seq<Seq<char>>, c: Seq<Seq<char>>) -> bool
    decreases p.len(),
{
    if p.len() == 0 {
        c.len() == 0
    } else if c.len() == 0 {
        false
    } else if p[0] == seq!['*'] && p.len() == 1 {
        true
    } else {
        (p[0] == seq!['*'] || p[0] == c[0]) && segments_match(p.drop_first(), c.drop_first())
    }
}

/// `pattern` matches the concrete capability `cap`.
pub open spec fn pattern_matches(pattern: Seq<char>, cap: Seq<char>) -> bool {
    pattern == seq!['*'] || segments_match(split_on(pattern, ':'), split_on(cap, ':'))
}

proof fn lemma_segments_match_self(p: Seq<Seq<char>>)
    ensures
        segments_match(p, p),
    decreases p.len(),
{
    if p.len() > 0 {
        lemma_segments_match_self(p.drop_first());
    }
}

/// The lone `*` matches every capability, and every capability matches
/// itself as a pattern.
pub proof fn law_capability_match_basics(cap: Seq<char>)
    ensures
        pattern_matches(seq!['*'], cap),
        pattern_matches(cap, cap),
{
    lemma_segments_match_self(split_on(cap, ':'));
}

/// A pattern ending in `:*` matches every capability that extends its
/// literal prefix by one or more segments.
pub proof fn law_trailing_star_matches_extensions(prefix: Seq<Seq<char>>, rest: Seq<Seq<char>>)
    requires
        rest.len() > 0,
        forall|i: int| 0 <= i < prefix.len() ==> prefix[i] != seq!['*'],
    ensures
        segments_match(prefix.push(seq!['*']), prefix + rest),
    decreases prefix.len(),
{
    if prefix.len() > 0 {
        let p2 = prefix.drop_first();
        assert forall|i: int| 0 <= i < p2.len() implies p2[i] != seq!['*'] by {
            assert(p2[i] == prefix[i + 1]);
        }
        law_trailing_star_matches_extensions(p2, rest);
        assert(prefix.push(seq!['*']).drop_first() =~= p2.push(seq!['*']));
        assert((prefix + rest).drop_first() =~= p2 + rest);
        assert(prefix.push(seq!['*'])[0] == prefix[0]);
        assert((prefix + rest)[0] == prefix[0]);
    } else {
        assert(prefix.push(seq!['*']) =~= seq![seq!['*']]);
        assert(prefix + rest =~= rest);
    }
}

/// The pieces joined again with `sep` between them.
pub open spec fn joined(ps: Seq<Seq<char>>, sep: char) -> Seq<char>
    decreases ps.len(),
{
    if ps.len() == 0 {
        Seq::empty()
    } else if ps.len() == 1 {
        ps[0]
    } else {
        ps[0] + seq![sep] + joined(ps.drop_first(), sep)
    }
}

proof fn lemma_split_acc_nonempty(s: Seq<char>, sep: char, cur: Seq<char>)
    ensures
        split_acc(s, sep, cur).len() > 0,
    decreases s.len(),
{
    if s.len() > 0 && s[0] != sep {
        lemma_split_acc_nonempty(s.drop_first(), sep, cur.push(s[0]));
    }
}

/// Splitting and joining again gives the text back.
proof fn lemma_split_joined(s: Seq<char>, sep: char, cur: Seq<char>)
    ensures
        joined(split_acc(s, sep, cur), sep) == cur + s,
    decreases s.len(),
{
    if s.len() == 0 {
        assert(cur + s =~= cur);
    } else if s[0] == sep {
        let rest = split_acc(s.drop_first(), sep, Seq::empty());
        lemma_split_acc_nonempty(s.drop_first(), sep, Seq::empty());
        lemma_split_joined(s.drop_first(), sep, Seq::empty());
        let all = seq![cur] + rest;
        assert(all.drop_first() =~= rest);
        assert(all[0] == cur);
        assert(Seq::<char>::empty() + s.drop_first() =~= s.drop_first());
        assert(cur + seq![sep] + s.drop_first() =~= cur + s);
    } else {
        lemma_split_joined(s.drop_first(), sep, cur.push(s[0]));
        assert(cur.push(s[0]) + s.drop_first() =~= cur + s);
    }
}

/// Segment `i` of the pattern allows segment `i` of the capability.
pub open spec fn segment_allows(p: Seq<Seq<char>>, c: Seq<Seq<char>>, i: int) -> bool {
    p[i] == seq!['*'] || p[i] == c[i]
}

/// How segment lists match, stated position by position: a pattern whose
/// last segment is `*` matches a capability with at least as many
/// segments whose earlier segments each agree with the pattern's; any
/// other pattern matches a capability with exactly as many segments, each
/// agreeing with the pattern's. A `*` segment agrees with any segment.
pub proof fn law_segments_match_positionally(p: Seq<Seq<char>>, c: Seq<Seq<char>>)
    ensures
        p.len() > 0 && p.last() == seq!['*'] ==> (segments_match(p, c) <==> (c.len() >= p.len() && forall|i: int|
            0 <= i < p.len() - 1 ==> #[trigger] segment_allows(p, c, i))),
        !(p.len() > 0 && p.last() == seq!['*']) ==> (segments_match(p, c) <==> (c.len() == p.len() && forall|i: int|
            0 <= i < p.len() ==> #[trigger] segment_allows(p, c, i))),
    decreases p.len(),
{
    if p.len() == 0 || c.len() == 0 {
    } else if p[0] == seq!['*'] && p.len() == 1 {
    } else {
        let p2 = p.drop_first();
        let c2 = c.drop_first();
        law_segments_match_positionally(p2, c2);
        assert forall|i: int| 0 <= i < p2.len() && i < c2.len() implies #[trigger] segment_allows(p2, c2, i)
            == segment_allows(p, c, i + 1) by {
            assert(p2[i] == p[i + 1]);
            assert(c2[i] == c[i + 1]);
        }
        if p.len() >= 2 {
            assert(p2.last() == p.last());
        }
        let last_star = p.len() > 0 && p.last() == seq!['*'];
        let m = if last_star {
            p.len() - 1
        } else {
            p.len() as int
        };
        if segments_match(p, c) {
            assert forall|i: int| 0 <= i < m implies #[trigger] segment_allows(p, c, i) by {
                if i > 0 {
                    assert(segment_allows(p2, c2, i - 1));
                }
            }
        } else {
            if segment_allows(p, c, 0) && (if last_star {
                c.len() >= p.len()
            } else {
                c.len() == p.len()
            }) && (forall|i: int| 0 <= i < m ==> #[trigger] segment_allows(p, c, i)) {
                assert forall|i: int| 0 <= i < m - 1 implies #[trigger] segment_allows(p2, c2, i) by {
                    assert(segment_allows(p, c, i + 1));
                }
                assert(false);
            }
        }
    }
}

/// A pattern with no `*` segment is an exact capability: it matches a
/// capability only when the two are the same text, and then it does.
pub proof fn law_literal_pattern_matches_only_itself(pattern: Seq<char>, cap: Seq<char>)
    requires
        forall|i: int|
            0 <= i < split_on(pattern, ':').len() ==> #[trigger] split_on(pattern, ':')[i] != seq!['*'],
    ensures
        pattern_matches(pattern, cap) <==> pattern == cap,
{
    let p = split_on(pattern, ':');
    let c = split_on(cap, ':');
    lemma_split_acc_nonempty(pattern, ':', Seq::empty());
    lemma_split_joined(pattern, ':', Seq::empty());
    lemma_split_joined(cap, ':', Seq::empty());
    assert(Seq::<char>::empty() + pattern =~= pattern);
    assert(Seq::<char>::empty() + cap =~= cap);
    if pattern == seq!['*'] {
        assert(p =~= seq![seq!['*']]) by {
            assert(pattern.drop_first() =~= Seq::<char>::empty());
            assert(Seq::<char>::empty().push('*') =~= seq!['*']);
        }
        assert(p[0] != seq!['*']);
    }
    law_segments_match_positionally(p, c);
    assert(p[p.len() - 1] != seq!['*']);
    if segments_match(p, c) {
        assert forall|i: int| 0 <= i < p.len() implies p[i] == c[i] by {
            assert(segment_allows(p, c, i));
        }
        assert(p =~= c);
    }
    if pattern == cap {
        law_capability_match_basics(cap);
    }
}

/// A pattern ending in `:*` matches exactly the capabilities that extend
/// its other segments by one or more segments, when those segments are
/// literal.
pub proof fn law_trailing_star_matches_only_extensions(prefix: Seq<Seq<char>>, c: Seq<Seq<char>>)
    requires
        forall|i: int| 0 <= i < prefix.len() ==> #[trigger] prefix[i] != seq!['*'],
    ensures
        segments_match(prefix.push(seq!['*']), c) <==> (c.len() > prefix.len() && c.take(prefix.len() as int)
            == prefix),
{
    let p = prefix.push(seq!['*']);
    law_segments_match_positionally(p, c);
    assert(p.last() == seq!['*']);
    if segments_match(p, c) {
        assert forall|i: int| 0 <= i < prefix.len() implies c.take(prefix.len() as int)[i] == prefix[i] by {
            assert(segment_allows(p, c, i));
            assert(p[i] == prefix[i]);
        }
        assert(c.take(prefix.len() as int) =~= prefix);
    }
    if c.len() > prefix.len() && c.take(prefix.len() as int) == prefix {
        assert forall|i: int| 0 <= i < p.len() - 1 implies #[trigger] segment_allows(p, c, i) by {
            assert(p[i] == prefix[i]);
            assert(c.take(prefix.len() as int)[i] == c[i]);
        }
    }
}

/// Test whether a capability `pattern` matches the concrete capability `cap`.
///
/// - `*` alone matches any capability.
/// - A trailing `*` segment (`self:*`) matches one or more remaining
///   segments (`self:capsule:install`).
/// - A `*` segment elsewhere matches exactly one segment.
/// - Otherwise segments must match literally and the segment counts must
///   agree.
pub fn capability_matches(pattern: &str, cap: &str) -> (r: bool)
    ensures
        r == pattern_matches(pattern@, cap@),
{
    let pc = str_to_chars(pattern);
    if pc.len() == 1 && pc[0] == '*' {
        assert(pc@ =~= seq!['*']);
        assert(pattern@ == seq!['*']);
        return true;
    }
    proof {
        if pattern@ == seq!['*'] {
            assert(pc@[0] == '*');
        }
    }
    let ps = split_chars(&pc, ':');
    let cs = split_chars(&str_to_chars(cap), ':');
    let ghost pv = views(ps@);
    let ghost cv = views(cs@);
    assert(pv.skip(0) =~= pv);
    assert(cv.skip(0) =~= cv);
    let mut i: usize = 0;
    while i < ps.len() && i < cs.len()
        invariant
            pv == views(ps@),
            cv == views(cs@),
            pv == split_on(pattern@, ':'),
            cv == split_on(cap@, ':'),
            pattern@ != seq!['*'],
            i <= ps@.len(),
            i <= cs@.len(),
            segments_match(pv, cv) == segments_match(pv.skip(i as int), cv.skip(i as int)),
        decreases ps@.len() - i,
    {
        let ghost p = pv.skip(i as int);
        let ghost c = cv.skip(i as int);
        assert(p[0] == ps@[i as int]@);
        assert(c[0] == cs@[i as int]@);
        assert(p.drop_first() =~= pv.skip(i + 1));
        assert(c.drop_first() =~= cv.skip(i + 1));
        let seg = &ps[i];
        let star = seg.len() == 1 && seg[0] == '*';
        if star {
            assert(seg@ =~= seq!['*']);
            if i + 1 == ps.len() {
                assert(p.len() == 1 && c.len() > 0);
                assert(p[0] == seq!['*']);
                return true;
            }
        } else {
            proof {
                if seg@ == seq!['*'] {
                    assert(seg@[0] == '*');
                }
            }
            if !chars_eq(seg, &cs[i]) {
                assert(p[0] != seq!['*']);
                assert(p[0] != c[0]);
                assert(!segments_match(p, c));
                return false;
            }
        }
        i = i + 1;
    }
    i == ps.len() && i == cs.len()
}

} // verus!
