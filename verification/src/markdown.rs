//! The light markdown of assistant answers, line by line: headings, list
//! items, `**bold**` and `` `code` ``. A line becomes styled spans; the
//! terminal UI colours each style from its theme.

use vstd::prelude::*;
use crate::text::{is_prefix, is_unicode_whitespace, leading_ws, lemma_leading_ws, unicode_whitespace};

verus! {

/// How a span is shown.
#[derive(Debug, Clone, Copy, PartialEq, Eq, Structural)]
pub enum SpanStyle {
    /// A heading: bold, in the user's colour.
    Heading,
    /// A list marker, in the tool colour.
    Marker,
    /// Plain answer text.
    Text,
    /// Bold answer text.
    Bold,
    /// Inline code, in the tool colour.
    Code,
}

/// A piece of text and its style.
#[derive(Debug, PartialEq, Eq)]
pub struct StyledSpan {
    /// How it is shown.
    pub style: SpanStyle,
    /// The text.
    pub text: String,
}

/// Spans as values.
pub open spec fn spans_view(v: Seq<StyledSpan>) -> Seq<(SpanStyle, Seq<char>)> {
    v.map_values(|s: StyledSpan| (s.style, s.text@))
}

/// Where the inline parser is: in plain text, inside `**`, or inside
/// backticks.
#[derive(Debug, Clone, Copy, PartialEq, Eq, Structural)]
pub enum InlineMode {
    Plain,
    InBold,
    InCode,
}

/// `**` starts `s`.
pub open spec fn starts_double_star(s: Seq<char>) -> bool {
    s.len() >= 2 && s[0] == '*' && s[1] == '*'
}

/// The pending plain text as a span, if there is any.
pub open spec fn flush(cur: Seq<char>) -> Seq<(SpanStyle, Seq<char>)> {
    if cur.len() > 0 {
        seq![(SpanStyle::Text, cur)]
    } else {
        Seq::empty()
    }
}

/// The spans of `s`, read in `mode` with `cur` gathered so far. In plain
/// text, `**` opens bold and a backtick opens code, closing the plain
/// text gathered so far; inside bold, `**` closes it, and inside code a
/// backtick does. Bold and code are kept even when empty or left open at
/// the end.
pub open spec fn inline_parse(s: Seq<char>, mode: InlineMode, cur: Seq<char>) -> Seq<(SpanStyle, Seq<char>)>
    decreases s.len(),
{
    if s.len() == 0 {
        match mode {
            InlineMode::Plain => flush(cur),
            InlineMode::InBold => seq![(SpanStyle::Bold, cur)],
            InlineMode::InCode => seq![(SpanStyle::Code, cur)],
        }
    } else {
        match mode {
            InlineMode::Plain => if starts_double_star(s) {
                flush(cur) + inline_parse(s.skip(2), InlineMode::InBold, Seq::empty())
            } else if s[0] == '`' {
                flush(cur) + inline_parse(s.skip(1), InlineMode::InCode, Seq::empty())
            } else {
                inline_parse(s.skip(1), InlineMode::Plain, cur.push(s[0]))
            },
            InlineMode::InBold => if starts_double_star(s) {
                seq![(SpanStyle::Bold, cur)] + inline_parse(s.skip(2), InlineMode::Plain, Seq::empty())
            } else {
                inline_parse(s.skip(1), InlineMode::InBold, cur.push(s[0]))
            },
            InlineMode::InCode => if s[0] == '`' {
                seq![(SpanStyle::Code, cur)] + inline_parse(s.skip(1), InlineMode::Plain, Seq::empty())
            } else {
                inline_parse(s.skip(1), InlineMode::InCode, cur.push(s[0]))
            },
        }
    }
}

/// The inline spans of `s`; an empty line is one empty plain span.
pub open spec fn inline_spans(s: Seq<char>) -> Seq<(SpanStyle, Seq<char>)> {
    let r = inline_parse(s, InlineMode::Plain, Seq::empty());
    if r.len() == 0 {
        seq![(SpanStyle::Text, s)]
    } else {
        r
    }
}

/// Parse inline markdown: `**bold**` and `` `code` `` in plain text.
pub fn parse_inline_markdown(text: &str) -> (r: Vec<StyledSpan>)
    ensures
        spans_view(r@) == inline_spans(text@),
{
    let n = text.unicode_len();
    let mut out: Vec<StyledSpan> = Vec::new();
    let mut cur = String::new();
    let mut mode = InlineMode::Plain;
    let mut i: usize = 0;
    let ghost s = text@;
    assert(s.skip(0) =~= s);
    while i < n
        invariant
            n == s.len(),
            s == text@,
            i <= n,
            spans_view(out@) + inline_parse(s.skip(i as int), mode, cur@) == inline_parse(s, InlineMode::Plain, Seq::empty()),
        decreases n - i,
    {
        let c = text.get_char(i);
        let pair = c == '*' && i + 1 < n && text.get_char(i + 1) == '*';
        let ghost rest = s.skip(i as int);
        let ghost before = spans_view(out@);
        proof {
            assert(rest[0] == c);
            assert(pair == starts_double_star(rest)) by {
                if i + 1 < n {
                    assert(rest[1] == s[i + 1]);
                }
            }
            assert(rest.skip(1) =~= s.skip(i + 1));
            if i + 1 < n {
                assert(rest.skip(2) =~= s.skip(i + 2));
            }
        }
        match mode {
            InlineMode::Plain => {
                if pair || c == '`' {
                    if cur.unicode_len() > 0 {
                        out.push(StyledSpan { style: SpanStyle::Text, text: cur });
                    }
                    proof {
                        assert(spans_view(out@) =~= before + flush(cur@));
                    }
                    cur = String::new();
                    if pair {
                        mode = InlineMode::InBold;
                        i = i + 2;
                    } else {
                        mode = InlineMode::InCode;
                        i = i + 1;
                    }
                } else {
                    cur.push(c);
                    i = i + 1;
                }
            },
            InlineMode::InBold => {
                if pair {
                    out.push(StyledSpan { style: SpanStyle::Bold, text: cur });
                    proof {
                        assert(spans_view(out@) =~= before.push((SpanStyle::Bold, cur@)));
                    }
                    cur = String::new();
                    mode = InlineMode::Plain;
                    i = i + 2;
                } else {
                    cur.push(c);
                    i = i + 1;
                }
            },
            InlineMode::InCode => {
                if c == '`' {
                    out.push(StyledSpan { style: SpanStyle::Code, text: cur });
                    proof {
                        assert(spans_view(out@) =~= before.push((SpanStyle::Code, cur@)));
                    }
                    cur = String::new();
                    mode = InlineMode::Plain;
                    i = i + 1;
                } else {
                    cur.push(c);
                    i = i + 1;
                }
            },
        }
    }
    proof {
        assert(s.skip(i as int) =~= Seq::<char>::empty());
    }
    let ghost before = spans_view(out@);
    match mode {
        InlineMode::Plain => {
            if cur.unicode_len() > 0 {
                out.push(StyledSpan { style: SpanStyle::Text, text: cur });
            }
        },
        InlineMode::InBold => {
            out.push(StyledSpan { style: SpanStyle::Bold, text: cur });
        },
        InlineMode::InCode => {
            out.push(StyledSpan { style: SpanStyle::Code, text: cur });
        },
    }
    proof {
        assert(spans_view(out@) =~= inline_parse(s, InlineMode::Plain, Seq::empty()));
    }
    if out.len() == 0 {
        out.push(StyledSpan { style: SpanStyle::Text, text: String::from_str(text) });
        assert(spans_view(out@) =~= seq![(SpanStyle::Text, s)]);
    }
    out
}

/// The list marker shown for a bullet: the indent, two spaces, a bullet
/// and a space.
pub open spec fn bullet_marker(indent: Seq<char>) -> Seq<char> {
    indent + seq![' ', ' ', '\u{2022}', ' ']
}

/// An ASCII digit.
pub open spec fn is_ascii_digit(c: char) -> bool {
    '0' <= c && c <= '9'
}

/// The spans of a markdown line. After the leading whitespace, `# `,
/// `## ` or `### ` makes the rest a heading; `- ` or `* ` makes a bullet
/// item and a digit with `. ` a numbered item, whose marker keeps the
/// indent and whose rest is parsed inline; any other line is parsed
/// inline as a whole.
pub open spec fn line_spans(line: Seq<char>) -> Seq<(SpanStyle, Seq<char>)> {
    let k = leading_ws(line) as int;
    let indent = line.take(k);
    let t = line.skip(k);
    if is_prefix(seq!['#', '#', '#', ' '], t) {
        seq![(SpanStyle::Heading, t.skip(4))]
    } else if is_prefix(seq!['#', '#', ' '], t) {
        seq![(SpanStyle::Heading, t.skip(3))]
    } else if is_prefix(seq!['#', ' '], t) {
        seq![(SpanStyle::Heading, t.skip(2))]
    } else if is_prefix(seq!['-', ' '], t) || is_prefix(seq!['*', ' '], t) {
        seq![(SpanStyle::Marker, bullet_marker(indent))] + inline_spans(t.skip(2))
    } else if t.len() >= 3 && is_ascii_digit(t[0]) && t[1] == '.' && t[2] == ' ' {
        seq![(SpanStyle::Marker, indent + seq![t[0], '.', ' '])] + inline_spans(t.skip(3))
    } else {
        inline_spans(line)
    }
}

proof fn lemma_leading_ws_prefix(s: Seq<char>, i: int)
    requires
        0 <= i <= s.len(),
        forall|j: int| 0 <= j < i ==> is_unicode_whitespace(#[trigger] s[j]),
    ensures
        leading_ws(s) == i + leading_ws(s.skip(i)),
    decreases i,
{
    if i > 0 {
        assert(is_unicode_whitespace(s[0]));
        assert(s.drop_first().skip(i - 1) =~= s.skip(i));
        assert forall|j: int| 0 <= j < i - 1 implies is_unicode_whitespace(#[trigger] s.drop_first()[j]) by {
            assert(s.drop_first()[j] == s[j + 1]);
        }
        lemma_leading_ws_prefix(s.drop_first(), i - 1);
    } else {
        assert(s.skip(0) =~= s);
    }
}

/// The characters of `s` from `from` to `to`, as a string.
fn slice_text(s: &str, from: usize, to: usize) -> (r: String)
    requires
        from <= to <= s@.len(),
    ensures
        r@ == s@.subrange(from as int, to as int),
{
    let mut r = String::new();
    let mut i = from;
    while i < to
        invariant
            from <= i <= to,
            to <= s@.len(),
            r@ == s@.subrange(from as int, i as int),
        decreases to - i,
    {
        r.push(s.get_char(i));
        i = i + 1;
        assert(r@ =~= s@.subrange(from as int, i as int));
    }
    r
}

/// Whether `p` starts `s` at position `at`.
fn has_at(s: &str, at: usize, p: &str) -> (r: bool)
    requires
        at <= s@.len(),
    ensures
        r == is_prefix(p@, s@.skip(at as int)),
{
    let n = s.unicode_len();
    let m = p.unicode_len();
    if m > n - at {
        return false;
    }
    let mut j: usize = 0;
    while j < m
        invariant
            n == s@.len(),
            m == p@.len(),
            at + m <= n,
            j <= m,
            forall|q: int| 0 <= q < j ==> s@[at + q] == p@[q],
        decreases m - j,
    {
        if s.get_char(at + j) != p.get_char(j) {
            assert(s@.skip(at as int).subrange(0, m as int)[j as int] == s@[at + j]);
            return false;
        }
        j = j + 1;
    }
    assert(s@.skip(at as int).subrange(0, m as int) =~= p@);
    true
}

/// Convert a line of markdown to styled spans; see [`line_spans`].
pub fn markdown_to_spans(line: &str) -> (r: Vec<StyledSpan>)
    ensures
        spans_view(r@) == line_spans(line@),
{
    proof {
        reveal_strlit("### ");
        reveal_strlit("## ");
        reveal_strlit("# ");
        reveal_strlit("- ");
        reveal_strlit("* ");
        reveal_strlit(". ");
    }
    let n = line.unicode_len();
    let mut k: usize = 0;
    while k < n && unicode_whitespace(line.get_char(k))
        invariant
            n == line@.len(),
            k <= n,
            forall|j: int| 0 <= j < k ==> is_unicode_whitespace(#[trigger] line@[j]),
        decreases n - k,
    {
        k = k + 1;
    }
    proof {
        lemma_leading_ws_prefix(line@, k as int);
        lemma_leading_ws(line@.skip(k as int));
        if k < n {
            assert(line@.skip(k as int)[0] == line@[k as int]);
        }
    }
    let ghost t = line@.skip(k as int);
    assert("### "@ =~= seq!['#', '#', '#', ' ']);
    assert("## "@ =~= seq!['#', '#', ' ']);
    assert("# "@ =~= seq!['#', ' ']);
    assert("- "@ =~= seq!['-', ' ']);
    assert("* "@ =~= seq!['*', ' ']);
    let mut out: Vec<StyledSpan> = Vec::new();
    if has_at(line, k, "### ") {
        out.push(StyledSpan { style: SpanStyle::Heading, text: slice_text(line, k + 4, n) });
        assert(t.skip(4) =~= line@.subrange(k + 4, n as int));
        assert(spans_view(out@) =~= line_spans(line@));
        return out;
    }
    if has_at(line, k, "## ") {
        out.push(StyledSpan { style: SpanStyle::Heading, text: slice_text(line, k + 3, n) });
        assert(t.skip(3) =~= line@.subrange(k + 3, n as int));
        assert(spans_view(out@) =~= line_spans(line@));
        return out;
    }
    if has_at(line, k, "# ") {
        out.push(StyledSpan { style: SpanStyle::Heading, text: slice_text(line, k + 2, n) });
        assert(t.skip(2) =~= line@.subrange(k + 2, n as int));
        assert(spans_view(out@) =~= line_spans(line@));
        return out;
    }
    if has_at(line, k, "- ") || has_at(line, k, "* ") {
        let mut marker = slice_text(line, 0, k);
        marker.push(' ');
        marker.push(' ');
        marker.push('\u{2022}');
        marker.push(' ');
        assert(marker@ =~= bullet_marker(line@.take(k as int)));
        out.push(StyledSpan { style: SpanStyle::Marker, text: marker });
        let rest = slice_text(line, k + 2, n);
        let inner = parse_inline_markdown(rest.as_str());
        let ghost head = spans_view(out@);
        proof {
            assert(line@.take(k as int) =~= line@.subrange(0, k as int));
            assert(t.skip(2) =~= line@.subrange(k + 2, n as int));
            assert(head =~= seq![(SpanStyle::Marker, bullet_marker(line@.take(k as int)))]);
        }
        let mut j: usize = 0;
        while j < inner.len()
            invariant
                j <= inner@.len(),
                spans_view(out@) == head + spans_view(inner@).take(j as int),
            decreases inner@.len() - j,
        {
            let sp = &inner[j];
            let ghost prev = spans_view(out@);
            out.push(StyledSpan { style: sp.style, text: sp.text.clone() });
            proof {
                assert(spans_view(out@) =~= prev.push(spans_view(inner@)[j as int]));
                assert(spans_view(inner@).take(j + 1) =~= spans_view(inner@).take(j as int).push(
                    spans_view(inner@)[j as int],
                ));
            }
            j = j + 1;
        }
        assert(spans_view(inner@).take(j as int) =~= spans_view(inner@));
        return out;
    }
    if n - k >= 3 && '0' <= line.get_char(k) && line.get_char(k) <= '9' && line.get_char(k + 1) == '.'
        && line.get_char(k + 2) == ' ' {
        let d = line.get_char(k);
        let mut marker = slice_text(line, 0, k);
        marker.push(d);
        marker.push('.');
        marker.push(' ');
        assert(t[0] == d);
        assert(marker@ =~= line@.take(k as int) + seq![t[0], '.', ' ']);
        out.push(StyledSpan { style: SpanStyle::Marker, text: marker });
        let rest = slice_text(line, k + 3, n);
        let inner = parse_inline_markdown(rest.as_str());
        let ghost head = spans_view(out@);
        proof {
            assert(t[0] == d && t[1] == line@[k + 1] && t[2] == line@[k + 2]);
            assert(line@.take(k as int) =~= line@.subrange(0, k as int));
            assert(t.skip(3) =~= line@.subrange(k + 3, n as int));
            assert(head =~= seq![(SpanStyle::Marker, line@.take(k as int) + seq![t[0], '.', ' '])]);
        }
        let mut j: usize = 0;
        while j < inner.len()
            invariant
                j <= inner@.len(),
                spans_view(out@) == head + spans_view(inner@).take(j as int),
            decreases inner@.len() - j,
        {
            let sp = &inner[j];
            let ghost prev = spans_view(out@);
            out.push(StyledSpan { style: sp.style, text: sp.text.clone() });
            proof {
                assert(spans_view(out@) =~= prev.push(spans_view(inner@)[j as int]));
                assert(spans_view(inner@).take(j + 1) =~= spans_view(inner@).take(j as int).push(
                    spans_view(inner@)[j as int],
                ));
            }
            j = j + 1;
        }
        assert(spans_view(inner@).take(j as int) =~= spans_view(inner@));
        return out;
    }
    proof {
        if t.len() >= 3 {
            assert(t[0] == line@[k as int] && t[1] == line@[k + 1] && t[2] == line@[k + 2]);
        }
    }
    parse_inline_markdown(line)
}

} // verus!
