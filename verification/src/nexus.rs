//! The lines of the conversation stream: the user's messages after a `> `
//! marker, the assistant's answers word-wrapped and in light markdown with
//! blank runs collapsed, diffs with their gutter, the interface's own
//! notes, and a place for each finished tool's summary. Each line carries
//! the index of the message it shows, for copy mode.

use vstd::prelude::*;
use crate::markdown::{line_spans, markdown_to_spans, SpanStyle, StyledSpan};
use crate::mode_keys::{CopyMode, MessageKind, MessageRole, TimelineMessage};
use crate::render_text::{string_views, word_wrap_line, wrap_spec};
use crate::text::{cat, split_chars, split_on, str_to_chars, trim_chars, trim_seq, views};

verus! {

/// A message of the stream and whether a blank line follows it.
#[derive(Debug)]
pub struct NexusEntry {
    pub message: TimelineMessage,
    pub spacing: bool,
}

/// How a piece of a stream line is shown.
#[derive(Debug, Clone, Copy, PartialEq, Eq, Structural)]
pub enum NexusRole {
    /// The `> ` before a user message, bold in the tool colour.
    Marker,
    /// User text, in the user colour.
    User,
    /// The `⏺ ` before an answer, white.
    Bullet,
    /// Indentation, unstyled.
    Indent,
    /// Answer text in a markdown style.
    Styled(SpanStyle),
    /// A diff's first or last line, in the context colour.
    DiffContext,
    /// A removed diff line.
    DiffRemoved,
    /// An added diff line.
    DiffAdded,
}

#[derive(Debug)]
pub struct NexusSpan {
    pub role: NexusRole,
    pub text: String,
}

/// What a line holds.
#[derive(Debug)]
pub enum LineContent {
    Spans(Vec<NexusSpan>),
    /// The summary of the finished tool at this position, drawn by the
    /// caller.
    Tool(usize),
}

/// A line of the stream and the message it belongs to (none for spacing).
#[derive(Debug)]
pub struct NexusLine {
    pub entry: Option<usize>,
    pub content: LineContent,
}

pub ghost enum LineView {
    Spans(Seq<(NexusRole, Seq<char>)>),
    Tool(nat),
}

pub open spec fn span_views(v: Seq<NexusSpan>) -> Seq<(NexusRole, Seq<char>)> {
    v.map_values(|s: NexusSpan| (s.role, s.text@))
}

pub open spec fn content_view(c: LineContent) -> LineView {
    match c {
        LineContent::Spans(v) => LineView::Spans(span_views(v@)),
        LineContent::Tool(i) => LineView::Tool(i as nat),
    }
}

pub open spec fn contents_view(v: Seq<LineContent>) -> Seq<LineView> {
    v.map_values(|c: LineContent| content_view(c))
}

pub open spec fn lines_view(v: Seq<NexusLine>) -> Seq<(Option<usize>, LineView)> {
    v.map_values(|l: NexusLine| (l.entry, content_view(l.content)))
}

/// A line without its `\r` before the `\n`.
pub open spec fn strip_cr(p: Seq<char>) -> Seq<char> {
    if p.len() > 0 && p.last() == '\r' {
        p.drop_last()
    } else {
        p
    }
}

/// The lines of `s`, as `str::lines` gives them: split at `\n`, a `\r`
/// before it dropped, no line after a final `\n`.
pub open spec fn text_lines(s: Seq<char>) -> Seq<Seq<char>> {
    let parts = split_on(s, '\n');
    let n = if parts.len() > 0 && parts.last().len() == 0 {
        parts.len() - 1
    } else {
        parts.len() as int
    };
    Seq::new(
        n as nat,
        |i: int|
            if i < parts.len() - 1 {
                strip_cr(parts[i])
            } else {
                parts[i]
            },
    )
}

/// Markdown spans as stream pieces.
pub open spec fn md(sub: Seq<char>) -> Seq<(NexusRole, Seq<char>)> {
    line_spans(sub).map_values(|p: (SpanStyle, Seq<char>)| (NexusRole::Styled(p.0), p.1))
}

/// The wrapped pieces of one answer line, the first after the bullet when
/// it opens the answer.
pub open spec fn answer_subs(subs: Seq<Seq<char>>, first: bool) -> Seq<LineView> {
    Seq::new(
        subs.len(),
        |j: int|
            LineView::Spans(
                if j == 0 && first {
                    seq![(NexusRole::Bullet, "\u{23fa} "@)]
                } else {
                    seq![(NexusRole::Indent, "  "@)]
                } + md(subs[j]),
            ),
    )
}

/// The lines of an answer's remaining lines `ls`: runs of blank lines
/// shown as one empty line, the others word-wrapped to `w`.
pub open spec fn answer_lines(ls: Seq<Seq<char>>, w: int, prev_blank: bool, first: bool) -> Seq<LineView>
    decreases ls.len(),
{
    if ls.len() == 0 {
        Seq::empty()
    } else {
        let blank = trim_seq(ls[0]).len() == 0;
        if blank && prev_blank {
            answer_lines(ls.drop_first(), w, true, first)
        } else if blank {
            seq![LineView::Spans(Seq::empty())] + answer_lines(ls.drop_first(), w, true, false)
        } else {
            answer_subs(wrap_spec(ls[0], w), first) + answer_lines(ls.drop_first(), w, false, false)
        }
    }
}

/// The interface's own note lines, word-wrapped and indented.
pub open spec fn note_lines(ls: Seq<Seq<char>>, w: int) -> Seq<LineView>
    decreases ls.len(),
{
    if ls.len() == 0 {
        Seq::empty()
    } else {
        answer_subs(wrap_spec(ls[0], w), false) + note_lines(ls.drop_first(), w)
    }
}

pub open spec fn diff_role(k: MessageKind) -> NexusRole {
    match k {
        MessageKind::DiffRemoved => NexusRole::DiffRemoved,
        MessageKind::DiffAdded => NexusRole::DiffAdded,
        _ => NexusRole::DiffContext,
    }
}

/// The lines of one message, for a stream `width` columns wide.
pub open spec fn message_lines(m: TimelineMessage, width: int) -> Seq<LineView> {
    let ls = text_lines(m.content@);
    let w = if width >= 2 {
        width - 2
    } else {
        0
    };
    match m.kind {
        Some(MessageKind::ToolResult(i)) => seq![LineView::Tool(i as nat)],
        _ => match m.role {
            MessageRole::User => Seq::new(
                ls.len(),
                |i: int|
                    LineView::Spans(
                        if i == 0 {
                            seq![(NexusRole::Marker, "> "@), (NexusRole::User, ls[0])]
                        } else {
                            seq![(NexusRole::User, "  "@ + ls[i])]
                        },
                    ),
            ),
            MessageRole::Assistant => answer_lines(ls, w, false, true),
            MessageRole::LocalUi => match m.kind {
                Some(k) => Seq::new(
                    ls.len(),
                    |i: int| LineView::Spans(seq![(diff_role(k), "  \u{23bf}  "@ + ls[i])]),
                ),
                None => note_lines(ls, w),
            },
        },
    }
}

pub open spec fn tagged(v: Seq<LineView>, k: int) -> Seq<(Option<usize>, LineView)> {
    v.map_values(|l: LineView| (Some(k as usize), l))
}

/// The lines of the first `n` entries.
pub open spec fn stream_lines(entries: Seq<NexusEntry>, n: int, width: int) -> Seq<(Option<usize>, LineView)>
    decreases n,
{
    if n <= 0 {
        Seq::empty()
    } else {
        let e = entries[n - 1];
        stream_lines(entries, n - 1, width) + tagged(message_lines(e.message, width), n - 1) + if e.spacing {
            seq![(None::<usize>, LineView::Spans(Seq::empty()))]
        } else {
            Seq::empty()
        }
    }
}

fn text_lines_exec(s: &str) -> (r: Vec<Vec<char>>)
    ensures
        views(r@) == text_lines(s@),
{
    let chars = str_to_chars(s);
    let parts = split_chars(&chars, '\n');
    let ghost ps = views(parts@);
    let n = if parts.len() > 0 && parts[parts.len() - 1].len() == 0 {
        parts.len() - 1
    } else {
        parts.len()
    };
    let mut r: Vec<Vec<char>> = Vec::new();
    let mut i: usize = 0;
    while i < n
        invariant
            i <= n,
            n <= parts@.len(),
            ps == views(parts@),
            ps == split_on(chars@, '\n'),
            chars@ == s@,
            n == (if ps.len() > 0 && ps.last().len() == 0 {
                ps.len() - 1
            } else {
                ps.len() as int
            }),
            views(r@) == text_lines(s@).take(i as int),
        decreases n - i,
    {
        let p = &parts[i];
        let mut q: Vec<char> = p.clone();
        assert(q@ == ps[i as int]);
        if i + 1 < parts.len() && q.len() > 0 && q[q.len() - 1] == '\r' {
            q.pop();
        }
        let ghost before = views(r@);
        r.push(q);
        assert(views(r@) =~= before.push(text_lines(s@)[i as int]));
        i = i + 1;
        assert(views(r@) =~= text_lines(s@).take(i as int));
    }
    assert(text_lines(s@).take(i as int) =~= text_lines(s@));
    r
}

fn chars_str(v: &Vec<char>) -> (r: String)
    ensures
        r@ == v@,
{
    crate::text::chars_to_string(v.as_slice())
}

fn nspan(role: NexusRole, text: String) -> (r: NexusSpan)
    ensures
        r.role == role,
        r.text@ == text@,
{
    NexusSpan { role, text }
}

/// Push the markdown spans of `sub`.
fn push_md(spans: &mut Vec<NexusSpan>, sub: &str)
    ensures
        span_views(final(spans)@) == span_views(old(spans)@) + md(sub@),
{
    let parts: Vec<StyledSpan> = markdown_to_spans(sub);
    let ghost s0 = span_views(spans@);
    let mut i: usize = 0;
    while i < parts.len()
        invariant
            i <= parts@.len(),
            crate::markdown::spans_view(parts@) == line_spans(sub@),
            span_views(spans@) == s0 + md(sub@).take(i as int),
        decreases parts@.len() - i,
    {
        let ghost before = span_views(spans@);
        assert(line_spans(sub@)[i as int] == (parts@[i as int].style, parts@[i as int].text@));
        assert(md(sub@)[i as int] == (NexusRole::Styled(parts@[i as int].style), parts@[i as int].text@));
        let sp = nspan(NexusRole::Styled(parts[i].style), parts[i].text.clone());
        assert((sp.role, sp.text@) == md(sub@)[i as int]);
        spans.push(sp);
        assert(span_views(spans@) =~= before.push(md(sub@)[i as int]));
        assert(md(sub@).take(i + 1) =~= md(sub@).take(i as int).push(md(sub@)[i as int]));
        i = i + 1;
        assert(span_views(spans@) =~= s0 + md(sub@).take(i as int));
    }
    assert(md(sub@).take(i as int) =~= md(sub@));
}

/// Push the wrapped pieces of one answer or note line.
fn push_subs(out: &mut Vec<LineContent>, line: &Vec<char>, w: usize, first: bool)
    ensures
        contents_view(final(out)@) == contents_view(old(out)@) + answer_subs(wrap_spec(line@, w as int), first),
{
    let text = chars_str(line);
    let subs = word_wrap_line(text.as_str(), w);
    let ghost want = answer_subs(wrap_spec(line@, w as int), first);
    let ghost c0 = contents_view(out@);
    let mut j: usize = 0;
    while j < subs.len()
        invariant
            j <= subs@.len(),
            string_views(subs@) == wrap_spec(line@, w as int),
            want == answer_subs(wrap_spec(line@, w as int), first),
            contents_view(out@) == c0 + want.take(j as int),
        decreases subs@.len() - j,
    {
        let mut spans: Vec<NexusSpan> = Vec::new();
        if j == 0 && first {
            spans.push(nspan(NexusRole::Bullet, String::from_str("\u{23fa} ")));
        } else {
            spans.push(nspan(NexusRole::Indent, String::from_str("  ")));
        }
        let ghost head = span_views(spans@);
        assert(head =~= if j == 0 && first {
            seq![(NexusRole::Bullet, "\u{23fa} "@)]
        } else {
            seq![(NexusRole::Indent, "  "@)]
        });
        push_md(&mut spans, subs[j].as_str());
        assert(subs@[j as int]@ == wrap_spec(line@, w as int)[j as int]);
        assert(LineView::Spans(span_views(spans@)) == want[j as int]);
        let ghost before = contents_view(out@);
        out.push(LineContent::Spans(spans));
        assert(contents_view(out@) =~= before.push(want[j as int]));
        j = j + 1;
        assert(contents_view(out@) =~= c0 + want.take(j as int));
    }
    assert(want.take(j as int) =~= want);
}

fn is_blank(line: &Vec<char>) -> (r: bool)
    ensures
        r == (trim_seq(line@).len() == 0),
{
    trim_chars(line.as_slice()).len() == 0
}

/// The lines of one message, for a stream `width` columns wide.
pub fn message_lines_exec(m: &TimelineMessage, width: u16) -> (r: Vec<LineContent>)
    ensures
        contents_view(r@) == message_lines(*m, width as int),
{
    let mut out: Vec<LineContent> = Vec::new();
    match &m.kind {
        Some(MessageKind::ToolResult(i)) => {
            out.push(LineContent::Tool(*i));
            assert(contents_view(out@) =~= message_lines(*m, width as int));
            return out;
        },
        _ => {},
    }
    let ls = text_lines_exec(m.content.as_str());
    let ghost lv = views(ls@);
    let w: usize = if width >= 2 {
        (width - 2) as usize
    } else {
        0
    };
    let ghost want = message_lines(*m, width as int);
    match m.role {
        MessageRole::User => {
            let mut i: usize = 0;
            while i < ls.len()
                invariant
                    i <= ls@.len(),
                    lv == views(ls@),
                    lv == text_lines(m.content@),
                    m.role == MessageRole::User,
                    !(m.kind matches Some(MessageKind::ToolResult(_))),
                    want == message_lines(*m, width as int),
                    contents_view(out@) == want.take(i as int),
                decreases ls@.len() - i,
            {
                let mut spans: Vec<NexusSpan> = Vec::new();
                assert(lv[i as int] == ls@[i as int]@);
                if i == 0 {
                    spans.push(nspan(NexusRole::Marker, String::from_str("> ")));
                    spans.push(nspan(NexusRole::User, chars_str(&ls[i])));
                    assert(span_views(spans@) =~= seq![(NexusRole::Marker, "> "@), (NexusRole::User, lv[0])]);
                } else {
                    let t = chars_str(&ls[i]);
                    spans.push(nspan(NexusRole::User, cat("  ", t.as_str())));
                    assert(span_views(spans@) =~= seq![(NexusRole::User, "  "@ + lv[i as int])]);
                }
                assert(LineView::Spans(span_views(spans@)) == want[i as int]);
                let ghost before = contents_view(out@);
                out.push(LineContent::Spans(spans));
                assert(contents_view(out@) =~= before.push(want[i as int]));
                i = i + 1;
                assert(contents_view(out@) =~= want.take(i as int));
            }
            assert(want.take(i as int) =~= want);
        },
        MessageRole::Assistant => {
            let mut prev_blank = false;
            let mut first = true;
            let mut i: usize = 0;
            assert(lv.skip(0) =~= lv);
            while i < ls.len()
                invariant
                    i <= ls@.len(),
                    lv == views(ls@),
                    contents_view(out@) + answer_lines(lv.skip(i as int), w as int, prev_blank, first)
                        == answer_lines(lv, w as int, false, true),
                decreases ls@.len() - i,
            {
                let ghost rest = lv.skip(i as int);
                assert(rest[0] == ls@[i as int]@);
                assert(rest.drop_first() =~= lv.skip(i + 1));
                let blank = is_blank(&ls[i]);
                if blank && prev_blank {
                } else if blank {
                    let ghost before = contents_view(out@);
                    let none: Vec<NexusSpan> = Vec::new();
                    assert(span_views(none@) =~= Seq::<(NexusRole, Seq<char>)>::empty());
                    out.push(LineContent::Spans(none));
                    assert(contents_view(out@) =~= before + seq![LineView::Spans(Seq::empty())]);
                    prev_blank = true;
                    first = false;
                } else {
                    push_subs(&mut out, &ls[i], w, first);
                    prev_blank = false;
                    first = false;
                }
                i = i + 1;
            }
            assert(lv.skip(i as int) =~= Seq::<Seq<char>>::empty());
        },
        MessageRole::LocalUi => {
            match &m.kind {
                Some(k) => {
                    let prefix = "  \u{23bf}  ";
                    let role = match k {
                        MessageKind::DiffRemoved => NexusRole::DiffRemoved,
                        MessageKind::DiffAdded => NexusRole::DiffAdded,
                        _ => NexusRole::DiffContext,
                    };
                    let mut i: usize = 0;
                    while i < ls.len()
                        invariant
                            i <= ls@.len(),
                            lv == views(ls@),
                            lv == text_lines(m.content@),
                            m.role == MessageRole::LocalUi,
                            m.kind == Some(*k),
                            !(m.kind matches Some(MessageKind::ToolResult(_))),
                            role == diff_role(*k),
                            prefix@ == "  \u{23bf}  "@,
                            want == message_lines(*m, width as int),
                            contents_view(out@) == want.take(i as int),
                        decreases ls@.len() - i,
                    {
                        let t = chars_str(&ls[i]);
                        let mut spans: Vec<NexusSpan> = Vec::new();
                        spans.push(nspan(role, cat(prefix, t.as_str())));
                        assert(lv[i as int] == ls@[i as int]@);
                        assert(span_views(spans@) =~= seq![(diff_role(*k), "  \u{23bf}  "@ + lv[i as int])]);
                        assert(LineView::Spans(span_views(spans@)) == want[i as int]);
                        let ghost before = contents_view(out@);
                        out.push(LineContent::Spans(spans));
                        assert(contents_view(out@) =~= before.push(want[i as int]));
                        i = i + 1;
                        assert(contents_view(out@) =~= want.take(i as int));
                    }
                    assert(want.take(i as int) =~= want);
                },
                None => {
                    let mut i: usize = 0;
                    assert(lv.skip(0) =~= lv);
                    while i < ls.len()
                        invariant
                            i <= ls@.len(),
                            lv == views(ls@),
                            contents_view(out@) + note_lines(lv.skip(i as int), w as int) == note_lines(
                                lv,
                                w as int,
                            ),
                        decreases ls@.len() - i,
                    {
                        let ghost rest = lv.skip(i as int);
                        assert(rest[0] == ls@[i as int]@);
                        assert(rest.drop_first() =~= lv.skip(i + 1));
                        push_subs(&mut out, &ls[i], w, false);
                        i = i + 1;
                    }
                    assert(lv.skip(i as int) =~= Seq::<Seq<char>>::empty());
                },
            }
        },
    }
    out
}

/// The lines of the stream, for a stream `width` columns wide, each tagged
/// with the index of its message; a message's spacing is an untagged
/// empty line.
pub fn nexus_lines(entries: &Vec<NexusEntry>, width: u16) -> (r: Vec<NexusLine>)
    ensures
        lines_view(r@) == stream_lines(entries@, entries@.len() as int, width as int),
{
    let mut out: Vec<NexusLine> = Vec::new();
    let mut k: usize = 0;
    while k < entries.len()
        invariant
            k <= entries@.len(),
            lines_view(out@) == stream_lines(entries@, k as int, width as int),
        decreases entries@.len() - k,
    {
        let ghost before = lines_view(out@);
        let contents = message_lines_exec(&entries[k].message, width);
        let ghost cv = contents_view(contents@);
        let mut rest = contents;
        let mut taken: Vec<NexusLine> = Vec::new();
        while rest.len() > 0
            invariant
                lines_view(taken@) + tagged(contents_view(rest@), k as int) == tagged(cv, k as int),
            decreases rest@.len(),
        {
            let ghost r0 = rest@;
            let c = rest.remove(0);
            assert(r0 =~= seq![c] + rest@);
            assert(contents_view(r0) =~= seq![content_view(c)] + contents_view(rest@));
            let ghost t0 = lines_view(taken@);
            taken.push(NexusLine { entry: Some(k), content: c });
            assert(lines_view(taken@) =~= t0.push((Some(k), content_view(c))));
            assert(lines_view(taken@) + tagged(contents_view(rest@), k as int) =~= t0 + tagged(
                contents_view(r0),
                k as int,
            ));
        }
        assert(tagged(contents_view(rest@), k as int) =~= Seq::<(Option<usize>, LineView)>::empty());
        let ghost tv0 = lines_view(taken@);
        out.append(&mut taken);
        assert(lines_view(out@) =~= before + tv0);
        if entries[k].spacing {
            let none: Vec<NexusSpan> = Vec::new();
            assert(span_views(none@) =~= Seq::<(NexusRole, Seq<char>)>::empty());
            out.push(NexusLine { entry: None, content: LineContent::Spans(none) });
        }
        k = k + 1;
        assert(lines_view(out@) =~= stream_lines(entries@, k as int, width as int));
    }
    out
}

/// The background a stream line gets in copy mode.
#[derive(Debug, Clone, Copy, PartialEq, Eq, Structural)]
pub enum CopyHighlight {
    /// The entry under the cursor: dark blue.
    Cursor,
    /// A picked entry: dark grey.
    Picked,
    /// No highlight.
    Plain,
}

/// The highlight of a line tagged `entry`: only in copy mode, the cursor's
/// entry first, then the picked ones; spacing lines get none.
pub fn copy_highlight(copy: &CopyMode, in_copy_mode: bool, entry: Option<usize>) -> (r: CopyHighlight)
    ensures
        r == match entry {
            Some(i) => if !in_copy_mode {
                CopyHighlight::Plain
            } else if i == copy.cursor {
                CopyHighlight::Cursor
            } else if copy.selection().contains(i) {
                CopyHighlight::Picked
            } else {
                CopyHighlight::Plain
            },
            None => CopyHighlight::Plain,
        },
{
    match entry {
        Some(i) => if !in_copy_mode {
            CopyHighlight::Plain
        } else if i == copy.cursor {
            CopyHighlight::Cursor
        } else if copy.is_selected(i) {
            CopyHighlight::Picked
        } else {
            CopyHighlight::Plain
        },
        None => CopyHighlight::Plain,
    }
}

} // verus!
