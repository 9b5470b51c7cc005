//! The prompt line of the terminal UI: which prompt is shown, the
//! placeholder of an empty prompt, secret answers masked, paste blocks
//! shown as labels, and the text split around the cursor.

use vstd::prelude::*;
use crate::input_buffer::{
    all_empty, char_index, char_index_of, flat, has_paste, pastes, seg_view,
    InputBuffer, InputSegment, SegView,
};
use crate::text::{byte_len, cat, decimal, lemma_byte_len_push, str_to_chars, u64_to_decimal, utf8_width};

verus! {

/// What the interface is doing, as far as the prompt line shows it.
#[derive(Debug)]
pub enum InputMode {
    Idle,
    Interrupted,
    /// Thinking, streaming, waiting on an approval or the like.
    Busy,
    /// A selection menu is open.
    Selection,
    /// An onboarding field is being answered: whether it is secret or an
    /// enum, and its placeholder.
    Onboarding { secret: bool, is_enum: bool, placeholder: Option<String> },
}

/// How a piece of the prompt line is shown.
#[derive(Debug, Clone, Copy, PartialEq, Eq, Structural)]
pub enum InputRole {
    /// The prompt, bold in the input style.
    Prompt,
    /// Typed text, in the input style.
    Text,
    /// The cursor.
    Cursor,
    /// Placeholder text, in the border colour.
    Placeholder,
    /// A paste block's label, in the added-diff colour.
    Paste,
    /// The quit warning, in the warning colour.
    Warning,
}

#[derive(Debug)]
pub struct InputSpan {
    pub role: InputRole,
    pub text: String,
}

/// The prompt line: its pieces, whether the input style is the active one
/// (else muted), and whether the cursor has its own colour (else the
/// border's).
#[derive(Debug)]
pub struct InputLine {
    pub active: bool,
    pub cursor_active: bool,
    pub spans: Vec<InputSpan>,
}

pub open spec fn spans_view(v: Seq<InputSpan>) -> Seq<(InputRole, Seq<char>)> {
    v.map_values(|s: InputSpan| (s.role, s.text@))
}

pub open spec fn is_idle(m: InputMode) -> bool {
    m is Idle || m is Interrupted
}

pub open spec fn in_form(m: InputMode) -> bool {
    m is Onboarding || m is Selection
}

pub open spec fn secret_of(m: InputMode) -> bool {
    m matches InputMode::Onboarding { secret, .. } && secret
}

pub open spec fn enum_of(m: InputMode) -> bool {
    m matches InputMode::Onboarding { is_enum, .. } && is_enum
}

/// The prompt: blank in a form or while busy, `/ ` before a slash
/// command, `> ` otherwise.
pub open spec fn prompt_of(m: InputMode, slash: bool) -> Seq<char> {
    if in_form(m) || !is_idle(m) {
        "  "@
    } else if slash {
        "/ "@
    } else {
        "> "@
    }
}

pub open spec fn cursor_of(m: InputMode) -> Seq<char> {
    if enum_of(m) {
        Seq::empty()
    } else {
        "\u{2588}"@
    }
}

pub open spec fn starts_slash(t: Seq<char>) -> bool {
    t.len() > 0 && t[0] == '/'
}

/// The text shown for `t`: without its leading `/` when it opens a slash
/// command.
pub open spec fn shown(t: Seq<char>, strip: bool) -> Seq<char> {
    if strip {
        t.drop_first()
    } else {
        t
    }
}

/// `d` masked when secret: one `*` per character.
pub open spec fn masked(d: Seq<char>, secret: bool) -> Seq<char> {
    if secret {
        Seq::new(d.len(), |i: int| '*')
    } else {
        d
    }
}

/// Where the shown text is split for a cursor `off` bytes into its
/// segment: one byte less when the `/` was stripped, and at most the end.
pub open spec fn split_at(d: Seq<char>, off: int, stripped: bool) -> int {
    let adj = if stripped {
        if off > 0 {
            off - 1
        } else {
            0
        }
    } else {
        off
    };
    char_index(d, if adj < byte_len(d) {
        adj
    } else {
        byte_len(d) as int
    })
}

/// The text of a segment with the cursor in it.
pub open spec fn with_cursor(d: Seq<char>, secret: bool, k: int, cursor: Seq<char>) -> Seq<
    (InputRole, Seq<char>),
> {
    let ds = masked(d, secret);
    seq![(InputRole::Text, ds.take(k)), (InputRole::Cursor, cursor), (InputRole::Text, ds.skip(k))]
}

/// The label of the `n`th paste block, of `lines` lines.
pub open spec fn paste_label(n: nat, lines: nat) -> Seq<char> {
    "[Pasted text #"@ + decimal(n) + ", "@ + decimal(lines) + " line"@ + if lines == 1 {
        Seq::empty()
    } else {
        "s"@
    } + "]"@
}

/// Whether the segment `i` is a text that opens a slash command shown
/// without its `/`.
pub open spec fn strips(segs: Seq<SegView>, i: int, m: InputMode) -> bool {
    i == 0 && segs[0] is Text && starts_slash(segs[0]->Text_0) && is_idle(m)
}

/// The pieces of segment `i`, with paste blocks shown inline.
pub open spec fn seg_pieces(segs: Seq<SegView>, i: int, cur: (int, int), m: InputMode) -> Seq<
    (InputRole, Seq<char>),
> {
    match segs[i] {
        SegView::Text(t) => {
            let d = shown(t, strips(segs, i, m));
            if i == cur.0 && !enum_of(m) {
                with_cursor(d, secret_of(m), split_at(d, cur.1, strips(segs, i, m)), cursor_of(m))
            } else {
                seq![(InputRole::Text, masked(d, secret_of(m)))]
            }
        },
        SegView::Paste(_, lines) => seq![(InputRole::Paste, paste_label(pastes(segs.take(i + 1)).len(), lines))],
    }
}

pub open spec fn pieces_upto(segs: Seq<SegView>, n: int, cur: (int, int), m: InputMode) -> Seq<
    (InputRole, Seq<char>),
>
    decreases n,
{
    if n <= 0 {
        Seq::empty()
    } else {
        pieces_upto(segs, n - 1, cur, m) + seg_pieces(segs, n - 1, cur, m)
    }
}

/// Whether the cursor can be drawn: where it splits a text, it falls on a
/// character boundary of what is shown.
pub open spec fn cursor_drawable(segs: Seq<SegView>, cur: (int, int), m: InputMode) -> bool {
    if has_paste(segs) {
        0 <= cur.0 < segs.len() && segs[cur.0] is Text && !enum_of(m) ==> split_at(
            shown(segs[cur.0]->Text_0, strips(segs, cur.0, m)),
            cur.1,
            strips(segs, cur.0, m),
        ) >= 0
    } else {
        let f = flat(segs);
        let d = shown(f, starts_slash(f) && is_idle(m));
        split_at(d, cur.1, starts_slash(f) && is_idle(m)) >= 0
    }
}

/// The prompt line for a buffer with segments `segs` and cursor `cur`.
pub open spec fn input_line_spec(segs: Seq<SegView>, cur: (int, int), m: InputMode, quit_pending: bool, empty: bool) -> (
    bool,
    bool,
    Seq<(InputRole, Seq<char>)>,
) {
    let active = is_idle(m) || in_form(m);
    let cursor_active = is_idle(m) || m is Onboarding;
    let slash = segs.len() > 0 && segs[0] is Text && starts_slash(segs[0]->Text_0);
    let prompt = prompt_of(m, slash);
    let pieces = if quit_pending {
        seq![(InputRole::Warning, "  Press Ctrl+C again to exit..."@)]
    } else if empty && is_idle(m) {
        seq![
            (InputRole::Prompt, prompt),
            (InputRole::Cursor, "\u{2588}"@),
            (InputRole::Placeholder, " Ask a question or type / for commands..."@),
        ]
    } else if has_paste(segs) {
        seq![(InputRole::Prompt, prompt)] + pieces_upto(segs, segs.len() as int, cur, m)
    } else {
        let f = flat(segs);
        let strip = starts_slash(f) && is_idle(m);
        let d = shown(f, strip);
        match m {
            InputMode::Onboarding { secret, is_enum, placeholder: Some(ph) } => if d.len() == 0 && !secret
                && !is_enum {
                seq![(InputRole::Prompt, prompt), (InputRole::Placeholder, ph@), (InputRole::Cursor, cursor_of(m))]
            } else {
                seq![(InputRole::Prompt, prompt)] + with_cursor(d, secret_of(m), split_at(d, cur.1, strip), cursor_of(m))
            },
            _ => seq![(InputRole::Prompt, prompt)] + with_cursor(
                d,
                secret_of(m),
                split_at(d, cur.1, strip),
                cursor_of(m),
            ),
        }
    };
    (active, cursor_active, pieces)
}


/// `min(byte_len(d), cap)`.
fn bytes_capped(d: &Vec<char>, cap: usize) -> (r: usize)
    ensures
        r == if byte_len(d@) < cap {
            byte_len(d@)
        } else {
            cap as nat
        },
{
    let mut total: usize = 0;
    let mut i: usize = 0;
    while i < d.len()
        invariant
            i <= d@.len(),
            total == byte_len(d@.subrange(0, i as int)),
            total <= cap,
        decreases d@.len() - i,
    {
        let w = utf8_width(d[i]);
        proof {
            lemma_byte_len_push(d@.subrange(0, i as int), d@[i as int]);
            assert(d@.subrange(0, i + 1) =~= d@.subrange(0, i as int).push(d@[i as int]));
        }
        if w > cap - total {
            proof {
                crate::text::lemma_encode_utf8_concat(d@.subrange(0, i + 1), d@.subrange(i + 1, d@.len() as int));
                assert(d@ =~= d@.subrange(0, i + 1) + d@.subrange(i + 1, d@.len() as int));
            }
            return cap;
        }
        total = total + w;
        i = i + 1;
    }
    assert(d@.subrange(0, i as int) =~= d@);
    total
}

/// Where the shown text `d` is split for the cursor.
fn split_index(d: &Vec<char>, off: usize, stripped: bool) -> (r: Option<usize>)
    ensures
        r matches Some(k) ==> k == split_at(d@, off as int, stripped),
        r is None <==> split_at(d@, off as int, stripped) < 0,
{
    let adj = if stripped {
        if off > 0 {
            off - 1
        } else {
            0
        }
    } else {
        off
    };
    let b = bytes_capped(d, adj);
    char_index_of(d.as_slice(), b)
}

fn shown_chars(t: &Vec<char>, strip: bool) -> (r: Vec<char>)
    requires
        strip ==> t@.len() > 0,
    ensures
        r@ == shown(t@, strip),
{
    let mut r: Vec<char> = Vec::new();
    let mut i: usize = if strip {
        1
    } else {
        0
    };
    let start = i;
    while i < t.len()
        invariant
            start <= i <= t@.len(),
            start == if strip {
                1int
            } else {
                0int
            },
            r@ == t@.subrange(start as int, i as int),
        decreases t@.len() - i,
    {
        r.push(t[i]);
        i = i + 1;
        assert(r@ =~= t@.subrange(start as int, i as int));
    }
    assert(shown(t@, strip) =~= t@.subrange(start as int, t@.len() as int));
    r
}

fn mask(d: &Vec<char>, secret: bool) -> (r: Vec<char>)
    ensures
        r@ == masked(d@, secret),
{
    let mut r: Vec<char> = Vec::new();
    let mut i: usize = 0;
    while i < d.len()
        invariant
            i <= d@.len(),
            r@ == if secret {
                Seq::new(i as nat, |j: int| '*')
            } else {
                d@.subrange(0, i as int)
            },
        decreases d@.len() - i,
    {
        if secret {
            r.push('*');
        } else {
            r.push(d[i]);
        }
        i = i + 1;
        if secret {
            assert(r@ =~= Seq::new(i as nat, |j: int| '*'));
        } else {
            assert(r@ =~= d@.subrange(0, i as int));
        }
    }
    if !secret {
        assert(d@.subrange(0, i as int) =~= d@);
    }
    r
}

fn part(v: &Vec<char>, from: usize, to: usize) -> (r: String)
    requires
        from <= to <= v@.len(),
    ensures
        r@ == v@.subrange(from as int, to as int),
{
    let mut r = String::new();
    let mut i = from;
    while i < to
        invariant
            from <= i <= to,
            to <= v@.len(),
            r@ == v@.subrange(from as int, i as int),
        decreases to - i,
    {
        r.push(v[i]);
        i = i + 1;
        assert(r@ =~= v@.subrange(from as int, i as int));
    }
    r
}

fn piece(role: InputRole, text: String) -> (r: InputSpan)
    ensures
        r.role == role,
        r.text@ == text@,
{
    InputSpan { role, text }
}

/// Push the shown text split around the cursor.
fn push_with_cursor(spans: &mut Vec<InputSpan>, d: &Vec<char>, secret: bool, k: usize, cursor: &str)
    requires
        k <= d@.len(),
    ensures
        spans_view(final(spans)@) == spans_view(old(spans)@) + with_cursor(d@, secret, k as int, cursor@),
{
    let ds = mask(d, secret);
    let before = part(&ds, 0, k);
    let after = part(&ds, k, ds.len());
    let ghost s0 = spans_view(spans@);
    spans.push(piece(InputRole::Text, before));
    spans.push(piece(InputRole::Cursor, String::from_str(cursor)));
    spans.push(piece(InputRole::Text, after));
    assert(ds@.take(k as int) =~= ds@.subrange(0, k as int));
    assert(ds@.skip(k as int) =~= ds@.subrange(k as int, ds@.len() as int));
    assert(spans_view(spans@) =~= s0 + with_cursor(d@, secret, k as int, cursor@));
}

fn mode_flags(m: &InputMode) -> (r: (bool, bool, bool, bool))
    ensures
        r == (is_idle(*m), in_form(*m), secret_of(*m), enum_of(*m)),
{
    match m {
        InputMode::Idle => (true, false, false, false),
        InputMode::Interrupted => (true, false, false, false),
        InputMode::Busy => (false, false, false, false),
        InputMode::Selection => (false, true, false, false),
        InputMode::Onboarding { secret, is_enum, .. } => (false, true, *secret, *is_enum),
    }
}

fn paste_label_exec(n: usize, lines: usize) -> (r: String)
    ensures
        r@ == paste_label(n as nat, lines as nat),
{
    let a = u64_to_decimal(n as u64);
    let b = u64_to_decimal(lines as u64);
    let s1 = cat("[Pasted text #", a.as_str());
    let s2 = cat(s1.as_str(), ", ");
    let s3 = cat(s2.as_str(), b.as_str());
    let s4 = cat(s3.as_str(), " line");
    let s5 = if lines == 1 {
        s4
    } else {
        cat(s4.as_str(), "s")
    };
    let r = cat(s5.as_str(), "]");
    assert(r@ =~= paste_label(n as nat, lines as nat));
    r
}

/// The prompt line for `buf` while the interface is in `mode`.
pub fn input_line(buf: &InputBuffer, mode: &InputMode, quit_pending: bool) -> (r: InputLine)
    requires
        cursor_drawable(buf.segs(), buf.cur(), *mode),
    ensures
        (r.active, r.cursor_active, spans_view(r.spans@)) == input_line_spec(
            buf.segs(),
            buf.cur(),
            *mode,
            quit_pending,
            all_empty(buf.segs()),
        ),
{
    let ghost segs = buf.segs();
    let ghost cur = buf.cur();
    let (idle, form, secret, is_enum) = mode_flags(mode);
    let active = idle || form;
    let cursor_active = idle || match mode {
        InputMode::Onboarding { .. } => true,
        _ => false,
    };
    let slash = buf.starts_with_slash();
    let prompt = if form || !idle {
        "  "
    } else if slash {
        "/ "
    } else {
        "> "
    };
    let cursor: &str = if is_enum {
        ""
    } else {
        "\u{2588}"
    };
    assert(cursor@ == cursor_of(*mode)) by {
        reveal_strlit("");
    }
    let mut spans: Vec<InputSpan> = Vec::new();
    if quit_pending {
        spans.push(piece(InputRole::Warning, String::from_str("  Press Ctrl+C again to exit...")));
        assert(spans_view(spans@) =~= input_line_spec(segs, cur, *mode, quit_pending, all_empty(segs)).2);
        return InputLine { active, cursor_active, spans };
    }
    if buf.is_empty() && idle {
        spans.push(piece(InputRole::Prompt, String::from_str(prompt)));
        spans.push(piece(InputRole::Cursor, String::from_str("\u{2588}")));
        spans.push(piece(InputRole::Placeholder, String::from_str(" Ask a question or type / for commands...")));
        assert(spans_view(spans@) =~= input_line_spec(segs, cur, *mode, quit_pending, all_empty(segs)).2);
        return InputLine { active, cursor_active, spans };
    }
    spans.push(piece(InputRole::Prompt, String::from_str(prompt)));
    let ghost head = spans_view(spans@);
    if buf.has_paste_blocks() {
        let mut count: usize = 0;
        let mut i: usize = 0;
        while i < buf.segments.len()
            invariant
                i <= segs.len(),
                segs == buf.segs(),
                cur == buf.cur(),
                count == pastes(segs.take(i as int)).len(),
                count <= i,
                head == seq![(InputRole::Prompt, prompt_of(*mode, slash))],
                spans_view(spans@) == head + pieces_upto(segs, i as int, cur, *mode),
                (idle, form, secret, is_enum) == (is_idle(*mode), in_form(*mode), secret_of(*mode), enum_of(*mode)),
                cursor@ == cursor_of(*mode),
                has_paste(segs),
                cursor_drawable(segs, cur, *mode),
            decreases segs.len() - i,
        {
            assert(segs[i as int] == seg_view(buf.segments@[i as int]));
            assert(segs.take(i + 1).drop_last() =~= segs.take(i as int));
            let ghost before = spans_view(spans@);
            match &buf.segments[i] {
                InputSegment::Text(t) => {
                    let tc = str_to_chars(t.as_str());
                    let strip = i == 0 && tc.len() > 0 && tc[0] == '/' && idle;
                    assert(strip == strips(segs, i as int, *mode));
                    let d = shown_chars(&tc, strip);
                    if i == buf.cursor.0 && !is_enum {
                        match split_index(&d, buf.cursor.1, strip) {
                            Some(k) => {
                                proof {
                                    crate::input_buffer::lemma_char_index(d@, if (if strip { if cur.1 > 0 { cur.1 - 1 } else { 0 } } else { cur.1 }) < byte_len(d@) { if strip { if cur.1 > 0 { cur.1 - 1 } else { 0 } } else { cur.1 } } else { byte_len(d@) as int });
                                }
                                push_with_cursor(&mut spans, &d, secret, k, cursor);
                            },
                            None => {
                                assert(false);
                            },
                        }
                    } else {
                        let ds = mask(&d, secret);
                        spans.push(piece(InputRole::Text, part(&ds, 0, ds.len())));
                        assert(ds@.subrange(0, ds@.len() as int) =~= ds@);
                    }
                },
                InputSegment::PasteBlock { line_count, .. } => {
                    count = count + 1;
                    spans.push(piece(InputRole::Paste, paste_label_exec(count, *line_count)));
                },
            }
            assert(spans_view(spans@) =~= before + seg_pieces(segs, i as int, cur, *mode));
            i = i + 1;
        }
    } else {
        let f = buf.flat_text();
        let fc = str_to_chars(f.as_str());
        let strip = fc.len() > 0 && fc[0] == '/' && idle;
        let d = shown_chars(&fc, strip);
        let show_placeholder = d.len() == 0 && !secret && !is_enum;
        let mut done = false;
        match mode {
            InputMode::Onboarding { placeholder: Some(ph), .. } => {
                if show_placeholder {
                    spans.push(piece(InputRole::Placeholder, ph.clone()));
                    spans.push(piece(InputRole::Cursor, String::from_str(cursor)));
                    done = true;
                }
            },
            _ => {},
        }
        if !done {
            match split_index(&d, buf.cursor.1, strip) {
                Some(k) => {
                    proof {
                        crate::input_buffer::lemma_char_index(d@, if (if strip { if cur.1 > 0 { cur.1 - 1 } else { 0 } } else { cur.1 }) < byte_len(d@) { if strip { if cur.1 > 0 { cur.1 - 1 } else { 0 } } else { cur.1 } } else { byte_len(d@) as int });
                    }
                    push_with_cursor(&mut spans, &d, secret, k, cursor);
                },
                None => {
                    assert(false);
                },
            }
        }
    }
    assert(spans_view(spans@) =~= input_line_spec(segs, cur, *mode, quit_pending, all_empty(segs)).2);
    InputLine { active, cursor_active, spans }
}

} // verus!
