//! The prompt's input buffer: a run of typed text and atomic paste blocks
//! with a cursor.
//!
//! The cursor is `(segment_index, byte_offset)`. Byte offsets count the
//! UTF-8 bytes of a text segment's characters; on a paste block the offset
//! is 0, as the cursor sits at the block's boundary and never inside it.

use vstd::prelude::*;
use crate::text::{byte_len, cat, char_width, chars_to_string, str_to_chars, utf8_width};

verus! {

/// A segment of user input: typed text, or a paste block that is deleted
/// as a whole.
#[derive(Debug, Clone, PartialEq, Eq)]
pub enum InputSegment {
    /// Typed text, edited character by character.
    Text(String),
    /// A pasted block, kept whole.
    PasteBlock {
        /// The pasted content, newlines included.
        raw: String,
        /// Number of lines of `raw`, at least 1.
        line_count: usize,
    },
}

/// What a segment holds.
pub ghost enum SegView {
    Text(Seq<char>),
    Paste(Seq<char>, nat),
}

pub open spec fn seg_view(s: InputSegment) -> SegView {
    match s {
        InputSegment::Text(t) => SegView::Text(t@),
        InputSegment::PasteBlock { raw, line_count } => SegView::Paste(raw@, line_count as nat),
    }
}

pub open spec fn segs_view(v: Seq<InputSegment>) -> Seq<SegView> {
    v.map_values(|s: InputSegment| seg_view(s))
}

/// The characters a segment contributes to the flat text.
pub open spec fn seg_chars(s: SegView) -> Seq<char> {
    match s {
        SegView::Text(t) => t,
        SegView::Paste(r, _) => r,
    }
}

/// All segments' characters, in order.
pub open spec fn flat(segs: Seq<SegView>) -> Seq<char>
    decreases segs.len(),
{
    if segs.len() == 0 {
        Seq::empty()
    } else {
        flat(segs.drop_last()) + seg_chars(segs.last())
    }
}

/// What `str::len` reports for a text: its UTF-8 byte count as a `usize`.
pub open spec fn text_len(t: Seq<char>) -> int {
    (byte_len(t) as usize) as int
}

/// `usize` addition that stops at the maximum.
pub open spec fn sat_add(a: int, b: int) -> int {
    if a + b > usize::MAX {
        usize::MAX as int
    } else {
        a + b
    }
}

/// One step of merging: `s` is appended to `acc`, or joined to its last
/// segment when both are text. The cursor indexes `acc` followed by the
/// segments still to come, `s` first.
pub open spec fn merge_step(acc: Seq<SegView>, s: SegView, cur: (int, int)) -> (
    Seq<SegView>,
    (int, int),
) {
    if acc.len() > 0 && acc.last() is Text && s is Text {
        let a = acc.last()->Text_0;
        let next = acc.len() as int;
        let c = if cur.0 == next {
            (next - 1, sat_add(text_len(a), cur.1))
        } else if cur.0 > next {
            (cur.0 - 1, cur.1)
        } else {
            cur
        };
        (acc.drop_last().push(SegView::Text(a + s->Text_0)), c)
    } else {
        (acc.push(s), cur)
    }
}

pub open spec fn merge_fold(acc: Seq<SegView>, rest: Seq<SegView>, cur: (int, int)) -> (
    Seq<SegView>,
    (int, int),
)
    decreases rest.len(),
{
    if rest.len() == 0 {
        (acc, cur)
    } else {
        let (a2, c2) = merge_step(acc, rest[0], cur);
        merge_fold(a2, rest.drop_first(), c2)
    }
}

/// The cursor brought into range: onto the last segment when past the
/// end, to the end of a text, to 0 on a paste block.
pub open spec fn clamp_cursor(segs: Seq<SegView>, cur: (int, int)) -> (int, int) {
    if segs.len() == 0 {
        (0, 0)
    } else {
        let c0 = if cur.0 >= segs.len() {
            segs.len() - 1
        } else {
            cur.0
        };
        match segs[c0] {
            SegView::Text(t) => (c0, if cur.1 > text_len(t) {
                text_len(t)
            } else {
                cur.1
            }),
            SegView::Paste(_, _) => (c0, 0),
        }
    }
}

/// Adjacent texts joined, the cursor following its character, then
/// brought into range.
pub open spec fn normalized(segs: Seq<SegView>, cur: (int, int)) -> (Seq<SegView>, (int, int)) {
    let (m, c) = merge_fold(Seq::empty(), segs, cur);
    (m, clamp_cursor(m, c))
}

/// No two text segments are next to each other.
pub open spec fn no_adjacent_text(segs: Seq<SegView>) -> bool {
    forall|i: int| 0 <= i < segs.len() - 1 ==> !(#[trigger] segs[i] is Text && segs[i + 1] is Text)
}

/// The paste blocks, in order.
pub open spec fn pastes(segs: Seq<SegView>) -> Seq<SegView>
    decreases segs.len(),
{
    if segs.len() == 0 {
        Seq::empty()
    } else if segs.last() is Paste {
        pastes(segs.drop_last()).push(segs.last())
    } else {
        pastes(segs.drop_last())
    }
}

pub proof fn lemma_flat_concat(a: Seq<SegView>, b: Seq<SegView>)
    ensures
        flat(a + b) == flat(a) + flat(b),
    decreases b.len(),
{
    if b.len() == 0 {
        assert(a + b =~= a);
        assert(flat(a) + flat(b) =~= flat(a));
    } else {
        lemma_flat_concat(a, b.drop_last());
        assert((a + b).drop_last() =~= a + b.drop_last());
        assert(flat(a) + flat(b) =~= flat(a) + flat(b.drop_last()) + seg_chars(b.last()));
    }
}

pub proof fn lemma_pastes_concat(a: Seq<SegView>, b: Seq<SegView>)
    ensures
        pastes(a + b) == pastes(a) + pastes(b),
    decreases b.len(),
{
    if b.len() == 0 {
        assert(a + b =~= a);
        assert(pastes(a) + pastes(b) =~= pastes(a));
    } else {
        lemma_pastes_concat(a, b.drop_last());
        assert((a + b).drop_last() =~= a + b.drop_last());
        if b.last() is Paste {
            assert(pastes(a) + pastes(b) =~= (pastes(a) + pastes(b.drop_last())).push(b.last()));
        } else {
            assert(pastes(a) + pastes(b) =~= pastes(a) + pastes(b.drop_last()));
        }
    }
}

proof fn lemma_flat_one(s: SegView)
    ensures
        flat(seq![s]) == seg_chars(s),
        pastes(seq![s]) == (if s is Paste { seq![s] } else { Seq::<SegView>::empty() }),
{
    let q = seq![s];
    assert(q.last() == s);
    assert(q.drop_last() =~= Seq::<SegView>::empty());
    assert(flat(q.drop_last()) == Seq::<char>::empty());
    assert(pastes(q.drop_last()) == Seq::<SegView>::empty());
    assert(flat(q) == flat(q.drop_last()) + seg_chars(q.last()));
    assert(Seq::<char>::empty() + seg_chars(s) =~= seg_chars(s));
    if s is Paste {
        assert(Seq::<SegView>::empty().push(s) =~= seq![s]);
    }
}

proof fn lemma_split_first(rest: Seq<SegView>)
    requires
        rest.len() > 0,
    ensures
        flat(rest) == seg_chars(rest[0]) + flat(rest.drop_first()),
        pastes(rest) == pastes(seq![rest[0]]) + pastes(rest.drop_first()),
{
    assert(rest =~= seq![rest[0]] + rest.drop_first());
    lemma_flat_concat(seq![rest[0]], rest.drop_first());
    lemma_pastes_concat(seq![rest[0]], rest.drop_first());
    lemma_flat_one(rest[0]);
}

proof fn lemma_split_last(acc: Seq<SegView>)
    requires
        acc.len() > 0,
    ensures
        flat(acc) == flat(acc.drop_last()) + seg_chars(acc.last()),
        pastes(acc) == pastes(acc.drop_last()) + pastes(seq![acc.last()]),
{
    assert(acc =~= acc.drop_last() + seq![acc.last()]);
    lemma_pastes_concat(acc.drop_last(), seq![acc.last()]);
    lemma_flat_one(acc.last());
}

proof fn lemma_merge_step(acc: Seq<SegView>, s: SegView, cur: (int, int))
    requires
        no_adjacent_text(acc),
    ensures
        flat(merge_step(acc, s, cur).0) == flat(acc) + seg_chars(s),
        pastes(merge_step(acc, s, cur).0) == pastes(acc) + pastes(seq![s]),
        no_adjacent_text(merge_step(acc, s, cur).0),
        merge_step(acc, s, cur).0.len() >= acc.len(),
        merge_step(acc, s, cur).0.len() > 0,
{
    let a2 = merge_step(acc, s, cur).0;
    lemma_flat_one(s);
    if acc.len() > 0 && acc.last() is Text && s is Text {
        let a = acc.last()->Text_0;
        lemma_split_last(acc);
        lemma_split_last(a2);
        assert(a2.drop_last() =~= acc.drop_last());
        assert(no_adjacent_text(a2)) by {
            assert forall|i: int| 0 <= i < a2.len() - 1 implies !(#[trigger] a2[i] is Text
                && a2[i + 1] is Text) by {
                assert(a2[i] == acc[i]);
                if i + 1 < a2.len() - 1 {
                    assert(a2[i + 1] == acc[i + 1]);
                }
            }
        }
        lemma_flat_one(SegView::Text(a + s->Text_0));
        lemma_flat_one(acc.last());
        assert(flat(a2) =~= flat(acc) + seg_chars(s));
        assert(pastes(a2) =~= pastes(acc) + pastes(seq![s]));
    } else {
        assert(a2 =~= acc + seq![s]);
        lemma_flat_concat(acc, seq![s]);
        lemma_pastes_concat(acc, seq![s]);
        assert(no_adjacent_text(a2)) by {
            assert forall|i: int| 0 <= i < a2.len() - 1 implies !(#[trigger] a2[i] is Text
                && a2[i + 1] is Text) by {
                assert(a2[i] == acc[i]);
                if i + 1 < a2.len() - 1 {
                    assert(a2[i + 1] == acc[i + 1]);
                }
            }
        }
    }
}

/// Merging keeps the characters and the paste blocks, and leaves no two
/// texts side by side.
pub proof fn lemma_merge_fold(acc: Seq<SegView>, rest: Seq<SegView>, cur: (int, int))
    requires
        no_adjacent_text(acc),
    ensures
        flat(merge_fold(acc, rest, cur).0) == flat(acc) + flat(rest),
        pastes(merge_fold(acc, rest, cur).0) == pastes(acc) + pastes(rest),
        no_adjacent_text(merge_fold(acc, rest, cur).0),
        merge_fold(acc, rest, cur).0.len() >= acc.len(),
        rest.len() > 0 ==> merge_fold(acc, rest, cur).0.len() > 0,
    decreases rest.len(),
{
    if rest.len() == 0 {
        assert(flat(acc) + flat(rest) =~= flat(acc));
        assert(pastes(acc) + pastes(rest) =~= pastes(acc));
    } else {
        let s = rest[0];
        let (a2, c2) = merge_step(acc, s, cur);
        lemma_split_first(rest);
        lemma_merge_step(acc, s, cur);
        lemma_merge_fold(a2, rest.drop_first(), c2);
        assert(flat(a2) + flat(rest.drop_first()) =~= flat(acc) + flat(rest));
        assert(pastes(a2) + pastes(rest.drop_first()) =~= pastes(acc) + pastes(rest));
    }
}


/// Index of the character that starts at byte `b`, scanning from
/// character `k`, which starts at byte `acc`; -1 when none starts there.
pub open spec fn idx_from(t: Seq<char>, k: int, acc: int, b: int) -> int
    decreases t.len() - k,
{
    if acc == b {
        k
    } else if k >= t.len() || acc > b || k < 0 {
        -1
    } else {
        idx_from(t, k + 1, acc + char_width(t[k]), b)
    }
}

/// Index of the character of `t` that starts at byte `b` (`t.len()` for
/// the end); -1 when `b` is not a character boundary of `t`.
pub open spec fn char_index(t: Seq<char>, b: int) -> int {
    idx_from(t, 0, 0, b)
}

pub proof fn lemma_char_width(c: char)
    ensures
        1 <= char_width(c) <= 4,
{
    vstd::utf8::char_is_scalar(c);
}

pub proof fn lemma_prefix_bytes_step(t: Seq<char>, k: int)
    requires
        0 <= k < t.len(),
    ensures
        byte_len(t.take(k + 1)) == byte_len(t.take(k)) + char_width(t[k]),
        byte_len(t.take(k + 1)) > byte_len(t.take(k)),
{
    assert(t.take(k + 1) =~= t.take(k).push(t[k]));
    crate::text::lemma_byte_len_push(t.take(k), t[k]);
    lemma_char_width(t[k]);
}

proof fn lemma_idx_from(t: Seq<char>, k: int, acc: int, b: int)
    requires
        0 <= k <= t.len(),
        acc == byte_len(t.take(k)),
    ensures
        idx_from(t, k, acc, b) >= 0 ==> k <= idx_from(t, k, acc, b) <= t.len() && byte_len(
            t.take(idx_from(t, k, acc, b)),
        ) == b,
    decreases t.len() - k,
{
    if acc != b && k < t.len() && acc <= b {
        lemma_prefix_bytes_step(t, k);
        lemma_idx_from(t, k + 1, acc + char_width(t[k]), b);
    }
}

/// A character boundary at byte `b` is at character `char_index(t, b)`.
pub proof fn lemma_char_index(t: Seq<char>, b: int)
    ensures
        char_index(t, b) >= 0 ==> 0 <= char_index(t, b) <= t.len() && byte_len(
            t.take(char_index(t, b)),
        ) == b,
{
    assert(t.take(0) =~= Seq::<char>::empty());
    assert(byte_len(Seq::<char>::empty()) == 0) by {
        assert(vstd::utf8::encode_utf8(Seq::<char>::empty()) =~= Seq::<u8>::empty());
    }
    lemma_idx_from(t, 0, 0, b);
}

proof fn lemma_prefix_bytes_mono(t: Seq<char>, k: int, j: int)
    requires
        0 <= k <= j <= t.len(),
    ensures
        byte_len(t.take(k)) <= byte_len(t.take(j)),
        k < j ==> byte_len(t.take(k)) < byte_len(t.take(j)),
    decreases j - k,
{
    if k < j {
        lemma_prefix_bytes_step(t, k);
        lemma_prefix_bytes_mono(t, k + 1, j);
    }
}

proof fn lemma_idx_from_at(t: Seq<char>, k: int, j: int)
    requires
        0 <= k <= j <= t.len(),
    ensures
        idx_from(t, k, byte_len(t.take(k)) as int, byte_len(t.take(j)) as int) == j,
    decreases j - k,
{
    if k < j {
        lemma_prefix_bytes_mono(t, k, j);
        lemma_prefix_bytes_step(t, k);
        lemma_idx_from_at(t, k + 1, j);
    }
}

/// The byte count of the first `j` characters is a boundary, at character `j`.
pub proof fn lemma_boundary_at(t: Seq<char>, j: int)
    requires
        0 <= j <= t.len(),
    ensures
        char_index(t, byte_len(t.take(j)) as int) == j,
{
    assert(t.take(0) =~= Seq::<char>::empty());
    assert(byte_len(Seq::<char>::empty()) == 0) by {
        assert(vstd::utf8::encode_utf8(Seq::<char>::empty()) =~= Seq::<u8>::empty());
    }
    lemma_idx_from_at(t, 0, j);
}

/// A boundary is the byte count of a prefix, at most the whole text's.
proof fn lemma_boundary_prefix(t: Seq<char>, b: int)
    requires
        char_index(t, b) >= 0,
    ensures
        b == byte_len(t.take(char_index(t, b))),
        0 <= b <= byte_len(t),
{
    lemma_char_index(t, b);
    lemma_prefix_bytes_mono(t, char_index(t, b), t.len() as int);
    assert(t.take(t.len() as int) =~= t);
}

/// A boundary of `a` is one of `a + c`; one of `c` moved past `a` is one of `a + c`.
proof fn lemma_boundary_concat(a: Seq<char>, c: Seq<char>, x: int)
    ensures
        char_index(a, x) >= 0 ==> char_index(a + c, x) >= 0,
        char_index(c, x) >= 0 ==> char_index(a + c, byte_len(a) + x) >= 0,
{
    if char_index(a, x) >= 0 {
        let j = char_index(a, x);
        lemma_char_index(a, x);
        assert((a + c).take(j) =~= a.take(j));
        lemma_boundary_at(a + c, j);
    }
    if char_index(c, x) >= 0 {
        let j = char_index(c, x);
        lemma_char_index(c, x);
        assert((a + c).take(a.len() + j) =~= a + c.take(j));
        crate::text::lemma_encode_utf8_concat(a, c.take(j));
        lemma_boundary_at(a + c, a.len() + j);
    }
}

/// The end of a text and its start are boundaries.
proof fn lemma_boundary_ends(t: Seq<char>)
    ensures
        char_index(t, byte_len(t) as int) == t.len(),
        char_index(t, 0) == 0,
{
    assert(t.take(t.len() as int) =~= t);
    lemma_boundary_at(t, t.len() as int);
}

/// The cursor is where editing can happen: on a segment or just past the
/// last one (at offset 0 there), at a character boundary of a text, and
/// at offset 0 on a paste block.
pub open spec fn cursor_ok(segs: Seq<SegView>, cur: (int, int)) -> bool {
    &&& 0 <= cur.0 <= segs.len()
    &&& (cur.0 == segs.len() ==> cur.1 == 0)
    &&& cursor_on_boundary(segs, cur)
    &&& off_paste_inside(segs, cur)
}

/// Whether the cursor, when on a text, sits at a character boundary.
pub open spec fn cursor_on_boundary(segs: Seq<SegView>, cur: (int, int)) -> bool {
    0 <= cur.0 < segs.len() && segs[cur.0] is Text ==> char_index(segs[cur.0]->Text_0, cur.1)
        >= 0
}

/// A text segment is placed at the cursor when it is on a paste block or
/// past the end.
pub open spec fn ensure_text(segs: Seq<SegView>, cur: (int, int)) -> (Seq<SegView>, (int, int)) {
    if segs.len() == 0 {
        (seq![SegView::Text(Seq::empty())], (0, 0))
    } else if cur.0 >= segs.len() {
        (segs.push(SegView::Text(Seq::empty())), (segs.len() as int, 0))
    } else if segs[cur.0] is Paste {
        (segs.insert(cur.0 + 1, SegView::Text(Seq::empty())), (cur.0 + 1, 0))
    } else {
        (segs, cur)
    }
}


proof fn lemma_ensure_text(segs: Seq<SegView>, cur: (int, int))
    requires
        cur.0 >= 0,
        cursor_on_boundary(segs, cur),
    ensures
        0 <= ensure_text(segs, cur).1.0 < ensure_text(segs, cur).0.len(),
        ensure_text(segs, cur).0[ensure_text(segs, cur).1.0] is Text,
        char_index(
            ensure_text(segs, cur).0[ensure_text(segs, cur).1.0]->Text_0,
            ensure_text(segs, cur).1.1,
        ) >= 0,
{
    assert(char_index(Seq::<char>::empty(), 0) == 0);
}

/// The buffer after typing `c`.
pub open spec fn after_insert_char(segs: Seq<SegView>, cur: (int, int), c: char) -> (
    Seq<SegView>,
    (int, int),
) {
    let (s1, c1) = ensure_text(segs, cur);
    let t = s1[c1.0]->Text_0;
    normalized(
        s1.update(c1.0, SegView::Text(t.insert(char_index(t, c1.1), c))),
        (c1.0, sat_add(c1.1, char_width(c) as int)),
    )
}

/// Where in the flat text a typed character lands: at the cursor on a
/// text, after a paste block the cursor is on, at the end past the last
/// segment.
pub open spec fn insert_point(segs: Seq<SegView>, cur: (int, int)) -> int {
    if cur.0 >= segs.len() {
        flat(segs).len() as int
    } else if segs[cur.0] is Paste {
        flat(segs.take(cur.0 + 1)).len() as int
    } else {
        flat(segs.take(cur.0)).len() + char_index(segs[cur.0]->Text_0, cur.1)
    }
}

/// Every segment is an empty text.
pub open spec fn all_empty(segs: Seq<SegView>) -> bool {
    forall|i: int| 0 <= i < segs.len() ==> #[trigger] segs[i] == SegView::Text(Seq::empty())
}

pub open spec fn has_paste(segs: Seq<SegView>) -> bool {
    exists|i: int| 0 <= i < segs.len() && #[trigger] segs[i] is Paste
}

/// Sum of the paste blocks' line counts.
pub open spec fn total_lines(segs: Seq<SegView>) -> nat
    decreases segs.len(),
{
    if segs.len() == 0 {
        0
    } else {
        total_lines(segs.drop_last()) + match segs.last() {
            SegView::Paste(_, n) => n,
            SegView::Text(_) => 0,
        }
    }
}


pub proof fn lemma_flat_at(segs: Seq<SegView>, i: int)
    requires
        0 <= i < segs.len(),
    ensures
        flat(segs) == flat(segs.take(i)) + seg_chars(segs[i]) + flat(segs.skip(i + 1)),
        flat(segs.take(i + 1)) == flat(segs.take(i)) + seg_chars(segs[i]),
{
    assert(segs =~= segs.take(i) + (seq![segs[i]] + segs.skip(i + 1)));
    lemma_flat_concat(segs.take(i), seq![segs[i]] + segs.skip(i + 1));
    lemma_flat_concat(seq![segs[i]], segs.skip(i + 1));
    assert(segs.take(i + 1) =~= segs.take(i) + seq![segs[i]]);
    lemma_flat_concat(segs.take(i), seq![segs[i]]);
    lemma_flat_one(segs[i]);
}

pub proof fn lemma_flat_empty_text(segs: Seq<SegView>, i: int)
    requires
        0 <= i <= segs.len(),
    ensures
        flat(segs.insert(i, SegView::Text(Seq::empty()))) == flat(segs),
{
    let e = SegView::Text(Seq::empty());
    assert(segs.insert(i, e) =~= segs.take(i) + (seq![e] + segs.skip(i)));
    assert(segs =~= segs.take(i) + segs.skip(i));
    lemma_flat_concat(segs.take(i), seq![e] + segs.skip(i));
    lemma_flat_concat(seq![e], segs.skip(i));
    lemma_flat_concat(segs.take(i), segs.skip(i));
    lemma_flat_one(e);
    assert(Seq::<char>::empty() + flat(segs.skip(i)) =~= flat(segs.skip(i)));
}


pub proof fn lemma_flat_update(segs: Seq<SegView>, i: int, x: SegView)
    requires
        0 <= i < segs.len(),
    ensures
        flat(segs.update(i, x)) == flat(segs.take(i)) + seg_chars(x) + flat(segs.skip(i + 1)),
{
    let u = segs.update(i, x);
    lemma_flat_at(u, i);
    assert(u.take(i) =~= segs.take(i));
    assert(u.skip(i + 1) =~= segs.skip(i + 1));
}

pub proof fn lemma_total_lines_concat(a: Seq<SegView>, b: Seq<SegView>)
    ensures
        total_lines(a + b) == total_lines(a) + total_lines(b),
    decreases b.len(),
{
    if b.len() == 0 {
        assert(a + b =~= a);
    } else {
        lemma_total_lines_concat(a, b.drop_last());
        assert((a + b).drop_last() =~= a + b.drop_last());
    }
}



/// The buffer after Backspace: the character before the cursor goes, or
/// the paste block just before it, or the last character of the text just
/// before it.
pub open spec fn after_backspace(segs: Seq<SegView>, cur: (int, int)) -> (Seq<SegView>, (int, int)) {
    let i = cur.0;
    let b = cur.1;
    if segs.len() == 0 {
        (segs, cur)
    } else if i < segs.len() && segs[i] is Text && b > 0 {
        let t = segs[i]->Text_0;
        let k = char_index(t, b);
        normalized(segs.update(i, SegView::Text(t.remove(k - 1))), (i, byte_len(t.take(k - 1)) as int))
    } else if i == 0 {
        if segs[0] is Paste {
            normalized(segs.remove(0), (0, 0))
        } else {
            (segs, cur)
        }
    } else {
        let p = i - 1;
        match segs[p] {
            SegView::Paste(_, _) => normalized(segs.remove(p), (p, b)),
            SegView::Text(t) => if t.len() > 0 {
                normalized(
                    segs.update(p, SegView::Text(t.drop_last())),
                    (p, byte_len(t.take(t.len() - 1)) as int),
                )
            } else {
                (segs, cur)
            },
        }
    }
}

/// The buffer after Delete: the character at the cursor goes, or the
/// paste block just after it, or the first character of the text after it.
pub open spec fn after_delete_forward(segs: Seq<SegView>, cur: (int, int)) -> (
    Seq<SegView>,
    (int, int),
) {
    let i = cur.0;
    let b = cur.1;
    if segs.len() == 0 || i >= segs.len() {
        (segs, cur)
    } else {
        match segs[i] {
            SegView::Text(t) => if b < text_len(t) {
                normalized(segs.update(i, SegView::Text(t.remove(char_index(t, b)))), cur)
            } else if i + 1 < segs.len() && segs[i + 1] is Paste {
                normalized(segs.remove(i + 1), cur)
            } else if i + 1 < segs.len() && segs[i + 1] is Text && segs[i + 1]->Text_0.len() > 0 {
                normalized(
                    segs.update(i + 1, SegView::Text(segs[i + 1]->Text_0.drop_first())),
                    cur,
                )
            } else {
                (segs, cur)
            },
            SegView::Paste(_, _) => normalized(segs.remove(i), cur),
        }
    }
}

/// The cursor one character to the left, over a paste block as a whole.
pub open spec fn after_move_left(segs: Seq<SegView>, cur: (int, int)) -> (Seq<SegView>, (int, int)) {
    let i = cur.0;
    let b = cur.1;
    if segs.len() == 0 {
        (segs, cur)
    } else if i < segs.len() && segs[i] is Text && b > 0 {
        let t = segs[i]->Text_0;
        (segs, (i, byte_len(t.take(char_index(t, b) - 1)) as int))
    } else if i == 0 {
        (segs, cur)
    } else {
        let p = i - 1;
        match segs[p] {
            SegView::Paste(_, _) => if p == 0 {
                (segs.insert(0, SegView::Text(Seq::empty())), (0, 0))
            } else {
                (
                    segs,
                    (
                        p - 1,
                        match segs[p - 1] {
                            SegView::Text(t) => text_len(t),
                            SegView::Paste(_, _) => 0,
                        },
                    ),
                )
            },
            SegView::Text(t) => (segs, (p, text_len(t))),
        }
    }
}

/// The cursor one character to the right, over a paste block as a whole.
pub open spec fn after_move_right(segs: Seq<SegView>, cur: (int, int)) -> (Seq<SegView>, (int, int)) {
    let i = cur.0;
    let b = cur.1;
    if segs.len() == 0 || i >= segs.len() {
        (segs, cur)
    } else if segs[i] is Text && b < text_len(segs[i]->Text_0) {
        let t = segs[i]->Text_0;
        (segs, (i, sat_add(b, char_width(t[char_index(t, b)]) as int)))
    } else if i + 1 < segs.len() {
        if segs[i + 1] is Paste && i + 2 < segs.len() {
            (segs, (i + 2, 0))
        } else {
            (segs, (i + 1, 0))
        }
    } else {
        (segs, cur)
    }
}

/// Index of the first text at or after `k`; -1 when there is none.
pub open spec fn first_text_from(segs: Seq<SegView>, k: int) -> int
    decreases segs.len() - k,
{
    if k < 0 || k >= segs.len() {
        -1
    } else if segs[k] is Text {
        k
    } else {
        first_text_from(segs, k + 1)
    }
}

/// The cursor at the start; past leading paste blocks when a text follows.
pub open spec fn home_cursor(segs: Seq<SegView>) -> (int, int) {
    if segs.len() > 0 && segs[0] is Paste && first_text_from(segs, 0) >= 0 {
        (first_text_from(segs, 0), 0)
    } else {
        (0, 0)
    }
}

/// The cursor at the end of the last segment.
pub open spec fn end_cursor(segs: Seq<SegView>) -> (int, int) {
    if segs.len() == 0 {
        (0, 0)
    } else {
        (
            segs.len() - 1,
            match segs.last() {
                SegView::Text(t) => text_len(t),
                SegView::Paste(_, _) => 0,
            },
        )
    }
}

/// The buffer after pasting the block `blk` at the cursor, splitting a
/// text the cursor is inside of.
pub open spec fn after_insert_paste(segs: Seq<SegView>, cur: (int, int), blk: SegView) -> (
    Seq<SegView>,
    (int, int),
) {
    let i = cur.0;
    let b = cur.1;
    let e = SegView::Text(Seq::empty());
    if segs.len() == 0 {
        normalized(seq![blk, e], (1, 0))
    } else if i >= segs.len() {
        normalized(segs.push(blk).push(e), (segs.len() as int + 1, 0))
    } else {
        match segs[i] {
            SegView::Text(t) => if b == 0 && t.len() == 0 {
                normalized(segs.update(i, blk).insert(i + 1, e), (i + 1, 0))
            } else if b == 0 {
                normalized(segs.insert(i, blk), (i + 1, 0))
            } else if b >= text_len(t) {
                normalized(segs.insert(i + 1, blk).insert(i + 2, e), (i + 2, 0))
            } else {
                let k = char_index(t, b);
                normalized(
                    segs.update(i, SegView::Text(t.take(k))).insert(i + 1, blk).insert(
                        i + 2,
                        SegView::Text(t.skip(k)),
                    ),
                    (i + 2, 0),
                )
            },
            SegView::Paste(_, _) => normalized(segs.insert(i, blk), (i + 1, 0)),
        }
    }
}

/// Where in the flat text a paste lands.
pub open spec fn paste_point(segs: Seq<SegView>, cur: (int, int)) -> int {
    let i = cur.0;
    let b = cur.1;
    if i >= segs.len() {
        flat(segs).len() as int
    } else {
        match segs[i] {
            SegView::Text(t) => if b == 0 {
                flat(segs.take(i)).len() as int
            } else if b >= text_len(t) {
                flat(segs.take(i + 1)).len() as int
            } else {
                flat(segs.take(i)).len() + char_index(t, b)
            },
            SegView::Paste(_, _) => flat(segs.take(i)).len() as int,
        }
    }
}

proof fn lemma_flat3(a: Seq<SegView>, m: Seq<SegView>, b: Seq<SegView>)
    ensures
        flat(a + m + b) == flat(a) + flat(m) + flat(b),
{
    lemma_flat_concat(a + m, b);
    lemma_flat_concat(a, m);
}

proof fn lemma_flat_two(x: SegView, y: SegView)
    ensures
        flat(seq![x, y]) == seg_chars(x) + seg_chars(y),
{
    assert(seq![x, y] =~= seq![x] + seq![y]);
    lemma_flat_concat(seq![x], seq![y]);
    lemma_flat_one(x);
    lemma_flat_one(y);
}

proof fn lemma_flat_three(x: SegView, y: SegView, z: SegView)
    ensures
        flat(seq![x, y, z]) == seg_chars(x) + seg_chars(y) + seg_chars(z),
{
    assert(seq![x, y, z] =~= seq![x, y] + seq![z]);
    lemma_flat_concat(seq![x, y], seq![z]);
    lemma_flat_two(x, y);
    lemma_flat_one(z);
}

proof fn lemma_flat_normalized(segs: Seq<SegView>, cur: (int, int))
    ensures
        flat(normalized(segs, cur).0) == flat(segs),
{
    lemma_merge_fold(Seq::empty(), segs, cur);
    assert(flat(Seq::<SegView>::empty()) + flat(segs) =~= flat(segs));
}

/// The flat text of segments with `m` in place of the one at `i`.
proof fn lemma_flat_splice(segs: Seq<SegView>, i: int, m: Seq<SegView>)
    requires
        0 <= i < segs.len(),
    ensures
        flat(segs.take(i) + m + segs.skip(i + 1)) == flat(segs.take(i)) + flat(m) + flat(segs.skip(i + 1)),
        flat(segs) == flat(segs.take(i)) + seg_chars(segs[i]) + flat(segs.skip(i + 1)),
{
    lemma_flat3(segs.take(i), m, segs.skip(i + 1));
    lemma_flat_at(segs, i);
}

proof fn lemma_paste_in_text(segs: Seq<SegView>, i: int, b: int, content: Seq<char>)
    requires
        0 <= i < segs.len(),
        segs[i] is Text,
        b != 0,
        b < text_len(segs[i]->Text_0),
        char_index(segs[i]->Text_0, b) >= 0,
    ensures
        ({
            let t = segs[i]->Text_0;
            let k = char_index(t, b);
            let pre = segs.update(i, SegView::Text(t.take(k))).insert(i + 1, paste_of(content)).insert(
                i + 2,
                SegView::Text(t.skip(k)),
            );
            let f = flat(segs);
            let p = flat(segs.take(i)).len() + k;
            flat(pre) == f.take(p) + content + f.skip(p)
        }),
{
    let t = segs[i]->Text_0;
    let k = char_index(t, b);
    lemma_char_index(t, b);
    let blk = paste_of(content);
    let x = SegView::Text(t.take(k));
    let y = SegView::Text(t.skip(k));
    let pre = segs.update(i, x).insert(i + 1, blk).insert(i + 2, y);
    assert(pre =~= segs.take(i) + seq![x, blk, y] + segs.skip(i + 1));
    lemma_flat_splice(segs, i, seq![x, blk, y]);
    lemma_flat_three(x, blk, y);
    let a = flat(segs.take(i));
    let r = flat(segs.skip(i + 1));
    let f = flat(segs);
    assert(t =~= t.take(k) + t.skip(k));
    let p = a.len() + k;
    assert(f.take(p) =~= a + t.take(k));
    assert(f.skip(p) =~= t.skip(k) + r);
    assert(flat(pre) =~= f.take(p) + content + f.skip(p));
}

proof fn lemma_paste_around(segs: Seq<SegView>, i: int, content: Seq<char>, before: bool, replace_empty: bool)
    requires
        0 <= i < segs.len(),
        replace_empty ==> segs[i] == SegView::Text(Seq::empty()),
    ensures
        ({
            let blk = paste_of(content);
            let e = SegView::Text(Seq::<char>::empty());
            let m = if replace_empty {
                seq![blk, e]
            } else if before {
                seq![blk, segs[i]]
            } else {
                seq![segs[i], blk, e]
            };
            let f = flat(segs);
            let p = if replace_empty || before {
                flat(segs.take(i)).len() as int
            } else {
                flat(segs.take(i + 1)).len() as int
            };
            flat(segs.take(i) + m + segs.skip(i + 1)) == f.take(p) + content + f.skip(p)
        }),
{
    let blk = paste_of(content);
    let e = SegView::Text(Seq::<char>::empty());
    let m = if replace_empty {
        seq![blk, e]
    } else if before {
        seq![blk, segs[i]]
    } else {
        seq![segs[i], blk, e]
    };
    lemma_flat_splice(segs, i, m);
    lemma_flat_at(segs, i);
    let a = flat(segs.take(i));
    let r = flat(segs.skip(i + 1));
    let mid = seg_chars(segs[i]);
    let f = flat(segs);
    if replace_empty {
        lemma_flat_two(blk, e);
        assert(mid =~= Seq::<char>::empty());
        assert(f.take(a.len() as int) =~= a);
        assert(f.skip(a.len() as int) =~= r);
        assert(flat(m) + r =~= content + f.skip(a.len() as int));
    } else if before {
        lemma_flat_two(blk, segs[i]);
        assert(f.take(a.len() as int) =~= a);
        assert(f.skip(a.len() as int) =~= mid + r);
    } else {
        lemma_flat_three(segs[i], blk, e);
        assert(f.take((a + mid).len() as int) =~= a + mid);
        assert(f.skip((a + mid).len() as int) =~= r);
    }
}

/// Pasting puts the pasted text into the flat text exactly where the
/// cursor is, and changes nothing else of it.
pub proof fn law_paste_lands_at_cursor(segs: Seq<SegView>, cur: (int, int), content: Seq<char>)
    requires
        0 <= cur.0,
        cursor_on_boundary(segs, cur),
    ensures
        ({
            let f = flat(segs);
            let p = paste_point(segs, cur);
            flat(after_insert_paste(segs, cur, paste_of(content)).0) == f.take(p) + content + f.skip(p)
        }),
{
    let blk = paste_of(content);
    let e = SegView::Text(Seq::<char>::empty());
    let f = flat(segs);
    let i = cur.0;
    let b = cur.1;
    if segs.len() == 0 {
        lemma_flat_normalized(seq![blk, e], (1, 0));
        lemma_flat_two(blk, e);
        assert(f =~= Seq::<char>::empty());
        assert(flat(seq![blk, e]) =~= f.take(0) + content + f.skip(0));
    } else if i >= segs.len() {
        let pre = segs.push(blk).push(e);
        lemma_flat_normalized(pre, (segs.len() as int + 1, 0));
        assert(pre =~= segs + seq![blk, e] + Seq::<SegView>::empty());
        lemma_flat3(segs, seq![blk, e], Seq::<SegView>::empty());
        lemma_flat_two(blk, e);
        assert(flat(Seq::<SegView>::empty()) =~= Seq::<char>::empty());
        assert(flat(pre) =~= f.take(f.len() as int) + content + f.skip(f.len() as int));
    } else {
        match segs[i] {
            SegView::Text(t) => {
                if b == 0 && t.len() == 0 {
                    let pre = segs.update(i, blk).insert(i + 1, e);
                    assert(pre =~= segs.take(i) + seq![blk, e] + segs.skip(i + 1));
                    assert(segs[i] == e) by {
                        assert(t =~= Seq::<char>::empty());
                    }
                    lemma_paste_around(segs, i, content, false, true);
                    lemma_flat_normalized(pre, (i + 1, 0));
                } else if b == 0 {
                    let pre = segs.insert(i, blk);
                    assert(pre =~= segs.take(i) + seq![blk, segs[i]] + segs.skip(i + 1));
                    lemma_paste_around(segs, i, content, true, false);
                    lemma_flat_normalized(pre, (i + 1, 0));
                } else if b >= text_len(t) {
                    let pre = segs.insert(i + 1, blk).insert(i + 2, e);
                    assert(pre =~= segs.take(i) + seq![segs[i], blk, e] + segs.skip(i + 1));
                    lemma_paste_around(segs, i, content, false, false);
                    lemma_flat_normalized(pre, (i + 2, 0));
                } else {
                    let k = char_index(t, b);
                    let pre = segs.update(i, SegView::Text(t.take(k))).insert(i + 1, blk).insert(
                        i + 2,
                        SegView::Text(t.skip(k)),
                    );
                    lemma_paste_in_text(segs, i, b, content);
                    lemma_flat_normalized(pre, (i + 2, 0));
                }
            },
            SegView::Paste(_, _) => {
                let pre = segs.insert(i, blk);
                assert(pre =~= segs.take(i) + seq![blk, segs[i]] + segs.skip(i + 1));
                lemma_paste_around(segs, i, content, true, false);
                lemma_flat_normalized(pre, (i + 1, 0));
            },
        }
    }
}

/// Line feeds in `s`.
pub open spec fn newlines(s: Seq<char>) -> nat
    decreases s.len(),
{
    if s.len() == 0 {
        0
    } else {
        newlines(s.drop_last()) + if s.last() == '\n' {
            1nat
        } else {
            0nat
        }
    }
}

proof fn lemma_newlines_le(s: Seq<char>)
    ensures
        newlines(s) <= s.len(),
    decreases s.len(),
{
    if s.len() > 0 {
        lemma_newlines_le(s.drop_last());
    }
}

/// Lines as `str::lines` yields them: one per line feed, and one more for
/// a last line without one.
pub open spec fn line_count(s: Seq<char>) -> nat {
    newlines(s) + if s.len() > 0 && s.last() != '\n' {
        1nat
    } else {
        0nat
    }
}

/// The paste block made of `content`.
pub open spec fn paste_of(content: Seq<char>) -> SegView {
    SegView::Paste(content, if line_count(content) == 0 { 1 } else { line_count(content) })
}

/// On a paste block the cursor's offset is 0: it sits at the block's
/// boundary, never inside it.
pub open spec fn off_paste_inside(segs: Seq<SegView>, cur: (int, int)) -> bool {
    0 <= cur.0 < segs.len() && segs[cur.0] is Paste ==> cur.1 == 0
}

proof fn lemma_normalized_off_paste_inside(segs: Seq<SegView>, cur: (int, int))
    ensures
        off_paste_inside(normalized(segs, cur).0, normalized(segs, cur).1),
{
}

/// Every edit and every cursor movement keeps the cursor off the inside
/// of a paste block; those that rebuild the buffer (typing, deleting,
/// pasting, setting the text) put it there whatever it was before.
pub proof fn law_cursor_never_inside_paste(segs: Seq<SegView>, cur: (int, int), c: char, content: Seq<char>)
    requires
        off_paste_inside(segs, cur),
    ensures
        off_paste_inside(after_insert_char(segs, cur, c).0, after_insert_char(segs, cur, c).1),
        off_paste_inside(after_backspace(segs, cur).0, after_backspace(segs, cur).1),
        off_paste_inside(after_delete_forward(segs, cur).0, after_delete_forward(segs, cur).1),
        off_paste_inside(after_move_left(segs, cur).0, after_move_left(segs, cur).1),
        off_paste_inside(after_move_right(segs, cur).0, after_move_right(segs, cur).1),
        off_paste_inside(segs, home_cursor(segs)),
        off_paste_inside(segs, end_cursor(segs)),
        off_paste_inside(
            after_insert_paste(segs, cur, paste_of(content)).0,
            after_insert_paste(segs, cur, paste_of(content)).1,
        ),
        off_paste_inside(normalized(segs, cur).0, normalized(segs, cur).1),
{
    let (s1, c1) = ensure_text(segs, cur);
    let t = s1[c1.0]->Text_0;
    lemma_normalized_off_paste_inside(
        s1.update(c1.0, SegView::Text(t.insert(char_index(t, c1.1), c))),
        (c1.0, sat_add(c1.1, char_width(c) as int)),
    );
    lemma_normalized_off_paste_inside(segs, cur);
    let i = cur.0;
    let b = cur.1;
    if segs.len() > 0 && i < segs.len() && segs[i] is Text && b > 0 {
        let tt = segs[i]->Text_0;
        let k = char_index(tt, b);
        lemma_normalized_off_paste_inside(segs.update(i, SegView::Text(tt.remove(k - 1))), (i, byte_len(tt.take(k - 1)) as int));
    }
    if home_cursor(segs) != (0int, 0int) {
        let f = first_text_from(segs, 0);
        lemma_first_text_from(segs, 0);
        assert(segs[f] is Text);
    }
}

proof fn lemma_first_text_from(segs: Seq<SegView>, k: int)
    ensures
        first_text_from(segs, k) >= 0 ==> k <= first_text_from(segs, k) < segs.len() && segs[first_text_from(segs, k)] is Text,
    decreases segs.len() - k,
{
    if 0 <= k < segs.len() && !(segs[k] is Text) {
        lemma_first_text_from(segs, k + 1);
    }
}

/// The text of the segment, when it is one.
fn text_of(s: &InputSegment) -> (r: Option<&String>)
    ensures
        r matches Some(t) ==> seg_view(*s) == SegView::Text(t@),
        r is None <==> seg_view(*s) is Paste,
{
    match s {
        InputSegment::Text(t) => Some(t),
        InputSegment::PasteBlock { .. } => None,
    }
}

fn is_paste(s: &InputSegment) -> (r: bool)
    ensures
        r == seg_view(*s) is Paste,
{
    match s {
        InputSegment::Text(_) => false,
        InputSegment::PasteBlock { .. } => true,
    }
}


/// The index of the character of `t` that starts at byte `b`.
pub(crate) fn char_index_of(t: &[char], b: usize) -> (r: Option<usize>)
    ensures
        r matches Some(k) ==> k == char_index(t@, b as int),
        r is None <==> char_index(t@, b as int) < 0,
{
    let mut k: usize = 0;
    let mut acc: usize = 0;
    proof {
        assert(t@.take(0) =~= Seq::<char>::empty());
        assert(vstd::utf8::encode_utf8(Seq::<char>::empty()) =~= Seq::<u8>::empty());
    }
    while acc < b && k < t.len()
        invariant
            k <= t@.len(),
            acc <= b,
            acc == byte_len(t@.take(k as int)),
            idx_from(t@, k as int, acc as int, b as int) == char_index(t@, b as int),
        decreases t@.len() - k,
    {
        let w = utf8_width(t[k]);
        proof {
            lemma_prefix_bytes_step(t@, k as int);
        }
        if b - acc < w {
            proof {
                assert(idx_from(t@, k + 1, acc + w, b as int) == -1);
            }
            return None;
        }
        acc = acc + w;
        k = k + 1;
    }
    if acc == b {
        Some(k)
    } else {
        None
    }
}


/// Lines of `s` as `str::lines` counts them, at least 1.
fn paste_line_count(s: &str) -> (n: usize)
    ensures
        n == (if line_count(s@) == 0 { 1 } else { line_count(s@) }),
{
    let len = s.unicode_len();
    let mut count: usize = 0;
    let mut i: usize = 0;
    proof {
        assert(s@.take(0) =~= Seq::<char>::empty());
    }
    while i < len
        invariant
            len == s@.len(),
            i <= len,
            count == newlines(s@.take(i as int)),
            count <= i,
        decreases len - i,
    {
        proof {
            assert(s@.take(i + 1).drop_last() =~= s@.take(i as int));
        }
        if s.get_char(i) == '\n' {
            count = count + 1;
        }
        i = i + 1;
    }
    assert(s@.take(len as int) =~= s@);
    if len > 0 && s.get_char(len - 1) != '\n' {
        proof {
            assert(s@.take(len - 1) =~= s@.drop_last());
            assert(newlines(s@) == newlines(s@.drop_last()));
            lemma_newlines_le(s@.drop_last());
        }
        count = count + 1;
    }
    if count == 0 {
        1
    } else {
        count
    }
}

/// Byte length of a string, as `str::len` reports it; a string's bytes
/// always fit in a `usize`.
pub(crate) fn text_bytes(t: &String) -> (n: usize)
    ensures
        n == text_len(t@),
        n == byte_len(t@),
{
    t.as_str().as_bytes().len()
}

/// A buffer of text and paste-block segments with a cursor.
#[derive(Debug)]
pub struct InputBuffer {
    pub segments: Vec<InputSegment>,
    /// `(segment_index, byte_offset_within_segment)`.
    pub cursor: (usize, usize),
}


impl Default for InputBuffer {
    fn default() -> (r: Self)
        ensures
            r.segs() == Seq::<SegView>::empty(),
            r.cur() == (0int, 0int),
            cursor_ok(r.segs(), r.cur()),
    {
        let r = InputBuffer { segments: Vec::new(), cursor: (0, 0) };
        assert(r.segs() =~= Seq::<SegView>::empty());
        r
    }
}

impl Clone for InputBuffer {
    fn clone(&self) -> (r: Self)
        ensures
            r.cursor == self.cursor,
            r.segments@.len() == self.segments@.len(),
    {
        InputBuffer { segments: self.segments.clone(), cursor: self.cursor }
    }
}

impl InputBuffer {
    /// The segments as views.
    pub open spec fn segs(&self) -> Seq<SegView> {
        segs_view(self.segments@)
    }

    /// The cursor as integers.
    pub open spec fn cur(&self) -> (int, int) {
        (self.cursor.0 as int, self.cursor.1 as int)
    }


    /// Whether the buffer holds no text and no paste block.
    pub fn is_empty(&self) -> (r: bool)
        ensures
            r == all_empty(self.segs()),
    {
        let mut i: usize = 0;
        while i < self.segments.len()
            invariant
                i <= self.segments.len(),
                all_empty(self.segs().take(i as int)),
            decreases self.segments.len() - i,
        {
            match &self.segments[i] {
                InputSegment::Text(t) => {
                    if !t.as_str().is_empty() {
                        assert(self.segs()[i as int] != SegView::Text(Seq::empty()));
                        return false;
                    }
                    assert(t@ =~= Seq::<char>::empty());
                },
                InputSegment::PasteBlock { .. } => {
                    return false;
                },
            }
            proof {
                assert(self.segs()[i as int] == SegView::Text(Seq::empty()));
                assert forall|j: int| 0 <= j < i + 1 implies #[trigger] self.segs().take(i + 1)[j]
                    == SegView::Text(Seq::empty()) by {
                    if j < i {
                        assert(self.segs().take(i as int)[j] == self.segs().take(i + 1)[j]);
                    }
                }
            }
            i = i + 1;
        }
        assert(self.segs().take(i as int) =~= self.segs());
        true
    }

    /// Remove every segment and put the cursor at the start.
    pub fn clear(&mut self)
        ensures
            final(self).segs() == Seq::<SegView>::empty(),
            final(self).cur() == (0int, 0int),
            cursor_ok(final(self).segs(), final(self).cur()),
    {
        self.segments.clear();
        self.cursor = (0, 0);
        assert(self.segs() =~= Seq::<SegView>::empty());
    }

    /// The whole input as one string, paste blocks inline with their
    /// newlines.
    pub fn flat_text(&self) -> (r: String)
        ensures
            r@ == flat(self.segs()),
    {
        let mut out = String::new();
        let mut i: usize = 0;
        proof {
            assert(self.segs().take(0) =~= Seq::<SegView>::empty());
        }
        while i < self.segments.len()
            invariant
                i <= self.segments.len(),
                out@ == flat(self.segs().take(i as int)),
            decreases self.segments.len() - i,
        {
            proof {
                lemma_flat_at(self.segs(), i as int);
            }
            match &self.segments[i] {
                InputSegment::Text(t) => out.append(t.as_str()),
                InputSegment::PasteBlock { raw, .. } => out.append(raw.as_str()),
            }
            i = i + 1;
        }
        assert(self.segs().take(i as int) =~= self.segs());
        out
    }

    /// Whether the first segment is a text starting with `/`.
    pub fn starts_with_slash(&self) -> (r: bool)
        ensures
            r == (self.segs().len() > 0 && self.segs()[0] is Text && self.segs()[0]->Text_0.len()
                > 0 && self.segs()[0]->Text_0[0] == '/'),
    {
        if self.segments.len() == 0 {
            return false;
        }
        match &self.segments[0] {
            InputSegment::Text(t) => {
                let s = t.as_str();
                s.unicode_len() > 0 && s.get_char(0) == '/'
            },
            InputSegment::PasteBlock { .. } => false,
        }
    }

    /// The first text segment, for filtering the command palette; empty
    /// when the buffer starts with a paste block or is empty.
    pub fn text_for_palette(&self) -> (r: &str)
        ensures
            r@ == (if self.segs().len() > 0 && self.segs()[0] is Text {
                self.segs()[0]->Text_0
            } else {
                Seq::<char>::empty()
            }),
    {
        proof {
            reveal_strlit("");
        }
        if self.segments.len() == 0 {
            return "";
        }
        match &self.segments[0] {
            InputSegment::Text(t) => t.as_str(),
            InputSegment::PasteBlock { .. } => "",
        }
    }

    /// Whether any segment is a paste block.
    pub fn has_paste_blocks(&self) -> (r: bool)
        ensures
            r == has_paste(self.segs()),
    {
        let mut i: usize = 0;
        while i < self.segments.len()
            invariant
                i <= self.segments.len(),
                forall|j: int| 0 <= j < i ==> !(#[trigger] self.segs()[j] is Paste),
            decreases self.segments.len() - i,
        {
            if is_paste(&self.segments[i]) {
                assert(self.segs()[i as int] is Paste);
                return true;
            }
            i = i + 1;
        }
        false
    }

    /// Lines over all paste blocks.
    pub fn paste_block_total_lines(&self) -> (r: usize)
        requires
            total_lines(self.segs()) <= usize::MAX,
        ensures
            r == total_lines(self.segs()),
    {
        let mut sum: usize = 0;
        let mut i: usize = 0;
        proof {
            assert(self.segs().take(0) =~= Seq::<SegView>::empty());
        }
        while i < self.segments.len()
            invariant
                i <= self.segments.len(),
                sum == total_lines(self.segs().take(i as int)),
                total_lines(self.segs()) <= usize::MAX,
            decreases self.segments.len() - i,
        {
            proof {
                let sg = self.segs();
                assert(sg.take(i + 1).drop_last() =~= sg.take(i as int));
                assert(sg =~= sg.take(i + 1) + sg.skip(i + 1));
                lemma_total_lines_concat(sg.take(i + 1), sg.skip(i + 1));
            }
            match &self.segments[i] {
                InputSegment::PasteBlock { line_count, .. } => {
                    sum = sum + *line_count;
                },
                InputSegment::Text(_) => {},
            }
            i = i + 1;
        }
        assert(self.segs().take(i as int) =~= self.segs());
        sum
    }

    /// Replace the whole buffer with one text segment, the cursor at its
    /// end.
    pub fn set_text(&mut self, s: String)
        ensures
            final(self).segs() == (if s@.len() == 0 {
                Seq::<SegView>::empty()
            } else {
                seq![SegView::Text(s@)]
            }),
            final(self).cur() == (0int, if s@.len() == 0 {
                0int
            } else {
                text_len(s@)
            }),
            flat(final(self).segs()) == s@,
            cursor_ok(final(self).segs(), final(self).cur()),
    {
        let len = text_bytes(&s);
        let ghost sv = s@;
        self.segments.clear();
        if !s.as_str().is_empty() {
            self.segments.push(InputSegment::Text(s));
        }
        self.cursor = (0, len);
        proof {
            let e = Seq::<SegView>::empty();
            if sv.len() == 0 {
                assert(self.segs() =~= e);
            } else {
                let one = seq![SegView::Text(sv)];
                assert(self.segs() =~= one);
                assert(one[0] == SegView::Text(sv));
                assert(e.push(SegView::Text(sv)) =~= one);
                assert(merge_step(e, one[0], self.cur()) == (one, self.cur()));
                assert(one.drop_first() =~= e);
                assert(merge_fold(one, e, self.cur()) == (one, self.cur()));
                assert(merge_fold(e, one, self.cur()) == (one, self.cur()));
                lemma_flat_one(SegView::Text(sv));
                lemma_boundary_ends(sv);
            }
            assert(cursor_ok(self.segs(), self.cur()));
        }
        self.normalize();
    }

    /// Take the whole input and empty the buffer; `None` when it is only
    /// whitespace.
    pub fn take_flat(&mut self) -> (r: Option<String>)
        ensures
            final(self).segs() == Seq::<SegView>::empty(),
            final(self).cur() == (0int, 0int),
            r is None <==> crate::text::trim_seq(flat(old(self).segs())).len() == 0,
            r matches Some(t) ==> t@ == flat(old(self).segs()),
            cursor_ok(final(self).segs(), final(self).cur()),
    {
        let text = self.flat_text();
        self.clear();
        let chars = str_to_chars(text.as_str());
        let trimmed = crate::text::trim_chars(&chars);
        if trimmed.len() == 0 {
            None
        } else {
            Some(text)
        }
    }

    /// Put a text segment at the cursor when it is on a paste block or past
    /// the end, so that a character has somewhere to go.
    fn ensure_text_at_cursor(&mut self)
        ensures
            (final(self).segs(), final(self).cur()) == ensure_text(old(self).segs(), old(self).cur()),
    {
        let ghost s0 = self.segs();
        if self.segments.len() == 0 {
            self.segments.push(InputSegment::Text(String::new()));
            self.cursor = (0, 0);
            assert(self.segs() =~= seq![SegView::Text(Seq::empty())]);
            return;
        }
        if self.cursor.0 >= self.segments.len() {
            self.segments.push(InputSegment::Text(String::new()));
            self.cursor = (self.segments.len() - 1, 0);
            assert(self.segs() =~= s0.push(SegView::Text(Seq::empty())));
            return;
        }
        if is_paste(&self.segments[self.cursor.0]) {
            let insert_idx = self.cursor.0 + 1;
            self.segments.insert(insert_idx, InputSegment::Text(String::new()));
            self.cursor = (insert_idx, 0);
            assert(self.segs() =~= s0.insert(insert_idx as int, SegView::Text(Seq::empty())));
        }
    }

    /// Type `c` at the cursor.
    pub fn insert_char(&mut self, c: char)
        requires
            cursor_on_boundary(old(self).segs(), old(self).cur()),
        ensures
            (final(self).segs(), final(self).cur()) == after_insert_char(
                old(self).segs(),
                old(self).cur(),
                c,
            ),
            flat(final(self).segs()) == flat(old(self).segs()).insert(
                insert_point(old(self).segs(), old(self).cur()),
                c,
            ),
            cursor_ok(final(self).segs(), final(self).cur()),
    {
        let ghost s0 = self.segs();
        let ghost c0 = self.cur();
        self.ensure_text_at_cursor();
        let ghost s1 = self.segs();
        proof {
            lemma_ensure_text(s0, c0);
            lemma_char_index(s1[self.cursor.0 as int]->Text_0, self.cursor.1 as int);
        }
        let i = self.cursor.0;
        let t = text_of(&self.segments[i]).unwrap();
        let chars = str_to_chars(t.as_str());
        let k = char_index_of(&chars, self.cursor.1).unwrap();
        let mut v = chars;
        v.insert(k, c);
        let w = utf8_width(c);
        let nt = chars_to_string(&v);
        let ntl = text_bytes(&nt);
        let ghost c1 = self.cur();
        self.segments.set(i, InputSegment::Text(nt));
        self.cursor = (i, self.cursor.1.saturating_add(w));
        proof {
            let tv = s1[i as int]->Text_0;
            let tn = tv.insert(k as int, c);
            lemma_char_index(tv, c1.1);
            assert(tn.take(k + 1) =~= tv.take(k as int).push(c));
            crate::text::lemma_byte_len_push(tv.take(k as int), c);
            lemma_prefix_bytes_mono(tn, k + 1, tn.len() as int);
            assert(tn.take(tn.len() as int) =~= tn);
            lemma_boundary_at(tn, k + 1);
            assert(cursor_ok(self.segs(), self.cur()));
            assert(self.segs() =~= s1.update(i as int, SegView::Text(tv.insert(k as int, c))));
            lemma_char_index(tv, c0.1);
            lemma_flat_update(s1, i as int, SegView::Text(tv.insert(k as int, c)));
            lemma_flat_at(s1, i as int);
            if s0.len() == 0 {
                lemma_flat_one(SegView::Text(Seq::empty()));
                assert(s1.take(0) =~= Seq::<SegView>::empty());
            } else if c0.0 >= s0.len() {
                lemma_flat_empty_text(s0, s0.len() as int);
                assert(s0.insert(s0.len() as int, SegView::Text(Seq::empty())) =~= s1);
                assert(s1.take(i as int) =~= s0);
            } else if s0[c0.0] is Paste {
                lemma_flat_empty_text(s0, c0.0 + 1);
                assert(s1.take(i as int) =~= s0.take(c0.0 + 1));
            }
            let a = flat(s1.take(i as int));
            let b = flat(s1.skip(i + 1));
            assert(a + tv.insert(k as int, c) + b =~= (a + tv + b).insert(a.len() + k, c));
        }
        self.normalize();
    }


    /// Delete the character before the cursor, or the whole paste block
    /// when the cursor is just after one.
    #[verifier::spinoff_prover]
    #[verifier::rlimit(40)]
    pub fn backspace(&mut self)
        requires
            old(self).cursor.0 <= old(self).segments.len(),
            old(self).cursor.0 < old(self).segments.len() && old(self).segs()[old(
                self,
            ).cursor.0 as int] is Text && old(self).cursor.1 > 0 ==> char_index(
                old(self).segs()[old(self).cursor.0 as int]->Text_0,
                old(self).cursor.1 as int,
            ) >= 0,
        ensures
            (final(self).segs(), final(self).cur()) == after_backspace(old(self).segs(), old(self).cur()),
            cursor_ok(old(self).segs(), old(self).cur()) ==> cursor_ok(final(self).segs(), final(self).cur()),
    {
        let ghost s0 = self.segs();
        if self.segments.len() == 0 {
            return;
        }
        let seg_idx = self.cursor.0;
        let byte_off = self.cursor.1;
        if seg_idx < self.segments.len() && byte_off > 0 {
            match text_of(&self.segments[seg_idx]) {
                Some(t) => {
                    let chars = str_to_chars(t.as_str());
                    let k = char_index_of(&chars, byte_off).unwrap();
                    proof {
                        lemma_char_index(chars@, byte_off as int);
                        assert(chars@.take(0) =~= Seq::<char>::empty());
                        assert(vstd::utf8::encode_utf8(Seq::<char>::empty()) =~= Seq::<u8>::empty());
                        lemma_prefix_bytes_step(chars@, k - 1);
                    }
                    let w = utf8_width(chars[k - 1]);
                    let prev = byte_off - w;
                    let mut v = chars;
                    v.remove(k - 1);
                    self.segments.set(seg_idx, InputSegment::Text(chars_to_string(&v)));
                    self.cursor = (seg_idx, prev);
                    proof {
                        let tv = s0[seg_idx as int]->Text_0;
                        assert(self.segs() =~= s0.update(
                            seg_idx as int,
                            SegView::Text(tv.remove(k - 1)),
                        ));
                        let tn = tv.remove(k - 1);
                        assert(tn.take(k - 1) =~= tv.take(k - 1));
                        lemma_boundary_at(tn, k - 1);
                        assert(cursor_ok(self.segs(), self.cur()));
                    }
                    self.normalize();
                    return;
                },
                None => {},
            }
        }
        if seg_idx == 0 {
            if is_paste(&self.segments[0]) {
                self.segments.remove(0);
                self.cursor = (0, 0);
                assert(self.segs() =~= s0.remove(0));
                assert(cursor_ok(self.segs(), self.cur()));
                self.normalize();
            }
            return;
        }
        let prev_idx = seg_idx - 1;
        match text_of(&self.segments[prev_idx]) {
            None => {
                self.segments.remove(prev_idx);
                self.cursor = (prev_idx, byte_off);
                assert(self.segs() =~= s0.remove(prev_idx as int));
                proof {
                    if cursor_ok(s0, (seg_idx as int, byte_off as int)) {
                        if seg_idx < s0.len() {
                            assert(self.segs()[prev_idx as int] == s0[seg_idx as int]);
                        }
                        assert(cursor_ok(self.segs(), self.cur()));
                    }
                }
                self.normalize();
            },
            Some(t) => {
                let chars = str_to_chars(t.as_str());
                if chars.len() > 0 {
                    let n = chars.len();
                    proof {
                        assert(chars@.take(n as int) =~= chars@);
                        lemma_prefix_bytes_step(chars@, n - 1);
                    }
                    let w = utf8_width(chars[n - 1]);
                    let tl = text_bytes(t);
                    let prev_char_idx = tl - w;
                    let mut v = chars;
                    v.pop();
                    self.segments.set(prev_idx, InputSegment::Text(chars_to_string(&v)));
                    self.cursor = (prev_idx, prev_char_idx);
                    proof {
                        let tv = s0[prev_idx as int]->Text_0;
                        assert(v@ =~= tv.drop_last());
                        assert(self.segs() =~= s0.update(prev_idx as int, SegView::Text(tv.drop_last())));
                        assert(tv.drop_last() =~= tv.take(n - 1));
                        lemma_boundary_ends(tv.drop_last());
                        assert(cursor_ok(self.segs(), self.cur()));
                    }
                    self.normalize();
                }
            },
        }
    }

    /// Delete the character after the cursor, or the paste block there.
    #[verifier::spinoff_prover]
    #[verifier::rlimit(40)]
    pub fn delete_forward(&mut self)
        requires
            old(self).cursor.0 < old(self).segments.len() && old(self).segs()[old(
                self,
            ).cursor.0 as int] is Text && old(self).cursor.1 < text_len(
                old(self).segs()[old(self).cursor.0 as int]->Text_0,
            ) ==> char_index(
                old(self).segs()[old(self).cursor.0 as int]->Text_0,
                old(self).cursor.1 as int,
            ) >= 0,
        ensures
            (final(self).segs(), final(self).cur()) == after_delete_forward(
                old(self).segs(),
                old(self).cur(),
            ),
            cursor_ok(old(self).segs(), old(self).cur()) ==> cursor_ok(final(self).segs(), final(self).cur()),
    {
        let ghost s0 = self.segs();
        if self.segments.len() == 0 {
            return;
        }
        let seg_idx = self.cursor.0;
        let byte_off = self.cursor.1;
        if seg_idx >= self.segments.len() {
            return;
        }
        match text_of(&self.segments[seg_idx]) {
            Some(t) => {
                if byte_off < text_bytes(t) {
                    let chars = str_to_chars(t.as_str());
                    let k = char_index_of(&chars, byte_off).unwrap();
                    proof {
                        lemma_char_index(chars@, byte_off as int);
                        if k == chars.len() {
                            assert(chars@.take(k as int) =~= chars@);
                        }
                    }
                    let mut v = chars;
                    v.remove(k);
                    self.segments.set(seg_idx, InputSegment::Text(chars_to_string(&v)));
                    proof {
                        let tv = s0[seg_idx as int]->Text_0;
                        assert(self.segs() =~= s0.update(seg_idx as int, SegView::Text(tv.remove(k as int))));
                        let tn = tv.remove(k as int);
                        assert(tn.take(k as int) =~= tv.take(k as int));
                        lemma_boundary_at(tn, k as int);
                        assert(cursor_ok(self.segs(), self.cur()));
                    }
                    self.normalize();
                    return;
                }
                let next_idx = seg_idx + 1;
                if next_idx < self.segments.len() && is_paste(&self.segments[next_idx]) {
                    self.segments.remove(next_idx);
                    assert(self.segs() =~= s0.remove(next_idx as int));
                    assert(self.segs()[seg_idx as int] == s0[seg_idx as int]);
                    self.normalize();
                } else if next_idx < self.segments.len() {
                    match text_of(&self.segments[next_idx]) {
                        Some(nt) => {
                            let chars = str_to_chars(nt.as_str());
                            if chars.len() > 0 {
                                let mut v = chars;
                                v.remove(0);
                                self.segments.set(next_idx, InputSegment::Text(chars_to_string(&v)));
                                proof {
                                    let tv = s0[next_idx as int]->Text_0;
                                    assert(v@ =~= tv.drop_first());
                                    assert(self.segs() =~= s0.update(
                                        next_idx as int,
                                        SegView::Text(tv.drop_first()),
                                    ));
                                    assert(self.segs()[seg_idx as int] == s0[seg_idx as int]);
                                }
                                self.normalize();
                            }
                        },
                        None => {},
                    }
                }
            },
            None => {
                self.segments.remove(seg_idx);
                assert(self.segs() =~= s0.remove(seg_idx as int));
                proof {
                    if seg_idx < self.segments.len() {
                        let nx = self.segs()[seg_idx as int];
                        if nx is Text {
                            lemma_boundary_ends(nx->Text_0);
                        }
                    }
                }
                self.normalize();
            },
        }
    }

    /// Move the cursor one character left, over a paste block as a whole.
    pub fn move_left(&mut self)
        requires
            old(self).cursor.0 <= old(self).segments.len(),
            old(self).cursor.0 < old(self).segments.len() && old(self).segs()[old(
                self,
            ).cursor.0 as int] is Text && old(self).cursor.1 > 0 ==> char_index(
                old(self).segs()[old(self).cursor.0 as int]->Text_0,
                old(self).cursor.1 as int,
            ) >= 0,
        ensures
            (final(self).segs(), final(self).cur()) == after_move_left(old(self).segs(), old(self).cur()),
            cursor_ok(old(self).segs(), old(self).cur()) ==> cursor_ok(final(self).segs(), final(self).cur()),
    {
        let ghost s0 = self.segs();
        if self.segments.len() == 0 {
            return;
        }
        let seg_idx = self.cursor.0;
        let byte_off = self.cursor.1;
        if seg_idx < self.segments.len() && byte_off > 0 {
            match text_of(&self.segments[seg_idx]) {
                Some(t) => {
                    let chars = str_to_chars(t.as_str());
                    let k = char_index_of(&chars, byte_off).unwrap();
                    proof {
                        lemma_char_index(chars@, byte_off as int);
                        assert(chars@.take(0) =~= Seq::<char>::empty());
                        assert(vstd::utf8::encode_utf8(Seq::<char>::empty()) =~= Seq::<u8>::empty());
                        lemma_prefix_bytes_step(chars@, k - 1);
                    }
                    let w = utf8_width(chars[k - 1]);
                    self.cursor = (seg_idx, byte_off - w);
                    proof {
                        lemma_boundary_at(chars@, k - 1);
                    }
                    return;
                },
                None => {},
            }
        }
        if seg_idx == 0 {
            return;
        }
        let prev_idx = seg_idx - 1;
        match text_of(&self.segments[prev_idx]) {
            None => {
                if prev_idx == 0 {
                    self.segments.insert(0, InputSegment::Text(String::new()));
                    self.cursor = (0, 0);
                    assert(self.segs() =~= s0.insert(0, SegView::Text(Seq::empty())));
                } else {
                    let prev_prev = prev_idx - 1;
                    match text_of(&self.segments[prev_prev]) {
                        Some(t) => {
                            self.cursor = (prev_prev, text_bytes(t));
                            proof {
                                lemma_boundary_ends(t@);
                            }
                        },
                        None => {
                            self.cursor = (prev_prev, 0);
                        },
                    }
                }
            },
            Some(t) => {
                self.cursor = (prev_idx, text_bytes(t));
                proof {
                    lemma_boundary_ends(t@);
                }
            },
        }
    }

    /// Move the cursor one character right, over a paste block as a whole.
    pub fn move_right(&mut self)
        requires
            old(self).cursor.0 < old(self).segments.len() && old(self).segs()[old(
                self,
            ).cursor.0 as int] is Text && old(self).cursor.1 < text_len(
                old(self).segs()[old(self).cursor.0 as int]->Text_0,
            ) ==> char_index(
                old(self).segs()[old(self).cursor.0 as int]->Text_0,
                old(self).cursor.1 as int,
            ) >= 0,
        ensures
            (final(self).segs(), final(self).cur()) == after_move_right(old(self).segs(), old(self).cur()),
            cursor_ok(old(self).segs(), old(self).cur()) ==> cursor_ok(final(self).segs(), final(self).cur()),
    {
        if self.segments.len() == 0 {
            return;
        }
        let seg_idx = self.cursor.0;
        let byte_off = self.cursor.1;
        if seg_idx >= self.segments.len() {
            return;
        }
        match text_of(&self.segments[seg_idx]) {
            Some(t) => {
                if byte_off < text_bytes(t) {
                    let chars = str_to_chars(t.as_str());
                    let k = char_index_of(&chars, byte_off).unwrap();
                    proof {
                        lemma_char_index(chars@, byte_off as int);
                        if k == chars.len() {
                            assert(chars@.take(k as int) =~= chars@);
                        }
                    }
                    let w = utf8_width(chars[k]);
                    proof {
                        lemma_prefix_bytes_step(chars@, k as int);
                        lemma_prefix_bytes_mono(chars@, k + 1, chars@.len() as int);
                        assert(chars@.take(chars@.len() as int) =~= chars@);
                        lemma_boundary_at(chars@, k + 1);
                    }
                    self.cursor = (seg_idx, byte_off.saturating_add(w));
                    return;
                }
            },
            None => {},
        }
        let next_idx = seg_idx + 1;
        if next_idx < self.segments.len() {
            self.cursor = (next_idx, 0);
            if is_paste(&self.segments[next_idx]) {
                let after = next_idx + 1;
                if after < self.segments.len() {
                    self.cursor = (after, 0);
                } else {
                    self.cursor = (next_idx, 0);
                }
            }
        }
    }

    /// Move the cursor to the start; past leading paste blocks to the first
    /// text when there is one, so that it stays where typing goes.
    pub fn move_home(&mut self)
        ensures
            final(self).segs() == old(self).segs(),
            final(self).cur() == home_cursor(old(self).segs()),
            cursor_ok(old(self).segs(), old(self).cur()) ==> cursor_ok(final(self).segs(), final(self).cur()),
    {
        self.cursor = (0, 0);
        if self.segments.len() > 0 && is_paste(&self.segments[0]) {
            let mut idx: usize = 0;
            while idx < self.segments.len()
                invariant
                    idx <= self.segments.len(),
                    self.segments.len() > 0,
                    self.segments@ == old(self).segments@,
                    self.segs()[0] is Paste,
                    first_text_from(self.segs(), idx as int) == first_text_from(self.segs(), 0),
                    self.cursor == (0usize, 0usize),
                decreases self.segments.len() - idx,
            {
                if !is_paste(&self.segments[idx]) {
                    self.cursor = (idx, 0);
                    return;
                }
                idx = idx + 1;
            }
        }
    }

    /// Move the cursor to the end of the last segment.
    pub fn move_end(&mut self)
        ensures
            final(self).segs() == old(self).segs(),
            final(self).cur() == end_cursor(old(self).segs()),
            cursor_ok(old(self).segs(), old(self).cur()) ==> cursor_ok(final(self).segs(), final(self).cur()),
    {
        if self.segments.len() == 0 {
            self.cursor = (0, 0);
            return;
        }
        let last_idx = self.segments.len() - 1;
        let byte_off = match text_of(&self.segments[last_idx]) {
            Some(t) => text_bytes(t),
            None => 0,
        };
        self.cursor = (last_idx, byte_off);
        proof {
            let l = self.segs()[last_idx as int];
            if l is Text {
                lemma_boundary_ends(l->Text_0);
            }
        }
    }

    /// Insert `content` as a paste block at the cursor, splitting a text
    /// the cursor is inside of; the cursor ends after the block.
    pub fn insert_paste(&mut self, content: String)
        requires
            old(self).cursor.0 < old(self).segments.len() && old(self).segs()[old(
                self,
            ).cursor.0 as int] is Text && 0 < old(self).cursor.1 < text_len(
                old(self).segs()[old(self).cursor.0 as int]->Text_0,
            ) ==> char_index(
                old(self).segs()[old(self).cursor.0 as int]->Text_0,
                old(self).cursor.1 as int,
            ) >= 0,
            old(self).segments.len() + 2 <= usize::MAX,
        ensures
            (final(self).segs(), final(self).cur()) == after_insert_paste(
                old(self).segs(),
                old(self).cur(),
                paste_of(content@),
            ),
            cursor_ok(final(self).segs(), final(self).cur()),
    {
        let ghost s0 = self.segs();
        let ghost blk = paste_of(content@);
        let ghost e = SegView::Text(Seq::empty());
        let line_count = paste_line_count(content.as_str());
        let block = InputSegment::PasteBlock { raw: content, line_count };
        assert(seg_view(block) == blk);
        if self.segments.len() == 0 {
            self.segments.push(block);
            self.segments.push(InputSegment::Text(String::new()));
            self.cursor = (1, 0);
            assert(self.segs() =~= seq![blk, e]);
            self.normalize();
            return;
        }
        let seg_idx = self.cursor.0;
        let byte_off = self.cursor.1;
        if seg_idx >= self.segments.len() {
            self.segments.push(block);
            let new_idx = self.segments.len() - 1;
            self.segments.push(InputSegment::Text(String::new()));
            self.cursor = (new_idx + 1, 0);
            assert(self.segs() =~= s0.push(blk).push(e));
            self.normalize();
            return;
        }
        match text_of(&self.segments[seg_idx]) {
            Some(t) => {
                let tl = text_bytes(t);
                if byte_off == 0 && t.as_str().is_empty() {
                    self.segments.set(seg_idx, block);
                    self.segments.insert(seg_idx + 1, InputSegment::Text(String::new()));
                    self.cursor = (seg_idx + 1, 0);
                    assert(self.segs() =~= s0.update(seg_idx as int, blk).insert(seg_idx + 1, e));
                } else if byte_off == 0 {
                    self.segments.insert(seg_idx, block);
                    self.cursor = (seg_idx + 1, 0);
                    assert(self.segs() =~= s0.insert(seg_idx as int, blk));
                } else if byte_off >= tl {
                    let insert_pos = seg_idx + 1;
                    self.segments.insert(insert_pos, block);
                    let trailing_pos = insert_pos + 1;
                    self.segments.insert(trailing_pos, InputSegment::Text(String::new()));
                    self.cursor = (trailing_pos, 0);
                    assert(self.segs() =~= s0.insert(seg_idx + 1, blk).insert(seg_idx + 2, e));
                } else {
                    let chars = str_to_chars(t.as_str());
                    let k = char_index_of(&chars, byte_off).unwrap();
                    proof {
                        lemma_char_index(chars@, byte_off as int);
                    }
                    let mut before = chars;
                    let after_v = before.split_off(k);
                    let after = chars_to_string(&after_v);
                    self.segments.set(seg_idx, InputSegment::Text(chars_to_string(&before)));
                    let insert_pos = seg_idx + 1;
                    self.segments.insert(insert_pos, block);
                    let trailing_pos = insert_pos + 1;
                    self.segments.insert(trailing_pos, InputSegment::Text(after));
                    self.cursor = (trailing_pos, 0);
                    proof {
                        let tv = s0[seg_idx as int]->Text_0;
                        assert(before@ =~= tv.take(k as int));
                        assert(after_v@ =~= tv.skip(k as int));
                        assert(self.segs() =~= s0.update(seg_idx as int, SegView::Text(tv.take(k as int))).insert(
                            seg_idx + 1,
                            blk,
                        ).insert(seg_idx + 2, SegView::Text(tv.skip(k as int))));
                    }
                }
            },
            None => {
                self.segments.insert(seg_idx, block);
                self.cursor = (seg_idx + 1, 0);
                assert(self.segs() =~= s0.insert(seg_idx as int, blk));
            },
        }
        self.normalize();
    }

    /// Merge adjacent text segments and bring the cursor into range.
    ///
    /// Afterwards no two texts are adjacent, so an empty text is either
    /// the only segment or stands beside a paste block, where it serves as
    /// a place to type. A cursor that was within a segment stays at the
    /// same place in the text, as long as the text's bytes number at most
    /// `usize::MAX`, as the bytes of any text in memory do.
    pub fn normalize(&mut self)
        ensures
            (final(self).segs(), final(self).cur()) == normalized(old(self).segs(), old(self).cur()),
            flat(final(self).segs()) == flat(old(self).segs()),
            pastes(final(self).segs()) == pastes(old(self).segs()),
            no_adjacent_text(final(self).segs()),
            cursor_ok(old(self).segs(), old(self).cur()) ==> cursor_ok(final(self).segs(), final(self).cur()),
            forall|i: int|
                0 <= i < final(self).segs().len() && #[trigger] final(self).segs()[i] == SegView::Text(
                    Seq::empty(),
                ) ==> final(self).segs().len() == 1 || (i > 0 && final(self).segs()[i - 1] is Paste) || (i + 1
                    < final(self).segs().len() && final(self).segs()[i + 1] is Paste),
            cursor_in_range(old(self).segs(), old(self).cur()) && byte_len(flat(old(self).segs()))
                <= usize::MAX ==> cursor_in_range(final(self).segs(), final(self).cur()) && flat_offset(
                final(self).segs(),
                final(self).cur(),
            ) == flat_offset(old(self).segs(), old(self).cur()),
    {
        let ghost s0 = self.segs();
        let ghost c0 = self.cur();
        self.merge_and_clamp();
        proof {
            assert forall|i: int|
                0 <= i < self.segs().len() && #[trigger] self.segs()[i] == SegView::Text(Seq::empty()) implies self.segs().len()
                    == 1 || (i > 0 && self.segs()[i - 1] is Paste) || (i + 1 < self.segs().len()
                    && self.segs()[i + 1] is Paste) by {
                law_normalize_empty_text_placement(s0, c0, i);
            }
            if cursor_in_range(s0, c0) && byte_len(flat(s0)) <= usize::MAX {
                law_normalize_keeps_cursor_offset(s0, c0);
            }
        }
    }

    fn merge_and_clamp(&mut self)
        ensures
            (final(self).segs(), final(self).cur()) == normalized(old(self).segs(), old(self).cur()),
            flat(final(self).segs()) == flat(old(self).segs()),
            pastes(final(self).segs()) == pastes(old(self).segs()),
            no_adjacent_text(final(self).segs()),
            cursor_ok(old(self).segs(), old(self).cur()) ==> cursor_ok(final(self).segs(), final(self).cur()),
    {
        let ghost orig = self.segs();
        let ghost ocur = self.cur();
        let ghost ok0 = cursor_ok(orig, ocur);
        proof {
            lemma_merge_fold(Seq::empty(), orig, ocur);
            assert(flat(Seq::<SegView>::empty()) + flat(orig) =~= flat(orig));
            assert(pastes(Seq::<SegView>::empty()) + pastes(orig) =~= pastes(orig));
            if orig.len() > 0 {
                let (a1, c1) = merge_step(Seq::empty(), orig[0], ocur);
                assert(a1 =~= orig.take(1));
                assert(orig.drop_first() =~= orig.skip(1));
            }
        }
        let mut i: usize = 0;
        while i + 1 < self.segments.len()
            invariant
                self.segments.len() == 0 ==> orig.len() == 0 && self.cur() == ocur && i == 0,
                self.segments.len() > 0 ==> i < self.segments.len() && merge_fold(
                    self.segs().take(i + 1),
                    self.segs().skip(i + 1),
                    self.cur(),
                ) == merge_fold(Seq::empty(), orig, ocur),
                ok0 ==> cursor_ok(self.segs(), self.cur()),
                ok0 == cursor_ok(orig, ocur),
            decreases self.segments.len() - i,
        {
            let next: usize = i + 1;
            let ghost s0 = self.segs();
            let ghost c0 = self.cur();
            let ta = text_of(&self.segments[i]);
            let tb = text_of(&self.segments[next]);
            if ta.is_some() && tb.is_some() {
                let a = ta.unwrap();
                let b = tb.unwrap();
                let current_len = text_bytes(a);
                let merged = cat(a.as_str(), b.as_str());
                let merged_len = text_bytes(&merged);
                self.segments.set(i, InputSegment::Text(merged));
                self.segments.remove(next);
                if self.cursor.0 == next {
                    self.cursor = (i, current_len.saturating_add(self.cursor.1));
                } else if self.cursor.0 > next {
                    self.cursor = (self.cursor.0 - 1, self.cursor.1);
                }
                proof {
                    let acc = s0.take(i + 1);
                    let rest = s0.skip(i + 1);
                    assert(acc.last() == s0[i as int]);
                    assert(rest[0] == s0[i + 1]);
                    let (a2, c2) = merge_step(acc, rest[0], c0);
                    assert(self.segs().take(i + 1) =~= a2);
                    assert(self.segs().skip(i + 1) =~= rest.drop_first());
                    assert(self.cur() == c2);
                    if ok0 {
                        let av = s0[i as int]->Text_0;
                        let bv = s0[next as int]->Text_0;
                        let sn = self.segs();
                        let cn = self.cur();
                        assert(sn.len() == s0.len() - 1);
                        assert(sn[i as int] == SegView::Text(av + bv));
                        crate::text::lemma_encode_utf8_concat(av, bv);
                        lemma_boundary_concat(av, bv, c0.1);
                        if c0.0 == next {
                            lemma_boundary_prefix(bv, c0.1);
                            assert(merged_len == byte_len(av) + byte_len(bv));
                            assert(cn == (i as int, byte_len(av) + c0.1));
                        } else if c0.0 > next {
                            if c0.0 < s0.len() {
                                assert(sn[c0.0 - 1] == s0[c0.0]);
                            }
                        } else if c0.0 < i {
                            assert(sn[c0.0] == s0[c0.0]);
                        }
                        assert(cursor_ok(sn, cn));
                    }
                }
            } else {
                proof {
                    let acc = s0.take(i + 1);
                    let rest = s0.skip(i + 1);
                    assert(acc.last() == s0[i as int]);
                    assert(rest[0] == s0[i + 1]);
                    let (a2, c2) = merge_step(acc, rest[0], c0);
                    assert(s0.take(i + 2) =~= a2);
                    assert(s0.skip(i + 2) =~= rest.drop_first());
                }
                i = next;
            }
        }
        proof {
            if self.segments.len() > 0 {
                assert(self.segs().take(i + 1) =~= self.segs());
                assert(self.segs().skip(i + 1) =~= Seq::<SegView>::empty());
            } else {
                assert(orig =~= Seq::<SegView>::empty());
            }
        }
        let n = self.segments.len();
        let ghost mid_segs = self.segs();
        let ghost mid_cur = self.cur();
        if n == 0 {
            self.cursor = (0, 0);
        } else {
            if self.cursor.0 >= n {
                self.cursor = (n - 1, self.cursor.1);
            }
            let k = self.cursor.0;
            match text_of(&self.segments[k]) {
                Some(t) => {
                    let tl = text_bytes(t);
                    if self.cursor.1 > tl {
                        self.cursor = (k, tl);
                    }
                },
                None => {
                    self.cursor = (k, 0);
                },
            }
            proof {
                if ok0 {
                    let tk = self.segs()[k as int];
                    if tk is Text {
                        lemma_boundary_ends(tk->Text_0);
                    }
                    assert(cursor_ok(self.segs(), self.cur()));
                }
            }
        }
    }
}

/// How many bytes of the flat text come before the cursor.
pub open spec fn flat_offset(segs: Seq<SegView>, cur: (int, int)) -> int {
    byte_len(flat(segs.take(cur.0))) + cur.1
}

/// The cursor is on a segment and within it: at most the text's length
/// into a text, at the start of a paste block.
pub open spec fn cursor_in_range(segs: Seq<SegView>, cur: (int, int)) -> bool {
    &&& 0 <= cur.0 < segs.len()
    &&& match segs[cur.0] {
        SegView::Text(t) => 0 <= cur.1 <= byte_len(t),
        SegView::Paste(_, _) => cur.1 == 0,
    }
}

proof fn lemma_byte_len_concat(a: Seq<char>, b: Seq<char>)
    ensures
        byte_len(a + b) == byte_len(a) + byte_len(b),
{
    crate::text::lemma_encode_utf8_concat(a, b);
}

/// A segment's bytes are part of the flat text's.
proof fn lemma_seg_bytes_le(segs: Seq<SegView>, i: int)
    requires
        0 <= i < segs.len(),
    ensures
        byte_len(seg_chars(segs[i])) <= byte_len(flat(segs)),
        byte_len(flat(segs.take(i))) + byte_len(seg_chars(segs[i])) <= byte_len(flat(segs)),
{
    lemma_flat_at(segs, i);
    lemma_byte_len_concat(flat(segs.take(i)) + seg_chars(segs[i]), flat(segs.skip(i + 1)));
    lemma_byte_len_concat(flat(segs.take(i)), seg_chars(segs[i]));
}

proof fn lemma_flat_four(p: Seq<SegView>, x: SegView, y: SegView, r: Seq<SegView>)
    ensures
        flat(p + seq![x] + seq![y] + r) == flat(p) + seg_chars(x) + seg_chars(y) + flat(r),
        flat(p + seq![x] + seq![y]) == flat(p) + seg_chars(x) + seg_chars(y),
        flat(p + seq![x]) == flat(p) + seg_chars(x),
{
    lemma_flat_concat(p + seq![x] + seq![y], r);
    lemma_flat_concat(p + seq![x], seq![y]);
    lemma_flat_concat(p, seq![x]);
    lemma_flat_one(x);
    lemma_flat_one(y);
}

proof fn lemma_flat_three_parts(p: Seq<SegView>, x: SegView, r: Seq<SegView>)
    ensures
        flat(p + seq![x] + r) == flat(p) + seg_chars(x) + flat(r),
{
    lemma_flat_concat(p + seq![x], r);
    lemma_flat_concat(p, seq![x]);
    lemma_flat_one(x);
}

/// One merging step keeps the flat text, keeps the cursor in range, and
/// keeps its flat offset. The cursor indexes `acc` followed by `rest`.
proof fn lemma_step_offset(acc: Seq<SegView>, rest: Seq<SegView>, cur: (int, int))
    requires
        rest.len() > 0,
        cursor_in_range(acc + rest, cur),
        byte_len(flat(acc + rest)) <= usize::MAX,
    ensures
        ({
            let (a2, c2) = merge_step(acc, rest[0], cur);
            &&& flat(a2 + rest.drop_first()) == flat(acc + rest)
            &&& cursor_in_range(a2 + rest.drop_first(), c2)
            &&& flat_offset(a2 + rest.drop_first(), c2) == flat_offset(acc + rest, cur)
        }),
{
    let s = rest[0];
    let r = rest.drop_first();
    let x = acc + rest;
    let (a2, c2) = merge_step(acc, s, cur);
    let y = a2 + r;
    if acc.len() > 0 && acc.last() is Text && s is Text {
        let a = acc.last()->Text_0;
        let b = s->Text_0;
        let p = acc.drop_last();
        let n = acc.len() as int;
        let j = SegView::Text(a + b);
        assert(x =~= p + seq![acc.last()] + seq![s] + r);
        assert(y =~= p + seq![j] + r);
        lemma_flat_four(p, acc.last(), s, r);
        lemma_flat_three_parts(p, j, r);
        assert(flat(y) =~= flat(x));
        lemma_seg_bytes_le(x, n - 1);
        lemma_seg_bytes_le(x, n);
        lemma_byte_len_concat(a, b);
        if cur.0 < n - 1 {
            assert(x.take(cur.0) =~= y.take(cur.0));
            assert(x[cur.0] == y[cur.0]);
        } else if cur.0 == n - 1 {
            assert(x.take(cur.0) =~= y.take(cur.0));
            assert(x.take(cur.0) =~= p);
        } else if cur.0 == n {
            assert(x.take(n) =~= p + seq![acc.last()]);
            lemma_flat_concat(p, seq![acc.last()]);
            lemma_flat_one(acc.last());
            lemma_byte_len_concat(flat(p), a);
            assert(y.take(n - 1) =~= p);
            assert(text_len(a) == byte_len(a));
        } else {
            let k = cur.0 - n - 1;
            assert(x.take(cur.0) =~= p + seq![acc.last()] + seq![s] + r.take(k));
            assert(y.take(cur.0 - 1) =~= p + seq![j] + r.take(k));
            lemma_flat_four(p, acc.last(), s, r.take(k));
            lemma_flat_three_parts(p, j, r.take(k));
            assert(flat(x.take(cur.0)) =~= flat(y.take(cur.0 - 1)));
            assert(x[cur.0] == y[cur.0 - 1]);
        }
    } else {
        assert(y =~= x);
    }
}

proof fn lemma_fold_offset(acc: Seq<SegView>, rest: Seq<SegView>, cur: (int, int))
    requires
        cursor_in_range(acc + rest, cur),
        byte_len(flat(acc + rest)) <= usize::MAX,
    ensures
        ({
            let (m, c) = merge_fold(acc, rest, cur);
            &&& flat(m) == flat(acc + rest)
            &&& cursor_in_range(m, c)
            &&& flat_offset(m, c) == flat_offset(acc + rest, cur)
        }),
    decreases rest.len(),
{
    if rest.len() == 0 {
        assert(acc + rest =~= acc);
    } else {
        let (a2, c2) = merge_step(acc, rest[0], cur);
        lemma_step_offset(acc, rest, cur);
        lemma_fold_offset(a2, rest.drop_first(), c2);
    }
}

/// Normalizing the buffer keeps a cursor that was within a segment at the
/// same place in the text: as many bytes of the flat text come before it
/// afterwards as before, and it is still within a segment.
pub proof fn law_normalize_keeps_cursor_offset(segs: Seq<SegView>, cur: (int, int))
    requires
        cursor_in_range(segs, cur),
        byte_len(flat(segs)) <= usize::MAX,
    ensures
        cursor_in_range(normalized(segs, cur).0, normalized(segs, cur).1),
        flat_offset(normalized(segs, cur).0, normalized(segs, cur).1) == flat_offset(segs, cur),
{
    assert(Seq::<SegView>::empty() + segs =~= segs);
    lemma_fold_offset(Seq::empty(), segs, cur);
    let (m, c) = merge_fold(Seq::empty(), segs, cur);
    lemma_seg_bytes_le(m, c.0);
    match m[c.0] {
        SegView::Text(t) => {
            assert(text_len(t) == byte_len(t));
        },
        SegView::Paste(_, _) => {},
    }
    assert(clamp_cursor(m, c) == c);
}


/// After normalizing, an empty text is left only as the sole segment or
/// beside a paste block: every other empty text has been joined to a
/// neighbouring text.
pub proof fn law_normalize_empty_text_placement(segs: Seq<SegView>, cur: (int, int), i: int)
    requires
        0 <= i < normalized(segs, cur).0.len(),
        normalized(segs, cur).0[i] == SegView::Text(Seq::empty()),
    ensures
        ({
            let m = normalized(segs, cur).0;
            ||| m.len() == 1
            ||| (i > 0 && m[i - 1] is Paste)
            ||| (i + 1 < m.len() && m[i + 1] is Paste)
        }),
{
    let m = normalized(segs, cur).0;
    lemma_merge_fold(Seq::empty(), segs, cur);
    if m.len() != 1 {
        if i > 0 {
            assert(!(m[i - 1] is Text && m[i] is Text));
        } else {
            assert(!(m[i] is Text && m[i + 1] is Text));
        }
    }
}
} // verus!
