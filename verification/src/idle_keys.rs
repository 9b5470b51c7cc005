//! What a key does while the terminal UI waits for input: editing the
//! prompt, the slash-command palette, scrolling, and the double Ctrl+C or
//! Ctrl+D that quits.
//!
//! The step takes the parts of the UI state that these keys read and
//! change, and returns what is left for the caller to do: send the
//! submitted text, enter copy mode, or fold the last tool's output.

use vstd::prelude::*;
use crate::input_line::InputMode;
use crate::command_palette::{
    command_names, is_argless_command, matching_positions, palette_completion, palette_down,
    palette_down_spec, palette_filtered, palette_up, palette_up_spec, sat_add, sat_sub,
    SlashCommandDef,
};
use crate::input_buffer::{
    after_backspace, after_delete_forward, after_insert_char, after_move_left, after_move_right,
    after_insert_paste, all_empty, cursor_ok, end_cursor, flat, has_paste, home_cursor, paste_of, text_len, InputBuffer, SegView,
};
use crate::text::{
    truncate_to_boundary, truncated_to_boundary, byte_len, byte_len_exceeds, cat, cat3, char_width, chars_to_string, decimal, str_to_chars, trim_seq,
    u64_to_decimal, utf8_width,
};

verus! {

/// The Shift modifier bit, as the terminal library numbers it.
pub const SHIFT: u8 = 1;

/// The Control modifier bit.
pub const CONTROL: u8 = 2;

/// A key, as the terminal reports it.
#[derive(Debug, Clone, Copy, PartialEq, Eq, Structural)]
pub enum Key {
    Char(char),
    Enter,
    Tab,
    BackTab,
    Esc,
    Up,
    Down,
    Left,
    Right,
    Home,
    End,
    PageUp,
    PageDown,
    Backspace,
    Delete,
    /// Any other key.
    Other,
}

/// The parts of the UI state that keys read and change while it waits.
#[derive(Debug)]
pub struct IdleInput {
    /// The prompt.
    pub input_buf: InputBuffer,
    /// A first Ctrl+C or Ctrl+D was pressed.
    pub quit_pending: bool,
    /// The UI is to quit.
    pub should_quit: bool,
    /// Lines scrolled back from the bottom.
    pub scroll_offset: usize,
    /// The selected palette entry.
    pub palette_selected: usize,
    /// The first palette entry shown.
    pub palette_scroll_offset: usize,
}

/// What is left for the caller after a key.
#[derive(Debug, PartialEq, Eq)]
pub enum IdleEffect {
    /// Nothing.
    Nothing,
    /// Send this input.
    SendInput(String),
    /// Enter copy mode.
    EnterCopyMode,
    /// Fold or unfold the last finished tool's output.
    ToggleLastTool,
}

/// The state, as values.
pub ghost struct IdleView {
    pub segs: Seq<SegView>,
    pub cur: (int, int),
    pub quit_pending: bool,
    pub should_quit: bool,
    pub scroll: int,
    pub psel: int,
    pub pscroll: int,
}

/// What is left for the caller, as values.
pub ghost enum EffectView {
    Nothing,
    Send(Seq<char>),
    CopyMode,
    ToggleTool,
}

pub open spec fn idle_view(st: IdleInput) -> IdleView {
    IdleView {
        segs: st.input_buf.segs(),
        cur: st.input_buf.cur(),
        quit_pending: st.quit_pending,
        should_quit: st.should_quit,
        scroll: st.scroll_offset as int,
        psel: st.palette_selected as int,
        pscroll: st.palette_scroll_offset as int,
    }
}

pub open spec fn effect_view(e: IdleEffect) -> EffectView {
    match e {
        IdleEffect::Nothing => EffectView::Nothing,
        IdleEffect::SendInput(s) => EffectView::Send(s@),
        IdleEffect::EnterCopyMode => EffectView::CopyMode,
        IdleEffect::ToggleLastTool => EffectView::ToggleTool,
    }
}

/// The palette shows while the prompt is a command: it starts with `/`
/// and holds no paste block.
pub open spec fn palette_shown(segs: Seq<SegView>) -> bool {
    &&& segs.len() > 0
    &&& segs[0] is Text
    &&& segs[0]->Text_0.len() > 0
    &&& segs[0]->Text_0[0] == '/'
    &&& !has_paste(segs)
}

/// What the palette matches against: the first segment's text.
pub open spec fn palette_prefix(segs: Seq<SegView>) -> Seq<char> {
    if segs.len() > 0 && segs[0] is Text {
        segs[0]->Text_0
    } else {
        Seq::empty()
    }
}

/// The prompt after setting its text to `s`.
pub open spec fn set_text_view(s: Seq<char>) -> (Seq<SegView>, (int, int)) {
    if s.len() == 0 {
        (Seq::empty(), (0, 0))
    } else {
        (seq![SegView::Text(s)], (0, text_len(s)))
    }
}

/// What picking a palette command puts in the prompt.
pub open spec fn completion_text(name: Seq<char>) -> Seq<char> {
    if is_argless_command(name) {
        name
    } else {
        name + " "@
    }
}

pub open spec fn with_buffer(v: IdleView, b: (Seq<SegView>, (int, int))) -> IdleView {
    IdleView { segs: b.0, cur: b.1, ..v }
}

pub open spec fn reset_palette(v: IdleView) -> IdleView {
    IdleView { psel: 0, pscroll: 0, ..v }
}

/// The prompt submitted: emptied, and its text sent unless it is blank.
pub open spec fn submitted(v: IdleView) -> (IdleView, EffectView) {
    (
        with_buffer(v, (Seq::empty(), (0, 0))),
        if trim_seq(flat(v.segs)).len() == 0 {
            EffectView::Nothing
        } else {
            EffectView::Send(flat(v.segs))
        },
    )
}

/// Enter: with the palette shown and an entry selected, the entry is put
/// in the prompt; the prompt is submitted unless that entry takes
/// arguments.
pub open spec fn enter_step(v: IdleView, names: Seq<Seq<char>>) -> (IdleView, EffectView) {
    let shown = palette_shown(v.segs);
    let filtered = matching_positions(names, palette_prefix(v.segs));
    let picked = shown && 0 <= v.psel < filtered.len();
    let name = names[filtered[v.psel] as int];
    let v1 = if picked {
        with_buffer(v, set_text_view(completion_text(name)))
    } else {
        v
    };
    let v2 = if shown {
        reset_palette(v1)
    } else {
        v1
    };
    if !picked || is_argless_command(name) {
        submitted(v2)
    } else {
        (v2, EffectView::Nothing)
    }
}

/// Every key but the quitting ones, before the quit confirmation is
/// cleared.
pub open spec fn key_step(v: IdleView, names: Seq<Seq<char>>, key: Key, mods: u8) -> (IdleView, EffectView) {
    let shown = palette_shown(v.segs);
    let filtered = matching_positions(names, palette_prefix(v.segs));
    let ctrl = (mods & CONTROL) != 0u8;
    if key is Enter {
        enter_step(v, names)
    } else if key is Tab && shown {
        let v1 = if 0 <= v.psel < filtered.len() {
            with_buffer(v, set_text_view(completion_text(names[filtered[v.psel] as int])))
        } else {
            v
        };
        (reset_palette(v1), EffectView::Nothing)
    } else if key is Esc && shown {
        (reset_palette(with_buffer(v, (Seq::empty(), (0, 0)))), EffectView::Nothing)
    } else if key is Up && shown {
        let (s, o) = palette_up_spec(v.psel, v.pscroll, filtered.len() as int);
        (IdleView { psel: s, pscroll: o, ..v }, EffectView::Nothing)
    } else if key is Down && shown {
        let (s, o) = palette_down_spec(v.psel, v.pscroll, filtered.len() as int);
        (IdleView { psel: s, pscroll: o, ..v }, EffectView::Nothing)
    } else if key == Key::Char('C') && ctrl {
        (v, EffectView::CopyMode)
    } else if key is Char && (mods == 0 || mods == SHIFT) {
        (
            reset_palette(IdleView { scroll: 0, ..with_buffer(v, after_insert_char(v.segs, v.cur, key->Char_0)) }),
            EffectView::Nothing,
        )
    } else if key is Backspace {
        (reset_palette(with_buffer(v, after_backspace(v.segs, v.cur))), EffectView::Nothing)
    } else if key is Delete {
        (reset_palette(with_buffer(v, after_delete_forward(v.segs, v.cur))), EffectView::Nothing)
    } else if key is Left {
        (with_buffer(v, after_move_left(v.segs, v.cur)), EffectView::Nothing)
    } else if key is Right {
        (with_buffer(v, after_move_right(v.segs, v.cur)), EffectView::Nothing)
    } else if key is Home && ctrl {
        (IdleView { scroll: usize::MAX as int, ..v }, EffectView::Nothing)
    } else if key is End && ctrl {
        (IdleView { scroll: 0, ..v }, EffectView::Nothing)
    } else if key is Home {
        (with_buffer(v, (v.segs, home_cursor(v.segs))), EffectView::Nothing)
    } else if key is End {
        (with_buffer(v, (v.segs, end_cursor(v.segs))), EffectView::Nothing)
    } else if key is PageUp {
        (IdleView { scroll: sat_add(v.scroll, 10), ..v }, EffectView::Nothing)
    } else if key is PageDown {
        (IdleView { scroll: sat_sub(v.scroll, 10), ..v }, EffectView::Nothing)
    } else if key is Up && all_empty(v.segs) {
        (IdleView { scroll: sat_add(v.scroll, 1), ..v }, EffectView::Nothing)
    } else if key is Down && all_empty(v.segs) {
        (IdleView { scroll: sat_sub(v.scroll, 1), ..v }, EffectView::Nothing)
    } else if key == Key::Char('u') && mods == CONTROL {
        (reset_palette(with_buffer(v, (Seq::empty(), (0, 0)))), EffectView::Nothing)
    } else if key == Key::Char('e') && mods == CONTROL {
        (v, EffectView::ToggleTool)
    } else {
        (v, EffectView::Nothing)
    }
}

/// A key while the UI waits: Ctrl+C or Ctrl+D asks to quit and quits when
/// pressed again; any other key does its work and clears that request.
pub open spec fn idle_step(v: IdleView, names: Seq<Seq<char>>, key: Key, mods: u8) -> (IdleView, EffectView) {
    if (key == Key::Char('c') || key == Key::Char('d')) && mods == CONTROL {
        (
            if v.quit_pending {
                IdleView { should_quit: true, ..v }
            } else {
                IdleView { quit_pending: true, ..v }
            },
            EffectView::Nothing,
        )
    } else {
        let (w, e) = key_step(v, names, key, mods);
        (IdleView { quit_pending: false, ..w }, e)
    }
}

fn palette_reset(st: &mut IdleInput)
    ensures
        idle_view(*final(st)) == reset_palette(idle_view(*old(st))),
        final(st).input_buf == old(st).input_buf,
{
    st.palette_selected = 0;
    st.palette_scroll_offset = 0;
}

/// Put the selected palette entry in the prompt; whether one was selected
/// and takes no arguments.
fn complete_selected(st: &mut IdleInput, commands: &[SlashCommandDef], filtered: &Vec<usize>) -> (r: (bool, bool))
    requires
        forall|j: int| 0 <= j < filtered@.len() ==> filtered@[j] < commands@.len(),
    ensures
        r.0 == (0 <= old(st).palette_selected < filtered@.len()),
        r.0 ==> r.1 == is_argless_command(
            command_names(commands@)[filtered@[old(st).palette_selected as int] as int],
        ),
        idle_view(*final(st)) == (if r.0 {
            with_buffer(
                idle_view(*old(st)),
                set_text_view(
                    completion_text(command_names(commands@)[filtered@[old(st).palette_selected as int] as int]),
                ),
            )
        } else {
            idle_view(*old(st))
        }),
        r.0 ==> cursor_ok(final(st).input_buf.segs(), final(st).input_buf.cur()),
        !r.0 ==> final(st).input_buf == old(st).input_buf,
{
    if st.palette_selected < filtered.len() {
        let idx = filtered[st.palette_selected];
        let (text, argless) = palette_completion(commands[idx].name.as_str());
        proof {
            assert(command_names(commands@)[idx as int] == commands@[idx as int].name@);
        }
        st.input_buf.set_text(text);
        (true, argless)
    } else {
        (false, false)
    }
}

/// What a key does while the UI waits for input.
#[verifier::spinoff_prover]
#[verifier::rlimit(60)]
pub fn handle_idle_key(st: &mut IdleInput, commands: &[SlashCommandDef], key: Key, mods: u8) -> (r: IdleEffect)
    requires
        cursor_ok(old(st).input_buf.segs(), old(st).input_buf.cur()),
    ensures
        (idle_view(*final(st)), effect_view(r)) == idle_step(
            idle_view(*old(st)),
            command_names(commands@),
            key,
            mods,
        ),
        cursor_ok(final(st).input_buf.segs(), final(st).input_buf.cur()),
{
    let ghost v0 = idle_view(*st);
    let ghost names = command_names(commands@);
    if (key == Key::Char('c') || key == Key::Char('d')) && mods == CONTROL {
        if st.quit_pending {
            st.should_quit = true;
        } else {
            st.quit_pending = true;
        }
        return IdleEffect::Nothing;
    }
    let shown = st.input_buf.starts_with_slash() && !st.input_buf.has_paste_blocks();
    let filtered = palette_filtered(commands, st.input_buf.text_for_palette());
    proof {
        assert(shown == palette_shown(v0.segs));
        assert(filtered@ == matching_positions(names, palette_prefix(v0.segs)));
        lemma_positions_in_range(names, palette_prefix(v0.segs));
    }
    let ctrl = (mods & CONTROL) != 0;
    let mut effect = IdleEffect::Nothing;
    match key {
        Key::Enter => {
            let mut picked = false;
            let mut argless = false;
            if shown {
                let (p, a) = complete_selected(st, commands, &filtered);
                picked = p;
                argless = a;
                palette_reset(st);
            }
            if !shown || !picked || argless {
                match st.input_buf.take_flat() {
                    Some(content) => {
                        effect = IdleEffect::SendInput(content);
                    },
                    None => {},
                }
            }
        },
        Key::Tab if shown => {
            complete_selected(st, commands, &filtered);
            palette_reset(st);
        },
        Key::Esc if shown => {
            st.input_buf.clear();
            palette_reset(st);
        },
        Key::Up if shown => {
            let (s, o) = palette_up(st.palette_selected, st.palette_scroll_offset, filtered.len());
            st.palette_selected = s;
            st.palette_scroll_offset = o;
        },
        Key::Down if shown => {
            let (s, o) = palette_down(st.palette_selected, st.palette_scroll_offset, filtered.len());
            st.palette_selected = s;
            st.palette_scroll_offset = o;
        },
        Key::Char('C') if ctrl => {
            effect = IdleEffect::EnterCopyMode;
        },
        Key::Char(c) if mods == 0 || mods == SHIFT => {
            st.input_buf.insert_char(c);
            st.scroll_offset = 0;
            palette_reset(st);
        },
        Key::Backspace => {
            st.input_buf.backspace();
            palette_reset(st);
        },
        Key::Delete => {
            st.input_buf.delete_forward();
            palette_reset(st);
        },
        Key::Left => {
            st.input_buf.move_left();
        },
        Key::Right => {
            st.input_buf.move_right();
        },
        Key::Home if ctrl => {
            st.scroll_offset = usize::MAX;
        },
        Key::End if ctrl => {
            st.scroll_offset = 0;
        },
        Key::Home => {
            st.input_buf.move_home();
        },
        Key::End => {
            st.input_buf.move_end();
        },
        Key::PageUp => {
            st.scroll_offset = st.scroll_offset.saturating_add(10);
        },
        Key::PageDown => {
            st.scroll_offset = st.scroll_offset.saturating_sub(10);
        },
        Key::Up if st.input_buf.is_empty() => {
            st.scroll_offset = st.scroll_offset.saturating_add(1);
        },
        Key::Down if st.input_buf.is_empty() => {
            st.scroll_offset = st.scroll_offset.saturating_sub(1);
        },
        Key::Char('u') if mods == CONTROL => {
            st.input_buf.clear();
            palette_reset(st);
        },
        Key::Char('e') if mods == CONTROL => {
            effect = IdleEffect::ToggleLastTool;
        },
        _ => {},
    }
    st.quit_pending = false;
    effect
}

proof fn lemma_positions_in_range(names: Seq<Seq<char>>, prefix: Seq<char>)
    ensures
        forall|j: int|
            0 <= j < matching_positions(names, prefix).len() ==> #[trigger] matching_positions(
                names,
                prefix,
            )[j] < names.len(),
    decreases names.len(),
{
    if names.len() > 0 {
        lemma_positions_in_range(names.drop_last(), prefix);
        let r = matching_positions(names.drop_last(), prefix);
        let m = matching_positions(names, prefix);
        assert forall|j: int| 0 <= j < m.len() implies #[trigger] m[j] < names.len() by {
            if j < r.len() {
                assert(m[j] == r[j]);
            }
        }
    }
}

/// What is shown below the prompt, and how many rows it wants.
#[derive(Debug, Clone, Copy, PartialEq, Eq)]
pub enum InputOverlay {
    /// Nothing.
    Plain,
    /// A selection menu with this many options.
    Selection {
        options: usize,
    },
    /// An onboarding form needing this many rows.
    Onboarding {
        rows: usize,
    },
    /// The command palette with this many matching entries.
    Palette {
        matches: usize,
    },
}

/// The label a paste block shows: `[Pasted text #{k}, {n} line]`, with
/// `lines` for any count but 1. Its length in bytes.
pub open spec fn paste_label_len(k: nat, n: nat) -> int {
    14 + decimal(k).len() + 2 + decimal(n).len() + 5 + (if n == 1 {
        0int
    } else {
        1int
    }) + 1
}

/// How many bytes a text shows: a leading `/` of the first segment is
/// not shown.
pub open spec fn shown_text_len(i: int, t: Seq<char>) -> int {
    if i == 0 && t.len() > 0 && t[0] == '/' {
        byte_len(t) - 1
    } else {
        byte_len(t) as int
    }
}

/// The bytes shown for segments `i..`, paste blocks numbered after `k`,
/// added to `total` stopping at the largest `usize`.
pub open spec fn shown_len_from(segs: Seq<SegView>, i: int, total: int, k: int) -> int
    decreases segs.len() - i,
{
    if i < 0 || i >= segs.len() {
        total
    } else {
        match segs[i] {
            SegView::Text(t) => shown_len_from(segs, i + 1, sat_add(total, shown_text_len(i, t)), k),
            SegView::Paste(_, n) => shown_len_from(
                segs,
                i + 1,
                sat_add(total, paste_label_len(sat_add(k, 1) as nat, n)),
                sat_add(k, 1),
            ),
        }
    }
}

/// `min(max(x, lo), hi)`.
pub open spec fn clamp_int(x: int, lo: int, hi: int) -> int {
    if x < lo {
        lo
    } else if x > hi {
        hi
    } else {
        x
    }
}

/// `u16` addition that stops at the maximum.
pub open spec fn sat16(a: int, b: int) -> int {
    if a + b > u16::MAX {
        u16::MAX as int
    } else {
        a + b
    }
}

/// Rows of a menu of `n` entries under the prompt: a separator and at
/// most a third of the screen (between `lo` and `hi` rows) of entries.
pub open spec fn menu_rows(n: int, height: int, lo: int, hi: int) -> int {
    let shown = clamp_int(height / 3, lo, hi);
    sat16(1, (if n < shown { n } else { shown }) as u16 as int)
}

/// The input area's height: the prompt's wrapped rows plus a border,
/// between 3 and 8, and the rows of whatever is shown under it.
pub open spec fn input_height_spec(segs: Seq<SegView>, width: int, height: int, overlay: InputOverlay) -> int {
    let avail = if width < 3 {
        0
    } else {
        width - 3
    };
    let total = shown_len_from(segs, 0, 0, 0);
    let lines = if avail == 0 || total == 0 {
        1
    } else {
        (if (total + avail - 1) / avail > 1 {
            (total + avail - 1) / avail
        } else {
            1
        }) as u16 as int
    };
    let base = clamp_int(sat16(1, lines), 3, 8);
    match overlay {
        InputOverlay::Selection { options } => sat16(base, menu_rows(sat_add(options as int, 1), height, 5, 10)),
        InputOverlay::Onboarding { rows } => sat16(base, menu_rows(rows as int, height, 5, 15)),
        InputOverlay::Palette { matches } => if matches > 0 {
            sat16(base, menu_rows(matches as int, height, 5, 15))
        } else {
            base
        },
        InputOverlay::Plain => base,
    }
}

fn decimal_len(n: usize) -> (r: usize)
    ensures
        r == decimal(n as nat).len(),
{
    let d = u64_to_decimal(n as u64);
    d.as_str().unicode_len()
}

fn menu_rows_exec(n: usize, height: u16, lo: u16, hi: u16) -> (r: u16)
    requires
        lo <= hi,
    ensures
        r == menu_rows(n as int, height as int, lo as int, hi as int),
{
    let third = height / 3;
    let shown = if third < lo {
        lo
    } else if third > hi {
        hi
    } else {
        third
    };
    let m = if n < shown as usize {
        n
    } else {
        shown as usize
    };
    1u16.saturating_add(m as u16)
}

proof fn lemma_byte_len_first(t: Seq<char>)
    requires
        t.len() > 0,
    ensures
        byte_len(t) >= 1,
        t[0] == '/' ==> byte_len(t) == 1 + byte_len(t.drop_first()),
{
    assert(t =~= seq![t[0]] + t.drop_first());
    crate::text::lemma_encode_utf8_concat(seq![t[0]], t.drop_first());
    assert(seq![t[0]].drop_first() =~= Seq::<char>::empty());
    assert(vstd::utf8::encode_utf8(seq![t[0]]) =~= vstd::utf8::encode_scalar(t[0] as u32)
        + vstd::utf8::encode_utf8(Seq::<char>::empty()));
    assert(vstd::utf8::encode_utf8(Seq::<char>::empty()) =~= Seq::<u8>::empty());
    crate::input_buffer::lemma_char_width(t[0]);
}

/// The input area's height for a terminal `width` columns wide and
/// `height` rows high, with `overlay` shown under the prompt.
pub fn input_height(buf: &InputBuffer, width: u16, height: u16, overlay: InputOverlay) -> (r: u16)
    ensures
        r == input_height_spec(buf.segs(), width as int, height as int, overlay),
{
    let avail = width.saturating_sub(3) as usize;
    let mut total: usize = 0;
    let mut pasted: usize = 0;
    let mut i: usize = 0;
    while i < buf.segments.len()
        invariant
            i <= buf.segments@.len(),
            shown_len_from(buf.segs(), i as int, total as int, pasted as int) == shown_len_from(
                buf.segs(),
                0,
                0,
                0,
            ),
        decreases buf.segments@.len() - i,
    {
        match &buf.segments[i] {
            crate::input_buffer::InputSegment::Text(t) => {
                let bytes = t.as_str().as_bytes().len();
                let chars = crate::text::str_to_chars(t.as_str());
                let shown = if i == 0 && chars.len() > 0 && chars[0] == '/' {
                    proof {
                        lemma_byte_len_first(t@);
                    }
                    bytes - 1
                } else {
                    bytes
                };
                total = total.saturating_add(shown);
            },
            crate::input_buffer::InputSegment::PasteBlock { line_count, .. } => {
                pasted = pasted.saturating_add(1);
                let a = decimal_len(pasted);
                let b = decimal_len(*line_count);
                let plural: usize = if *line_count == 1 {
                    0
                } else {
                    1
                };
                let label = 14usize.saturating_add(a).saturating_add(2).saturating_add(b).saturating_add(5).saturating_add(plural).saturating_add(1);
                proof {
                    assert(label == paste_label_len(pasted as nat, *line_count as nat)) by {
                        lemma_usize_decimal_len(pasted);
                        lemma_usize_decimal_len(*line_count);
                    }
                }
                total = total.saturating_add(label);
            },
        }
        i = i + 1;
    }
    let lines: u16 = if avail == 0 || total == 0 {
        1
    } else {
        let q0 = total / avail;
        let r0 = total % avail;
        proof {
            assert(r0 != 0 ==> q0 < usize::MAX) by (nonlinear_arith)
                requires
                    avail > 0,
                    q0 == total / avail,
                    r0 == total % avail,
                    total <= usize::MAX,
            ;
        }
        let q = if r0 == 0 {
            q0
        } else {
            q0 + 1
        };
        proof {
            assert(q == (total + avail - 1) / (avail as int)) by (nonlinear_arith)
                requires
                    avail > 0,
                    q0 == total / avail,
                    r0 == total % avail,
                    q == if r0 == 0 { q0 as int } else { q0 + 1 },
            ;
        }
        let qq = if q > 1 {
            q
        } else {
            1
        };
        #[verifier::truncate]
        (qq as u16)
    };
    let b1 = 1u16.saturating_add(lines);
    let base = if b1 < 3 {
        3
    } else if b1 > 8 {
        8
    } else {
        b1
    };
    match overlay {
        InputOverlay::Selection { options } => base.saturating_add(menu_rows_exec(options.saturating_add(1), height, 5, 10)),
        InputOverlay::Onboarding { rows } => base.saturating_add(menu_rows_exec(rows, height, 5, 15)),
        InputOverlay::Palette { matches } => {
            if matches > 0 {
                base.saturating_add(menu_rows_exec(matches, height, 5, 15))
            } else {
                base
            }
        },
        InputOverlay::Plain => base,
    }
}

pub open spec fn pow10(k: nat) -> nat
    decreases k,
{
    if k == 0 {
        1
    } else {
        10 * pow10((k - 1) as nat)
    }
}

proof fn lemma_decimal_len(n: nat, k: nat)
    requires
        1 <= k,
        n < pow10(k),
    ensures
        decimal(n).len() <= k,
    decreases k,
{
    if n >= 10 {
        if k == 1 {
            assert(pow10(1) == 10) by {
                reveal_with_fuel(pow10, 2);
            }
        }
        let p = pow10((k - 1) as nat);
        assert(n / 10 < p) by (nonlinear_arith)
            requires
                n < 10 * p,
        ;
        lemma_decimal_len(n / 10, (k - 1) as nat);
    }
}

proof fn lemma_usize_decimal_len(n: usize)
    ensures
        decimal(n as nat).len() <= 20,
{
    assert(pow10(20) == 100000000000000000000) by {
        reveal_with_fuel(pow10, 21);
    }
    lemma_decimal_len(n as nat, 20);
}

/// The largest paste kept, in bytes.
pub const MAX_PASTE_LEN: usize = 32768;

/// `\r\n` pairs turned into `\n`, from the left.
pub open spec fn crlf_to_lf(s: Seq<char>) -> Seq<char>
    decreases s.len(),
{
    if s.len() == 0 {
        s
    } else if s.len() >= 2 && s[0] == '\r' && s[1] == '\n' {
        seq!['\n'] + crlf_to_lf(s.skip(2))
    } else {
        seq![s[0]] + crlf_to_lf(s.drop_first())
    }
}

/// A paste as kept: line endings made `\n`, NUL characters dropped.
pub open spec fn sanitized_paste(s: Seq<char>) -> Seq<char> {
    crlf_to_lf(s).filter(|c: char| c != '\0')
}

/// A paste too large for the prompt: its longest prefix of at most
/// [`MAX_PASTE_LEN`] bytes that ends on a character boundary.
pub open spec fn truncated_paste(s: Seq<char>) -> Seq<char> {
    truncated_to_boundary(s, MAX_PASTE_LEN as nat)
}

/// What pasting `text` into the prompt does, and the notice shown, if any.
pub open spec fn paste_step(v: IdleView, text: Seq<char>) -> (IdleView, Option<Seq<char>>) {
    let done = |w: IdleView| reset_palette(IdleView { quit_pending: false, ..w });
    if text.len() == 0 {
        (v, None)
    } else if !text.contains('\n') {
        (done(with_buffer(v, typed_all(v.segs, v.cur, text))), None)
    } else if v.segs.len() > 0 && v.segs[0] is Text && v.segs[0]->Text_0.len() > 0 && v.segs[0]->Text_0[0]
        == '/' {
        (v, Some("Multi-line paste not supported in command mode."@))
    } else {
        let san = sanitized_paste(text);
        if byte_len(san) > MAX_PASTE_LEN {
            (
                done(with_buffer(v, after_insert_paste(v.segs, v.cur, paste_of(truncated_paste(san))))),
                Some("Paste too large ("@ + decimal(byte_len(san)) + " bytes, max 32768). Truncated."@),
            )
        } else {
            (done(with_buffer(v, after_insert_paste(v.segs, v.cur, paste_of(san)))), None)
        }
    }
}

/// The prompt after typing the characters of `text` one by one.
pub open spec fn typed_all(segs: Seq<SegView>, cur: (int, int), text: Seq<char>) -> (Seq<SegView>, (int, int))
    decreases text.len(),
{
    if text.len() == 0 {
        (segs, cur)
    } else {
        let (s1, c1) = after_insert_char(segs, cur, text[0]);
        typed_all(s1, c1, text.drop_first())
    }
}

fn crlf_to_lf_exec(s: &Vec<char>) -> (r: Vec<char>)
    ensures
        r@ == crlf_to_lf(s@),
{
    let mut out: Vec<char> = Vec::new();
    let mut i: usize = 0;
    assert(s@.skip(0) =~= s@);
    while i < s.len()
        invariant
            i <= s@.len(),
            crlf_to_lf(s@) == out@ + crlf_to_lf(s@.skip(i as int)),
        decreases s@.len() - i,
    {
        let ghost rest = s@.skip(i as int);
        if s[i] == '\r' && i + 1 < s.len() && s[i + 1] == '\n' {
            proof {
                assert(rest[0] == '\r' && rest[1] == '\n');
                assert(rest.skip(2) =~= s@.skip(i + 2));
                assert(out@ + crlf_to_lf(rest) =~= out@.push('\n') + crlf_to_lf(s@.skip(i + 2)));
            }
            out.push('\n');
            i = i + 2;
        } else {
            proof {
                assert(rest[0] == s@[i as int]);
                assert(rest.drop_first() =~= s@.skip(i + 1));
                assert(!(rest.len() >= 2 && rest[0] == '\r' && rest[1] == '\n'));
                assert(out@ + crlf_to_lf(rest) =~= out@.push(s@[i as int]) + crlf_to_lf(s@.skip(i + 1)));
            }
            out.push(s[i]);
            i = i + 1;
        }
    }
    assert(s@.skip(i as int) =~= Seq::<char>::empty());
    assert(out@ + Seq::<char>::empty() =~= out@);
    out
}

fn drop_nul(s: &Vec<char>) -> (r: Vec<char>)
    ensures
        r@ == s@.filter(|c: char| c != '\0'),
{
    let mut out: Vec<char> = Vec::new();
    let mut i: usize = 0;
    proof {
        reveal(Seq::filter);
        assert(s@.take(0) =~= Seq::<char>::empty());
    }
    while i < s.len()
        invariant
            i <= s@.len(),
            out@ == s@.take(i as int).filter(|c: char| c != '\0'),
        decreases s@.len() - i,
    {
        proof {
            reveal(Seq::filter);
            assert(s@.take(i + 1).drop_last() =~= s@.take(i as int));
            assert(s@.take(i + 1).last() == s@[i as int]);
        }
        if s[i] != '\0' {
            out.push(s[i]);
        }
        i = i + 1;
    }
    assert(s@.take(i as int) =~= s@);
    out
}

fn truncate_paste(s: &Vec<char>) -> (r: Vec<char>)
    ensures
        r@ == truncated_paste(s@),
        byte_len(r@) <= MAX_PASTE_LEN,
{
    truncate_to_boundary(s.as_slice(), MAX_PASTE_LEN)
}

fn has_newline(s: &Vec<char>) -> (r: bool)
    ensures
        r == s@.contains('\n'),
{
    let mut i: usize = 0;
    while i < s.len()
        invariant
            i <= s@.len(),
            forall|j: int| 0 <= j < i ==> s@[j] != '\n',
        decreases s@.len() - i,
    {
        if s[i] == '\n' {
            assert(s@[i as int] == '\n');
            return true;
        }
        i = i + 1;
    }
    false
}

/// Paste `text` into the prompt while it accepts text: a single line is
/// typed character by character; several lines become a paste block,
/// line endings made `\n` and NUL characters dropped, cut to at most
/// [`MAX_PASTE_LEN`] bytes; several lines are refused while a command is
/// being typed. Returns the notice to show, if any.
#[verifier::spinoff_prover]
#[verifier::rlimit(40)]
pub fn handle_paste(st: &mut IdleInput, text: &str) -> (r: Option<String>)
    requires
        cursor_ok(old(st).input_buf.segs(), old(st).input_buf.cur()),
        old(st).input_buf.segments@.len() + 2 <= usize::MAX,
    ensures
        (idle_view(*final(st)), match r {
            Some(n) => Some(n@),
            None => None::<Seq<char>>,
        }) == paste_step(idle_view(*old(st)), text@),
        cursor_ok(final(st).input_buf.segs(), final(st).input_buf.cur()),
{
    let chars = str_to_chars(text);
    if chars.len() == 0 {
        return None;
    }
    if !has_newline(&chars) {
        let mut i: usize = 0;
        let ghost v0 = idle_view(*st);
        assert(chars@.skip(0) =~= chars@);
        while i < chars.len()
            invariant
                i <= chars@.len(),
                cursor_ok(st.input_buf.segs(), st.input_buf.cur()),
                typed_all(v0.segs, v0.cur, chars@) == typed_all(
                    st.input_buf.segs(),
                    st.input_buf.cur(),
                    chars@.skip(i as int),
                ),
                idle_view(*st) == with_buffer(v0, (st.input_buf.segs(), st.input_buf.cur())),
            decreases chars@.len() - i,
        {
            let ghost before = (st.input_buf.segs(), st.input_buf.cur());
            st.input_buf.insert_char(chars[i]);
            proof {
                let rest = chars@.skip(i as int);
                assert(rest[0] == chars@[i as int]);
                assert(rest.drop_first() =~= chars@.skip(i + 1));
            }
            i = i + 1;
        }
        proof {
            assert(chars@.skip(i as int) =~= Seq::<char>::empty());
        }
        st.quit_pending = false;
        palette_reset(st);
        return None;
    }
    if st.input_buf.starts_with_slash() {
        return Some(String::from_str("Multi-line paste not supported in command mode."));
    }
    let lf = crlf_to_lf_exec(&chars);
    let san = drop_nul(&lf);
    let mut notice: Option<String> = None;
    if byte_len_exceeds(&san, MAX_PASTE_LEN) {
        let whole = chars_to_string(&san);
        let n = whole.as_str().as_bytes().len();
        let digits = u64_to_decimal(n as u64);
        notice = Some(cat3("Paste too large (", digits.as_str(), " bytes, max 32768). Truncated."));
        let cut = truncate_paste(&san);
        st.input_buf.insert_paste(chars_to_string(&cut));
    } else {
        st.input_buf.insert_paste(chars_to_string(&san));
    }
    st.quit_pending = false;
    palette_reset(st);
    notice
}


/// Whether the interface takes a paste in `mode`: while idle, interrupted
/// or answering an onboarding field.
pub open spec fn accepts_paste(mode: InputMode) -> bool {
    mode is Idle || mode is Interrupted || mode is Onboarding
}

/// A paste arriving while the interface is in `mode`. It is ignored unless
/// the interface takes text (idle, interrupted or onboarding); an
/// interrupted interface goes back to idle first. A paste that is taken
/// goes into the prompt as [`handle_paste`] puts it there. Returns the mode
/// afterwards and the notice to show, if any.
pub fn paste_event(mode: InputMode, st: &mut IdleInput, text: &str) -> (r: (InputMode, Option<String>))
    requires
        cursor_ok(old(st).input_buf.segs(), old(st).input_buf.cur()),
        old(st).input_buf.segments@.len() + 2 <= usize::MAX,
    ensures
        mode is Interrupted ==> r.0 is Idle,
        !(mode is Interrupted) ==> r.0 == mode,
        accepts_paste(mode) ==> (idle_view(*final(st)), match r.1 {
            Some(n) => Some(n@),
            None => None::<Seq<char>>,
        }) == paste_step(idle_view(*old(st)), text@),
        !accepts_paste(mode) ==> idle_view(*final(st)) == idle_view(*old(st)) && r.1 is None,
        cursor_ok(final(st).input_buf.segs(), final(st).input_buf.cur()),
{
    let next = match mode {
        InputMode::Interrupted => InputMode::Idle,
        other => other,
    };
    let takes = match next {
        InputMode::Idle => true,
        InputMode::Onboarding { .. } => true,
        _ => false,
    };
    if !takes {
        return (next, None);
    }
    let notice = handle_paste(st, text);
    (next, notice)
}
} // verus!
