//! ANSI SGR escape codes for the headless snapshots of the terminal UI:
//! the codes of a colour and of text modifiers, and the escape sequence
//! that switches from one cell style to the next.

use vstd::prelude::*;
use crate::text::{decimal, u64_to_decimal};

verus! {

/// A terminal colour, as the UI's widgets use them.
#[derive(Debug, Clone, Copy, PartialEq, Eq, Structural)]
pub enum TermColor {
    Reset,
    Black,
    Red,
    Green,
    Yellow,
    Blue,
    Magenta,
    Cyan,
    Gray,
    DarkGray,
    LightRed,
    LightGreen,
    LightYellow,
    LightBlue,
    LightMagenta,
    LightCyan,
    White,
    /// A 24-bit colour.
    Rgb(u8, u8, u8),
    /// A colour of the 256-colour palette.
    Indexed(u8),
}

/// Text modifiers of a cell.
#[derive(Debug, Clone, Copy, PartialEq, Eq, Structural)]
pub struct TextModifiers {
    pub bold: bool,
    pub dim: bool,
    pub italic: bool,
    pub underlined: bool,
    pub slow_blink: bool,
    pub rapid_blink: bool,
    pub reversed: bool,
    pub hidden: bool,
    pub crossed_out: bool,
}

/// The style of a cell.
#[derive(Debug, Clone, Copy, PartialEq, Eq, Structural)]
pub struct CellStyle {
    pub fg: TermColor,
    pub bg: TermColor,
    pub mods: TextModifiers,
}

/// The decimal text of a byte.
pub open spec fn dec(b: u8) -> Seq<char> {
    decimal(b as nat)
}

/// The SGR code of a colour: `base` plus the colour's number for the
/// eight basic colours, `base + 60` plus it for the light ones (grey and
/// dark grey both being light black), then `base + 8` with `;2;r;g;b`
/// or `;5;i` for 24-bit and palette colours; none for the reset colour.
#[verifier::opaque]
pub open spec fn color_code(c: TermColor, base: nat) -> Option<Seq<char>> {
    match c {
        TermColor::Reset => None,
        TermColor::Black => Some(decimal(base)),
        TermColor::Red => Some(decimal(base + 1)),
        TermColor::Green => Some(decimal(base + 2)),
        TermColor::Yellow => Some(decimal(base + 3)),
        TermColor::Blue => Some(decimal(base + 4)),
        TermColor::Magenta => Some(decimal(base + 5)),
        TermColor::Cyan => Some(decimal(base + 6)),
        TermColor::White => Some(decimal(base + 7)),
        TermColor::Gray => Some(decimal(base + 60)),
        TermColor::DarkGray => Some(decimal(base + 60)),
        TermColor::LightRed => Some(decimal(base + 61)),
        TermColor::LightGreen => Some(decimal(base + 62)),
        TermColor::LightYellow => Some(decimal(base + 63)),
        TermColor::LightBlue => Some(decimal(base + 64)),
        TermColor::LightMagenta => Some(decimal(base + 65)),
        TermColor::LightCyan => Some(decimal(base + 66)),
        TermColor::Rgb(r, g, b) => Some(decimal(base + 8) + ";2;"@ + dec(r) + ";"@ + dec(g) + ";"@ + dec(b)),
        TermColor::Indexed(i) => Some(decimal(base + 8) + ";5;"@ + dec(i)),
    }
}

/// The foreground code of a colour (`30`–`37`, `90`–`96`, `38;…`).
pub open spec fn fg_code(c: TermColor) -> Option<Seq<char>> {
    color_code(c, 30)
}

/// The background code of a colour (`40`–`47`, `100`–`106`, `48;…`).
pub open spec fn bg_code(c: TermColor) -> Option<Seq<char>> {
    color_code(c, 40)
}

fn color_sgr(c: TermColor, base: u64) -> (r: Option<String>)
    requires
        base == 30 || base == 40,
    ensures
        match r {
            Some(s) => color_code(c, base as nat) == Some(s@),
            None => color_code(c, base as nat) is None,
        },
{
    proof {
        reveal(color_code);
        reveal_strlit(";2;");
        reveal_strlit(";5;");
        reveal_strlit(";");
    }
    match c {
        TermColor::Reset => None,
        TermColor::Black => Some(u64_to_decimal(base)),
        TermColor::Red => Some(u64_to_decimal(base + 1)),
        TermColor::Green => Some(u64_to_decimal(base + 2)),
        TermColor::Yellow => Some(u64_to_decimal(base + 3)),
        TermColor::Blue => Some(u64_to_decimal(base + 4)),
        TermColor::Magenta => Some(u64_to_decimal(base + 5)),
        TermColor::Cyan => Some(u64_to_decimal(base + 6)),
        TermColor::White => Some(u64_to_decimal(base + 7)),
        TermColor::Gray => Some(u64_to_decimal(base + 60)),
        TermColor::DarkGray => Some(u64_to_decimal(base + 60)),
        TermColor::LightRed => Some(u64_to_decimal(base + 61)),
        TermColor::LightGreen => Some(u64_to_decimal(base + 62)),
        TermColor::LightYellow => Some(u64_to_decimal(base + 63)),
        TermColor::LightBlue => Some(u64_to_decimal(base + 64)),
        TermColor::LightMagenta => Some(u64_to_decimal(base + 65)),
        TermColor::LightCyan => Some(u64_to_decimal(base + 66)),
        TermColor::Rgb(r, g, b) => {
            let mut s = u64_to_decimal(base + 8);
            s.append(";2;");
            s.append(u64_to_decimal(r as u64).as_str());
            s.append(";");
            s.append(u64_to_decimal(g as u64).as_str());
            s.append(";");
            s.append(u64_to_decimal(b as u64).as_str());
            Some(s)
        },
        TermColor::Indexed(i) => {
            let mut s = u64_to_decimal(base + 8);
            s.append(";5;");
            s.append(u64_to_decimal(i as u64).as_str());
            Some(s)
        },
    }
}

/// The foreground SGR code of a colour; none for the reset colour.
pub fn fg_ansi(color: TermColor) -> (r: Option<String>)
    ensures
        match r {
            Some(s) => fg_code(color) == Some(s@),
            None => fg_code(color) is None,
        },
{
    color_sgr(color, 30)
}

/// The background SGR code of a colour; none for the reset colour.
pub fn bg_ansi(color: TermColor) -> (r: Option<String>)
    ensures
        match r {
            Some(s) => bg_code(color) == Some(s@),
            None => bg_code(color) is None,
        },
{
    color_sgr(color, 40)
}

/// The code of `o` as a one-element list, or nothing.
pub open spec fn opt_code(o: Option<Seq<char>>) -> Seq<Seq<char>> {
    match o {
        Some(c) => seq![c],
        None => Seq::empty(),
    }
}

/// `code` as a one-element list when `on`, else nothing.
pub open spec fn flag_code(on: bool, code: Seq<char>) -> Seq<Seq<char>> {
    if on {
        seq![code]
    } else {
        Seq::empty()
    }
}

/// The SGR codes of a style: foreground, background, then bold (`1`), dim
/// (`2`), italic (`3`), underlined (`4`) and reversed (`7`). Blinking,
/// hidden and crossed-out text get no code.
pub open spec fn style_codes(fg: TermColor, bg: TermColor, mods: TextModifiers) -> Seq<Seq<char>> {
    opt_code(fg_code(fg)) + opt_code(bg_code(bg)) + flag_code(mods.bold, seq!['1']) + flag_code(
        mods.dim,
        seq!['2'],
    ) + flag_code(mods.italic, seq!['3']) + flag_code(mods.underlined, seq!['4']) + flag_code(
        mods.reversed,
        seq!['7'],
    )
}

/// The strings' characters.
pub open spec fn code_views(v: Seq<String>) -> Seq<Seq<char>> {
    v.map_values(|s: String| s@)
}

fn push_code(codes: &mut Vec<String>, code: char)
    ensures
        code_views(final(codes)@) == code_views(old(codes)@).push(seq![code]),
{
    let mut s = String::new();
    s.push(code);
    let ghost before = codes@;
    codes.push(s);
    assert(code_views(codes@) =~= code_views(before).push(seq![code]));
}

fn push_opt(codes: &mut Vec<String>, o: Option<String>, Ghost(code): Ghost<Option<Seq<char>>>)
    requires
        match o {
            Some(s) => code == Some(s@),
            None => code is None,
        },
    ensures
        code_views(final(codes)@) == code_views(old(codes)@) + opt_code(code),
{
    let ghost before = codes@;
    match o {
        Some(c) => {
            codes.push(c);
        },
        None => {},
    }
    assert(code_views(codes@) =~= code_views(before) + opt_code(code));
}

fn push_flag(codes: &mut Vec<String>, on: bool, code: char)
    ensures
        code_views(final(codes)@) == code_views(old(codes)@) + flag_code(on, seq![code]),
{
    let ghost before = code_views(codes@);
    if on {
        push_code(codes, code);
    }
    assert(code_views(codes@) =~= before + flag_code(on, seq![code]));
}

/// Appends the SGR codes of a style to `codes`; see [`style_codes`].
pub fn build_sgr(codes: &mut Vec<String>, fg: TermColor, bg: TermColor, mods: TextModifiers)
    ensures
        code_views(final(codes)@) == code_views(old(codes)@) + style_codes(fg, bg, mods),
{
    let ghost start = code_views(codes@);
    let ghost a = opt_code(fg_code(fg));
    let ghost b = opt_code(bg_code(bg));
    let ghost c = flag_code(mods.bold, seq!['1']);
    let ghost d = flag_code(mods.dim, seq!['2']);
    let ghost e = flag_code(mods.italic, seq!['3']);
    let ghost f = flag_code(mods.underlined, seq!['4']);
    let ghost g = flag_code(mods.reversed, seq!['7']);
    push_opt(codes, fg_ansi(fg), Ghost(fg_code(fg)));
    push_opt(codes, bg_ansi(bg), Ghost(bg_code(bg)));
    proof {
        vstd::seq_lib::lemma_concat_associative(start, a, b);
    }
    push_flag(codes, mods.bold, '1');
    proof {
        vstd::seq_lib::lemma_concat_associative(start, a + b, c);
    }
    push_flag(codes, mods.dim, '2');
    proof {
        vstd::seq_lib::lemma_concat_associative(start, a + b + c, d);
    }
    push_flag(codes, mods.italic, '3');
    proof {
        vstd::seq_lib::lemma_concat_associative(start, a + b + c + d, e);
    }
    push_flag(codes, mods.underlined, '4');
    proof {
        vstd::seq_lib::lemma_concat_associative(start, a + b + c + d + e, f);
    }
    push_flag(codes, mods.reversed, '7');
    proof {
        vstd::seq_lib::lemma_concat_associative(start, a + b + c + d + e + f, g);
    }
}

/// No modifier is set.
pub open spec fn no_mods(m: TextModifiers) -> bool {
    !m.bold && !m.dim && !m.italic && !m.underlined && !m.slow_blink && !m.rapid_blink && !m.reversed
        && !m.hidden && !m.crossed_out
}

/// `parts` joined with `;`.
pub open spec fn joined_codes(parts: Seq<Seq<char>>) -> Seq<char>
    decreases parts.len(),
{
    if parts.len() == 0 {
        Seq::empty()
    } else if parts.len() == 1 {
        parts[0]
    } else {
        joined_codes(parts.drop_last()) + seq![';'] + parts.last()
    }
}

/// The codes that switch from the cell style `old` to `new`: a reset
/// (`0`) when a colour goes back to the default or the modifiers change,
/// then the codes of the new style. Nothing when the style is the same.
pub open spec fn transition_codes(old: CellStyle, new: CellStyle) -> Seq<Seq<char>> {
    if old == new {
        Seq::empty()
    } else {
        let reset = (new.fg is Reset && old.fg !is Reset) || (new.bg is Reset && old.bg !is Reset) || new.mods
            != old.mods;
        flag_code(reset, seq!['0']) + style_codes(new.fg, new.bg, new.mods)
    }
}

/// The escape sequence that switches from `old` to `new`: `ESC [`, the
/// codes joined by `;`, and `m`; empty when there are no codes.
pub open spec fn transition_sequence(old: CellStyle, new: CellStyle) -> Seq<char> {
    let codes = transition_codes(old, new);
    if codes.len() == 0 {
        Seq::empty()
    } else {
        seq!['\u{1b}', '['] + joined_codes(codes) + seq!['m']
    }
}

fn same_mods(a: TextModifiers, b: TextModifiers) -> (r: bool)
    ensures
        r == (a == b),
{
    a.bold == b.bold && a.dim == b.dim && a.italic == b.italic && a.underlined == b.underlined
        && a.slow_blink == b.slow_blink && a.rapid_blink == b.rapid_blink && a.reversed == b.reversed
        && a.hidden == b.hidden && a.crossed_out == b.crossed_out
}

fn is_reset(c: TermColor) -> (r: bool)
    ensures
        r == c is Reset,
{
    match c {
        TermColor::Reset => true,
        _ => false,
    }
}

fn same_color(a: TermColor, b: TermColor) -> (r: bool)
    ensures
        r == (a == b),
{
    match (a, b) {
        (TermColor::Rgb(r1, g1, b1), TermColor::Rgb(r2, g2, b2)) => r1 == r2 && g1 == g2 && b1 == b2,
        (TermColor::Indexed(i), TermColor::Indexed(j)) => i == j,
        (TermColor::Rgb(_, _, _), _) => false,
        (_, TermColor::Rgb(_, _, _)) => false,
        (TermColor::Indexed(_), _) => false,
        (_, TermColor::Indexed(_)) => false,
        _ => color_tag(a) == color_tag(b),
    }
}

/// The position of a named colour in the enum; 0 for the others.
pub open spec fn color_tag_spec(c: TermColor) -> u8 {
    match c {
        TermColor::Reset => 1,
        TermColor::Black => 2,
        TermColor::Red => 3,
        TermColor::Green => 4,
        TermColor::Yellow => 5,
        TermColor::Blue => 6,
        TermColor::Magenta => 7,
        TermColor::Cyan => 8,
        TermColor::Gray => 9,
        TermColor::DarkGray => 10,
        TermColor::LightRed => 11,
        TermColor::LightGreen => 12,
        TermColor::LightYellow => 13,
        TermColor::LightBlue => 14,
        TermColor::LightMagenta => 15,
        TermColor::LightCyan => 16,
        TermColor::White => 17,
        _ => 0,
    }
}

fn color_tag(c: TermColor) -> (r: u8)
    ensures
        r == color_tag_spec(c),
{
    match c {
        TermColor::Reset => 1,
        TermColor::Black => 2,
        TermColor::Red => 3,
        TermColor::Green => 4,
        TermColor::Yellow => 5,
        TermColor::Blue => 6,
        TermColor::Magenta => 7,
        TermColor::Cyan => 8,
        TermColor::Gray => 9,
        TermColor::DarkGray => 10,
        TermColor::LightRed => 11,
        TermColor::LightGreen => 12,
        TermColor::LightYellow => 13,
        TermColor::LightBlue => 14,
        TermColor::LightMagenta => 15,
        TermColor::LightCyan => 16,
        TermColor::White => 17,
        _ => 0,
    }
}

/// `ESC [`, the codes joined by `;`, and `m`.
fn sgr_sequence(codes: &Vec<String>) -> (r: String)
    requires
        codes@.len() > 0,
    ensures
        r@ == seq!['\u{1b}', '['] + joined_codes(code_views(codes@)) + seq!['m'],
{
    let ghost cv = code_views(codes@);
    let mut out = String::new();
    out.push('\u{1b}');
    out.push('[');
    let mut i: usize = 0;
    assert(cv.take(0) =~= Seq::<Seq<char>>::empty());
    assert(out@ =~= seq!['\u{1b}', '['] + joined_codes(cv.take(0)));
    while i < codes.len()
        invariant
            i <= codes@.len(),
            cv == code_views(codes@),
            out@ == seq!['\u{1b}', '['] + joined_codes(cv.take(i as int)),
        decreases codes@.len() - i,
    {
        if i > 0 {
            out.push(';');
        }
        out.append(codes[i].as_str());
        proof {
            assert(cv.take(i + 1).drop_last() =~= cv.take(i as int));
            assert(cv.take(i + 1).last() == codes@[i as int]@);
            if i == 0 {
                assert(cv.take(1) =~= seq![codes@[0]@]);
            }
            assert(out@ =~= seq!['\u{1b}', '['] + joined_codes(cv.take(i + 1)));
        }
        i = i + 1;
    }
    assert(cv.take(i as int) =~= cv);
    out.push('m');
    out
}

/// The codes that switch from `old` to a different style `new`.
fn transition_code_list(old: CellStyle, new: CellStyle) -> (r: Vec<String>)
    requires
        old != new,
    ensures
        code_views(r@) == transition_codes(old, new),
{
    let mut codes: Vec<String> = Vec::new();
    let reset = (is_reset(new.fg) && !is_reset(old.fg)) || (is_reset(new.bg) && !is_reset(old.bg))
        || !same_mods(new.mods, old.mods);
    push_flag(&mut codes, reset, '0');
    assert(code_views(Seq::<String>::empty()) =~= Seq::<Seq<char>>::empty());
    assert(Seq::<Seq<char>>::empty() + flag_code(reset, seq!['0']) =~= flag_code(reset, seq!['0']));
    build_sgr(&mut codes, new.fg, new.bg, new.mods);
    codes
}

/// The escape sequence that switches from the style `old` to `new`; see
/// [`transition_sequence`].
pub fn style_transition(old: CellStyle, new: CellStyle) -> (r: String)
    ensures
        r@ == transition_sequence(old, new),
{
    let same = same_color(old.fg, new.fg) && same_color(old.bg, new.bg) && same_mods(old.mods, new.mods);
    if same {
        return String::new();
    }
    let codes = transition_code_list(old, new);
    if codes.len() == 0 {
        return String::new();
    }
    sgr_sequence(&codes)
}

/// A line whose last style is `s` ends with a reset when a colour or a
/// modifier is still set.
pub fn needs_final_reset(s: CellStyle) -> (r: bool)
    ensures
        r == (s.fg !is Reset || s.bg !is Reset || !no_mods(s.mods)),
{
    !is_reset(s.fg) || !is_reset(s.bg) || !(!s.mods.bold && !s.mods.dim && !s.mods.italic && !s.mods.underlined
        && !s.mods.slow_blink && !s.mods.rapid_blink && !s.mods.reversed && !s.mods.hidden
        && !s.mods.crossed_out)
}

} // verus!
