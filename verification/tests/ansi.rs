//! SGR codes of colours and styles for headless snapshots.

use astrid::ansi::{
    bg_ansi, build_sgr, fg_ansi, needs_final_reset, style_transition, CellStyle, TermColor, TextModifiers,
};

fn no_mods() -> TextModifiers {
    TextModifiers {
        bold: false,
        dim: false,
        italic: false,
        underlined: false,
        slow_blink: false,
        rapid_blink: false,
        reversed: false,
        hidden: false,
        crossed_out: false,
    }
}

fn plain() -> CellStyle {
    CellStyle { fg: TermColor::Reset, bg: TermColor::Reset, mods: no_mods() }
}

#[test]
fn foreground_codes() {
    assert_eq!(fg_ansi(TermColor::Reset), None);
    assert_eq!(fg_ansi(TermColor::Black).unwrap(), "30");
    assert_eq!(fg_ansi(TermColor::Red).unwrap(), "31");
    assert_eq!(fg_ansi(TermColor::White).unwrap(), "37");
    assert_eq!(fg_ansi(TermColor::Gray).unwrap(), "90");
    assert_eq!(fg_ansi(TermColor::DarkGray).unwrap(), "90");
    assert_eq!(fg_ansi(TermColor::LightRed).unwrap(), "91");
    assert_eq!(fg_ansi(TermColor::LightCyan).unwrap(), "96");
    assert_eq!(fg_ansi(TermColor::Rgb(1, 22, 255)).unwrap(), "38;2;1;22;255");
    assert_eq!(fg_ansi(TermColor::Indexed(0)).unwrap(), "38;5;0");
}

#[test]
fn background_codes() {
    assert_eq!(bg_ansi(TermColor::Reset), None);
    assert_eq!(bg_ansi(TermColor::Blue).unwrap(), "44");
    assert_eq!(bg_ansi(TermColor::Gray).unwrap(), "100");
    assert_eq!(bg_ansi(TermColor::LightMagenta).unwrap(), "105");
    assert_eq!(bg_ansi(TermColor::Rgb(9, 8, 7)).unwrap(), "48;2;9;8;7");
    assert_eq!(bg_ansi(TermColor::Indexed(200)).unwrap(), "48;5;200");
}

#[test]
fn style_codes_in_order() {
    let mut codes = vec!["0".to_string()];
    let mods = TextModifiers { bold: true, italic: true, reversed: true, hidden: true, ..no_mods() };
    build_sgr(&mut codes, TermColor::Red, TermColor::Reset, mods);
    assert_eq!(codes, ["0", "31", "1", "3", "7"]);
}

#[test]
fn transitions_between_cell_styles() {
    assert_eq!(style_transition(plain(), plain()), "");
    let red = CellStyle { fg: TermColor::Red, ..plain() };
    assert_eq!(style_transition(plain(), red), "\u{1b}[31m");
    assert_eq!(style_transition(red, plain()), "\u{1b}[0m");
    let bold = CellStyle { mods: TextModifiers { bold: true, ..no_mods() }, ..plain() };
    assert_eq!(style_transition(red, bold), "\u{1b}[0;1m");
    let blink = CellStyle { mods: TextModifiers { slow_blink: true, ..no_mods() }, ..plain() };
    assert_eq!(style_transition(plain(), blink), "\u{1b}[0m");
    let on_blue = CellStyle { bg: TermColor::Blue, ..red };
    assert_eq!(style_transition(red, on_blue), "\u{1b}[31;44m");
}

#[test]
fn line_end_reset() {
    assert!(!needs_final_reset(plain()));
    assert!(needs_final_reset(CellStyle { bg: TermColor::Indexed(3), ..plain() }));
    assert!(needs_final_reset(CellStyle { mods: TextModifiers { hidden: true, ..no_mods() }, ..plain() }));
}
