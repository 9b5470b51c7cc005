//! Keys while the terminal UI waits for input.

use astrid::command_palette::SlashCommandDef;
use astrid::idle_keys::{handle_idle_key, IdleEffect, IdleInput, Key, CONTROL, SHIFT};
use astrid::input_buffer::InputBuffer;

fn fresh() -> IdleInput {
    IdleInput {
        input_buf: InputBuffer::default(),
        quit_pending: false,
        should_quit: false,
        scroll_offset: 0,
        palette_selected: 0,
        palette_scroll_offset: 0,
    }
}

fn commands() -> Vec<SlashCommandDef> {
    ["/help", "/clear", "/install", "/refresh", "/quit"]
        .iter()
        .map(|n| SlashCommandDef { name: n.to_string(), description: String::new() })
        .collect()
}

fn typed(st: &mut IdleInput, text: &str) {
    for c in text.chars() {
        assert_eq!(handle_idle_key(st, &commands(), Key::Char(c), 0), IdleEffect::Nothing);
    }
}

#[test]
fn typing_then_enter_sends_the_input() {
    let mut st = fresh();
    typed(&mut st, "hi there");
    assert_eq!(st.input_buf.flat_text(), "hi there");
    let e = handle_idle_key(&mut st, &commands(), Key::Enter, 0);
    assert_eq!(e, IdleEffect::SendInput("hi there".to_string()));
    assert!(st.input_buf.is_empty());
    // Blank input is not sent.
    typed(&mut st, "   ");
    assert_eq!(handle_idle_key(&mut st, &commands(), Key::Enter, 0), IdleEffect::Nothing);
    assert!(st.input_buf.is_empty());
}

#[test]
fn double_ctrl_c_quits_and_other_keys_cancel_it() {
    let mut st = fresh();
    handle_idle_key(&mut st, &commands(), Key::Char('c'), CONTROL);
    assert!(st.quit_pending && !st.should_quit);
    handle_idle_key(&mut st, &commands(), Key::Left, 0);
    assert!(!st.quit_pending);
    handle_idle_key(&mut st, &commands(), Key::Char('d'), CONTROL);
    handle_idle_key(&mut st, &commands(), Key::Char('c'), CONTROL);
    assert!(st.should_quit);
}

#[test]
fn palette_tab_completes_and_enter_submits_argless() {
    let mut st = fresh();
    typed(&mut st, "/in");
    handle_idle_key(&mut st, &commands(), Key::Tab, 0);
    assert_eq!(st.input_buf.flat_text(), "/install ");
    // With the arguments' space typed no entry matches any more, so Enter
    // submits what is there.
    let e = handle_idle_key(&mut st, &commands(), Key::Enter, 0);
    assert_eq!(e, IdleEffect::SendInput("/install ".to_string()));
    assert!(st.input_buf.is_empty());

    // Enter on an entry that takes arguments only completes it.
    let mut st = fresh();
    typed(&mut st, "/ins");
    let e = handle_idle_key(&mut st, &commands(), Key::Enter, 0);
    assert_eq!(e, IdleEffect::Nothing);
    assert_eq!(st.input_buf.flat_text(), "/install ");

    let mut st = fresh();
    typed(&mut st, "/");
    handle_idle_key(&mut st, &commands(), Key::Down, 0);
    assert_eq!(st.palette_selected, 1);
    let e = handle_idle_key(&mut st, &commands(), Key::Enter, 0);
    assert_eq!(e, IdleEffect::SendInput("/clear".to_string()));
    assert_eq!(st.palette_selected, 0);
    assert!(st.input_buf.is_empty());
}

#[test]
fn palette_up_wraps_and_esc_clears() {
    let mut st = fresh();
    typed(&mut st, "/");
    handle_idle_key(&mut st, &commands(), Key::Up, 0);
    assert_eq!(st.palette_selected, 4);
    handle_idle_key(&mut st, &commands(), Key::Esc, 0);
    assert!(st.input_buf.is_empty());
    assert_eq!(st.palette_selected, 0);
}

#[test]
fn scrolling_and_control_keys() {
    let mut st = fresh();
    handle_idle_key(&mut st, &commands(), Key::PageUp, 0);
    assert_eq!(st.scroll_offset, 10);
    handle_idle_key(&mut st, &commands(), Key::Up, 0);
    assert_eq!(st.scroll_offset, 11);
    handle_idle_key(&mut st, &commands(), Key::Down, 0);
    handle_idle_key(&mut st, &commands(), Key::PageDown, 0);
    assert_eq!(st.scroll_offset, 0);
    handle_idle_key(&mut st, &commands(), Key::Home, CONTROL);
    assert_eq!(st.scroll_offset, usize::MAX);
    handle_idle_key(&mut st, &commands(), Key::End, CONTROL);
    assert_eq!(st.scroll_offset, 0);
    typed(&mut st, "abc");
    handle_idle_key(&mut st, &commands(), Key::Home, 0);
    handle_idle_key(&mut st, &commands(), Key::Char('X'), SHIFT);
    assert_eq!(st.input_buf.flat_text(), "Xabc");
    handle_idle_key(&mut st, &commands(), Key::End, 0);
    handle_idle_key(&mut st, &commands(), Key::Backspace, 0);
    assert_eq!(st.input_buf.flat_text(), "Xab");
    handle_idle_key(&mut st, &commands(), Key::Home, 0);
    handle_idle_key(&mut st, &commands(), Key::Delete, 0);
    assert_eq!(st.input_buf.flat_text(), "ab");
    handle_idle_key(&mut st, &commands(), Key::Char('u'), CONTROL);
    assert!(st.input_buf.is_empty());
    assert_eq!(handle_idle_key(&mut st, &commands(), Key::Char('e'), CONTROL), IdleEffect::ToggleLastTool);
    assert_eq!(handle_idle_key(&mut st, &commands(), Key::Char('C'), CONTROL | SHIFT), IdleEffect::EnterCopyMode);
    assert_eq!(handle_idle_key(&mut st, &commands(), Key::Other, 0), IdleEffect::Nothing);
}

use astrid::idle_keys::{input_height, InputOverlay};

#[test]
fn input_height_counts_wrapped_rows_and_menus() {
    let mut buf = InputBuffer::default();
    // Empty prompt: one line plus the border, at least 3.
    assert_eq!(input_height(&buf, 80, 30, InputOverlay::Plain), 3);
    buf.set_text("x".repeat(77 * 3));
    // 231 characters over 77 columns: 3 rows, plus the border.
    assert_eq!(input_height(&buf, 80, 30, InputOverlay::Plain), 4);
    buf.set_text("x".repeat(77 * 20));
    assert_eq!(input_height(&buf, 80, 30, InputOverlay::Plain), 8);
    // A leading slash is not shown.
    buf.set_text(format!("/{}", "x".repeat(77)));
    assert_eq!(input_height(&buf, 80, 30, InputOverlay::Plain), 3);
    buf.set_text(format!("/{}", "x".repeat(78)));
    assert_eq!(input_height(&buf, 80, 30, InputOverlay::Plain), 3);
    // Menus add a separator and at most a third of the screen.
    buf.clear();
    assert_eq!(input_height(&buf, 80, 30, InputOverlay::Palette { matches: 4 }), 3 + 5);
    assert_eq!(input_height(&buf, 80, 30, InputOverlay::Palette { matches: 40 }), 3 + 11);
    assert_eq!(input_height(&buf, 80, 30, InputOverlay::Palette { matches: 0 }), 3);
    assert_eq!(input_height(&buf, 80, 30, InputOverlay::Selection { options: 40 }), 3 + 11);
    assert_eq!(input_height(&buf, 80, 60, InputOverlay::Selection { options: 40 }), 3 + 11);
    assert_eq!(input_height(&buf, 80, 60, InputOverlay::Onboarding { rows: 40 }), 3 + 16);
    assert_eq!(input_height(&buf, 80, 6, InputOverlay::Onboarding { rows: 2 }), 3 + 3);
}

#[test]
fn input_height_counts_paste_labels() {
    let mut buf = InputBuffer::default();
    buf.insert_paste("a\nb".to_string());
    // "[Pasted text #1, 2 lines]" is 25 bytes: one row at width 30.
    assert_eq!(input_height(&buf, 30, 30, InputOverlay::Plain), 3);
    // At width 27 (24 columns) it takes two rows.
    assert_eq!(input_height(&buf, 27, 30, InputOverlay::Plain), 3);
    buf.insert_paste("one line".to_string());
    // A second label "[Pasted text #2, 1 line]" is 24 bytes: 49 in all.
    assert_eq!(input_height(&buf, 13, 30, InputOverlay::Plain), 6);
}

use astrid::idle_keys::{handle_paste, MAX_PASTE_LEN};
use astrid::input_buffer::InputSegment;

#[test]
fn single_line_paste_is_typed() {
    let mut st = fresh();
    st.quit_pending = true;
    assert_eq!(handle_paste(&mut st, "abc"), None);
    assert_eq!(st.input_buf.flat_text(), "abc");
    assert!(!st.input_buf.has_paste_blocks());
    assert!(!st.quit_pending);
    assert_eq!(handle_paste(&mut st, ""), None);
    assert_eq!(st.input_buf.flat_text(), "abc");
}

#[test]
fn multi_line_paste_becomes_a_sanitized_block() {
    let mut st = fresh();
    assert_eq!(handle_paste(&mut st, "one\r\ntwo\0\nthree"), None);
    assert!(st.input_buf.has_paste_blocks());
    assert_eq!(st.input_buf.flat_text(), "one\ntwo\nthree");
    match &st.input_buf.segments[0] {
        InputSegment::PasteBlock { line_count, .. } => assert_eq!(*line_count, 3),
        other => panic!("expected a paste block, got {other:?}"),
    }
}

#[test]
fn multi_line_paste_refused_in_command_mode() {
    let mut st = fresh();
    typed(&mut st, "/inst");
    let notice = handle_paste(&mut st, "a\nb");
    assert_eq!(notice.as_deref(), Some("Multi-line paste not supported in command mode."));
    assert_eq!(st.input_buf.flat_text(), "/inst");
}

#[test]
fn oversized_paste_is_truncated_with_notice() {
    let mut st = fresh();
    let big = format!("{}\n{}", "a".repeat(MAX_PASTE_LEN), "b".repeat(10));
    let notice = handle_paste(&mut st, &big);
    assert_eq!(notice.as_deref(), Some("Paste too large (32779 bytes, max 32768). Truncated."));
    assert_eq!(st.input_buf.flat_text(), "a".repeat(MAX_PASTE_LEN));
    // A character that would cross the limit is left out whole.
    let mut st = fresh();
    let wide = format!("{}é\n", "a".repeat(MAX_PASTE_LEN - 1));
    handle_paste(&mut st, &wide);
    assert_eq!(st.input_buf.flat_text(), "a".repeat(MAX_PASTE_LEN - 1));
    assert!(st.input_buf.flat_text().len() <= MAX_PASTE_LEN);
}

use astrid::idle_keys::paste_event;
use astrid::input_line::InputMode;

#[test]
fn pastes_are_taken_only_where_text_is() {
    let mut st = fresh();
    let (mode, notice) = paste_event(InputMode::Busy, &mut st, "a\nb");
    assert!(matches!(mode, InputMode::Busy));
    assert!(notice.is_none());
    assert!(st.input_buf.is_empty());
    let (mode, _) = paste_event(InputMode::Selection, &mut st, "ab");
    assert!(matches!(mode, InputMode::Selection));
    assert!(st.input_buf.is_empty());

    let (mode, _) = paste_event(InputMode::Interrupted, &mut st, "a\nb");
    assert!(matches!(mode, InputMode::Idle));
    assert!(matches!(&st.input_buf.segments[..], [InputSegment::PasteBlock { raw, .. }] if raw == "a\nb")
        || st.input_buf.segments.iter().any(|s| matches!(s, InputSegment::PasteBlock { raw, .. } if raw == "a\nb")));

    let mut st = fresh();
    let (mode, _) = paste_event(InputMode::Interrupted, &mut st, "");
    assert!(matches!(mode, InputMode::Idle));
    let m = InputMode::Onboarding { secret: false, is_enum: false, placeholder: None };
    let (mode, _) = paste_event(m, &mut st, "xy");
    assert!(matches!(mode, InputMode::Onboarding { .. }));
    assert_eq!(st.input_buf.flat_text(), "xy");
}
