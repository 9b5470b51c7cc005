//! The prompt line of the terminal UI.

use astrid::input_buffer::{InputBuffer, InputSegment};
use astrid::input_line::{input_line, InputMode, InputRole};

fn buf(segs: Vec<InputSegment>, cursor: (usize, usize)) -> InputBuffer {
    let mut b = InputBuffer::default();
    b.segments = segs;
    b.cursor = cursor;
    b
}

fn text(s: &str) -> InputSegment {
    InputSegment::Text(s.to_string())
}

fn pieces(b: &InputBuffer, m: &InputMode, quit: bool) -> Vec<(InputRole, String)> {
    input_line(b, m, quit).spans.into_iter().map(|s| (s.role, s.text)).collect()
}

fn p(parts: &[(InputRole, &str)]) -> Vec<(InputRole, String)> {
    parts.iter().map(|(r, t)| (*r, t.to_string())).collect()
}

#[test]
fn text_is_split_at_the_cursor() {
    let b = buf(vec![text("hello")], (0, 2));
    assert_eq!(
        pieces(&b, &InputMode::Idle, false),
        p(&[(InputRole::Prompt, "> "), (InputRole::Text, "he"), (InputRole::Cursor, "\u{2588}"), (InputRole::Text, "llo")])
    );
    let line = input_line(&b, &InputMode::Busy, false);
    assert!(!line.active && !line.cursor_active);
    assert_eq!(line.spans[0].text, "  ");
}

#[test]
fn slash_commands_show_their_own_prompt() {
    let b = buf(vec![text("/help")], (0, 3));
    assert_eq!(
        pieces(&b, &InputMode::Interrupted, false),
        p(&[(InputRole::Prompt, "/ "), (InputRole::Text, "he"), (InputRole::Cursor, "\u{2588}"), (InputRole::Text, "lp")])
    );
}

#[test]
fn secret_answers_are_masked() {
    let b = buf(vec![text("sécret")], (0, 3));
    let m = InputMode::Onboarding { secret: true, is_enum: false, placeholder: None };
    assert_eq!(
        pieces(&b, &m, false),
        p(&[(InputRole::Prompt, "  "), (InputRole::Text, "**"), (InputRole::Cursor, "\u{2588}"), (InputRole::Text, "****")])
    );
}

#[test]
fn paste_blocks_are_labelled_inline() {
    let b = buf(
        vec![
            text("ab"),
            InputSegment::PasteBlock { raw: "x\ny".to_string(), line_count: 2 },
            text("c"),
            InputSegment::PasteBlock { raw: "z".to_string(), line_count: 1 },
        ],
        (2, 1),
    );
    assert_eq!(
        pieces(&b, &InputMode::Idle, false),
        p(&[
            (InputRole::Prompt, "> "),
            (InputRole::Text, "ab"),
            (InputRole::Paste, "[Pasted text #1, 2 lines]"),
            (InputRole::Text, "c"),
            (InputRole::Cursor, "\u{2588}"),
            (InputRole::Text, ""),
            (InputRole::Paste, "[Pasted text #2, 1 line]"),
        ])
    );
}

#[test]
fn empty_prompts_show_a_placeholder() {
    let b = buf(vec![text("")], (0, 0));
    assert_eq!(
        pieces(&b, &InputMode::Idle, false),
        p(&[
            (InputRole::Prompt, "> "),
            (InputRole::Cursor, "\u{2588}"),
            (InputRole::Placeholder, " Ask a question or type / for commands..."),
        ])
    );
    let m = InputMode::Onboarding { secret: false, is_enum: false, placeholder: Some("sk-...".to_string()) };
    assert_eq!(
        pieces(&b, &m, false),
        p(&[(InputRole::Prompt, "  "), (InputRole::Placeholder, "sk-..."), (InputRole::Cursor, "\u{2588}")])
    );
    let e = InputMode::Onboarding { secret: false, is_enum: true, placeholder: None };
    assert_eq!(
        pieces(&b, &e, false),
        p(&[(InputRole::Prompt, "  "), (InputRole::Text, ""), (InputRole::Cursor, ""), (InputRole::Text, "")])
    );
}

#[test]
fn a_pending_quit_shows_the_warning() {
    let b = buf(vec![text("hi")], (0, 2));
    assert_eq!(pieces(&b, &InputMode::Idle, true), p(&[(InputRole::Warning, "  Press Ctrl+C again to exit...")]));
}
