//! Keys in copy mode, after an interruption, and while an error is shown.

use astrid::idle_keys::{IdleInput, Key, CONTROL, SHIFT};
use astrid::input_buffer::InputBuffer;
use astrid::daemon_events::StreamState;
use astrid::mode_keys::handle_interruptible_key;
use astrid::mode_keys::{
    handle_error_key, handle_interrupted_key, CopyEffect, CopyMode, MessageKind, MessageRole,
    TimelineMessage, ToolRecord,
};

fn msg(role: MessageRole, content: &str) -> TimelineMessage {
    TimelineMessage { role, content: content.to_string(), kind: None }
}

fn timeline() -> (Vec<TimelineMessage>, Vec<ToolRecord>) {
    let entries = vec![
        msg(MessageRole::User, "read the file"),
        msg(MessageRole::Assistant, "Reading it now."),
        TimelineMessage {
            role: MessageRole::Assistant,
            content: String::new(),
            kind: Some(MessageKind::ToolResult(0)),
        },
        TimelineMessage {
            role: MessageRole::Assistant,
            content: String::new(),
            kind: Some(MessageKind::ToolResult(1)),
        },
        msg(MessageRole::LocalUi, "Done."),
        TimelineMessage {
            role: MessageRole::Assistant,
            content: String::new(),
            kind: Some(MessageKind::ToolResult(7)),
        },
    ];
    let tools = vec![
        ToolRecord {
            name: "read_file".to_string(),
            display_arg: "src/main.rs".to_string(),
            output: Some("fn main() {}".to_string()),
        },
        ToolRecord { name: "list".to_string(), display_arg: String::new(), output: None },
    ];
    (entries, tools)
}

#[test]
fn enter_on_empty_timeline_does_nothing() {
    let mut cm = CopyMode::new();
    assert!(!cm.enter(0));
    assert!(!cm.active);
}

#[test]
fn enter_puts_cursor_on_last_entry() {
    let mut cm = CopyMode::new();
    cm.selected.insert(2);
    assert!(cm.enter(6));
    assert!(cm.active);
    assert_eq!(cm.cursor, 5);
    assert!(cm.selected.is_empty());
}

#[test]
fn copy_without_picks_takes_the_cursor_entry() {
    let (entries, tools) = timeline();
    let mut cm = CopyMode::new();
    cm.enter(entries.len());
    cm.cursor = 0;
    assert_eq!(cm.collect_copy_text(&entries, &tools), "> read the file");
    cm.cursor = 2;
    assert_eq!(cm.collect_copy_text(&entries, &tools), "read_file(src/main.rs)\nfn main() {}");
    cm.cursor = 3;
    assert_eq!(cm.collect_copy_text(&entries, &tools), "list");
    // A tool result whose tool is unknown copies nothing.
    cm.cursor = 5;
    assert_eq!(cm.collect_copy_text(&entries, &tools), "");
}

#[test]
fn picked_entries_are_copied_in_timeline_order() {
    let (entries, tools) = timeline();
    let mut cm = CopyMode::new();
    cm.enter(entries.len());
    cm.cursor = 4;
    cm.toggle();
    cm.cursor = 1;
    cm.toggle();
    cm.cursor = 0;
    cm.toggle();
    assert_eq!(
        cm.collect_copy_text(&entries, &tools),
        "> read the file\n\nReading it now.\n\nDone."
    );
    // Toggling again drops the pick.
    cm.toggle();
    assert_eq!(cm.collect_copy_text(&entries, &tools), "Reading it now.\n\nDone.");
}

#[test]
fn select_all_copies_everything() {
    let (entries, tools) = timeline();
    let mut cm = CopyMode::new();
    cm.enter(entries.len());
    let e = cm.handle_key(Key::Char('a'), CONTROL, &entries, &tools);
    assert_eq!(e, CopyEffect::Nothing);
    assert_eq!(cm.selected.len(), entries.len());
    let e = cm.handle_key(Key::Enter, 0, &entries, &tools);
    assert_eq!(
        e,
        CopyEffect::CopyAndExit(
            "> read the file\n\nReading it now.\n\nread_file(src/main.rs)\nfn main() {}\n\nlist\n\nDone."
                .to_string()
        )
    );
    assert!(!cm.active);
    assert!(cm.selected.is_empty());
}

#[test]
fn cursor_moves_stay_on_the_timeline() {
    let (entries, tools) = timeline();
    let mut cm = CopyMode::new();
    cm.enter(entries.len());
    cm.handle_key(Key::Down, 0, &entries, &tools);
    assert_eq!(cm.cursor, 5);
    cm.handle_key(Key::PageUp, 0, &entries, &tools);
    assert_eq!(cm.cursor, 0);
    cm.handle_key(Key::Up, 0, &entries, &tools);
    assert_eq!(cm.cursor, 0);
    cm.handle_key(Key::Down, 0, &entries, &tools);
    assert_eq!(cm.cursor, 1);
    cm.handle_key(Key::PageDown, 0, &entries, &tools);
    assert_eq!(cm.cursor, 5);
    cm.cursor = 3;
    cm.handle_key(Key::PageUp, 0, &entries, &tools);
    assert_eq!(cm.cursor, 0);
}

#[test]
fn space_toggles_and_escape_leaves() {
    let (entries, tools) = timeline();
    let mut cm = CopyMode::new();
    cm.enter(entries.len());
    cm.handle_key(Key::Char(' '), 0, &entries, &tools);
    assert!(cm.is_selected(5));
    cm.handle_key(Key::Char(' '), 0, &entries, &tools);
    assert!(!cm.is_selected(5));
    cm.handle_key(Key::Char(' '), 0, &entries, &tools);
    assert_eq!(cm.handle_key(Key::Char('x'), 0, &entries, &tools), CopyEffect::Nothing);
    assert!(cm.active);
    assert_eq!(cm.handle_key(Key::Esc, 0, &entries, &tools), CopyEffect::Exit);
    assert!(!cm.active);
    assert!(cm.selected.is_empty());
    cm.enter(entries.len());
    assert_eq!(cm.handle_key(Key::Char('c'), CONTROL, &entries, &tools), CopyEffect::Exit);
    assert!(!cm.active);
}

fn fresh() -> IdleInput {
    IdleInput {
        input_buf: InputBuffer::default(),
        quit_pending: false,
        should_quit: false,
        scroll_offset: 0,
        palette_selected: 0,
        palette_scroll_offset: 0,
    }
}

#[test]
fn interrupted_double_ctrl_c_quits() {
    let mut st = fresh();
    assert!(!handle_interrupted_key(&mut st, Key::Char('c'), CONTROL));
    assert!(st.quit_pending);
    assert!(!st.should_quit);
    assert!(!handle_interrupted_key(&mut st, Key::Char('d'), CONTROL));
    assert!(st.should_quit);
}

#[test]
fn interrupted_typing_returns_to_idle() {
    let mut st = fresh();
    handle_interrupted_key(&mut st, Key::Char('c'), CONTROL);
    assert!(handle_interrupted_key(&mut st, Key::Char('H'), SHIFT));
    assert!(!st.quit_pending);
    assert_eq!(st.input_buf.flat_text(), "H");
    assert!(handle_interrupted_key(&mut st, Key::Char('x'), CONTROL | SHIFT));
    assert_eq!(st.input_buf.flat_text(), "H");
    assert!(handle_interrupted_key(&mut st, Key::Left, 0));
    assert_eq!(st.input_buf.flat_text(), "H");
}

#[test]
fn error_state_keys() {
    assert_eq!(handle_error_key(Key::Enter, 0), (true, false));
    assert_eq!(handle_error_key(Key::Esc, SHIFT), (true, false));
    assert_eq!(handle_error_key(Key::Char('c'), CONTROL), (false, true));
    assert_eq!(handle_error_key(Key::Char('c'), 0), (false, false));
    assert_eq!(handle_error_key(Key::Char('q'), CONTROL), (false, false));
}

#[test]
fn esc_or_ctrl_c_interrupts_a_turn() {
    let mut s = StreamState::new();
    s.receive("partial", false);
    assert!(!handle_interruptible_key(&mut s, Key::Char('c'), 0));
    assert_eq!(s.buffer, "partial");
    assert!(handle_interruptible_key(&mut s, Key::Char('c'), CONTROL));
    assert!(s.buffer.is_empty());
    assert!(!s.streaming);
    s.receive("more", false);
    assert!(handle_interruptible_key(&mut s, Key::Esc, SHIFT));
    assert!(s.buffer.is_empty());
}
