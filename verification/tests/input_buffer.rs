//! Editing the prompt buffer: typing, deleting, pasting and moving the cursor.

use astrid::input_buffer::{InputBuffer, InputSegment};

#[test]
fn input_buffer_empty_by_default() {
    let buf = InputBuffer::default();
    assert!(buf.is_empty());
    assert_eq!(buf.flat_text(), "");
    assert!(!buf.starts_with_slash());
    assert!(!buf.has_paste_blocks());
}

#[test]
fn input_buffer_insert_char_basic() {
    let mut buf = InputBuffer::default();
    buf.insert_char('h');
    buf.insert_char('i');
    assert_eq!(buf.flat_text(), "hi");
    assert!(!buf.is_empty());
    assert_eq!(buf.cursor, (0, 2));
}

#[test]
fn input_buffer_insert_char_utf8() {
    let mut buf = InputBuffer::default();
    buf.insert_char('a');
    buf.insert_char('\u{00e9}'); // e-acute (2 bytes)
    buf.insert_char('b');
    assert_eq!(buf.flat_text(), "a\u{00e9}b");
    assert_eq!(buf.cursor.1, 4); // 1 + 2 + 1
}

#[test]
fn input_buffer_backspace_basic() {
    let mut buf = InputBuffer::default();
    buf.insert_char('a');
    buf.insert_char('b');
    buf.insert_char('c');
    buf.backspace();
    assert_eq!(buf.flat_text(), "ab");
    buf.backspace();
    assert_eq!(buf.flat_text(), "a");
    buf.backspace();
    assert_eq!(buf.flat_text(), "");
    // Backspace on empty is no-op.
    buf.backspace();
    assert_eq!(buf.flat_text(), "");
}

#[test]
fn input_buffer_backspace_utf8() {
    let mut buf = InputBuffer::default();
    buf.insert_char('\u{1f600}'); // grinning face (4 bytes)
    buf.insert_char('x');
    assert_eq!(buf.flat_text(), "\u{1f600}x");
    buf.backspace();
    assert_eq!(buf.flat_text(), "\u{1f600}");
    buf.backspace();
    assert_eq!(buf.flat_text(), "");
}

#[test]
fn input_buffer_move_left_right() {
    let mut buf = InputBuffer::default();
    buf.insert_char('a');
    buf.insert_char('b');
    buf.insert_char('c');
    // Cursor at end: (0, 3)
    assert_eq!(buf.cursor, (0, 3));

    buf.move_left();
    assert_eq!(buf.cursor, (0, 2));
    buf.move_left();
    assert_eq!(buf.cursor, (0, 1));
    buf.move_left();
    assert_eq!(buf.cursor, (0, 0));
    // Left at start is no-op.
    buf.move_left();
    assert_eq!(buf.cursor, (0, 0));

    buf.move_right();
    assert_eq!(buf.cursor, (0, 1));
    buf.move_right();
    assert_eq!(buf.cursor, (0, 2));
    buf.move_right();
    assert_eq!(buf.cursor, (0, 3));
    // Right at end is no-op.
    buf.move_right();
    assert_eq!(buf.cursor, (0, 3));
}

#[test]
fn input_buffer_home_end() {
    let mut buf = InputBuffer::default();
    buf.insert_char('a');
    buf.insert_char('b');
    buf.insert_char('c');

    buf.move_home();
    assert_eq!(buf.cursor, (0, 0));

    buf.move_end();
    assert_eq!(buf.cursor, (0, 3));
}

#[test]
fn input_buffer_insert_paste_empty_buffer() {
    let mut buf = InputBuffer::default();
    buf.insert_paste("line1\nline2\nline3".to_string());
    assert!(buf.has_paste_blocks());
    assert_eq!(buf.paste_block_total_lines(), 3);
    assert_eq!(buf.flat_text(), "line1\nline2\nline3");
    // Cursor should be after the paste block (on trailing Text).
    assert!(!buf.is_empty());
}

#[test]
fn input_buffer_insert_paste_splits_text() {
    let mut buf = InputBuffer::default();
    buf.insert_char('a');
    buf.insert_char('b');
    buf.insert_char('c');
    buf.insert_char('d');

    // Move cursor to between 'b' and 'c'.
    buf.move_left();
    buf.move_left();
    assert_eq!(buf.cursor, (0, 2));

    buf.insert_paste("X\nY".to_string());

    // Should be: Text("ab") + PasteBlock("X\nY") + Text("cd")
    assert_eq!(buf.flat_text(), "abX\nYcd");
    assert!(buf.has_paste_blocks());

    // Verify segment structure.
    let text_segments: Vec<&str> = buf
        .segments
        .iter()
        .filter_map(|s| match s {
            InputSegment::Text(t) => Some(t.as_str()),
            _ => None,
        })
        .collect();
    assert!(text_segments.contains(&"ab"));
    assert!(text_segments.contains(&"cd"));
}

#[test]
fn input_buffer_insert_paste_at_start() {
    let mut buf = InputBuffer::default();
    buf.insert_char('x');
    buf.move_home();
    buf.insert_paste("P\nQ".to_string());
    assert_eq!(buf.flat_text(), "P\nQx");
}

#[test]
fn input_buffer_insert_paste_at_end() {
    let mut buf = InputBuffer::default();
    buf.insert_char('x');
    buf.insert_paste("P\nQ".to_string());
    assert_eq!(buf.flat_text(), "xP\nQ");
}

#[test]
fn input_buffer_backspace_deletes_paste_block() {
    let mut buf = InputBuffer::default();
    buf.insert_char('a');
    buf.insert_paste("X\nY".to_string());
    buf.insert_char('b');

    // Cursor is at end: after 'b'. Buffer: Text("a") + PasteBlock + Text("b")
    // Backspace should delete 'b'.
    buf.backspace();
    assert!(buf.flat_text().ends_with("X\nY"));

    // Now cursor is after the PasteBlock. Backspace should delete the entire block.
    buf.backspace();
    assert!(!buf.has_paste_blocks());
    assert_eq!(buf.flat_text(), "a");
}

#[test]
fn input_buffer_backspace_paste_block_at_start() {
    let mut buf = InputBuffer::default();
    buf.insert_paste("block\ncontent".to_string());
    // Cursor is after the paste block.
    // Backspace should delete the paste block.
    buf.backspace();
    assert!(!buf.has_paste_blocks());
    assert!(buf.is_empty());
}

#[test]
fn input_buffer_delete_forward_paste_block() {
    let mut buf = InputBuffer::default();
    buf.insert_char('a');
    buf.insert_paste("X\nY".to_string());
    buf.insert_char('b');

    // Move to end of 'a', before the PasteBlock.
    buf.move_home();
    buf.move_right(); // cursor at (0, 1) = end of "a"

    buf.delete_forward();
    assert!(!buf.has_paste_blocks());
    assert_eq!(buf.flat_text(), "ab");
}

#[test]
fn input_buffer_delete_forward_basic() {
    let mut buf = InputBuffer::default();
    buf.insert_char('a');
    buf.insert_char('b');
    buf.insert_char('c');
    buf.move_home();
    buf.delete_forward();
    assert_eq!(buf.flat_text(), "bc");
}

#[test]
fn input_buffer_cursor_skips_paste_block_left() {
    let mut buf = InputBuffer::default();
    buf.insert_char('a');
    buf.insert_paste("X\nY".to_string());
    buf.insert_char('b');

    // Cursor at end (after 'b'). Move left to before 'b'.
    buf.move_left();
    // Move left should skip over the paste block to end of "a".
    buf.move_left();
    let flat = buf.flat_text();
    let a_pos = flat.find('a').unwrap();
    assert_eq!(buf.cursor.1, a_pos.saturating_add(1));
}

#[test]
fn input_buffer_cursor_skips_paste_block_right() {
    let mut buf = InputBuffer::default();
    buf.insert_char('a');
    buf.insert_paste("X\nY".to_string());
    buf.insert_char('b');

    buf.move_home();
    // At start of "a". Move right past 'a'.
    buf.move_right();
    // Move right should skip over the paste block to start of trailing Text.
    buf.move_right();
    // Should be at start of the Text segment containing "b".
    assert_eq!(buf.cursor.1, 0);
}

#[test]
fn input_buffer_flat_text_preserves_order() {
    let mut buf = InputBuffer::default();
    buf.insert_char('H');
    buf.insert_char('i');
    buf.insert_char(' ');
    buf.insert_paste("code\nhere".to_string());
    buf.insert_char(' ');
    buf.insert_char('!');
    assert_eq!(buf.flat_text(), "Hi code\nhere !");
}

#[test]
fn input_buffer_normalize_merges_adjacent_text() {
    let mut buf = InputBuffer::default();
    buf.segments = vec![
        InputSegment::Text("aa".to_string()),
        InputSegment::Text("bb".to_string()),
    ];
    buf.cursor = (1, 1);
    buf.normalize();
    assert_eq!(buf.segments.len(), 1);
    assert_eq!(buf.flat_text(), "aabb");
    // Cursor should be adjusted: was at (1, 1) -> (0, 2 + 1) = (0, 3)
    assert_eq!(buf.cursor, (0, 3));
}

#[test]
fn input_buffer_starts_with_slash() {
    let mut buf = InputBuffer::default();
    buf.insert_char('/');
    buf.insert_char('h');
    assert!(buf.starts_with_slash());

    buf.clear();
    buf.insert_char('h');
    assert!(!buf.starts_with_slash());
}

#[test]
fn input_buffer_clear_resets() {
    let mut buf = InputBuffer::default();
    buf.insert_char('x');
    buf.insert_paste("a\nb".to_string());
    buf.clear();
    assert!(buf.is_empty());
    assert_eq!(buf.cursor, (0, 0));
    assert!(buf.segments.is_empty());
}

#[test]
fn input_buffer_set_text() {
    let mut buf = InputBuffer::default();
    buf.insert_paste("old\nblock".to_string());
    buf.set_text("/help ".to_string());
    assert!(!buf.has_paste_blocks());
    assert_eq!(buf.flat_text(), "/help ");
    assert_eq!(buf.cursor, (0, 6));
}

#[test]
fn input_buffer_take_flat_returns_none_on_empty() {
    let mut buf = InputBuffer::default();
    assert_eq!(buf.take_flat(), None);
}

#[test]
fn input_buffer_take_flat_returns_none_on_whitespace() {
    let mut buf = InputBuffer::default();
    buf.insert_char(' ');
    buf.insert_char(' ');
    assert_eq!(buf.take_flat(), None);
}

#[test]
fn input_buffer_take_flat_returns_content() {
    let mut buf = InputBuffer::default();
    buf.insert_char('h');
    buf.insert_char('i');
    let result = buf.take_flat();
    assert_eq!(result, Some("hi".to_string()));
    assert!(buf.is_empty());
}

#[test]
fn input_buffer_text_for_palette() {
    let mut buf = InputBuffer::default();
    buf.insert_char('/');
    buf.insert_char('h');
    assert_eq!(buf.text_for_palette(), "/h");

    buf.clear();
    assert_eq!(buf.text_for_palette(), "");
}

#[test]
fn input_buffer_multiple_paste_blocks() {
    let mut buf = InputBuffer::default();
    buf.insert_paste("A\nB".to_string());
    buf.insert_char(' ');
    buf.insert_paste("C\nD\nE".to_string());
    assert_eq!(buf.paste_block_total_lines(), 5); // 2 + 3
    assert_eq!(buf.flat_text(), "A\nB C\nD\nE");
}

#[test]
fn input_buffer_insert_char_at_paste_block_boundary() {
    let mut buf = InputBuffer::default();
    buf.insert_paste("X\nY".to_string());
    // Cursor is after the paste block in a trailing Text segment.
    buf.insert_char('z');
    assert_eq!(buf.flat_text(), "X\nYz");
}

#[test]
fn input_buffer_backspace_between_two_paste_blocks() {
    let mut buf = InputBuffer::default();
    buf.insert_paste("A\nB".to_string());
    buf.insert_paste("C\nD".to_string());
    // Cursor is after second paste block.
    // Backspace should delete the second paste block.
    buf.backspace();
    assert_eq!(buf.paste_block_total_lines(), 2); // Only first block remains.
    assert_eq!(buf.flat_text(), "A\nB");
}

#[test]
fn input_buffer_delete_forward_at_paste_block() {
    let mut buf = InputBuffer::default();
    buf.insert_char('a');
    buf.insert_paste("X\nY".to_string());
    // Cursor is on the trailing Text after the PasteBlock.
    // Move to end of the first Text segment ("a"), right before the PasteBlock.
    buf.cursor = (0, 1);
    buf.delete_forward();
    assert!(!buf.has_paste_blocks());
    assert_eq!(buf.flat_text(), "a");
}

#[test]
fn input_buffer_palette_not_active_with_paste_blocks() {
    let mut buf = InputBuffer::default();
    buf.insert_char('/');
    buf.insert_char('h');
    buf.insert_paste("block\ndata".to_string());
    // Has paste blocks, so should not be treated as palette input.
    assert!(buf.has_paste_blocks());
    assert!(buf.starts_with_slash());
    // palette_active on App would return false due to has_paste_blocks check.
}

#[test]
fn input_buffer_move_end_then_insert_char_on_trailing_paste() {
    let mut buf = InputBuffer::default();
    buf.insert_paste("A\nB".to_string());
    buf.move_end();
    buf.insert_char('z');
    // 'z' must appear after the paste block, not before it.
    assert_eq!(buf.flat_text(), "A\nBz");
}

#[test]
fn input_buffer_move_home_then_insert_char_on_leading_paste() {
    let mut buf = InputBuffer::default();
    buf.insert_paste("A\nB".to_string());
    buf.insert_char('x'); // after paste
    buf.move_home();
    buf.insert_char('z');
    // 'z' must appear after the first paste block (ensure_text inserts after).
    assert_eq!(buf.flat_text(), "A\nBzx");
}

#[test]
fn input_buffer_set_text_empty() {
    let mut buf = InputBuffer::default();
    buf.insert_char('x');
    buf.insert_paste("A\nB".to_string());
    buf.set_text(String::new());
    assert!(buf.is_empty());
    assert_eq!(buf.cursor, (0, 0));
}

#[test]
fn input_buffer_move_left_inserts_text_before_leading_paste() {
    let mut buf = InputBuffer::default();
    buf.insert_paste("X\nY".to_string());
    // Cursor is on trailing Text at (1, 0). Move left skips PasteBlock.
    buf.move_left();
    // Should have inserted a leading Text, cursor is at (0, 0) on that Text.
    assert!(matches!(buf.segments[0], InputSegment::Text(_)));
    assert_eq!(buf.cursor.0, 0);
    // Typing should insert before the PasteBlock.
    buf.insert_char('z');
    assert_eq!(buf.flat_text(), "zX\nY");
}

#[test]
fn input_buffer_consecutive_paste_inserts() {
    let mut buf = InputBuffer::default();
    buf.insert_paste("A\nB".to_string());
    buf.insert_paste("C\nD".to_string());
    // Both blocks should be present in order.
    assert_eq!(buf.flat_text(), "A\nBC\nD");
    assert_eq!(buf.paste_block_total_lines(), 4);
}

/// The cursor's offset is 0 whenever it is on a paste block.
fn cursor_outside_paste(buf: &InputBuffer) -> bool {
    match buf.segments.get(buf.cursor.0) {
        Some(InputSegment::PasteBlock { .. }) => buf.cursor.1 == 0,
        _ => true,
    }
}

#[test]
fn cursor_never_lands_inside_a_paste_block() {
    let mut buf = InputBuffer::default();
    buf.insert_char('a');
    buf.insert_paste("one\ntwo".to_string());
    buf.insert_paste("three".to_string());
    assert!(cursor_outside_paste(&buf));
    for _ in 0..4 {
        buf.move_left();
        assert!(cursor_outside_paste(&buf));
    }
    for _ in 0..4 {
        buf.move_right();
        assert!(cursor_outside_paste(&buf));
    }
    buf.move_home();
    assert!(cursor_outside_paste(&buf));
    buf.move_end();
    assert!(cursor_outside_paste(&buf));
    buf.backspace();
    assert!(cursor_outside_paste(&buf));
    buf.delete_forward();
    assert!(cursor_outside_paste(&buf));
}

#[test]
fn paste_lands_at_the_cursor() {
    let mut buf = InputBuffer::default();
    for c in "abcd".chars() {
        buf.insert_char(c);
    }
    buf.move_left();
    buf.move_left();
    buf.insert_paste("X\nY".to_string());
    assert_eq!(buf.flat_text(), "abX\nYcd");
    buf.move_home();
    buf.insert_paste("Z\n".to_string());
    assert_eq!(buf.flat_text(), "Z\nabX\nYcd");
}

#[test]
fn normalize_keeps_the_cursor_at_its_place_in_the_text() {
    let mut buf = InputBuffer::default();
    buf.segments = vec![
        InputSegment::Text("é".to_string()),
        InputSegment::Text("".to_string()),
        InputSegment::Text("xy".to_string()),
        InputSegment::PasteBlock { raw: "p\nq".to_string(), line_count: 2 },
        InputSegment::Text("z".to_string()),
        InputSegment::Text("w".to_string()),
    ];
    buf.cursor = (2, 1);
    buf.normalize();
    assert_eq!(buf.flat_text(), "éxyp\nqzw");
    assert_eq!(buf.cursor, (0, 3));
    buf.cursor = (2, 1);
    buf.normalize();
    assert_eq!(buf.cursor, (2, 1));
}
