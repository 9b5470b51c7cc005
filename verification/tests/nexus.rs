//! The lines of the conversation stream.

use astrid::markdown::SpanStyle;
use astrid::mode_keys::{CopyMode, MessageKind, MessageRole, TimelineMessage};
use astrid::nexus::{copy_highlight, nexus_lines, CopyHighlight, LineContent, NexusEntry, NexusRole};

fn entry(role: MessageRole, content: &str, kind: Option<MessageKind>, spacing: bool) -> NexusEntry {
    NexusEntry { message: TimelineMessage { role, content: content.to_string(), kind }, spacing }
}

fn show(e: Vec<NexusEntry>, width: u16) -> Vec<(Option<usize>, String)> {
    nexus_lines(&e, width)
        .into_iter()
        .map(|l| {
            let text = match l.content {
                LineContent::Spans(v) => v
                    .iter()
                    .map(|s| match s.role {
                        NexusRole::Marker => format!("<m>{}", s.text),
                        NexusRole::Bullet => format!("<b>{}", s.text),
                        NexusRole::Styled(SpanStyle::Bold) => format!("<B>{}", s.text),
                        NexusRole::DiffAdded => format!("<+>{}", s.text),
                        NexusRole::DiffRemoved => format!("<->{}", s.text),
                        _ => s.text.clone(),
                    })
                    .collect::<String>(),
                LineContent::Tool(i) => format!("<tool {i}>"),
            };
            (l.entry, text)
        })
        .collect()
}

#[test]
fn user_messages_follow_the_marker() {
    let lines = show(vec![entry(MessageRole::User, "hi\r\nthere\n", None, true)], 80);
    assert_eq!(
        lines,
        vec![(Some(0), "<m>> hi".to_string()), (Some(0), "  there".to_string()), (None, String::new())]
    );
}

#[test]
fn answers_collapse_blank_runs_and_wrap() {
    let lines = show(vec![entry(MessageRole::Assistant, "one **two**\n\n\n\nalpha beta gamma", None, false)], 14);
    assert_eq!(
        lines,
        vec![
            (Some(0), "<b>\u{23fa} one <B>two".to_string()),
            (Some(0), String::new()),
            (Some(0), "  alpha beta".to_string()),
            (Some(0), "  gamma".to_string()),
        ]
    );
}

#[test]
fn diffs_tools_and_notes() {
    let lines = show(
        vec![
            entry(MessageRole::LocalUi, "-old\n", Some(MessageKind::DiffRemoved), false),
            entry(MessageRole::LocalUi, "+new", Some(MessageKind::DiffAdded), false),
            entry(MessageRole::Assistant, "ignored", Some(MessageKind::ToolResult(3)), false),
            entry(MessageRole::LocalUi, "note", None, false),
        ],
        80,
    );
    assert_eq!(
        lines,
        vec![
            (Some(0), "<->  \u{23bf}  -old".to_string()),
            (Some(1), "<+>  \u{23bf}  +new".to_string()),
            (Some(2), "<tool 3>".to_string()),
            (Some(3), "  note".to_string()),
        ]
    );
}

#[test]
fn copy_mode_highlights_the_cursor_and_picked_entries() {
    let mut c = CopyMode::new();
    c.enter(3);
    c.toggle();
    c.cursor = 0;
    assert_eq!(copy_highlight(&c, true, Some(0)), CopyHighlight::Cursor);
    assert_eq!(copy_highlight(&c, true, Some(2)), CopyHighlight::Picked);
    assert_eq!(copy_highlight(&c, true, Some(1)), CopyHighlight::Plain);
    assert_eq!(copy_highlight(&c, true, None), CopyHighlight::Plain);
    assert_eq!(copy_highlight(&c, false, Some(0)), CopyHighlight::Plain);
}
