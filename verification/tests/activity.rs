//! The activity line above the prompt.

use astrid::activity::{activity_line, ActivityRole, ActivityState};
use astrid::spinner::SpinnerStyle;

fn line(
    state: ActivityState,
    copy: Option<(&str, u64)>,
    last: Option<(&str, &str, u64)>,
) -> Vec<(ActivityRole, String)> {
    activity_line(&state, SpinnerStyle::Braille, "1.5s", 42, copy, last)
        .into_iter()
        .map(|s| (s.role, s.text))
        .collect()
}

fn p(parts: &[(ActivityRole, &str)]) -> Vec<(ActivityRole, String)> {
    parts.iter().map(|(r, t)| (*r, t.to_string())).collect()
}

#[test]
fn thinking_shows_spinner_verb_and_stats() {
    assert_eq!(
        line(ActivityState::Thinking { elapsed_ms: 3600 }, None, None),
        p(&[
            (ActivityRole::Plain, "  "),
            (ActivityRole::Tool, "\u{280b} "),
            (ActivityRole::Thinking, "Analyzing..."),
            (ActivityRole::Muted, " (1.5s \u{b7} 42 tokens)"),
        ])
    );
    assert_eq!(line(ActivityState::Thinking { elapsed_ms: 999 }, None, None)[1].0, ActivityRole::Thinking);
    assert_eq!(line(ActivityState::Thinking { elapsed_ms: 35_000 }, None, None)[2].1, "Thinking...");
}

#[test]
fn streaming_and_tools() {
    assert_eq!(
        line(ActivityState::Streaming { elapsed_ms: 0 }, None, None)[2],
        (ActivityRole::Success, "Responding...".to_string())
    );
    let t = line(ActivityState::ToolRunning { tool_name: "read_file".to_string(), elapsed_ms: 500 }, None, None);
    assert_eq!(t[1].0, ActivityRole::Warning);
    assert_eq!(t[2].1, "Running read_file...");
    assert_eq!(t[3].1, " (1.5s)");
}

#[test]
fn quiet_line_shows_notices_while_fresh() {
    assert_eq!(
        line(ActivityState::Quiet, Some(("Copied 2 messages", 1)), Some(("Thought", "3.0s", 0))),
        p(&[(ActivityRole::Plain, "  "), (ActivityRole::Success, "Copied 2 messages")])
    );
    assert_eq!(
        line(ActivityState::Quiet, Some(("Copied", 3)), Some(("Thought", "3.0s", 5))),
        p(&[(ActivityRole::Plain, "  "), (ActivityRole::Border, "Thought for 3.0s")])
    );
    assert!(line(ActivityState::Quiet, None, Some(("Thought", "3.0s", 8))).is_empty());
    assert_eq!(line(ActivityState::Interrupted, None, None)[1].1, "\u{23fa} Interrupted");
    assert_eq!(line(ActivityState::CopyMode, None, None).len(), 10);
}
