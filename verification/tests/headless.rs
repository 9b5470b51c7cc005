//! The decisions of a headless session.

use astrid::headless::{headless_start, headless_step, HeadlessAction, HeadlessEvent, HeadlessState};

fn tags(acts: &[HeadlessAction]) -> Vec<String> {
    acts.iter()
        .map(|a| match a {
            HeadlessAction::RequestCommands => "commands".to_string(),
            HeadlessAction::PushUserMessage(s) => format!("user:{s}"),
            HeadlessAction::StartThinking => "thinking".to_string(),
            HeadlessAction::SendInput(s) => format!("send:{s}"),
            HeadlessAction::ApplyEvent => "apply".to_string(),
            HeadlessAction::SetError(s) => format!("error:{s}"),
            HeadlessAction::Snapshot(s) => format!("snap:{s}"),
            HeadlessAction::SnapshotIfStateChanged(s) => format!("snap?:{s}"),
            HeadlessAction::SendApproval { request_id, decision, reason } => {
                format!("approval:{request_id}:{decision}:{reason}")
            },
            HeadlessAction::ResolveApproval(s) => format!("resolve:{s}"),
            HeadlessAction::Stop => "stop".to_string(),
        })
        .collect()
}

fn run() -> HeadlessState {
    HeadlessState { auto_approve: false, done: false }
}

#[test]
fn a_run_starts_by_sending_the_prompt() {
    assert_eq!(
        tags(&headless_start("hi")),
        vec!["commands", "snap:ready", "user:hi", "thinking", "send:hi", "snap:input_sent"]
    );
}

#[test]
fn final_response_ends_the_run() {
    let (s, acts) = headless_step(run(), HeadlessEvent::AgentResponse { is_final: false });
    assert!(!s.done);
    assert_eq!(tags(&acts), vec!["apply"]);
    let (s, acts) = headless_step(s, HeadlessEvent::AgentResponse { is_final: true });
    assert!(s.done);
    assert_eq!(tags(&acts), vec!["apply", "snap:response_complete", "stop"]);
    let (s, acts) = headless_step(s, HeadlessEvent::Disconnected);
    assert!(s.done && acts.is_empty());
}

#[test]
fn timeout_and_connection_endings() {
    let (s, acts) = headless_step(run(), HeadlessEvent::Tick { elapsed_ms: 120_000 });
    assert!(!s.done && acts.is_empty());
    let (s, acts) = headless_step(s, HeadlessEvent::Tick { elapsed_ms: 120_001 });
    assert!(s.done);
    assert_eq!(tags(&acts), vec!["snap:timeout", "stop"]);
    let (_, acts) = headless_step(run(), HeadlessEvent::Disconnected);
    assert_eq!(tags(&acts), vec!["snap:disconnected", "stop"]);
    let (_, acts) = headless_step(run(), HeadlessEvent::ReadError("reset".to_string()));
    assert_eq!(tags(&acts), vec!["error:Connection error: reset", "snap:error", "stop"]);
    let (s, acts) = headless_step(run(), HeadlessEvent::NoMessage);
    assert!(!s.done && acts.is_empty());
}

#[test]
fn tools_and_other_messages_are_snapshotted() {
    let (_, acts) = headless_step(run(), HeadlessEvent::ToolCallStart { name: "read_file".to_string() });
    assert_eq!(tags(&acts), vec!["apply", "snap:tool_call:read_file"]);
    let (_, acts) = headless_step(run(), HeadlessEvent::ToolResult { call_id: "c1".to_string(), is_error: true });
    assert_eq!(tags(&acts), vec!["apply", "snap:tool_result:c1:failed"]);
    let (_, acts) = headless_step(run(), HeadlessEvent::ToolResult { call_id: "c2".to_string(), is_error: false });
    assert_eq!(tags(&acts), vec!["apply", "snap:tool_result:c2:ok"]);
    let (_, acts) = headless_step(run(), HeadlessEvent::Other);
    assert_eq!(tags(&acts), vec!["apply", "snap?:state_change"]);
}

#[test]
fn approvals_are_answered_automatically() {
    let ev = || HeadlessEvent::ApprovalRequired { request_id: "r9".to_string(), action: "delete".to_string() };
    let (_, acts) = headless_step(run(), ev());
    assert_eq!(
        tags(&acts),
        vec!["apply", "snap:approval:delete", "approval:r9:deny:headless-tui auto-deny", "resolve:r9", "snap:approval_denied"]
    );
    let (s, acts) = headless_step(HeadlessState { auto_approve: true, done: false }, ev());
    assert!(s.auto_approve && !s.done);
    assert_eq!(
        tags(&acts),
        vec!["apply", "snap:approval:delete", "approval:r9:approve:headless-tui auto-approve", "resolve:r9", "snap:approval_approved"]
    );
}
