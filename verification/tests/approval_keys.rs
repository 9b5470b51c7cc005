//! Approving and denying tool calls from the terminal UI.

use astrid::approval_keys::{
    handle_approval_key, handle_selection_key, ApprovalAction, ApprovalDecisionKind, ApprovalMode,
    ApprovalQueue, PendingApproval, RiskLevel, SelectionMenu, SelectionOption, SelectionOutcome,
};
use astrid::idle_keys::{Key, CONTROL};

fn req(id: &str) -> PendingApproval {
    PendingApproval {
        id: id.to_string(),
        tool_name: "shell".to_string(),
        description: "run a command".to_string(),
        risk_level: RiskLevel::High,
        details: vec![("command".to_string(), "ls".to_string())],
    }
}

fn ids(q: &ApprovalQueue) -> Vec<String> {
    q.pending.iter().map(|a| a.id.clone()).collect()
}

#[test]
fn approving_removes_the_selected_request() {
    let mut q = ApprovalQueue { pending: vec![req("a"), req("b")], selected: 1 };
    let out = handle_approval_key(&mut q, Key::Char('s'), 0, false);
    assert_eq!(out.action, Some(ApprovalAction::Approve { request_id: "b".to_string(), decision: ApprovalDecisionKind::Session }));
    assert_eq!(out.mode, ApprovalMode::AwaitingApproval);
    assert_eq!(ids(&q), vec!["a".to_string()]);
    // The selection past the end picks the last request.
    let out = handle_approval_key(&mut q, Key::Char('Y'), 0, true);
    assert_eq!(out.action, Some(ApprovalAction::Approve { request_id: "a".to_string(), decision: ApprovalDecisionKind::Once }));
    assert_eq!(out.mode, ApprovalMode::RunningLastTool);
    assert!(q.pending.is_empty());
    // Nothing pending: keys do nothing.
    let out = handle_approval_key(&mut q, Key::Char('a'), 0, false);
    assert_eq!(out.action, None);
    assert_eq!(out.mode, ApprovalMode::Unchanged);
}

#[test]
fn approving_the_last_request_without_tools_waits_for_the_agent() {
    let mut q = ApprovalQueue { pending: vec![req("x")], selected: 0 };
    let out = handle_approval_key(&mut q, Key::Char('A'), 0, false);
    assert_eq!(out.action, Some(ApprovalAction::Approve { request_id: "x".to_string(), decision: ApprovalDecisionKind::Always }));
    assert_eq!(out.mode, ApprovalMode::Thinking);
}

#[test]
fn denying_removes_every_request_with_the_id() {
    let mut q = ApprovalQueue { pending: vec![req("a"), req("b"), req("a")], selected: 0 };
    let out = handle_approval_key(&mut q, Key::Esc, 0, false);
    assert_eq!(out.action, Some(ApprovalAction::Deny { request_id: "a".to_string() }));
    assert_eq!(out.notice.as_deref(), Some("Tool call denied."));
    assert_eq!(out.mode, ApprovalMode::Unchanged);
    assert_eq!(ids(&q), vec!["b".to_string()]);
    let out = handle_approval_key(&mut q, Key::Char('n'), 0, false);
    assert_eq!(out.mode, ApprovalMode::Idle);
    assert!(q.pending.is_empty());
}

#[test]
fn navigation_wraps_and_ctrl_c_quits() {
    let mut q = ApprovalQueue { pending: vec![req("a"), req("b"), req("c")], selected: 2 };
    handle_approval_key(&mut q, Key::Tab, 0, false);
    assert_eq!(q.selected, 0);
    handle_approval_key(&mut q, Key::Up, 0, false);
    assert_eq!(q.selected, 2);
    handle_approval_key(&mut q, Key::BackTab, 0, false);
    assert_eq!(q.selected, 1);
    handle_approval_key(&mut q, Key::Down, 0, false);
    assert_eq!(q.selected, 2);
    let out = handle_approval_key(&mut q, Key::Char('c'), CONTROL, false);
    assert!(out.quit);
    assert_eq!(q.pending.len(), 3);
    let out = handle_approval_key(&mut q, Key::Char('z'), 0, false);
    assert!(!out.quit && out.action.is_none());
}

fn menu(n: usize) -> SelectionMenu {
    SelectionMenu {
        options: (0..n)
            .map(|i| SelectionOption { id: format!("id{i}"), label: format!("Option {i}") })
            .collect(),
        selected: 0,
        scroll_offset: 0,
        callback_topic: "capsule.pick".to_string(),
        request_id: "r1".to_string(),
    }
}

#[test]
fn selection_menu_moves_and_submits() {
    let mut m = menu(10);
    for _ in 0..7 {
        assert_eq!(handle_selection_key(&mut m, Key::Down), SelectionOutcome::Stay);
    }
    assert_eq!((m.selected, m.scroll_offset), (7, 2));
    for _ in 0..5 {
        handle_selection_key(&mut m, Key::Up);
    }
    assert_eq!((m.selected, m.scroll_offset), (2, 2));
    handle_selection_key(&mut m, Key::Up);
    assert_eq!((m.selected, m.scroll_offset), (1, 1));
    for _ in 0..20 {
        handle_selection_key(&mut m, Key::Down);
    }
    assert_eq!(m.selected, 9);
    assert_eq!(
        handle_selection_key(&mut m, Key::Enter),
        SelectionOutcome::Submit {
            callback_topic: "capsule.pick".to_string(),
            request_id: "r1".to_string(),
            selected_id: "id9".to_string(),
            selected_label: "Option 9".to_string(),
        }
    );
    assert_eq!(handle_selection_key(&mut m, Key::Esc), SelectionOutcome::Cancelled);
    let mut empty = menu(0);
    assert_eq!(handle_selection_key(&mut empty, Key::Enter), SelectionOutcome::Closed);
    assert_eq!(handle_selection_key(&mut empty, Key::Up), SelectionOutcome::Stay);
}
