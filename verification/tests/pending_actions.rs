//! What the interface does with queued actions.

use astrid::approval_keys::ApprovalDecisionKind;
use astrid::pending_actions::{
    pending_action_request, pending_action_step, DaemonRequest, PendingAction, SendOutcome, TurnState,
};

#[test]
fn plain_input_is_sent_and_starts_a_turn() {
    let a = PendingAction::SendInput("hello".to_string());
    assert!(matches!(pending_action_request(&a), Some(DaemonRequest::UserInput(ref s)) if s == "hello"));
    let step = pending_action_step(TurnState::Idle, &a, SendOutcome::Sent);
    assert!(matches!(step.state, TurnState::Thinking));
    assert_eq!(step.user_message.as_deref(), Some("hello"));
    assert!(step.reset_scroll);
    assert!(step.notices.is_empty());
}

#[test]
fn failed_input_send_is_an_error() {
    let a = PendingAction::SendInput("hello".to_string());
    let step = pending_action_step(TurnState::Idle, &a, SendOutcome::Failed("broken pipe".to_string()));
    assert!(matches!(step.state, TurnState::Error { ref message } if message == "Send failed: broken pipe"));
    assert_eq!(step.notices, vec!["Failed to send input: broken pipe".to_string()]);
    assert_eq!(step.user_message.as_deref(), Some("hello"));
}

#[test]
fn slash_input_goes_to_the_command_handler() {
    let a = PendingAction::SendInput("/help".to_string());
    assert!(matches!(pending_action_request(&a), Some(DaemonRequest::SlashCommand(ref s)) if s == "/help"));
    let step = pending_action_step(TurnState::Idle, &a, SendOutcome::NotSent);
    assert!(matches!(step.state, TurnState::Idle));
    assert!(step.user_message.is_none() && step.notices.is_empty());
}

#[test]
fn cancel_interrupts_only_once_sent() {
    let a = PendingAction::CancelTurn;
    assert!(matches!(pending_action_request(&a), Some(DaemonRequest::CancelTurn)));
    assert!(matches!(pending_action_step(TurnState::Thinking, &a, SendOutcome::Sent).state, TurnState::Interrupted));
    let failed = pending_action_step(TurnState::Thinking, &a, SendOutcome::Failed("eof".to_string()));
    assert!(matches!(failed.state, TurnState::Thinking));
    assert_eq!(failed.notices, vec!["Failed to send cancellation signal: eof".to_string()]);
}

#[test]
fn approvals_through_the_ui_are_disabled() {
    let a = PendingAction::Approve { request_id: "r1".to_string(), decision: ApprovalDecisionKind::Once };
    assert!(pending_action_request(&a).is_none());
    let step = pending_action_step(TurnState::Other, &a, SendOutcome::NotSent);
    assert_eq!(step.notices, vec!["Approval via UI is temporarily disabled in Microkernel mode.".to_string()]);
    let d = PendingAction::Deny { request_id: "r1".to_string(), reason: None };
    let step = pending_action_step(TurnState::Other, &d, SendOutcome::NotSent);
    assert_eq!(step.notices, vec!["Denial via UI is temporarily disabled in Microkernel mode.".to_string()]);
}

#[test]
fn selection_and_elicit_answers() {
    let a = PendingAction::SubmitSelection {
        callback_topic: "capsule.pick".to_string(),
        request_id: "q7".to_string(),
        selected_id: "gpt".to_string(),
        selected_label: "GPT".to_string(),
    };
    assert!(matches!(pending_action_request(&a),
        Some(DaemonRequest::Selection { ref topic, ref request_id, ref selected_id })
            if topic == "capsule.pick" && request_id == "q7" && selected_id == "gpt"));
    assert_eq!(pending_action_step(TurnState::Idle, &a, SendOutcome::Sent).notices, vec!["Selected: GPT".to_string()]);
    let e = PendingAction::SubmitElicitResponse {
        request_id: "42".to_string(),
        value: Some("v".to_string()),
        values: None,
    };
    assert!(matches!(pending_action_request(&e),
        Some(DaemonRequest::ElicitResponse { ref topic, ref value, values: None, .. })
            if topic == "astrid.v1.elicit.response.42" && value.as_deref() == Some("v")));
    assert_eq!(
        pending_action_step(TurnState::Idle, &e, SendOutcome::Failed("x".to_string())).notices,
        vec!["Lifecycle input submitted.".to_string()]
    );
}

#[test]
fn saved_onboarding_reloads_the_capsules() {
    let a = PendingAction::SubmitOnboarding {
        capsule_id: "nostr".to_string(),
        answers: vec![("relay".to_string(), "wss://r".to_string())],
    };
    assert!(matches!(pending_action_request(&a),
        Some(DaemonRequest::SaveCapsuleEnv { ref capsule_id, ref answers })
            if capsule_id == "nostr" && answers.len() == 1));
    let ok = pending_action_step(TurnState::Idle, &a, SendOutcome::Sent);
    assert_eq!(ok.notices, vec!["Configuration saved. Refreshing Kernel...".to_string()]);
    assert_eq!(ok.status.as_deref(), Some("Configuration saved. Refreshing Kernel..."));
    assert!(matches!(ok.follow_up, Some(DaemonRequest::ReloadCapsules)));
    let failed = pending_action_step(TurnState::Idle, &a, SendOutcome::Failed("denied".to_string()));
    assert_eq!(failed.notices, vec!["Failed to save configuration: denied".to_string()]);
    assert!(failed.follow_up.is_none());
    assert!(pending_action_step(TurnState::Idle, &a, SendOutcome::NotSent).notices.is_empty());
}

#[test]
fn refresh_asks_for_commands() {
    assert!(matches!(pending_action_request(&PendingAction::RefreshCommands), Some(DaemonRequest::GetCommands)));
    assert!(pending_action_request(&PendingAction::HydrateSession).is_none());
}
