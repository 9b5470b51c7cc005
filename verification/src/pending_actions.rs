//! What the interface does with the actions its key handlers queue: which
//! request each one sends to the daemon, and how the notices and the turn
//! state change once the send has gone through or failed. The sending
//! itself is left to the caller, which reports how it went.

use vstd::prelude::*;
use crate::approval_keys::ApprovalDecisionKind;
use crate::text::{cat, str_to_chars};

verus! {

/// An action queued by the key handlers, waiting to be carried out.
#[derive(Debug)]
pub enum PendingAction {
    Approve { request_id: String, decision: ApprovalDecisionKind },
    Deny { request_id: String, reason: Option<String> },
    SendInput(String),
    CancelTurn,
    /// The onboarding answers, as `(key, value)` pairs.
    SubmitOnboarding { capsule_id: String, answers: Vec<(String, String)> },
    /// Re-fetch the dynamic slash command palette from the kernel.
    RefreshCommands,
    /// Send the user's selection back to a capsule.
    SubmitSelection {
        callback_topic: String,
        request_id: String,
        selected_id: String,
        selected_label: String,
    },
    /// Respond to a lifecycle `elicit` request; the id as its UUID text.
    SubmitElicitResponse { request_id: String, value: Option<String>, values: Option<Vec<String>> },
    /// Hydrate the interface with session history.
    HydrateSession,
}

/// What is sent, or handed on, for an action.
#[derive(Debug)]
pub enum DaemonRequest {
    /// An empty prompt whose context asks to cancel the current turn.
    CancelTurn,
    /// The user's input, sent as a prompt.
    UserInput(String),
    /// A slash command, for the slash command handler.
    SlashCommand(String),
    /// The selection, on the capsule's callback topic.
    Selection { topic: String, request_id: String, selected_id: String },
    /// A request for the slash command palette.
    GetCommands,
    /// Save the onboarding answers as the capsule's environment file.
    SaveCapsuleEnv { capsule_id: String, answers: Vec<(String, String)> },
    /// A request to reload the capsules.
    ReloadCapsules,
    /// The answer to a lifecycle `elicit` request.
    ElicitResponse { topic: String, request_id: String, value: Option<String>, values: Option<Vec<String>> },
}

/// The turn state, as far as pending actions change it.
#[derive(Debug)]
pub enum TurnState {
    Idle,
    Thinking,
    Interrupted,
    Error { message: String },
    /// Any other state of the interface (onboarding, approval, ...).
    Other,
}

/// How the caller's send of the request went.
#[derive(Debug)]
pub enum SendOutcome {
    /// Nothing was sent: the action sends nothing, or what it needed
    /// (the home directory, the answers' JSON) could not be had.
    NotSent,
    Sent,
    Failed(String),
}

/// What an action does to the interface.
#[derive(Debug)]
pub struct PendingStep {
    /// The turn state afterwards.
    pub state: TurnState,
    /// Notices pushed, in order.
    pub notices: Vec<String>,
    /// A user message added to the timeline.
    pub user_message: Option<String>,
    /// Whether the timeline scrolls back to the bottom.
    pub reset_scroll: bool,
    /// A new status line.
    pub status: Option<String>,
    /// A request sent after the first one went through.
    pub follow_up: Option<DaemonRequest>,
}

/// Whether `s` is a slash command.
pub open spec fn is_slash(s: Seq<char>) -> bool {
    s.len() > 0 && s[0] == '/'
}

/// The topic an `elicit` answer goes to.
pub open spec fn elicit_topic(request_id: Seq<char>) -> Seq<char> {
    "astrid.v1.elicit.response."@ + request_id
}

/// The request carried out for `a`, when it sends one.
pub open spec fn request_matches(a: PendingAction, r: Option<DaemonRequest>) -> bool {
    match a {
        PendingAction::SendInput(c) => if is_slash(c@) {
            r matches Some(DaemonRequest::SlashCommand(x)) && x@ == c@
        } else {
            r matches Some(DaemonRequest::UserInput(x)) && x@ == c@
        },
        PendingAction::CancelTurn => r matches Some(DaemonRequest::CancelTurn),
        PendingAction::SubmitOnboarding { capsule_id, answers } => r matches Some(
            DaemonRequest::SaveCapsuleEnv { capsule_id: c, answers: x },
        ) && c@ == capsule_id@ && x@ == answers@,
        PendingAction::RefreshCommands => r matches Some(DaemonRequest::GetCommands),
        PendingAction::SubmitSelection { callback_topic, request_id, selected_id, .. } => r matches Some(
            DaemonRequest::Selection { topic: t, request_id: q, selected_id: s },
        ) && t@ == callback_topic@ && q@ == request_id@ && s@ == selected_id@,
        PendingAction::SubmitElicitResponse { request_id, value, values } => r matches Some(
            DaemonRequest::ElicitResponse { topic: t, request_id: q, value: v, values: vs },
        ) && t@ == elicit_topic(request_id@) && q@ == request_id@ && opt_text(v) == opt_text(value)
            && opt_texts(vs) == opt_texts(values),
        _ => r is None,
    }
}

/// An optional text by its characters.
pub open spec fn opt_text(o: Option<String>) -> Option<Seq<char>> {
    match o {
        Some(s) => Some(s@),
        None => None,
    }
}

/// An optional list of texts by their characters.
pub open spec fn opt_texts(o: Option<Vec<String>>) -> Option<Seq<Seq<char>>> {
    match o {
        Some(v) => Some(notice_views(v@)),
        None => None,
    }
}

fn clone_pairs(v: &Vec<(String, String)>) -> (r: Vec<(String, String)>)
    ensures
        r@ == v@,
{
    let mut r = Vec::new();
    let mut i: usize = 0;
    while i < v.len()
        invariant
            i <= v@.len(),
            r@ == v@.subrange(0, i as int),
        decreases v@.len() - i,
    {
        r.push((v[i].0.clone(), v[i].1.clone()));
        i = i + 1;
        assert(r@ =~= v@.subrange(0, i as int));
    }
    assert(v@.subrange(0, i as int) =~= v@);
    r
}

fn clone_opt_text(o: &Option<String>) -> (r: Option<String>)
    ensures
        opt_text(r) == opt_text(*o),
{
    match o {
        Some(s) => Some(s.clone()),
        None => None,
    }
}

fn clone_opt_texts(o: &Option<Vec<String>>) -> (r: Option<Vec<String>>)
    ensures
        opt_texts(r) == opt_texts(*o),
{
    match o {
        Some(v) => {
            let mut r: Vec<String> = Vec::new();
            let mut i: usize = 0;
            while i < v.len()
                invariant
                    i <= v@.len(),
                    r@ == v@.subrange(0, i as int),
                decreases v@.len() - i,
            {
                r.push(v[i].clone());
                i = i + 1;
                assert(r@ =~= v@.subrange(0, i as int));
            }
            assert(v@.subrange(0, i as int) =~= v@);
            Some(r)
        },
        None => None,
    }
}

/// The request to carry out for `a`, if any; a slash command is handed to
/// the slash command handler instead of being sent.
pub fn pending_action_request(a: &PendingAction) -> (r: Option<DaemonRequest>)
    ensures
        request_matches(*a, r),
{
    match a {
        PendingAction::SendInput(c) => {
            let chars = str_to_chars(c.as_str());
            if chars.len() > 0 && chars[0] == '/' {
                Some(DaemonRequest::SlashCommand(c.clone()))
            } else {
                Some(DaemonRequest::UserInput(c.clone()))
            }
        },
        PendingAction::CancelTurn => Some(DaemonRequest::CancelTurn),
        PendingAction::SubmitOnboarding { capsule_id, answers } => Some(
            DaemonRequest::SaveCapsuleEnv { capsule_id: capsule_id.clone(), answers: clone_pairs(answers) },
        ),
        PendingAction::RefreshCommands => Some(DaemonRequest::GetCommands),
        PendingAction::SubmitSelection { callback_topic, request_id, selected_id, .. } => Some(
            DaemonRequest::Selection {
                topic: callback_topic.clone(),
                request_id: request_id.clone(),
                selected_id: selected_id.clone(),
            },
        ),
        PendingAction::SubmitElicitResponse { request_id, value, values } => {
            let topic = cat("astrid.v1.elicit.response.", request_id.as_str());
            Some(
                DaemonRequest::ElicitResponse {
                    topic,
                    request_id: request_id.clone(),
                    value: clone_opt_text(value),
                    values: clone_opt_texts(values),
                },
            )
        },
        _ => None,
    }
}

/// The views of a list of notices.
pub open spec fn notice_views(v: Seq<String>) -> Seq<Seq<char>> {
    v.map_values(|s: String| s@)
}

/// `s` and `t` are the same turn state, an error's message compared by its
/// characters.
pub open spec fn state_is(s: TurnState, t: TurnState) -> bool {
    match (s, t) {
        (TurnState::Error { message: a }, TurnState::Error { message: b }) => a@ == b@,
        (TurnState::Error { .. }, _) => false,
        (_, TurnState::Error { .. }) => false,
        _ => s == t,
    }
}

/// What carrying out `a` in turn state `state`, with the send going as
/// `sent`, does to the interface.
pub open spec fn step_matches(state: TurnState, a: PendingAction, sent: SendOutcome, r: PendingStep) -> bool {
    let nothing_else = r.user_message is None && !r.reset_scroll && r.status is None && r.follow_up is None;
    match a {
        PendingAction::Approve { .. } => state_is(r.state, state) && nothing_else && notice_views(r.notices@)
            =~= seq!["Approval via UI is temporarily disabled in Microkernel mode."@],
        PendingAction::Deny { .. } => state_is(r.state, state) && nothing_else && notice_views(r.notices@)
            =~= seq!["Denial via UI is temporarily disabled in Microkernel mode."@],
        PendingAction::CancelTurn => nothing_else && match sent {
            SendOutcome::Failed(e) => state_is(r.state, state) && notice_views(r.notices@) =~= seq![
                "Failed to send cancellation signal: "@ + e@,
            ],
            SendOutcome::Sent => r.state is Interrupted && r.notices@.len() == 0,
            SendOutcome::NotSent => state_is(r.state, state) && r.notices@.len() == 0,
        },
        PendingAction::SendInput(c) => if is_slash(c@) {
            state_is(r.state, state) && nothing_else && r.notices@.len() == 0
        } else {
            &&& r.user_message matches Some(m) && m@ == c@
            &&& r.reset_scroll
            &&& r.status is None
            &&& r.follow_up is None
            &&& match sent {
                SendOutcome::Failed(e) => notice_views(r.notices@) =~= seq!["Failed to send input: "@ + e@]
                    && (r.state matches TurnState::Error { message } && message@ == "Send failed: "@ + e@),
                _ => r.state is Thinking && r.notices@.len() == 0,
            }
        },
        PendingAction::SubmitSelection { selected_label, .. } => state_is(r.state, state) && nothing_else
            && notice_views(r.notices@) =~= seq!["Selected: "@ + selected_label@],
        PendingAction::SubmitOnboarding { .. } => {
            &&& state_is(r.state, state)
            &&& r.user_message is None
            &&& !r.reset_scroll
            &&& match sent {
                SendOutcome::Failed(e) => r.status is None && r.follow_up is None && notice_views(r.notices@)
                    =~= seq!["Failed to save configuration: "@ + e@],
                SendOutcome::Sent => (r.status matches Some(s) && s@ == "Configuration saved. Refreshing Kernel..."@)
                    && (r.follow_up matches Some(DaemonRequest::ReloadCapsules)) && notice_views(r.notices@)
                    =~= seq!["Configuration saved. Refreshing Kernel..."@],
                SendOutcome::NotSent => r.status is None && r.follow_up is None && r.notices@.len() == 0,
            }
        },
        PendingAction::SubmitElicitResponse { .. } => state_is(r.state, state) && nothing_else && notice_views(
            r.notices@,
        ) =~= seq!["Lifecycle input submitted."@],
        _ => state_is(r.state, state) && nothing_else && r.notices@.len() == 0,
    }
}

fn keep_state(state: TurnState) -> (r: TurnState)
    ensures
        state_is(r, state),
{
    state
}

fn one_notice(s: String) -> (r: Vec<String>)
    ensures
        notice_views(r@) =~= seq![s@],
{
    let mut v = Vec::new();
    v.push(s);
    v
}

/// What carrying out `a` does to the interface in turn state `state`, once
/// its request (from [`pending_action_request`]) has been sent as `sent`
/// reports: the notices, the new turn state, and a follow-up request.
pub fn pending_action_step(state: TurnState, a: &PendingAction, sent: SendOutcome) -> (r: PendingStep)
    ensures
        step_matches(state, *a, sent, r),
{
    let mut step = PendingStep {
        state: TurnState::Other,
        notices: Vec::new(),
        user_message: None,
        reset_scroll: false,
        status: None,
        follow_up: None,
    };
    match a {
        PendingAction::Approve { .. } => {
            step.state = keep_state(state);
            step.notices = one_notice(String::from_str("Approval via UI is temporarily disabled in Microkernel mode."));
        },
        PendingAction::Deny { .. } => {
            step.state = keep_state(state);
            step.notices = one_notice(String::from_str("Denial via UI is temporarily disabled in Microkernel mode."));
        },
        PendingAction::CancelTurn => match sent {
            SendOutcome::Failed(e) => {
                step.state = keep_state(state);
                step.notices = one_notice(cat("Failed to send cancellation signal: ", e.as_str()));
            },
            SendOutcome::Sent => {
                step.state = TurnState::Interrupted;
            },
            SendOutcome::NotSent => {
                step.state = keep_state(state);
            },
        },
        PendingAction::SendInput(c) => {
            let chars = str_to_chars(c.as_str());
            if chars.len() > 0 && chars[0] == '/' {
                step.state = keep_state(state);
            } else {
                step.user_message = Some(c.clone());
                step.reset_scroll = true;
                match sent {
                    SendOutcome::Failed(e) => {
                        step.notices = one_notice(cat("Failed to send input: ", e.as_str()));
                        step.state = TurnState::Error { message: cat("Send failed: ", e.as_str()) };
                    },
                    _ => {
                        step.state = TurnState::Thinking;
                    },
                }
            }
        },
        PendingAction::SubmitSelection { selected_label, .. } => {
            step.state = keep_state(state);
            step.notices = one_notice(cat("Selected: ", selected_label.as_str()));
        },
        PendingAction::SubmitOnboarding { .. } => {
            step.state = keep_state(state);
            match sent {
                SendOutcome::Failed(e) => {
                    step.notices = one_notice(cat("Failed to save configuration: ", e.as_str()));
                },
                SendOutcome::Sent => {
                    step.notices = one_notice(String::from_str("Configuration saved. Refreshing Kernel..."));
                    step.status = Some(String::from_str("Configuration saved. Refreshing Kernel..."));
                    step.follow_up = Some(DaemonRequest::ReloadCapsules);
                },
                SendOutcome::NotSent => {},
            }
        },
        PendingAction::SubmitElicitResponse { .. } => {
            step.state = keep_state(state);
            step.notices = one_notice(String::from_str("Lifecycle input submitted."));
        },
        _ => {
            step.state = keep_state(state);
        },
    }
    step
}

} // verus!
