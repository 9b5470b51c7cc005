//! The decisions of a headless session: a prompt is sent, then the daemon's
//! messages are taken one at a time, each applied to the interface and
//! followed by a snapshot where it is worth one, approvals are answered
//! automatically, and the run stops at the final response, on a timeout, a
//! disconnect or a read error. The caller reads, renders and sends; each
//! step says what to do next.

use vstd::prelude::*;
use crate::text::cat;

verus! {

/// How long a headless run waits for the final response, in milliseconds.
pub const HEADLESS_TIMEOUT_MS: u64 = 120_000;

/// What the caller saw since the last step.
#[derive(Debug)]
pub enum HeadlessEvent {
    /// The time since the run started, checked before each read.
    Tick { elapsed_ms: u64 },
    /// The read waited its while and nothing came.
    NoMessage,
    /// The connection closed.
    Disconnected,
    /// The read failed.
    ReadError(String),
    /// Part of the agent's response.
    AgentResponse { is_final: bool },
    /// A tool call started.
    ToolCallStart { name: String },
    /// A tool call finished.
    ToolResult { call_id: String, is_error: bool },
    /// The daemon asks for an approval.
    ApprovalRequired { request_id: String, action: String },
    /// Any other message.
    Other,
}

/// What the caller does, in order.
#[derive(Debug)]
pub enum HeadlessAction {
    /// Ask the kernel for its slash commands.
    RequestCommands,
    /// Add the prompt to the timeline as the user's message.
    PushUserMessage(String),
    /// Put the interface in the thinking state.
    StartThinking,
    /// Send the prompt.
    SendInput(String),
    /// Apply the message just read to the interface.
    ApplyEvent,
    /// Put the interface in the error state with this message.
    SetError(String),
    /// Render a snapshot under this tag.
    Snapshot(String),
    /// Render a snapshot under this tag if applying the message changed
    /// the kind of state the interface is in.
    SnapshotIfStateChanged(String),
    /// Answer the approval request.
    SendApproval { request_id: String, decision: String, reason: String },
    /// Drop the answered request from the pending approvals, and go back
    /// to thinking when none is left.
    ResolveApproval(String),
    /// End the run: tell the daemon, and stop reading.
    Stop,
}

/// A headless run.
#[derive(Debug)]
pub struct HeadlessState {
    /// Whether approvals are granted (else denied).
    pub auto_approve: bool,
    /// Whether the run has ended.
    pub done: bool,
}

/// An action with its texts as characters.
pub ghost enum ActView {
    RequestCommands,
    PushUserMessage(Seq<char>),
    StartThinking,
    SendInput(Seq<char>),
    ApplyEvent,
    SetError(Seq<char>),
    Snapshot(Seq<char>),
    SnapshotIfStateChanged(Seq<char>),
    SendApproval(Seq<char>, Seq<char>, Seq<char>),
    ResolveApproval(Seq<char>),
    Stop,
}

pub open spec fn act_view(a: HeadlessAction) -> ActView {
    match a {
        HeadlessAction::RequestCommands => ActView::RequestCommands,
        HeadlessAction::PushUserMessage(s) => ActView::PushUserMessage(s@),
        HeadlessAction::StartThinking => ActView::StartThinking,
        HeadlessAction::SendInput(s) => ActView::SendInput(s@),
        HeadlessAction::ApplyEvent => ActView::ApplyEvent,
        HeadlessAction::SetError(s) => ActView::SetError(s@),
        HeadlessAction::Snapshot(s) => ActView::Snapshot(s@),
        HeadlessAction::SnapshotIfStateChanged(s) => ActView::SnapshotIfStateChanged(s@),
        HeadlessAction::SendApproval { request_id, decision, reason } => ActView::SendApproval(
            request_id@,
            decision@,
            reason@,
        ),
        HeadlessAction::ResolveApproval(s) => ActView::ResolveApproval(s@),
        HeadlessAction::Stop => ActView::Stop,
    }
}

pub open spec fn acts_view(v: Seq<HeadlessAction>) -> Seq<ActView> {
    v.map_values(|a: HeadlessAction| act_view(a))
}

/// What a run does first, for `prompt`.
pub open spec fn start_spec(prompt: Seq<char>) -> Seq<ActView> {
    seq![
        ActView::RequestCommands,
        ActView::Snapshot("ready"@),
        ActView::PushUserMessage(prompt),
        ActView::StartThinking,
        ActView::SendInput(prompt),
        ActView::Snapshot("input_sent"@),
    ]
}

/// The tag of a finished tool call's snapshot.
pub open spec fn tool_result_tag(call_id: Seq<char>, is_error: bool) -> Seq<char> {
    "tool_result:"@ + call_id + ":"@ + if is_error {
        "failed"@
    } else {
        "ok"@
    }
}

/// The next state of a run and what the caller does, for event `e`.
pub open spec fn headless_step_spec(auto_approve: bool, done: bool, e: HeadlessEvent) -> (bool, Seq<ActView>) {
    if done {
        (true, Seq::empty())
    } else {
        match e {
            HeadlessEvent::Tick { elapsed_ms } => if elapsed_ms > HEADLESS_TIMEOUT_MS {
                (true, seq![ActView::Snapshot("timeout"@), ActView::Stop])
            } else {
                (false, Seq::empty())
            },
            HeadlessEvent::NoMessage => (false, Seq::empty()),
            HeadlessEvent::Disconnected => (true, seq![ActView::Snapshot("disconnected"@), ActView::Stop]),
            HeadlessEvent::ReadError(m) => (
                true,
                seq![
                    ActView::SetError("Connection error: "@ + m@),
                    ActView::Snapshot("error"@),
                    ActView::Stop,
                ],
            ),
            HeadlessEvent::AgentResponse { is_final } => if is_final {
                (true, seq![ActView::ApplyEvent, ActView::Snapshot("response_complete"@), ActView::Stop])
            } else {
                (false, seq![ActView::ApplyEvent])
            },
            HeadlessEvent::ToolCallStart { name } => (
                false,
                seq![ActView::ApplyEvent, ActView::Snapshot("tool_call:"@ + name@)],
            ),
            HeadlessEvent::ToolResult { call_id, is_error } => (
                false,
                seq![ActView::ApplyEvent, ActView::Snapshot(tool_result_tag(call_id@, is_error))],
            ),
            HeadlessEvent::ApprovalRequired { request_id, action } => (
                false,
                seq![
                    ActView::ApplyEvent,
                    ActView::Snapshot("approval:"@ + action@),
                    if auto_approve {
                        ActView::SendApproval(request_id@, "approve"@, "headless-tui auto-approve"@)
                    } else {
                        ActView::SendApproval(request_id@, "deny"@, "headless-tui auto-deny"@)
                    },
                    ActView::ResolveApproval(request_id@),
                    ActView::Snapshot(
                        if auto_approve {
                            "approval_approved"@
                        } else {
                            "approval_denied"@
                        },
                    ),
                ],
            ),
            HeadlessEvent::Other => (false, seq![ActView::ApplyEvent, ActView::SnapshotIfStateChanged("state_change"@)]),
        }
    }
}

/// A step that ends a run has the caller stop as its last action, and a run
/// that has ended does nothing whatever comes.
pub proof fn law_run_ends_with_stop(auto_approve: bool, e: HeadlessEvent)
    ensures
        headless_step_spec(auto_approve, false, e).0 ==> headless_step_spec(auto_approve, false, e).1.last()
            == ActView::Stop,
        !headless_step_spec(auto_approve, false, e).0 ==> !headless_step_spec(auto_approve, false, e).1.contains(
            ActView::Stop,
        ),
        headless_step_spec(auto_approve, true, e) == (true, Seq::<ActView>::empty()),
{
    let r = headless_step_spec(auto_approve, false, e);
    if !r.0 {
        assert forall|i: int| 0 <= i < r.1.len() implies r.1[i] != ActView::Stop by {}
    }
}

fn snap(tag: &str) -> (r: HeadlessAction)
    ensures
        act_view(r) == ActView::Snapshot(tag@),
{
    HeadlessAction::Snapshot(String::from_str(tag))
}

/// What a headless run for `prompt` does before it reads anything.
pub fn headless_start(prompt: &str) -> (r: Vec<HeadlessAction>)
    ensures
        acts_view(r@) == start_spec(prompt@),
{
    let mut v = Vec::new();
    v.push(HeadlessAction::RequestCommands);
    v.push(snap("ready"));
    v.push(HeadlessAction::PushUserMessage(String::from_str(prompt)));
    v.push(HeadlessAction::StartThinking);
    v.push(HeadlessAction::SendInput(String::from_str(prompt)));
    v.push(snap("input_sent"));
    assert(acts_view(v@) =~= start_spec(prompt@));
    v
}

/// One step of a headless run: the run's next state and what the caller
/// does for event `e`. A run that has ended does nothing more.
pub fn headless_step(s: HeadlessState, e: HeadlessEvent) -> (r: (HeadlessState, Vec<HeadlessAction>))
    ensures
        r.0.auto_approve == s.auto_approve,
        (r.0.done, acts_view(r.1@)) == headless_step_spec(s.auto_approve, s.done, e),
{
    let mut v: Vec<HeadlessAction> = Vec::new();
    if s.done {
        assert(acts_view(v@) =~= Seq::<ActView>::empty());
        return (s, v);
    }
    let ghost e0 = e;
    let done = match e {
        HeadlessEvent::Tick { elapsed_ms } => {
            if elapsed_ms > HEADLESS_TIMEOUT_MS {
                v.push(snap("timeout"));
                v.push(HeadlessAction::Stop);
                true
            } else {
                false
            }
        },
        HeadlessEvent::NoMessage => false,
        HeadlessEvent::Disconnected => {
            v.push(snap("disconnected"));
            v.push(HeadlessAction::Stop);
            true
        },
        HeadlessEvent::ReadError(m) => {
            v.push(HeadlessAction::SetError(cat("Connection error: ", m.as_str())));
            v.push(snap("error"));
            v.push(HeadlessAction::Stop);
            true
        },
        HeadlessEvent::AgentResponse { is_final } => {
            v.push(HeadlessAction::ApplyEvent);
            if is_final {
                v.push(snap("response_complete"));
                v.push(HeadlessAction::Stop);
            }
            is_final
        },
        HeadlessEvent::ToolCallStart { name } => {
            v.push(HeadlessAction::ApplyEvent);
            v.push(HeadlessAction::Snapshot(cat("tool_call:", name.as_str())));
            false
        },
        HeadlessEvent::ToolResult { call_id, is_error } => {
            v.push(HeadlessAction::ApplyEvent);
            let head = crate::text::cat3("tool_result:", call_id.as_str(), ":");
            let tag = if is_error {
                cat(head.as_str(), "failed")
            } else {
                cat(head.as_str(), "ok")
            };
            v.push(HeadlessAction::Snapshot(tag));
            false
        },
        HeadlessEvent::ApprovalRequired { request_id, action } => {
            v.push(HeadlessAction::ApplyEvent);
            v.push(HeadlessAction::Snapshot(cat("approval:", action.as_str())));
            let (decision, reason) = if s.auto_approve {
                (String::from_str("approve"), String::from_str("headless-tui auto-approve"))
            } else {
                (String::from_str("deny"), String::from_str("headless-tui auto-deny"))
            };
            v.push(HeadlessAction::SendApproval { request_id: request_id.clone(), decision, reason });
            v.push(HeadlessAction::ResolveApproval(request_id));
            if s.auto_approve {
                v.push(snap("approval_approved"));
            } else {
                v.push(snap("approval_denied"));
            }
            false
        },
        HeadlessEvent::Other => {
            v.push(HeadlessAction::ApplyEvent);
            v.push(HeadlessAction::SnapshotIfStateChanged(String::from_str("state_change")));
            false
        },
    };
    assert(acts_view(v@) =~= headless_step_spec(s.auto_approve, s.done, e0).1);
    (HeadlessState { auto_approve: s.auto_approve, done }, v)
}

} // verus!
