//! Events at which hooks may run.

use vstd::prelude::*;

verus! {

/// A point in the agent's life at which hooks can run.
#[derive(Debug, Clone, Copy, PartialEq, Eq, Hash, Structural)]
pub enum HookEvent {
    /// Session has started.
    SessionStart,
    /// Session is ending.
    SessionEnd,
    /// User has submitted a prompt.
    UserPrompt,
    /// Before a tool call is executed.
    PreToolCall,
    /// After a tool call completes successfully.
    PostToolCall,
    /// A tool call resulted in an error.
    ToolError,
    /// Before an approval request is shown.
    PreApproval,
    /// After an approval decision is made.
    PostApproval,
    /// A notification needs to be sent.
    Notification,
    /// Before context compaction.
    PreCompact,
    /// After context compaction.
    PostCompact,
    /// Before the LLM prompt is assembled.
    PromptBuild,
    /// Before a response message is sent to the user.
    MessageSend,
    /// Before a session is reset.
    SessionReset,
    /// Before model/provider selection is resolved.
    ModelResolve,
    /// A user message has been received.
    MessageReceived,
    /// A response message has been delivered.
    MessageSent,
    /// The agent's cognitive loop has completed its run.
    AgentLoopEnd,
    /// A tool result is about to be persisted to history.
    ToolResultPersist,
    /// A subagent is starting.
    SubagentStart,
    /// A subagent has stopped.
    SubagentStop,
    /// Kernel daemon is starting.
    KernelStart,
    /// Kernel daemon is stopping.
    KernelStop,
}

pub open spec fn hook_event_name(e: HookEvent) -> Seq<char> {
    match e {
        HookEvent::SessionStart => "session_start"@,
        HookEvent::SessionEnd => "session_end"@,
        HookEvent::UserPrompt => "user_prompt"@,
        HookEvent::PreToolCall => "pre_tool_call"@,
        HookEvent::PostToolCall => "post_tool_call"@,
        HookEvent::ToolError => "tool_error"@,
        HookEvent::PreApproval => "pre_approval"@,
        HookEvent::PostApproval => "post_approval"@,
        HookEvent::Notification => "notification"@,
        HookEvent::PreCompact => "pre_compact"@,
        HookEvent::PostCompact => "post_compact"@,
        HookEvent::PromptBuild => "prompt_build"@,
        HookEvent::MessageSend => "message_send"@,
        HookEvent::SessionReset => "session_reset"@,
        HookEvent::ModelResolve => "model_resolve"@,
        HookEvent::MessageReceived => "message_received"@,
        HookEvent::MessageSent => "message_sent"@,
        HookEvent::AgentLoopEnd => "agent_loop_end"@,
        HookEvent::ToolResultPersist => "tool_result_persist"@,
        HookEvent::SubagentStart => "subagent_start"@,
        HookEvent::SubagentStop => "subagent_stop"@,
        HookEvent::KernelStart => "kernel_start"@,
        HookEvent::KernelStop => "kernel_stop"@,
    }
}

impl HookEvent {
    /// The event's `snake_case` name.
    pub fn to_string(&self) -> (r: String)
        ensures
            r@ == hook_event_name(*self),
    {
        match self {
            HookEvent::SessionStart => String::from_str("session_start"),
            HookEvent::SessionEnd => String::from_str("session_end"),
            HookEvent::UserPrompt => String::from_str("user_prompt"),
            HookEvent::PreToolCall => String::from_str("pre_tool_call"),
            HookEvent::PostToolCall => String::from_str("post_tool_call"),
            HookEvent::ToolError => String::from_str("tool_error"),
            HookEvent::PreApproval => String::from_str("pre_approval"),
            HookEvent::PostApproval => String::from_str("post_approval"),
            HookEvent::Notification => String::from_str("notification"),
            HookEvent::PreCompact => String::from_str("pre_compact"),
            HookEvent::PostCompact => String::from_str("post_compact"),
            HookEvent::PromptBuild => String::from_str("prompt_build"),
            HookEvent::MessageSend => String::from_str("message_send"),
            HookEvent::SessionReset => String::from_str("session_reset"),
            HookEvent::ModelResolve => String::from_str("model_resolve"),
            HookEvent::MessageReceived => String::from_str("message_received"),
            HookEvent::MessageSent => String::from_str("message_sent"),
            HookEvent::AgentLoopEnd => String::from_str("agent_loop_end"),
            HookEvent::ToolResultPersist => String::from_str("tool_result_persist"),
            HookEvent::SubagentStart => String::from_str("subagent_start"),
            HookEvent::SubagentStop => String::from_str("subagent_stop"),
            HookEvent::KernelStart => String::from_str("kernel_start"),
            HookEvent::KernelStop => String::from_str("kernel_stop"),
        }
    }
}

} // verus!
