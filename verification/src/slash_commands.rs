//! What the built-in slash commands do: the messages and notices they add,
//! the requests they send, and what follows once an installation or a
//! capsule command has been carried out. The caller installs, sends and
//! redraws, and reports how it went.

use vstd::prelude::*;
use crate::command_palette::SlashCommand;
use crate::text::cat3;

verus! {

/// What the caller does for a slash command, in order.
#[derive(Debug)]
pub enum SlashAction {
    /// Leave the interface.
    Quit,
    /// Clear the messages, the stream and the streamed text.
    ClearConversation,
    /// Add the command to the timeline as the user's message.
    PushUserMessage(String),
    /// Add a message of the interface's own (markdown).
    PushLocalMessage(String),
    /// Push a notice.
    Notice(String),
    /// Show this status line.
    Status(String),
    /// Redraw before a long task.
    Redraw,
    /// Install the capsule from this path or registry name.
    InstallCapsule(String),
    /// Ask the kernel to reload the capsules.
    ReloadCapsules,
    /// Ask the kernel for its slash commands.
    RequestCommands,
    /// Send the command to the capsules on the event bus.
    SendCommand(String),
    /// Put the interface in the thinking state.
    StartThinking,
}

pub ghost enum SlashView {
    Quit,
    ClearConversation,
    PushUserMessage(Seq<char>),
    PushLocalMessage(Seq<char>),
    Notice(Seq<char>),
    Status(Seq<char>),
    Redraw,
    InstallCapsule(Seq<char>),
    ReloadCapsules,
    RequestCommands,
    SendCommand(Seq<char>),
    StartThinking,
}

pub open spec fn slash_view(a: SlashAction) -> SlashView {
    match a {
        SlashAction::Quit => SlashView::Quit,
        SlashAction::ClearConversation => SlashView::ClearConversation,
        SlashAction::PushUserMessage(s) => SlashView::PushUserMessage(s@),
        SlashAction::PushLocalMessage(s) => SlashView::PushLocalMessage(s@),
        SlashAction::Notice(s) => SlashView::Notice(s@),
        SlashAction::Status(s) => SlashView::Status(s@),
        SlashAction::Redraw => SlashView::Redraw,
        SlashAction::InstallCapsule(s) => SlashView::InstallCapsule(s@),
        SlashAction::ReloadCapsules => SlashView::ReloadCapsules,
        SlashAction::RequestCommands => SlashView::RequestCommands,
        SlashAction::SendCommand(s) => SlashView::SendCommand(s@),
        SlashAction::StartThinking => SlashView::StartThinking,
    }
}

pub open spec fn slash_views(v: Seq<SlashAction>) -> Seq<SlashView> {
    v.map_values(|a: SlashAction| slash_view(a))
}

/// The help text `/help` shows.
pub open spec fn help_text() -> Seq<char> {
    "**Available UI Commands:**\n- `/help`     - Show this message\n- `/clear`    - Clear the local terminal screen\n- `/install`  - Install and load a capsule\n- `/refresh`  - Reload all capsules into the OS\n- `/quit`     - Disconnect from the daemon\n\nCapsule commands (from installed capsules) also appear in the palette."@
}

/// What the caller does first for the command text `cmd`, read as `c`.
pub open spec fn slash_plan(cmd: Seq<char>, c: SlashCommand) -> Seq<SlashView> {
    match c {
        SlashCommand::Empty => Seq::empty(),
        SlashCommand::Quit => seq![SlashView::Quit],
        SlashCommand::Clear => seq![SlashView::ClearConversation],
        SlashCommand::Install { source: None } => seq![
            SlashView::PushUserMessage(cmd),
            SlashView::Notice("Usage: /install <path-to-capsule-or-directory>"@),
        ],
        SlashCommand::Install { source: Some(s) } => seq![
            SlashView::PushUserMessage(cmd),
            SlashView::Notice("Installing capsule from: "@ + s@ + "..."@),
            SlashView::Status("Installing capsule from: "@ + s@ + "..."@),
            SlashView::Redraw,
            SlashView::InstallCapsule(s@),
        ],
        SlashCommand::Refresh => seq![
            SlashView::PushUserMessage(cmd),
            SlashView::Notice("Sending refresh signal to daemon..."@),
            SlashView::ReloadCapsules,
            SlashView::RequestCommands,
        ],
        SlashCommand::Help => seq![
            SlashView::PushUserMessage(cmd),
            SlashView::PushLocalMessage(help_text()),
            SlashView::RequestCommands,
        ],
        SlashCommand::Custom => seq![SlashView::SendCommand(cmd)],
    }
}

/// What follows an installation, by its outcome.
pub open spec fn install_followup(result: Result<(), Seq<char>>) -> Seq<SlashView> {
    match result {
        Ok(_) => seq![
            SlashView::Notice("Installation complete. Sending refresh signal to Kernel..."@),
            SlashView::Status("Installation complete. Sending refresh signal to Kernel..."@),
            SlashView::ReloadCapsules,
            SlashView::RequestCommands,
        ],
        Err(e) => seq![SlashView::Notice("Failed to install capsule: "@ + e)],
    }
}

/// What follows sending a capsule command, by how the send went.
pub open spec fn command_followup(cmd: Seq<char>, sent: Result<(), Seq<char>>) -> Seq<SlashView> {
    match sent {
        Ok(_) => seq![SlashView::PushUserMessage(cmd), SlashView::StartThinking],
        Err(e) => seq![SlashView::Notice("Failed to send command to Kernel: "@ + e)],
    }
}

pub open spec fn result_view(r: Result<(), String>) -> Result<(), Seq<char>> {
    match r {
        Ok(_) => Ok(()),
        Err(e) => Err(e@),
    }
}

fn text(s: &str) -> (r: String)
    ensures
        r@ == s@,
{
    String::from_str(s)
}

/// What the caller does first for the submitted command `cmd`, read by
/// [`crate::command_palette::classify_slash_command`] as `c`.
pub fn slash_step(cmd: &str, c: &SlashCommand) -> (r: Vec<SlashAction>)
    ensures
        slash_views(r@) == slash_plan(cmd@, *c),
{
    let mut v: Vec<SlashAction> = Vec::new();
    match c {
        SlashCommand::Empty => {},
        SlashCommand::Quit => {
            v.push(SlashAction::Quit);
        },
        SlashCommand::Clear => {
            v.push(SlashAction::ClearConversation);
        },
        SlashCommand::Install { source: None } => {
            v.push(SlashAction::PushUserMessage(text(cmd)));
            v.push(SlashAction::Notice(text("Usage: /install <path-to-capsule-or-directory>")));
        },
        SlashCommand::Install { source: Some(s) } => {
            v.push(SlashAction::PushUserMessage(text(cmd)));
            v.push(SlashAction::Notice(cat3("Installing capsule from: ", s.as_str(), "...")));
            v.push(SlashAction::Status(cat3("Installing capsule from: ", s.as_str(), "...")));
            v.push(SlashAction::Redraw);
            v.push(SlashAction::InstallCapsule(s.clone()));
        },
        SlashCommand::Refresh => {
            v.push(SlashAction::PushUserMessage(text(cmd)));
            v.push(SlashAction::Notice(text("Sending refresh signal to daemon...")));
            v.push(SlashAction::ReloadCapsules);
            v.push(SlashAction::RequestCommands);
        },
        SlashCommand::Help => {
            v.push(SlashAction::PushUserMessage(text(cmd)));
            v.push(
                SlashAction::PushLocalMessage(
                    text(
                        "**Available UI Commands:**\n- `/help`     - Show this message\n- `/clear`    - Clear the local terminal screen\n- `/install`  - Install and load a capsule\n- `/refresh`  - Reload all capsules into the OS\n- `/quit`     - Disconnect from the daemon\n\nCapsule commands (from installed capsules) also appear in the palette.",
                    ),
                ),
            );
            v.push(SlashAction::RequestCommands);
        },
        SlashCommand::Custom => {
            v.push(SlashAction::SendCommand(text(cmd)));
        },
    }
    assert(slash_views(v@) =~= slash_plan(cmd@, *c));
    v
}

/// What follows an installation that ended as `result`.
pub fn install_step(result: Result<(), String>) -> (r: Vec<SlashAction>)
    ensures
        slash_views(r@) == install_followup(result_view(result)),
{
    let mut v: Vec<SlashAction> = Vec::new();
    let ghost rv = result_view(result);
    match result {
        Ok(_) => {
            v.push(SlashAction::Notice(text("Installation complete. Sending refresh signal to Kernel...")));
            v.push(SlashAction::Status(text("Installation complete. Sending refresh signal to Kernel...")));
            v.push(SlashAction::ReloadCapsules);
            v.push(SlashAction::RequestCommands);
        },
        Err(e) => {
            v.push(SlashAction::Notice(crate::text::cat("Failed to install capsule: ", e.as_str())));
        },
    }
    assert(slash_views(v@) =~= install_followup(rv));
    v
}

/// What follows sending the capsule command `cmd`, by how the send went.
pub fn command_step(cmd: &str, sent: Result<(), String>) -> (r: Vec<SlashAction>)
    ensures
        slash_views(r@) == command_followup(cmd@, result_view(sent)),
{
    let mut v: Vec<SlashAction> = Vec::new();
    let ghost rv = result_view(sent);
    match sent {
        Ok(_) => {
            v.push(SlashAction::PushUserMessage(text(cmd)));
            v.push(SlashAction::StartThinking);
        },
        Err(e) => {
            v.push(SlashAction::Notice(crate::text::cat("Failed to send command to Kernel: ", e.as_str())));
        },
    }
    assert(slash_views(v@) =~= command_followup(cmd@, rv));
    v
}

} // verus!
