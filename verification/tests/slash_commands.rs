//! What the built-in slash commands do.

use astrid::command_palette::classify_slash_command;
use astrid::slash_commands::{command_step, install_step, slash_step, SlashAction};

fn names(v: &[SlashAction]) -> Vec<String> {
    v.iter()
        .map(|a| match a {
            SlashAction::Quit => "quit".to_string(),
            SlashAction::ClearConversation => "clear".to_string(),
            SlashAction::PushUserMessage(s) => format!("user:{s}"),
            SlashAction::PushLocalMessage(s) => format!("local:{}", s.len()),
            SlashAction::Notice(s) => format!("notice:{s}"),
            SlashAction::Status(s) => format!("status:{s}"),
            SlashAction::Redraw => "redraw".to_string(),
            SlashAction::InstallCapsule(s) => format!("install:{s}"),
            SlashAction::ReloadCapsules => "reload".to_string(),
            SlashAction::RequestCommands => "commands".to_string(),
            SlashAction::SendCommand(s) => format!("send:{s}"),
            SlashAction::StartThinking => "thinking".to_string(),
        })
        .collect()
}

fn plan(cmd: &str) -> Vec<String> {
    names(&slash_step(cmd, &classify_slash_command(cmd)))
}

#[test]
fn built_in_commands() {
    assert_eq!(plan("/q"), vec!["quit"]);
    assert_eq!(plan("/clear"), vec!["clear"]);
    assert_eq!(
        plan("/refresh"),
        vec!["user:/refresh", "notice:Sending refresh signal to daemon...", "reload", "commands"]
    );
    assert!(plan("   ").is_empty());
}

#[test]
fn install_needs_a_source() {
    assert_eq!(plan("/install"), vec!["user:/install", "notice:Usage: /install <path-to-capsule-or-directory>"]);
    assert_eq!(
        plan("/install ./caps/echo"),
        vec![
            "user:/install ./caps/echo",
            "notice:Installing capsule from: ./caps/echo...",
            "status:Installing capsule from: ./caps/echo...",
            "redraw",
            "install:./caps/echo",
        ]
    );
    assert_eq!(
        names(&install_step(Ok(()))),
        vec![
            "notice:Installation complete. Sending refresh signal to Kernel...",
            "status:Installation complete. Sending refresh signal to Kernel...",
            "reload",
            "commands",
        ]
    );
    assert_eq!(names(&install_step(Err("no manifest".to_string()))), vec!["notice:Failed to install capsule: no manifest"]);
}

#[test]
fn help_lists_the_commands() {
    let v = slash_step("/help", &classify_slash_command("/help"));
    assert!(matches!(&v[1], SlashAction::PushLocalMessage(s)
        if s.starts_with("**Available UI Commands:**\n- `/help`") && s.ends_with("also appear in the palette.")));
    assert!(matches!(v[2], SlashAction::RequestCommands));
}

#[test]
fn other_commands_go_to_the_capsules() {
    assert_eq!(plan("/models gpt"), vec!["send:/models gpt"]);
    assert_eq!(names(&command_step("/models gpt", Ok(()))), vec!["user:/models gpt", "thinking"]);
    assert_eq!(
        names(&command_step("/models gpt", Err("closed".to_string()))),
        vec!["notice:Failed to send command to Kernel: closed"]
    );
}
