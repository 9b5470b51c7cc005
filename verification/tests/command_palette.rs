//! The slash-command palette: matching, moving the selection, completing
//! and reading submitted commands.

use astrid::command_palette::{
    classify_slash_command, palette_completion, palette_down, palette_filtered, palette_up,
    SlashCommand, SlashCommandDef, PALETTE_MAX_VISIBLE,
};

fn defs(names: &[&str]) -> Vec<SlashCommandDef> {
    names
        .iter()
        .map(|n| SlashCommandDef { name: n.to_string(), description: String::new() })
        .collect()
}

#[test]
fn palette_matches_typed_prefix() {
    let cmds = defs(&["/help", "/clear", "/install", "/refresh", "/quit"]);
    assert_eq!(palette_filtered(&cmds, "/"), vec![0, 1, 2, 3, 4]);
    assert_eq!(palette_filtered(&cmds, "/i"), vec![2]);
    assert_eq!(palette_filtered(&cmds, "/re"), vec![3]);
    assert_eq!(palette_filtered(&cmds, "/install x"), Vec::<usize>::new());
}

#[test]
fn palette_selection_wraps_and_stays_in_view() {
    assert_eq!(PALETTE_MAX_VISIBLE, 6);
    // Up from the first entry wraps to the last and scrolls to it.
    assert_eq!(palette_up(0, 0, 10), (9, 4));
    assert_eq!(palette_up(5, 3, 10), (4, 3));
    assert_eq!(palette_up(3, 5, 10), (2, 2));
    // Down from the last entry wraps to the first.
    assert_eq!(palette_down(9, 4, 10), (0, 0));
    assert_eq!(palette_down(5, 0, 10), (6, 1));
    assert_eq!(palette_down(1, 0, 10), (2, 0));
    // Without entries nothing moves.
    assert_eq!(palette_up(2, 1, 0), (2, 1));
    assert_eq!(palette_down(2, 1, 0), (2, 1));
    for count in 1..12usize {
        for sel in 0..count {
            for scroll in 0..12usize {
                for (s, o) in [palette_up(sel, scroll, count), palette_down(sel, scroll, count)] {
                    assert!(s < count);
                    assert!(o <= s && s < o + PALETTE_MAX_VISIBLE);
                }
            }
        }
    }
}

#[test]
fn completion_submits_argless_commands() {
    assert_eq!(palette_completion("/help"), ("/help".to_string(), true));
    assert_eq!(palette_completion("/q"), ("/q".to_string(), true));
    assert_eq!(palette_completion("/refresh"), ("/refresh".to_string(), true));
    assert_eq!(palette_completion("/install"), ("/install ".to_string(), false));
    assert_eq!(palette_completion("/deploy"), ("/deploy ".to_string(), false));
}

#[test]
fn slash_commands_are_read_by_first_word() {
    assert_eq!(classify_slash_command("   "), SlashCommand::Empty);
    assert_eq!(classify_slash_command("/quit"), SlashCommand::Quit);
    assert_eq!(classify_slash_command("  /exit now"), SlashCommand::Quit);
    assert_eq!(classify_slash_command("/q"), SlashCommand::Quit);
    assert_eq!(classify_slash_command("/clear"), SlashCommand::Clear);
    assert_eq!(classify_slash_command("/install"), SlashCommand::Install { source: None });
    assert_eq!(
        classify_slash_command("/install  ./caps/weather extra"),
        SlashCommand::Install { source: Some("./caps/weather".to_string()) }
    );
    assert_eq!(classify_slash_command("/refresh"), SlashCommand::Refresh);
    assert_eq!(classify_slash_command("?"), SlashCommand::Help);
    assert_eq!(classify_slash_command("/help me"), SlashCommand::Help);
    assert_eq!(classify_slash_command("/deploy prod"), SlashCommand::Custom);
}
