//! The terminal UI's slash-command palette and the commands typed into
//! it: which commands match what was typed, moving the selection so that
//! it stays in view, completing a command, and what a submitted command
//! asks for.

use vstd::prelude::*;
use crate::render_text::{split_ws, ws_words};
use crate::text::{cat, chars_eq, chars_to_string, is_prefix, starts_with_chars, str_to_chars, views};

verus! {

/// How many palette entries are shown at once.
pub const PALETTE_MAX_VISIBLE: usize = 6;

/// A command the palette offers.
#[derive(Debug, Clone)]
pub struct SlashCommandDef {
    /// The command, `/` included.
    pub name: String,
    /// What it does.
    pub description: String,
}

/// The positions, in order, of the commands whose name starts with
/// `prefix`.
pub open spec fn matching_positions(names: Seq<Seq<char>>, prefix: Seq<char>) -> Seq<usize>
    decreases names.len(),
{
    if names.len() == 0 {
        Seq::empty()
    } else {
        let r = matching_positions(names.drop_last(), prefix);
        if is_prefix(prefix, names.last()) {
            r.push((names.len() - 1) as usize)
        } else {
            r
        }
    }
}

/// The commands' names.
pub open spec fn command_names(commands: Seq<SlashCommandDef>) -> Seq<Seq<char>> {
    commands.map_values(|c: SlashCommandDef| c.name@)
}

/// The positions in `commands` of those whose name starts with `prefix`,
/// in order: the palette's entries for what was typed.
pub fn palette_filtered(commands: &[SlashCommandDef], prefix: &str) -> (r: Vec<usize>)
    ensures
        r@ == matching_positions(command_names(commands@), prefix@),
{
    let p = str_to_chars(prefix);
    let mut r: Vec<usize> = Vec::new();
    let mut i: usize = 0;
    while i < commands.len()
        invariant
            i <= commands@.len(),
            p@ == prefix@,
            r@ == matching_positions(command_names(commands@).take(i as int), prefix@),
        decreases commands@.len() - i,
    {
        let name = str_to_chars(commands[i].name.as_str());
        proof {
            let ns = command_names(commands@).take(i + 1);
            assert(ns.drop_last() =~= command_names(commands@).take(i as int));
            assert(ns.last() == commands@[i as int].name@);
        }
        if starts_with_chars(&name, &p) {
            r.push(i);
        }
        i = i + 1;
    }
    assert(command_names(commands@).take(i as int) =~= command_names(commands@));
    r
}

/// `a + b`, stopping at the largest `usize`.
pub open spec fn sat_add(a: int, b: int) -> int {
    if a + b > usize::MAX {
        usize::MAX as int
    } else {
        a + b
    }
}

/// `a - b`, stopping at 0.
pub open spec fn sat_sub(a: int, b: int) -> int {
    if a - b < 0 {
        0
    } else {
        a - b
    }
}

/// The scroll offset that brings `selected` into view, first from above,
/// then from below.
pub open spec fn scroll_up_into_view(selected: int, scroll: int) -> int {
    let s1 = if selected < scroll {
        selected
    } else {
        scroll
    };
    if selected >= sat_add(s1, PALETTE_MAX_VISIBLE as int) {
        sat_sub(sat_add(selected, 1), PALETTE_MAX_VISIBLE as int)
    } else {
        s1
    }
}

/// The scroll offset that brings `selected` into view, first from below,
/// then from above.
pub open spec fn scroll_down_into_view(selected: int, scroll: int) -> int {
    let s1 = if selected >= sat_add(scroll, PALETTE_MAX_VISIBLE as int) {
        sat_sub(sat_add(selected, 1), PALETTE_MAX_VISIBLE as int)
    } else {
        scroll
    };
    if selected < s1 {
        selected
    } else {
        s1
    }
}

/// Up: the previous entry, from the first to the last; then scrolled to
/// keep it in view. Nothing moves without entries.
pub open spec fn palette_up_spec(selected: int, scroll: int, count: int) -> (int, int) {
    if count > 0 {
        let s = if selected == 0 {
            count - 1
        } else {
            selected - 1
        };
        (s, scroll_up_into_view(s, scroll))
    } else {
        (selected, scroll)
    }
}

/// Down: the next entry, from the last back to the first; then scrolled
/// to keep it in view. Nothing moves without entries.
pub open spec fn palette_down_spec(selected: int, scroll: int, count: int) -> (int, int) {
    if count > 0 {
        let s = sat_add(selected, 1) % count;
        (s, scroll_down_into_view(s, scroll))
    } else {
        (selected, scroll)
    }
}

fn keep_in_view_up(selected: usize, scroll: usize) -> (r: usize)
    ensures
        r == scroll_up_into_view(selected as int, scroll as int),
{
    let mut s = scroll;
    if selected < s {
        s = selected;
    }
    if selected >= s.saturating_add(PALETTE_MAX_VISIBLE) {
        s = selected.saturating_add(1).saturating_sub(PALETTE_MAX_VISIBLE);
    }
    s
}

fn keep_in_view_down(selected: usize, scroll: usize) -> (r: usize)
    ensures
        r == scroll_down_into_view(selected as int, scroll as int),
{
    let mut s = scroll;
    if selected >= s.saturating_add(PALETTE_MAX_VISIBLE) {
        s = selected.saturating_add(1).saturating_sub(PALETTE_MAX_VISIBLE);
    }
    if selected < s {
        s = selected;
    }
    s
}

/// The palette selection and scroll offset after Up, among `count`
/// entries.
pub fn palette_up(selected: usize, scroll: usize, count: usize) -> (r: (usize, usize))
    ensures
        (r.0 as int, r.1 as int) == palette_up_spec(selected as int, scroll as int, count as int),
{
    if count > 0 {
        let s = if selected == 0 {
            count - 1
        } else {
            selected - 1
        };
        (s, keep_in_view_up(s, scroll))
    } else {
        (selected, scroll)
    }
}

/// The palette selection and scroll offset after Down, among `count`
/// entries.
pub fn palette_down(selected: usize, scroll: usize, count: usize) -> (r: (usize, usize))
    ensures
        (r.0 as int, r.1 as int) == palette_down_spec(selected as int, scroll as int, count as int),
{
    if count > 0 {
        let s = selected.saturating_add(1) % count;
        (s, keep_in_view_down(s, scroll))
    } else {
        (selected, scroll)
    }
}

/// Whether the selected entry is among those shown.
pub open spec fn in_view(selected: int, scroll: int) -> bool {
    scroll <= selected < scroll + PALETTE_MAX_VISIBLE
}

/// Moving through the palette keeps the selection on an entry and in
/// view: after Up or Down among `count > 0` entries, from a selection on
/// an entry, the selection is still on one and the scroll offset shows it.
pub proof fn law_palette_selection_in_view(selected: usize, scroll: usize, count: usize)
    requires
        0 < count,
        selected < count,
    ensures
        palette_up_spec(selected as int, scroll as int, count as int).0 < count,
        in_view(
            palette_up_spec(selected as int, scroll as int, count as int).0,
            palette_up_spec(selected as int, scroll as int, count as int).1,
        ),
        palette_down_spec(selected as int, scroll as int, count as int).0 < count,
        in_view(
            palette_down_spec(selected as int, scroll as int, count as int).0,
            palette_down_spec(selected as int, scroll as int, count as int).1,
        ),
{
    let d = sat_add(selected as int, 1) % (count as int);
    assert(0 <= d < count) by (nonlinear_arith)
        requires
            count > 0,
            d == sat_add(selected as int, 1) % (count as int),
            sat_add(selected as int, 1) >= 0,
    ;
}

/// Palette commands that never take arguments, submitted as soon as they
/// are picked.
pub open spec fn is_argless_command(name: Seq<char>) -> bool {
    ||| name == "/help"@
    ||| name == "/clear"@
    ||| name == "/quit"@
    ||| name == "/exit"@
    ||| name == "/q"@
    ||| name == "/refresh"@
}

fn same_text(a: &str, b: &str) -> (r: bool)
    ensures
        r == (a@ == b@),
{
    let x = str_to_chars(a);
    let y = str_to_chars(b);
    chars_eq(&x, &y)
}

/// What picking the palette command `name` puts in the input: the name
/// alone, to submit at once, for a command without arguments; else the
/// name and a space, to type the arguments after.
pub fn palette_completion(name: &str) -> (r: (String, bool))
    ensures
        r.1 == is_argless_command(name@),
        r.0@ == (if r.1 {
            name@
        } else {
            name@ + " "@
        }),
{
    let argless = same_text(name, "/help") || same_text(name, "/clear") || same_text(name, "/quit")
        || same_text(name, "/exit") || same_text(name, "/q") || same_text(name, "/refresh");
    if argless {
        (String::from_str(name), true)
    } else {
        (cat(name, " "), false)
    }
}

/// What a submitted slash command asks for.
#[derive(Debug, Clone, PartialEq, Eq)]
pub enum SlashCommand {
    /// Nothing was typed.
    Empty,
    /// `/quit`, `/exit` or `/q`: disconnect.
    Quit,
    /// `/clear`: clear the conversation.
    Clear,
    /// `/install`, with the source when one was given.
    Install {
        /// The path or registry name to install from.
        source: Option<String>,
    },
    /// `/refresh`: reload the capsules.
    Refresh,
    /// `/help` or `?`: show the commands.
    Help,
    /// Any other command, for the capsules to handle.
    Custom,
}

/// How a submitted command is read, by its first whitespace-separated
/// word.
pub open spec fn slash_command_of(words: Seq<Seq<char>>) -> (SlashCommand, Option<Seq<char>>) {
    if words.len() == 0 {
        (SlashCommand::Empty, None)
    } else if words[0] == "/quit"@ || words[0] == "/exit"@ || words[0] == "/q"@ {
        (SlashCommand::Quit, None)
    } else if words[0] == "/clear"@ {
        (SlashCommand::Clear, None)
    } else if words[0] == "/install"@ {
        (SlashCommand::Install { source: None }, if words.len() < 2 {
            None
        } else {
            Some(words[1])
        })
    } else if words[0] == "/refresh"@ {
        (SlashCommand::Refresh, None)
    } else if words[0] == "/help"@ || words[0] == "?"@ {
        (SlashCommand::Help, None)
    } else {
        (SlashCommand::Custom, None)
    }
}

/// What the submitted command `cmd` asks for; `/install` carries its
/// second word as the source.
pub fn classify_slash_command(cmd: &str) -> (r: SlashCommand)
    ensures
        match r {
            SlashCommand::Install { source } => slash_command_of(ws_words(cmd@)).0 is Install && match source {
                Some(s) => slash_command_of(ws_words(cmd@)).1 == Some(s@),
                None => slash_command_of(ws_words(cmd@)).1 is None,
            },
            _ => r == slash_command_of(ws_words(cmd@)).0,
        },
{
    let chars = str_to_chars(cmd);
    let words = split_ws(&chars);
    if words.len() == 0 {
        return SlashCommand::Empty;
    }
    let w0 = chars_to_string(&words[0]);
    proof {
        assert(views(words@)[0] == words@[0]@);
    }
    let first = w0.as_str();
    if same_text(first, "/quit") || same_text(first, "/exit") || same_text(first, "/q") {
        SlashCommand::Quit
    } else if same_text(first, "/clear") {
        SlashCommand::Clear
    } else if same_text(first, "/install") {
        if words.len() < 2 {
            SlashCommand::Install { source: None }
        } else {
            proof {
                assert(views(words@)[1] == words@[1]@);
            }
            SlashCommand::Install { source: Some(chars_to_string(&words[1])) }
        }
    } else if same_text(first, "/refresh") {
        SlashCommand::Refresh
    } else if same_text(first, "/help") || same_text(first, "?") {
        SlashCommand::Help
    } else {
        SlashCommand::Custom
    }
}

} // verus!
