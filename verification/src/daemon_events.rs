//! What the terminal UI makes of the daemon's messages: streamed answer
//! text, the slash commands the capsules offer, the model registry's
//! replies. Each function takes the message's contents as plain values.

use vstd::prelude::*;
use crate::command_palette::SlashCommandDef;
use crate::approval_keys::{SelectionMenu, SelectionOption};
use crate::text::{cat, cat3, chars_eq, str_to_chars};

verus! {

/// The answer being streamed: whether the UI shows it as streaming, and
/// the text received so far.
#[derive(Debug)]
pub struct StreamState {
    /// The UI is in the streaming state.
    pub streaming: bool,
    /// The text received and not yet shown as a message.
    pub buffer: String,
}

/// What a piece of streamed answer leaves for the caller.
#[derive(Debug, PartialEq, Eq)]
pub struct StreamOutcome {
    /// An assistant message to add to the timeline.
    pub message: Option<String>,
    /// The answer is complete: the UI goes back to idle and scrolls to the
    /// bottom.
    pub done: bool,
}

impl StreamState {
    /// Nothing streamed.
    pub fn new() -> (r: Self)
        ensures
            !r.streaming,
            r.buffer@.len() == 0,
    {
        StreamState { streaming: false, buffer: String::new() }
    }

    /// A piece `text` of the answer arrives, the last one when `is_final`.
    /// Non-empty text switches the UI to streaming; the text is added to
    /// the buffer; the last piece turns the buffer, when not empty, into
    /// an assistant message and ends the stream.
    pub fn receive(&mut self, text: &str, is_final: bool) -> (r: StreamOutcome)
        ensures
            is_final ==> !final(self).streaming && final(self).buffer@.len() == 0 && r.done,
            is_final ==> match r.message {
                Some(m) => m@ == old(self).buffer@ + text@ && m@.len() > 0,
                None => (old(self).buffer@ + text@).len() == 0,
            },
            !is_final ==> {
                &&& final(self).streaming == (old(self).streaming || text@.len() > 0)
                &&& final(self).buffer@ == old(self).buffer@ + text@
                &&& r.message is None
                &&& !r.done
            },
    {
        if text.unicode_len() > 0 && !self.streaming {
            self.streaming = true;
        }
        self.buffer.append(text);
        if is_final {
            let message = if self.buffer.unicode_len() > 0 {
                let m = self.buffer.clone();
                self.buffer = String::new();
                Some(m)
            } else {
                None
            };
            self.streaming = false;
            StreamOutcome { message, done: true }
        } else {
            StreamOutcome { message: None, done: false }
        }
    }
}

/// The built-in slash commands, name and description.
pub open spec fn base_commands() -> Seq<(Seq<char>, Seq<char>)> {
    seq![
        ("/help"@, "Show available commands"@),
        ("/clear"@, "Clear conversation history"@),
        ("/install"@, "Install a capsule from a path or registry"@),
        ("/refresh"@, "Reload all installed capsules into the OS"@),
        ("/quit"@, "Disconnect from the daemon"@),
    ]
}

/// A capsule's command as the palette lists it: `/name`, and the
/// description followed by `(via capsule)`.
pub open spec fn capsule_command(name: Seq<char>, description: Seq<char>, capsule: Seq<char>) -> (
    Seq<char>,
    Seq<char>,
) {
    ("/"@ + name, description + " (via "@ + capsule + ")"@)
}

/// The palette's commands as name and description.
pub open spec fn command_pairs(cmds: Seq<SlashCommandDef>) -> Seq<(Seq<char>, Seq<char>)> {
    cmds.map_values(|c: SlashCommandDef| (c.name@, c.description@))
}

fn command(name: &str, description: &str) -> (r: SlashCommandDef)
    ensures
        r.name@ == name@,
        r.description@ == description@,
{
    SlashCommandDef { name: String::from_str(name), description: String::from_str(description) }
}

/// The built-in slash commands.
pub fn base_slash_commands() -> (r: Vec<SlashCommandDef>)
    ensures
        command_pairs(r@) == base_commands(),
{
    let mut v: Vec<SlashCommandDef> = Vec::new();
    v.push(command("/help", "Show available commands"));
    v.push(command("/clear", "Clear conversation history"));
    v.push(command("/install", "Install a capsule from a path or registry"));
    v.push(command("/refresh", "Reload all installed capsules into the OS"));
    v.push(command("/quit", "Disconnect from the daemon"));
    assert(command_pairs(v@) =~= base_commands());
    v
}

/// A command a capsule offers: its name, what it does, and the capsule.
#[derive(Debug)]
pub struct CapsuleCommand {
    /// The command's name, without `/`.
    pub name: String,
    /// What it does.
    pub description: String,
    /// The capsule providing it.
    pub provider_capsule: String,
}

/// The palette after the kernel lists the capsules' commands: the
/// built-in commands, then each capsule command in the kernel's order.
pub fn palette_with_capsule_commands(cmds: &[CapsuleCommand]) -> (r: Vec<SlashCommandDef>)
    ensures
        command_pairs(r@) == base_commands() + cmds@.map_values(
            |c: CapsuleCommand| capsule_command(c.name@, c.description@, c.provider_capsule@),
        ),
{
    proof {
        reveal_strlit("/");
        reveal_strlit(" (via ");
        reveal_strlit(")");
    }
    let mut out = base_slash_commands();
    let ghost spec_cmds = cmds@.map_values(
        |c: CapsuleCommand| capsule_command(c.name@, c.description@, c.provider_capsule@),
    );
    let mut i: usize = 0;
    while i < cmds.len()
        invariant
            i <= cmds@.len(),
            spec_cmds == cmds@.map_values(
                |c: CapsuleCommand| capsule_command(c.name@, c.description@, c.provider_capsule@),
            ),
            command_pairs(out@) == base_commands() + spec_cmds.take(i as int),
        decreases cmds@.len() - i,
    {
        let c = &cmds[i];
        let name = cat("/", c.name.as_str());
        let mut description = cat3(c.description.as_str(), " (via ", c.provider_capsule.as_str());
        description.append(")");
        let ghost before = out@;
        out.push(SlashCommandDef { name, description });
        proof {
            assert(command_pairs(out@) =~= command_pairs(before).push(spec_cmds[i as int]));
            assert(spec_cmds.take(i + 1) =~= spec_cmds.take(i as int).push(spec_cmds[i as int]));
        }
        i = i + 1;
    }
    assert(spec_cmds.take(i as int) =~= spec_cmds);
    out
}

/// A model provider as the registry lists it; missing fields are `None`.
#[derive(Debug)]
pub struct ProviderEntry {
    /// The model id.
    pub id: Option<String>,
    /// What it is.
    pub description: Option<String>,
    /// The capsule serving it.
    pub capsule: Option<String>,
}

/// A string, or `fallback` when there is none.
pub open spec fn or_default(s: Option<String>, fallback: Seq<char>) -> Seq<char> {
    match s {
        Some(x) => x@,
        None => fallback,
    }
}

/// A provider's line: `  - {id} — {description} (via {capsule})`, with
/// `?` for a missing id or capsule and nothing for a missing description.
pub open spec fn provider_line(p: ProviderEntry) -> Seq<char> {
    "  - "@ + or_default(p.id, "?"@) + " — "@ + or_default(p.description, Seq::empty()) + " (via "@
        + or_default(p.capsule, "?"@) + ")\n"@
}

/// The lines of the first `k` providers.
pub open spec fn provider_lines(ps: Seq<ProviderEntry>, k: nat) -> Seq<char>
    decreases k,
{
    if k == 0 || k > ps.len() {
        Seq::empty()
    } else {
        provider_lines(ps, (k - 1) as nat) + provider_line(ps[k - 1])
    }
}

fn text_or<'a>(s: &'a Option<String>, fallback: &'a str) -> (r: &'a str)
    ensures
        r@ == or_default(*s, fallback@),
{
    match s {
        Some(x) => x.as_str(),
        None => fallback,
    }
}

/// The model listing shown for the registry's providers: a title, a line
/// per provider, and how to switch. An empty registry gives no listing
/// (the UI says that no providers are loaded).
pub fn models_listing(providers: &[ProviderEntry]) -> (r: Option<String>)
    ensures
        providers@.len() == 0 ==> r is None,
        providers@.len() > 0 ==> (r matches Some(t) && t@ == "Available Models:\n"@ + provider_lines(
            providers@,
            providers@.len(),
        ) + "\nUse /models <model_id> to switch."@),
{
    proof {
        reveal_strlit("Available Models:\n");
        reveal_strlit("\nUse /models <model_id> to switch.");
        reveal_strlit("  - ");
        reveal_strlit(" — ");
        reveal_strlit(" (via ");
        reveal_strlit(")\n");
        reveal_strlit("?");
    }
    if providers.len() == 0 {
        return None;
    }
    let mut text = String::from_str("Available Models:\n");
    let mut i: usize = 0;
    while i < providers.len()
        invariant
            i <= providers@.len(),
            text@ == "Available Models:\n"@ + provider_lines(providers@, i as nat),
        decreases providers@.len() - i,
    {
        let p = &providers[i];
        let ghost before = text@;
        let id = text_or(&p.id, "?");
        let capsule = text_or(&p.capsule, "?");
        text.append("  - ");
        text.append(id);
        text.append(" — ");
        match &p.description {
            Some(d) => text.append(d.as_str()),
            None => {},
        }
        text.append(" (via ");
        text.append(capsule);
        text.append(")\n");
        proof {
            assert(*p == providers@[i as int]);
            assert(id@ == or_default(providers@[i as int].id, "?"@));
        }
        proof {
            assert(text@ =~= before + provider_line(providers@[i as int]));
            assert(provider_lines(providers@, (i + 1) as nat) == provider_lines(providers@, i as nat)
                + provider_line(providers@[i as int]));
            assert(text@ =~= "Available Models:\n"@ + provider_lines(providers@, (i + 1) as nat));
        }
        i = i + 1;
    }
    text.append("\nUse /models <model_id> to switch.");
    Some(text)
}

/// The registry's answer to a model switch: with the new model's id, a
/// notice and the model to show; else with an error, a notice of the
/// failure; else nothing.
pub fn active_model_reply(model: Option<&str>, error: Option<&str>) -> (r: (Option<String>, Option<String>))
    ensures
        model matches Some(m) ==> (r.0 matches Some(n) && n@ == "Active model set to: "@ + m@) && (r.1 matches Some(
            x,
        ) && x@ == m@),
        model is None ==> r.1 is None && match error {
            Some(e) => (r.0 matches Some(n) && n@ == "Failed to set model: "@ + e@),
            None => r.0 is None,
        },
{
    match model {
        Some(m) => (Some(cat("Active model set to: ", m)), Some(String::from_str(m))),
        None => match error {
            Some(e) => (Some(cat("Failed to set model: ", e)), None),
            None => (None, None),
        },
    }
}


/// A capsule's request for a selection: a menu on its first option, or,
/// when it offers none, the notice shown instead.
pub fn begin_selection(options: Vec<SelectionOption>, callback_topic: String, request_id: String) -> (r: Result<
    SelectionMenu,
    String,
>)
    ensures
        options@.len() == 0 ==> (r matches Err(m) && m@ == "No options available."@),
        options@.len() > 0 ==> (r matches Ok(menu) && menu.options@ == options@ && menu.selected == 0
            && menu.scroll_offset == 0 && menu.callback_topic@ == callback_topic@ && menu.request_id@
            == request_id@),
{
    if options.len() == 0 {
        Err(String::from_str("No options available."))
    } else {
        Ok(SelectionMenu { options, selected: 0, scroll_offset: 0, callback_topic, request_id })
    }
}

/// Whether a message on `topic` has the palette's commands fetched again:
/// the kernel announcing that it has loaded all capsules.
pub fn refreshes_commands(topic: &str) -> (r: bool)
    ensures
        r == (topic@ == "astrid.v1.capsules_loaded"@),
{
    let want = str_to_chars("astrid.v1.capsules_loaded");
    chars_eq(&str_to_chars(topic), &want)
}

/// The model a message on `topic` switches the status line to: the `id`
/// it carries, when it announces that the active model changed.
pub fn changed_model(topic: &str, id: Option<&str>) -> (r: Option<String>)
    ensures
        (topic@ == "registry.v1.active_model_changed"@ && id is Some) ==> (r matches Some(m) && m@
            == id.unwrap()@),
        !(topic@ == "registry.v1.active_model_changed"@ && id is Some) ==> r is None,
{
    let want = str_to_chars("registry.v1.active_model_changed");
    if chars_eq(&str_to_chars(topic), &want) {
        match id {
            Some(m) => Some(String::from_str(m)),
            None => None,
        }
    } else {
        None
    }
}

} // verus!
