//! The activity line above the prompt: the spinner and a verb while the
//! agent thinks, "Responding..." while it streams, the running tool, the
//! interrupted notice, copy mode's keys, and, when idle, a copy notice or
//! the last turn's duration fading out.

use vstd::prelude::*;
use crate::spinner::{style_frames, SpinnerStyle};
use crate::text::{cat, cat3, decimal, u64_to_decimal};

verus! {

/// What the interface is doing, with how long it has been at it.
#[derive(Debug)]
pub enum ActivityState {
    Thinking { elapsed_ms: u64 },
    Streaming { elapsed_ms: u64 },
    ToolRunning { tool_name: String, elapsed_ms: u64 },
    Interrupted,
    CopyMode,
    Selection { title: String },
    Onboarding,
    /// Idle, awaiting an approval, or showing an error.
    Quiet,
}

/// How a piece of the line is shown; the theme gives each its colour.
#[derive(Debug, Clone, Copy, PartialEq, Eq, Structural)]
pub enum ActivityRole {
    Plain,
    Thinking,
    Tool,
    Success,
    Warning,
    Muted,
    Border,
    /// Bold, in the tool colour.
    ToolBold,
    /// Bold, in the warning colour.
    WarningBold,
}

#[derive(Debug)]
pub struct ActivitySpan {
    pub role: ActivityRole,
    pub text: String,
}

pub open spec fn activity_view(v: Seq<ActivitySpan>) -> Seq<(ActivityRole, Seq<char>)> {
    v.map_values(|s: ActivitySpan| (s.role, s.text@))
}

/// The verbs shown in turn while the agent thinks.
pub open spec fn fun_verbs() -> Seq<Seq<char>> {
    seq![
        "Thinking"@,
        "Analyzing"@,
        "Reasoning"@,
        "Pondering"@,
        "Evaluating"@,
        "Examining"@,
        "Considering"@,
        "Processing"@,
        "Cogitating"@,
        "Deliberating"@,
        "Ruminating"@,
        "Musing"@,
        "Contemplating"@,
        "Percolating"@,
    ]
}

/// The verb shown `ms` milliseconds in: a new one every 2.5 seconds.
pub open spec fn verb_at(ms: u64) -> Seq<char> {
    fun_verbs()[((ms / 2500) % 14) as int]
}

/// The spinner's frame `ms` milliseconds in, and a space.
pub open spec fn spinner_at(s: SpinnerStyle, ms: u64) -> Seq<char> {
    style_frames(s)[(((ms as u128) / 120) % (style_frames(s).len() as u128)) as int] + " "@
}

/// The line for `state`. `elapsed` is the elapsed time as shown (the
/// caller formats it), `tokens` the tokens streamed, `copy_notice` a
/// notice and the whole seconds since it was given, `last_completed` the
/// last turn's past-tense verb, its duration as shown, and the whole
/// seconds since it ended.
pub open spec fn activity_spec(
    state: ActivityState,
    spinner: SpinnerStyle,
    elapsed: Seq<char>,
    tokens: u64,
    copy_notice: Option<(Seq<char>, u64)>,
    last_completed: Option<(Seq<char>, Seq<char>, u64)>,
) -> Seq<(ActivityRole, Seq<char>)> {
    let pad = (ActivityRole::Plain, "  "@);
    let stats = (ActivityRole::Muted, " ("@ + elapsed + " \u{b7} "@ + decimal(tokens as nat) + " tokens)"@);
    match state {
        ActivityState::Thinking { elapsed_ms } => seq![
            pad,
            (
                if elapsed_ms % 2000 < 1000 {
                    ActivityRole::Thinking
                } else {
                    ActivityRole::Tool
                },
                spinner_at(spinner, elapsed_ms),
            ),
            (ActivityRole::Thinking, verb_at(elapsed_ms) + "..."@),
            stats,
        ],
        ActivityState::Streaming { elapsed_ms } => seq![
            pad,
            (ActivityRole::Success, spinner_at(spinner, elapsed_ms)),
            (ActivityRole::Success, "Responding..."@),
            stats,
        ],
        ActivityState::ToolRunning { tool_name, elapsed_ms } => seq![
            pad,
            (
                if elapsed_ms % 1000 < 500 {
                    ActivityRole::Tool
                } else {
                    ActivityRole::Warning
                },
                spinner_at(spinner, elapsed_ms),
            ),
            (ActivityRole::Tool, "Running "@ + tool_name@ + "..."@),
            (ActivityRole::Muted, " ("@ + elapsed + ")"@),
        ],
        ActivityState::Interrupted => seq![
            pad,
            (ActivityRole::Warning, "\u{23fa} Interrupted"@),
            (ActivityRole::Muted, " \u{b7} What should Astrid do instead?"@),
        ],
        ActivityState::CopyMode => seq![
            pad,
            (ActivityRole::WarningBold, "COPY "@),
            (ActivityRole::ToolBold, "[Space]"@),
            (ActivityRole::Muted, " Select  "@),
            (ActivityRole::ToolBold, "[Enter]"@),
            (ActivityRole::Muted, " Copy  "@),
            (ActivityRole::ToolBold, "[Ctrl+A]"@),
            (ActivityRole::Muted, " All  "@),
            (ActivityRole::ToolBold, "[Esc]"@),
            (ActivityRole::Muted, " Cancel"@),
        ],
        ActivityState::Selection { title } => seq![
            pad,
            (ActivityRole::ToolBold, "\u{25b8} "@ + title@),
            (ActivityRole::Muted, " \u{b7} \u{2191}\u{2193} Navigate  Enter Select  Esc Cancel"@),
        ],
        ActivityState::Onboarding => seq![
            pad,
            (ActivityRole::ToolBold, "\u{2699} Configuration Required"@),
            (ActivityRole::Muted, " \u{b7} Please provide the required environment variables below."@),
        ],
        ActivityState::Quiet => match copy_notice {
            Some((notice, since)) if since < 3 => seq![
                pad,
                (
                    if since < 2 {
                        ActivityRole::Success
                    } else {
                        ActivityRole::Muted
                    },
                    notice,
                ),
            ],
            _ => match last_completed {
                Some((verb, duration, since)) if since < 8 => seq![
                    pad,
                    (
                        if since < 4 {
                            ActivityRole::Muted
                        } else {
                            ActivityRole::Border
                        },
                        verb + " for "@ + duration,
                    ),
                ],
                _ => Seq::empty(),
            },
        },
    }
}

fn piece(role: ActivityRole, text: String) -> (r: ActivitySpan)
    ensures
        r.role == role,
        r.text@ == text@,
{
    ActivitySpan { role, text }
}

fn text(s: &str) -> (r: String)
    ensures
        r@ == s@,
{
    String::from_str(s)
}

fn verb_exec(ms: u64) -> (r: &'static str)
    ensures
        r@ == verb_at(ms),
{
    let verbs: &'static [&'static str] = &[
        "Thinking",
        "Analyzing",
        "Reasoning",
        "Pondering",
        "Evaluating",
        "Examining",
        "Considering",
        "Processing",
        "Cogitating",
        "Deliberating",
        "Ruminating",
        "Musing",
        "Contemplating",
        "Percolating",
    ];
    assert(verbs@.map_values(|s: &str| s@) =~= fun_verbs());
    let i = ((ms / 2500) % 14) as usize;
    assert(verbs@[i as int]@ == verbs@.map_values(|s: &str| s@)[i as int]);
    verbs[i]
}

fn spinner_exec(s: SpinnerStyle, ms: u64) -> (r: String)
    ensures
        r@ == spinner_at(s, ms),
{
    let f = s.frame_at(ms as u128);
    cat(f, " ")
}

fn stats_exec(elapsed: &str, tokens: u64) -> (r: String)
    ensures
        r@ == " ("@ + elapsed@ + " \u{b7} "@ + decimal(tokens as nat) + " tokens)"@,
{
    let t = u64_to_decimal(tokens);
    let a = cat3(" (", elapsed, " \u{b7} ");
    cat3(a.as_str(), t.as_str(), " tokens)")
}

/// The activity line; see [`activity_spec`].
pub fn activity_line(
    state: &ActivityState,
    spinner: SpinnerStyle,
    elapsed: &str,
    tokens: u64,
    copy_notice: Option<(&str, u64)>,
    last_completed: Option<(&str, &str, u64)>,
) -> (r: Vec<ActivitySpan>)
    ensures
        activity_view(r@) == activity_spec(
            *state,
            spinner,
            elapsed@,
            tokens,
            match copy_notice {
                Some((n, s)) => Some((n@, s)),
                None => None,
            },
            match last_completed {
                Some((v, d, s)) => Some((v@, d@, s)),
                None => None,
            },
        ),
{
    let ghost cn = match copy_notice {
        Some((n, s)) => Some((n@, s)),
        None => None,
    };
    let ghost lc = match last_completed {
        Some((v, d, s)) => Some((v@, d@, s)),
        None => None,
    };
    let mut v: Vec<ActivitySpan> = Vec::new();
    match state {
        ActivityState::Thinking { elapsed_ms } => {
            let ms = *elapsed_ms;
            v.push(piece(ActivityRole::Plain, text("  ")));
            let role = if ms % 2000 < 1000 {
                ActivityRole::Thinking
            } else {
                ActivityRole::Tool
            };
            v.push(piece(role, spinner_exec(spinner, ms)));
            v.push(piece(ActivityRole::Thinking, cat(verb_exec(ms), "...")));
            v.push(piece(ActivityRole::Muted, stats_exec(elapsed, tokens)));
        },
        ActivityState::Streaming { elapsed_ms } => {
            v.push(piece(ActivityRole::Plain, text("  ")));
            v.push(piece(ActivityRole::Success, spinner_exec(spinner, *elapsed_ms)));
            v.push(piece(ActivityRole::Success, text("Responding...")));
            v.push(piece(ActivityRole::Muted, stats_exec(elapsed, tokens)));
        },
        ActivityState::ToolRunning { tool_name, elapsed_ms } => {
            let ms = *elapsed_ms;
            v.push(piece(ActivityRole::Plain, text("  ")));
            let role = if ms % 1000 < 500 {
                ActivityRole::Tool
            } else {
                ActivityRole::Warning
            };
            v.push(piece(role, spinner_exec(spinner, ms)));
            v.push(piece(ActivityRole::Tool, cat3("Running ", tool_name.as_str(), "...")));
            v.push(piece(ActivityRole::Muted, cat3(" (", elapsed, ")")));
        },
        ActivityState::Interrupted => {
            v.push(piece(ActivityRole::Plain, text("  ")));
            v.push(piece(ActivityRole::Warning, text("\u{23fa} Interrupted")));
            v.push(piece(ActivityRole::Muted, text(" \u{b7} What should Astrid do instead?")));
        },
        ActivityState::CopyMode => {
            v.push(piece(ActivityRole::Plain, text("  ")));
            v.push(piece(ActivityRole::WarningBold, text("COPY ")));
            v.push(piece(ActivityRole::ToolBold, text("[Space]")));
            v.push(piece(ActivityRole::Muted, text(" Select  ")));
            v.push(piece(ActivityRole::ToolBold, text("[Enter]")));
            v.push(piece(ActivityRole::Muted, text(" Copy  ")));
            v.push(piece(ActivityRole::ToolBold, text("[Ctrl+A]")));
            v.push(piece(ActivityRole::Muted, text(" All  ")));
            v.push(piece(ActivityRole::ToolBold, text("[Esc]")));
            v.push(piece(ActivityRole::Muted, text(" Cancel")));
        },
        ActivityState::Selection { title } => {
            v.push(piece(ActivityRole::Plain, text("  ")));
            v.push(piece(ActivityRole::ToolBold, cat("\u{25b8} ", title.as_str())));
            v.push(piece(ActivityRole::Muted, text(" \u{b7} \u{2191}\u{2193} Navigate  Enter Select  Esc Cancel")));
        },
        ActivityState::Onboarding => {
            v.push(piece(ActivityRole::Plain, text("  ")));
            v.push(piece(ActivityRole::ToolBold, text("\u{2699} Configuration Required")));
            v.push(
                piece(ActivityRole::Muted, text(" \u{b7} Please provide the required environment variables below.")),
            );
        },
        ActivityState::Quiet => {
            let mut shown = false;
            match copy_notice {
                Some((notice, since)) => {
                    if since < 3 {
                        v.push(piece(ActivityRole::Plain, text("  ")));
                        let role = if since < 2 {
                            ActivityRole::Success
                        } else {
                            ActivityRole::Muted
                        };
                        v.push(piece(role, text(notice)));
                        shown = true;
                    }
                },
                None => {},
            }
            if !shown {
                match last_completed {
                    Some((verb, duration, since)) => {
                        if since < 8 {
                            v.push(piece(ActivityRole::Plain, text("  ")));
                            let role = if since < 4 {
                                ActivityRole::Muted
                            } else {
                                ActivityRole::Border
                            };
                            v.push(piece(role, cat3(verb, " for ", duration)));
                        }
                    },
                    None => {},
                }
            }
        },
    }
    assert(activity_view(v@) =~= activity_spec(*state, spinner, elapsed@, tokens, cn, lc));
    v
}

} // verus!
