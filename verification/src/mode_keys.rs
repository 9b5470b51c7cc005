//! Keys in the terminal UI's other modes: copy mode, where timeline
//! entries are picked and copied as text; the interrupted state after a
//! cancelled turn; and the error state.

use std::collections::HashSet;
use vstd::prelude::*;
use crate::command_palette::{sat_add, sat_sub};
use crate::daemon_events::StreamState;
use crate::idle_keys::{IdleInput, Key, CONTROL, SHIFT};
use crate::input_buffer::{after_insert_char, cursor_ok};
use crate::text::{cat, str_to_chars};

verus! {

broadcast use vstd::std_specs::hash::group_hash_axioms;

/// Who wrote a timeline message.
#[derive(Debug, Clone, Copy, PartialEq, Eq, Structural)]
pub enum MessageRole {
    /// The user.
    User,
    /// The assistant.
    Assistant,
    /// The UI itself.
    LocalUi,
}

/// Special message kinds, styled apart when shown.
#[derive(Debug, Clone, Copy, PartialEq, Eq, Structural)]
pub enum MessageKind {
    /// First line of a diff.
    DiffHeader,
    /// A removed diff line.
    DiffRemoved,
    /// An added diff line.
    DiffAdded,
    /// Last line of a diff.
    DiffFooter,
    /// A tool's result, shown inline: the position of the tool among the
    /// finished tools.
    ToolResult(usize),
}

/// A message of the timeline, as copy mode reads it.
#[derive(Debug)]
pub struct TimelineMessage {
    /// Who wrote it.
    pub role: MessageRole,
    /// Its text.
    pub content: String,
    /// Its special kind, if any.
    pub kind: Option<MessageKind>,
}

/// A finished tool call, as copy mode reads it.
#[derive(Debug)]
pub struct ToolRecord {
    /// The tool's name.
    pub name: String,
    /// The argument shown beside the name; may be empty.
    pub display_arg: String,
    /// What the tool printed, if anything.
    pub output: Option<String>,
}

/// A tool's header: its name, with the shown argument in parentheses
/// when there is one.
pub open spec fn tool_header(t: ToolRecord) -> Seq<char> {
    if t.display_arg@.len() == 0 {
        t.name@
    } else {
        t.name@ + "("@ + t.display_arg@ + ")"@
    }
}

/// A tool's text: its header, and its output on the next line.
pub open spec fn tool_text(t: ToolRecord) -> Seq<char> {
    match t.output {
        Some(o) => tool_header(t) + "\n"@ + o@,
        None => tool_header(t),
    }
}

/// The text copied for a message: the tool's text for a tool result
/// (nothing when the tool is unknown), `> ` and the text for the user's
/// messages, the text itself for the others.
pub open spec fn entry_text(m: TimelineMessage, tools: Seq<ToolRecord>) -> Option<Seq<char>> {
    match m.kind {
        Some(MessageKind::ToolResult(t)) => if t < tools.len() {
            Some(tool_text(tools[t as int]))
        } else {
            None
        },
        _ => match m.role {
            MessageRole::User => Some("> "@ + m.content@),
            _ => Some(m.content@),
        },
    }
}

/// The texts of the selected entries among the first `k`, in timeline
/// order.
pub open spec fn selected_parts(
    entries: Seq<TimelineMessage>,
    tools: Seq<ToolRecord>,
    selected: Set<usize>,
    k: nat,
) -> Seq<Seq<char>>
    decreases k,
{
    if k == 0 {
        Seq::empty()
    } else {
        let prev = selected_parts(entries, tools, selected, (k - 1) as nat);
        let i = (k - 1) as int;
        if i < entries.len() && selected.contains(i as usize) && entry_text(entries[i], tools) is Some {
            prev.push(entry_text(entries[i], tools)->0)
        } else {
            prev
        }
    }
}

/// The texts copy mode copies: those of the selected entries in timeline
/// order, or, with nothing selected, that of the entry under the cursor.
pub open spec fn copy_parts(
    entries: Seq<TimelineMessage>,
    tools: Seq<ToolRecord>,
    selected: Set<usize>,
    cursor: usize,
) -> Seq<Seq<char>> {
    if selected.is_empty() {
        if cursor < entries.len() && entry_text(entries[cursor as int], tools) is Some {
            seq![entry_text(entries[cursor as int], tools)->0]
        } else {
            Seq::empty()
        }
    } else {
        selected_parts(entries, tools, selected, entries.len())
    }
}

/// `parts` joined with `sep` between them.
pub open spec fn joined_with(parts: Seq<Seq<char>>, sep: Seq<char>) -> Seq<char>
    decreases parts.len(),
{
    if parts.len() == 0 {
        Seq::empty()
    } else if parts.len() == 1 {
        parts[0]
    } else {
        joined_with(parts.drop_last(), sep) + sep + parts.last()
    }
}

/// The text copy mode copies: the copied texts separated by blank lines.
pub open spec fn copy_text(
    entries: Seq<TimelineMessage>,
    tools: Seq<ToolRecord>,
    selected: Set<usize>,
    cursor: usize,
) -> Seq<char> {
    joined_with(copy_parts(entries, tools, selected, cursor), "\n\n"@)
}

/// `selected` with `i` dropped when it is picked, added when it is not.
pub open spec fn toggled(selected: Set<usize>, i: usize) -> Set<usize> {
    if selected.contains(i) {
        selected.remove(i)
    } else {
        selected.insert(i)
    }
}

/// Picking an entry twice leaves the picks as they were.
pub proof fn law_toggle_twice_restores(selected: Set<usize>, i: usize)
    ensures
        toggled(toggled(selected, i), i) == selected,
{
    assert(toggled(toggled(selected, i), i) =~= selected);
}

/// The text copied for one message.
fn message_text(m: &TimelineMessage, tools: &[ToolRecord]) -> (r: Option<String>)
    ensures
        match r {
            Some(s) => entry_text(*m, tools@) == Some(s@),
            None => entry_text(*m, tools@) is None,
        },
{
    proof {
        reveal_strlit("(");
        reveal_strlit(")");
        reveal_strlit("\n");
        reveal_strlit("> ");
    }
    let tool_index: Option<usize> = match &m.kind {
        Some(MessageKind::ToolResult(t)) => Some(*t),
        _ => None,
    };
    match tool_index {
        Some(t) => {
            if t < tools.len() {
                let tool = &tools[t];
                let mut s = String::from_str(tool.name.as_str());
                if str_to_chars(tool.display_arg.as_str()).len() != 0 {
                    s.append("(");
                    s.append(tool.display_arg.as_str());
                    s.append(")");
                }
                match &tool.output {
                    Some(o) => {
                        s.append("\n");
                        s.append(o.as_str());
                    },
                    None => {},
                }
                Some(s)
            } else {
                None
            }
        },
        None => match m.role {
            MessageRole::User => Some(cat("> ", m.content.as_str())),
            _ => Some(m.content.clone()),
        },
    }
}

/// What a key in copy mode leaves for the caller.
#[derive(Debug, PartialEq, Eq)]
pub enum CopyEffect {
    /// Nothing.
    Nothing,
    /// Put this text on the clipboard; copy mode has ended.
    CopyAndExit(String),
    /// Copy mode has ended.
    Exit,
}

/// Copy mode's state: whether it is on, the entry under the cursor, and
/// the picked entries.
#[derive(Debug)]
pub struct CopyMode {
    /// Copy mode is on.
    pub active: bool,
    /// The entry under the cursor.
    pub cursor: usize,
    /// The picked entries.
    pub selected: HashSet<usize>,
}

impl CopyMode {
    /// The picked entries, as a set.
    pub open spec fn selection(&self) -> Set<usize> {
        self.selected@
    }

    /// Copy mode off, nothing picked.
    pub fn new() -> (r: Self)
        ensures
            !r.active,
            r.cursor == 0,
            r.selection() == Set::<usize>::empty(),
    {
        CopyMode { active: false, cursor: 0, selected: HashSet::new() }
    }

    /// Whether entry `i` is picked.
    pub fn is_selected(&self, i: usize) -> (r: bool)
        ensures
            r == self.selection().contains(i),
    {
        self.selected.contains(&i)
    }

    /// Turns copy mode on over a timeline of `entry_count` entries, with
    /// the cursor on the last entry and nothing picked. An empty timeline
    /// leaves everything as it was. Returns whether copy mode was entered.
    pub fn enter(&mut self, entry_count: usize) -> (entered: bool)
        ensures
            entered == (entry_count > 0),
            entered ==> final(self).active && final(self).cursor == entry_count - 1
                && final(self).selection() == Set::<usize>::empty(),
            !entered ==> final(self).active == old(self).active && final(self).cursor == old(self).cursor
                && final(self).selection() == old(self).selection(),
    {
        if entry_count == 0 {
            return false;
        }
        self.cursor = entry_count - 1;
        self.selected.clear();
        self.active = true;
        true
    }

    /// Turns copy mode off and drops the picks.
    pub fn exit(&mut self)
        ensures
            !final(self).active,
            final(self).cursor == old(self).cursor,
            final(self).selection() == Set::<usize>::empty(),
    {
        self.selected.clear();
        self.active = false;
    }

    /// Picks the entry under the cursor, or drops it when it is picked.
    pub fn toggle(&mut self)
        ensures
            final(self).selection() == toggled(old(self).selection(), old(self).cursor),
            final(self).cursor == old(self).cursor,
            final(self).active == old(self).active,
    {
        let c = self.cursor;
        if !self.selected.remove(&c) {
            self.selected.insert(c);
        }
    }

    /// Picks every entry of a timeline of `entry_count` entries.
    pub fn select_all(&mut self, entry_count: usize)
        ensures
            final(self).selection() == old(self).selection().union(
                Set::new(|i: usize| i < entry_count),
            ),
            final(self).cursor == old(self).cursor,
            final(self).active == old(self).active,
    {
        let mut i: usize = 0;
        while i < entry_count
            invariant
                i <= entry_count,
                self.selected@ == old(self).selected@.union(Set::new(|j: usize| j < i)),
                self.cursor == old(self).cursor,
                self.active == old(self).active,
            decreases entry_count - i,
        {
            self.selected.insert(i);
            i = i + 1;
            assert(self.selected@ =~= old(self).selected@.union(Set::new(|j: usize| j < i)));
        }
        assert(self.selected@ =~= old(self).selected@.union(Set::new(|j: usize| j < entry_count)));
    }

    /// The text to copy: the picked entries' texts in timeline order, or
    /// with nothing picked the text of the entry under the cursor,
    /// separated by blank lines.
    pub fn collect_copy_text(&self, entries: &[TimelineMessage], tools: &[ToolRecord]) -> (r: String)
        ensures
            r@ == copy_text(entries@, tools@, self.selection(), self.cursor),
    {
        proof {
            reveal_strlit("\n\n");
        }
        let n = entries.len();
        if self.selected.is_empty() {
            if self.cursor < n {
                match message_text(&entries[self.cursor], tools) {
                    Some(s) => {
                        proof {
                            let parts = copy_parts(entries@, tools@, self.selection(), self.cursor);
                            assert(parts.len() == 1);
                        }
                        return s;
                    },
                    None => {},
                }
            }
            return String::new();
        }
        let mut out = String::new();
        let mut any = false;
        let mut i: usize = 0;
        while i < n
            invariant
                i <= n,
                n == entries@.len(),
                any == (selected_parts(entries@, tools@, self.selected@, i as nat).len() > 0),
                out@ == joined_with(selected_parts(entries@, tools@, self.selected@, i as nat), "\n\n"@),
            decreases n - i,
        {
            let ghost prev = selected_parts(entries@, tools@, self.selected@, i as nat);
            if self.selected.contains(&i) {
                match message_text(&entries[i], tools) {
                    Some(s) => {
                        proof {
                            let next = selected_parts(entries@, tools@, self.selected@, (i + 1) as nat);
                            assert(next == prev.push(s@));
                            assert(next.drop_last() =~= prev);
                        }
                        if any {
                            out.append("\n\n");
                        }
                        out.append(s.as_str());
                        any = true;
                    },
                    None => {},
                }
            }
            i = i + 1;
        }
        out
    }

    /// What a key does in copy mode over the timeline `entries`: the
    /// arrows move the cursor by one and the page keys by five, staying on
    /// the timeline; Space picks or drops the entry under the cursor;
    /// Ctrl+A picks every entry; Enter copies and leaves; Esc and Ctrl+C
    /// leave.
    pub fn handle_key(&mut self, key: Key, mods: u8, entries: &[TimelineMessage], tools: &[ToolRecord]) -> (r:
        CopyEffect)
        ensures
            key is Up ==> r == CopyEffect::Nothing && final(self).cursor == sat_sub(old(self).cursor as int, 1)
                && final(self).selection() == old(self).selection() && final(self).active == old(self).active,
            key is Down ==> r == CopyEffect::Nothing && final(self).cursor == (if old(self).cursor + 1
                < entries@.len() {
                old(self).cursor + 1
            } else {
                old(self).cursor as int
            }) && final(self).selection() == old(self).selection() && final(self).active == old(self).active,
            key is PageUp ==> r == CopyEffect::Nothing && final(self).cursor == sat_sub(old(self).cursor as int, 5)
                && final(self).selection() == old(self).selection() && final(self).active == old(self).active,
            key is PageDown ==> r == CopyEffect::Nothing && final(self).cursor == (if sat_add(
                old(self).cursor as int,
                5,
            ) < sat_sub(entries@.len() as int, 1) {
                sat_add(old(self).cursor as int, 5)
            } else {
                sat_sub(entries@.len() as int, 1)
            }) && final(self).selection() == old(self).selection() && final(self).active == old(self).active,
            key == Key::Char(' ') ==> r == CopyEffect::Nothing && final(self).cursor == old(self).cursor
                && final(self).active == old(self).active && final(self).selection() == toggled(
                old(self).selection(),
                old(self).cursor,
            ),
            key == Key::Char('a') && mods == CONTROL ==> r == CopyEffect::Nothing && final(self).cursor == old(
                self,
            ).cursor && final(self).active == old(self).active && final(self).selection() == old(
                self,
            ).selection().union(Set::new(|i: usize| i < entries@.len())),
            key is Enter ==> (r matches CopyEffect::CopyAndExit(t) && t@ == copy_text(
                entries@,
                tools@,
                old(self).selection(),
                old(self).cursor,
            )) && !final(self).active && final(self).cursor == old(self).cursor && final(self).selection()
                == Set::<usize>::empty(),
            (key is Esc || (key == Key::Char('c') && mods == CONTROL)) ==> r == CopyEffect::Exit
                && !final(self).active && final(self).cursor == old(self).cursor && final(self).selection()
                == Set::<usize>::empty(),
            !(key is Up || key is Down || key is PageUp || key is PageDown || key is Enter || key is Esc || key
                == Key::Char(' ') || (key == Key::Char('a') && mods == CONTROL) || (key == Key::Char('c')
                && mods == CONTROL)) ==> r == CopyEffect::Nothing && final(self).cursor == old(self).cursor
                && final(self).active == old(self).active && final(self).selection() == old(self).selection(),
    {
        let n = entries.len();
        if key == Key::Up {
            self.cursor = if self.cursor > 0 {
                self.cursor - 1
            } else {
                0
            };
            CopyEffect::Nothing
        } else if key == Key::Down {
            if self.cursor < usize::MAX && self.cursor + 1 < n {
                self.cursor = self.cursor + 1;
            }
            CopyEffect::Nothing
        } else if key == Key::PageUp {
            self.cursor = if self.cursor >= 5 {
                self.cursor - 5
            } else {
                0
            };
            CopyEffect::Nothing
        } else if key == Key::PageDown {
            let ahead = self.cursor.saturating_add(5);
            let last = if n > 0 {
                n - 1
            } else {
                0
            };
            self.cursor = if ahead < last {
                ahead
            } else {
                last
            };
            CopyEffect::Nothing
        } else if key == Key::Char(' ') {
            self.toggle();
            CopyEffect::Nothing
        } else if key == Key::Char('a') && mods == CONTROL {
            self.select_all(n);
            CopyEffect::Nothing
        } else if key == Key::Enter {
            let text = self.collect_copy_text(entries, tools);
            self.exit();
            CopyEffect::CopyAndExit(text)
        } else if key == Key::Esc || (key == Key::Char('c') && mods == CONTROL) {
            self.exit();
            CopyEffect::Exit
        } else {
            CopyEffect::Nothing
        }
    }
}

/// What a key does after a turn was interrupted. A first Ctrl+C or
/// Ctrl+D arms quitting and a second one quits, the UI staying
/// interrupted. Any other key returns to the idle state and disarms
/// quitting; a character typed without modifiers other than Shift also
/// goes into the prompt. Returns whether the UI goes back to idle.
pub fn handle_interrupted_key(st: &mut IdleInput, key: Key, mods: u8) -> (back_to_idle: bool)
    requires
        cursor_ok(old(st).input_buf.segs(), old(st).input_buf.cur()),
    ensures
        cursor_ok(final(st).input_buf.segs(), final(st).input_buf.cur()),
        final(st).scroll_offset == old(st).scroll_offset,
        final(st).palette_selected == old(st).palette_selected,
        final(st).palette_scroll_offset == old(st).palette_scroll_offset,
        if (key == Key::Char('c') || key == Key::Char('d')) && mods == CONTROL {
            &&& !back_to_idle
            &&& final(st).quit_pending
            &&& final(st).should_quit == (old(st).quit_pending || old(st).should_quit)
            &&& final(st).input_buf == old(st).input_buf
        } else {
            &&& back_to_idle
            &&& !final(st).quit_pending
            &&& final(st).should_quit == old(st).should_quit
            &&& if key is Char && (mods == 0 || mods == SHIFT) {
                (final(st).input_buf.segs(), final(st).input_buf.cur()) == after_insert_char(
                    old(st).input_buf.segs(),
                    old(st).input_buf.cur(),
                    key->Char_0,
                )
            } else {
                final(st).input_buf == old(st).input_buf
            }
        },
{
    if (key == Key::Char('c') || key == Key::Char('d')) && mods == CONTROL {
        if st.quit_pending {
            st.should_quit = true;
        } else {
            st.quit_pending = true;
        }
        return false;
    }
    match key {
        Key::Char(c) => {
            if mods == 0 || mods == SHIFT {
                st.input_buf.insert_char(c);
            }
        },
        _ => {},
    }
    st.quit_pending = false;
    true
}

/// What a key does while an error is shown: Enter and Esc dismiss it,
/// Ctrl+C quits. Returns whether the error is dismissed and whether the
/// UI is to quit.
pub fn handle_error_key(key: Key, mods: u8) -> (r: (bool, bool))
    ensures
        r.0 == (key is Enter || key is Esc),
        r.1 == (key == Key::Char('c') && mods == CONTROL),
{
    if key == Key::Enter || key == Key::Esc {
        (true, false)
    } else if key == Key::Char('c') && mods == CONTROL {
        (false, true)
    } else {
        (false, false)
    }
}

/// What a key does while the assistant works (thinking, streaming or
/// running a tool): Ctrl+C and Esc interrupt the turn, dropping the text
/// streamed so far; the caller marks the UI interrupted and asks the
/// daemon to cancel. Other keys do nothing. Returns whether the turn is
/// interrupted.
pub fn handle_interruptible_key(stream: &mut StreamState, key: Key, mods: u8) -> (interrupted: bool)
    ensures
        interrupted == ((key == Key::Char('c') && mods == CONTROL) || key is Esc),
        interrupted ==> final(stream).buffer@.len() == 0 && !final(stream).streaming,
        !interrupted ==> final(stream).buffer == old(stream).buffer && final(stream).streaming == old(
            stream,
        ).streaming,
{
    if (key == Key::Char('c') && mods == CONTROL) || key == Key::Esc {
        stream.buffer = String::new();
        stream.streaming = false;
        true
    } else {
        false
    }
}

} // verus!
