//! Tool-call approvals in the terminal UI: the queue of pending requests,
//! approving or denying the selected one, and moving between them.

use vstd::prelude::*;
use crate::idle_keys::{Key, CONTROL};
use crate::text::{chars_eq, str_to_chars};

verus! {

/// How risky a tool call is.
#[derive(Debug, Clone, Copy, PartialEq, Eq, Structural)]
pub enum RiskLevel {
    Low,
    Medium,
    High,
    Critical,
}

/// A tool call waiting for the user's approval.
#[derive(Debug)]
pub struct PendingApproval {
    /// The request's id.
    pub id: String,
    /// The tool.
    pub tool_name: String,
    /// What the call does.
    pub description: String,
    /// How risky it is.
    pub risk_level: RiskLevel,
    /// Details shown with it, as label and value.
    pub details: Vec<(String, String)>,
}

/// How long an approval lasts.
#[derive(Debug, Clone, Copy, PartialEq, Eq, Structural)]
pub enum ApprovalDecisionKind {
    Once,
    Session,
    Always,
}

/// What is sent to the daemon.
#[derive(Debug, PartialEq, Eq)]
pub enum ApprovalAction {
    /// Approve the request.
    Approve {
        request_id: String,
        decision: ApprovalDecisionKind,
    },
    /// Deny the request.
    Deny {
        request_id: String,
    },
}

/// The UI state an approval key leaves.
#[derive(Debug, Clone, Copy, PartialEq, Eq, Structural)]
pub enum ApprovalMode {
    /// As it was.
    Unchanged,
    /// Running the last started tool.
    RunningLastTool,
    /// Waiting for the agent.
    Thinking,
    /// Waiting for more approvals.
    AwaitingApproval,
    /// Waiting for input.
    Idle,
}

/// The queue of pending approvals and the selected one.
#[derive(Debug)]
pub struct ApprovalQueue {
    pub pending: Vec<PendingApproval>,
    pub selected: usize,
}

/// The pending requests' ids.
pub open spec fn pending_ids(p: Seq<PendingApproval>) -> Seq<Seq<char>> {
    p.map_values(|a: PendingApproval| a.id@)
}

/// The position of the first request with id `id`; -1 when there is none.
pub open spec fn first_with_id(ids: Seq<Seq<char>>, id: Seq<char>, from: int) -> int
    decreases ids.len() - from,
{
    if from < 0 || from >= ids.len() {
        -1
    } else if ids[from] == id {
        from
    } else {
        first_with_id(ids, id, from + 1)
    }
}

/// The state after approving: the tool that still runs, or the agent's
/// turn; then waiting for the other approvals, if any, or for the agent
/// when nothing is left at all.
pub open spec fn mode_after_approve(found: bool, remaining: int, running: bool) -> ApprovalMode {
    if remaining == 0 && !running {
        ApprovalMode::Thinking
    } else if remaining > 0 {
        ApprovalMode::AwaitingApproval
    } else if found {
        if running {
            ApprovalMode::RunningLastTool
        } else {
            ApprovalMode::Thinking
        }
    } else {
        ApprovalMode::Unchanged
    }
}

fn same_id(a: &str, b: &str) -> (r: bool)
    ensures
        r == (a@ == b@),
{
    let x = str_to_chars(a);
    let y = str_to_chars(b);
    chars_eq(&x, &y)
}

proof fn lemma_first_with_id(ids: Seq<Seq<char>>, id: Seq<char>, from: int)
    requires
        0 <= from,
    ensures
        first_with_id(ids, id, from) == -1 || (from <= first_with_id(ids, id, from) < ids.len() && ids[first_with_id(ids, id, from)] == id),
        forall|j: int| from <= j < ids.len() && (first_with_id(ids, id, from) == -1 || j < first_with_id(ids, id, from)) ==> ids[j] != id,
    decreases ids.len() - from,
{
    if from < ids.len() && ids[from] != id {
        lemma_first_with_id(ids, id, from + 1);
    }
}

impl ApprovalQueue {
    /// Approve the first pending request with id `id`: it leaves the queue
    /// and an approval is sent. Returns the action and the state to switch
    /// to; `running` says whether a tool is running.
    pub fn approve_tool(&mut self, id: &str, decision: ApprovalDecisionKind, running: bool) -> (r: (Option<ApprovalAction>, ApprovalMode))
        ensures
            ({
                let pos = first_with_id(pending_ids(old(self).pending@), id@, 0);
                &&& pos >= 0 ==> final(self).pending@ == old(self).pending@.remove(pos)
                &&& pos < 0 ==> final(self).pending@ == old(self).pending@
                &&& match r.0 {
                    Some(a) => pos >= 0 && (a matches ApprovalAction::Approve { request_id, decision: d } && request_id@ == id@ && d == decision),
                    None => pos < 0,
                }
                &&& r.1 == mode_after_approve(pos >= 0, final(self).pending@.len() as int, running)
            }),
            final(self).selected == old(self).selected,
    {
        let ghost ids = pending_ids(self.pending@);
        proof {
            lemma_first_with_id(ids, id@, 0);
        }
        let mut i: usize = 0;
        let mut found: Option<usize> = None;
        while i < self.pending.len()
            invariant
                i <= self.pending@.len(),
                ids == pending_ids(self.pending@),
                self.pending@ == old(self).pending@,
                self.selected == old(self).selected,
                found is None ==> forall|j: int| 0 <= j < i ==> ids[j] != id@,
                found matches Some(p) ==> p < i && ids[p as int] == id@ && forall|j: int|
                    0 <= j < p ==> ids[j] != id@,
            decreases self.pending@.len() - i,
        {
            assert(ids[i as int] == self.pending@[i as int].id@);
            if found.is_none() && same_id(self.pending[i].id.as_str(), id) {
                found = Some(i);
            }
            i = i + 1;
        }
        let action = match found {
            Some(pos) => {
                proof {
                    let f = first_with_id(ids, id@, 0);
                    if f != pos as int {
                        if f == -1 {
                            assert(ids[pos as int] == id@);
                        } else if f < pos {
                            assert(ids[f] == id@);
                        } else {
                            assert(ids[pos as int] == id@);
                        }
                    }
                }
                self.pending.remove(pos);
                Some(ApprovalAction::Approve { request_id: String::from_str(id), decision })
            },
            None => {
                proof {
                    if first_with_id(ids, id@, 0) != -1 {
                        let p = first_with_id(ids, id@, 0);
                        assert(ids[p] == id@);
                    }
                }
                None
            },
        };
        let remaining = self.pending.len();
        let mode = if remaining == 0 && !running {
            ApprovalMode::Thinking
        } else if remaining > 0 {
            ApprovalMode::AwaitingApproval
        } else if action.is_some() {
            if running {
                ApprovalMode::RunningLastTool
            } else {
                ApprovalMode::Thinking
            }
        } else {
            ApprovalMode::Unchanged
        };
        (action, mode)
    }

    /// Deny every pending request with id `id`: they leave the queue and a
    /// denial is sent; with nothing left pending the UI waits for input.
    pub fn deny_tool(&mut self, id: &str) -> (r: (ApprovalAction, ApprovalMode))
        ensures
            final(self).pending@ == without_id(old(self).pending@, id@),
            r.0 matches ApprovalAction::Deny { request_id } && request_id@ == id@,
            r.1 == (if final(self).pending@.len() == 0 {
                ApprovalMode::Idle
            } else {
                ApprovalMode::Unchanged
            }),
            final(self).selected == old(self).selected,
    {
        let ghost orig = self.pending@;
        let total = self.pending.len();
        let mut kept: Vec<PendingApproval> = Vec::new();
        proof {
            reveal(Seq::filter);
            assert(orig.take(0) =~= Seq::<PendingApproval>::empty());
        }
        let mut n: usize = 0;
        while self.pending.len() > 0
            invariant
                n + self.pending@.len() == orig.len(),
                orig.len() == total,
                self.selected == old(self).selected,
                self.pending@ == orig.skip(n as int),
                kept@ == orig.take(n as int).filter(|a: PendingApproval| a.id@ != id@),
            decreases self.pending@.len(),
        {
            let a = self.pending.remove(0);
            proof {
                reveal(Seq::filter);
                assert(orig.take(n + 1).drop_last() =~= orig.take(n as int));
                assert(orig.take(n + 1).last() == a);
                assert(orig.skip(n + 1) =~= orig.skip(n as int).drop_first());
            }
            if !same_id(a.id.as_str(), id) {
                kept.push(a);
            }
            n = n + 1;
        }
        assert(orig.take(n as int) =~= orig);
        self.pending = kept;
        let mode = if self.pending.len() == 0 {
            ApprovalMode::Idle
        } else {
            ApprovalMode::Unchanged
        };
        (ApprovalAction::Deny { request_id: String::from_str(id) }, mode)
    }
}

/// The pending requests without those with id `id`.
pub open spec fn without_id(p: Seq<PendingApproval>, id: Seq<char>) -> Seq<PendingApproval> {
    p.filter(|a: PendingApproval| a.id@ != id)
}

/// What an approval key asks for.
#[derive(Debug, PartialEq, Eq)]
pub struct ApprovalOutcome {
    /// Sent to the daemon.
    pub action: Option<ApprovalAction>,
    /// The state to switch to.
    pub mode: ApprovalMode,
    /// Shown to the user.
    pub notice: Option<String>,
    /// The UI is to quit.
    pub quit: bool,
}

/// The approval a key gives: `y`, `s`, `a` (either case) approve once,
/// for the session, always.
pub open spec fn approve_kind(key: Key) -> Option<ApprovalDecisionKind> {
    match key {
        Key::Char(c) => if c == 'y' || c == 'Y' {
            Some(ApprovalDecisionKind::Once)
        } else if c == 's' || c == 'S' {
            Some(ApprovalDecisionKind::Session)
        } else if c == 'a' || c == 'A' {
            Some(ApprovalDecisionKind::Always)
        } else {
            None
        },
        _ => None,
    }
}

/// `n`, `N` and Esc deny.
pub open spec fn is_deny_key(key: Key) -> bool {
    key == Key::Char('n') || key == Key::Char('N') || key is Esc
}

/// The id of the selected request, the last one when the selection is
/// past the end.
pub open spec fn selected_id(p: Seq<PendingApproval>, selected: int) -> Seq<char> {
    p[if selected < p.len() { selected } else { p.len() - 1 }].id@
}

/// The selected approval after Tab or Down, and after Shift+Tab or Up.
pub open spec fn next_approval(selected: int, n: int) -> int {
    (if selected + 1 > usize::MAX { usize::MAX as int } else { selected + 1 }) % n
}

pub open spec fn prev_approval(selected: int, n: int) -> int {
    if selected == 0 {
        n - 1
    } else {
        selected - 1
    }
}

/// A key while approvals wait: `y`, `s` and `a` approve the selected
/// request once, for the session or always; `n` or Esc deny it; Tab and
/// Down, Shift+Tab and Up move between requests; Ctrl+C quits.
#[verifier::spinoff_prover]
#[verifier::rlimit(40)]
pub fn handle_approval_key(q: &mut ApprovalQueue, key: Key, mods: u8, running: bool) -> (r: ApprovalOutcome)
    ensures
        old(q).pending@.len() == 0 ==> final(q).pending@ == old(q).pending@ && final(q).selected
            == old(q).selected && r.action is None && r.mode == ApprovalMode::Unchanged && !r.quit,
        old(q).pending@.len() > 0 && approve_kind(key) is Some ==> ({
            let id = selected_id(old(q).pending@, old(q).selected as int);
            &&& final(q).pending@ == old(q).pending@.remove(first_with_id(pending_ids(old(q).pending@), id, 0))
            &&& r.action matches Some(ApprovalAction::Approve { request_id, decision }) && request_id@ == id
                && Some(decision) == approve_kind(key)
            &&& r.mode == mode_after_approve(true, old(q).pending@.len() - 1, running)
            &&& !r.quit
        }),
        old(q).pending@.len() > 0 && approve_kind(key) is None && is_deny_key(key) ==> ({
            let id = selected_id(old(q).pending@, old(q).selected as int);
            &&& final(q).pending@ == without_id(old(q).pending@, id)
            &&& r.action matches Some(ApprovalAction::Deny { request_id }) && request_id@ == id
            &&& r.mode == (if final(q).pending@.len() == 0 { ApprovalMode::Idle } else { ApprovalMode::Unchanged })
            &&& r.notice matches Some(t) && t@ == "Tool call denied."@
            &&& !r.quit
        }),
        old(q).pending@.len() > 0 && approve_kind(key) is None && !is_deny_key(key) ==> ({
            let n = old(q).pending@.len() as int;
            &&& final(q).pending@ == old(q).pending@
            &&& r.action is None
            &&& r.mode == ApprovalMode::Unchanged
            &&& final(q).selected == (if key is Tab || key is Down {
                next_approval(old(q).selected as int, n)
            } else if key is BackTab || key is Up {
                prev_approval(old(q).selected as int, n)
            } else {
                old(q).selected as int
            })
            &&& r.quit == (key == Key::Char('c') && mods == CONTROL)
        }),
{
    let none = ApprovalOutcome { action: None, mode: ApprovalMode::Unchanged, notice: None, quit: false };
    let n = q.pending.len();
    if n == 0 {
        return none;
    }
    let sel = if q.selected < n - 1 {
        q.selected
    } else {
        n - 1
    };
    let id = q.pending[sel].id.clone();
    let ghost ids = pending_ids(q.pending@);
    let kind = approve_kind_of(key);
    if let Some(k) = kind {
        proof {
            lemma_first_with_id(ids, id@, 0);
            assert(ids[sel as int] == id@);
        }
        let (action, mode) = q.approve_tool(id.as_str(), k, running);
        ApprovalOutcome { action, mode, notice: None, quit: false }
    } else if deny_key(key) {
        let (action, mode) = q.deny_tool(id.as_str());
        ApprovalOutcome { action: Some(action), mode, notice: Some(String::from_str("Tool call denied.")), quit: false }
    } else if matches!(key, Key::Tab | Key::Down) {
        q.selected = q.selected.saturating_add(1) % n;
        none
    } else if matches!(key, Key::BackTab | Key::Up) {
        q.selected = if q.selected == 0 {
            n - 1
        } else {
            q.selected - 1
        };
        none
    } else if key == Key::Char('c') && mods == CONTROL {
        ApprovalOutcome { action: None, mode: ApprovalMode::Unchanged, notice: None, quit: true }
    } else {
        none
    }
}

fn approve_kind_of(key: Key) -> (r: Option<ApprovalDecisionKind>)
    ensures
        r == approve_kind(key),
{
    match key {
        Key::Char(c) => {
            if c == 'y' || c == 'Y' {
                Some(ApprovalDecisionKind::Once)
            } else if c == 's' || c == 'S' {
                Some(ApprovalDecisionKind::Session)
            } else if c == 'a' || c == 'A' {
                Some(ApprovalDecisionKind::Always)
            } else {
                None
            }
        },
        _ => None,
    }
}

fn deny_key(key: Key) -> (r: bool)
    ensures
        r == is_deny_key(key),
{
    match key {
        Key::Char(c) => c == 'n' || c == 'N',
        Key::Esc => true,
        _ => false,
    }
}

/// An option of a selection menu a capsule asked for.
#[derive(Debug)]
pub struct SelectionOption {
    /// What is sent back when it is chosen.
    pub id: String,
    /// What is shown.
    pub label: String,
}

/// A selection menu: its options, the selected one, the first shown,
/// and where the answer goes.
#[derive(Debug)]
pub struct SelectionMenu {
    pub options: Vec<SelectionOption>,
    pub selected: usize,
    pub scroll_offset: usize,
    pub callback_topic: String,
    pub request_id: String,
}

/// What a key in a selection menu asks for.
#[derive(Debug, PartialEq, Eq)]
pub enum SelectionOutcome {
    /// Keep the menu open.
    Stay,
    /// Close the menu and tell the user it was cancelled.
    Cancelled,
    /// Close the menu.
    Closed,
    /// Send the chosen option and close the menu.
    Submit {
        callback_topic: String,
        request_id: String,
        selected_id: String,
        selected_label: String,
    },
}

/// A key in a selection menu: Esc cancels; Up and Down move the
/// selection, scrolling to keep it among the [`crate::command_palette::PALETTE_MAX_VISIBLE`]
/// shown; Enter sends the selected option, if the selection is on one,
/// and closes the menu.
pub fn handle_selection_key(m: &mut SelectionMenu, key: Key) -> (r: SelectionOutcome)
    ensures
        key is Esc ==> r == SelectionOutcome::Cancelled && final(m).selected == old(m).selected
            && final(m).scroll_offset == old(m).scroll_offset,
        key is Up ==> r == SelectionOutcome::Stay && (if old(m).selected > 0 {
            final(m).selected == old(m).selected - 1 && final(m).scroll_offset == (if old(m).selected - 1
                < old(m).scroll_offset {
                old(m).selected - 1
            } else {
                old(m).scroll_offset as int
            })
        } else {
            final(m).selected == old(m).selected && final(m).scroll_offset == old(m).scroll_offset
        }),
        key is Down ==> r == SelectionOutcome::Stay && (if old(m).selected + 1 < old(m).options@.len() {
            final(m).selected == old(m).selected + 1 && final(m).scroll_offset == (if old(m).selected + 1
                >= old(m).scroll_offset + crate::command_palette::PALETTE_MAX_VISIBLE {
                old(m).selected + 2 - crate::command_palette::PALETTE_MAX_VISIBLE
            } else {
                old(m).scroll_offset as int
            })
        } else {
            final(m).selected == old(m).selected && final(m).scroll_offset == old(m).scroll_offset
        }),
        key is Enter ==> (if old(m).selected < old(m).options@.len() {
            r matches SelectionOutcome::Submit { callback_topic, request_id, selected_id, selected_label }
                && callback_topic@ == old(m).callback_topic@ && request_id@ == old(m).request_id@
                && selected_id@ == old(m).options@[old(m).selected as int].id@
                && selected_label@ == old(m).options@[old(m).selected as int].label@
        } else {
            r == SelectionOutcome::Closed
        }) && final(m).selected == old(m).selected && final(m).scroll_offset == old(m).scroll_offset,
        !(key is Esc || key is Up || key is Down || key is Enter) ==> r == SelectionOutcome::Stay
            && final(m).selected == old(m).selected && final(m).scroll_offset == old(m).scroll_offset,
        final(m).options@ == old(m).options@,
{
    if matches!(key, Key::Esc) {
        SelectionOutcome::Cancelled
    } else if matches!(key, Key::Up) {
        if m.selected > 0 {
            m.selected = m.selected - 1;
            if m.selected < m.scroll_offset {
                m.scroll_offset = m.selected;
            }
        }
        SelectionOutcome::Stay
    } else if matches!(key, Key::Down) {
        if m.selected.saturating_add(1) < m.options.len() {
            m.selected = m.selected + 1;
            if m.selected >= m.scroll_offset.saturating_add(crate::command_palette::PALETTE_MAX_VISIBLE) {
                m.scroll_offset = m.selected.saturating_add(1).saturating_sub(
                    crate::command_palette::PALETTE_MAX_VISIBLE,
                );
            }
        }
        SelectionOutcome::Stay
    } else if matches!(key, Key::Enter) {
        if m.selected < m.options.len() {
            let opt = &m.options[m.selected];
            SelectionOutcome::Submit {
                callback_topic: m.callback_topic.clone(),
                request_id: m.request_id.clone(),
                selected_id: opt.id.clone(),
                selected_label: opt.label.clone(),
            }
        } else {
            SelectionOutcome::Closed
        }
    } else {
        SelectionOutcome::Stay
    }
}

} // verus!
