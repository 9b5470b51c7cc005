//! The onboarding form a capsule asks the terminal UI to fill in: one
//! field at a time, text and secret fields typed in the prompt, enum
//! fields picked from a list, array fields collected item by item.
//!
//! [`onboarding_step`] states, over values, what one key does to the form,
//! the prompt and the pending elicitation; [`handle_onboarding_key`] does
//! it.

use vstd::prelude::*;
use crate::command_palette::{sat_add, sat_sub, PALETTE_MAX_VISIBLE};
use crate::idle_keys::Key;
use crate::input_buffer::{
    after_backspace, after_insert_char, after_move_left, after_move_right, cursor_ok, flat, text_bytes, text_len,
    InputBuffer, SegView,
};
use crate::render_text::{max_array_items, max_array_items_spec};
use crate::string_map::StringMap;
use crate::text::{byte_len, cat3, chars_eq, str_to_chars};

verus! {

/// Longest answer accepted, in bytes.
pub const MAX_INPUT_LEN: usize = 4096;

/// The kind of an onboarding field.
#[derive(Debug, Clone, PartialEq, Eq)]
pub enum OnboardingFieldType {
    /// Free text.
    Text,
    /// Text that is not shown.
    Secret,
    /// One of these choices.
    Enum(Vec<String>),
    /// A list of text items.
    Array,
}

/// A field of an onboarding form.
#[derive(Debug, Clone, PartialEq, Eq)]
pub struct OnboardingField {
    /// The answer's key.
    pub key: String,
    /// The question.
    pub prompt: String,
    /// More about the question.
    pub description: Option<String>,
    /// The kind of answer.
    pub field_type: OnboardingFieldType,
    /// The default answer.
    pub default: Option<String>,
    /// Shown in the empty prompt.
    pub placeholder: Option<String>,
}

/// An onboarding form being filled in.
#[derive(Debug)]
pub struct Onboarding {
    /// The capsule asking.
    pub capsule_id: String,
    /// The fields, in order.
    pub fields: Vec<OnboardingField>,
    /// The field being filled in.
    pub current_idx: usize,
    /// The answers so far, by key.
    pub answers: StringMap<String>,
    /// The highlighted choice of an enum field.
    pub enum_selected: usize,
    /// The first choice shown of an enum field.
    pub enum_scroll_offset: usize,
    /// The items of the array field being filled in.
    pub current_array_items: Vec<String>,
}

/// What finishing or cancelling the form sends.
#[derive(Debug)]
pub enum OnboardingAction {
    /// The answers, for the capsule's configuration.
    SubmitOnboarding {
        /// The capsule.
        capsule_id: String,
        /// The answers by key.
        answers: StringMap<String>,
    },
    /// The answer to a lifecycle elicitation (both empty on cancel).
    SubmitElicitResponse {
        /// The elicitation (UUID bits).
        request_id: u128,
        /// The answer, for a single field.
        value: Option<String>,
        /// The items, for an array field.
        values: Option<Vec<String>>,
    },
}

/// What a key leaves for the caller.
#[derive(Debug)]
pub struct OnboardingStep {
    /// A notice to show.
    pub notice: Option<String>,
    /// Something to send.
    pub action: Option<OnboardingAction>,
    /// The form is closed; the UI goes back to idle.
    pub finished: bool,
}

/// The characters of each string.
pub open spec fn string_views(v: Seq<String>) -> Seq<Seq<char>> {
    v.map_values(|s: String| s@)
}

/// The answers, each taken by its characters.
pub open spec fn answer_views(m: Map<Seq<char>, String>) -> Map<Seq<char>, Seq<char>> {
    m.map_values(|s: String| s@)
}

/// A lower-case hexadecimal digit.
pub open spec fn hex_digit(d: nat) -> char {
    if d < 10 {
        ((d + 48) as u32) as char
    } else {
        ((d + 87) as u32) as char
    }
}

/// How serde_json writes one character inside a string: `"` and `\`
/// escaped, the short escapes for backspace, form feed, line feed,
/// carriage return and tab, `\u00XX` for the other control characters
/// below 0x20, and any other character as it is.
pub open spec fn json_escaped_char(c: char) -> Seq<char> {
    if c == '"' {
        seq!['\\', '"']
    } else if c == '\\' {
        seq!['\\', '\\']
    } else if c == '\u{8}' {
        seq!['\\', 'b']
    } else if c == '\u{c}' {
        seq!['\\', 'f']
    } else if c == '\n' {
        seq!['\\', 'n']
    } else if c == '\r' {
        seq!['\\', 'r']
    } else if c == '\t' {
        seq!['\\', 't']
    } else if (c as u32) < 0x20 {
        seq!['\\', 'u', '0', '0', hex_digit(((c as u32) / 16) as nat), hex_digit(((c as u32) % 16) as nat)]
    } else {
        seq![c]
    }
}

/// The escaped contents of a JSON string.
pub open spec fn json_chars(s: Seq<char>) -> Seq<char>
    decreases s.len(),
{
    if s.len() == 0 {
        Seq::empty()
    } else {
        json_chars(s.drop_last()) + json_escaped_char(s.last())
    }
}

/// The strings quoted and escaped, separated by commas.
pub open spec fn json_items(items: Seq<Seq<char>>) -> Seq<char>
    decreases items.len(),
{
    if items.len() == 0 {
        Seq::empty()
    } else if items.len() == 1 {
        seq!['"'] + json_chars(items[0]) + seq!['"']
    } else {
        json_items(items.drop_last()) + seq![','] + seq!['"'] + json_chars(items.last()) + seq!['"']
    }
}

/// The JSON text that serde_json writes for an array of strings, compact:
/// `[`, the quoted strings separated by commas, `]`.
pub open spec fn json_string_array(items: Seq<Seq<char>>) -> Seq<char> {
    seq!['['] + json_items(items) + seq![']']
}

/// `serde_json::to_string` on a list of strings: the compact JSON array
/// with each string quoted and escaped as serde_json's `format_escaped_str`
/// does. serde_json fails only for a failing `Serialize` impl or a map with
/// non-string keys, neither of which a list of strings has, so the call
/// succeeds; its error branch (`[]`) is never taken.
#[verifier::external_body]
fn strings_to_json(items: &Vec<String>) -> (r: String)
    ensures
        r@ == json_string_array(string_views(items@)),
{
    match serde_json::to_string(items) {
        Ok(s) => s,
        Err(_) => String::from("[]"),
    }
}

/// The form, the prompt and the pending elicitation, as values.
pub ghost struct OnboardingView {
    pub capsule: Seq<char>,
    pub fields: Seq<OnboardingField>,
    pub idx: int,
    pub answers: Map<Seq<char>, Seq<char>>,
    pub selected: int,
    pub scroll: int,
    pub items: Seq<Seq<char>>,
    pub segs: Seq<SegView>,
    pub cur: (int, int),
    pub elicit: Option<u128>,
}

/// What is sent, as values.
pub ghost enum ActionView {
    Submit { capsule_id: Seq<char>, answers: Map<Seq<char>, Seq<char>> },
    Elicit { request_id: u128, value: Option<Seq<char>>, values: Option<Seq<Seq<char>>> },
}

/// What a key leaves for the caller, as values.
pub ghost struct StepView {
    pub notice: Option<Seq<char>>,
    pub action: Option<ActionView>,
    pub finished: bool,
}

pub open spec fn onboarding_view(ob: Onboarding, input: InputBuffer, elicit: Option<u128>) -> OnboardingView {
    OnboardingView {
        capsule: ob.capsule_id@,
        fields: ob.fields@,
        idx: ob.current_idx as int,
        answers: answer_views(ob.answers.view()),
        selected: ob.enum_selected as int,
        scroll: ob.enum_scroll_offset as int,
        items: string_views(ob.current_array_items@),
        segs: input.segs(),
        cur: input.cur(),
        elicit,
    }
}

pub open spec fn action_view(a: OnboardingAction) -> ActionView {
    match a {
        OnboardingAction::SubmitOnboarding { capsule_id, answers } => ActionView::Submit {
            capsule_id: capsule_id@,
            answers: answer_views(answers.view()),
        },
        OnboardingAction::SubmitElicitResponse { request_id, value, values } => ActionView::Elicit {
            request_id,
            value: match value {
                Some(s) => Some(s@),
                None => None,
            },
            values: match values {
                Some(v) => Some(string_views(v@)),
                None => None,
            },
        },
    }
}

pub open spec fn step_view(s: OnboardingStep) -> StepView {
    StepView {
        notice: match s.notice {
            Some(n) => Some(n@),
            None => None,
        },
        action: match s.action {
            Some(a) => Some(action_view(a)),
            None => None,
        },
        finished: s.finished,
    }
}

/// The choices of an enum field; none for other fields.
pub open spec fn choices_of(f: OnboardingField) -> Seq<Seq<char>> {
    match f.field_type {
        OnboardingFieldType::Enum(v) => string_views(v@),
        _ => Seq::empty(),
    }
}

/// The first position at or after `from` where `x` occurs in `s`, or -1.
pub open spec fn position_from(s: Seq<Seq<char>>, x: Seq<char>, from: int) -> int
    decreases s.len() - from,
{
    if from < 0 || from >= s.len() {
        -1
    } else if s[from] == x {
        from
    } else {
        position_from(s, x, from + 1)
    }
}

/// Where the picker of a field starts: at the default among the choices,
/// else at the first choice.
pub open spec fn default_position(f: OnboardingField) -> int {
    match f.default {
        Some(d) => if f.field_type is Enum && position_from(choices_of(f), d@, 0) >= 0 {
            position_from(choices_of(f), d@, 0)
        } else {
            0
        },
        None => 0,
    }
}

/// No step result: nothing shown, nothing sent, the form still open.
pub open spec fn quiet() -> StepView {
    StepView { notice: None, action: None, finished: false }
}

/// The prompt emptied.
pub open spec fn cleared(v: OnboardingView) -> OnboardingView {
    OnboardingView { segs: Seq::empty(), cur: (0, 0), ..v }
}

/// Closing the form with its answers: with a pending elicitation, the
/// first field's answer (its items for an array field) is the response;
/// else the answers go to the capsule.
pub open spec fn finish_step(v: OnboardingView) -> (OnboardingView, StepView) {
    let action = match v.elicit {
        Some(id) => {
            let first_is_array = v.fields.len() > 0 && v.fields[0].field_type is Array;
            let key = if v.fields.len() > 0 {
                v.fields[0].key@
            } else {
                Seq::empty()
            };
            ActionView::Elicit {
                request_id: id,
                value: if first_is_array {
                    None
                } else if v.answers.contains_key(key) {
                    Some(v.answers[key])
                } else {
                    None
                },
                values: if first_is_array {
                    Some(v.items)
                } else {
                    None
                },
            }
        },
        None => ActionView::Submit { capsule_id: v.capsule, answers: v.answers },
    };
    (OnboardingView { elicit: None, ..cleared(v) }, StepView { notice: None, action: Some(action), finished: true })
}

/// Moving to the field at `v.idx`: past the last field the form is
/// finished; else the picker starts at the field's default, and the
/// prompt holds the default of a text or secret field and is empty for
/// the others.
pub open spec fn advance_step(v: OnboardingView) -> (OnboardingView, StepView) {
    if v.idx >= v.fields.len() {
        finish_step(v)
    } else {
        let f = v.fields[v.idx];
        let d = match f.default {
            Some(s) => s@,
            None => Seq::empty(),
        };
        let blank = f.field_type is Enum || f.field_type is Array || d.len() == 0;
        (
            OnboardingView {
                scroll: 0,
                selected: default_position(f),
                segs: if blank {
                    Seq::empty()
                } else {
                    seq![SegView::Text(d)]
                },
                cur: (0, if blank {
                    0
                } else {
                    text_len(d)
                }),
                ..v
            },
            quiet(),
        )
    }
}

/// Esc: the form is dropped, a pending elicitation gets an empty
/// response, and the prompt is emptied.
pub open spec fn cancel_step(v: OnboardingView) -> (OnboardingView, StepView) {
    (
        OnboardingView { elicit: None, ..cleared(v) },
        StepView {
            notice: Some("Onboarding cancelled by user."@),
            action: match v.elicit {
                Some(id) => Some(ActionView::Elicit { request_id: id, value: None, values: None }),
                None => None,
            },
            finished: true,
        },
    )
}

/// Enter on a text, secret or array field: the prompt is taken and
/// emptied. An answer over the byte limit is refused. An array field
/// collects a non-empty answer as an item, while there is room, and an
/// empty answer ends it, storing the items as a JSON array; other fields
/// store the answer. Storing moves to the next field.
pub open spec fn text_enter_step(v: OnboardingView, terminal_height: int) -> (OnboardingView, StepView) {
    let answer = flat(v.segs);
    let v0 = cleared(v);
    if answer.len() > 0 && byte_len(answer) > MAX_INPUT_LEN {
        (v0, StepView { notice: Some("Input too long (max 4096 bytes). Please shorten it."@), ..quiet() })
    } else if v.idx >= v.fields.len() {
        (v0, StepView { finished: true, ..quiet() })
    } else if v.fields[v.idx].field_type is Array {
        if answer.len() == 0 {
            advance_step(
                OnboardingView {
                    answers: v.answers.insert(v.fields[v.idx].key@, json_string_array(v.items)),
                    items: Seq::empty(),
                    idx: v.idx + 1,
                    ..v0
                },
            )
        } else if v.items.len() >= max_array_items_spec(terminal_height, v.fields.len() as int) {
            (
                v0,
                StepView { notice: Some("Array item limit reached. Press Enter on empty to finish."@), ..quiet() },
            )
        } else {
            (OnboardingView { items: v.items.push(answer), ..v0 }, quiet())
        }
    } else {
        advance_step(OnboardingView { answers: v.answers.insert(v.fields[v.idx].key@, answer), idx: v.idx + 1, ..v0 })
    }
}

/// A key on a text, secret or array field: Esc cancels, Enter answers,
/// and the editing keys edit the prompt.
pub open spec fn text_step(v: OnboardingView, terminal_height: int, key: Key) -> (OnboardingView, StepView) {
    match key {
        Key::Esc => cancel_step(v),
        Key::Enter => text_enter_step(v, terminal_height),
        Key::Char(c) => {
            let (s, c2) = after_insert_char(v.segs, v.cur, c);
            (OnboardingView { segs: s, cur: c2, ..v }, quiet())
        },
        Key::Backspace => {
            let (s, c2) = after_backspace(v.segs, v.cur);
            (OnboardingView { segs: s, cur: c2, ..v }, quiet())
        },
        Key::Left => {
            let (s, c2) = after_move_left(v.segs, v.cur);
            (OnboardingView { segs: s, cur: c2, ..v }, quiet())
        },
        Key::Right => {
            let (s, c2) = after_move_right(v.segs, v.cur);
            (OnboardingView { segs: s, cur: c2, ..v }, quiet())
        },
        _ => (v, quiet()),
    }
}

/// A key on an enum field: Esc cancels, Up and Down move the highlight
/// and keep it in the window of shown choices, Enter stores the
/// highlighted choice (or skips a field without choices) and moves on.
pub open spec fn enum_step(v: OnboardingView, key: Key) -> (OnboardingView, StepView) {
    let choices = choices_of(v.fields[v.idx]);
    match key {
        Key::Esc => cancel_step(v),
        Key::Up => if v.selected > 0 {
            let s = v.selected - 1;
            (OnboardingView { selected: s, scroll: if s < v.scroll { s } else { v.scroll }, ..v }, quiet())
        } else {
            (v, quiet())
        },
        Key::Down => if v.selected + 1 < choices.len() {
            let s = v.selected + 1;
            (
                OnboardingView {
                    selected: s,
                    scroll: if s >= sat_add(v.scroll, PALETTE_MAX_VISIBLE as int) {
                        sat_sub(s + 1, PALETTE_MAX_VISIBLE as int)
                    } else {
                        v.scroll
                    },
                    ..v
                },
                quiet(),
            )
        } else {
            (v, quiet())
        },
        Key::Enter => if choices.len() > 0 {
            let pick = if v.selected < choices.len() - 1 {
                v.selected
            } else {
                choices.len() - 1
            };
            advance_step(
                OnboardingView {
                    answers: v.answers.insert(v.fields[v.idx].key@, choices[pick]),
                    idx: v.idx + 1,
                    ..v
                },
            )
        } else {
            let (w, s) = advance_step(OnboardingView { idx: v.idx + 1, ..v });
            (w, StepView { notice: Some("Skipped field with no available choices."@), ..s })
        },
        _ => (v, quiet()),
    }
}

/// What a key does to the form: the field being filled in decides
/// whether it is a picker key or a prompt key.
pub open spec fn onboarding_step(v: OnboardingView, terminal_height: int, key: Key) -> (OnboardingView, StepView) {
    if 0 <= v.idx < v.fields.len() && v.fields[v.idx].field_type is Enum {
        enum_step(v, key)
    } else {
        text_step(v, terminal_height, key)
    }
}

/// The first position of `x` in `s`, if any.
fn position_of(s: &Vec<String>, x: &str) -> (r: Option<usize>)
    ensures
        match r {
            Some(p) => position_from(string_views(s@), x@, 0) == p,
            None => position_from(string_views(s@), x@, 0) == -1,
        },
{
    let target = str_to_chars(x);
    let mut i: usize = 0;
    while i < s.len()
        invariant
            i <= s@.len(),
            target@ == x@,
            position_from(string_views(s@), x@, 0) == position_from(string_views(s@), x@, i as int),
        decreases s@.len() - i,
    {
        if chars_eq(&str_to_chars(s[i].as_str()), &target) {
            return Some(i);
        }
        i = i + 1;
    }
    None
}

/// Where the picker of `field` starts: at its default among the choices,
/// else at the first choice.
pub fn default_enum_position(field: &OnboardingField) -> (r: usize)
    ensures
        r == default_position(*field),
{
    match &field.default {
        Some(d) => match &field.field_type {
            OnboardingFieldType::Enum(choices) => match position_of(choices, d.as_str()) {
                Some(p) => p,
                None => 0,
            },
            _ => 0,
        },
        None => 0,
    }
}

/// A copy of the strings.
fn copy_strings(v: &Vec<String>) -> (r: Vec<String>)
    ensures
        r@ == v@,
{
    let r = v.clone();
    assert(r@ =~= v@);
    r
}

proof fn lemma_string_views_push(v: Seq<String>, s: String)
    ensures
        string_views(v.push(s)) == string_views(v).push(s@),
{
    assert(string_views(v.push(s)) =~= string_views(v).push(s@));
}

proof fn lemma_answers_insert(m: Map<Seq<char>, String>, k: String, val: String)
    ensures
        answer_views(m.insert(k@, val)) == answer_views(m).insert(k@, val@),
{
    assert(answer_views(m.insert(k@, val)) =~= answer_views(m).insert(k@, val@));
}

/// Closes the form with its answers.
fn finish_onboarding(ob: &mut Onboarding, input: &mut InputBuffer, elicit: &mut Option<u128>) -> (r: OnboardingStep)
    ensures
        (onboarding_view(*final(ob), *final(input), *final(elicit)), step_view(r)) == finish_step(
            onboarding_view(*old(ob), *old(input), *old(elicit)),
        ),
        cursor_ok(final(input).segs(), final(input).cur()),
{
    let ghost v = onboarding_view(*ob, *input, *elicit);
    let ghost expected = finish_step(v).1.action->0;
    let action = match *elicit {
        Some(id) => {
            let first_is_array = ob.fields.len() > 0 && match &ob.fields[0].field_type {
                OnboardingFieldType::Array => true,
                _ => false,
            };
            if first_is_array {
                let a = OnboardingAction::SubmitElicitResponse {
                    request_id: id,
                    value: None,
                    values: Some(copy_strings(&ob.current_array_items)),
                };
                proof {
                    assert(action_view(a) == expected);
                }
                a
            } else {
                proof {
                    reveal_strlit("");
                }
                let key: &str = if ob.fields.len() > 0 {
                    ob.fields[0].key.as_str()
                } else {
                    ""
                };
                let value = match ob.answers.get(key) {
                    Some(s) => Some(s.clone()),
                    None => None,
                };
                proof {
                    assert(key@ == (if v.fields.len() > 0 { v.fields[0].key@ } else { Seq::<char>::empty() }));
                }
                let a = OnboardingAction::SubmitElicitResponse { request_id: id, value, values: None };
                proof {
                    let key = if v.fields.len() > 0 { v.fields[0].key@ } else { Seq::<char>::empty() };
                    assert(v.answers.contains_key(key) == ob.answers.view().dom().contains(key));
                    if ob.answers.view().dom().contains(key) {
                        assert(v.answers[key] == ob.answers.view()[key]@);
                    }
                    assert(action_view(a) == expected);
                }
                a
            }
        },
        None => {
            let a = OnboardingAction::SubmitOnboarding {
                capsule_id: ob.capsule_id.clone(),
                answers: ob.answers.duplicate(),
            };
            proof {
                assert(action_view(a) == expected);
            }
            a
        },
    };
    *elicit = None;
    input.clear();
    OnboardingStep { notice: None, action: Some(action), finished: true }
}

/// Moves to the field at `current_idx`: past the last field the form is
/// finished; else the picker starts at the field's default, and the
/// prompt holds the default of a text or secret field and is empty for
/// the others.
pub fn advance_onboarding(ob: &mut Onboarding, input: &mut InputBuffer, elicit: &mut Option<u128>) -> (r:
    OnboardingStep)
    ensures
        (onboarding_view(*final(ob), *final(input), *final(elicit)), step_view(r)) == advance_step(
            onboarding_view(*old(ob), *old(input), *old(elicit)),
        ),
        cursor_ok(final(input).segs(), final(input).cur()),
{
    if ob.current_idx >= ob.fields.len() {
        return finish_onboarding(ob, input, elicit);
    }
    ob.enum_scroll_offset = 0;
    let i = ob.current_idx;
    let position = default_enum_position(&ob.fields[i]);
    ob.enum_selected = position;
    let blank_kind = match &ob.fields[i].field_type {
        OnboardingFieldType::Enum(_) => true,
        OnboardingFieldType::Array => true,
        _ => false,
    };
    if blank_kind {
        input.clear();
    } else {
        let d = match &ob.fields[i].default {
            Some(s) => s.clone(),
            None => String::new(),
        };
        input.set_text(d);
    }
    OnboardingStep { notice: None, action: None, finished: false }
}

/// The form as it stands when a capsule asks for it: on the first field,
/// nothing answered.
pub open spec fn fresh_view(
    capsule: Seq<char>,
    fields: Seq<OnboardingField>,
    segs: Seq<SegView>,
    cur: (int, int),
    elicit: Option<u128>,
) -> OnboardingView {
    OnboardingView {
        capsule,
        fields,
        idx: 0,
        answers: Map::empty(),
        selected: 0,
        scroll: 0,
        items: Seq::empty(),
        segs,
        cur,
        elicit,
    }
}

/// Opens the form a capsule asks for, on its first field, with a notice
/// that configuration is required. A request without fields opens
/// nothing and gets a notice saying so.
pub fn begin_onboarding(capsule_id: &str, fields: Vec<OnboardingField>, input: &mut InputBuffer) -> (r: (
    Option<Onboarding>,
    String,
))
    ensures
        fields@.len() == 0 ==> r.0 is None && r.1@ == "Capsule '"@ + capsule_id@
            + "' reported missing configuration but provided no fields."@ && final(input).segs() == old(
            input,
        ).segs() && final(input).cur() == old(input).cur(),
        fields@.len() > 0 ==> (r.0 matches Some(ob) && onboarding_view(ob, *final(input), None) == advance_step(
            fresh_view(capsule_id@, fields@, old(input).segs(), old(input).cur(), None),
        ).0) && r.1@ == "Action required: Capsule '"@ + capsule_id@ + "' requires configuration."@,
        cursor_ok(old(input).segs(), old(input).cur()) ==> cursor_ok(final(input).segs(), final(input).cur()),
{
    proof {
        reveal_strlit("Capsule '");
        reveal_strlit("' reported missing configuration but provided no fields.");
        reveal_strlit("Action required: Capsule '");
        reveal_strlit("' requires configuration.");
    }
    if fields.len() == 0 {
        return (None, cat3("Capsule '", capsule_id, "' reported missing configuration but provided no fields."));
    }
    let mut ob = Onboarding {
        capsule_id: String::from_str(capsule_id),
        fields,
        current_idx: 0,
        answers: StringMap::new(),
        enum_selected: 0,
        enum_scroll_offset: 0,
        current_array_items: Vec::new(),
    };
    let mut elicit: Option<u128> = None;
    proof {
        assert(answer_views(ob.answers.view()) =~= Map::<Seq<char>, Seq<char>>::empty());
        assert(string_views(ob.current_array_items@) =~= Seq::<Seq<char>>::empty());
    }
    advance_onboarding(&mut ob, input, &mut elicit);
    (Some(ob), cat3("Action required: Capsule '", capsule_id, "' requires configuration."))
}

/// Opens a one-field form for a capsule's lifecycle elicitation, whose
/// answer goes back as the elicitation's response, with a notice naming
/// the capsule and the field.
pub fn begin_elicitation(
    request_id: u128,
    capsule_id: &str,
    field: OnboardingField,
    input: &mut InputBuffer,
    elicit: &mut Option<u128>,
) -> (r: (Onboarding, String))
    ensures
        *final(elicit) == Some(request_id),
        onboarding_view(r.0, *final(input), *final(elicit)) == advance_step(
            fresh_view(capsule_id@, seq![field], old(input).segs(), old(input).cur(), Some(request_id)),
        ).0,
        r.1@ == "Capsule '"@ + capsule_id@ + "' is requesting input: "@ + field.key@,
        cursor_ok(final(input).segs(), final(input).cur()),
{
    proof {
        reveal_strlit("Capsule '");
        reveal_strlit("' is requesting input: ");
    }
    let mut notice = cat3("Capsule '", capsule_id, "' is requesting input: ");
    notice.append(field.key.as_str());
    *elicit = Some(request_id);
    let mut fields: Vec<OnboardingField> = Vec::new();
    fields.push(field);
    let mut ob = Onboarding {
        capsule_id: String::from_str(capsule_id),
        fields,
        current_idx: 0,
        answers: StringMap::new(),
        enum_selected: 0,
        enum_scroll_offset: 0,
        current_array_items: Vec::new(),
    };
    proof {
        assert(answer_views(ob.answers.view()) =~= Map::<Seq<char>, Seq<char>>::empty());
        assert(string_views(ob.current_array_items@) =~= Seq::<Seq<char>>::empty());
        assert(ob.fields@ =~= seq![field]);
    }
    advance_onboarding(&mut ob, input, elicit);
    (ob, notice)
}

/// Esc: drops the form; a pending elicitation gets an empty response.
fn cancel_onboarding(ob: &Onboarding, input: &mut InputBuffer, elicit: &mut Option<u128>) -> (r: OnboardingStep)
    ensures
        (onboarding_view(*ob, *final(input), *final(elicit)), step_view(r)) == cancel_step(
            onboarding_view(*ob, *old(input), *old(elicit)),
        ),
        cursor_ok(final(input).segs(), final(input).cur()),
{
    proof {
        reveal_strlit("Onboarding cancelled by user.");
    }
    let action = match *elicit {
        Some(id) => Some(OnboardingAction::SubmitElicitResponse { request_id: id, value: None, values: None }),
        None => None,
    };
    *elicit = None;
    input.clear();
    OnboardingStep { notice: Some(String::from_str("Onboarding cancelled by user.")), action, finished: true }
}

/// Enter on a text, secret or array field.
fn text_enter(ob: &mut Onboarding, input: &mut InputBuffer, elicit: &mut Option<u128>, terminal_height: u16) -> (r:
    OnboardingStep)
    ensures
        (onboarding_view(*final(ob), *final(input), *final(elicit)), step_view(r)) == text_enter_step(
            onboarding_view(*old(ob), *old(input), *old(elicit)),
            terminal_height as int,
        ),
        cursor_ok(final(input).segs(), final(input).cur()),
{
    proof {
        reveal_strlit("Input too long (max 4096 bytes). Please shorten it.");
        reveal_strlit("Array item limit reached. Press Enter on empty to finish.");
    }
    let ghost v = onboarding_view(*ob, *input, *elicit);
    let answer = input.flat_text();
    input.clear();
    let answer_chars = str_to_chars(answer.as_str());
    let answer_bytes = text_bytes(&answer);
    if answer_chars.len() > 0 && answer_bytes > MAX_INPUT_LEN {
        return OnboardingStep {
            notice: Some(String::from_str("Input too long (max 4096 bytes). Please shorten it.")),
            action: None,
            finished: false,
        };
    }
    let i = ob.current_idx;
    if i >= ob.fields.len() {
        return OnboardingStep { notice: None, action: None, finished: true };
    }
    let is_array = match &ob.fields[i].field_type {
        OnboardingFieldType::Array => true,
        _ => false,
    };
    let key = ob.fields[i].key.clone();
    if is_array {
        if answer_chars.len() == 0 {
            let json = strings_to_json(&ob.current_array_items);
            proof {
                lemma_answers_insert(ob.answers.view(), key, json);
            }
            ob.answers.insert(key, json);
            ob.current_array_items = Vec::new();
            ob.current_idx = i + 1;
            proof {
                assert(string_views(ob.current_array_items@) =~= Seq::<Seq<char>>::empty());
            }
            return advance_onboarding(ob, input, elicit);
        } else if ob.current_array_items.len() >= max_array_items(terminal_height, ob.fields.len()) {
            return OnboardingStep {
                notice: Some(String::from_str("Array item limit reached. Press Enter on empty to finish.")),
                action: None,
                finished: false,
            };
        } else {
            proof {
                lemma_string_views_push(ob.current_array_items@, answer);
            }
            ob.current_array_items.push(answer);
            return OnboardingStep { notice: None, action: None, finished: false };
        }
    }
    proof {
        lemma_answers_insert(ob.answers.view(), key, answer);
    }
    ob.answers.insert(key, answer);
    ob.current_idx = i + 1;
    advance_onboarding(ob, input, elicit)
}

/// A key on an enum field.
fn enum_key(ob: &mut Onboarding, input: &mut InputBuffer, elicit: &mut Option<u128>, key: Key) -> (r:
    OnboardingStep)
    requires
        old(ob).current_idx < old(ob).fields@.len(),
        old(ob).fields@[old(ob).current_idx as int].field_type is Enum,
        cursor_ok(old(input).segs(), old(input).cur()),
    ensures
        (onboarding_view(*final(ob), *final(input), *final(elicit)), step_view(r)) == enum_step(
            onboarding_view(*old(ob), *old(input), *old(elicit)),
            key,
        ),
        cursor_ok(final(input).segs(), final(input).cur()),
{
    proof {
        reveal_strlit("Skipped field with no available choices.");
    }
    let i = ob.current_idx;
    let n = ob.fields.len();
    assert(i < n);
    let count = match &ob.fields[i].field_type {
        OnboardingFieldType::Enum(v) => v.len(),
        _ => 0,
    };
    match key {
        Key::Esc => cancel_onboarding(ob, input, elicit),
        Key::Up => {
            if ob.enum_selected > 0 {
                ob.enum_selected = ob.enum_selected - 1;
                if ob.enum_selected < ob.enum_scroll_offset {
                    ob.enum_scroll_offset = ob.enum_selected;
                }
            }
            OnboardingStep { notice: None, action: None, finished: false }
        },
        Key::Down => {
            if ob.enum_selected < usize::MAX && ob.enum_selected + 1 < count {
                ob.enum_selected = ob.enum_selected + 1;
                if ob.enum_selected >= ob.enum_scroll_offset.saturating_add(PALETTE_MAX_VISIBLE) {
                    ob.enum_scroll_offset = (ob.enum_selected + 1).saturating_sub(PALETTE_MAX_VISIBLE);
                }
            }
            OnboardingStep { notice: None, action: None, finished: false }
        },
        Key::Enter => {
            let picked: Option<String> = match &ob.fields[i].field_type {
                OnboardingFieldType::Enum(v) => {
                    if v.len() > 0 {
                        let p = if ob.enum_selected < v.len() - 1 {
                            ob.enum_selected
                        } else {
                            v.len() - 1
                        };
                        Some(v[p].clone())
                    } else {
                        None
                    }
                },
                _ => None,
            };
            ob.current_idx = i + 1;
            match picked {
                Some(value) => {
                    let k = ob.fields[i].key.clone();
                    proof {
                        lemma_answers_insert(ob.answers.view(), k, value);
                    }
                    ob.answers.insert(k, value);
                    advance_onboarding(ob, input, elicit)
                },
                None => {
                    let s = advance_onboarding(ob, input, elicit);
                    OnboardingStep {
                        notice: Some(String::from_str("Skipped field with no available choices.")),
                        action: s.action,
                        finished: s.finished,
                    }
                },
            }
        },
        _ => OnboardingStep { notice: None, action: None, finished: false },
    }
}

/// What a key does to the onboarding form, the prompt and the pending
/// elicitation: see [`onboarding_step`].
pub fn handle_onboarding_key(
    ob: &mut Onboarding,
    input: &mut InputBuffer,
    elicit: &mut Option<u128>,
    terminal_height: u16,
    key: Key,
) -> (r: OnboardingStep)
    requires
        cursor_ok(old(input).segs(), old(input).cur()),
    ensures
        (onboarding_view(*final(ob), *final(input), *final(elicit)), step_view(r)) == onboarding_step(
            onboarding_view(*old(ob), *old(input), *old(elicit)),
            terminal_height as int,
            key,
        ),
        cursor_ok(final(input).segs(), final(input).cur()),
{
    let i = ob.current_idx;
    let is_enum = i < ob.fields.len() && match &ob.fields[i].field_type {
        OnboardingFieldType::Enum(_) => true,
        _ => false,
    };
    if is_enum {
        return enum_key(ob, input, elicit, key);
    }
    match key {
        Key::Esc => cancel_onboarding(ob, input, elicit),
        Key::Enter => text_enter(ob, input, elicit, terminal_height),
        Key::Char(c) => {
            input.insert_char(c);
            OnboardingStep { notice: None, action: None, finished: false }
        },
        Key::Backspace => {
            input.backspace();
            OnboardingStep { notice: None, action: None, finished: false }
        },
        Key::Left => {
            input.move_left();
            OnboardingStep { notice: None, action: None, finished: false }
        },
        Key::Right => {
            input.move_right();
            OnboardingStep { notice: None, action: None, finished: false }
        },
        _ => OnboardingStep { notice: None, action: None, finished: false },
    }
}

/// Esc closes the form without sending the answers: a pending
/// elicitation gets an empty response, and nothing goes to the capsule.
pub proof fn law_cancel_submits_nothing(v: OnboardingView, terminal_height: int)
    ensures
        onboarding_step(v, terminal_height, Key::Esc).1.finished,
        onboarding_step(v, terminal_height, Key::Esc).0.elicit is None,
        match onboarding_step(v, terminal_height, Key::Esc).1.action {
            Some(ActionView::Elicit { request_id, value, values }) => v.elicit == Some(request_id) && value is None
                && values is None,
            Some(ActionView::Submit { .. }) => false,
            None => v.elicit is None,
        },
{
}

/// Rows the onboarding menu needs: one per field and a title, plus the
/// shown choices of an enum field, the items of an array field, and a
/// line for the field's description.
pub open spec fn onboarding_rows(fields: Seq<OnboardingField>, current_idx: int, items: int) -> int {
    let n = sat_add(fields.len() as int, 1);
    if 0 <= current_idx < fields.len() {
        let f = fields[current_idx];
        let n1 = match f.field_type {
            OnboardingFieldType::Enum(choices) => sat_add(
                n,
                if choices@.len() < PALETTE_MAX_VISIBLE { choices@.len() as int } else { PALETTE_MAX_VISIBLE as int },
            ),
            OnboardingFieldType::Array => sat_add(n, items),
            _ => n,
        };
        if f.description is Some {
            sat_add(n1, 1)
        } else {
            n1
        }
    } else {
        n
    }
}

/// Rows the onboarding menu needs; see [`onboarding_rows`].
pub fn onboarding_row_count(fields: &[OnboardingField], current_idx: usize, current_array_items: &[String]) -> (r: usize)
    ensures
        r == onboarding_rows(fields@, current_idx as int, current_array_items@.len() as int),
{
    let mut n = fields.len().saturating_add(1);
    if current_idx < fields.len() {
        let f = &fields[current_idx];
        match &f.field_type {
            OnboardingFieldType::Enum(choices) => {
                let shown = if choices.len() < PALETTE_MAX_VISIBLE {
                    choices.len()
                } else {
                    PALETTE_MAX_VISIBLE
                };
                n = n.saturating_add(shown);
            },
            OnboardingFieldType::Array => {
                n = n.saturating_add(current_array_items.len());
            },
            _ => {},
        }
        if f.description.is_some() {
            n = n.saturating_add(1);
        }
    }
    n
}

} // verus!
