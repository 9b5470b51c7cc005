//! The lines of the onboarding form as the terminal shows it: a title, one
//! line per field marking it done, current or still to come, and under the
//! current field its description, the visible window of an enum's choices
//! or the items of an array gathered so far.

use vstd::prelude::*;
use crate::command_palette::PALETTE_MAX_VISIBLE;
use crate::onboarding::{OnboardingField, OnboardingFieldType};
use crate::render_text::{sanitize_control_chars, without_controls};
use crate::text::{cat, cat3, decimal, u64_to_decimal};

verus! {

/// How a piece of the menu is shown; the theme gives each its colour.
#[derive(Debug, Clone, Copy, PartialEq, Eq, Structural)]
pub enum MenuRole {
    /// The title, bold in the tool colour.
    Title,
    /// The capsule's id, in the user colour.
    CapsuleId,
    /// The current field, bold in the tool colour.
    Current,
    /// A field already answered, in the success colour.
    Done,
    /// A field still to come, muted.
    Pending,
    /// The hint after the current field, italic in the border colour.
    Hint,
    /// The mark after an answered field, muted italic.
    Saved,
    /// The current field's description, italic in the border colour.
    Description,
    /// The highlighted choice, bold in the user colour.
    ChoiceSelected,
    /// Another choice, in the assistant colour.
    Choice,
    /// An array item's number, muted.
    ItemNumber,
    /// An array item, in the user colour.
    Item,
}

/// A piece of text of the menu and how it is shown.
#[derive(Debug)]
pub struct MenuSpan {
    pub role: MenuRole,
    pub text: String,
}

pub open spec fn line_view(l: Seq<MenuSpan>) -> Seq<(MenuRole, Seq<char>)> {
    l.map_values(|s: MenuSpan| (s.role, s.text@))
}

pub open spec fn lines_view(v: Seq<Vec<MenuSpan>>) -> Seq<Seq<(MenuRole, Seq<char>)>> {
    v.map_values(|l: Vec<MenuSpan>| line_view(l@))
}

pub open spec fn texts(v: Seq<String>) -> Seq<Seq<char>> {
    v.map_values(|s: String| s@)
}

/// The hint shown after the current field.
pub open spec fn field_hint(f: OnboardingField) -> Seq<char> {
    match f.field_type {
        OnboardingFieldType::Enum(_) => "\u{2191}\u{2193} to select, Enter to confirm"@,
        OnboardingFieldType::Array => without_controls(f.prompt@) + " (empty to finish)"@,
        _ => without_controls(f.prompt@),
    }
}

/// The line of field `i` when field `cur` is being answered.
pub open spec fn field_line(f: OnboardingField, i: int, cur: int) -> Seq<(MenuRole, Seq<char>)> {
    let role = if i == cur {
        MenuRole::Current
    } else if i < cur {
        MenuRole::Done
    } else {
        MenuRole::Pending
    };
    let prefix = if i == cur {
        "  \u{25b6} "@
    } else if i < cur {
        "  \u{2713} "@
    } else {
        "    "@
    };
    seq![(role, prefix), (role, without_controls(f.key@))] + if i == cur {
        seq![(MenuRole::Hint, "  \u{2190} "@ + field_hint(f))]
    } else if i < cur {
        seq![(MenuRole::Saved, "  (saved)"@)]
    } else {
        Seq::empty()
    }
}

/// The last choice shown, one past it: a window of at most
/// [`PALETTE_MAX_VISIBLE`] choices from `offset`.
pub open spec fn choice_end(n: int, offset: int) -> int {
    let visible = if n < PALETTE_MAX_VISIBLE {
        n
    } else {
        PALETTE_MAX_VISIBLE as int
    };
    let reach = if offset + visible > usize::MAX {
        usize::MAX as int
    } else {
        offset + visible
    };
    if n < reach {
        n
    } else {
        reach
    }
}

pub open spec fn choice_line(c: Seq<char>, selected: bool) -> Seq<(MenuRole, Seq<char>)> {
    if selected {
        seq![(MenuRole::ChoiceSelected, "      \u{25b8} "@), (MenuRole::ChoiceSelected, c)]
    } else {
        seq![(MenuRole::Choice, "        "@), (MenuRole::Choice, c)]
    }
}

/// The choices shown, from `offset` to [`choice_end`].
pub open spec fn choice_lines(choices: Seq<Seq<char>>, sel: int, offset: int) -> Seq<Seq<(MenuRole, Seq<char>)>> {
    let end = choice_end(choices.len() as int, offset);
    let n = if end > offset {
        end - offset
    } else {
        0
    };
    Seq::new(n as nat, |k: int| choice_line(choices[offset + k], offset + k == sel))
}

pub open spec fn item_line(j: int, item: Seq<char>) -> Seq<(MenuRole, Seq<char>)> {
    seq![(MenuRole::ItemNumber, "      "@ + decimal((j + 1) as nat) + ". "@), (MenuRole::Item, item)]
}

/// The lines of field `i`.
pub open spec fn field_lines(
    f: OnboardingField,
    i: int,
    cur: int,
    sel: int,
    offset: int,
    items: Seq<Seq<char>>,
) -> Seq<Seq<(MenuRole, Seq<char>)>> {
    let desc = match f.description {
        Some(d) => if i == cur {
            seq![seq![(MenuRole::Description, "      "@ + d@)]]
        } else {
            Seq::empty()
        },
        None => Seq::empty(),
    };
    let extra = if i != cur {
        Seq::empty()
    } else {
        match f.field_type {
            OnboardingFieldType::Enum(choices) => choice_lines(texts(choices@), sel, offset),
            OnboardingFieldType::Array => Seq::new(items.len(), |j: int| item_line(j, items[j])),
            _ => Seq::empty(),
        }
    };
    seq![field_line(f, i, cur)] + desc + extra
}

/// The lines of all of `fields`, in order.
pub open spec fn fields_lines(
    fields: Seq<OnboardingField>,
    cur: int,
    sel: int,
    offset: int,
    items: Seq<Seq<char>>,
) -> Seq<Seq<(MenuRole, Seq<char>)>>
    decreases fields.len(),
{
    if fields.len() == 0 {
        Seq::empty()
    } else {
        fields_lines(fields.drop_last(), cur, sel, offset, items) + field_lines(
            fields.last(),
            fields.len() - 1,
            cur,
            sel,
            offset,
            items,
        )
    }
}

/// The whole menu.
pub open spec fn menu_spec(
    capsule_id: Seq<char>,
    fields: Seq<OnboardingField>,
    cur: int,
    sel: int,
    offset: int,
    items: Seq<Seq<char>>,
) -> Seq<Seq<(MenuRole, Seq<char>)>> {
    seq![
        seq![
            (MenuRole::Title, "  \u{2699}  Capsule Configuration: "@),
            (MenuRole::CapsuleId, capsule_id),
        ],
    ] + fields_lines(fields, cur, sel, offset, items)
}

fn span(role: MenuRole, text: String) -> (r: MenuSpan)
    ensures
        r.role == role,
        r.text@ == text@,
{
    MenuSpan { role, text }
}

fn two(a: MenuSpan, b: MenuSpan) -> (r: Vec<MenuSpan>)
    ensures
        line_view(r@) =~= seq![(a.role, a.text@), (b.role, b.text@)],
{
    let mut v = Vec::new();
    v.push(a);
    v.push(b);
    v
}

fn one(a: MenuSpan) -> (r: Vec<MenuSpan>)
    ensures
        line_view(r@) =~= seq![(a.role, a.text@)],
{
    let mut v = Vec::new();
    v.push(a);
    v
}

fn field_line_exec(f: &OnboardingField, i: usize, cur: usize) -> (r: Vec<MenuSpan>)
    ensures
        line_view(r@) == field_line(*f, i as int, cur as int),
{
    let role = if i == cur {
        MenuRole::Current
    } else if i < cur {
        MenuRole::Done
    } else {
        MenuRole::Pending
    };
    let prefix = if i == cur {
        "  \u{25b6} "
    } else if i < cur {
        "  \u{2713} "
    } else {
        "    "
    };
    let mut v = two(span(role, String::from_str(prefix)), span(role, sanitize_control_chars(f.key.as_str())));
    if i == cur {
        let hint = match &f.field_type {
            OnboardingFieldType::Enum(_) => String::from_str("\u{2191}\u{2193} to select, Enter to confirm"),
            OnboardingFieldType::Array => {
                let p = sanitize_control_chars(f.prompt.as_str());
                cat(p.as_str(), " (empty to finish)")
            },
            _ => sanitize_control_chars(f.prompt.as_str()),
        };
        v.push(span(MenuRole::Hint, cat("  \u{2190} ", hint.as_str())));
    } else if i < cur {
        v.push(span(MenuRole::Saved, String::from_str("  (saved)")));
    }
    assert(line_view(v@) =~= field_line(*f, i as int, cur as int));
    v
}

fn choice_lines_exec(choices: &Vec<String>, sel: usize, offset: usize) -> (r: Vec<Vec<MenuSpan>>)
    ensures
        lines_view(r@) =~= choice_lines(texts(choices@), sel as int, offset as int),
{
    let visible = if choices.len() < PALETTE_MAX_VISIBLE {
        choices.len()
    } else {
        PALETTE_MAX_VISIBLE
    };
    let reach = offset.saturating_add(visible);
    let end = if choices.len() < reach {
        choices.len()
    } else {
        reach
    };
    let ghost want = choice_lines(texts(choices@), sel as int, offset as int);
    let mut r: Vec<Vec<MenuSpan>> = Vec::new();
    let mut ci = offset;
    while ci < end
        invariant
            offset <= ci <= end || (ci == offset && end <= offset),
            end <= choices@.len(),
            end as int == choice_end(choices@.len() as int, offset as int),
            lines_view(r@) =~= want.take(ci - offset),
            want.len() == if end > offset {
                end - offset
            } else {
                0
            },
            want == choice_lines(texts(choices@), sel as int, offset as int),
        decreases end - ci,
    {
        let c = choices[ci].clone();
        assert(c@ == texts(choices@)[ci as int]);
        assert(want[ci - offset] == choice_line(texts(choices@)[ci as int], ci == sel));
        let line = if ci == sel {
            two(span(MenuRole::ChoiceSelected, String::from_str("      \u{25b8} ")), span(MenuRole::ChoiceSelected, c))
        } else {
            two(span(MenuRole::Choice, String::from_str("        ")), span(MenuRole::Choice, c))
        };
        assert(line_view(line@) == want[ci - offset]);
        let ghost prev = r@;
        r.push(line);
        assert(lines_view(r@) =~= lines_view(prev).push(want[ci - offset]));
        assert(want.take(ci - offset + 1) =~= want.take(ci - offset).push(want[ci - offset]));
        ci = ci + 1;
    }
    assert(want.take(want.len() as int) =~= want);
    r
}

fn item_lines_exec(items: &Vec<String>) -> (r: Vec<Vec<MenuSpan>>)
    ensures
        lines_view(r@) =~= Seq::new(items@.len(), |j: int| item_line(j, texts(items@)[j])),
{
    let ghost want = Seq::new(items@.len(), |j: int| item_line(j, texts(items@)[j]));
    let mut r: Vec<Vec<MenuSpan>> = Vec::new();
    let mut j: usize = 0;
    while j < items.len()
        invariant
            j <= items@.len(),
            lines_view(r@) =~= want.take(j as int),
            want == Seq::new(items@.len(), |j: int| item_line(j, texts(items@)[j])),
        decreases items@.len() - j,
    {
        let n = u64_to_decimal((j + 1) as u64);
        let num = cat3("      ", n.as_str(), ". ");
        let it = items[j].clone();
        assert(it@ == texts(items@)[j as int]);
        let line = two(span(MenuRole::ItemNumber, num), span(MenuRole::Item, it));
        assert(line_view(line@) == want[j as int]);
        let ghost prev = r@;
        r.push(line);
        assert(lines_view(r@) =~= lines_view(prev).push(want[j as int]));
        assert(want.take(j + 1) =~= want.take(j as int).push(want[j as int]));
        j = j + 1;
    }
    assert(want.take(want.len() as int) =~= want);
    r
}

fn field_lines_exec(
    f: &OnboardingField,
    i: usize,
    cur: usize,
    sel: usize,
    offset: usize,
    items: &Vec<String>,
) -> (r: Vec<Vec<MenuSpan>>)
    ensures
        lines_view(r@) =~= field_lines(*f, i as int, cur as int, sel as int, offset as int, texts(items@)),
{
    let mut r: Vec<Vec<MenuSpan>> = Vec::new();
    r.push(field_line_exec(f, i, cur));
    if i == cur {
        match &f.description {
            Some(d) => {
                r.push(one(span(MenuRole::Description, cat("      ", d.as_str()))));
            },
            None => {},
        }
        match &f.field_type {
            OnboardingFieldType::Enum(choices) => {
                let mut more = choice_lines_exec(choices, sel, offset);
                r.append(&mut more);
            },
            OnboardingFieldType::Array => {
                let mut more = item_lines_exec(items);
                r.append(&mut more);
            },
            _ => {},
        }
    }
    r
}

/// The lines of the onboarding form for `capsule_id`, with field
/// `current_idx` being answered, choice `enum_selected` highlighted, the
/// choices shown from `enum_scroll_offset`, and the array items gathered so
/// far.
pub fn onboarding_menu_lines(
    capsule_id: &str,
    fields: &Vec<OnboardingField>,
    current_idx: usize,
    enum_selected: usize,
    enum_scroll_offset: usize,
    current_array_items: &Vec<String>,
) -> (r: Vec<Vec<MenuSpan>>)
    ensures
        lines_view(r@) == menu_spec(
            capsule_id@,
            fields@,
            current_idx as int,
            enum_selected as int,
            enum_scroll_offset as int,
            texts(current_array_items@),
        ),
{
    let ghost items = texts(current_array_items@);
    let mut r: Vec<Vec<MenuSpan>> = Vec::new();
    r.push(
        two(
            span(MenuRole::Title, String::from_str("  \u{2699}  Capsule Configuration: ")),
            span(MenuRole::CapsuleId, String::from_str(capsule_id)),
        ),
    );
    let ghost head = lines_view(r@);
    let mut i: usize = 0;
    while i < fields.len()
        invariant
            i <= fields@.len(),
            items == texts(current_array_items@),
            head =~= seq![
                seq![
                    (MenuRole::Title, "  \u{2699}  Capsule Configuration: "@),
                    (MenuRole::CapsuleId, capsule_id@),
                ],
            ],
            lines_view(r@) =~= head + fields_lines(
                fields@.take(i as int),
                current_idx as int,
                enum_selected as int,
                enum_scroll_offset as int,
                items,
            ),
        decreases fields@.len() - i,
    {
        let mut more = field_lines_exec(&fields[i], i, current_idx, enum_selected, enum_scroll_offset, current_array_items);
        let ghost before = lines_view(r@);
        let ghost added = lines_view(more@);
        r.append(&mut more);
        assert(lines_view(r@) =~= before + added);
        assert(fields@.take(i + 1).drop_last() =~= fields@.take(i as int));
        i = i + 1;
    }
    assert(fields@.take(i as int) =~= fields@);
    r
}

} // verus!
