//! The lines of the onboarding form.

use astrid::onboarding::{OnboardingField, OnboardingFieldType};
use astrid::onboarding_menu::{onboarding_menu_lines, MenuRole, MenuSpan};

fn field(key: &str, prompt: &str, ft: OnboardingFieldType, desc: Option<&str>) -> OnboardingField {
    OnboardingField {
        key: key.to_string(),
        prompt: prompt.to_string(),
        description: desc.map(|d| d.to_string()),
        field_type: ft,
        default: None,
        placeholder: None,
    }
}

fn flat(lines: &[Vec<MenuSpan>]) -> Vec<Vec<(MenuRole, String)>> {
    lines.iter().map(|l| l.iter().map(|s| (s.role, s.text.clone())).collect()).collect()
}

fn line(parts: &[(MenuRole, &str)]) -> Vec<(MenuRole, String)> {
    parts.iter().map(|(r, t)| (*r, t.to_string())).collect()
}

#[test]
fn fields_are_marked_done_current_and_pending() {
    let fields = vec![
        field("name", "Your name", OnboardingFieldType::Text, None),
        field("key", "API key\u{7}", OnboardingFieldType::Secret, Some("From the dashboard")),
        field("relays", "Relay", OnboardingFieldType::Array, None),
    ];
    let lines = flat(&onboarding_menu_lines("nostr", &fields, 1, 0, 0, &vec![]));
    assert_eq!(
        lines,
        vec![
            line(&[(MenuRole::Title, "  \u{2699}  Capsule Configuration: "), (MenuRole::CapsuleId, "nostr")]),
            line(&[(MenuRole::Done, "  \u{2713} "), (MenuRole::Done, "name"), (MenuRole::Saved, "  (saved)")]),
            line(&[(MenuRole::Current, "  \u{25b6} "), (MenuRole::Current, "key"), (MenuRole::Hint, "  \u{2190} API key")]),
            line(&[(MenuRole::Description, "      From the dashboard")]),
            line(&[(MenuRole::Pending, "    "), (MenuRole::Pending, "relays")]),
        ]
    );
}

#[test]
fn enum_choices_show_a_window_with_the_selection() {
    let choices: Vec<String> = (0..12).map(|i| format!("c{i}")).collect();
    let fields = vec![field("pick", "Pick", OnboardingFieldType::Enum(choices), None)];
    let lines = flat(&onboarding_menu_lines("cap", &fields, 0, 5, 4, &vec![]));
    assert_eq!(lines[1][2], (MenuRole::Hint, "  \u{2190} \u{2191}\u{2193} to select, Enter to confirm".to_string()));
    assert_eq!(lines.len(), 2 + 6);
    assert_eq!(lines[2], line(&[(MenuRole::Choice, "        "), (MenuRole::Choice, "c4")]));
    assert_eq!(lines[3], line(&[(MenuRole::ChoiceSelected, "      \u{25b8} "), (MenuRole::ChoiceSelected, "c5")]));
    assert_eq!(lines[7], line(&[(MenuRole::Choice, "        "), (MenuRole::Choice, "c9")]));
}

#[test]
fn array_items_are_numbered_under_the_current_field() {
    let fields = vec![field("relays", "Relay URL", OnboardingFieldType::Array, None)];
    let items = vec!["wss://a".to_string(), "wss://b".to_string()];
    let lines = flat(&onboarding_menu_lines("cap", &fields, 0, 0, 0, &items));
    assert_eq!(lines[1][2], (MenuRole::Hint, "  \u{2190} Relay URL (empty to finish)".to_string()));
    assert_eq!(lines[2], line(&[(MenuRole::ItemNumber, "      1. "), (MenuRole::Item, "wss://a")]));
    assert_eq!(lines[3], line(&[(MenuRole::ItemNumber, "      2. "), (MenuRole::Item, "wss://b")]));
    assert_eq!(lines.len(), 4);
}
