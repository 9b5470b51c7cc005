//! Filling in a capsule's onboarding form from the terminal UI.

use astrid::idle_keys::Key;
use astrid::input_buffer::InputBuffer;
use astrid::onboarding::{
    advance_onboarding, default_enum_position, handle_onboarding_key, Onboarding, OnboardingAction,
    OnboardingField, OnboardingFieldType,
};
use astrid::render_text::max_array_items;
use astrid::onboarding::onboarding_row_count;
use astrid::string_map::StringMap;

struct Ui {
    ob: Onboarding,
    input: InputBuffer,
    elicit: Option<u128>,
    terminal_height: u16,
    idle: bool,
    actions: Vec<OnboardingAction>,
    notices: Vec<String>,
}

impl Ui {
    fn press(&mut self, key: Key) {
        assert!(!self.idle, "the form is closed");
        let step = handle_onboarding_key(&mut self.ob, &mut self.input, &mut self.elicit, self.terminal_height, key);
        if let Some(n) = step.notice {
            self.notices.push(n);
        }
        if let Some(a) = step.action {
            self.actions.push(a);
        }
        if step.finished {
            self.idle = true;
        }
    }
}

fn field(key: &str, prompt: &str, field_type: OnboardingFieldType, default: Option<&str>) -> OnboardingField {
    OnboardingField {
        key: key.into(),
        prompt: prompt.into(),
        description: None,
        field_type,
        default: default.map(|d| d.to_string()),
        placeholder: None,
    }
}

fn form(fields: Vec<OnboardingField>) -> Ui {
    Ui {
        ob: Onboarding {
            capsule_id: "test-capsule".into(),
            fields,
            current_idx: 0,
            answers: StringMap::new(),
            enum_selected: 0,
            enum_scroll_offset: 0,
            current_array_items: Vec::new(),
        },
        input: InputBuffer::default(),
        elicit: None,
        terminal_height: 24,
        idle: false,
        actions: Vec::new(),
        notices: Vec::new(),
    }
}

fn with_array() -> Ui {
    form(vec![
        field("relays", "Enter relay URLs", OnboardingFieldType::Array, None),
        field("name", "Enter name", OnboardingFieldType::Text, None),
    ])
}

#[test]
fn array_field_adds_items_on_enter() {
    let mut ui = with_array();

    ui.input.set_text("wss://relay1".into());
    ui.press(Key::Enter);
    assert_eq!(ui.ob.current_idx, 0, "should stay on same field");
    assert_eq!(ui.ob.current_array_items, ["wss://relay1"]);

    ui.input.set_text("wss://relay2".into());
    ui.press(Key::Enter);
    assert_eq!(ui.ob.current_array_items, ["wss://relay1", "wss://relay2"]);
}

#[test]
fn array_field_finalizes_on_empty_enter() {
    let mut ui = with_array();

    ui.input.set_text("wss://relay1".into());
    ui.press(Key::Enter);
    ui.press(Key::Enter);

    assert_eq!(ui.ob.current_idx, 1, "should advance to next field");
    assert!(ui.ob.current_array_items.is_empty(), "items should be cleared");
    assert_eq!(ui.ob.answers.get("relays").unwrap(), r#"["wss://relay1"]"#);
}

#[test]
fn array_field_empty_array_stores_empty_json() {
    let mut ui = with_array();
    ui.press(Key::Enter);
    assert_eq!(ui.ob.current_idx, 1);
    assert_eq!(ui.ob.answers.get("relays").unwrap(), "[]");
}

#[test]
fn non_array_field_submits_immediately() {
    let mut ui = with_array();
    ui.press(Key::Enter);
    ui.input.set_text("my-name".into());
    ui.press(Key::Enter);

    assert!(ui.idle, "should transition to Idle after all fields");
    assert_eq!(ui.actions.len(), 1);
    match &ui.actions[0] {
        OnboardingAction::SubmitOnboarding { answers, capsule_id } => {
            assert_eq!(capsule_id, "test-capsule");
            assert_eq!(answers.get("name").unwrap(), "my-name");
            assert_eq!(answers.get("relays").unwrap(), "[]");
        },
        other => panic!("expected SubmitOnboarding action, got {other:?}"),
    }
}

#[test]
fn onboarding_esc_cancels_typed_input() {
    let mut ui = with_array();
    ui.input.set_text("item1".into());
    ui.press(Key::Char('x'));
    assert_eq!(ui.input.flat_text(), "item1x");
    ui.press(Key::Esc);
    assert!(ui.idle);
    assert!(ui.input.is_empty());
    assert_eq!(ui.notices, ["Onboarding cancelled by user."]);
}

#[test]
fn onboarding_esc_cancels_after_accumulated_items() {
    let mut ui = with_array();
    ui.input.set_text("wss://relay1".into());
    ui.press(Key::Enter);
    ui.input.set_text("wss://relay2".into());
    ui.press(Key::Enter);
    assert_eq!(ui.ob.current_array_items.len(), 2);

    ui.press(Key::Esc);
    assert!(ui.idle);
    assert!(ui.actions.is_empty(), "no submit action on cancel");
}

#[test]
fn array_field_capped_by_terminal_height() {
    let mut ui = with_array();
    let cap = max_array_items(ui.terminal_height, 2);
    assert_eq!(cap, 4);
    for i in 0..cap {
        ui.ob.current_array_items.push(format!("item{i}"));
    }
    ui.input.set_text("one-too-many".into());
    ui.press(Key::Enter);
    assert_eq!(ui.ob.current_array_items.len(), cap, "should not exceed cap");
    assert!(ui.notices.iter().any(|m| m.contains("limit")), "should show cap notice");
}

#[test]
fn array_items_with_special_chars_serialize_correctly() {
    let mut ui = with_array();
    ui.input.set_text(r#"value with "quotes""#.into());
    ui.press(Key::Enter);
    ui.input.set_text("value,with,commas".into());
    ui.press(Key::Enter);
    ui.press(Key::Enter);

    let stored = ui.ob.answers.get("relays").unwrap();
    let parsed: Vec<String> = serde_json::from_str(stored).unwrap();
    assert_eq!(parsed.len(), 2);
    assert_eq!(parsed[0], r#"value with "quotes""#);
    assert_eq!(parsed[1], "value,with,commas");
}

#[test]
fn consecutive_array_fields_clear_items_between() {
    let mut ui = form(vec![
        field("relays", "Relays", OnboardingFieldType::Array, None),
        field("peers", "Peers", OnboardingFieldType::Array, None),
    ]);
    ui.terminal_height = 60;

    ui.input.set_text("relay1".into());
    ui.press(Key::Enter);
    ui.press(Key::Enter);

    assert_eq!(ui.ob.current_idx, 1);
    assert!(ui.ob.current_array_items.is_empty(), "array items should be cleared for next field");
    assert_eq!(ui.ob.answers.get("relays").unwrap(), r#"["relay1"]"#);
}

#[test]
fn array_field_default_not_prefilled() {
    let mut ui = form(vec![field("relays", "Relays", OnboardingFieldType::Array, Some(r#"["a","b"]"#))]);
    let step = advance_onboarding(&mut ui.ob, &mut ui.input, &mut ui.elicit);
    assert!(!step.finished);
    assert!(ui.input.is_empty(), "array field should start with empty input, not pre-filled default");
}

fn colors() -> OnboardingFieldType {
    OnboardingFieldType::Enum(vec!["red".into(), "green".into(), "blue".into()])
}

#[test]
fn text_field_is_prefilled_with_default() {
    let mut ui = form(vec![
        field("color", "Color", colors(), Some("green")),
        field("nick", "Nick", OnboardingFieldType::Text, Some("anon")),
        field("token", "Token", OnboardingFieldType::Secret, None),
    ]);
    advance_onboarding(&mut ui.ob, &mut ui.input, &mut ui.elicit);
    assert_eq!(ui.ob.enum_selected, 1);
    assert!(ui.input.is_empty());
    ui.press(Key::Down);
    assert_eq!(ui.ob.enum_selected, 2);
    ui.press(Key::Down);
    assert_eq!(ui.ob.enum_selected, 2);
    ui.press(Key::Up);
    ui.press(Key::Enter);
    assert_eq!(ui.ob.answers.get("color").unwrap(), "green");
    assert_eq!(ui.input.flat_text(), "anon");
    ui.press(Key::Backspace);
    ui.press(Key::Char('!'));
    ui.press(Key::Enter);
    assert_eq!(ui.ob.answers.get("nick").unwrap(), "ano!");
    assert!(ui.input.is_empty());
    ui.input.set_text("s3cret".into());
    ui.press(Key::Enter);
    assert!(ui.idle);
    match &ui.actions[0] {
        OnboardingAction::SubmitOnboarding { answers, .. } => {
            assert_eq!(answers.len(), 3);
            assert_eq!(answers.get("token").unwrap(), "s3cret");
        },
        other => panic!("unexpected {other:?}"),
    }
}

#[test]
fn enum_without_choices_is_skipped() {
    let mut ui = form(vec![
        field("mode", "Mode", OnboardingFieldType::Enum(Vec::new()), None),
        field("name", "Name", OnboardingFieldType::Text, None),
    ]);
    ui.press(Key::Enter);
    assert_eq!(ui.notices, ["Skipped field with no available choices."]);
    assert_eq!(ui.ob.current_idx, 1);
    assert!(ui.ob.answers.get("mode").is_none());
}

#[test]
fn enum_scroll_follows_highlight() {
    let choices: Vec<String> = (0..10).map(|i| format!("c{i}")).collect();
    let mut ui = form(vec![field("c", "C", OnboardingFieldType::Enum(choices), Some("c9"))]);
    assert_eq!(default_enum_position(&ui.ob.fields[0]), 9);
    for _ in 0..7 {
        ui.press(Key::Down);
    }
    assert_eq!(ui.ob.enum_selected, 7);
    assert_eq!(ui.ob.enum_scroll_offset, 2);
    for _ in 0..5 {
        ui.press(Key::Up);
    }
    assert_eq!(ui.ob.enum_selected, 2);
    assert_eq!(ui.ob.enum_scroll_offset, 2);
    ui.press(Key::Up);
    assert_eq!(ui.ob.enum_scroll_offset, 1);
}

#[test]
fn elicitation_gets_the_single_answer() {
    let mut ui = form(vec![field("api_key", "Key", OnboardingFieldType::Secret, None)]);
    ui.elicit = Some(42);
    ui.input.set_text("k-123".into());
    ui.press(Key::Enter);
    assert!(ui.idle);
    assert!(ui.elicit.is_none());
    match &ui.actions[0] {
        OnboardingAction::SubmitElicitResponse { request_id, value, values } => {
            assert_eq!(*request_id, 42);
            assert_eq!(value.as_deref(), Some("k-123"));
            assert!(values.is_none());
        },
        other => panic!("unexpected {other:?}"),
    }
}

#[test]
fn elicitation_gets_array_items_and_cancel_answers_empty() {
    let mut ui = form(vec![field("relays", "Relays", OnboardingFieldType::Array, None)]);
    ui.elicit = Some(7);
    ui.input.set_text("a".into());
    ui.press(Key::Enter);
    ui.press(Key::Enter);
    assert!(ui.idle);
    match &ui.actions[0] {
        OnboardingAction::SubmitElicitResponse { request_id, value, values } => {
            assert_eq!(*request_id, 7);
            assert!(value.is_none());
            // The items were moved into the answer before the form closed.
            assert_eq!(values.as_ref().unwrap().len(), 0);
        },
        other => panic!("unexpected {other:?}"),
    }

    let mut ui = form(vec![field("relays", "Relays", OnboardingFieldType::Array, None)]);
    ui.elicit = Some(8);
    ui.press(Key::Esc);
    match &ui.actions[0] {
        OnboardingAction::SubmitElicitResponse { request_id, value, values } => {
            assert_eq!(*request_id, 8);
            assert!(value.is_none() && values.is_none());
        },
        other => panic!("unexpected {other:?}"),
    }
}

#[test]
fn overlong_answer_is_refused() {
    let mut ui = form(vec![field("name", "Name", OnboardingFieldType::Text, None)]);
    ui.input.set_text("x".repeat(4097));
    ui.press(Key::Enter);
    assert!(!ui.idle);
    assert_eq!(ui.notices, ["Input too long (max 4096 bytes). Please shorten it."]);
    assert!(ui.input.is_empty());
    ui.input.set_text("x".repeat(4096));
    ui.press(Key::Enter);
    assert!(ui.idle);
}

#[test]
fn onboarding_request_opens_form_on_first_field() {
    let mut input = InputBuffer::default();
    input.set_text("stale".into());
    let (ob, notice) = astrid::onboarding::begin_onboarding(
        "nostr",
        vec![
            field("nick", "Nick", OnboardingFieldType::Text, Some("anon")),
            field("relays", "Relays", OnboardingFieldType::Array, None),
        ],
        &mut input,
    );
    let ob = ob.unwrap();
    assert_eq!(notice, "Action required: Capsule 'nostr' requires configuration.");
    assert_eq!(ob.capsule_id, "nostr");
    assert_eq!(ob.current_idx, 0);
    assert_eq!(input.flat_text(), "anon");
}

#[test]
fn onboarding_request_without_fields_opens_nothing() {
    let mut input = InputBuffer::default();
    let (ob, notice) = astrid::onboarding::begin_onboarding("nostr", Vec::new(), &mut input);
    assert!(ob.is_none());
    assert_eq!(notice, "Capsule 'nostr' reported missing configuration but provided no fields.");
}

#[test]
fn elicitation_request_opens_single_field_form() {
    let mut input = InputBuffer::default();
    let mut elicit = None;
    let (mut ob, notice) = astrid::onboarding::begin_elicitation(
        99,
        "llm",
        field("model", "Model", colors(), Some("blue")),
        &mut input,
        &mut elicit,
    );
    assert_eq!(notice, "Capsule 'llm' is requesting input: model");
    assert_eq!(elicit, Some(99));
    assert_eq!(ob.enum_selected, 2);
    let step = handle_onboarding_key(&mut ob, &mut input, &mut elicit, 24, Key::Enter);
    assert!(step.finished);
    match step.action.unwrap() {
        OnboardingAction::SubmitElicitResponse { request_id, value, values } => {
            assert_eq!(request_id, 99);
            assert_eq!(value.as_deref(), Some("blue"));
            assert!(values.is_none());
        },
        other => panic!("unexpected {other:?}"),
    }
}

#[test]
fn onboarding_rows_count_menu_lines() {
    let mut fields = vec![
        field("c", "C", OnboardingFieldType::Enum((0..9).map(|i| format!("c{i}")).collect()), None),
        field("a", "A", OnboardingFieldType::Array, None),
        field("t", "T", OnboardingFieldType::Text, None),
    ];
    fields[2].description = Some("more".into());
    let items = vec!["x".to_string(), "y".to_string()];
    assert_eq!(onboarding_row_count(&fields, 0, &items), 4 + 6);
    assert_eq!(onboarding_row_count(&fields, 1, &items), 4 + 2);
    assert_eq!(onboarding_row_count(&fields, 2, &items), 4 + 1);
    assert_eq!(onboarding_row_count(&fields, 3, &items), 4);
}

#[test]
fn array_answers_are_json_escaped() {
    let mut ui = with_array();
    ui.input.set_text("a\"b\\c".into());
    ui.press(Key::Enter);
    ui.input.set_text("tab\there\u{1}".into());
    ui.press(Key::Enter);
    ui.press(Key::Enter);
    assert_eq!(ui.ob.answers.get("relays").unwrap(), r#"["a\"b\\c","tab\there\u0001"]"#);
}
