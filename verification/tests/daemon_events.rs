//! What the terminal UI makes of the daemon's messages.

use astrid::approval_keys::SelectionOption;
use astrid::daemon_events::{
    active_model_reply, base_slash_commands, begin_selection, changed_model, models_listing,
    palette_with_capsule_commands, refreshes_commands, CapsuleCommand, ProviderEntry, StreamOutcome,
    StreamState,
};

#[test]
fn streamed_answer_becomes_one_message() {
    let mut s = StreamState::new();
    assert_eq!(s.receive("", false), StreamOutcome { message: None, done: false });
    assert!(!s.streaming);
    assert_eq!(s.receive("Hel", false), StreamOutcome { message: None, done: false });
    assert!(s.streaming);
    s.receive("lo", false);
    let out = s.receive("!", true);
    assert_eq!(out, StreamOutcome { message: Some("Hello!".to_string()), done: true });
    assert!(!s.streaming);
    assert!(s.buffer.is_empty());
}

#[test]
fn empty_final_piece_adds_no_message() {
    let mut s = StreamState::new();
    assert_eq!(s.receive("", true), StreamOutcome { message: None, done: true });
}

#[test]
fn palette_lists_capsule_commands_after_builtins() {
    let base = base_slash_commands();
    assert_eq!(base.len(), 5);
    assert_eq!(base[0].name, "/help");
    assert_eq!(base[4].description, "Disconnect from the daemon");
    let cmds = vec![CapsuleCommand {
        name: "models".to_string(),
        description: "Pick a model".to_string(),
        provider_capsule: "registry".to_string(),
    }];
    let all = palette_with_capsule_commands(&cmds);
    assert_eq!(all.len(), 6);
    assert_eq!(all[5].name, "/models");
    assert_eq!(all[5].description, "Pick a model (via registry)");
}

#[test]
fn model_listing_text() {
    assert!(models_listing(&[]).is_none());
    let text = models_listing(&[
        ProviderEntry {
            id: Some("gpt".to_string()),
            description: Some("chat".to_string()),
            capsule: Some("openai".to_string()),
        },
        ProviderEntry { id: None, description: None, capsule: None },
    ])
    .unwrap();
    assert_eq!(
        text,
        "Available Models:\n  - gpt — chat (via openai)\n  - ? —  (via ?)\n\nUse /models <model_id> to switch."
    );
}

#[test]
fn model_switch_reply() {
    assert_eq!(
        active_model_reply(Some("gpt-x"), None),
        (Some("Active model set to: gpt-x".to_string()), Some("gpt-x".to_string()))
    );
    assert_eq!(
        active_model_reply(None, Some("unknown model")),
        (Some("Failed to set model: unknown model".to_string()), None)
    );
    assert_eq!(active_model_reply(None, None), (None, None));
}

#[test]
fn empty_selection_requests_become_a_notice() {
    let r = begin_selection(vec![], "cb".to_string(), "r1".to_string());
    assert_eq!(r.err(), Some("No options available.".to_string()));
    let opts = vec![SelectionOption { id: "a".to_string(), label: "A".to_string() }];
    let menu = begin_selection(opts, "cb".to_string(), "r1".to_string()).unwrap();
    assert_eq!(menu.selected, 0);
    assert_eq!(menu.options.len(), 1);
    assert_eq!(menu.callback_topic, "cb");
    assert_eq!(menu.request_id, "r1");
}

#[test]
fn capsules_loaded_refreshes_the_palette() {
    assert!(refreshes_commands("astrid.v1.capsules_loaded"));
    assert!(!refreshes_commands("astrid.v1.capsules_loaded.extra"));
}

#[test]
fn active_model_changes_follow_the_registry() {
    assert_eq!(changed_model("registry.v1.active_model_changed", Some("gpt-4o")), Some("gpt-4o".to_string()));
    assert_eq!(changed_model("registry.v1.active_model_changed", None), None);
    assert_eq!(changed_model("registry.v1.other", Some("gpt-4o")), None);
}
