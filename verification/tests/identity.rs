//! Frontend types: display names, canonical names and platform comparison.

use astrid::identity::{normalize_platform, FrontendType};

#[test]
fn test_frontend_type_display() {
    assert_eq!(FrontendType::Discord.to_string(), "discord");
    assert_eq!(FrontendType::WhatsApp.to_string(), "whatsapp");
    assert_eq!(
        FrontendType::Custom("matrix".to_string()).to_string(),
        "custom:matrix"
    );
}

#[test]
fn canonical_name_known_variants() {
    assert_eq!(FrontendType::Discord.canonical_name(), "discord");
    assert_eq!(FrontendType::WhatsApp.canonical_name(), "whatsapp");
    assert_eq!(FrontendType::Telegram.canonical_name(), "telegram");
    assert_eq!(FrontendType::Slack.canonical_name(), "slack");
    assert_eq!(FrontendType::Web.canonical_name(), "web");
    assert_eq!(FrontendType::Cli.canonical_name(), "cli");
}

#[test]
fn canonical_name_collapses_known_aliases() {
    // Custom strings matching a known variant collapse to that variant's key.
    assert_eq!(
        FrontendType::Custom("telegram".into()).canonical_name(),
        "telegram"
    );
    assert_eq!(
        FrontendType::Custom("Telegram".into()).canonical_name(),
        "telegram"
    );
    assert_eq!(
        FrontendType::Custom("DISCORD".into()).canonical_name(),
        "discord"
    );
    // "whats_app" (underscore variant) also collapses to "whatsapp".
    assert_eq!(
        FrontendType::Custom("whats_app".into()).canonical_name(),
        "whatsapp"
    );
    assert_eq!(
        FrontendType::Custom("Whats_App".into()).canonical_name(),
        "whatsapp"
    );
}

#[test]
fn canonical_name_trims_whitespace() {
    // Leading/trailing whitespace is stripped before matching.
    assert_eq!(
        FrontendType::Custom("  telegram  ".into())
            .canonical_name(),
        "telegram"
    );
    assert_eq!(
        FrontendType::Custom("  matrix  ".into())
            .canonical_name(),
        "matrix"
    );
}

#[test]
fn canonical_name_lowercases_unknown_custom() {
    assert_eq!(
        FrontendType::Custom("matrix".into())
            .canonical_name(),
        "matrix"
    );
    assert_eq!(
        FrontendType::Custom("MATRIX".into())
            .canonical_name(),
        "matrix"
    );
    assert_eq!(
        FrontendType::Custom("Matrix".into())
            .canonical_name(),
        "matrix"
    );
}

#[test]
fn is_same_platform_known_vs_custom_alias() {
    assert!(FrontendType::Telegram.is_same_platform(&FrontendType::Custom("telegram".into())));
    assert!(FrontendType::Telegram.is_same_platform(&FrontendType::Custom("Telegram".into())));
    assert!(FrontendType::Discord.is_same_platform(&FrontendType::Custom("DISCORD".into())));
    assert!(FrontendType::WhatsApp.is_same_platform(&FrontendType::Custom("whats_app".into())));
}

#[test]
fn is_same_platform_whitespace_normalized() {
    assert!(
        FrontendType::Telegram.is_same_platform(&FrontendType::Custom("  telegram  ".into()))
    );
    assert!(
        FrontendType::Custom("  matrix  ".into())
            .is_same_platform(&FrontendType::Custom("matrix".into()))
    );
}

#[test]
fn is_same_platform_custom_case_insensitive() {
    assert!(
        FrontendType::Custom("MATRIX".into())
            .is_same_platform(&FrontendType::Custom("matrix".into()))
    );
    assert!(
        FrontendType::Custom("Matrix".into())
            .is_same_platform(&FrontendType::Custom("MATRIX".into()))
    );
}

#[test]
fn is_same_platform_different_platforms() {
    assert!(!FrontendType::Discord.is_same_platform(&FrontendType::Telegram));
    assert!(
        !FrontendType::Custom("matrix".into())
            .is_same_platform(&FrontendType::Custom("signal".into()))
    );
}

#[test]
fn is_same_platform_empty_custom_values_are_equal() {
    // Two empty/whitespace-only Custom values both canonical to "" and compare equal.
    // The WASM boundary rejects these, but the public API should have defined behavior.
    assert!(FrontendType::Custom("".into()).is_same_platform(&FrontendType::Custom("".into())));
    assert!(
        FrontendType::Custom("".into()).is_same_platform(&FrontendType::Custom("   ".into()))
    );
}

#[test]
fn normalize_platform_trims_and_lowercases() {
    assert_eq!(normalize_platform("Discord"), "discord");
    assert_eq!(normalize_platform("  TELEGRAM  "), "telegram");
    assert_eq!(normalize_platform("matrix"), "matrix");
    assert_eq!(normalize_platform("  Matrix  "), "matrix");
}

#[test]
fn normalizing_twice_changes_nothing() {
    for name in ["  Discord ", "TELEGRAM", "\u{a0}Matrix\t", "already", "  ", "ÄBC  "] {
        let once = normalize_platform(name);
        assert_eq!(normalize_platform(once.as_str()), once);
    }
}
