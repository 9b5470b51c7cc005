//! Configuration sections: defaults, and renderings that keep secrets out.

use astrid::config_types::{
    default_link_method, default_max_retries, DiscordSection, HooksSection, PolicySection,
    RestartPolicyConfig, ServerSection, SparkSection, TelegramSection, WorkspaceSection,
};

#[test]
fn restart_policy_config_default_is_never() {
    let policy = RestartPolicyConfig::default();
    assert_eq!(policy, RestartPolicyConfig::Never);
}

#[test]
fn server_section_default_has_restart_policy_never() {
    let section = ServerSection::default();
    assert_eq!(section.restart_policy, RestartPolicyConfig::Never);
}

#[test]
fn spark_section_default_is_empty() {
    let spark = SparkSection::default();
    assert!(spark.is_empty());
}

#[test]
fn discord_section_debug_hides_token() {
    let section = DiscordSection {
        bot_token: Some("secret".into()),
        application_id: Some("app-id".into()),
        ..Default::default()
    };
    let debug = section.debug_string();
    assert!(!debug.contains("secret"));
    assert!(debug.contains("has_bot_token: true"));
}

#[test]
fn test_server_section_debug_redacts_env() {
    let mut section = ServerSection::default();
    section
        .env
        .insert("SECRET_KEY".to_owned(), "super-secret-value".to_owned());

    let debug_str = section.debug_string();
    assert!(
        !debug_str.contains("super-secret-value"),
        "Debug output must not contain env var values"
    );
    assert!(debug_str.contains("SECRET_KEY"));
    assert!(debug_str.contains("***"));
}

#[test]
fn server_section_debug_exact() {
    let mut section = ServerSection::default();
    section.env.insert("K".to_owned(), "v".to_owned());
    section.restart_policy = RestartPolicyConfig::OnFailure { max_retries: 7 };
    assert_eq!(
        section.debug_string(),
        "ServerSection { transport: \"stdio\", command: None, args: [], url: None, \
         binary_hash: None, env: {\"K\": \"***\"}, cwd: None, auto_start: false, \
         description: None, trusted: false, restart_policy: OnFailure { max_retries: 7 } }"
    );
}

#[test]
fn telegram_section_debug_hides_token() {
    let mut section = TelegramSection::default();
    section.bot_token = Some("tg-secret".to_string());
    section.allowed_user_ids = vec![1, 22];
    let d = section.debug_string();
    assert!(!d.contains("tg-secret"));
    assert!(d.contains("has_bot_token: true"));
    assert!(d.contains("allowed_user_ids: [1, 22]"));
}

#[test]
fn defaults_hold_documented_values() {
    let p = PolicySection::default();
    assert_eq!(p.blocked_tools.len(), 10);
    assert_eq!(p.denied_paths[0], "/etc/**");
    assert_eq!(p.max_argument_size, 1_048_576);
    let w = WorkspaceSection::default();
    assert_eq!(w.mode, "safe");
    assert_eq!(w.escape_policy, "ask");
    assert_eq!(w.never_allow.len(), 7);
    let h = HooksSection::default();
    assert!(!h.allow_wasm_hooks && h.allow_command_hooks);
    assert_eq!(default_max_retries(), 3);
    assert_eq!(default_link_method(), "admin");
}
