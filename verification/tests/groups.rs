//! Group configuration: the built-in groups and the checked changes to custom ones.

use astrid::capability_grammar::CapabilityGrammarError;
use astrid::groups::{
    Group, GroupConfig, GroupConfigError, BUILTIN_ADMIN, BUILTIN_AGENT, BUILTIN_RESTRICTED,
};

fn custom(caps: &[&str]) -> Group {
    Group {
        capabilities: caps.iter().map(|s| (*s).to_string()).collect(),
        description: None,
        unsafe_admin: false,
    }
}

#[test]
fn builtin_only_contains_admin_agent_restricted() {
    let cfg = GroupConfig::builtin_only();
    assert_eq!(cfg.len(), 3);
    assert_eq!(
        cfg.get(BUILTIN_ADMIN).unwrap().capabilities,
        vec!["*".to_string()]
    );
    // Agent gets self:* plus explicit self-service visibility caps
    // (self:quota:get, self:agent:list) added in Layer 6 / issue #672.
    let agent_caps = &cfg.get(BUILTIN_AGENT).unwrap().capabilities;
    assert!(agent_caps.contains(&"self:*".to_string()));
    assert!(agent_caps.contains(&"self:quota:get".to_string()));
    assert!(agent_caps.contains(&"self:agent:list".to_string()));
    assert!(agent_caps.contains(&"delegate:self:*".to_string()));
    assert!(cfg.get(BUILTIN_RESTRICTED).unwrap().capabilities.is_empty());
}

#[test]
fn get_returns_none_for_unknown_name() {
    let cfg = GroupConfig::builtin_only();
    assert!(cfg.get("not-a-real-group").is_none());
}

#[test]
fn insert_custom_group_adds_and_validates() {
    let cfg = GroupConfig::builtin_only();
    let next = cfg
        .insert_custom_group("ops".to_string(), custom(&["capsule:install"]))
        .unwrap();
    assert!(next.get("ops").is_some());
    // The first config is untouched (returned by value, immutable).
    assert!(cfg.get("ops").is_none());
}

#[test]
fn insert_custom_group_rejects_builtin_name() {
    let cfg = GroupConfig::builtin_only();
    let err = cfg
        .insert_custom_group(BUILTIN_ADMIN.to_string(), custom(&["system:shutdown"]))
        .unwrap_err();
    assert!(matches!(err, GroupConfigError::RedefinedBuiltin { .. }));
}

#[test]
fn insert_custom_group_rejects_duplicate_name() {
    let cfg = GroupConfig::builtin_only()
        .insert_custom_group("ops".to_string(), custom(&["capsule:install"]))
        .unwrap();
    let err = cfg
        .insert_custom_group("ops".to_string(), custom(&["audit:read"]))
        .unwrap_err();
    assert!(matches!(err, GroupConfigError::DuplicateName { .. }));
}

#[test]
fn insert_custom_group_rejects_unsafe_star_without_opt_in() {
    let err = GroupConfig::builtin_only()
        .insert_custom_group("privileged".to_string(), custom(&["*"]))
        .unwrap_err();
    assert!(matches!(err, GroupConfigError::UnsafeUniversalGrant { .. }));
}

#[test]
fn insert_custom_group_rejects_invalid_capability_grammar() {
    let err = GroupConfig::builtin_only()
        .insert_custom_group("bad".to_string(), custom(&["system:shut down"]))
        .unwrap_err();
    assert!(matches!(err, GroupConfigError::InvalidCapability { .. }));
}

#[test]
fn modify_custom_group_updates_capabilities() {
    let cfg = GroupConfig::builtin_only()
        .insert_custom_group("ops".to_string(), custom(&["capsule:install"]))
        .unwrap();
    let next = cfg
        .modify_custom_group(
            "ops",
            Some(vec!["capsule:install".into(), "capsule:remove".into()]),
            None,
            None,
        )
        .unwrap();
    assert_eq!(next.get("ops").unwrap().capabilities.len(), 2);
}

#[test]
fn modify_custom_group_partial_update_preserves_other_fields() {
    let cfg = GroupConfig::builtin_only()
        .insert_custom_group(
            "ops".to_string(),
            Group {
                capabilities: vec!["capsule:install".into()],
                description: Some("original".into()),
                unsafe_admin: false,
            },
        )
        .unwrap();
    let next = cfg
        .modify_custom_group("ops", None, Some(Some("updated".into())), None)
        .unwrap();
    let g = next.get("ops").unwrap();
    assert_eq!(g.description.as_deref(), Some("updated"));
    assert_eq!(g.capabilities, vec!["capsule:install".to_string()]);
}

#[test]
fn modify_custom_group_rejects_builtin() {
    let cfg = GroupConfig::builtin_only();
    let err = cfg
        .modify_custom_group(BUILTIN_ADMIN, Some(vec!["audit:read".into()]), None, None)
        .unwrap_err();
    assert!(matches!(err, GroupConfigError::RedefinedBuiltin { .. }));
}

#[test]
fn modify_custom_group_rejects_unknown_name() {
    let cfg = GroupConfig::builtin_only();
    let err = cfg
        .modify_custom_group("never-defined", Some(vec![]), None, None)
        .unwrap_err();
    assert!(matches!(err, GroupConfigError::UnknownGroup { .. }));
}

#[test]
fn modify_custom_group_revalidates_new_capabilities() {
    let cfg = GroupConfig::builtin_only()
        .insert_custom_group("ops".to_string(), custom(&["capsule:install"]))
        .unwrap();
    let err = cfg
        .modify_custom_group(
            "ops",
            Some(vec!["system:shut down".into()]), // bad grammar
            None,
            None,
        )
        .unwrap_err();
    assert!(matches!(err, GroupConfigError::InvalidCapability { .. }));
}

#[test]
fn remove_group_drops_custom_group() {
    let cfg = GroupConfig::builtin_only()
        .insert_custom_group("ops".to_string(), custom(&["capsule:install"]))
        .unwrap();
    assert!(cfg.get("ops").is_some());
    let next = cfg.remove_group("ops").unwrap();
    assert!(next.get("ops").is_none());
    // Built-ins survive.
    assert!(next.get(BUILTIN_ADMIN).is_some());
}

#[test]
fn remove_group_rejects_every_builtin() {
    let cfg = GroupConfig::builtin_only();
    for name in [BUILTIN_ADMIN, BUILTIN_AGENT, BUILTIN_RESTRICTED] {
        let err = cfg.remove_group(name).unwrap_err();
        assert!(
            matches!(err, GroupConfigError::RedefinedBuiltin { .. }),
            "expected RedefinedBuiltin for {name}, got {err:?}"
        );
    }
}

#[test]
fn remove_group_rejects_unknown_name() {
    let cfg = GroupConfig::builtin_only();
    let err = cfg.remove_group("never-defined").unwrap_err();
    assert!(matches!(err, GroupConfigError::UnknownGroup { .. }));
}

#[test]
fn is_builtin_name_covers_every_builtin() {
    assert!(GroupConfig::is_builtin_name(BUILTIN_ADMIN));
    assert!(GroupConfig::is_builtin_name(BUILTIN_AGENT));
    assert!(GroupConfig::is_builtin_name(BUILTIN_RESTRICTED));
    assert!(!GroupConfig::is_builtin_name("ops"));
}

#[test]
fn load_merges_custom_groups_with_builtins() {
    let mut ops = custom(&["capsule:install", "capsule:remove"]);
    ops.description = Some("Deployment operators".to_string());
    let cfg = GroupConfig::from_custom_groups(vec![
        ("ops".to_string(), ops),
        ("auditor".to_string(), custom(&["audit:read", "agent:list"])),
    ])
    .unwrap();
    assert_eq!(cfg.len(), 5);
    assert_eq!(
        cfg.get("ops").unwrap().capabilities,
        vec!["capsule:install".to_string(), "capsule:remove".to_string()]
    );
    assert_eq!(cfg.get("auditor").unwrap().capabilities.len(), 2);
    assert_eq!(cfg.get(BUILTIN_ADMIN).unwrap().capabilities, vec!["*".to_string()]);
}

#[test]
fn rejects_redefined_builtin() {
    let err = GroupConfig::from_custom_groups(vec![("admin".to_string(), custom(&["custom:garbage"]))]).unwrap_err();
    match err {
        GroupConfigError::RedefinedBuiltin { name } => assert_eq!(name, BUILTIN_ADMIN),
        other => panic!("expected RedefinedBuiltin, got: {other:?}"),
    }
}

#[test]
fn rejects_redefined_agent_builtin() {
    assert!(matches!(
        GroupConfig::from_custom_groups(vec![("agent".to_string(), custom(&["self:capsule:install"]))]),
        Err(GroupConfigError::RedefinedBuiltin { .. })
    ));
}

#[test]
fn rejects_invalid_capability_grammar() {
    let err = GroupConfig::from_custom_groups(vec![("ops".to_string(), custom(&["system:shut down"]))]).unwrap_err();
    match err {
        GroupConfigError::InvalidCapability { group, cap, .. } => {
            assert_eq!(group, "ops");
            assert_eq!(cap, "system:shut down");
        },
        other => panic!("expected InvalidCapability, got: {other:?}"),
    }
}

#[test]
fn rejects_custom_group_with_universal_star_without_opt_in() {
    let err = GroupConfig::from_custom_groups(vec![("privileged".to_string(), custom(&["*"]))]).unwrap_err();
    assert!(matches!(err, GroupConfigError::UnsafeUniversalGrant { .. }));
}

#[test]
fn accepts_custom_group_with_universal_star_and_opt_in() {
    let mut g = custom(&["*"]);
    g.unsafe_admin = true;
    let cfg = GroupConfig::from_custom_groups(vec![("privileged".to_string(), g)]).unwrap();
    assert_eq!(cfg.get("privileged").unwrap().capabilities, vec!["*".to_string()]);
    assert!(cfg.get("privileged").unwrap().unsafe_admin);
}

#[test]
fn rejects_double_glob_capability() {
    let err = GroupConfig::from_custom_groups(vec![("ops".to_string(), custom(&["capsule:**"]))]).unwrap_err();
    match err {
        GroupConfigError::InvalidCapability { reason, .. } => {
            assert_eq!(reason, CapabilityGrammarError::DoubleStar);
        },
        other => panic!("expected InvalidCapability(DoubleStar), got: {other:?}"),
    }
}
