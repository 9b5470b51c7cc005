use astrid::error::SecurityError;
use astrid::identity::FrontendType;
use astrid::identity_store::{FrontendLink, InMemoryIdentityStore, PendingLinkCode};
use astrid::user_identity::{AstridUserId, LinkVerificationMethod};

#[test]
fn test_in_memory_identity_store() {
    let mut store = InMemoryIdentityStore::new();

    let user = store.create_identity(FrontendType::Discord, "123456").unwrap();

    let resolved = store.resolve(&FrontendType::Discord, "123456").unwrap();
    assert_eq!(resolved.id, user.id);

    let by_id = store.get_by_id(user.id).unwrap();
    assert_eq!(by_id.id, user.id);
}

#[test]
fn test_cross_frontend_linking() {
    let mut store = InMemoryIdentityStore::new();

    let user = store.create_identity(FrontendType::Discord, "discord_123").unwrap();

    let code = store
        .generate_link_code(user.id, FrontendType::WhatsApp, "whatsapp_456")
        .unwrap();

    let link = store.verify_link_code(&code, FrontendType::Discord).unwrap();

    assert_eq!(link.astrid_id, user.id);
    assert_eq!(link.frontend, FrontendType::WhatsApp);

    let resolved = store.resolve(&FrontendType::WhatsApp, "whatsapp_456").unwrap();
    assert_eq!(resolved.id, user.id);

    let links = store.get_links(user.id);
    assert_eq!(links.len(), 2);
}

#[test]
fn test_duplicate_link_rejected() {
    let mut store = InMemoryIdentityStore::new();

    store.create_identity(FrontendType::Discord, "123").unwrap();

    let result = store.create_identity(FrontendType::Discord, "123");

    assert!(matches!(result, Err(SecurityError::FrontendAlreadyLinked { .. })));
}

#[test]
fn duplicate_identity_names_platform_and_unknown_owner() {
    let mut store = InMemoryIdentityStore::new();
    store.create_identity(FrontendType::Custom("matrix".to_string()), "u1").unwrap();
    match store.create_identity(FrontendType::Custom("matrix".to_string()), "u1") {
        Err(SecurityError::FrontendAlreadyLinked { frontend, existing_id }) => {
            assert_eq!(frontend, "custom:matrix");
            assert_eq!(existing_id, "unknown");
        },
        other => panic!("unexpected: {other:?}"),
    }
}

#[test]
fn same_user_id_on_another_platform_is_another_account() {
    let mut store = InMemoryIdentityStore::new();
    let a = store.create_identity(FrontendType::Discord, "42").unwrap();
    let b = store.create_identity(FrontendType::Telegram, "42").unwrap();
    assert_ne!(a.id, b.id);
    assert_eq!(store.resolve(&FrontendType::Telegram, "42").unwrap().id, b.id);
    assert!(store.resolve(&FrontendType::Slack, "42").is_none());
}

#[test]
fn created_identity_has_default_principal_and_primary_link() {
    let mut store = InMemoryIdentityStore::new();
    let user = store.create_identity(FrontendType::Cli, "me").unwrap();
    assert_eq!(user.principal.as_str(), "default");
    let links = store.get_links(user.id);
    assert_eq!(links.len(), 1);
    assert!(links[0].is_primary);
    assert_eq!(links[0].verification_method, LinkVerificationMethod::InitialCreation);
    assert_eq!(links[0].frontend_user_id, "me");
}

#[test]
fn create_identity_from_uses_given_identity_and_time() {
    let mut store = InMemoryIdentityStore::new();
    let identity = AstridUserId::from_parts(7, 1_000);
    let got = store
        .create_identity_from(identity, FrontendType::Web, "w", 2_000)
        .unwrap();
    assert_eq!(got.id, 7);
    let links = store.get_links(7);
    assert_eq!(links.len(), 1);
    assert_eq!(links[0].linked_at, 2_000);
    assert_eq!(store.get_by_id(7).unwrap().created_at, 1_000);
}

#[test]
fn link_code_is_nine_digits() {
    let mut store = InMemoryIdentityStore::new();
    let code = store
        .generate_link_code_with(1, FrontendType::Slack, "s", 42, 0)
        .unwrap();
    assert_eq!(code, "000000042");
    let code = store
        .generate_link_code_with(1, FrontendType::Slack, "s", 999_999_999, 0)
        .unwrap();
    assert_eq!(code, "999999999");
    let random = store.generate_link_code(1, FrontendType::Slack, "s").unwrap();
    assert_eq!(random.len(), 9);
    assert!(random.chars().all(|c| c.is_ascii_digit()));
}

#[test]
fn link_code_expires_after_five_minutes() {
    let mut store = InMemoryIdentityStore::new();
    let user = store.create_identity_from(AstridUserId::from_parts(5, 0), FrontendType::Discord, "d", 0).unwrap();
    let code = store
        .generate_link_code_with(user.id, FrontendType::WhatsApp, "w", 123, 1_000)
        .unwrap();
    let r = store.verify_link_code_at(&code, FrontendType::Discord, 301_001);
    assert!(matches!(r, Err(SecurityError::VerificationExpired)));
    // The code is used up even though it had expired.
    let again = store.verify_link_code_at(&code, FrontendType::Discord, 1_000);
    match again {
        Err(SecurityError::IdentityVerificationFailed(m)) => assert_eq!(m, "Invalid or expired code"),
        other => panic!("unexpected: {other:?}"),
    }
    assert!(store.resolve(&FrontendType::WhatsApp, "w").is_none());
}

#[test]
fn link_code_valid_at_the_last_millisecond() {
    let mut store = InMemoryIdentityStore::new();
    store.create_identity_from(AstridUserId::from_parts(5, 0), FrontendType::Discord, "d", 0).unwrap();
    let code = store
        .generate_link_code_with(5, FrontendType::WhatsApp, "w", 1, 1_000)
        .unwrap();
    let link = store.verify_link_code_at(&code, FrontendType::Discord, 301_000).unwrap();
    assert_eq!(link.astrid_id, 5);
    assert_eq!(link.linked_at, 301_000);
    assert!(!link.is_primary);
    assert_eq!(
        link.verification_method,
        LinkVerificationMethod::CodeVerification { verified_via: FrontendType::Discord }
    );
    assert_eq!(store.resolve(&FrontendType::WhatsApp, "w").unwrap().id, 5);
}

#[test]
fn unknown_link_code_is_refused() {
    let mut store = InMemoryIdentityStore::new();
    match store.verify_link_code("123456789", FrontendType::Cli) {
        Err(SecurityError::IdentityVerificationFailed(m)) => assert_eq!(m, "Invalid or expired code"),
        other => panic!("unexpected: {other:?}"),
    }
}

#[test]
fn link_code_for_linked_account_is_refused() {
    let mut store = InMemoryIdentityStore::new();
    store.create_identity_from(AstridUserId::from_parts(1, 0), FrontendType::Discord, "a", 0).unwrap();
    store.create_identity_from(AstridUserId::from_parts(2, 0), FrontendType::Telegram, "b", 0).unwrap();
    let code = store
        .generate_link_code_with(1, FrontendType::Telegram, "b", 77, 0)
        .unwrap();
    match store.verify_link_code_at(&code, FrontendType::Discord, 10) {
        Err(SecurityError::FrontendAlreadyLinked { frontend, existing_id }) => {
            assert_eq!(frontend, "telegram");
            assert_eq!(existing_id, "00000000-0000-0000-0000-000000000001");
        },
        other => panic!("unexpected: {other:?}"),
    }
    assert_eq!(store.resolve(&FrontendType::Telegram, "b").unwrap().id, 2);
}

#[test]
fn reissued_code_replaces_the_pending_one() {
    let mut store = InMemoryIdentityStore::new();
    store.create_identity_from(AstridUserId::from_parts(1, 0), FrontendType::Discord, "a", 0).unwrap();
    store.create_identity_from(AstridUserId::from_parts(2, 0), FrontendType::Discord, "b", 0).unwrap();
    let first = store.generate_link_code_with(1, FrontendType::Web, "x", 5, 0).unwrap();
    let second = store.generate_link_code_with(2, FrontendType::Web, "x", 5, 0).unwrap();
    assert_eq!(first, second);
    let link = store.verify_link_code_at(&second, FrontendType::Discord, 0).unwrap();
    assert_eq!(link.astrid_id, 2);
}

#[test]
fn create_link_rejects_linked_account() {
    let mut store = InMemoryIdentityStore::new();
    let link = FrontendLink::made_at(3, FrontendType::Slack, "s", LinkVerificationMethod::AdminLink { admin_id: 9 }, false, 0);
    store.create_link(link.clone()).unwrap();
    match store.create_link(link) {
        Err(SecurityError::FrontendAlreadyLinked { frontend, existing_id }) => {
            assert_eq!(frontend, "slack");
            assert_eq!(existing_id, "00000000-0000-0000-0000-000000000003");
        },
        other => panic!("unexpected: {other:?}"),
    }
}

#[test]
fn remove_link_then_resolve_fails() {
    let mut store = InMemoryIdentityStore::new();
    let user = store.create_identity(FrontendType::Discord, "u").unwrap();
    store.remove_link(&FrontendType::Discord, "u").unwrap();
    assert!(store.resolve(&FrontendType::Discord, "u").is_none());
    assert!(store.get_by_id(user.id).is_some());
    match store.remove_link(&FrontendType::Discord, "u") {
        Err(SecurityError::IdentityNotFound(m)) => assert_eq!(m, "No link found for discord:u"),
        other => panic!("unexpected: {other:?}"),
    }
}

#[test]
fn update_identity_requires_existing_id() {
    let mut store = InMemoryIdentityStore::new();
    let user = store.create_identity(FrontendType::Discord, "u").unwrap();
    let renamed = user.clone().with_display_name("Alice");
    store.update_identity(renamed).unwrap();
    let got = store.get_by_id(user.id).unwrap();
    assert_eq!(got.display_name.as_deref(), Some("Alice"));
    match store.update_identity(AstridUserId::from_parts(0x10, 0)) {
        Err(SecurityError::IdentityNotFound(m)) => assert_eq!(m, "00000000-0000-0000-0000-000000000010"),
        other => panic!("unexpected: {other:?}"),
    }
}

#[test]
fn get_links_only_returns_that_identity() {
    let mut store = InMemoryIdentityStore::new();
    store.create_identity_from(AstridUserId::from_parts(1, 0), FrontendType::Discord, "a", 0).unwrap();
    store.create_identity_from(AstridUserId::from_parts(2, 0), FrontendType::Discord, "b", 0).unwrap();
    assert_eq!(store.get_links(1).len(), 1);
    assert_eq!(store.get_links(1)[0].frontend_user_id, "a");
    assert!(store.get_links(3).is_empty());
}

#[test]
fn pending_code_expiry_check() {
    let p = PendingLinkCode {
        code: "000000001".to_string(),
        astrid_id: 1,
        requesting_frontend: FrontendType::Web,
        requesting_user_id: "w".to_string(),
        expires_at: 100,
    };
    assert!(!p.is_expired_at(100));
    assert!(p.is_expired_at(101));
    assert!(p.is_expired());
}

#[test]
fn from_uuid_keeps_id() {
    let user = AstridUserId::from_uuid(12345);
    assert_eq!(user.id, 12345);
    assert_eq!(user.principal.as_str(), "default");
}

#[test]
fn shared_store_reads() {
    let mut store = InMemoryIdentityStore::new();
    let user = store.create_identity(FrontendType::Web, "x").unwrap();
    let shared = store.shared();
    assert_eq!(shared.resolve(&FrontendType::Web, "x").unwrap().id, user.id);
}
