//! Astrid user identities: creation, display, and the principal derived
//! from a display name.

use astrid::identity::FrontendType;
use astrid::principal::PrincipalId;
use astrid::user_identity::{AstridUserId, LinkVerificationMethod};

#[test]
fn identity_test_astrid_user_id_creation() {
    let user1 = AstridUserId::new();
    let user2 = AstridUserId::new();
    assert_ne!(user1.id, user2.id);
}

#[test]
fn identity_test_astrid_user_id_display() {
    let user = AstridUserId::new();
    let display = user.to_string();
    assert!(display.starts_with("user:"));

    let user_with_name = AstridUserId::new().with_display_name("Alice");
    let display = user_with_name.to_string();
    assert!(display.starts_with("Alice("));
}

#[test]
fn mod_test_astrid_user_id_creation() {
    let user1 = AstridUserId::new();
    let user2 = AstridUserId::new();
    assert_ne!(user1.id, user2.id);
}

#[test]
fn test_astrid_user_id_default_principal() {
    let user = AstridUserId::new();
    assert_eq!(user.principal.as_str(), "default");
}

#[test]
fn mod_test_astrid_user_id_display() {
    let user = AstridUserId::new();
    let display = user.to_string();
    assert!(display.starts_with("user:"));

    let user_with_name = AstridUserId::new().with_display_name("Alice");
    let display = user_with_name.to_string();
    assert!(display.starts_with("Alice("));
}

#[test]
fn test_principal_derived_from_display_name() {
    let user = AstridUserId::new().with_display_name("Josh Bouw");
    assert_eq!(user.principal.as_str(), "josh-bouw");
}

#[test]
fn test_principal_derived_unicode_fallback() {
    // All non-ASCII chars → hyphens → collapsed → empty → fallback.
    let user = AstridUserId::new().with_display_name("日本語");
    assert!(
        user.principal.as_str().starts_with("user-"),
        "expected uuid fallback, got: {}",
        user.principal.as_str()
    );
}

#[test]
fn test_principal_derived_empty_string() {
    let user = AstridUserId::new().with_display_name("");
    assert!(
        user.principal.as_str().starts_with("user-"),
        "expected uuid fallback, got: {}",
        user.principal.as_str()
    );
}

#[test]
fn test_principal_derived_special_chars() {
    let user = AstridUserId::new().with_display_name("alice@example.com");
    assert_eq!(user.principal.as_str(), "alice-example-com");
}

#[test]
fn test_principal_derived_truncation() {
    let long_name = "a".repeat(100);
    let user = AstridUserId::new().with_display_name(&long_name);
    assert!(user.principal.as_str().len() <= 64);
}

#[test]
fn test_principal_explicit_override_after_display_name() {
    let principal = PrincipalId::new("custom-principal").unwrap();
    let user = AstridUserId::new()
        .with_display_name("Alice")
        .with_principal(principal);
    assert_eq!(user.principal.as_str(), "custom-principal");
}

#[test]
fn test_principal_preserved_when_set_before_display_name() {
    // Documented order: with_principal() then with_display_name()
    // should preserve the explicit principal.
    let principal = PrincipalId::new("custom-principal").unwrap();
    let user = AstridUserId::new()
        .with_principal(principal)
        .with_display_name("Alice");
    assert_eq!(user.principal.as_str(), "custom-principal");
    assert_eq!(user.display_name.as_deref(), Some("Alice"));
}

#[test]
fn test_link_verification_method_display() {
    let method = LinkVerificationMethod::InitialCreation;
    assert_eq!(method.to_string(), "initial_creation");

    let method = LinkVerificationMethod::CodeVerification {
        verified_via: FrontendType::Discord,
    };
    assert_eq!(method.to_string(), "code_via:discord");
}

#[test]
fn short_ids_are_the_uuid_text_prefix() {
    let id: u128 = 0x67e5_5044_10b1_426f_9247_bb68_0e5f_e0c8;
    let user = AstridUserId::from_parts(id, 0);
    assert_eq!(user.to_string(), "user:67e55044");
    let named = AstridUserId::from_parts(id, 0).with_display_name("Bo");
    assert_eq!(named.to_string(), "Bo(67e55044)");
    let method = LinkVerificationMethod::AdminLink { admin_id: 0x0000_00ab_0000_0000_0000_0000_0000_0000 };
    assert_eq!(method.to_string(), "admin:000000ab");
    let fallback = AstridUserId::from_parts(id, 0).with_display_name("--- !!! ---");
    assert_eq!(fallback.principal.as_str(), "user-67e55044");
}

#[test]
fn derived_principals_collapse_and_cut() {
    let u = AstridUserId::from_parts(1, 0).with_display_name("  Hello,  World__x  ");
    assert_eq!(u.principal.as_str(), "hello-world__x");
    let long = format!("{}-{}", "b".repeat(63), "c".repeat(10));
    let u = AstridUserId::from_parts(1, 0).with_display_name(long.as_str());
    assert_eq!(u.principal.as_str(), "b".repeat(63));
    let u = AstridUserId::from_parts(1, 0).with_display_name("x".repeat(100).as_str());
    assert_eq!(u.principal.as_str(), "x".repeat(64));
    assert!(u.has_signing_key() == false);
    let k = AstridUserId::from_parts(1, 0).with_public_key([7u8; 32]);
    assert!(k.has_signing_key());
}
