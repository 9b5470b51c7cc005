//! The capability grammar: which strings validate and which patterns match.

use astrid::capability_grammar::{
    capability_matches, validate_capability, CapabilityGrammarError, MAX_CAPABILITY_LEN,
};

// ── validate_capability ─────────────────────────────────────────────

#[test]
fn accepts_literal() {
    validate_capability("system:shutdown").unwrap();
    validate_capability("self:capsule:install").unwrap();
    validate_capability("audit:read:alice").unwrap();
    validate_capability("agent-007").unwrap();
}

#[test]
fn accepts_universal_and_prefix_patterns() {
    validate_capability("*").unwrap();
    validate_capability("self:*").unwrap();
    validate_capability("a:*:b").unwrap();
}

#[test]
fn capability_grammar_rejects_empty() {
    assert_eq!(validate_capability(""), Err(CapabilityGrammarError::Empty));
}

#[test]
fn rejects_double_glob() {
    assert_eq!(
        validate_capability("**"),
        Err(CapabilityGrammarError::DoubleStar)
    );
    assert_eq!(
        validate_capability("self:**"),
        Err(CapabilityGrammarError::DoubleStar)
    );
    assert_eq!(
        validate_capability("**:read"),
        Err(CapabilityGrammarError::DoubleStar)
    );
}

#[test]
fn rejects_empty_segment() {
    assert_eq!(
        validate_capability(":read"),
        Err(CapabilityGrammarError::EmptySegment)
    );
    assert_eq!(
        validate_capability("read:"),
        Err(CapabilityGrammarError::EmptySegment)
    );
    assert_eq!(
        validate_capability("a::b"),
        Err(CapabilityGrammarError::EmptySegment)
    );
}

#[test]
fn rejects_shell_metachars() {
    for bad in [
        "system:shut down",
        "system:shutdown;rm",
        "system:`whoami`",
        "system:$(pwd)",
        "system:shutdown|id",
        "self:>log",
    ] {
        assert!(
            matches!(
                validate_capability(bad),
                Err(CapabilityGrammarError::InvalidCharacter { .. })
            ),
            "{bad:?} should be rejected",
        );
    }
}

#[test]
fn rejects_partial_star() {
    assert!(matches!(
        validate_capability("self:foo*"),
        Err(CapabilityGrammarError::PartialStar { .. })
    ));
    assert!(matches!(
        validate_capability("*foo"),
        Err(CapabilityGrammarError::PartialStar { .. })
    ));
}

#[test]
fn rejects_over_length() {
    let long = "a".repeat(MAX_CAPABILITY_LEN + 1);
    assert_eq!(
        validate_capability(&long),
        Err(CapabilityGrammarError::TooLong)
    );
}

// ── capability_matches ──────────────────────────────────────────────

#[test]
fn universal_matches_everything() {
    assert!(capability_matches("*", "system:shutdown"));
    assert!(capability_matches("*", "self:capsule:install"));
    assert!(capability_matches("*", "anything"));
}

#[test]
fn exact_match() {
    assert!(capability_matches("system:shutdown", "system:shutdown"));
    assert!(!capability_matches("system:shutdown", "system:status"));
    assert!(!capability_matches(
        "system:shutdown",
        "self:system:shutdown"
    ));
}

#[test]
fn trailing_star_matches_one_or_more() {
    assert!(capability_matches("self:*", "self:capsule"));
    assert!(capability_matches("self:*", "self:capsule:install"));
    assert!(capability_matches("self:*", "self:capsule:install:alice"));
    assert!(!capability_matches("self:*", "self"));
    assert!(!capability_matches("self:*", "capsule:install"));
}

#[test]
fn middle_star_matches_single_segment() {
    assert!(capability_matches("a:*:b", "a:x:b"));
    assert!(!capability_matches("a:*:b", "a:x:y:b"));
    assert!(!capability_matches("a:*:b", "a:b"));
}

#[test]
fn mixed_patterns() {
    assert!(capability_matches("audit:read:*", "audit:read:alice"));
    assert!(!capability_matches("audit:read:*", "audit:write:alice"));
}
