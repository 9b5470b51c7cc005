//! Principal identifiers: which strings are accepted, and how they read back.

use astrid::principal::{PrincipalId, PrincipalIdError};


#[test]
fn valid_ids() {
    assert!(PrincipalId::new("default").is_ok());
    assert!(PrincipalId::new("alice").is_ok());
    assert!(PrincipalId::new("agent-007").is_ok());
    assert!(PrincipalId::new("system_admin").is_ok());
    assert!(PrincipalId::new("A").is_ok());
    assert!(PrincipalId::new("a".repeat(64)).is_ok());
}

#[test]
fn principal_rejects_empty() {
    assert!(matches!(PrincipalId::new(""), Err(PrincipalIdError::Empty)));
}

#[test]
fn rejects_too_long() {
    assert!(matches!(
        PrincipalId::new("a".repeat(65)),
        Err(PrincipalIdError::TooLong)
    ));
}

#[test]
fn rejects_invalid_chars() {
    assert!(matches!(
        PrincipalId::new("foo bar"),
        Err(PrincipalIdError::InvalidChar(' '))
    ));
    assert!(matches!(
        PrincipalId::new("foo/bar"),
        Err(PrincipalIdError::InvalidChar('/'))
    ));
    assert!(matches!(
        PrincipalId::new("foo.bar"),
        Err(PrincipalIdError::InvalidChar('.'))
    ));
    assert!(matches!(
        PrincipalId::new("../escape"),
        Err(PrincipalIdError::InvalidChar('.'))
    ));
}

#[test]
fn default_is_default() {
    let id = PrincipalId::default();
    assert_eq!(id.as_str(), "default");
}

#[test]
fn display_and_debug() {
    let id = PrincipalId::new("alice").unwrap();
    assert_eq!(id.to_string(), "alice");
    assert_eq!(format!("{id:?}"), "PrincipalId(\"alice\")");
}

#[test]
fn from_str_roundtrip() {
    let id: PrincipalId = "bob".parse().unwrap();
    assert_eq!(id.as_str(), "bob");
    let s: String = id.into();
    assert_eq!(s, "bob");
}

#[test]
fn principal_limit_counts_characters() {
    assert!(matches!(
        PrincipalId::new("é".repeat(33)),
        Err(PrincipalIdError::InvalidChar('é'))
    ));
    assert!(matches!(PrincipalId::new("é".repeat(65)), Err(PrincipalIdError::TooLong)));
    let p = PrincipalId::new("bob").unwrap();
    assert_eq!(String::from(p), "bob");
}
