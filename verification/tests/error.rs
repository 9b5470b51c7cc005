//! Security errors: their messages and the result alias.

use astrid::error::{SecurityError, SecurityResult};

#[test]
fn test_error_display() {
    let err = SecurityError::CapabilityExpired {
        token_id: "abc123".to_string(),
    };
    assert_eq!(err.to_string(), "capability token expired: abc123");

    let err = SecurityError::InsufficientCapability {
        required: "Write".to_string(),
        resource: "file:///etc/passwd".to_string(),
    };
    assert_eq!(
        err.to_string(),
        "insufficient capability: required Write for file:///etc/passwd"
    );
}

#[allow(clippy::unnecessary_wraps)]
fn returns_ok() -> SecurityResult<i32> {
    Ok(42)
}

fn returns_err() -> SecurityResult<i32> {
    Err(SecurityError::ApprovalDenied {
        reason: "test".to_string(),
    })
}

#[test]
fn test_result_type() {
    assert!(returns_ok().is_ok());
    assert!(returns_err().is_err());
}
