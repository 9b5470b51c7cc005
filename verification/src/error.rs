//! Security error types for Astrid operations.

use vstd::prelude::*;
use crate::text::{cat, decimal, u64_to_decimal};

verus! {

/// Security-related errors that can occur in Astrid operations.
#[derive(Debug, Clone, PartialEq, Eq)]
pub enum SecurityError {
    /// Signature verification failed
    SignatureVerificationFailed(String),
    /// Key is not trusted
    UntrustedKey { key_id: String },
    /// Cryptographic operation failed
    CryptoError(String),
    /// Capability token has expired
    CapabilityExpired { token_id: String },
    /// Capability token has been revoked
    CapabilityRevoked { token_id: String },
    /// Insufficient permissions for the requested operation
    InsufficientCapability { required: String, resource: String },
    /// Capability token not found
    CapabilityNotFound { token_id: String },
    /// Untrusted input was rejected
    UntrustedInputRejected { reason: String },
    /// Invalid input format
    InvalidInput(String),
    /// Approval was denied by the user
    ApprovalDenied { reason: String },
    /// Approval request timed out
    ApprovalTimeout { timeout_ms: u64 },
    /// Sandbox policy violation
    SandboxViolation(String),
    /// Path is outside allowed boundaries
    PathOutsideSandbox { path: String },
    /// Not connected to MCP server
    McpNotConnected { server: String },
    /// MCP tool call was rejected
    McpToolRejected { tool: String, reason: String },
    /// MCP elicitation failed
    McpElicitationFailed(String),
    /// Failed to write audit entry
    AuditWriteFailed(String),
    /// Audit chain integrity violation detected
    AuditIntegrityViolation(String),
    /// Identity not found
    IdentityNotFound(String),
    /// Identity verification failed
    IdentityVerificationFailed(String),
    /// Frontend link already exists
    FrontendAlreadyLinked { frontend: String, existing_id: String },
    /// Memory access denied
    MemoryAccessDenied { reason: String },
    /// Memory not found
    MemoryNotFound { memory_id: String },
    /// Grant creation failed
    GrantCreationFailed(String),
    /// Message verification failed
    MessageVerificationFailed { message_id: String, reason: String },
    /// Verification request expired
    VerificationExpired,
    /// Verification was cancelled
    VerificationCancelled,
    /// Storage operation failed
    StorageError(String),
    /// Internal error
    Internal(String),
    /// Configuration error
    ConfigurationError(String),
}

/// Result type for security operations.
pub type SecurityResult<T> = Result<T, SecurityError>;

/// The human-readable text of a security error.
pub open spec fn security_message(e: SecurityError) -> Seq<char> {
    match e {
        SecurityError::SignatureVerificationFailed(s) => "signature verification failed: "@ + s@,
        SecurityError::UntrustedKey { key_id } => "untrusted key: "@ + key_id@,
        SecurityError::CryptoError(s) => "crypto operation failed: "@ + s@,
        SecurityError::CapabilityExpired { token_id } => "capability token expired: "@ + token_id@,
        SecurityError::CapabilityRevoked { token_id } => "capability token revoked: "@ + token_id@,
        SecurityError::InsufficientCapability { required, resource } =>
            "insufficient capability: required "@ + required@ + " for "@ + resource@,
        SecurityError::CapabilityNotFound { token_id } => "capability not found: "@ + token_id@,
        SecurityError::UntrustedInputRejected { reason } => "untrusted input rejected: "@ + reason@,
        SecurityError::InvalidInput(s) => "invalid input: "@ + s@,
        SecurityError::ApprovalDenied { reason } => "approval denied: "@ + reason@,
        SecurityError::ApprovalTimeout { timeout_ms } =>
            "approval timeout after "@ + decimal(timeout_ms as nat) + "ms"@,
        SecurityError::SandboxViolation(s) => "sandbox violation: "@ + s@,
        SecurityError::PathOutsideSandbox { path } => "path outside sandbox: "@ + path@,
        SecurityError::McpNotConnected { server } => "MCP not connected: "@ + server@,
        SecurityError::McpToolRejected { tool, reason } =>
            "MCP tool rejected: "@ + tool@ + " - "@ + reason@,
        SecurityError::McpElicitationFailed(s) => "MCP elicitation failed: "@ + s@,
        SecurityError::AuditWriteFailed(s) => "audit write failed: "@ + s@,
        SecurityError::AuditIntegrityViolation(s) => "audit integrity violation: "@ + s@,
        SecurityError::IdentityNotFound(s) => "identity not found: "@ + s@,
        SecurityError::IdentityVerificationFailed(s) => "identity verification failed: "@ + s@,
        SecurityError::FrontendAlreadyLinked { frontend, existing_id } =>
            "frontend already linked: "@ + frontend@ + " -> "@ + existing_id@,
        SecurityError::MemoryAccessDenied { reason } => "memory access denied: "@ + reason@,
        SecurityError::MemoryNotFound { memory_id } => "memory not found: "@ + memory_id@,
        SecurityError::GrantCreationFailed(s) => "grant creation failed: "@ + s@,
        SecurityError::MessageVerificationFailed { message_id, reason } =>
            "message verification failed: "@ + message_id@ + " - "@ + reason@,
        SecurityError::VerificationExpired => "verification expired"@,
        SecurityError::VerificationCancelled => "verification cancelled"@,
        SecurityError::StorageError(s) => "storage error: "@ + s@,
        SecurityError::Internal(s) => "internal error: "@ + s@,
        SecurityError::ConfigurationError(s) => "configuration error: "@ + s@,
    }
}

/// `a`, then `b`, then `c`, then `d`.
fn cat4(a: &str, b: &str, c: &str, d: &str) -> (r: String)
    ensures
        r@ == a@ + b@ + c@ + d@,
{
    let mut r = String::from_str(a);
    r.append(b);
    r.append(c);
    r.append(d);
    r
}

impl SecurityError {
    /// Human-readable description of the error.
    pub fn message(&self) -> (r: String)
        ensures
            r@ == security_message(*self),
    {
        match self {
            SecurityError::SignatureVerificationFailed(s) => cat("signature verification failed: ", s.as_str()),
            SecurityError::UntrustedKey { key_id } => cat("untrusted key: ", key_id.as_str()),
            SecurityError::CryptoError(s) => cat("crypto operation failed: ", s.as_str()),
            SecurityError::CapabilityExpired { token_id } => cat("capability token expired: ", token_id.as_str()),
            SecurityError::CapabilityRevoked { token_id } => cat("capability token revoked: ", token_id.as_str()),
            SecurityError::InsufficientCapability { required, resource } =>
                cat4("insufficient capability: required ", required.as_str(), " for ", resource.as_str()),
            SecurityError::CapabilityNotFound { token_id } => cat("capability not found: ", token_id.as_str()),
            SecurityError::UntrustedInputRejected { reason } => cat("untrusted input rejected: ", reason.as_str()),
            SecurityError::InvalidInput(s) => cat("invalid input: ", s.as_str()),
            SecurityError::ApprovalDenied { reason } => cat("approval denied: ", reason.as_str()),
            SecurityError::ApprovalTimeout { timeout_ms } => {
                let d = u64_to_decimal(*timeout_ms);
                let mut r = cat("approval timeout after ", d.as_str());
                r.append("ms");
                r
            },
            SecurityError::SandboxViolation(s) => cat("sandbox violation: ", s.as_str()),
            SecurityError::PathOutsideSandbox { path } => cat("path outside sandbox: ", path.as_str()),
            SecurityError::McpNotConnected { server } => cat("MCP not connected: ", server.as_str()),
            SecurityError::McpToolRejected { tool, reason } =>
                cat4("MCP tool rejected: ", tool.as_str(), " - ", reason.as_str()),
            SecurityError::McpElicitationFailed(s) => cat("MCP elicitation failed: ", s.as_str()),
            SecurityError::AuditWriteFailed(s) => cat("audit write failed: ", s.as_str()),
            SecurityError::AuditIntegrityViolation(s) => cat("audit integrity violation: ", s.as_str()),
            SecurityError::IdentityNotFound(s) => cat("identity not found: ", s.as_str()),
            SecurityError::IdentityVerificationFailed(s) => cat("identity verification failed: ", s.as_str()),
            SecurityError::FrontendAlreadyLinked { frontend, existing_id } =>
                cat4("frontend already linked: ", frontend.as_str(), " -> ", existing_id.as_str()),
            SecurityError::MemoryAccessDenied { reason } => cat("memory access denied: ", reason.as_str()),
            SecurityError::MemoryNotFound { memory_id } => cat("memory not found: ", memory_id.as_str()),
            SecurityError::GrantCreationFailed(s) => cat("grant creation failed: ", s.as_str()),
            SecurityError::MessageVerificationFailed { message_id, reason } =>
                cat4("message verification failed: ", message_id.as_str(), " - ", reason.as_str()),
            SecurityError::VerificationExpired => String::from_str("verification expired"),
            SecurityError::VerificationCancelled => String::from_str("verification cancelled"),
            SecurityError::StorageError(s) => cat("storage error: ", s.as_str()),
            SecurityError::Internal(s) => cat("internal error: ", s.as_str()),
            SecurityError::ConfigurationError(s) => cat("configuration error: ", s.as_str()),
        }
    }

    /// Same as [`SecurityError::message`].
    pub fn to_string(&self) -> (r: String)
        ensures
            r@ == security_message(*self),
    {
        self.message()
    }
}

} // verus!
