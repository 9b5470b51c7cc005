//! Types the frontends (CLI, Discord, Telegram, web) share with the core:
//! channels, elicitation schemas, approval options, attachments and the
//! errors of frontend and identity operations.

use vstd::prelude::*;
use crate::approval_keys::RiskLevel;
use crate::error::{security_message, SecurityError};
use crate::input::ContextIdentifier;
use crate::string_map::StringMap;
use crate::text::{cat, decimal, u64_to_decimal, IntoText};
use crate::user_identity::{is_v4_uuid, now_millis, random_uuid};

verus! {

/// Type of channel.
#[derive(Debug, Clone, Copy, PartialEq, Eq, Hash, Structural)]
pub enum ChannelType {
    /// Direct message
    DirectMessage,
    /// Guild text channel
    GuildText,
    /// Guild voice channel
    GuildVoice,
    /// Group DM
    GroupDm,
    /// Thread
    Thread,
    /// CLI session
    Cli,
    /// Web session
    Web,
}

pub open spec fn channel_type_label(t: ChannelType) -> Seq<char> {
    match t {
        ChannelType::DirectMessage => "dm"@,
        ChannelType::GuildText => "text"@,
        ChannelType::GuildVoice => "voice"@,
        ChannelType::GroupDm => "group_dm"@,
        ChannelType::Thread => "thread"@,
        ChannelType::Cli => "cli"@,
        ChannelType::Web => "web"@,
    }
}

impl ChannelType {
    /// The channel type's short name.
    pub fn to_string(&self) -> (r: String)
        ensures
            r@ == channel_type_label(*self),
    {
        match self {
            ChannelType::DirectMessage => String::from_str("dm"),
            ChannelType::GuildText => String::from_str("text"),
            ChannelType::GuildVoice => String::from_str("voice"),
            ChannelType::GroupDm => String::from_str("group_dm"),
            ChannelType::Thread => String::from_str("thread"),
            ChannelType::Cli => String::from_str("cli"),
            ChannelType::Web => String::from_str("web"),
        }
    }
}

/// Information about the current channel.
#[derive(Debug)]
pub struct ChannelInfo {
    /// Channel ID
    pub id: String,
    /// Channel name
    pub name: Option<String>,
    /// Channel type
    pub channel_type: ChannelType,
    /// Guild/server ID (if applicable)
    pub guild_id: Option<String>,
}

impl ChannelInfo {
    /// A direct-message channel.
    pub fn dm<S: IntoText>(id: S) -> (r: Self)
        ensures
            r.id@ == id.text_view(),
            r.name is None,
            r.channel_type == ChannelType::DirectMessage,
            r.guild_id is None,
    {
        ChannelInfo { id: id.into_text(), name: None, channel_type: ChannelType::DirectMessage, guild_id: None }
    }

    /// A text channel of a guild.
    pub fn guild_channel<A: IntoText, B: IntoText, C: IntoText>(id: A, name: B, guild_id: C) -> (r: Self)
        ensures
            r.id@ == id.text_view(),
            r.name matches Some(n) && n@ == name.text_view(),
            r.channel_type == ChannelType::GuildText,
            r.guild_id matches Some(g) && g@ == guild_id.text_view(),
    {
        ChannelInfo {
            id: id.into_text(),
            name: Some(name.into_text()),
            channel_type: ChannelType::GuildText,
            guild_id: Some(guild_id.into_text()),
        }
    }
}

/// Option of a select schema.
#[derive(Debug)]
pub struct SelectOption {
    /// Value to submit
    pub value: String,
    /// Display label
    pub label: String,
    /// Description
    pub description: Option<String>,
}

impl SelectOption {
    /// An option without a description.
    pub fn new<A: IntoText, B: IntoText>(value: A, label: B) -> (r: Self)
        ensures
            r.value@ == value.text_view(),
            r.label@ == label.text_view(),
            r.description is None,
    {
        SelectOption { value: value.into_text(), label: label.into_text(), description: None }
    }

    /// The option with `description` added.
    pub fn with_description<D: IntoText>(self, description: D) -> (r: Self)
        ensures
            r.value == self.value,
            r.label == self.label,
            r.description matches Some(d) && d@ == description.text_view(),
    {
        let mut s = self;
        s.description = Some(description.into_text());
        s
    }
}

/// Schema for elicitation input.
#[derive(Debug)]
pub enum ElicitationSchema {
    /// Free-form text input
    Text {
        /// Placeholder text
        placeholder: Option<String>,
        /// Maximum length
        max_length: Option<usize>,
    },
    /// Password/secret input (masked)
    Secret {
        /// Placeholder text
        placeholder: Option<String>,
    },
    /// Selection from options
    Select {
        /// Available options
        options: Vec<SelectOption>,
        /// Allow multiple selection
        multiple: bool,
    },
    /// Boolean choice
    Confirm {
        /// Default value
        default: bool,
    },
}

/// Type of URL elicitation.
#[derive(Debug, Clone, Copy, PartialEq, Eq, Structural)]
pub enum UrlElicitationType {
    /// OAuth authentication flow
    OAuth,
    /// Payment flow
    Payment,
    /// Credential collection
    Credentials,
    /// Generic external action
    External,
}

/// Options offered for an approval.
#[derive(Debug, Clone, Copy, PartialEq, Eq, Structural)]
pub enum ApprovalOption {
    /// Allow this once
    AllowOnce,
    /// Allow for this session
    AllowSession,
    /// Allow for this workspace
    AllowWorkspace,
    /// Allow always (creates a capability)
    AllowAlways,
    /// Deny
    Deny,
}

pub open spec fn approval_option_label(o: ApprovalOption) -> Seq<char> {
    match o {
        ApprovalOption::AllowOnce => "Allow Once"@,
        ApprovalOption::AllowSession => "Allow Session"@,
        ApprovalOption::AllowWorkspace => "Allow Workspace"@,
        ApprovalOption::AllowAlways => "Allow Always"@,
        ApprovalOption::Deny => "Deny"@,
    }
}

impl ApprovalOption {
    /// The option as shown to the user.
    pub fn to_string(&self) -> (r: String)
        ensures
            r@ == approval_option_label(*self),
    {
        match self {
            ApprovalOption::AllowOnce => String::from_str("Allow Once"),
            ApprovalOption::AllowSession => String::from_str("Allow Session"),
            ApprovalOption::AllowWorkspace => String::from_str("Allow Workspace"),
            ApprovalOption::AllowAlways => String::from_str("Allow Always"),
            ApprovalOption::Deny => String::from_str("Deny"),
        }
    }
}

/// Type of attachment.
#[derive(Debug, Clone, Copy, PartialEq, Eq, Structural)]
pub enum AttachmentType {
    /// Local file
    File,
    /// Remote URL
    Url,
    /// Inline data (base64)
    Inline,
}

/// Attachment to user input.
#[derive(Debug)]
pub struct Attachment {
    /// Attachment type
    pub attachment_type: AttachmentType,
    /// URL or path
    pub location: String,
    /// Optional filename
    pub filename: Option<String>,
    /// MIME type if known
    pub mime_type: Option<String>,
}

/// Errors of frontend operations.
#[derive(Debug)]
pub enum FrontendError {
    /// Approval was denied by the user
    ApprovalDenied {
        /// Reason for denial
        reason: String,
    },
    /// Approval request timed out
    ApprovalTimeout {
        /// Timeout in milliseconds
        timeout_ms: u64,
    },
    /// MCP elicitation failed
    ElicitationFailed(String),
    /// Internal frontend error
    Internal(String),
    /// Underlying security error
    Security(SecurityError),
}

pub open spec fn frontend_message(e: FrontendError) -> Seq<char> {
    match e {
        FrontendError::ApprovalDenied { reason } => "approval denied: "@ + reason@,
        FrontendError::ApprovalTimeout { timeout_ms } => "approval timeout after "@ + decimal(
            timeout_ms as nat,
        ) + "ms"@,
        FrontendError::ElicitationFailed(s) => "elicitation failed: "@ + s@,
        FrontendError::Internal(s) => "internal frontend error: "@ + s@,
        FrontendError::Security(e) => security_message(e),
    }
}

impl FrontendError {
    /// The error's message.
    pub fn message(&self) -> (r: String)
        ensures
            r@ == frontend_message(*self),
    {
        match self {
            FrontendError::ApprovalDenied { reason } => cat("approval denied: ", reason.as_str()),
            FrontendError::ApprovalTimeout { timeout_ms } => {
                let mut r = String::from_str("approval timeout after ");
                let n = u64_to_decimal(*timeout_ms);
                r.append(n.as_str());
                r.append("ms");
                r
            },
            FrontendError::ElicitationFailed(s) => cat("elicitation failed: ", s.as_str()),
            FrontendError::Internal(s) => cat("internal frontend error: ", s.as_str()),
            FrontendError::Security(e) => e.message(),
        }
    }
}

impl From<SecurityError> for FrontendError {
    fn from(e: SecurityError) -> (r: Self)
        ensures
            r == FrontendError::Security(e),
    {
        FrontendError::Security(e)
    }
}

impl vstd::std_specs::convert::FromSpecImpl<SecurityError> for FrontendError {
    open spec fn obeys_from_spec() -> bool {
        true
    }

    open spec fn from_spec(v: SecurityError) -> Self {
        FrontendError::Security(v)
    }
}

/// Errors of identity operations.
#[derive(Debug)]
pub enum IdentityError {
    /// Identity not found
    NotFound(String),
    /// Identity verification failed
    VerificationFailed(String),
    /// Platform link already exists
    PlatformAlreadyLinked {
        /// The platform name
        platform: String,
        /// The existing linked identity
        existing_id: String,
    },
    /// Verification request expired
    VerificationExpired,
    /// Internal identity error
    Internal(String),
}

pub open spec fn identity_message(e: IdentityError) -> Seq<char> {
    match e {
        IdentityError::NotFound(s) => "identity not found: "@ + s@,
        IdentityError::VerificationFailed(s) => "identity verification failed: "@ + s@,
        IdentityError::PlatformAlreadyLinked { platform, existing_id } => "platform already linked: "@
            + platform@ + " -> "@ + existing_id@,
        IdentityError::VerificationExpired => "verification expired"@,
        IdentityError::Internal(s) => "internal identity error: "@ + s@,
    }
}

impl IdentityError {
    /// The error's message.
    pub fn message(&self) -> (r: String)
        ensures
            r@ == identity_message(*self),
    {
        match self {
            IdentityError::NotFound(s) => cat("identity not found: ", s.as_str()),
            IdentityError::VerificationFailed(s) => cat("identity verification failed: ", s.as_str()),
            IdentityError::PlatformAlreadyLinked { platform, existing_id } => {
                let mut r = String::from_str("platform already linked: ");
                r.append(platform.as_str());
                r.append(" -> ");
                r.append(existing_id.as_str());
                r
            },
            IdentityError::VerificationExpired => String::from_str("verification expired"),
            IdentityError::Internal(s) => cat("internal identity error: ", s.as_str()),
        }
    }
}

/// A frontend's user: its own id, the Astrid identity when resolved
/// (UUID bits), a display name, and whether it is an admin there.
#[derive(Debug)]
pub struct FrontendUser {
    /// The frontend's user id.
    pub frontend_user_id: String,
    /// The Astrid identity, once resolved.
    pub astrid_id: Option<u128>,
    /// Display name.
    pub display_name: Option<String>,
    /// Whether the user is an admin on this frontend.
    pub is_admin: bool,
}

impl FrontendUser {
    /// A user known only by the frontend's id.
    pub fn new<S: IntoText>(frontend_user_id: S) -> (r: Self)
        ensures
            r.frontend_user_id@ == frontend_user_id.text_view(),
            r.astrid_id is None,
            r.display_name is None,
            !r.is_admin,
    {
        FrontendUser { frontend_user_id: frontend_user_id.into_text(), astrid_id: None, display_name: None, is_admin: false }
    }

    /// Set the Astrid identity.
    pub fn with_astrid_id(self, id: u128) -> (r: Self)
        ensures
            r.astrid_id == Some(id),
            r.frontend_user_id == self.frontend_user_id,
            r.display_name == self.display_name,
            r.is_admin == self.is_admin,
    {
        FrontendUser { astrid_id: Some(id), ..self }
    }

    /// Set the display name.
    pub fn with_display_name<S: IntoText>(self, name: S) -> (r: Self)
        ensures
            r.display_name matches Some(n) && n@ == name.text_view(),
            r.frontend_user_id == self.frontend_user_id,
            r.astrid_id == self.astrid_id,
            r.is_admin == self.is_admin,
    {
        FrontendUser { display_name: Some(name.into_text()), ..self }
    }

    /// Set the admin flag.
    pub fn with_admin(self, is_admin: bool) -> (r: Self)
        ensures
            r.is_admin == is_admin,
            r.frontend_user_id == self.frontend_user_id,
            r.astrid_id == self.astrid_id,
            r.display_name == self.display_name,
    {
        FrontendUser { is_admin, ..self }
    }
}

/// A server asking the user for input (MCP elicitation).
#[derive(Debug)]
pub struct ElicitationRequest {
    /// The request's UUID bits.
    pub request_id: u128,
    /// The server asking.
    pub server_name: String,
    /// What input is wanted.
    pub schema: ElicitationSchema,
    /// The message shown.
    pub message: String,
    /// Whether an answer is required.
    pub required: bool,
}

impl ElicitationRequest {
    /// A required free-text request with a new random id.
    pub fn new<A: IntoText, B: IntoText>(server_name: A, message: B) -> (r: Self)
        ensures
            r.server_name@ == server_name.text_view(),
            is_v4_uuid(r.request_id),
            r.message@ == message.text_view(),
            r.schema matches ElicitationSchema::Text { placeholder: None, max_length: None },
            r.required,
    {
        ElicitationRequest {
            request_id: random_uuid(),
            server_name: server_name.into_text(),
            schema: ElicitationSchema::Text { placeholder: None, max_length: None },
            message: message.into_text(),
            required: true,
        }
    }

    /// Set the schema.
    pub fn with_schema(self, schema: ElicitationSchema) -> (r: Self)
        ensures
            r.schema == schema,
            r.request_id == self.request_id,
            r.server_name == self.server_name,
            r.message == self.message,
            r.required == self.required,
    {
        ElicitationRequest { schema, ..self }
    }

    /// Make the request optional.
    pub fn optional(self) -> (r: Self)
        ensures
            !r.required,
            r.request_id == self.request_id,
            r.server_name == self.server_name,
            r.schema == self.schema,
            r.message == self.message,
    {
        ElicitationRequest { required: false, ..self }
    }
}

#[verifier::external_type_specification]
#[verifier::external_body]
pub struct ExJsonValue(serde_json::Value);

/// `serde_json::Value::Null`, the JSON null value. Verus sees nothing
/// inside a JSON value, so that the value is null is not stated.
#[verifier::external_body]
pub(crate) fn json_null() -> serde_json::Value {
    serde_json::Value::Null
}

/// What the user did with an elicitation.
#[derive(Debug)]
pub enum ElicitationAction {
    /// Submitted a value.
    Submit {
        /// The value, as JSON.
        value: serde_json::Value,
    },
    /// Cancelled.
    Cancel,
    /// Dismissed an optional request.
    Dismiss,
}

/// The answer to an elicitation request.
#[derive(Debug)]
pub struct ElicitationResponse {
    /// The request answered (UUID bits).
    pub request_id: u128,
    /// What the user did.
    pub action: ElicitationAction,
}

impl ElicitationResponse {
    /// The user submitted `value`.
    pub fn submit(request_id: u128, value: serde_json::Value) -> (r: Self)
        ensures
            r.request_id == request_id,
            r.action == (ElicitationAction::Submit { value }),
    {
        ElicitationResponse { request_id, action: ElicitationAction::Submit { value } }
    }

    /// The user cancelled.
    pub fn cancel(request_id: u128) -> (r: Self)
        ensures
            r.request_id == request_id,
            r.action is Cancel,
    {
        ElicitationResponse { request_id, action: ElicitationAction::Cancel }
    }

    /// The user dismissed the request.
    pub fn dismiss(request_id: u128) -> (r: Self)
        ensures
            r.request_id == request_id,
            r.action is Dismiss,
    {
        ElicitationResponse { request_id, action: ElicitationAction::Dismiss }
    }
}

/// A URL the user is sent to (OAuth, payment, credentials).
#[derive(Debug)]
pub struct UrlElicitationRequest {
    /// The request's UUID bits.
    pub request_id: u128,
    /// The server asking.
    pub server_name: String,
    /// The URL shown.
    pub url: String,
    /// The message shown.
    pub message: String,
    /// What the URL is for.
    pub elicitation_type: UrlElicitationType,
}

impl UrlElicitationRequest {
    /// An OAuth request with a new random id.
    pub fn new<A: IntoText, B: IntoText, C: IntoText>(server_name: A, url: B, message: C) -> (r: Self)
        ensures
            r.server_name@ == server_name.text_view(),
            r.url@ == url.text_view(),
            r.message@ == message.text_view(),
            r.elicitation_type == UrlElicitationType::OAuth,
            is_v4_uuid(r.request_id),
    {
        UrlElicitationRequest {
            request_id: random_uuid(),
            server_name: server_name.into_text(),
            url: url.into_text(),
            message: message.into_text(),
            elicitation_type: UrlElicitationType::OAuth,
        }
    }

    /// Set what the URL is for.
    pub fn with_type(self, elicitation_type: UrlElicitationType) -> (r: Self)
        ensures
            r.elicitation_type == elicitation_type,
            r.request_id == self.request_id,
            r.server_name == self.server_name,
            r.url == self.url,
            r.message == self.message,
    {
        UrlElicitationRequest { elicitation_type, ..self }
    }
}

/// How a URL flow ended.
#[derive(Debug)]
pub struct UrlElicitationResponse {
    /// The request answered (UUID bits).
    pub request_id: u128,
    /// Whether the user completed the flow.
    pub completed: bool,
    /// Data the flow called back with (an OAuth code, say).
    pub callback_data: Option<StringMap<String>>,
    /// Why the flow failed, if it did.
    pub error: Option<String>,
}

impl UrlElicitationResponse {
    /// The user completed the flow.
    pub fn completed(request_id: u128) -> (r: Self)
        ensures
            r.request_id == request_id,
            r.completed,
            r.callback_data is None,
            r.error is None,
    {
        UrlElicitationResponse { request_id, completed: true, callback_data: None, error: None }
    }

    /// The user did not complete the flow.
    pub fn not_completed(request_id: u128) -> (r: Self)
        ensures
            r.request_id == request_id,
            !r.completed,
            r.callback_data is None,
            r.error is None,
    {
        UrlElicitationResponse { request_id, completed: false, callback_data: None, error: None }
    }

    /// Attach the flow's callback data.
    pub fn with_callback_data(self, data: StringMap<String>) -> (r: Self)
        ensures
            r.callback_data == Some(data),
            r.request_id == self.request_id,
            r.completed == self.completed,
            r.error == self.error,
    {
        UrlElicitationResponse { callback_data: Some(data), ..self }
    }
}

/// The user's answer to an approval request.
#[derive(Debug)]
pub struct ApprovalDecision {
    /// The request answered (UUID bits).
    pub request_id: u128,
    /// The option chosen.
    pub decision: ApprovalOption,
    /// When it was decided, in milliseconds since the Unix epoch.
    pub decided_at: i64,
    /// The reason the user gave, if any.
    pub reason: Option<String>,
}

impl ApprovalDecision {
    /// A decision taken now, without a reason.
    pub fn new(request_id: u128, decision: ApprovalOption) -> (r: Self)
        ensures
            r.request_id == request_id,
            r.decision == decision,
            r.reason is None,
    {
        ApprovalDecision { request_id, decision, decided_at: now_millis(), reason: None }
    }

    /// Add a reason.
    pub fn with_reason<S: IntoText>(self, reason: S) -> (r: Self)
        ensures
            r.reason matches Some(t) && t@ == reason.text_view(),
            r.request_id == self.request_id,
            r.decision == self.decision,
            r.decided_at == self.decided_at,
    {
        ApprovalDecision { reason: Some(reason.into_text()), ..self }
    }

    /// Whether the operation is allowed: any option but `Deny`.
    pub fn is_approved(&self) -> (r: bool)
        ensures
            r == !(self.decision is Deny),
    {
        !matches!(self.decision, ApprovalOption::Deny)
    }

    /// Whether the decision creates a lasting capability (`AllowAlways`).
    pub fn creates_capability(&self) -> (r: bool)
        ensures
            r == (self.decision is AllowAlways),
    {
        matches!(self.decision, ApprovalOption::AllowAlways)
    }

    /// Whether the decision creates a workspace allowance
    /// (`AllowWorkspace`).
    pub fn creates_workspace_allowance(&self) -> (r: bool)
        ensures
            r == (self.decision is AllowWorkspace),
    {
        matches!(self.decision, ApprovalOption::AllowWorkspace)
    }
}

/// Input the user sent, with its attachments.
#[derive(Debug)]
pub struct UserInput {
    /// The content.
    pub content: String,
    /// When it was received, in milliseconds since the Unix epoch.
    pub received_at: i64,
    /// Attachments (paths, URLs, inline data).
    pub attachments: Vec<Attachment>,
}

impl UserInput {
    /// Input received now, without attachments.
    pub fn new<S: IntoText>(content: S) -> (r: Self)
        ensures
            r.content@ == content.text_view(),
            r.attachments@.len() == 0,
    {
        UserInput { content: content.into_text(), received_at: now_millis(), attachments: Vec::new() }
    }

    /// The input with `attachment` added last.
    pub fn with_attachment(self, attachment: Attachment) -> (r: Self)
        ensures
            r.attachments@ == self.attachments@.push(attachment),
            r.content == self.content,
            r.received_at == self.received_at,
    {
        let mut s = self;
        s.attachments.push(attachment);
        s
    }
}


/// Session information from the frontend: its id (a UUID), when it started
/// (milliseconds since the Unix epoch), and its metadata.
#[derive(Debug)]
pub struct FrontendSessionInfo {
    pub session_id: u128,
    pub started_at: i64,
    pub metadata: StringMap<String>,
}

impl FrontendSessionInfo {
    /// A new session with a random version-4 id, started now, with no
    /// metadata.
    pub fn new() -> (r: Self)
        ensures
            is_v4_uuid(r.session_id),
            r.metadata.view() == Map::<Seq<char>, String>::empty(),
    {
        FrontendSessionInfo { session_id: random_uuid(), started_at: now_millis(), metadata: StringMap::new() }
    }

    /// Add (or replace) a metadata entry.
    pub fn with_metadata<K: IntoText, V: IntoText>(self, key: K, value: V) -> (r: Self)
        ensures
            r.session_id == self.session_id,
            r.started_at == self.started_at,
            r.metadata.view().dom() == self.metadata.view().dom().insert(key.text_view()),
            r.metadata.view()[key.text_view()]@ == value.text_view(),
            forall|k: Seq<char>|
                k != key.text_view() && #[trigger] self.metadata.view().dom().contains(k) ==> r.metadata.view()[k]
                    == self.metadata.view()[k],
    {
        let mut s = self;
        let v = value.into_text();
        s.metadata.insert(key.into_text(), v);
        s
    }
}

impl Default for FrontendSessionInfo {
    fn default() -> (r: Self)
        ensures
            is_v4_uuid(r.session_id),
            r.metadata.view() == Map::<Seq<char>, String>::empty(),
    {
        Self::new()
    }
}

/// The interaction a frontend is in: where, with whom, on which channel,
/// in which session.
#[derive(Debug)]
pub struct FrontendContext {
    pub context_id: ContextIdentifier,
    pub user: FrontendUser,
    pub channel: ChannelInfo,
    pub session: FrontendSessionInfo,
}

impl FrontendContext {
    /// A context from its parts.
    pub fn new(
        context_id: ContextIdentifier,
        user: FrontendUser,
        channel: ChannelInfo,
        session: FrontendSessionInfo,
    ) -> (r: Self)
        ensures
            r == (FrontendContext { context_id, user, channel, session }),
    {
        FrontendContext { context_id, user, channel, session }
    }

    /// Whether the interaction is a direct message.
    pub fn is_dm(&self) -> (r: bool)
        ensures
            r == (self.context_id is DirectMessage),
    {
        match self.context_id {
            ContextIdentifier::DirectMessage { .. } => true,
            _ => false,
        }
    }

    /// Whether the interaction is private (direct message, group chat, CLI
    /// or web session).
    pub fn is_private(&self) -> (r: bool)
        ensures
            r == (self.context_id is DirectMessage || self.context_id is GroupChat
                || self.context_id is CliSession || self.context_id is WebSession),
    {
        self.context_id.is_private()
    }
}

/// A request for the user's approval of an operation.
#[derive(Debug)]
pub struct ApprovalRequest {
    /// The request's id, a UUID.
    pub request_id: u128,
    pub operation: String,
    pub description: String,
    pub risk_level: RiskLevel,
    pub resource: Option<String>,
    /// The options offered.
    pub options: Vec<ApprovalOption>,
}

/// The options an approval request offers unless told otherwise.
pub open spec fn default_approval_options() -> Seq<ApprovalOption> {
    seq![
        ApprovalOption::AllowOnce,
        ApprovalOption::AllowSession,
        ApprovalOption::AllowWorkspace,
        ApprovalOption::AllowAlways,
        ApprovalOption::Deny,
    ]
}

impl ApprovalRequest {
    /// A request with a random version-4 id, medium risk, no resource, and
    /// every option offered.
    pub fn new<A: IntoText, B: IntoText>(operation: A, description: B) -> (r: Self)
        ensures
            is_v4_uuid(r.request_id),
            r.operation@ == operation.text_view(),
            r.description@ == description.text_view(),
            r.risk_level == RiskLevel::Medium,
            r.resource is None,
            r.options@ == default_approval_options(),
    {
        let options = vec![
            ApprovalOption::AllowOnce,
            ApprovalOption::AllowSession,
            ApprovalOption::AllowWorkspace,
            ApprovalOption::AllowAlways,
            ApprovalOption::Deny,
        ];
        assert(options@ =~= default_approval_options());
        ApprovalRequest {
            request_id: random_uuid(),
            operation: operation.into_text(),
            description: description.into_text(),
            risk_level: RiskLevel::Medium,
            resource: None,
            options,
        }
    }

    /// Set the risk level.
    pub fn with_risk_level(self, level: RiskLevel) -> (r: Self)
        ensures
            r == (ApprovalRequest { risk_level: level, ..self }),
    {
        ApprovalRequest { risk_level: level, ..self }
    }

    /// Set the resource.
    pub fn with_resource<S: IntoText>(self, resource: S) -> (r: Self)
        ensures
            r.resource matches Some(x) && x@ == resource.text_view(),
            r.request_id == self.request_id,
            r.operation == self.operation,
            r.description == self.description,
            r.risk_level == self.risk_level,
            r.options == self.options,
    {
        ApprovalRequest { resource: Some(resource.into_text()), ..self }
    }

    /// Offer these options.
    pub fn with_options(self, options: Vec<ApprovalOption>) -> (r: Self)
        ensures
            r == (ApprovalRequest { options, ..self }),
    {
        ApprovalRequest { options, ..self }
    }
}
} // verus!
