//! Connector types — what a connector can do, how it behaves, and where it
//! comes from.

use vstd::prelude::*;
use crate::error::{security_message, SecurityError};
use crate::frontend::{json_null, Attachment};
use crate::user_identity::{is_v4_uuid, now_millis, random_uuid, uuid_string, uuid_text};
use crate::identity::FrontendType;
use crate::string_map::StringMap;
use crate::text::{
    cat, cat3, chars_to_string, debug_char, debug_str, decimal, str_debug_form, char_debug_form,
    str_to_chars, to_unicode_lowercase, trim_chars, trim_seq, truncate_to_boundary,
    truncated_to_boundary, u64_to_decimal, unicode_lowercase, chars_eq, IntoText,
};

verus! {

/// Maximum number of connectors a single plugin may register.
pub const MAX_CONNECTORS_PER_PLUGIN: usize = 32;

/// Declares what a connector is able to do.
#[derive(Debug, Clone, Copy, PartialEq, Eq)]
pub struct ConnectorCapabilities {
    /// Can receive inbound messages from users.
    pub can_receive: bool,
    /// Can send outbound messages to users.
    pub can_send: bool,
    /// Can present approval requests to a human.
    pub can_approve: bool,
    /// Can present elicitation requests to a human.
    pub can_elicit: bool,
    /// Supports rich media (images, embeds, etc.).
    pub supports_rich_media: bool,
    /// Supports threaded conversations.
    pub supports_threads: bool,
    /// Supports interactive buttons / action rows.
    pub supports_buttons: bool,
}

impl ConnectorCapabilities {
    /// No capability at all.
    pub open spec fn none_spec() -> Self {
        ConnectorCapabilities {
            can_receive: false,
            can_send: false,
            can_approve: false,
            can_elicit: false,
            supports_rich_media: false,
            supports_threads: false,
            supports_buttons: false,
        }
    }

    /// All capabilities enabled.
    pub fn full() -> (r: Self)
        ensures
            r == (ConnectorCapabilities {
                can_receive: true,
                can_send: true,
                can_approve: true,
                can_elicit: true,
                supports_rich_media: true,
                supports_threads: true,
                supports_buttons: true,
            }),
    {
        ConnectorCapabilities {
            can_receive: true,
            can_send: true,
            can_approve: true,
            can_elicit: true,
            supports_rich_media: true,
            supports_threads: true,
            supports_buttons: true,
        }
    }

    /// Send-only — for notification bots, webhooks, etc.
    pub fn notify_only() -> (r: Self)
        ensures
            r == (ConnectorCapabilities { can_send: true, ..Self::none_spec() }),
    {
        ConnectorCapabilities {
            can_receive: false,
            can_send: true,
            can_approve: false,
            can_elicit: false,
            supports_rich_media: false,
            supports_threads: false,
            supports_buttons: false,
        }
    }

    /// Receive-only — for ingestion connectors that consume but never reply.
    pub fn receive_only() -> (r: Self)
        ensures
            r == (ConnectorCapabilities { can_receive: true, ..Self::none_spec() }),
    {
        ConnectorCapabilities {
            can_receive: true,
            can_send: false,
            can_approve: false,
            can_elicit: false,
            supports_rich_media: false,
            supports_threads: false,
            supports_buttons: false,
        }
    }
}

impl Default for ConnectorCapabilities {
    /// Every flag off.
    fn default() -> (r: Self)
        ensures
            r == Self::none_spec(),
    {
        ConnectorCapabilities {
            can_receive: false,
            can_send: false,
            can_approve: false,
            can_elicit: false,
            supports_rich_media: false,
            supports_threads: false,
            supports_buttons: false,
        }
    }
}

/// High-level behavioural profile of a connector.
#[derive(Debug, Clone, Copy, PartialEq, Eq, Hash)]
pub enum ConnectorProfile {
    /// Full chat interface (CLI, Discord, Slack).
    Chat,
    /// Interactive but not chat-based (Web dashboard, IDE panel).
    Interactive,
    /// Fire-and-forget notifications only.
    Notify,
    /// Protocol bridge (`OpenClaw`, MCP relay).
    Bridge,
}

/// The name of a profile, as displayed and parsed.
pub open spec fn profile_name(p: ConnectorProfile) -> Seq<char> {
    match p {
        ConnectorProfile::Chat => "chat"@,
        ConnectorProfile::Interactive => "interactive"@,
        ConnectorProfile::Notify => "notify"@,
        ConnectorProfile::Bridge => "bridge"@,
    }
}

/// The profile named `s` once lower-cased and trimmed, or the message
/// naming the unknown value.
pub open spec fn profile_parse_result(s: Seq<char>) -> Result<ConnectorProfile, Seq<char>> {
    let n = trim_seq(unicode_lowercase(s));
    if n == "chat"@ {
        Ok(ConnectorProfile::Chat)
    } else if n == "interactive"@ {
        Ok(ConnectorProfile::Interactive)
    } else if n == "notify"@ {
        Ok(ConnectorProfile::Notify)
    } else if n == "bridge"@ {
        Ok(ConnectorProfile::Bridge)
    } else {
        Err("unknown connector profile: "@ + n)
    }
}

impl ConnectorProfile {
    /// The profile's name (`chat`, `interactive`, `notify`, `bridge`).
    pub fn to_string(&self) -> (r: String)
        ensures
            r@ == profile_name(*self),
    {
        match self {
            ConnectorProfile::Chat => String::from_str("chat"),
            ConnectorProfile::Interactive => String::from_str("interactive"),
            ConnectorProfile::Notify => String::from_str("notify"),
            ConnectorProfile::Bridge => String::from_str("bridge"),
        }
    }

    /// Parse a profile name, ignoring case and surrounding whitespace.
    pub fn parse_profile(s: &str) -> (r: Result<ConnectorProfile, String>)
        ensures
            match r {
                Ok(p) => profile_parse_result(s@) == Ok::<ConnectorProfile, Seq<char>>(p),
                Err(m) => profile_parse_result(s@) == Err::<ConnectorProfile, Seq<char>>(m@),
            },
    {
        let lowered = to_unicode_lowercase(s);
        let n = trim_chars(&str_to_chars(lowered.as_str()));
        if chars_eq(&n, &str_to_chars("chat")) {
            Ok(ConnectorProfile::Chat)
        } else if chars_eq(&n, &str_to_chars("interactive")) {
            Ok(ConnectorProfile::Interactive)
        } else if chars_eq(&n, &str_to_chars("notify")) {
            Ok(ConnectorProfile::Notify)
        } else if chars_eq(&n, &str_to_chars("bridge")) {
            Ok(ConnectorProfile::Bridge)
        } else {
            let rest = chars_to_string(&n);
            Err(cat("unknown connector profile: ", rest.as_str()))
        }
    }
}

impl core::str::FromStr for ConnectorProfile {
    type Err = String;

    fn from_str(s: &str) -> (r: Result<Self, Self::Err>)
        ensures
            match r {
                Ok(p) => profile_parse_result(s@) == Ok::<ConnectorProfile, Seq<char>>(p),
                Err(m) => profile_parse_result(s@) == Err::<ConnectorProfile, Seq<char>>(m@),
            },
    {
        ConnectorProfile::parse_profile(s)
    }
}

/// Characters a plugin id may hold: `[a-z0-9-]`.
pub open spec fn is_plugin_id_char(c: char) -> bool {
    ('a' <= c && c <= 'z') || ('0' <= c && c <= '9') || c == '-'
}

/// Index of the first character outside `[a-z0-9-]` (`s.len()` when there
/// is none).
pub open spec fn first_bad_plugin_char(s: Seq<char>) -> int
    decreases s.len(),
{
    if s.len() == 0 || !is_plugin_id_char(s[0]) {
        0
    } else {
        1 + first_bad_plugin_char(s.drop_first())
    }
}

/// The outcome of validating a plugin id: `Ok` or the error message.
pub open spec fn plugin_id_check(id: Seq<char>) -> Result<(), Seq<char>> {
    if id.len() == 0 {
        Err("plugin_id must not be empty"@)
    } else if !(('a' <= id[0] && id[0] <= 'z') || ('0' <= id[0] && id[0] <= '9')) {
        Err("plugin_id must start with [a-z0-9], got "@ + str_debug_form(id))
    } else if id.last() == '-' {
        Err("plugin_id must not end with a hyphen, got "@ + str_debug_form(id))
    } else if first_bad_plugin_char(id) < id.len() {
        Err("plugin_id contains invalid character "@ + char_debug_form(
            id[first_bad_plugin_char(id)],
        ))
    } else {
        Ok(())
    }
}

/// A valid plugin id: non-empty `[a-z0-9-]`, not starting or ending with a
/// hyphen.
pub open spec fn is_valid_plugin_id(id: Seq<char>) -> bool {
    &&& id.len() > 0
    &&& id[0] != '-'
    &&& id.last() != '-'
    &&& forall|i: int| 0 <= i < id.len() ==> #[trigger] is_plugin_id_char(id[i])
}

proof fn lemma_first_bad_plugin_char(s: Seq<char>)
    ensures
        0 <= first_bad_plugin_char(s) <= s.len(),
        forall|i: int| 0 <= i < first_bad_plugin_char(s) ==> is_plugin_id_char(s[i]),
        first_bad_plugin_char(s) < s.len() ==> !is_plugin_id_char(s[first_bad_plugin_char(s)]),
    decreases s.len(),
{
    if s.len() > 0 && is_plugin_id_char(s[0]) {
        lemma_first_bad_plugin_char(s.drop_first());
        assert forall|i: int| 0 <= i < first_bad_plugin_char(s) implies is_plugin_id_char(s[i]) by {
            if i > 0 {
                assert(s[i] == s.drop_first()[i - 1]);
            }
        }
    }
}

/// Errors specific to connector operations.
#[derive(Debug, Clone, PartialEq, Eq)]
pub enum ConnectorError {
    /// The connector is not connected or has been unregistered.
    NotConnected,
    /// Sending a message failed.
    SendFailed(String),
    /// The plugin ID failed validation.
    InvalidPluginId(String),
    /// The requested operation is not supported by this connector.
    UnsupportedOperation(String),
    /// Serialization / deserialization error.
    Serialization(String),
    /// An approval request was denied by the user.
    ApprovalDenied { reason: String },
    /// An approval request timed out before the user responded.
    ApprovalTimeout { timeout_ms: u64 },
    /// An underlying security error.
    Security(SecurityError),
    /// Catch-all for internal errors.
    Internal(String),
}

/// Convenience alias for connector operations.
pub type ConnectorResult<T> = Result<T, ConnectorError>;

/// The human-readable text of a connector error.
pub open spec fn connector_error_message(e: ConnectorError) -> Seq<char> {
    match e {
        ConnectorError::NotConnected => "connector not connected"@,
        ConnectorError::SendFailed(s) => "send failed: "@ + s@,
        ConnectorError::InvalidPluginId(s) => "invalid plugin id: "@ + s@,
        ConnectorError::UnsupportedOperation(s) => "unsupported operation: "@ + s@,
        ConnectorError::Serialization(s) => "serialization error: "@ + s@,
        ConnectorError::ApprovalDenied { reason } => "approval denied: "@ + reason@,
        ConnectorError::ApprovalTimeout { timeout_ms } =>
            "approval timeout after "@ + decimal(timeout_ms as nat) + "ms"@,
        ConnectorError::Security(s) => security_message(s),
        ConnectorError::Internal(s) => "internal connector error: "@ + s@,
    }
}

impl ConnectorError {
    /// Human-readable description of the error.
    pub fn message(&self) -> (r: String)
        ensures
            r@ == connector_error_message(*self),
    {
        match self {
            ConnectorError::NotConnected => String::from_str("connector not connected"),
            ConnectorError::SendFailed(s) => cat("send failed: ", s.as_str()),
            ConnectorError::InvalidPluginId(s) => cat("invalid plugin id: ", s.as_str()),
            ConnectorError::UnsupportedOperation(s) => cat("unsupported operation: ", s.as_str()),
            ConnectorError::Serialization(s) => cat("serialization error: ", s.as_str()),
            ConnectorError::ApprovalDenied { reason } => cat("approval denied: ", reason.as_str()),
            ConnectorError::ApprovalTimeout { timeout_ms } => {
                let d = u64_to_decimal(*timeout_ms);
                cat3("approval timeout after ", d.as_str(), "ms")
            },
            ConnectorError::Security(s) => s.message(),
            ConnectorError::Internal(s) => cat("internal connector error: ", s.as_str()),
        }
    }

    /// Same as [`ConnectorError::message`].
    pub fn to_string(&self) -> (r: String)
        ensures
            r@ == connector_error_message(*self),
    {
        self.message()
    }
}

impl From<SecurityError> for ConnectorError {
    fn from(e: SecurityError) -> (r: ConnectorError) {
        ConnectorError::Security(e)
    }
}

impl vstd::std_specs::convert::FromSpecImpl<SecurityError> for ConnectorError {
    open spec fn obeys_from_spec() -> bool {
        true
    }

    open spec fn from_spec(v: SecurityError) -> ConnectorError {
        ConnectorError::Security(v)
    }
}

/// Validate that a plugin ID is non-empty, contains only `[a-z0-9-]`, and
/// does not start or end with a hyphen. The checks run in that order:
/// empty, first character, last character, then every character.
pub fn validate_plugin_id(id: &str) -> (r: ConnectorResult<()>)
    ensures
        match r {
            Ok(()) => plugin_id_check(id@) == Ok::<(), Seq<char>>(()),
            Err(ConnectorError::InvalidPluginId(m)) => plugin_id_check(id@) == Err::<(), Seq<char>>(
                m@,
            ),
            Err(_) => false,
        },
        r is Ok <==> is_valid_plugin_id(id@),
{
    let chars = str_to_chars(id);
    proof {
        lemma_first_bad_plugin_char(chars@);
    }
    if chars.len() == 0 {
        return Err(ConnectorError::InvalidPluginId(String::from_str("plugin_id must not be empty")));
    }
    let first = chars[0];
    if !(('a' <= first && first <= 'z') || ('0' <= first && first <= '9')) {
        let q = debug_str(id);
        return Err(
            ConnectorError::InvalidPluginId(
                cat("plugin_id must start with [a-z0-9], got ", q.as_str()),
            ),
        );
    }
    if chars[chars.len() - 1] == '-' {
        let q = debug_str(id);
        return Err(
            ConnectorError::InvalidPluginId(
                cat("plugin_id must not end with a hyphen, got ", q.as_str()),
            ),
        );
    }
    let mut i: usize = 0;
    while i < chars.len()
        invariant
            i <= chars@.len(),
            chars@ == id@,
            chars@.len() > 0,
            forall|j: int| 0 <= j < i ==> is_plugin_id_char(#[trigger] chars@[j]),
            0 <= first_bad_plugin_char(chars@) <= chars@.len(),
            forall|j: int| 0 <= j < first_bad_plugin_char(chars@) ==> is_plugin_id_char(chars@[j]),
            first_bad_plugin_char(chars@) < chars@.len() ==> !is_plugin_id_char(
                chars@[first_bad_plugin_char(chars@)],
            ),
            plugin_id_check(id@) == (if first_bad_plugin_char(chars@) < chars@.len() {
                Err::<(), Seq<char>>(
                    "plugin_id contains invalid character "@ + char_debug_form(
                        chars@[first_bad_plugin_char(chars@)],
                    ),
                )
            } else {
                Ok::<(), Seq<char>>(())
            }),
        decreases chars@.len() - i,
    {
        let c = chars[i];
        if !(('a' <= c && c <= 'z') || ('0' <= c && c <= '9') || c == '-') {
            assert(first_bad_plugin_char(chars@) == i);
            let q = debug_char(c);
            return Err(
                ConnectorError::InvalidPluginId(
                    cat("plugin_id contains invalid character ", q.as_str()),
                ),
            );
        }
        i = i + 1;
    }
    Ok(())
}

/// Where a connector originates from.
#[derive(Debug, Clone, PartialEq, Eq, Hash)]
pub enum ConnectorSource {
    /// Built-in frontend (CLI, Discord, Web).
    Native,
    /// WASM plugin providing a connector.
    Wasm {
        /// Plugin identifier.
        plugin_id: String,
    },
    /// `OpenClaw`-bridged plugin connector.
    OpenClaw {
        /// Plugin identifier.
        plugin_id: String,
    },
}

/// The display form of a source; plugin ids are cut to 64 bytes at a
/// character boundary.
pub open spec fn source_display(s: ConnectorSource) -> Seq<char> {
    match s {
        ConnectorSource::Native => "native"@,
        ConnectorSource::Wasm { plugin_id } => "wasm("@ + truncated_to_boundary(plugin_id@, 64)
            + ")"@,
        ConnectorSource::OpenClaw { plugin_id } => "openclaw("@ + truncated_to_boundary(
            plugin_id@,
            64,
        ) + ")"@,
    }
}

impl ConnectorSource {
    /// Create a `Wasm` source with a validated plugin ID.
    pub fn new_wasm<S: IntoText>(plugin_id: S) -> (r: ConnectorResult<Self>)
        ensures
            match r {
                Ok(ConnectorSource::Wasm { plugin_id: p }) => p@ == plugin_id.text_view()
                    && is_valid_plugin_id(p@),
                Ok(_) => false,
                Err(ConnectorError::InvalidPluginId(m)) => plugin_id_check(plugin_id.text_view())
                    == Err::<(), Seq<char>>(m@),
                Err(_) => false,
            },
            r is Ok <==> is_valid_plugin_id(plugin_id.text_view()),
    {
        let id = plugin_id.into_text();
        match validate_plugin_id(id.as_str()) {
            Ok(()) => Ok(ConnectorSource::Wasm { plugin_id: id }),
            Err(e) => Err(e),
        }
    }

    /// Create an `OpenClaw` source with a validated plugin ID.
    pub fn new_openclaw<S: IntoText>(plugin_id: S) -> (r: ConnectorResult<Self>)
        ensures
            match r {
                Ok(ConnectorSource::OpenClaw { plugin_id: p }) => p@ == plugin_id.text_view()
                    && is_valid_plugin_id(p@),
                Ok(_) => false,
                Err(ConnectorError::InvalidPluginId(m)) => plugin_id_check(plugin_id.text_view())
                    == Err::<(), Seq<char>>(m@),
                Err(_) => false,
            },
            r is Ok <==> is_valid_plugin_id(plugin_id.text_view()),
    {
        let id = plugin_id.into_text();
        match validate_plugin_id(id.as_str()) {
            Ok(()) => Ok(ConnectorSource::OpenClaw { plugin_id: id }),
            Err(e) => Err(e),
        }
    }

    /// The display form: `native`, `wasm(id)` or `openclaw(id)`.
    pub fn to_string(&self) -> (r: String)
        ensures
            r@ == source_display(*self),
    {
        match self {
            ConnectorSource::Native => String::from_str("native"),
            ConnectorSource::Wasm { plugin_id } => {
                let safe = chars_to_string(&truncate_to_boundary(&str_to_chars(plugin_id.as_str()), 64));
                cat3("wasm(", safe.as_str(), ")")
            },
            ConnectorSource::OpenClaw { plugin_id } => {
                let safe = chars_to_string(&truncate_to_boundary(&str_to_chars(plugin_id.as_str()), 64));
                cat3("openclaw(", safe.as_str(), ")")
            },
        }
    }
}

/// Builder for a connector descriptor.
#[derive(Debug)]
pub struct ConnectorDescriptorBuilder {
    name: String,
    frontend_type: FrontendType,
    source: ConnectorSource,
    capabilities: ConnectorCapabilities,
    profile: ConnectorProfile,
    metadata: StringMap<String>,
}

impl ConnectorDescriptorBuilder {
    pub closed spec fn name_spec(&self) -> Seq<char> {
        self.name@
    }

    pub closed spec fn frontend_type_spec(&self) -> FrontendType {
        self.frontend_type
    }

    pub closed spec fn source_spec(&self) -> ConnectorSource {
        self.source
    }

    pub closed spec fn capabilities_spec(&self) -> ConnectorCapabilities {
        self.capabilities
    }

    pub closed spec fn profile_spec(&self) -> ConnectorProfile {
        self.profile
    }

    pub closed spec fn metadata_spec(&self) -> Map<Seq<char>, String> {
        self.metadata.view()
    }

    /// Start building a descriptor: native source, no capabilities, chat
    /// profile, no metadata.
    pub fn new<S: IntoText>(name: S, frontend_type: FrontendType) -> (r: Self)
        ensures
            r.name_spec() == name.text_view(),
            r.frontend_type_spec() == frontend_type,
            r.source_spec() == ConnectorSource::Native,
            r.capabilities_spec() == ConnectorCapabilities::none_spec(),
            r.profile_spec() == ConnectorProfile::Chat,
            r.metadata_spec() == Map::<Seq<char>, String>::empty(),
    {
        ConnectorDescriptorBuilder {
            name: name.into_text(),
            frontend_type,
            source: ConnectorSource::Native,
            capabilities: ConnectorCapabilities::default(),
            profile: ConnectorProfile::Chat,
            metadata: StringMap::new(),
        }
    }

    /// Set the connector source.
    pub fn source(self, source: ConnectorSource) -> (r: Self)
        ensures
            r.source_spec() == source,
            r.name_spec() == self.name_spec(),
            r.frontend_type_spec() == self.frontend_type_spec(),
            r.capabilities_spec() == self.capabilities_spec(),
            r.profile_spec() == self.profile_spec(),
            r.metadata_spec() == self.metadata_spec(),
    {
        ConnectorDescriptorBuilder { source, ..self }
    }

    /// Set the connector capabilities.
    pub fn capabilities(self, capabilities: ConnectorCapabilities) -> (r: Self)
        ensures
            r.capabilities_spec() == capabilities,
            r.name_spec() == self.name_spec(),
            r.frontend_type_spec() == self.frontend_type_spec(),
            r.source_spec() == self.source_spec(),
            r.profile_spec() == self.profile_spec(),
            r.metadata_spec() == self.metadata_spec(),
    {
        ConnectorDescriptorBuilder { capabilities, ..self }
    }

    /// Set the connector profile.
    pub fn profile(self, profile: ConnectorProfile) -> (r: Self)
        ensures
            r.profile_spec() == profile,
            r.name_spec() == self.name_spec(),
            r.frontend_type_spec() == self.frontend_type_spec(),
            r.source_spec() == self.source_spec(),
            r.capabilities_spec() == self.capabilities_spec(),
            r.metadata_spec() == self.metadata_spec(),
    {
        ConnectorDescriptorBuilder { profile, ..self }
    }

    /// Insert a metadata entry; a later entry for the same key replaces an
    /// earlier one.
    pub fn metadata<K: IntoText, V: IntoText>(self, key: K, value: V) -> (r: Self)
        ensures
            r.metadata_spec().dom() == self.metadata_spec().dom().insert(key.text_view()),
            r.metadata_spec()[key.text_view()]@ == value.text_view(),
            forall|k: Seq<char>|
                k != key.text_view() && #[trigger] self.metadata_spec().dom().contains(k)
                    ==> r.metadata_spec()[k] == self.metadata_spec()[k],
            r.name_spec() == self.name_spec(),
            r.frontend_type_spec() == self.frontend_type_spec(),
            r.source_spec() == self.source_spec(),
            r.capabilities_spec() == self.capabilities_spec(),
            r.profile_spec() == self.profile_spec(),
    {
        let mut b = self;
        b.metadata.insert(key.into_text(), value.into_text());
        b
    }

    /// The parts gathered so far: name, platform, source, capabilities,
    /// profile and metadata entries in insertion order.
    pub fn into_parts(self) -> (r: (
        String,
        FrontendType,
        ConnectorSource,
        ConnectorCapabilities,
        ConnectorProfile,
        StringMap<String>,
    ))
        ensures
            r.0@ == self.name_spec(),
            r.1 == self.frontend_type_spec(),
            r.2 == self.source_spec(),
            r.3 == self.capabilities_spec(),
            r.4 == self.profile_spec(),
            r.5.view() == self.metadata_spec(),
    {
        (self.name, self.frontend_type, self.source, self.capabilities, self.profile, self.metadata)
    }
    /// The descriptor: the gathered parts, with a new random id and the
    /// current time as registration time.
    pub fn build(self) -> (r: ConnectorDescriptor)
        ensures
            r.name@ == self.name_spec(),
            r.frontend_type == self.frontend_type_spec(),
            r.source == self.source_spec(),
            r.capabilities == self.capabilities_spec(),
            r.profile == self.profile_spec(),
            r.metadata.view() == self.metadata_spec(),
    {
        let (name, frontend_type, source, capabilities, profile, metadata) = self.into_parts();
        ConnectorDescriptor {
            id: ConnectorId::new(),
            name,
            frontend_type,
            source,
            capabilities,
            profile,
            registered_at: now_millis(),
            metadata,
        }
    }
}

/// Unique, opaque identifier of a registered connector: a UUID's 128 bits.
#[derive(Debug, Clone, Copy, PartialEq, Eq, Hash, Structural)]
pub struct ConnectorId(u128);

impl ConnectorId {
    /// The UUID's bits.
    pub closed spec fn bits(&self) -> u128 {
        self.0
    }

    /// A new random connector id: a version-4 UUID.
    pub fn new() -> (r: Self)
        ensures
            is_v4_uuid(r.bits()),
    {
        ConnectorId(random_uuid())
    }

    /// The id with these UUID bits.
    pub fn from_uuid(id: u128) -> (r: Self)
        ensures
            r.bits() == id,
    {
        ConnectorId(id)
    }

    /// The UUID's bits.
    pub fn as_uuid(&self) -> (r: u128)
        ensures
            r == self.bits(),
    {
        self.0
    }

    /// The UUID's hyphenated hex text.
    pub fn to_string(&self) -> (r: String)
        ensures
            r@ == uuid_text(self.bits()),
    {
        uuid_string(self.0)
    }
}

/// Description of a registered connector.
#[derive(Debug)]
pub struct ConnectorDescriptor {
    /// Unique connector identity.
    pub id: ConnectorId,
    /// Human-readable name.
    pub name: String,
    /// The platform this connector serves.
    pub frontend_type: FrontendType,
    /// Where the connector comes from.
    pub source: ConnectorSource,
    /// What the connector can do.
    pub capabilities: ConnectorCapabilities,
    /// Behavioural profile.
    pub profile: ConnectorProfile,
    /// When the connector was registered, in milliseconds since the Unix
    /// epoch.
    pub registered_at: i64,
    /// Key-value metadata.
    pub metadata: StringMap<String>,
}

impl ConnectorDescriptor {
    /// Start building a descriptor: native source, no capabilities, chat
    /// profile, no metadata.
    pub fn builder<S: IntoText>(name: S, frontend_type: FrontendType) -> (r: ConnectorDescriptorBuilder)
        ensures
            r.name_spec() == name.text_view(),
            r.frontend_type_spec() == frontend_type,
            r.source_spec() == ConnectorSource::Native,
            r.capabilities_spec() == ConnectorCapabilities::none_spec(),
            r.profile_spec() == ConnectorProfile::Chat,
            r.metadata_spec() == Map::<Seq<char>, String>::empty(),
    {
        ConnectorDescriptorBuilder::new(name, frontend_type)
    }
}

/// A message arriving into the runtime from a connector.
#[derive(Debug)]
pub struct InboundMessage {
    /// Which connector produced this message.
    pub connector_id: ConnectorId,
    /// Platform the message originated on.
    pub platform: FrontendType,
    /// Platform-specific user identifier.
    pub platform_user_id: String,
    /// Textual content.
    pub content: String,
    /// Opaque context payload (JSON).
    pub context: serde_json::Value,
    /// Attached files or URLs.
    pub attachments: Vec<Attachment>,
    /// Thread identifier, if threaded.
    pub thread_id: Option<String>,
    /// When the message was created, in milliseconds since the Unix epoch.
    pub timestamp: i64,
}

/// Builder for an [`InboundMessage`].
#[derive(Debug)]
pub struct InboundMessageBuilder {
    message: InboundMessage,
}

impl InboundMessageBuilder {
    /// The message built so far.
    pub closed spec fn message_spec(&self) -> InboundMessage {
        self.message
    }

    /// Set the opaque context payload.
    pub fn context(self, context: serde_json::Value) -> (r: Self)
        ensures
            r.message_spec() == (InboundMessage { context, ..self.message_spec() }),
    {
        InboundMessageBuilder { message: InboundMessage { context, ..self.message } }
    }

    /// Add an attachment.
    pub fn attachment(self, attachment: Attachment) -> (r: Self)
        ensures
            r.message_spec() == (InboundMessage {
                attachments: r.message_spec().attachments,
                ..self.message_spec()
            }),
            r.message_spec().attachments@ == self.message_spec().attachments@.push(attachment),
    {
        let mut m = self.message;
        m.attachments.push(attachment);
        InboundMessageBuilder { message: m }
    }

    /// Set the thread id.
    pub fn thread_id<S: IntoText>(self, thread_id: S) -> (r: Self)
        ensures
            r.message_spec() == (InboundMessage {
                thread_id: r.message_spec().thread_id,
                ..self.message_spec()
            }),
            r.message_spec().thread_id matches Some(t) && t@ == thread_id.text_view(),
    {
        InboundMessageBuilder { message: InboundMessage { thread_id: Some(thread_id.into_text()), ..self.message } }
    }

    /// Override the timestamp.
    pub fn timestamp(self, timestamp: i64) -> (r: Self)
        ensures
            r.message_spec() == (InboundMessage { timestamp, ..self.message_spec() }),
    {
        InboundMessageBuilder { message: InboundMessage { timestamp, ..self.message } }
    }

    /// The message.
    pub fn build(self) -> (r: InboundMessage)
        ensures
            r == self.message_spec(),
    {
        self.message
    }
}

impl InboundMessage {
    /// Start building a message received now: null context, no
    /// attachments, no thread.
    pub fn builder<U: IntoText, C: IntoText>(
        connector_id: ConnectorId,
        platform: FrontendType,
        platform_user_id: U,
        content: C,
    ) -> (r: InboundMessageBuilder)
        ensures
            r.message_spec().connector_id == connector_id,
            r.message_spec().platform == platform,
            r.message_spec().platform_user_id@ == platform_user_id.text_view(),
            r.message_spec().content@ == content.text_view(),
            r.message_spec().attachments@.len() == 0,
            r.message_spec().thread_id is None,
    {
        InboundMessageBuilder {
            message: InboundMessage {
                connector_id,
                platform,
                platform_user_id: platform_user_id.into_text(),
                content: content.into_text(),
                context: json_null(),
                attachments: Vec::new(),
                thread_id: None,
                timestamp: now_millis(),
            },
        }
    }
}

/// A message leaving the runtime toward a connector's user.
#[derive(Debug)]
pub struct OutboundMessage {
    /// Which connector should deliver this message.
    pub connector_id: ConnectorId,
    /// Target user (Astrid-resolved identity string).
    pub target_user_id: String,
    /// Textual content.
    pub content: String,
    /// Attached files or URLs.
    pub attachments: Vec<Attachment>,
    /// Thread identifier, if threaded.
    pub thread_id: Option<String>,
    /// Message id this replies to, if any.
    pub reply_to: Option<String>,
}

/// Builder for an [`OutboundMessage`].
#[derive(Debug)]
pub struct OutboundMessageBuilder {
    message: OutboundMessage,
}

impl OutboundMessage {
    /// Start building a message: no attachments, no thread, not a reply.
    pub fn builder<U: IntoText, C: IntoText>(connector_id: ConnectorId, target_user_id: U, content: C) -> (r:
        OutboundMessageBuilder)
        ensures
            r.message_spec().connector_id == connector_id,
            r.message_spec().target_user_id@ == target_user_id.text_view(),
            r.message_spec().content@ == content.text_view(),
            r.message_spec().attachments@.len() == 0,
            r.message_spec().thread_id is None,
            r.message_spec().reply_to is None,
    {
        OutboundMessageBuilder {
            message: OutboundMessage {
                connector_id,
                target_user_id: target_user_id.into_text(),
                content: content.into_text(),
                attachments: Vec::new(),
                thread_id: None,
                reply_to: None,
            },
        }
    }
}

impl OutboundMessageBuilder {
    /// The message built so far.
    pub closed spec fn message_spec(&self) -> OutboundMessage {
        self.message
    }

    /// Add an attachment.
    pub fn attachment(self, attachment: Attachment) -> (r: Self)
        ensures
            r.message_spec() == (OutboundMessage {
                attachments: r.message_spec().attachments,
                ..self.message_spec()
            }),
            r.message_spec().attachments@ == self.message_spec().attachments@.push(attachment),
    {
        let mut m = self.message;
        m.attachments.push(attachment);
        OutboundMessageBuilder { message: m }
    }

    /// Set the thread id.
    pub fn thread_id<S: IntoText>(self, thread_id: S) -> (r: Self)
        ensures
            r.message_spec() == (OutboundMessage {
                thread_id: r.message_spec().thread_id,
                ..self.message_spec()
            }),
            r.message_spec().thread_id matches Some(t) && t@ == thread_id.text_view(),
    {
        OutboundMessageBuilder { message: OutboundMessage { thread_id: Some(thread_id.into_text()), ..self.message } }
    }

    /// Set the message this replies to.
    pub fn reply_to<S: IntoText>(self, message_id: S) -> (r: Self)
        ensures
            r.message_spec() == (OutboundMessage {
                reply_to: r.message_spec().reply_to,
                ..self.message_spec()
            }),
            r.message_spec().reply_to matches Some(t) && t@ == message_id.text_view(),
    {
        OutboundMessageBuilder { message: OutboundMessage { reply_to: Some(message_id.into_text()), ..self.message } }
    }

    /// The message.
    pub fn build(self) -> (r: OutboundMessage)
        ensures
            r == self.message_spec(),
    {
        self.message
    }
}

} // verus!
