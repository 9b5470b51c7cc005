//! Configuration sections and their defaults, and the renderings that keep
//! secrets out of diagnostic output.

use vstd::prelude::*;
use crate::string_map::StringMap;
use crate::text::{cat, debug_str, decimal, str_debug_form, u64_to_decimal};

verus! {

/// The characters of each string.
pub open spec fn strs(v: Seq<String>) -> Seq<Seq<char>> {
    v.map_values(|s: String| s@)
}

/// Runtime behaviour: context management and summarisation.
#[derive(Debug)]
pub struct RuntimeSection {
    /// Maximum context window size in tokens before summarisation starts.
    pub max_context_tokens: usize,
    /// System prompt prepended to every conversation.
    pub system_prompt: String,
    /// Whether older messages are summarised when the context window fills.
    pub auto_summarize: bool,
    /// Number of recent messages always kept verbatim.
    pub keep_recent_count: usize,
}

impl RuntimeSection {
    /// Every field holds its default value.
    pub open spec fn is_default(&self) -> bool {
        self.max_context_tokens == 100_000
            && self.system_prompt@.len() == 0
            && self.auto_summarize
            && self.keep_recent_count == 10
    }
}

impl Default for RuntimeSection {
    fn default() -> (r: Self)
        ensures
            r.is_default(),
    {
        let r = RuntimeSection {
            max_context_tokens: 100_000,
            system_prompt: String::new(),
            auto_summarize: true,
            keep_recent_count: 10,
        };
        r
    }
}

/// Which tools, paths and hosts are permitted, denied, or need explicit approval.
#[derive(Debug)]
pub struct PolicySection {
    /// Tool invocations that are always blocked.
    pub blocked_tools: Vec<String>,
    /// Tool invocations that always need human approval.
    pub approval_required_tools: Vec<String>,
    /// Path globs the agent may access; empty means no explicit allowlist.
    pub allowed_paths: Vec<String>,
    /// Path globs the agent may never access.
    pub denied_paths: Vec<String>,
    /// Host patterns the agent may contact; empty means no explicit allowlist.
    pub allowed_hosts: Vec<String>,
    /// Host patterns the agent may never contact.
    pub denied_hosts: Vec<String>,
    /// Maximum size in bytes of any single tool argument.
    pub max_argument_size: usize,
    /// Whether deletions always need human approval.
    pub require_approval_for_delete: bool,
    /// Whether network access always needs human approval.
    pub require_approval_for_network: bool,
}

impl PolicySection {
    /// Every field holds its default value.
    pub open spec fn is_default(&self) -> bool {
        strs(self.blocked_tools@) == seq!["rm -rf /"@, "rm -rf /*"@, "sudo"@, "su"@, "mkfs"@, "dd"@, "chmod 777"@, "shutdown"@, "reboot"@, "init"@]
            && strs(self.approval_required_tools@) == Seq::<Seq<char>>::empty()
            && strs(self.allowed_paths@) == Seq::<Seq<char>>::empty()
            && strs(self.denied_paths@) == seq!["/etc/**"@, "/boot/**"@, "/sys/**"@, "/proc/**"@, "/dev/**"@]
            && strs(self.allowed_hosts@) == Seq::<Seq<char>>::empty()
            && strs(self.denied_hosts@) == Seq::<Seq<char>>::empty()
            && self.max_argument_size == 1_048_576
            && self.require_approval_for_delete
            && self.require_approval_for_network
    }
}

impl Default for PolicySection {
    fn default() -> (r: Self)
        ensures
            r.is_default(),
    {
        let r = PolicySection {
            blocked_tools: vec![String::from_str("rm -rf /"), String::from_str("rm -rf /*"), String::from_str("sudo"), String::from_str("su"), String::from_str("mkfs"), String::from_str("dd"), String::from_str("chmod 777"), String::from_str("shutdown"), String::from_str("reboot"), String::from_str("init")],
            approval_required_tools: Vec::new(),
            allowed_paths: Vec::new(),
            denied_paths: vec![String::from_str("/etc/**"), String::from_str("/boot/**"), String::from_str("/sys/**"), String::from_str("/proc/**"), String::from_str("/dev/**")],
            allowed_hosts: Vec::new(),
            denied_hosts: Vec::new(),
            max_argument_size: 1_048_576,
            require_approval_for_delete: true,
            require_approval_for_network: true,
        };
        assert(strs(r.blocked_tools@) =~= seq!["rm -rf /"@, "rm -rf /*"@, "sudo"@, "su"@, "mkfs"@, "dd"@, "chmod 777"@, "shutdown"@, "reboot"@, "init"@]);
        assert(strs(r.approval_required_tools@) =~= Seq::<Seq<char>>::empty());
        assert(strs(r.allowed_paths@) =~= Seq::<Seq<char>>::empty());
        assert(strs(r.denied_paths@) =~= seq!["/etc/**"@, "/boot/**"@, "/sys/**"@, "/proc/**"@, "/dev/**"@]);
        assert(strs(r.allowed_hosts@) =~= Seq::<Seq<char>>::empty());
        assert(strs(r.denied_hosts@) =~= Seq::<Seq<char>>::empty());
        r
    }
}

/// Top-level security settings: signatures, approval timeout, policy.
#[derive(Debug)]
pub struct SecurityConfig {
    /// Require ed25519 signatures for capability tokens and audit entries.
    pub require_signatures: bool,
    /// Seconds to wait for a human to answer an approval request.
    pub approval_timeout_secs: u64,
    /// Fine-grained policy rules.
    pub policy: PolicySection,
}

impl SecurityConfig {
    /// Every field holds its default value.
    pub open spec fn is_default(&self) -> bool {
        !self.require_signatures
            && self.approval_timeout_secs == 300
            && self.policy.is_default()
    }
}

impl Default for SecurityConfig {
    fn default() -> (r: Self)
        ensures
            r.is_default(),
    {
        let r = SecurityConfig {
            require_signatures: false,
            approval_timeout_secs: 300,
            policy: PolicySection::default(),
        };
        r
    }
}

/// Rate limits against server abuse and request floods.
#[derive(Debug)]
pub struct RateLimitsConfig {
    /// Maximum elicitation requests per MCP server per minute.
    pub elicitation_per_server_per_min: u32,
    /// Maximum unanswered approval requests across all servers.
    pub max_pending_requests: u32,
}

impl RateLimitsConfig {
    /// Every field holds its default value.
    pub open spec fn is_default(&self) -> bool {
        self.elicitation_per_server_per_min == 10
            && self.max_pending_requests == 50
    }
}

impl Default for RateLimitsConfig {
    fn default() -> (r: Self)
        ensures
            r.is_default(),
    {
        let r = RateLimitsConfig {
            elicitation_per_server_per_min: 10,
            max_pending_requests: 50,
        };
        r
    }
}

/// Audit log storage.
#[derive(Debug)]
pub struct AuditConfig {
    /// Path to the on-disk audit log; `None` keeps it in memory.
    pub path: Option<String>,
    /// Size in megabytes at which the log is rotated.
    pub max_size_mb: u64,
}

impl AuditConfig {
    /// Every field holds its default value.
    pub open spec fn is_default(&self) -> bool {
        self.path is None
            && self.max_size_mb == 100
    }
}

impl Default for AuditConfig {
    fn default() -> (r: Self)
        ensures
            r.is_default(),
    {
        let r = AuditConfig {
            path: None,
            max_size_mb: 100,
        };
        r
    }
}

/// Paths to key material for signatures and verification.
#[derive(Debug)]
pub struct KeysConfig {
    /// Path to the user's ed25519 private key file.
    pub user_key_path: Option<String>,
    /// Path to a directory or file of trusted public keys.
    pub trusted_keys_path: Option<String>,
}

impl KeysConfig {
    /// Every field holds its default value.
    pub open spec fn is_default(&self) -> bool {
        self.user_key_path is None
            && self.trusted_keys_path is None
    }
}

impl Default for KeysConfig {
    fn default() -> (r: Self)
        ensures
            r.is_default(),
    {
        let r = KeysConfig {
            user_key_path: None,
            trusted_keys_path: None,
        };
        r
    }
}

/// The workspace boundary and what happens when the agent tries to leave it.
#[derive(Debug)]
pub struct WorkspaceSection {
    /// `"safe"`, `"guided"` or `"autonomous"`.
    pub mode: String,
    /// `"ask"`, `"deny"` or `"allow"`.
    pub escape_policy: String,
    /// Path globs readable without approval.
    pub auto_allow_read: Vec<String>,
    /// Path globs writable without approval.
    pub auto_allow_write: Vec<String>,
    /// Paths never accessible whatever the mode.
    pub never_allow: Vec<String>,
}

impl WorkspaceSection {
    /// Every field holds its default value.
    pub open spec fn is_default(&self) -> bool {
        self.mode@ == "safe"@
            && self.escape_policy@ == "ask"@
            && strs(self.auto_allow_read@) == Seq::<Seq<char>>::empty()
            && strs(self.auto_allow_write@) == Seq::<Seq<char>>::empty()
            && strs(self.never_allow@) == seq!["/etc"@, "/var"@, "/usr"@, "/bin"@, "/sbin"@, "/boot"@, "/root"@]
    }
}

impl Default for WorkspaceSection {
    fn default() -> (r: Self)
        ensures
            r.is_default(),
    {
        let r = WorkspaceSection {
            mode: String::from_str("safe"),
            escape_policy: String::from_str("ask"),
            auto_allow_read: Vec::new(),
            auto_allow_write: Vec::new(),
            never_allow: vec![String::from_str("/etc"), String::from_str("/var"), String::from_str("/usr"), String::from_str("/bin"), String::from_str("/sbin"), String::from_str("/boot"), String::from_str("/root")],
        };
        assert(strs(r.auto_allow_read@) =~= Seq::<Seq<char>>::empty());
        assert(strs(r.auto_allow_write@) =~= Seq::<Seq<char>>::empty());
        assert(strs(r.never_allow@) =~= seq!["/etc"@, "/var"@, "/usr"@, "/bin"@, "/sbin"@, "/boot"@, "/root"@]);
        r
    }
}

/// How completed work is delivered through git.
#[derive(Debug)]
pub struct GitConfig {
    /// `"merge"`, `"pr"` or `"branch-only"`.
    pub completion: String,
    /// Whether the test suite runs after changes.
    pub auto_test: bool,
    /// Whether commits are squashed on completion.
    pub squash: bool,
}

impl GitConfig {
    /// Every field holds its default value.
    pub open spec fn is_default(&self) -> bool {
        self.completion@ == "merge"@
            && !self.auto_test
            && !self.squash
    }
}

impl Default for GitConfig {
    fn default() -> (r: Self)
        ensures
            r.is_default(),
    {
        let r = GitConfig {
            completion: String::from_str("merge"),
            auto_test: false,
            squash: false,
        };
        r
    }
}

/// Which kinds of hooks may run, and global limits on them.
#[derive(Debug)]
pub struct HooksSection {
    /// Master switch: when `false` no hook runs.
    pub enabled: bool,
    /// Default hook timeout in seconds.
    pub default_timeout_secs: u64,
    /// Maximum number of registered hooks.
    pub max_hooks: usize,
    /// Allow hooks to run without blocking.
    pub allow_async_hooks: bool,
    /// Allow hooks compiled to WASM.
    pub allow_wasm_hooks: bool,
    /// Allow hooks that spawn sub-agents.
    pub allow_agent_hooks: bool,
    /// Allow hooks that make HTTP requests.
    pub allow_http_hooks: bool,
    /// Allow hooks that run shell commands.
    pub allow_command_hooks: bool,
}

impl HooksSection {
    /// Every field holds its default value.
    pub open spec fn is_default(&self) -> bool {
        self.enabled
            && self.default_timeout_secs == 30
            && self.max_hooks == 100
            && self.allow_async_hooks
            && !self.allow_wasm_hooks
            && !self.allow_agent_hooks
            && self.allow_http_hooks
            && self.allow_command_hooks
    }
}

impl Default for HooksSection {
    fn default() -> (r: Self)
        ensures
            r.is_default(),
    {
        let r = HooksSection {
            enabled: true,
            default_timeout_secs: 30,
            max_hooks: 100,
            allow_async_hooks: true,
            allow_wasm_hooks: false,
            allow_agent_hooks: false,
            allow_http_hooks: true,
            allow_command_hooks: true,
        };
        r
    }
}

/// Logging and tracing.
#[derive(Debug)]
pub struct LoggingSection {
    /// Global level filter.
    pub level: String,
    /// `"pretty"`, `"compact"`, `"json"` or `"full"`.
    pub format: String,
    /// Per-crate tracing directives.
    pub directives: Vec<String>,
}

impl LoggingSection {
    /// Every field holds its default value.
    pub open spec fn is_default(&self) -> bool {
        self.level@ == "info"@
            && self.format@ == "compact"@
            && strs(self.directives@) == Seq::<Seq<char>>::empty()
    }
}

impl Default for LoggingSection {
    fn default() -> (r: Self)
        ensures
            r.is_default(),
    {
        let r = LoggingSection {
            level: String::from_str("info"),
            format: String::from_str("compact"),
            directives: Vec::new(),
        };
        assert(strs(r.directives@) =~= Seq::<Seq<char>>::empty());
        r
    }
}

/// The gateway daemon.
#[derive(Debug)]
pub struct GatewaySection {
    /// Directory for runtime state; `None` uses the platform default.
    pub state_dir: Option<String>,
    /// Path to a secrets file.
    pub secrets_file: Option<String>,
    /// Whether configuration files are watched and reloaded.
    pub hot_reload: bool,
    /// Whether plugin directories are watched and reloaded.
    pub watch_plugins: bool,
    /// Seconds between health checks of managed servers.
    pub health_interval_secs: u64,
    /// Seconds allowed for a clean shutdown.
    pub shutdown_timeout_secs: u64,
    /// Idle seconds after which an ephemeral daemon stops.
    pub idle_shutdown_secs: u64,
    /// Seconds between stale-session sweeps.
    pub session_cleanup_interval_secs: u64,
}

impl GatewaySection {
    /// Every field holds its default value.
    pub open spec fn is_default(&self) -> bool {
        self.state_dir is None
            && self.secrets_file is None
            && self.hot_reload
            && self.watch_plugins
            && self.health_interval_secs == 30
            && self.shutdown_timeout_secs == 30
            && self.idle_shutdown_secs == 30
            && self.session_cleanup_interval_secs == 60
    }
}

impl Default for GatewaySection {
    fn default() -> (r: Self)
        ensures
            r.is_default(),
    {
        let r = GatewaySection {
            state_dir: None,
            secrets_file: None,
            hot_reload: true,
            watch_plugins: true,
            health_interval_secs: 30,
            shutdown_timeout_secs: 30,
            idle_shutdown_secs: 30,
            session_cleanup_interval_secs: 60,
        };
        r
    }
}

/// Timeouts, in seconds.
#[derive(Debug)]
pub struct TimeoutsSection {
    /// One LLM request.
    pub request_secs: u64,
    /// One tool invocation.
    pub tool_secs: u64,
    /// A sub-agent task.
    pub subagent_secs: u64,
    /// Connecting to an MCP server.
    pub mcp_connect_secs: u64,
    /// Waiting for an approval.
    pub approval_secs: u64,
    /// Idle time after which a session closes.
    pub idle_secs: u64,
}

impl TimeoutsSection {
    /// Every field holds its default value.
    pub open spec fn is_default(&self) -> bool {
        self.request_secs == 120
            && self.tool_secs == 60
            && self.subagent_secs == 300
            && self.mcp_connect_secs == 10
            && self.approval_secs == 300
            && self.idle_secs == 3600
    }
}

impl Default for TimeoutsSection {
    fn default() -> (r: Self)
        ensures
            r.is_default(),
    {
        let r = TimeoutsSection {
            request_secs: 120,
            tool_secs: 60,
            subagent_secs: 300,
            mcp_connect_secs: 10,
            approval_secs: 300,
            idle_secs: 3600,
        };
        r
    }
}

/// Session limits and persistence.
#[derive(Debug)]
pub struct SessionsSection {
    /// Concurrent sessions per user.
    pub max_per_user: usize,
    /// Messages kept in session history.
    pub history_limit: usize,
    /// Seconds between automatic saves.
    pub save_interval_secs: u64,
    /// Whether sessions survive restarts.
    pub persist: bool,
}

impl SessionsSection {
    /// Every field holds its default value.
    pub open spec fn is_default(&self) -> bool {
        self.max_per_user == 10
            && self.history_limit == 100
            && self.save_interval_secs == 60
            && self.persist
    }
}

impl Default for SessionsSection {
    fn default() -> (r: Self)
        ensures
            r.is_default(),
    {
        let r = SessionsSection {
            max_per_user: 10,
            history_limit: 100,
            save_interval_secs: 60,
            persist: true,
        };
        r
    }
}

/// Sub-agent pool limits.
#[derive(Debug)]
pub struct SubagentsSection {
    /// Sub-agents running at once.
    pub max_concurrent: usize,
    /// Nesting depth of delegation.
    pub max_depth: usize,
    /// Default sub-agent timeout in seconds.
    pub timeout_secs: u64,
}

impl SubagentsSection {
    /// Every field holds its default value.
    pub open spec fn is_default(&self) -> bool {
        self.max_concurrent == 5
            && self.max_depth == 3
            && self.timeout_secs == 300
    }
}

impl Default for SubagentsSection {
    fn default() -> (r: Self)
        ensures
            r.is_default(),
    {
        let r = SubagentsSection {
            max_concurrent: 5,
            max_depth: 3,
            timeout_secs: 300,
        };
        r
    }
}

/// Retries of transient failures.
#[derive(Debug)]
pub struct RetrySection {
    /// Attempts for LLM requests.
    pub llm_max_attempts: u32,
    /// Attempts for MCP connections.
    pub mcp_max_attempts: u32,
    /// Initial delay in milliseconds.
    pub initial_delay_ms: u64,
    /// Maximum delay in milliseconds.
    pub max_delay_ms: u64,
}

impl RetrySection {
    /// Every field holds its default value.
    pub open spec fn is_default(&self) -> bool {
        self.llm_max_attempts == 3
            && self.mcp_max_attempts == 5
            && self.initial_delay_ms == 100
            && self.max_delay_ms == 10_000
    }
}

impl Default for RetrySection {
    fn default() -> (r: Self)
        ensures
            r.is_default(),
    {
        let r = RetrySection {
            llm_max_attempts: 3,
            mcp_max_attempts: 5,
            initial_delay_ms: 100,
            max_delay_ms: 10_000,
        };
        r
    }
}

/// The agent identity seed; every field empty means no identity is configured.
#[derive(Debug)]
pub struct SparkSection {
    /// The agent's name.
    pub callsign: String,
    /// Role archetype.
    pub class: String,
    /// Personality energy.
    pub aura: String,
    /// Communication style.
    pub signal: String,
    /// Free-form values and personality.
    pub core: String,
}

impl SparkSection {
    /// Every field holds its default value.
    pub open spec fn is_default(&self) -> bool {
        self.callsign@.len() == 0
            && self.class@.len() == 0
            && self.aura@.len() == 0
            && self.signal@.len() == 0
            && self.core@.len() == 0
    }
}

impl Default for SparkSection {
    fn default() -> (r: Self)
        ensures
            r.is_default(),
    {
        let r = SparkSection {
            callsign: String::new(),
            class: String::new(),
            aura: String::new(),
            signal: String::new(),
            core: String::new(),
        };
        r
    }
}

/// A connector plugin declared in `[[connectors]]`.
#[derive(Debug)]
pub struct ConnectorConfig {
    /// Plugin ID.
    pub plugin: String,
    /// Expected profile: `"chat"`, `"interactive"`, `"notify"` or `"bridge"`.
    pub profile: String,
}

impl ConnectorConfig {
    /// Every field holds its default value.
    pub open spec fn is_default(&self) -> bool {
        self.plugin@.len() == 0
            && self.profile@.len() == 0
    }
}

impl Default for ConnectorConfig {
    fn default() -> (r: Self)
        ensures
            r.is_default(),
    {
        let r = ConnectorConfig {
            plugin: String::new(),
            profile: String::new(),
        };
        r
    }
}

/// A platform user linked to an Astrid user at startup.
#[derive(Debug)]
pub struct IdentityLinkConfig {
    /// Platform, such as `"telegram"`.
    pub platform: String,
    /// The user's ID on that platform.
    pub platform_user_id: String,
    /// Astrid user: UUID or display name.
    pub astrid_user: String,
    /// Link verification method; only `"admin"` is supported.
    pub method: String,
}

impl IdentityLinkConfig {
    /// Every field holds its default value.
    pub open spec fn is_default(&self) -> bool {
        self.platform@.len() == 0
            && self.platform_user_id@.len() == 0
            && self.astrid_user@.len() == 0
            && self.method@.len() == 0
    }
}

impl Default for IdentityLinkConfig {
    fn default() -> (r: Self)
        ensures
            r.is_default(),
    {
        let r = IdentityLinkConfig {
            platform: String::new(),
            platform_user_id: String::new(),
            astrid_user: String::new(),
            method: String::new(),
        };
        r
    }
}
/// How a server is restarted when it dies.
#[derive(Debug, Clone, Copy, PartialEq, Eq, Structural)]
pub enum RestartPolicyConfig {
    /// Never restart (the default).
    Never,
    /// Restart on failure, up to `max_retries` times.
    OnFailure {
        /// Maximum number of restart attempts.
        max_retries: u32,
    },
    /// Always restart, without limit.
    Always,
}

impl Default for RestartPolicyConfig {
    fn default() -> (r: Self)
        ensures
            r == RestartPolicyConfig::Never,
    {
        RestartPolicyConfig::Never
    }
}

/// Restart attempts for `on_failure` when the configuration names none.
pub fn default_max_retries() -> (r: u32)
    ensures
        r == 3,
{
    3
}

/// The verification method of an identity link that names none.
pub fn default_link_method() -> (r: String)
    ensures
        r@ == "admin"@,
{
    String::from_str("admin")
}

/// Configuration of one MCP server.
pub struct ServerSection {
    /// Transport: `"stdio"`, `"sse"` or `"streamable-http"`.
    pub transport: String,
    /// Command that launches the server (stdio transport).
    pub command: Option<String>,
    /// Arguments passed to `command`.
    pub args: Vec<String>,
    /// URL for network transports.
    pub url: Option<String>,
    /// Expected BLAKE3 hash of the server binary.
    pub binary_hash: Option<String>,
    /// Extra environment variables for the server process.
    pub env: StringMap<String>,
    /// Working directory of the server process.
    pub cwd: Option<String>,
    /// Whether the server starts when the runtime boots.
    pub auto_start: bool,
    /// What the server provides.
    pub description: Option<String>,
    /// Whether the server is trusted (native, OS sandbox) or not (WASM).
    pub trusted: bool,
    /// What happens when the server process dies.
    pub restart_policy: RestartPolicyConfig,
}

impl ServerSection {
    /// Every field holds its default value.
    pub open spec fn is_default(&self) -> bool {
        self.transport@ == "stdio"@
            && self.command is None
            && self.args@.len() == 0
            && self.url is None
            && self.binary_hash is None
            && self.env.view() == Map::<Seq<char>, String>::empty()
            && self.cwd is None
            && !self.auto_start
            && self.description is None
            && !self.trusted
            && self.restart_policy == RestartPolicyConfig::Never
    }
}

impl Default for ServerSection {
    fn default() -> (r: Self)
        ensures
            r.is_default(),
    {
        ServerSection {
            transport: String::from_str("stdio"),
            command: None,
            args: Vec::new(),
            url: None,
            binary_hash: None,
            env: StringMap::new(),
            cwd: None,
            auto_start: false,
            description: None,
            trusted: false,
            restart_policy: RestartPolicyConfig::Never,
        }
    }
}

/// The Telegram bot frontend.
pub struct TelegramSection {
    /// Bot API token.
    pub bot_token: Option<String>,
    /// `WebSocket` URL of the daemon.
    pub daemon_url: Option<String>,
    /// Telegram users allowed to use the bot; empty allows everyone.
    pub allowed_user_ids: Vec<u64>,
    /// Workspace path for new sessions.
    pub workspace_path: Option<String>,
    /// Whether the daemon runs the bot itself.
    pub embedded: bool,
}

impl TelegramSection {
    /// Every field holds its default value.
    pub open spec fn is_default(&self) -> bool {
        self.bot_token is None && self.daemon_url is None && self.allowed_user_ids@.len() == 0
            && self.workspace_path is None && self.embedded
    }
}

impl Default for TelegramSection {
    fn default() -> (r: Self)
        ensures
            r.is_default(),
    {
        TelegramSection {
            bot_token: None,
            daemon_url: None,
            allowed_user_ids: Vec::new(),
            workspace_path: None,
            embedded: true,
        }
    }
}

/// How the Discord bot scopes sessions.
#[derive(Debug, Clone, Copy, PartialEq, Eq, Structural)]
pub enum DiscordSessionScope {
    /// One session per channel (the default).
    Channel,
    /// One session per user.
    User,
}

impl Default for DiscordSessionScope {
    fn default() -> (r: Self)
        ensures
            r == DiscordSessionScope::Channel,
    {
        DiscordSessionScope::Channel
    }
}

/// The Discord bot capsule.
pub struct DiscordSection {
    /// Bot API token.
    pub bot_token: Option<String>,
    /// Discord application ID.
    pub application_id: Option<String>,
    /// Guilds allowed to use the bot; empty allows all.
    pub allowed_guild_ids: Vec<String>,
    /// Users allowed to use the bot; empty allows all.
    pub allowed_user_ids: Vec<String>,
    /// Session scoping.
    pub session_scope: DiscordSessionScope,
    /// Whether the capsule is enabled.
    pub enabled: bool,
}

impl DiscordSection {
    /// Every field holds its default value.
    pub open spec fn is_default(&self) -> bool {
        self.bot_token is None && self.application_id is None && self.allowed_guild_ids@.len() == 0
            && self.allowed_user_ids@.len() == 0 && self.session_scope == DiscordSessionScope::Channel
            && !self.enabled
    }
}

impl Default for DiscordSection {
    fn default() -> (r: Self)
        ensures
            r.is_default(),
    {
        DiscordSection {
            bot_token: None,
            application_id: None,
            allowed_guild_ids: Vec::new(),
            allowed_user_ids: Vec::new(),
            session_scope: DiscordSessionScope::Channel,
            enabled: false,
        }
    }
}

/// The `[identity]` section: platform links applied at startup.
pub struct IdentitySection {
    /// Identity links applied on startup.
    pub links: Vec<IdentityLinkConfig>,
}

impl Default for IdentitySection {
    fn default() -> (r: Self)
        ensures
            r.links@.len() == 0,
    {
        IdentitySection { links: Vec::new() }
    }
}

impl SparkSection {
    /// Whether every field is empty, so that no identity is configured.
    pub fn is_empty(&self) -> (r: bool)
        ensures
            r == (self.callsign@.len() == 0 && self.class@.len() == 0 && self.aura@.len() == 0
                && self.signal@.len() == 0 && self.core@.len() == 0),
    {
        self.callsign.as_str().is_empty() && self.class.as_str().is_empty()
            && self.aura.as_str().is_empty() && self.signal.as_str().is_empty()
            && self.core.as_str().is_empty()
    }
}

// ---------------------------------------------------------------------------
// Renderings for diagnostics
// ---------------------------------------------------------------------------

pub open spec fn bool_text(b: bool) -> Seq<char> {
    if b {
        "true"@
    } else {
        "false"@
    }
}

/// `Debug` of an `Option<String>`.
pub open spec fn opt_debug(o: Option<Seq<char>>) -> Seq<char> {
    match o {
        Some(s) => "Some("@ + str_debug_form(s) + ")"@,
        None => "None"@,
    }
}

pub open spec fn opt_view(o: Option<String>) -> Option<Seq<char>> {
    match o {
        Some(s) => Some(s@),
        None => None,
    }
}

/// Items' renderings separated by `", "`.
pub open spec fn joined(items: Seq<Seq<char>>) -> Seq<char>
    decreases items.len(),
{
    if items.len() == 0 {
        Seq::empty()
    } else if items.len() == 1 {
        items[0]
    } else {
        joined(items.drop_last()) + ", "@ + items.last()
    }
}

/// Each string's `Debug` rendering.
pub open spec fn debug_items(items: Seq<Seq<char>>) -> Seq<Seq<char>>
    decreases items.len(),
{
    if items.len() == 0 {
        Seq::empty()
    } else {
        debug_items(items.drop_last()).push(str_debug_form(items.last()))
    }
}

/// Each integer in decimal.
pub open spec fn decimal_items(items: Seq<u64>) -> Seq<Seq<char>>
    decreases items.len(),
{
    if items.len() == 0 {
        Seq::empty()
    } else {
        decimal_items(items.drop_last()).push(decimal(items.last() as nat))
    }
}

/// Each key's `Debug` rendering with a redacted value.
pub open spec fn redacted_items(keys: Seq<Seq<char>>) -> Seq<Seq<char>>
    decreases keys.len(),
{
    if keys.len() == 0 {
        Seq::empty()
    } else {
        redacted_items(keys.drop_last()).push(
            str_debug_form(keys.last()) + ": "@ + str_debug_form("***"@),
        )
    }
}

/// `Debug` of a list of strings.
pub open spec fn list_debug(items: Seq<Seq<char>>) -> Seq<char> {
    "["@ + joined(debug_items(items)) + "]"@
}

/// `Debug` of a list of integers.
pub open spec fn u64_list_debug(items: Seq<u64>) -> Seq<char> {
    "["@ + joined(decimal_items(items)) + "]"@
}

/// An environment map as `Debug` shows it with every value replaced by
/// `"***"`.
pub open spec fn redacted_env_debug(keys: Seq<Seq<char>>) -> Seq<char> {
    "{"@ + joined(redacted_items(keys)) + "}"@
}

pub open spec fn restart_policy_debug(p: RestartPolicyConfig) -> Seq<char> {
    match p {
        RestartPolicyConfig::Never => "Never"@,
        RestartPolicyConfig::OnFailure { max_retries } => "OnFailure { max_retries: "@ + decimal(
            max_retries as nat,
        ) + " }"@,
        RestartPolicyConfig::Always => "Always"@,
    }
}

fn text_of_bool(b: bool) -> (r: String)
    ensures
        r@ == bool_text(b),
{
    if b {
        String::from_str("true")
    } else {
        String::from_str("false")
    }
}

fn debug_opt(o: &Option<String>) -> (r: String)
    ensures
        r@ == opt_debug(opt_view(*o)),
{
    match o {
        Some(s) => {
            let mut r = String::from_str("Some(");
            let d = debug_str(s.as_str());
            r.append(d.as_str());
            r.append(")");
            r
        },
        None => String::from_str("None"),
    }
}

/// `items` rendered, separated by `", "`.
fn join_rendered(items: &Vec<String>) -> (r: String)
    ensures
        r@ == joined(strs(items@)),
{
    let mut r = String::new();
    let mut i: usize = 0;
    while i < items.len()
        invariant
            i <= items@.len(),
            r@ == joined(strs(items@).take(i as int)),
        decreases items@.len() - i,
    {
        let ghost before = r@;
        proof {
            assert(strs(items@).take(i + 1).drop_last() =~= strs(items@).take(i as int));
            assert(strs(items@).take(i + 1).last() == items@[i as int]@);
        }
        if i > 0 {
            r.append(", ");
        } else {
            assert(strs(items@).take(i + 1) =~= seq![items@[0]@]);
        }
        r.append(items[i].as_str());
        i = i + 1;
    }
    assert(strs(items@).take(i as int) =~= strs(items@));
    r
}

fn debug_list(v: &Vec<String>) -> (r: String)
    ensures
        r@ == list_debug(strs(v@)),
{
    let mut parts: Vec<String> = Vec::new();
    let mut i: usize = 0;
    while i < v.len()
        invariant
            i <= v@.len(),
            strs(parts@) == debug_items(strs(v@).take(i as int)),
        decreases v@.len() - i,
    {
        let ghost before = strs(parts@);
        parts.push(debug_str(v[i].as_str()));
        assert(strs(parts@) =~= before.push(str_debug_form(v@[i as int]@)));
        assert(strs(v@).take(i + 1).drop_last() =~= strs(v@).take(i as int));
        i = i + 1;
    }
    assert(strs(v@).take(i as int) =~= strs(v@));
    let mut r = String::from_str("[");
    let j = join_rendered(&parts);
    r.append(j.as_str());
    r.append("]");
    r
}

fn debug_u64_list(v: &Vec<u64>) -> (r: String)
    ensures
        r@ == u64_list_debug(v@),
{
    let mut parts: Vec<String> = Vec::new();
    let mut i: usize = 0;
    while i < v.len()
        invariant
            i <= v@.len(),
            strs(parts@) == decimal_items(v@.take(i as int)),
        decreases v@.len() - i,
    {
        let ghost before = strs(parts@);
        parts.push(u64_to_decimal(v[i]));
        assert(strs(parts@) =~= before.push(decimal(v@[i as int] as nat)));
        assert(v@.take(i + 1).drop_last() =~= v@.take(i as int));
        i = i + 1;
    }
    assert(v@.take(i as int) =~= v@);
    let mut r = String::from_str("[");
    let j = join_rendered(&parts);
    r.append(j.as_str());
    r.append("]");
    r
}

impl RestartPolicyConfig {
    /// The policy as `Debug` shows it.
    pub fn debug_string(&self) -> (r: String)
        ensures
            r@ == restart_policy_debug(*self),
    {
        match self {
            RestartPolicyConfig::Never => String::from_str("Never"),
            RestartPolicyConfig::OnFailure { max_retries } => {
                let mut r = String::from_str("OnFailure { max_retries: ");
                let n = u64_to_decimal(*max_retries as u64);
                r.append(n.as_str());
                r.append(" }");
                r
            },
            RestartPolicyConfig::Always => String::from_str("Always"),
        }
    }
}

/// The keys of environment entries.
pub open spec fn env_keys(e: Seq<(String, String)>) -> Seq<Seq<char>> {
    e.map_values(|p: (String, String)| p.0@)
}

fn debug_env(env: &StringMap<String>) -> (r: String)
    ensures
        r@ == redacted_env_debug(env_keys(env.entry_seq())),
{
    let entries = env.entries();
    let mut parts: Vec<String> = Vec::new();
    let mut i: usize = 0;
    while i < entries.len()
        invariant
            i <= entries@.len(),
            entries@ == env.entry_seq(),
            strs(parts@) == redacted_items(env_keys(entries@).take(i as int)),
        decreases entries@.len() - i,
    {
        let ghost before = strs(parts@);
        let mut p = debug_str(entries[i].0.as_str());
        p.append(": ");
        let stars = debug_str("***");
        p.append(stars.as_str());
        parts.push(p);
        assert(strs(parts@) =~= before.push(
            str_debug_form(entries@[i as int].0@) + ": "@ + str_debug_form("***"@),
        ));
        assert(env_keys(entries@).take(i + 1).drop_last() =~= env_keys(entries@).take(i as int));
        i = i + 1;
    }
    assert(env_keys(entries@).take(i as int) =~= env_keys(entries@));
    let mut r = String::from_str("{");
    let j = join_rendered(&parts);
    r.append(j.as_str());
    r.append("}");
    r
}

impl ServerSection {
    /// The section as `Debug` shows it, with the environment's values
    /// replaced by `"***"` so that secrets stay out of logs.
    pub fn debug_string(&self) -> (r: String)
        ensures
            r@ == "ServerSection { transport: "@ + str_debug_form(self.transport@) + ", command: "@
                + opt_debug(opt_view(self.command)) + ", args: "@ + list_debug(strs(self.args@))
                + ", url: "@ + opt_debug(opt_view(self.url)) + ", binary_hash: "@ + opt_debug(
                opt_view(self.binary_hash),
            ) + ", env: "@ + redacted_env_debug(env_keys(self.env.entry_seq())) + ", cwd: "@
                + opt_debug(opt_view(self.cwd)) + ", auto_start: "@ + bool_text(self.auto_start)
                + ", description: "@ + opt_debug(opt_view(self.description)) + ", trusted: "@
                + bool_text(self.trusted) + ", restart_policy: "@ + restart_policy_debug(
                self.restart_policy,
            ) + " }"@,
    {
        let mut r = String::from_str("ServerSection { transport: ");
        r.append(debug_str(self.transport.as_str()).as_str());
        r.append(", command: ");
        r.append(debug_opt(&self.command).as_str());
        r.append(", args: ");
        r.append(debug_list(&self.args).as_str());
        r.append(", url: ");
        r.append(debug_opt(&self.url).as_str());
        r.append(", binary_hash: ");
        r.append(debug_opt(&self.binary_hash).as_str());
        r.append(", env: ");
        r.append(debug_env(&self.env).as_str());
        r.append(", cwd: ");
        r.append(debug_opt(&self.cwd).as_str());
        r.append(", auto_start: ");
        r.append(text_of_bool(self.auto_start).as_str());
        r.append(", description: ");
        r.append(debug_opt(&self.description).as_str());
        r.append(", trusted: ");
        r.append(text_of_bool(self.trusted).as_str());
        r.append(", restart_policy: ");
        r.append(self.restart_policy.debug_string().as_str());
        r.append(" }");
        r
    }
}

impl TelegramSection {
    /// The section as `Debug` shows it: whether a token is set, never the
    /// token.
    pub fn debug_string(&self) -> (r: String)
        ensures
            r@ == "TelegramSection { has_bot_token: "@ + bool_text(self.bot_token is Some)
                + ", daemon_url: "@ + opt_debug(opt_view(self.daemon_url)) + ", allowed_user_ids: "@
                + u64_list_debug(self.allowed_user_ids@) + ", workspace_path: "@ + opt_debug(
                opt_view(self.workspace_path),
            ) + ", embedded: "@ + bool_text(self.embedded) + " }"@,
    {
        let mut r = String::from_str("TelegramSection { has_bot_token: ");
        r.append(text_of_bool(self.bot_token.is_some()).as_str());
        r.append(", daemon_url: ");
        r.append(debug_opt(&self.daemon_url).as_str());
        r.append(", allowed_user_ids: ");
        r.append(debug_u64_list(&self.allowed_user_ids).as_str());
        r.append(", workspace_path: ");
        r.append(debug_opt(&self.workspace_path).as_str());
        r.append(", embedded: ");
        r.append(text_of_bool(self.embedded).as_str());
        r.append(" }");
        r
    }
}

pub open spec fn scope_debug(s: DiscordSessionScope) -> Seq<char> {
    match s {
        DiscordSessionScope::Channel => "Channel"@,
        DiscordSessionScope::User => "User"@,
    }
}

impl DiscordSection {
    /// The section as `Debug` shows it: whether the token and application
    /// ID are set, never their values.
    pub fn debug_string(&self) -> (r: String)
        ensures
            r@ == "DiscordSection { has_bot_token: "@ + bool_text(self.bot_token is Some)
                + ", has_application_id: "@ + bool_text(self.application_id is Some)
                + ", allowed_guild_ids: "@ + list_debug(strs(self.allowed_guild_ids@))
                + ", allowed_user_ids: "@ + list_debug(strs(self.allowed_user_ids@))
                + ", session_scope: "@ + scope_debug(self.session_scope) + ", enabled: "@
                + bool_text(self.enabled) + " }"@,
    {
        let mut r = String::from_str("DiscordSection { has_bot_token: ");
        r.append(text_of_bool(self.bot_token.is_some()).as_str());
        r.append(", has_application_id: ");
        r.append(text_of_bool(self.application_id.is_some()).as_str());
        r.append(", allowed_guild_ids: ");
        r.append(debug_list(&self.allowed_guild_ids).as_str());
        r.append(", allowed_user_ids: ");
        r.append(debug_list(&self.allowed_user_ids).as_str());
        r.append(", session_scope: ");
        let sc = match self.session_scope {
            DiscordSessionScope::Channel => String::from_str("Channel"),
            DiscordSessionScope::User => String::from_str("User"),
        };
        r.append(sc.as_str());
        r.append(", enabled: ");
        r.append(text_of_bool(self.enabled).as_str());
        r.append(" }");
        r
    }
}

} // verus!
