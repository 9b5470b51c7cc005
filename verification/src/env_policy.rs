//! Environment variable security policy for spawned child processes.
//!
//! A single blocklist of environment variables that untrusted configuration
//! (hook configs, MCP server manifests, plugin manifests) must never set on
//! a spawned child process: they can inject code or libraries, or redirect
//! trust anchors.

use vstd::prelude::*;
use crate::text::{eq_ignore_ascii_case_chars, is_prefix, lower_chars, lower_seq, starts_with_chars, str_to_chars};

verus! {

/// Names that are blocked exactly (compared without regard to ASCII case).
pub open spec fn blocked_spawn_env_names() -> Seq<Seq<char>> {
    seq![
        "HOME"@, "PATH"@, "ASTRID_HOME"@, "LD_PRELOAD"@, "LD_LIBRARY_PATH"@,
        "DYLD_INSERT_LIBRARIES"@, "DYLD_LIBRARY_PATH"@, "DYLD_FRAMEWORK_PATH"@,
        "NODE_OPTIONS"@, "NODE_PATH"@, "PYTHONPATH"@, "PYTHONSTARTUP"@, "PERL5LIB"@,
        "RUBYLIB"@, "BASH_ENV"@, "ENV"@, "JAVA_TOOL_OPTIONS"@, "_JAVA_OPTIONS"@,
        "JDK_JAVA_OPTIONS"@, "NODE_EXTRA_CA_CERTS"@, "SSL_CERT_FILE"@, "SSL_CERT_DIR"@,
        "OPENSSL_CONF"@, "TMPDIR"@, "TEMP"@, "TMP"@, "HTTP_PROXY"@, "HTTPS_PROXY"@,
        "ALL_PROXY"@, "NO_PROXY"@,
    ]
}

/// Lower-case prefixes whose every name is blocked.
pub open spec fn blocked_spawn_env_prefixes() -> Seq<Seq<char>> {
    seq!["ld_"@, "dyld_"@, "npm_config_"@]
}

/// `key` must not be set by untrusted configuration.
pub open spec fn is_blocked_key(key: Seq<char>) -> bool {
    ||| exists|i: int|
        0 <= i < blocked_spawn_env_names().len() && lower_seq(
            #[trigger] blocked_spawn_env_names()[i],
        ) == lower_seq(key)
    ||| exists|j: int|
        0 <= j < blocked_spawn_env_prefixes().len() && is_prefix(
            #[trigger] blocked_spawn_env_prefixes()[j],
            lower_seq(key),
        )
}

fn blocked_names() -> (v: Vec<&'static str>)
    ensures
        v@.map_values(|s: &str| s@) == blocked_spawn_env_names(),
{
    let v: Vec<&'static str> = vec![
        "HOME", "PATH", "ASTRID_HOME", "LD_PRELOAD", "LD_LIBRARY_PATH",
        "DYLD_INSERT_LIBRARIES", "DYLD_LIBRARY_PATH", "DYLD_FRAMEWORK_PATH",
        "NODE_OPTIONS", "NODE_PATH", "PYTHONPATH", "PYTHONSTARTUP", "PERL5LIB",
        "RUBYLIB", "BASH_ENV", "ENV", "JAVA_TOOL_OPTIONS", "_JAVA_OPTIONS",
        "JDK_JAVA_OPTIONS", "NODE_EXTRA_CA_CERTS", "SSL_CERT_FILE", "SSL_CERT_DIR",
        "OPENSSL_CONF", "TMPDIR", "TEMP", "TMP", "HTTP_PROXY", "HTTPS_PROXY",
        "ALL_PROXY", "NO_PROXY",
    ];
    assert(v@.map_values(|s: &str| s@) =~= blocked_spawn_env_names());
    v
}

fn blocked_prefixes() -> (v: Vec<&'static str>)
    ensures
        v@.map_values(|s: &str| s@) == blocked_spawn_env_prefixes(),
{
    let v: Vec<&'static str> = vec!["ld_", "dyld_", "npm_config_"];
    assert(v@.map_values(|s: &str| s@) =~= blocked_spawn_env_prefixes());
    v
}

/// Returns `true` if `key` is a blocked env var that must not be set by
/// untrusted configuration on spawned child processes: it equals one of the
/// blocked names, or starts with a blocked prefix, ignoring ASCII case.
#[verifier::loop_isolation(false)]
pub fn is_blocked_spawn_env(key: &str) -> (r: bool)
    ensures
        r == is_blocked_key(key@),
{
    let k = str_to_chars(key);
    let names = blocked_names();
    let ghost nv = names@.map_values(|s: &str| s@);
    let mut i: usize = 0;
    while i < names.len()
        invariant
            i <= names@.len(),
            forall|j: int| 0 <= j < i ==> lower_seq(#[trigger] nv[j]) != lower_seq(key@),
        decreases names@.len() - i,
    {
        let n = str_to_chars(names[i]);
        assert(nv[i as int] == names@[i as int]@);
        if eq_ignore_ascii_case_chars(&n, &k) {
            return true;
        }
        i = i + 1;
    }
    let lower = lower_chars(&k);
    let prefixes = blocked_prefixes();
    let ghost pv = prefixes@.map_values(|s: &str| s@);
    let mut j: usize = 0;
    while j < prefixes.len()
        invariant
            j <= prefixes@.len(),
            forall|m: int| 0 <= m < j ==> !is_prefix(#[trigger] pv[m], lower_seq(key@)),
        decreases prefixes@.len() - j,
    {
        let p = str_to_chars(prefixes[j]);
        assert(pv[j as int] == prefixes@[j as int]@);
        if starts_with_chars(&lower, &p) {
            return true;
        }
        j = j + 1;
    }
    false
}

} // verus!
