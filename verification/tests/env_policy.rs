//! Which environment variables a spawned process may not receive.

use astrid::env_policy::is_blocked_spawn_env;

#[test]
fn exact_matches_are_blocked() {
    assert!(is_blocked_spawn_env("LD_PRELOAD"));
    assert!(is_blocked_spawn_env("DYLD_INSERT_LIBRARIES"));
    assert!(is_blocked_spawn_env("NODE_OPTIONS"));
    assert!(is_blocked_spawn_env("PYTHONPATH"));
    assert!(is_blocked_spawn_env("PYTHONSTARTUP"));
    assert!(is_blocked_spawn_env("BASH_ENV"));
    assert!(is_blocked_spawn_env("ENV"));
    assert!(is_blocked_spawn_env("PERL5LIB"));
    assert!(is_blocked_spawn_env("RUBYLIB"));
    assert!(is_blocked_spawn_env("HOME"));
    assert!(is_blocked_spawn_env("PATH"));
    assert!(is_blocked_spawn_env("ASTRID_HOME"));
    assert!(is_blocked_spawn_env("OPENSSL_CONF"));
    assert!(is_blocked_spawn_env("HTTP_PROXY"));
    assert!(is_blocked_spawn_env("HTTPS_PROXY"));
    assert!(is_blocked_spawn_env("ALL_PROXY"));
    assert!(is_blocked_spawn_env("NO_PROXY"));
    assert!(is_blocked_spawn_env("NODE_EXTRA_CA_CERTS"));
    assert!(is_blocked_spawn_env("SSL_CERT_FILE"));
    assert!(is_blocked_spawn_env("SSL_CERT_DIR"));
    assert!(is_blocked_spawn_env("TMPDIR"));
    assert!(is_blocked_spawn_env("JAVA_TOOL_OPTIONS"));
    assert!(is_blocked_spawn_env("_JAVA_OPTIONS"));
    assert!(is_blocked_spawn_env("JDK_JAVA_OPTIONS"));
    assert!(is_blocked_spawn_env("DYLD_FRAMEWORK_PATH"));
}

#[test]
fn case_insensitive_matching() {
    assert!(is_blocked_spawn_env("ld_preload"));
    assert!(is_blocked_spawn_env("Ld_Preload"));
    assert!(is_blocked_spawn_env("node_options"));
    assert!(is_blocked_spawn_env("pythonpath"));
    assert!(is_blocked_spawn_env("home"));
}

#[test]
fn prefix_blocking() {
    // ld_ prefix catches novel LD_* vars
    assert!(is_blocked_spawn_env("LD_DEBUG"));
    assert!(is_blocked_spawn_env("LD_SOMETHING_NEW"));
    // dyld_ prefix
    assert!(is_blocked_spawn_env("DYLD_PRINT_LIBRARIES"));
    assert!(is_blocked_spawn_env("DYLD_FORCE_FLAT_NAMESPACE"));
    // npm_config_ prefix
    assert!(is_blocked_spawn_env("npm_config_registry"));
    assert!(is_blocked_spawn_env("npm_config_cache"));
    assert!(is_blocked_spawn_env("NPM_CONFIG_PREFIX"));
}

#[test]
fn safe_vars_are_allowed() {
    assert!(!is_blocked_spawn_env("CUSTOM_VAR"));
    assert!(!is_blocked_spawn_env("MY_APP_ENV"));
    assert!(!is_blocked_spawn_env("LDFLAGS")); // not ld_ prefix (l-d, not ld_)
    assert!(!is_blocked_spawn_env("LANG"));
    assert!(!is_blocked_spawn_env("USER"));
    assert!(!is_blocked_spawn_env("SHELL"));
    assert!(!is_blocked_spawn_env("TERM"));
    assert!(!is_blocked_spawn_env("EDITOR"));
}
