//! The Astrid directory layout: home resolution and the paths under it.

use astrid::dirs::{AstridHome, PrincipalHome, WorkspaceDir};
use astrid::principal::PrincipalId;

#[test]
fn test_astrid_home_rejects_traversal_in_astrid_home() {
    let result = AstridHome::resolve_with_env(Some("/tmp/../etc".to_string()), None);
    assert!(result.is_err());
    let err = result.unwrap_err();
    assert!(
        err.to_string().contains("'..'"),
        "expected path traversal error, got: {}", err.to_string()
    );
}

#[test]
fn test_astrid_home_rejects_traversal_in_home() {
    let result = AstridHome::resolve_with_env(None, Some("/tmp/../etc".to_string()));
    assert!(result.is_err());
    let err = result.unwrap_err();
    assert!(
        err.to_string().contains("'..'"),
        "expected path traversal error, got: {}", err.to_string()
    );
}

#[test]
fn test_astrid_home_rejects_relative_env() {
    let result = AstridHome::resolve_with_env(Some("relative/path".to_string()), None);
    assert!(result.is_err());
    assert!(result.unwrap_err().to_string().contains("absolute"));
}

#[test]
fn test_astrid_home_rejects_empty_env() {
    let result = AstridHome::resolve_with_env(Some(String::new()), None);
    assert!(result.is_err());
}

#[test]
fn test_astrid_home_rejects_relative_home() {
    let result = AstridHome::resolve_with_env(None, Some("relative/path".to_string()));
    assert!(result.is_err());
    assert!(result.unwrap_err().to_string().contains("absolute"));
}

#[test]
fn test_astrid_home_fhs_paths() {
    let home = AstridHome::from_path("/tmp/test-astrid");
    let r = "/tmp/test-astrid";

    assert_eq!(home.root(), r);
    assert_eq!(home.etc_dir(), format!("{r}/etc"));
    assert_eq!(
        home.config_path(),
        format!("{r}/etc/config.toml")
    );
    assert_eq!(
        home.servers_config_path(),
        format!("{r}/etc/servers.toml")
    );
    assert_eq!(
        home.gateway_config_path(),
        format!("{r}/etc/gateway.toml")
    );
    assert_eq!(home.hooks_dir(), format!("{r}/etc/hooks"));
    assert_eq!(home.var_dir(), format!("{r}/var"));
    assert_eq!(
        home.state_db_path(),
        format!("{r}/var/state.db")
    );
    assert_eq!(home.run_dir(), format!("{r}/run"));
    assert_eq!(
        home.socket_path(),
        format!("{r}/run/system.sock")
    );
    assert_eq!(
        home.token_path(),
        format!("{r}/run/system.token")
    );
    assert_eq!(
        home.ready_path(),
        format!("{r}/run/system.ready")
    );
    assert_eq!(
        home.deferred_db_path(),
        format!("{r}/run/deferred.db")
    );
    assert_eq!(home.log_dir(), format!("{r}/log"));
    assert_eq!(home.keys_dir(), format!("{r}/keys"));
    assert_eq!(
        home.runtime_key_path(),
        format!("{r}/keys/runtime.key")
    );
    assert_eq!(home.bin_dir(), format!("{r}/bin"));
    assert_eq!(home.home_dir(), format!("{r}/home"));
}

#[test]
fn test_principal_home_from_astrid_home() {
    let home = AstridHome::from_path("/tmp/test-astrid");
    let principal = PrincipalId::default();
    let ph = home.principal_home(&principal);
    assert_eq!(ph.root(), "/tmp/test-astrid/home/default");
}

#[test]
fn test_principal_home_paths() {
    let ph = PrincipalHome::from_path("/tmp/test-astrid/home/alice");
    let r = "/tmp/test-astrid/home/alice";

    assert_eq!(ph.root(), r);
    assert_eq!(
        ph.capsules_dir(),
        format!("{r}/.local/capsules")
    );
    assert_eq!(ph.kv_dir(), format!("{r}/.local/kv"));
    assert_eq!(ph.log_dir(), format!("{r}/.local/log"));
    assert_eq!(ph.audit_dir(), format!("{r}/.local/audit"));
    assert_eq!(ph.tokens_dir(), format!("{r}/.local/tokens"));
    assert_eq!(ph.tmp_dir(), format!("{r}/.local/tmp"));
    assert_eq!(ph.config_dir(), format!("{r}/.config"));
    assert_eq!(ph.env_dir(), format!("{r}/.config/env"));
}

#[test]
fn test_workspace_path_accessors() {
    let ws = WorkspaceDir::from_path("/home/user/project");
    assert_eq!(ws.root(), "/home/user/project");
    assert_eq!(ws.dot_astrid(), "/home/user/project/.astrid");
    assert_eq!(
        ws.capsules_dir(),
        "/home/user/project/.astrid/capsules"
    );
    assert_eq!(
        ws.workspace_id_path(),
        "/home/user/project/.astrid/workspace-id"
    );
    assert_eq!(
        ws.instructions_path(),
        "/home/user/project/.astrid/ASTRID.md"
    );
}

#[test]
fn test_astrid_home_resolve_with_env() {
    let path_str = "/srv/astrid-home".to_string();
    let home = AstridHome::resolve_with_env(Some(path_str.clone()), None).unwrap();
    assert_eq!(home.root(), path_str);
}
