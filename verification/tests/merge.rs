//! Layered configuration: deep merging, source tracking, and the
//! restrictions that keep a workspace layer from loosening security.

use astrid::number_order::{float_gt_int, int_gt_float};
use astrid::merge::{
    deep_merge, deep_merge_tracking, enforce_restrictions, ConfigLayer, FieldSources,
};
use astrid::toml_value::{float_bits_gt, value_eq, TomlValue};

fn s(v: &str) -> TomlValue {
    TomlValue::String(v.to_string())
}

fn arr(items: &[&str]) -> TomlValue {
    TomlValue::Array(items.iter().map(|x| s(x)).collect())
}

/// A table with its entries put in key order.
fn table(entries: Vec<(&str, TomlValue)>) -> TomlValue {
    let mut e: Vec<(String, TomlValue)> =
        entries.into_iter().map(|(k, v)| (k.to_string(), v)).collect();
    e.sort_by(|a, b| a.0.cmp(&b.0));
    TomlValue::Table(e)
}

fn get<'a>(v: &'a TomlValue, path: &[&str]) -> Option<&'a TomlValue> {
    let mut cur = v;
    for seg in path {
        match cur {
            TomlValue::Table(t) => {
                cur = &t.iter().find(|(k, _)| k == seg)?.1;
            },
            _ => return None,
        }
    }
    Some(cur)
}

fn int_at(v: &TomlValue, path: &[&str]) -> Option<i64> {
    match get(v, path) {
        Some(TomlValue::Integer(i)) => Some(*i),
        _ => None,
    }
}

fn bool_at(v: &TomlValue, path: &[&str]) -> Option<bool> {
    match get(v, path) {
        Some(TomlValue::Boolean(b)) => Some(*b),
        _ => None,
    }
}

fn strs_at(v: &TomlValue, path: &[&str]) -> Vec<String> {
    match get(v, path) {
        Some(TomlValue::Array(a)) => a
            .iter()
            .map(|x| match x {
                TomlValue::String(s) => s.clone(),
                _ => String::new(),
            })
            .collect(),
        _ => Vec::new(),
    }
}

/// The merged value of `base` with `ws` laid over it.
fn merged(base: &TomlValue, ws: &TomlValue) -> TomlValue {
    let mut m = base.clone_deep();
    deep_merge(&mut m, ws);
    m
}

fn restricted(base: &TomlValue, ws: &TomlValue) -> TomlValue {
    let mut m = merged(base, ws);
    enforce_restrictions(&mut m, base, ws);
    m
}

trait CloneDeep {
    fn clone_deep(&self) -> TomlValue;
}

impl CloneDeep for TomlValue {
    fn clone_deep(&self) -> TomlValue {
        match self {
            TomlValue::String(x) => TomlValue::String(x.clone()),
            TomlValue::Integer(i) => TomlValue::Integer(*i),
            TomlValue::Float(b) => TomlValue::Float(*b),
            TomlValue::Boolean(b) => TomlValue::Boolean(*b),
            TomlValue::Datetime(x) => TomlValue::Datetime(x.clone()),
            TomlValue::Array(a) => TomlValue::Array(a.iter().map(|x| x.clone_deep()).collect()),
            TomlValue::Table(t) => {
                TomlValue::Table(t.iter().map(|(k, v)| (k.clone(), v.clone_deep())).collect())
            },
        }
    }
}

#[test]
fn deep_merge_merges_tables_and_replaces_the_rest() {
    let base = table(vec![
        ("model", table(vec![("provider", s("acme")), ("max_tokens", TomlValue::Integer(10))])),
        ("list", arr(&["a", "b"])),
    ]);
    let overlay = table(vec![
        ("model", table(vec![("max_tokens", TomlValue::Integer(20))])),
        ("list", arr(&["c"])),
        ("extra", TomlValue::Boolean(true)),
    ]);
    let m = merged(&base, &overlay);
    assert!(matches!(get(&m, &["model", "provider"]), Some(TomlValue::String(p)) if p == "acme"));
    assert_eq!(int_at(&m, &["model", "max_tokens"]), Some(20));
    assert_eq!(strs_at(&m, &["list"]), vec!["c".to_string()]);
    assert_eq!(bool_at(&m, &["extra"]), Some(true));
}

#[test]
fn deep_merge_tracking_records_each_leaf() {
    let mut base = table(vec![("model", table(vec![("provider", s("acme"))]))]);
    let overlay = table(vec![
        ("model", table(vec![("provider", s("openai"))])),
        ("budget", table(vec![("warn_at_percent", TomlValue::Integer(50))])),
    ]);
    let mut sources = FieldSources::new();
    deep_merge_tracking(&mut base, &overlay, "", &ConfigLayer::User, &mut sources);
    assert_eq!(sources.get("model.provider"), Some(&ConfigLayer::User));
    assert_eq!(sources.get("budget.warn_at_percent"), Some(&ConfigLayer::User));
    assert_eq!(sources.len(), 2);
    assert!(matches!(get(&base, &["model", "provider"]), Some(TomlValue::String(p)) if p == "openai"));
}

#[test]
fn config_layer_names() {
    assert_eq!(ConfigLayer::Defaults.to_string(), "defaults");
    assert_eq!(ConfigLayer::Workspace.to_string(), "workspace (.astrid/config.toml)");
}

#[test]
fn workspace_cannot_raise_limits() {
    let base = table(vec![(
        "security",
        table(vec![
            ("approval_timeout_secs", TomlValue::Integer(300)),
            ("policy", table(vec![("max_argument_size", TomlValue::Integer(100))])),
        ]),
    )]);
    let ws = table(vec![(
        "security",
        table(vec![
            ("approval_timeout_secs", TomlValue::Integer(30)),
            ("policy", table(vec![("max_argument_size", TomlValue::Integer(5000))])),
        ]),
    )]);
    let mut m = merged(&base, &ws);
    enforce_restrictions(&mut m, &base, &ws);
    assert_eq!(int_at(&m, &["security", "policy", "max_argument_size"]), Some(100));
    // Lowering is allowed.
    assert_eq!(int_at(&m, &["security", "approval_timeout_secs"]), Some(30));
}

#[test]
fn workspace_cannot_raise_budget_floats() {
    let base = table(vec![("budget", table(vec![("session_max_usd", TomlValue::Float(10.0f64.to_bits()))]))]);
    let ws = table(vec![("budget", table(vec![("session_max_usd", TomlValue::Float(50.0f64.to_bits()))]))]);
    let mut m = merged(&base, &ws);
    enforce_restrictions(&mut m, &base, &ws);
    assert!(matches!(get(&m, &["budget", "session_max_usd"]), Some(TomlValue::Float(b)) if f64::from_bits(*b) == 10.0));
}

#[test]
fn workspace_cannot_disable_approvals_or_enable_hooks() {
    let base = table(vec![
        ("hooks", table(vec![("allow_wasm_hooks", TomlValue::Boolean(false))])),
        ("security", table(vec![("policy", table(vec![("require_approval_for_delete", TomlValue::Boolean(true))]))])),
    ]);
    let ws = table(vec![
        ("hooks", table(vec![("allow_wasm_hooks", TomlValue::Boolean(true))])),
        ("security", table(vec![("policy", table(vec![("require_approval_for_delete", TomlValue::Boolean(false))]))])),
    ]);
    let mut m = merged(&base, &ws);
    enforce_restrictions(&mut m, &base, &ws);
    assert_eq!(bool_at(&m, &["hooks", "allow_wasm_hooks"]), Some(false));
    assert_eq!(bool_at(&m, &["security", "policy", "require_approval_for_delete"]), Some(true));
}

#[test]
fn workspace_can_only_add_to_block_lists() {
    let base = table(vec![("security", table(vec![("policy", table(vec![("blocked_tools", arr(&["sudo", "su"]))]))]))]);
    let ws = table(vec![("security", table(vec![("policy", table(vec![("blocked_tools", arr(&["sudo", "dd"]))]))]))]);
    let mut m = merged(&base, &ws);
    enforce_restrictions(&mut m, &base, &ws);
    assert_eq!(
        strs_at(&m, &["security", "policy", "blocked_tools"]),
        vec!["sudo".to_string(), "dd".to_string(), "su".to_string()]
    );
}

#[test]
fn workspace_cannot_widen_allow_lists() {
    let base = table(vec![("security", table(vec![("policy", table(vec![("allowed_paths", arr(&["/a"]))]))]))]);
    let ws = table(vec![("security", table(vec![("policy", table(vec![("allowed_paths", arr(&["/a", "/b"]))]))]))]);
    let mut m = merged(&base, &ws);
    enforce_restrictions(&mut m, &base, &ws);
    assert_eq!(strs_at(&m, &["security", "policy", "allowed_paths"]), vec!["/a".to_string()]);

    // Narrowing is kept.
    let ws2 = table(vec![("security", table(vec![("policy", table(vec![("allowed_paths", arr(&[]))]))]))]);
    let mut m2 = merged(&base, &ws2);
    enforce_restrictions(&mut m2, &base, &ws2);
    assert!(strs_at(&m2, &["security", "policy", "allowed_paths"]).is_empty());
}

#[test]
fn workspace_modes_only_tighten() {
    let base = table(vec![("workspace", table(vec![("mode", s("guided")), ("escape_policy", s("ask"))]))]);
    let ws = table(vec![("workspace", table(vec![("mode", s("autonomous")), ("escape_policy", s("deny"))]))]);
    let mut m = merged(&base, &ws);
    enforce_restrictions(&mut m, &base, &ws);
    assert!(matches!(get(&m, &["workspace", "mode"]), Some(TomlValue::String(v)) if v == "guided"));
    assert!(matches!(get(&m, &["workspace", "escape_policy"]), Some(TomlValue::String(v)) if v == "deny"));
}

#[test]
fn workspace_cannot_set_model_credentials() {
    let base = table(vec![("model", table(vec![("api_url", s("https://base"))]))]);
    let ws = table(vec![("model", table(vec![("api_key", s("stolen")), ("api_url", s("https://evil"))]))]);
    let mut m = merged(&base, &ws);
    enforce_restrictions(&mut m, &base, &ws);
    assert!(get(&m, &["model", "api_key"]).is_none());
    assert!(matches!(get(&m, &["model", "api_url"]), Some(TomlValue::String(v)) if v == "https://base"));
}

#[test]
fn workspace_servers_are_sanitized() {
    let base = table(vec![("servers", table(vec![("fs", table(vec![("command", s("fs-server"))]))]))]);
    let ws = table(vec![(
        "servers",
        table(vec![
            ("fs", table(vec![("command", s("evil")), ("cwd", s("/tmp"))])),
            ("injected", table(vec![("auto_start", TomlValue::Boolean(true)), ("trusted", TomlValue::Boolean(true))])),
        ]),
    )]);
    let mut m = merged(&base, &ws);
    enforce_restrictions(&mut m, &base, &ws);
    assert!(matches!(get(&m, &["servers", "fs", "command"]), Some(TomlValue::String(v)) if v == "fs-server"));
    assert!(get(&m, &["servers", "fs", "cwd"]).is_none());
    assert_eq!(bool_at(&m, &["servers", "injected", "trusted"]), Some(false));
    assert_eq!(bool_at(&m, &["servers", "injected", "auto_start"]), Some(false));
}

#[test]
fn float_comparison_follows_ieee() {
    let nan = f64::NAN.to_bits();
    assert!(float_bits_gt(2.0f64.to_bits(), 1.0f64.to_bits()));
    assert!(!float_bits_gt(1.0f64.to_bits(), 2.0f64.to_bits()));
    assert!(float_bits_gt(1.0f64.to_bits(), (-3.0f64).to_bits()));
    assert!(float_bits_gt((-1.0f64).to_bits(), (-3.0f64).to_bits()));
    assert!(!float_bits_gt(0.0f64.to_bits(), (-0.0f64).to_bits()));
    assert!(!float_bits_gt(nan, 1.0f64.to_bits()));
    assert!(!float_bits_gt(1.0f64.to_bits(), nan));
    assert!(float_bits_gt(f64::INFINITY.to_bits(), f64::MAX.to_bits()));
}

#[test]
fn value_equality_follows_toml() {
    assert!(value_eq(&TomlValue::Float(0.0f64.to_bits()), &TomlValue::Float((-0.0f64).to_bits())));
    assert!(!value_eq(&TomlValue::Float(f64::NAN.to_bits()), &TomlValue::Float(f64::NAN.to_bits())));
    assert!(value_eq(&arr(&["a", "b"]), &arr(&["a", "b"])));
    assert!(!value_eq(&arr(&["a", "b"]), &arr(&["b", "a"])));
    assert!(!value_eq(&s("1"), &TomlValue::Integer(1)));
}

#[test]
fn restrictions_hold_together() {
    let base = table(vec![
        ("budget", table(vec![
            ("session_max_usd", TomlValue::Float(5.0f64.to_bits())),
            ("warn_at_percent", TomlValue::Integer(80)),
        ])),
        ("security", table(vec![("policy", table(vec![
            ("blocked_tools", arr(&["rm"])),
            ("allowed_hosts", arr(&["a.example"])),
        ]))])),
        ("workspace", table(vec![("mode", s("safe"))])),
        ("model", table(vec![("api_url", s("https://base.example"))])),
        ("hooks", table(vec![("allow_command_hooks", TomlValue::Boolean(false))])),
    ]);
    let ws = table(vec![
        ("budget", table(vec![
            ("session_max_usd", TomlValue::Float(9.0f64.to_bits())),
            ("warn_at_percent", TomlValue::Integer(95)),
        ])),
        ("security", table(vec![("policy", table(vec![
            ("blocked_tools", arr(&["curl"])),
            ("allowed_hosts", arr(&["a.example", "b.example"])),
        ]))])),
        ("workspace", table(vec![("mode", s("autonomous"))])),
        ("model", table(vec![("api_url", s("https://evil.example"))])),
        ("hooks", table(vec![("allow_command_hooks", TomlValue::Boolean(true))])),
        ("servers", table(vec![("tool", table(vec![("trusted", TomlValue::Boolean(true))]))])),
    ]);
    let mut m = merged(&base, &ws);
    enforce_restrictions(&mut m, &base, &ws);
    assert!(matches!(get(&m, &["budget", "session_max_usd"]), Some(TomlValue::Float(b)) if f64::from_bits(*b) == 5.0));
    assert_eq!(int_at(&m, &["budget", "warn_at_percent"]), Some(80));
    let blocked = strs_at(&m, &["security", "policy", "blocked_tools"]);
    assert!(blocked.contains(&"rm".to_string()) && blocked.contains(&"curl".to_string()));
    assert_eq!(strs_at(&m, &["security", "policy", "allowed_hosts"]), vec!["a.example".to_string()]);
    assert!(matches!(get(&m, &["workspace", "mode"]), Some(TomlValue::String(x)) if x == "safe"));
    assert!(matches!(get(&m, &["model", "api_url"]), Some(TomlValue::String(x)) if x == "https://base.example"));
    assert_eq!(bool_at(&m, &["hooks", "allow_command_hooks"]), Some(false));
    assert_eq!(bool_at(&m, &["servers", "tool", "trusted"]), Some(false));
}

#[test]
fn budget_clamp_compares_across_number_types() {
    let base = table(vec![("budget", table(vec![("session_max_usd", TomlValue::Float(100.0f64.to_bits()))]))]);
    let ws = table(vec![("budget", table(vec![("session_max_usd", TomlValue::Integer(5000))]))]);
    let m = restricted(&base, &ws);
    assert!(matches!(get(&m, &["budget", "session_max_usd"]), Some(TomlValue::Float(b)) if f64::from_bits(*b) == 100.0));
    let ws = table(vec![("budget", table(vec![("session_max_usd", TomlValue::Integer(50))]))]);
    let m = restricted(&base, &ws);
    assert_eq!(int_at(&m, &["budget", "session_max_usd"]), Some(50));
    // A float over an integer baseline.
    let base = table(vec![("subagents", table(vec![("max_depth", TomlValue::Integer(3))]))]);
    let ws = table(vec![("subagents", table(vec![("max_depth", TomlValue::Float(3.5f64.to_bits()))]))]);
    let m = restricted(&base, &ws);
    assert_eq!(int_at(&m, &["subagents", "max_depth"]), Some(3));
    let ws = table(vec![("subagents", table(vec![("max_depth", TomlValue::Float(2.5f64.to_bits()))]))]);
    let m = restricted(&base, &ws);
    assert!(matches!(get(&m, &["subagents", "max_depth"]), Some(TomlValue::Float(b)) if f64::from_bits(*b) == 2.5));
}

#[test]
fn int_float_order_is_exact() {

    assert!(int_gt_float(1, 0.5f64.to_bits()));
    assert!(!int_gt_float(1, 1.0f64.to_bits()));
    assert!(int_gt_float(0, (-0.0f64).to_bits()) == false);
    assert!(int_gt_float(i64::MAX, 9.2e18f64.to_bits()));
    assert!(!int_gt_float(i64::MAX, 9.223372036854775807e18f64.to_bits()));
    assert!(float_gt_int(f64::INFINITY.to_bits(), i64::MAX));
    assert!(!float_gt_int(f64::NAN.to_bits(), 0));
    assert!(float_gt_int(1e-300f64.to_bits(), 0));
    assert!(!float_gt_int((-1e-300f64).to_bits(), 0));
    assert!(float_gt_int(1e300f64.to_bits(), i64::MAX));
    assert!(int_gt_float(i64::MIN, (-1e300f64).to_bits()));
}
