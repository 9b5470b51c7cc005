//! Layered loading of the configuration files.

use astrid::layering::{layered_config, parse_layer, MAX_CONFIG_FILE_SIZE};
use astrid::merge::{deep_merge_tracking, ConfigLayer, FieldSources};
use astrid::toml_value::TomlValue;

fn get<'a>(v: &'a TomlValue, path: &[&str]) -> Option<&'a TomlValue> {
    let mut cur = v;
    for seg in path {
        match cur {
            TomlValue::Table(t) => {
                cur = &t.iter().find(|(k, _)| k == seg)?.1;
            },
            _ => return None,
        }
    }
    Some(cur)
}

fn float_at(v: &TomlValue, path: &[&str]) -> Option<f64> {
    match get(v, path) {
        Some(TomlValue::Float(b)) => Some(f64::from_bits(*b)),
        _ => None,
    }
}

fn str_at(v: &TomlValue, path: &[&str]) -> Option<String> {
    match get(v, path) {
        Some(TomlValue::String(s)) => Some(s.clone()),
        _ => None,
    }
}

#[test]
fn test_record_defaults() {
    let val = parse_layer(
        r#"
            [model]
            provider = "anthropic"
            max_tokens = 4096
        "#,
    )
    .unwrap();
    let (_, sources) = layered_config(&val, None, None, None);
    assert_eq!(sources.get("model.provider"), Some(&ConfigLayer::Defaults));
    assert_eq!(sources.get("model.max_tokens"), Some(&ConfigLayer::Defaults));
}

#[test]
fn test_oversized_config_rejected() {
    let data = "x = \"".to_owned() + &"a".repeat(1_100_000) + "\"";
    let result = parse_layer(&data);
    assert_eq!(
        result.err(),
        Some("config file is 1100006 bytes, exceeding the 1048576 byte limit".to_string())
    );
}

#[test]
fn a_file_at_the_limit_is_parsed() {
    let data = "x = \"".to_owned() + &"a".repeat(MAX_CONFIG_FILE_SIZE as usize - 6) + "\"";
    assert_eq!(data.len() as u64, MAX_CONFIG_FILE_SIZE);
    assert!(parse_layer(&data).is_ok());
}

#[test]
fn malformed_toml_is_an_error() {
    assert!(parse_layer("[model\nprovider = ").is_err());
    assert!(parse_layer("x = 1\nx = 2\n").is_err());
}

#[test]
fn parsed_values_keep_their_types() {
    let v = parse_layer("[budget]\nsession_max_usd = 100.0\nwarn_at_percent = 80\n[model]\nprovider = \"anthropic\"\n").unwrap();
    assert_eq!(float_at(&v, &["budget", "session_max_usd"]), Some(100.0));
    assert!(matches!(get(&v, &["budget", "warn_at_percent"]), Some(TomlValue::Integer(80))));
    assert_eq!(str_at(&v, &["model", "provider"]), Some("anthropic".to_string()));
}

#[test]
fn layers_apply_in_order_and_are_recorded() {
    let defaults = parse_layer("[model]\nprovider = \"anthropic\"\nmax_tokens = 4096\n").unwrap();
    let system = parse_layer("[model]\nprovider = \"openai\"\n").unwrap();
    let user = parse_layer("[model]\nprovider = \"ollama\"\n[ui]\ntheme = \"dark\"\n").unwrap();
    let (m, sources) = layered_config(&defaults, Some(&system), Some(&user), None);
    assert_eq!(str_at(&m, &["model", "provider"]), Some("ollama".to_string()));
    assert!(matches!(get(&m, &["model", "max_tokens"]), Some(TomlValue::Integer(4096))));
    assert_eq!(sources.get("model.provider"), Some(&ConfigLayer::User));
    assert_eq!(sources.get("model.max_tokens"), Some(&ConfigLayer::Defaults));
    assert_eq!(sources.get("ui.theme"), Some(&ConfigLayer::User));
    let (m, sources) = layered_config(&defaults, Some(&system), None, None);
    assert_eq!(str_at(&m, &["model", "provider"]), Some("openai".to_string()));
    assert_eq!(sources.get("model.provider"), Some(&ConfigLayer::System));
}

#[test]
fn workspace_layer_only_tightens_the_snapshot() {
    let defaults = parse_layer("[budget]\nsession_max_usd = 100.0\n[model]\nprovider = \"anthropic\"\n").unwrap();
    let user = parse_layer("[budget]\nsession_max_usd = 20.0\n").unwrap();
    let raise = parse_layer("[budget]\nsession_max_usd = 5000\n[model]\nprovider = \"openai\"\n").unwrap();
    let (m, sources) = layered_config(&defaults, None, Some(&user), Some(&raise));
    assert_eq!(float_at(&m, &["budget", "session_max_usd"]), Some(20.0));
    assert_eq!(str_at(&m, &["model", "provider"]), Some("openai".to_string()));
    assert_eq!(sources.get("model.provider"), Some(&ConfigLayer::Workspace));
    let lower = parse_layer("[budget]\nsession_max_usd = 5.0\n").unwrap();
    let (m, _) = layered_config(&defaults, None, Some(&user), Some(&lower));
    assert_eq!(float_at(&m, &["budget", "session_max_usd"]), Some(5.0));
}

#[test]
fn tracking_records_exactly_the_overlay_leaves() {
    let mut base = parse_layer("[model]\nprovider = \"a\"\nmax = 1\n").unwrap();
    let overlay = parse_layer("[model]\nprovider = \"b\"\n[ui]\ntheme = \"dark\"\n[ui.x]\ny = 1\n").unwrap();
    let mut sources = FieldSources::new();
    sources.insert("model.provider".to_string(), ConfigLayer::Defaults);
    sources.insert("model.max".to_string(), ConfigLayer::Defaults);
    deep_merge_tracking(&mut base, &overlay, "", &ConfigLayer::User, &mut sources);
    assert_eq!(sources.get("model.provider"), Some(&ConfigLayer::User));
    assert_eq!(sources.get("model.max"), Some(&ConfigLayer::Defaults));
    assert_eq!(sources.get("ui.theme"), Some(&ConfigLayer::User));
    assert_eq!(sources.get("ui.x.y"), Some(&ConfigLayer::User));
    assert_eq!(sources.len(), 4);
    assert_eq!(str_at(&base, &["model", "provider"]), Some("b".to_string()));
}
