use mana_dev::config::{parse_config_file, resolve_config, resolve_layers, ConfigSource, ManaConfig};
use mana_dev::json::{parse_json, to_pretty_json, JsonValue};

fn text(s: &str) -> Option<String> {
    Some(s.to_string())
}

#[test]
fn defaults_are_builtin() {
    let c = ManaConfig::defaults();
    assert_eq!(c.src, "src");
    assert_eq!(c.out, "dist");
    assert_eq!(c.target, "esnext");
    assert!(c.minify);
    assert_eq!(c.platform, "browser");
    assert_eq!(c.repository_name, None);
    assert_eq!(c.thumbnail, None);
}

#[test]
fn no_files_no_flags_gives_defaults() {
    let (c, source) = resolve_config(None, None, None, None);
    assert_eq!(c, ManaConfig::defaults());
    assert_eq!(source, ConfigSource::Defaults);
    assert_eq!(source.describe(), "defaults");
}

#[test]
fn package_json_mana_key_is_used() {
    let pkg = r#"{
        "name": "my-sources",
        "repositoryName": "My Source Repository",
        "thumbnail": "https://example.com/thumbnail.png",
        "mana": { "src": "src/", "out": "dist/", "target": "es2020", "minify": false, "platform": "browser" }
    }"#;
    let (c, source) = resolve_config(None, None, text(pkg), None);
    assert_eq!(c.src, "src/");
    assert_eq!(c.out, "dist/");
    assert_eq!(c.target, "es2020");
    assert!(!c.minify);
    assert_eq!(c.platform, "browser");
    assert_eq!(c.repository_name.as_deref(), Some("My Source Repository"));
    assert_eq!(c.thumbnail.as_deref(), Some("https://example.com/thumbnail.png"));
    assert_eq!(source, ConfigSource::PackageManaKey);
    assert_eq!(source.describe(), "package.json (\"mana\" key)");
}

#[test]
fn mana_json_takes_priority_over_package_json() {
    let pkg = r#"{ "name": "pkg", "mana": { "src": "from-pkg", "target": "es2015" } }"#;
    let mana = r#"{ "src": "from-mana", "platform": "node", "repositoryName": "Repo" }"#;
    let (c, source) = resolve_config(None, None, text(pkg), text(mana));
    assert_eq!(c.src, "from-mana");
    assert_eq!(c.target, "esnext");
    assert_eq!(c.platform, "node");
    assert_eq!(c.repository_name.as_deref(), Some("Repo"));
    assert_eq!(source, ConfigSource::ManaJson);
    assert_eq!(source.describe(), "mana.json");
}

#[test]
fn cli_flags_take_priority() {
    let mana = r#"{ "src": "from-mana", "out": "out-mana" }"#;
    let (c, _) = resolve_config(text("cli-src"), text("cli-out"), None, text(mana));
    assert_eq!(c.src, "cli-src");
    assert_eq!(c.out, "cli-out");
}

#[test]
fn package_without_mana_key() {
    let pkg = r#"{ "name": "only-name" }"#;
    let (c, source) = resolve_config(None, None, text(pkg), None);
    assert_eq!(c.repository_name.as_deref(), Some("only-name"));
    assert_eq!(c.src, "src");
    assert_eq!(source, ConfigSource::PackageWithoutManaKey);
    assert_eq!(source.describe(), "defaults (no \"mana\" key in package.json)");
}

#[test]
fn repository_name_prefers_repository_name_field() {
    let pkg = r#"{ "name": "n", "repositoryName": "R", "mana": {} }"#;
    let (c, _) = resolve_config(None, None, text(pkg), None);
    assert_eq!(c.repository_name.as_deref(), Some("R"));
    let pkg = r#"{ "name": "n", "repositoryName": 5 }"#;
    let (c, _) = resolve_config(None, None, text(pkg), None);
    assert_eq!(c.repository_name.as_deref(), Some("n"));
}

#[test]
fn invalid_json_is_ignored() {
    let (c, source) = resolve_config(None, None, text("{ not json"), text("[1,"));
    assert_eq!(c, ManaConfig::defaults());
    assert_eq!(source, ConfigSource::Defaults);
    assert!(parse_config_file(text("{ not json")).is_none());
    assert!(parse_config_file(None).is_none());
}

#[test]
fn wrong_types_are_skipped() {
    let mana = r#"{ "src": 3, "minify": "no", "target": "es6" }"#;
    let (c, _) = resolve_config(None, None, None, text(mana));
    assert_eq!(c.src, "src");
    assert!(c.minify);
    assert_eq!(c.target, "es6");
}

#[test]
fn merge_functions() {
    let v = parse_json(r#"{ "out": "o", "minify": false, "thumbnail": "t" }"#).unwrap();
    let mut c = ManaConfig::defaults();
    c.merge_build_json(&v);
    assert_eq!(c.out, "o");
    assert!(!c.minify);
    assert_eq!(c.thumbnail, None);
    c.merge_metadata_json(&v);
    assert_eq!(c.thumbnail.as_deref(), Some("t"));
    let (layered, _) = resolve_layers(None, None, None, Some(v));
    assert_eq!(layered.out, "o");
}

#[test]
fn json_lookup_and_writing() {
    let v = parse_json(r#"{"b": true, "s": "x", "n": 12345, "a": [1, "two"]}"#).unwrap();
    assert_eq!(v.get_bool("b"), Some(true));
    assert_eq!(v.get_str("s"), Some("x".to_string()));
    assert_eq!(v.get_str("n"), None);
    assert!(v.get("missing").is_none());
    assert!(matches!(v.get("a"), Some(JsonValue::Array(items)) if items.len() == 2));
    let written = to_pretty_json(&v).ok().unwrap();
    assert_eq!(written, "{\n  \"b\": true,\n  \"s\": \"x\",\n  \"n\": 12345,\n  \"a\": [\n    1,\n    \"two\"\n  ]\n}");
    assert!(parse_json("nope").is_none());
}
