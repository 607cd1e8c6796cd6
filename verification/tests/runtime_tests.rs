use mana_dev::json::{parse_json, to_pretty_json, JsonValue};
use mana_dev::runtime::{
    build_sources_index, bulk_build_skipped, configure_debug_mode, configure_thread_pool, get_emulator_code,
    get_target_processor_code, target_file_name, thread_pool_size, v8_background_threads,
    RuntimeScripts, V8Settings,
};

#[test]
fn configuration_is_set_once() {
    let mut s = V8Settings::new();
    assert_eq!(s.thread_config(), (4, 1));
    assert!(!s.debug_enabled());
    configure_thread_pool(&mut s, 8, 3);
    configure_thread_pool(&mut s, 16, 10);
    assert_eq!(s.thread_config(), (8, 3));
    configure_debug_mode(&mut s, true);
    configure_debug_mode(&mut s, false);
    assert!(s.debug_enabled());
}

#[test]
fn pool_size_is_fixed_at_first_use() {
    let mut s = V8Settings::new();
    configure_thread_pool(&mut s, 8, 3);
    assert_eq!(s.pool_size(), 3);
    assert_eq!(s.pool_size_with(100, 100), 3);
    let mut t = V8Settings::new();
    assert_eq!(t.pool_size(), 1);
}

#[test]
fn thread_counts() {
    assert_eq!(thread_pool_size(8, 3), 3);
    assert_eq!(thread_pool_size(2, 10), 2);
    assert_eq!(thread_pool_size(0, 10), 1);
    assert_eq!(thread_pool_size(5, 0), 1);
    assert_eq!(v8_background_threads(1), 2);
    assert_eq!(v8_background_threads(12), 12);
    assert_eq!(v8_background_threads(13), 6);
    assert_eq!(v8_background_threads(30), 12);
    assert_eq!(v8_background_threads(64), 12);
}

#[test]
fn embedded_scripts_are_available() {
    let scripts = RuntimeScripts { emulator: "export function emulate() {}", target_processor: "function processTarget() {}" };
    assert_eq!(get_emulator_code(&scripts), Some("export function emulate() {}"));
    assert_eq!(get_target_processor_code(&scripts), Some("function processTarget() {}"));
}

#[test]
fn published_names() {
    let named = parse_json(r#"{"name": "SourceName", "intents": 3}"#).unwrap();
    assert_eq!(target_file_name("index.js", &named), "SourceName.mana");
    let unnamed = parse_json(r#"{"intents": 3}"#).unwrap();
    assert_eq!(target_file_name("index.js", &unnamed), "index.mana");
    assert_eq!(target_file_name("lib.js.js", &unnamed), "lib.mana.mana");
    let not_text = parse_json(r#"{"name": 7}"#).unwrap();
    assert_eq!(target_file_name("x.ts", &not_text), "x.ts");
}

#[test]
fn sources_index_layout() {
    let a = parse_json(r#"{"name": "SourceName", "environment": "source", "intents": 12345, "hash": "a1b2c3d4"}"#).unwrap();
    let b = parse_json(r#"{"name": "Other"}"#).unwrap();
    let index = build_sources_index(
        Some("My Source Repository".to_string()),
        Some("https://example.com/thumbnail.png".to_string()),
        vec![Some(a), None, Some(b)],
    );
    let text = to_pretty_json(&index).ok().unwrap();
    let expected = "{\n  \"repositoryName\": \"My Source Repository\",\n  \"thumbnail\": \"https://example.com/thumbnail.png\",\n  \"sources\": [\n    {\n      \"name\": \"SourceName\",\n      \"environment\": \"source\",\n      \"intents\": 12345,\n      \"hash\": \"a1b2c3d4\"\n    },\n    {\n      \"name\": \"Other\"\n    }\n  ]\n}";
    assert_eq!(text, expected);
    let bare = build_sources_index(None, None, vec![None]);
    assert_eq!(to_pretty_json(&bare).ok().unwrap(), "{\n  \"sources\": []\n}");
    assert!(matches!(bare, JsonValue::Object(ref e) if e.len() == 1));
}

#[test]
fn bulk_build_without_files_answers_empty_object() {
    let empty = bulk_build_skipped(0).unwrap();
    assert_eq!(to_pretty_json(&empty).ok().unwrap(), "{}");
    assert!(bulk_build_skipped(3).is_none());
}
