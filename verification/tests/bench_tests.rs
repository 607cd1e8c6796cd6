use mana_dev::bench::{
    compute_runtime_stats, count_successful_files, failed_read_result, first_target_info, medal,
    rank_by_average, runtime_names, select_runtime, total_tests, BenchmarkResult, Runtime, RuntimeStats,
};
use mana_dev::json::parse_json;
use mana_dev::project::{
    generate_uuid, is_ignored_dir_name, is_target_source, is_typescript_extension, plan_directory,
    preview_chars, select_script_files, uuid_from_nanos, DirEntryInfo, SourceEntry, SourceStep,
};

fn run(runtime: &str, file: &str, nanos: u128, ok: bool) -> BenchmarkResult {
    BenchmarkResult {
        runtime_name: runtime.to_string(),
        file_name: file.to_string(),
        execution_nanos: nanos,
        target_info: if ok { parse_json(r#"{"name":"T"}"#) } else { None },
        error: if ok { None } else { Some("boom".to_string()) },
    }
}

#[test]
fn stats_of_a_runtime() {
    let results = vec![
        run("v8", "a.js", 30, true),
        run("v8", "b.js", 10, true),
        run("other", "z.js", 1, true),
        run("v8", "c.js", 10, true),
        run("v8", "d.js", 50, false),
        run("v8", "e.js", 30, true),
    ];
    let st = compute_runtime_stats(&results, "v8", None).unwrap();
    assert_eq!(st.runtime_name, "v8");
    assert_eq!(st.total_files, 5);
    assert_eq!(st.successful_files, 4);
    assert_eq!(st.failed_files, 1);
    assert_eq!(st.total_nanos, 80);
    assert_eq!(st.average_nanos, 20);
    assert_eq!(st.min_nanos, 10);
    assert_eq!(st.max_nanos, 30);
    assert_eq!(st.fastest_file, "b.js");
    assert_eq!(st.slowest_file, "e.js");
    let recorded = compute_runtime_stats(&results, "v8", Some(999)).unwrap();
    assert_eq!(recorded.total_nanos, 999);
    assert_eq!(recorded.average_nanos, 20);
}

#[test]
fn stats_when_all_fail_or_none_ran() {
    let results = vec![run("v8", "a.js", 30, false)];
    let st = compute_runtime_stats(&results, "v8", Some(5)).unwrap();
    assert_eq!(st.successful_files, 0);
    assert_eq!(st.failed_files, 1);
    assert_eq!(st.total_nanos, 0);
    assert_eq!(st.fastest_file, "N/A");
    assert_eq!(st.slowest_file, "N/A");
    assert!(compute_runtime_stats(&results, "quickjs", None).is_none());
}

#[test]
fn average_matches_duration_division() {
    let results = vec![run("v8", "a.js", 1_000_000_001, true), run("v8", "b.js", 2, true), run("v8", "c.js", 0, true)];
    let st = compute_runtime_stats(&results, "v8", None).unwrap();
    let d = (std::time::Duration::from_nanos(1_000_000_001) + std::time::Duration::from_nanos(2)) / 3;
    assert_eq!(st.average_nanos, d.as_nanos());
}

#[test]
fn successful_file_count() {
    let results = vec![
        run("v8", "a.js", 1, true),
        run("v8", "a.js", 2, true),
        run("v8", "b.js", 3, false),
        run("v8", "c.js", 4, true),
    ];
    assert_eq!(count_successful_files(&results), 2);
    assert_eq!(count_successful_files(&vec![]), 0);
}

#[test]
fn runtime_selection() {
    assert_eq!(select_runtime("v8"), Ok(Runtime::V8));
    assert_eq!(select_runtime("node"), Err("Unknown runtime: node. Supported runtimes: 'v8'".to_string()));
}

#[test]
fn counts_and_medals() {
    assert_eq!(total_tests(4, 1, 3), 12);
    assert_eq!(medal(0), "🥇");
    assert_eq!(medal(1), "🥈");
    assert_eq!(medal(2), "🥉");
    assert_eq!(medal(3), "  ");
}

#[test]
fn read_failures_and_reports() {
    let r = failed_read_result("v8".to_string(), "a.js".to_string(), "/d/a.js");
    assert_eq!(r.error.as_deref(), Some("Failed to read file: /d/a.js"));
    assert_eq!(r.execution_nanos, 0);
    assert!(r.target_info.is_none());
    let results = vec![run("v8", "x.js", 1, false), run("v8", "y.js", 1, true)];
    assert_eq!(first_target_info(&results), results[1].target_info.as_ref());
    assert!(first_target_info(&vec![run("v8", "x.js", 1, false)]).is_none());
}

#[test]
fn runtime_grouping() {
    let results = vec![run("v8", "a", 1, true), run("qjs", "b", 1, true), run("v8", "c", 1, true)];
    assert_eq!(runtime_names(&results), vec!["v8".to_string(), "qjs".to_string()]);
}

fn stats(name: &str, average: u128) -> RuntimeStats {
    RuntimeStats {
        runtime_name: name.to_string(),
        total_files: 1,
        successful_files: 1,
        failed_files: 0,
        total_nanos: average,
        average_nanos: average,
        min_nanos: average,
        max_nanos: average,
        fastest_file: "f".to_string(),
        slowest_file: "f".to_string(),
    }
}

#[test]
fn ranking() {
    let ranked = rank_by_average(vec![stats("slow", 30), stats("fast", 10), stats("mid", 20)]);
    let names: Vec<&str> = ranked.iter().map(|s| s.runtime_name.as_str()).collect();
    assert_eq!(names, vec!["fast", "mid", "slow"]);
}

#[test]
fn source_discovery() {
    assert!(is_target_source("export default class Target { }"));
    assert!(!is_target_source("class Source {}"));
    for n in ["node_modules", ".git", "dist", "build"] {
        assert!(is_ignored_dir_name(n));
    }
    assert!(!is_ignored_dir_name("src"));
    assert!(is_typescript_extension("ts"));
    assert!(is_typescript_extension("tsx"));
    assert!(!is_typescript_extension("js"));
}

fn entry(path: &str, is_file: bool, ext: Option<&str>) -> DirEntryInfo {
    DirEntryInfo { path: path.to_string(), is_file, extension: ext.map(|e| e.to_string()) }
}

#[test]
fn script_selection_is_sorted() {
    let picked = select_script_files(vec![
        entry("d/zeta.mana", true, Some("mana")),
        entry("d/sub.mana", false, Some("mana")),
        entry("d/alpha.mana", true, Some("mana")),
        entry("d/bundle.js", true, Some("js")),
        entry("d/readme.md", true, Some("md")),
        entry("d/noext", true, None),
    ]);
    assert_eq!(picked, vec!["d/alpha.mana".to_string(), "d/zeta.mana".to_string()]);
}

#[test]
fn identifiers() {
    assert_eq!(uuid_from_nanos(0), "0");
    assert_eq!(uuid_from_nanos(0xFFFF_FFFF), "0");
    assert_eq!(uuid_from_nanos(0x1_0000_0000), "1");
    let n: u128 = 1_700_000_000_123_456_789;
    assert_eq!(uuid_from_nanos(n), format!("{:x}", n % 0xFFFFFFFF));
    let id = generate_uuid().unwrap();
    assert!(!id.is_empty() && id.chars().all(|c| c.is_ascii_hexdigit()));
    assert_eq!(preview_chars("héllo world", 4), "héll");
    assert_eq!(preview_chars("ab", 200), "ab");
}

fn source_entry(path: &str, is_dir: bool, name: Option<&str>, ext: Option<&str>) -> SourceEntry {
    SourceEntry {
        path: path.to_string(),
        is_dir,
        name: name.map(|s| s.to_string()),
        extension: ext.map(|s| s.to_string()),
    }
}

#[test]
fn directory_plan_descends_and_reads_typescript() {
    let entries = vec![
        source_entry("src/node_modules", true, Some("node_modules"), None),
        source_entry("src/main.ts", false, Some("main.ts"), Some("ts")),
        source_entry("src/lib", true, Some("lib"), None),
        source_entry("src/view.tsx", false, Some("view.tsx"), Some("tsx")),
        source_entry("src/out.js", false, Some("out.js"), Some("js")),
        source_entry("src/.git", true, Some(".git"), None),
        source_entry("src/LICENSE", false, Some("LICENSE"), None),
        source_entry("src/dist", true, Some("dist"), None),
        source_entry("src/build", true, Some("build"), None),
        source_entry("src/types.d", true, Some("types.d"), Some("d")),
        source_entry("..", true, None, None),
    ];
    assert_eq!(
        plan_directory(entries),
        vec![
            SourceStep::Read("src/main.ts".to_string()),
            SourceStep::Descend("src/lib".to_string()),
            SourceStep::Read("src/view.tsx".to_string()),
            SourceStep::Descend("src/types.d".to_string()),
            SourceStep::Descend("..".to_string()),
        ]
    );
    assert!(plan_directory(Vec::new()).is_empty());
}
