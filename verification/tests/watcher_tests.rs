use mana_dev::config::ManaConfig;
use mana_dev::paths::{absolute_path, project_temp_dir, resolve_output_dir};
use mana_dev::watcher::{
    go_run_args, react_to_build, stdout_report_text, watcher_args, watcher_candidate, BuildReaction,
    BuildResult, DebounceState, Debouncer, StderrCollector,
};

#[test]
fn watcher_arguments_for_defaults() {
    let cfg = ManaConfig::defaults();
    let args = watcher_args(&cfg, "/p/.mana-temp", false, false);
    assert_eq!(
        args,
        vec!["--source", "src", "--output", "dist", "--temp", "/p/.mana-temp", "--target", "esnext", "--platform", "browser"]
    );
}

#[test]
fn watcher_arguments_with_flags() {
    let mut cfg = ManaConfig::defaults();
    cfg.minify = false;
    let args = watcher_args(&cfg, "t", true, true);
    assert_eq!(&args[10..], &["--minify=false", "--watch", "--no-initial-build"]);
    let go = go_run_args(&args);
    assert_eq!(go[0], "run");
    assert_eq!(go[1], ".");
    assert_eq!(&go[2..], &args[..]);
}

#[test]
fn temp_dir_is_beside_the_source_directory() {
    assert_eq!(project_temp_dir("src", "/home/me/proj"), "/home/me/proj/.mana-temp");
    assert_eq!(project_temp_dir("/abs/project/src", "/elsewhere"), "/abs/project/.mana-temp");
    assert_eq!(project_temp_dir("/", "/x"), "/.mana-temp");
    assert_eq!(absolute_path("a/b", "/c"), "/c/a/b");
    assert_eq!(absolute_path("/a/b", "/c"), "/a/b");
}

#[test]
fn output_directory_priority() {
    assert_eq!(resolve_output_dir("/base", Some("/abs/out".to_string()), Some("f".to_string())), "/abs/out");
    assert_eq!(resolve_output_dir("/base", Some("rel".to_string()), Some("f".to_string())), "/base/rel");
    assert_eq!(resolve_output_dir("/base", None, Some("f".to_string())), "/base/f");
    assert_eq!(resolve_output_dir("/base", None, None), "/base/dist");
}

#[test]
fn watcher_binary_location() {
    assert_eq!(watcher_candidate("/usr/lib/node/mana-dev", false), "/usr/lib/node/mana-watcher");
    assert_eq!(watcher_candidate("/usr/lib/node/mana-dev", true), "/usr/lib/node/mana-watcher.exe");
}

#[test]
fn stdout_lines() {
    assert_eq!(stdout_report_text("  {\"success\":true}  \n"), Some("{\"success\":true}".to_string()));
    assert_eq!(stdout_report_text("building..."), None);
    assert_eq!(stdout_report_text("{ unterminated"), None);
}

fn result(success: bool, errors: Option<Vec<String>>) -> BuildResult {
    BuildResult {
        success,
        errors,
        warnings: None,
        files: vec!["a.js".to_string(), "b.js".to_string()],
        timestamp: "now".to_string(),
        build_time_ms: 42,
    }
}

#[test]
fn debouncer_lets_first_through_then_waits() {
    let mut d = DebounceState::new(500, 0);
    assert!(d.should_process_at(10));
    assert!(!d.should_process_at(400));
    assert!(!d.should_process_at(509));
    assert!(d.should_process_at(510));
    assert!(!d.should_process_at(5));
    let mut z = DebounceState::new(0, 100);
    assert!(z.should_process_at(0));
    assert!(z.should_process_at(0));
}

#[test]
fn clock_debouncer_first_call_passes() {
    let mut d = Debouncer::new(500_000_000);
    assert!(d.should_process());
    assert!(!d.should_process());
}

#[test]
fn build_reports() {
    let mut d = DebounceState::new(500, 0);
    match react_to_build(&result(true, None), &mut d, 0) {
        BuildReaction::Built { file_count, build_millis, process } => {
            assert_eq!(file_count, 2);
            assert_eq!(build_millis, 42);
            assert!(process);
        }
        _ => panic!("expected a build"),
    }
    match react_to_build(&result(true, None), &mut d, 100) {
        BuildReaction::Built { process, .. } => assert!(!process),
        _ => panic!("expected a build"),
    }
    let failed = result(false, Some(vec!["e1".to_string(), "e2".to_string()]));
    assert_eq!(react_to_build(&failed, &mut d, 100_000), BuildReaction::Failed { errors: vec!["e1".to_string(), "e2".to_string()] });
    assert_eq!(react_to_build(&result(false, None), &mut d, 0), BuildReaction::Failed { errors: vec![] });
    let mut negative = result(true, None);
    negative.build_time_ms = -1;
    match react_to_build(&negative, &mut d, 0) {
        BuildReaction::Built { build_millis, .. } => assert_eq!(build_millis, u64::MAX),
        _ => panic!("expected a build"),
    }
}

#[test]
fn stderr_paragraphs() {
    let mut c = StderrCollector::new();
    assert_eq!(c.on_line("warning: a\n", false), None);
    assert_eq!(c.on_line("  more  ", false), None);
    assert_eq!(c.on_line("\n", false), Some("warning: a\nmore".to_string()));
    assert_eq!(c.buffer, "");
    assert_eq!(c.on_line("   ", false), None);
    assert_eq!(c.on_line("Done in 12ms", true), None);
    assert_eq!(c.on_end(), None);
    assert_eq!(c.on_line("Done in 12ms", false), None);
    assert_eq!(c.on_end(), Some("Done in 12ms".to_string()));
    assert_eq!(c.on_end(), None);
}
