//! Driving the `mana-watcher` (esbuild) process: its command line, and what
//! to do with each line it writes.
use vstd::prelude::*;
use crate::config::ManaConfig;
use crate::paths::{join_path, parent_path, path_join, path_parent};
use crate::text::{
    texts,
    has_prefix, has_suffix, starts_with_text, ends_with_text, trim_text, trimmed,
};

verus! {

/// The arguments that start the watcher for `cfg`, with intermediate files
/// in `temp_dir`.
pub open spec fn watcher_arg_texts(
    cfg: ManaConfig,
    temp_dir: Seq<char>,
    watch: bool,
    skip_initial_build: bool,
) -> Seq<Seq<char>> {
    seq![
        "--source"@,
        cfg.src@,
        "--output"@,
        cfg.out@,
        "--temp"@,
        temp_dir,
        "--target"@,
        cfg.target@,
        "--platform"@,
        cfg.platform@,
    ] + (if cfg.minify {
        Seq::empty()
    } else {
        seq!["--minify=false"@]
    }) + (if watch {
        seq!["--watch"@]
    } else {
        Seq::empty()
    }) + (if skip_initial_build {
        seq!["--no-initial-build"@]
    } else {
        Seq::empty()
    })
}

fn push_text(v: &mut Vec<String>, s: &str)
    ensures
        texts(final(v)@) == texts(old(v)@).push(s@),
{
    v.push(s.to_string());
    assert(texts(final(v)@) =~= texts(old(v)@).push(s@));
}

/// The arguments that start the watcher for `cfg`, with intermediate files
/// in `temp_dir`; `--watch` to keep rebuilding, `--no-initial-build` to skip
/// the first build.
pub fn watcher_args(cfg: &ManaConfig, temp_dir: &str, watch: bool, skip_initial_build: bool) -> (r: Vec<String>)
    ensures
        texts(r@) == watcher_arg_texts(*cfg, temp_dir@, watch, skip_initial_build),
{
    let mut v: Vec<String> = Vec::new();
    push_text(&mut v, "--source");
    push_text(&mut v, cfg.src.as_str());
    push_text(&mut v, "--output");
    push_text(&mut v, cfg.out.as_str());
    push_text(&mut v, "--temp");
    push_text(&mut v, temp_dir);
    push_text(&mut v, "--target");
    push_text(&mut v, cfg.target.as_str());
    push_text(&mut v, "--platform");
    push_text(&mut v, cfg.platform.as_str());
    if !cfg.minify {
        push_text(&mut v, "--minify=false");
    }
    if watch {
        push_text(&mut v, "--watch");
    }
    if skip_initial_build {
        push_text(&mut v, "--no-initial-build");
    }
    assert(texts(v@) =~= watcher_arg_texts(*cfg, temp_dir@, watch, skip_initial_build));
    v
}

/// The watcher is first told where to read, where to write, where to keep
/// its intermediate files and what to build for; after those ten arguments
/// come exactly the flags asked for, each once: `--minify=false` where
/// minifying is off, `--watch` where watching, and `--no-initial-build`
/// where the first build is to be skipped, whatever the other choices.
pub proof fn law_watcher_flags(cfg: ManaConfig, temp_dir: Seq<char>, watch: bool, skip_initial_build: bool)
    ensures
        watcher_arg_texts(cfg, temp_dir, watch, skip_initial_build).len() >= 10,
        watcher_arg_texts(cfg, temp_dir, watch, skip_initial_build).take(10) == seq![
            "--source"@,
            cfg.src@,
            "--output"@,
            cfg.out@,
            "--temp"@,
            temp_dir,
            "--target"@,
            cfg.target@,
            "--platform"@,
            cfg.platform@,
        ],
        watcher_arg_texts(cfg, temp_dir, watch, skip_initial_build).skip(10).contains(
            "--no-initial-build"@,
        ) <==> skip_initial_build,
        watcher_arg_texts(cfg, temp_dir, watch, skip_initial_build).skip(10).contains("--watch"@)
            <==> watch,
        watcher_arg_texts(cfg, temp_dir, watch, skip_initial_build).skip(10).contains(
            "--minify=false"@,
        ) <==> !cfg.minify,
        watcher_arg_texts(cfg, temp_dir, watch, skip_initial_build).skip(10).no_duplicates(),
        forall|i: int|
            0 <= i < watcher_arg_texts(cfg, temp_dir, watch, skip_initial_build).skip(10).len()
                ==> {
                let f = #[trigger] watcher_arg_texts(cfg, temp_dir, watch, skip_initial_build).skip(
                    10,
                )[i];
                f == "--minify=false"@ || f == "--watch"@ || f == "--no-initial-build"@
            },
{
    reveal_strlit("--minify=false");
    reveal_strlit("--watch");
    reveal_strlit("--no-initial-build");
    let a = watcher_arg_texts(cfg, temp_dir, watch, skip_initial_build);
    let m: Seq<Seq<char>> = if cfg.minify {
        Seq::empty()
    } else {
        seq!["--minify=false"@]
    };
    let w: Seq<Seq<char>> = if watch {
        seq!["--watch"@]
    } else {
        Seq::empty()
    };
    let s: Seq<Seq<char>> = if skip_initial_build {
        seq!["--no-initial-build"@]
    } else {
        Seq::empty()
    };
    let tail = m + w + s;
    assert(a.skip(10) =~= tail);
    assert("--minify=false"@.len() != "--watch"@.len());
    assert("--minify=false"@.len() != "--no-initial-build"@.len());
    assert("--watch"@.len() != "--no-initial-build"@.len());
    if skip_initial_build {
        assert(tail[tail.len() - 1] == "--no-initial-build"@);
    }
    if watch {
        assert(tail[m.len() as int] == "--watch"@);
    }
    if !cfg.minify {
        assert(tail[0] == "--minify=false"@);
    }
}

/// The arguments of `go run .` in the watcher's source directory, followed
/// by the watcher's own arguments.
pub fn go_run_args(watcher_args: &Vec<String>) -> (r: Vec<String>)
    ensures
        texts(r@) == seq!["run"@, "."@] + texts(watcher_args@),
{
    let mut v: Vec<String> = Vec::new();
    push_text(&mut v, "run");
    push_text(&mut v, ".");
    let mut i: usize = 0;
    while i < watcher_args.len()
        invariant
            i <= watcher_args.len(),
            texts(v@) == seq!["run"@, "."@] + texts(watcher_args@.take(i as int)),
        decreases watcher_args.len() - i,
    {
        let ghost prev = v@;
        v.push(watcher_args[i].clone());
        assert(texts(v@) =~= texts(prev).push(watcher_args@[i as int]@));
        assert(texts(watcher_args@.take(i + 1)) =~= texts(watcher_args@.take(i as int)).push(
            watcher_args@[i as int]@,
        ));
        assert(texts(v@) =~= seq!["run"@, "."@] + texts(watcher_args@.take(i + 1)));
        i += 1;
    }
    assert(watcher_args@.take(watcher_args.len() as int) =~= watcher_args@);
    v
}

/// The file name of the watcher executable on the host system.
pub open spec fn watcher_file_name(windows: bool) -> Seq<char> {
    if windows {
        "mana-watcher.exe"@
    } else {
        "mana-watcher"@
    }
}

/// Where an installed watcher sits: beside the running executable (in the
/// current directory where that has no parent).
pub open spec fn watcher_candidate_of(exe: Seq<char>, windows: bool) -> Seq<char> {
    path_join(
        match path_parent(exe) {
            Some(d) => d,
            None => "."@,
        },
        watcher_file_name(windows),
    )
}

/// The path at which an installed watcher is looked for, given the path of
/// the running executable.
pub fn watcher_candidate(exe: &str, windows: bool) -> (r: String)
    ensures
        r@ == watcher_candidate_of(exe@, windows),
{
    let dir = match parent_path(exe) {
        Some(d) => d,
        None => ".".to_string(),
    };
    let name = if windows {
        "mana-watcher.exe"
    } else {
        "mana-watcher"
    };
    join_path(dir.as_str(), name)
}

/// A line of the watcher's standard output that may hold a build report: the
/// trimmed line, where it begins with `{` and ends with `}`.
pub open spec fn report_candidate(line: Seq<char>) -> Option<Seq<char>> {
    let t = trimmed(line);
    if has_prefix(t, "{"@) && has_suffix(t, "}"@) {
        Some(t)
    } else {
        None
    }
}

/// The trimmed line where it may hold a JSON build report, else `None`.
pub fn stdout_report_text(line: &str) -> (r: Option<String>)
    ensures
        match r {
            Some(t) => report_candidate(line@) == Some(t@),
            None => report_candidate(line@) is None,
        },
{
    let t = trim_text(line);
    if starts_with_text(t.as_str(), "{") && ends_with_text(t.as_str(), "}") {
        Some(t)
    } else {
        None
    }
}


#[verifier::external_type_specification]
#[verifier::external_body]
pub struct ExInstant(std::time::Instant);

/// The moment of the call, as `std::time::Instant::now`. Nothing is claimed of it.
#[verifier::external_body]
fn instant_now() -> std::time::Instant {
    std::time::Instant::now()
}

/// Nanoseconds since `start`, as `Instant::elapsed` measures them. Nothing is
/// claimed of the result: it depends on the clock.
#[verifier::external_body]
fn nanos_since(start: &std::time::Instant) -> u128 {
    start.elapsed().as_nanos()
}

/// The state of a debouncer, with times in nanoseconds on one clock.
#[derive(Clone, Debug, PartialEq)]
pub struct DebounceState {
    pub last_trigger_nanos: u128,
    pub delay_nanos: u128,
    pub first_run: bool,
}

/// Time from `from` to `to`, or zero where `to` is earlier (as `Instant::duration_since`).
pub open spec fn elapsed_between(from: u128, to: u128) -> u128 {
    if to >= from {
        (to - from) as u128
    } else {
        0
    }
}

impl DebounceState {
    /// A fresh debouncer created at `now_nanos`.
    pub open spec fn fresh(delay_nanos: u128, now_nanos: u128) -> DebounceState {
        DebounceState { last_trigger_nanos: now_nanos, delay_nanos, first_run: true }
    }

    /// Whether a call at `now` lets the work through: the first call always,
    /// later ones once the delay has passed since the last that did.
    pub open spec fn fires(self, now: u128) -> bool {
        self.first_run || elapsed_between(self.last_trigger_nanos, now) >= self.delay_nanos
    }

    /// The state after a call at `now`.
    pub open spec fn after(self, now: u128) -> DebounceState {
        if self.fires(now) {
            DebounceState { last_trigger_nanos: now, delay_nanos: self.delay_nanos, first_run: false }
        } else {
            self
        }
    }

    /// A debouncer created at `now_nanos` that lets work through at most once
    /// per `delay_nanos`.
    pub fn new(delay_nanos: u128, now_nanos: u128) -> (r: Self)
        ensures
            r == DebounceState::fresh(delay_nanos, now_nanos),
    {
        DebounceState { last_trigger_nanos: now_nanos, delay_nanos, first_run: true }
    }

    /// Whether work that arrives at `now_nanos` is to be done.
    pub fn should_process_at(&mut self, now_nanos: u128) -> (r: bool)
        ensures
            r == old(self).fires(now_nanos),
            *final(self) == old(self).after(now_nanos),
    {
        if self.first_run {
            self.first_run = false;
            self.last_trigger_nanos = now_nanos;
            return true;
        }
        let elapsed = if now_nanos >= self.last_trigger_nanos {
            now_nanos - self.last_trigger_nanos
        } else {
            0
        };
        if elapsed >= self.delay_nanos {
            self.last_trigger_nanos = now_nanos;
            true
        } else {
            false
        }
    }
}

/// The first call lets work through, and after work was let through at `t`,
/// a call at `u` lets it through exactly when the delay has passed since `t`.
pub proof fn law_debounce_spacing(delay: u128, created: u128, t: u128, u: u128)
    ensures
        DebounceState::fresh(delay, created).fires(t),
        DebounceState::fresh(delay, created).after(t).fires(u) == (elapsed_between(t, u) >= delay),
        DebounceState::fresh(delay, created).after(t).after(u).first_run == false,
{
}

/// A debouncer on the monotonic clock.
pub struct Debouncer {
    clock_start: std::time::Instant,
    state: DebounceState,
}

impl Debouncer {
    pub closed spec fn state(self) -> DebounceState {
        self.state
    }

    /// A debouncer that lets work through at most once per `delay_nanos`.
    pub fn new(delay_nanos: u128) -> (r: Self)
        ensures
            r.state() == DebounceState::fresh(delay_nanos, 0),
    {
        Debouncer { clock_start: instant_now(), state: DebounceState::new(delay_nanos, 0) }
    }

    /// Whether work arriving now is to be done; whatever the clock reads, the
    /// answer and the new state are those of some reading of it.
    pub fn should_process(&mut self) -> (r: bool)
        ensures
            exists|now: u128|
                r == old(self).state().fires(now) && final(self).state() == old(self).state().after(
                    now,
                ),
    {
        let now = nanos_since(&self.clock_start);
        let r = self.state.should_process_at(now);
        assert(r == old(self).state().fires(now) && self.state() == old(self).state().after(now));
        r
    }
}

/// What the watcher reports after a build (its JSON line on standard output).
#[derive(Clone, Debug, PartialEq)]
pub struct BuildResult {
    pub success: bool,
    pub errors: Option<Vec<String>>,
    pub warnings: Option<Vec<String>>,
    pub files: Vec<String>,
    pub timestamp: String,
    pub build_time_ms: i64,
}

/// What to do about a build report.
#[derive(Clone, Debug, PartialEq)]
pub enum BuildReaction {
    /// Log the build of `file_count` files that took `build_millis`; where
    /// `process` holds, index the repository.
    Built { file_count: usize, build_millis: u64, process: bool },
    /// Log each of `errors`.
    Failed { errors: Vec<String> },
}

/// The errors of a failed build, none where the report gives none.
pub open spec fn reported_errors(result: BuildResult) -> Seq<String> {
    match result.errors {
        Some(e) => e@,
        None => Seq::empty(),
    }
}

/// `r` is the reaction to `result` arriving at `now` with the debouncer in
/// state `before`, and `after` the debouncer's next state: a successful build
/// is logged and, where the debouncer lets it through, the repository is
/// indexed; a failed one has its errors logged and leaves the debouncer as it was.
pub open spec fn reacts(
    result: BuildResult,
    before: DebounceState,
    after: DebounceState,
    r: BuildReaction,
    now: u128,
) -> bool {
    &&& result.success ==> r == (BuildReaction::Built {
        file_count: result.files.len(),
        build_millis: #[verifier::truncate] (result.build_time_ms as u64),
        process: before.fires(now),
    })
    &&& result.success ==> after == before.after(now)
    &&& !result.success ==> (r matches BuildReaction::Failed { errors } && errors@ == reported_errors(
        result,
    ))
    &&& !result.success ==> after == before
}

/// Decides what to do about a build report arriving at `now_nanos`.
pub fn react_to_build(result: &BuildResult, debouncer: &mut DebounceState, now_nanos: u128) -> (r:
    BuildReaction)
    ensures
        reacts(*result, *old(debouncer), *final(debouncer), r, now_nanos),
{
    if result.success {
        let process = debouncer.should_process_at(now_nanos);
        BuildReaction::Built {
            file_count: result.files.len(),
            build_millis: #[verifier::truncate] (result.build_time_ms as u64),
            process,
        }
    } else {
        let errors = match &result.errors {
            Some(e) => e.clone(),
            None => Vec::new(),
        };
        BuildReaction::Failed { errors }
    }
}

/// A failed build only has its errors logged: it leaves the debouncer as
/// it was, so the next successful build is indexed exactly when it would
/// have been had the failure not come (on the first run, or once the delay
/// has passed since the last indexing).
pub proof fn law_failed_build_keeps_debouncer(
    failed: BuildResult,
    fixed: BuildResult,
    before: DebounceState,
    mid: DebounceState,
    after: DebounceState,
    r1: BuildReaction,
    r2: BuildReaction,
    t1: u128,
    t2: u128,
)
    requires
        !failed.success,
        fixed.success,
        reacts(failed, before, mid, r1, t1),
        reacts(fixed, mid, after, r2, t2),
    ensures
        mid == before,
        r1 is Failed,
        r2 matches BuildReaction::Built { process, .. } && process == (before.first_run
            || elapsed_between(before.last_trigger_nanos, t2) >= before.delay_nanos),
        after.delay_nanos == before.delay_nanos,
{
}

impl Debouncer {
    /// Decides what to do about a build report arriving now; whatever the
    /// clock reads, the reaction and the new state are those for some
    /// reading of it.
    pub fn react(&mut self, result: &BuildResult) -> (r: BuildReaction)
        ensures
            exists|now: u128| #[trigger] reacts(*result, old(self).state(), final(self).state(), r, now),
    {
        let now = nanos_since(&self.clock_start);
        let r = react_to_build(result, &mut self.state, now);
        assert(reacts(*result, old(self).state(), self.state(), r, now));
        r
    }
}

/// Collects the watcher's standard-error lines into paragraphs, to be logged
/// as warnings when a blank line or the end of the stream comes.
#[derive(Clone, Debug, PartialEq)]
pub struct StderrCollector {
    pub buffer: String,
}

/// Whether a trimmed, non-blank standard-error line is kept: in watch mode
/// the `Done in ...` lines are dropped.
pub open spec fn keeps_line(t: Seq<char>, watch: bool) -> bool {
    !(watch && has_prefix(t, "Done in "@))
}

/// Outside watch mode every line is kept; in watch mode only the lines that
/// begin with `Done in ` (the watcher's timing lines) are dropped.
pub proof fn law_stderr_keeps_all_but_timing(t: Seq<char>, rest: Seq<char>, watch: bool)
    ensures
        !watch ==> keeps_line(t, watch),
        !keeps_line("Done in "@ + rest, true),
        (forall|r: Seq<char>| t != "Done in "@ + r) ==> keeps_line(t, watch),
{
    let d = "Done in "@;
    let s = d + rest;
    assert(s.subrange(0, d.len() as int) =~= d);
    if watch && has_prefix(t, d) {
        assert(t =~= d + t.skip(d.len() as int));
    }
}

impl StderrCollector {
    /// The paragraph a flush logs, if any.
    pub open spec fn pending(self) -> Option<Seq<char>> {
        if trimmed(self.buffer@).len() > 0 {
            Some(trimmed(self.buffer@))
        } else {
            None
        }
    }

    /// An empty collector.
    pub fn new() -> (r: Self)
        ensures
            r.buffer@ == Seq::<char>::empty(),
    {
        StderrCollector { buffer: String::new() }
    }

    fn flush(&mut self) -> (r: Option<String>)
        ensures
            match old(self).pending() {
                Some(p) => r matches Some(s) && s@ == p && final(self).buffer@ == Seq::<char>::empty(),
                None => r is None && *final(self) == *old(self),
            },
    {
        let t = trim_text(self.buffer.as_str());
        if t.as_str().is_empty() {
            None
        } else {
            self.buffer = String::new();
            Some(t)
        }
    }

    /// Takes one line of standard error. A non-blank line is added, trimmed,
    /// to the paragraph (unless dropped); a blank line ends the paragraph,
    /// which is returned to be logged where it holds anything but white space.
    pub fn on_line(&mut self, line: &str, watch: bool) -> (r: Option<String>)
        ensures
            trimmed(line@).len() > 0 ==> r is None && final(self).buffer@ == if keeps_line(
                trimmed(line@),
                watch,
            ) {
                old(self).buffer@ + trimmed(line@) + seq!['\n']
            } else {
                old(self).buffer@
            },
            trimmed(line@).len() == 0 ==> match old(self).pending() {
                Some(p) => r matches Some(s) && s@ == p && final(self).buffer@ == Seq::<char>::empty(),
                None => r is None && *final(self) == *old(self),
            },
            trimmed(line@).len() > 0 && !(watch && has_prefix(trimmed(line@), "Done in "@))
                ==> final(self).buffer@ == old(self).buffer@ + trimmed(line@) + seq!['\n'],
    {
        let t = trim_text(line);
        if !t.as_str().is_empty() {
            if !(watch && starts_with_text(t.as_str(), "Done in ")) {
                let ghost before = self.buffer@;
                self.buffer.append(t.as_str());
                crate::text::push_char(&mut self.buffer, '\n');
                assert(self.buffer@ =~= before + trimmed(line@) + seq!['\n']);
            }
            None
        } else {
            self.flush()
        }
    }

    /// Takes the end of the stream: the paragraph collected so far, where it
    /// holds anything but white space, is returned to be logged.
    pub fn on_end(&mut self) -> (r: Option<String>)
        ensures
            match old(self).pending() {
                Some(p) => r matches Some(s) && s@ == p && final(self).buffer@ == Seq::<char>::empty(),
                None => r is None && *final(self) == *old(self),
            },
    {
        self.flush()
    }
}

} // verus!
