//! Settings of the V8 script runtime, and the repository index built from
//! what the scripts report.
use vstd::prelude::*;
use crate::json::JsonValue;
use crate::text::{replace_all, replace_str};

verus! {

/// The runtime's settings. Each is set once: the first configuration is kept,
/// and the worker pool, once sized, keeps its size.
#[derive(Clone, Debug, PartialEq)]
pub struct V8Settings {
    thread_config: Option<(usize, usize)>,
    debug_mode: Option<bool>,
    pool_size: Option<usize>,
}

/// A setting after an attempt to set it to `v`: the first value set stays.
pub open spec fn set_once<T>(current: Option<T>, v: T) -> Option<T> {
    match current {
        Some(x) => Some(x),
        None => Some(v),
    }
}

impl V8Settings {
    /// The requested thread count and task count, where configured.
    pub closed spec fn thread_config_view(self) -> Option<(usize, usize)> {
        self.thread_config
    }

    /// Whether debug logging was configured on or off.
    pub closed spec fn debug_view(self) -> Option<bool> {
        self.debug_mode
    }

    /// The size the worker pool was created with, once it was.
    pub closed spec fn pool_size_view(self) -> Option<usize> {
        self.pool_size
    }

    /// The thread and task counts in effect: as configured, else 4 threads
    /// for 1 task.
    pub open spec fn effective_thread_config(self) -> (usize, usize) {
        match self.thread_config_view() {
            Some(c) => c,
            None => (4, 1),
        }
    }

    /// Nothing configured, no pool yet.
    pub fn new() -> (r: Self)
        ensures
            r.thread_config_view() is None,
            r.debug_view() is None,
            r.pool_size_view() is None,
    {
        V8Settings { thread_config: None, debug_mode: None, pool_size: None }
    }

    /// The thread and task counts in effect.
    pub fn thread_config(&self) -> (r: (usize, usize))
        ensures
            r == self.effective_thread_config(),
    {
        match self.thread_config {
            Some(c) => c,
            None => (4, 1),
        }
    }

    /// Whether debug logging is on (off unless configured).
    pub fn debug_enabled(&self) -> (r: bool)
        ensures
            r == match self.debug_view() {
                Some(b) => b,
                None => false,
            },
    {
        match self.debug_mode {
            Some(b) => b,
            None => false,
        }
    }

    /// The worker pool's size: fixed at the first call, from `requested_threads`
    /// and `task_count`; later calls return it whatever they ask for.
    pub fn pool_size_with(&mut self, requested_threads: usize, task_count: usize) -> (r: usize)
        ensures
            r == match old(self).pool_size_view() {
                Some(n) => n,
                None => pool_size_for(requested_threads, task_count),
            },
            final(self).pool_size_view() == Some(r),
            final(self).thread_config_view() == old(self).thread_config_view(),
            final(self).debug_view() == old(self).debug_view(),
    {
        match self.pool_size {
            Some(n) => n,
            None => {
                let n = thread_pool_size(requested_threads, task_count);
                self.pool_size = Some(n);
                n
            },
        }
    }

    /// The worker pool's size under the configuration in effect (fixed at the
    /// first call).
    pub fn pool_size(&mut self) -> (r: usize)
        ensures
            r == match old(self).pool_size_view() {
                Some(n) => n,
                None => pool_size_for(
                    old(self).effective_thread_config().0,
                    old(self).effective_thread_config().1,
                ),
            },
            final(self).pool_size_view() == Some(r),
            final(self).thread_config_view() == old(self).thread_config_view(),
            final(self).debug_view() == old(self).debug_view(),
    {
        let (requested, tasks) = self.thread_config();
        self.pool_size_with(requested, tasks)
    }
}

/// Sets the requested thread count and the task count, unless they were set
/// before.
pub fn configure_thread_pool(settings: &mut V8Settings, requested_threads: usize, task_count: usize)
    ensures
        final(settings).thread_config_view() == set_once(
            old(settings).thread_config_view(),
            (requested_threads, task_count),
        ),
        final(settings).debug_view() == old(settings).debug_view(),
        final(settings).pool_size_view() == old(settings).pool_size_view(),
{
    if settings.thread_config.is_none() {
        settings.thread_config = Some((requested_threads, task_count));
    }
}

/// Sets debug logging on or off, unless it was set before.
pub fn configure_debug_mode(settings: &mut V8Settings, debug: bool)
    ensures
        final(settings).debug_view() == set_once(old(settings).debug_view(), debug),
        final(settings).thread_config_view() == old(settings).thread_config_view(),
        final(settings).pool_size_view() == old(settings).pool_size_view(),
{
    if settings.debug_mode.is_none() {
        settings.debug_mode = Some(debug);
    }
}

/// Workers for `task_count` tasks: as many as requested but no more than
/// the tasks, and at least one.
pub open spec fn pool_size_for(requested_threads: usize, task_count: usize) -> usize {
    let m = if requested_threads < task_count {
        requested_threads
    } else {
        task_count
    };
    if m < 1 {
        1
    } else {
        m
    }
}

/// V8's background threads for a pool of `pool_size` workers: half the pool
/// (at most 12) for pools above 12, else the pool size but at least 2.
pub open spec fn background_threads_for(pool_size: usize) -> usize {
    if pool_size > 12 {
        if pool_size / 2 < 12 {
            (pool_size / 2) as usize
        } else {
            12
        }
    } else if pool_size < 2 {
        2
    } else {
        pool_size
    }
}

/// The number of worker threads for `task_count` tasks.
pub fn thread_pool_size(requested_threads: usize, task_count: usize) -> (r: usize)
    ensures
        r == pool_size_for(requested_threads, task_count),
{
    let m = if requested_threads < task_count {
        requested_threads
    } else {
        task_count
    };
    if m < 1 {
        1
    } else {
        m
    }
}

/// The number of V8 platform background threads for a pool of `pool_size`.
pub fn v8_background_threads(pool_size: usize) -> (r: usize)
    ensures
        r == background_threads_for(pool_size),
{
    if pool_size > 12 {
        let half = pool_size / 2;
        if half < 12 {
            half
        } else {
            12
        }
    } else if pool_size < 2 {
        2
    } else {
        pool_size
    }
}

/// The first configuration wins: configuring again changes nothing.
pub proof fn law_configuration_set_once(
    current: Option<(usize, usize)>,
    first: (usize, usize),
    second: (usize, usize),
)
    ensures
        set_once(set_once(current, first), second) == set_once(current, first),
        current is None ==> set_once(set_once(current, first), second) == Some(first),
{
}

/// A pool has at least one worker and no more than were requested (or one),
/// nor more than there are tasks (or one); V8 gets between 2 and 12
/// background threads.
pub proof fn law_thread_counts_bounded(requested_threads: usize, task_count: usize)
    ensures
        1 <= pool_size_for(requested_threads, task_count),
        requested_threads >= 1 ==> pool_size_for(requested_threads, task_count) <= requested_threads,
        task_count >= 1 ==> pool_size_for(requested_threads, task_count) <= task_count,
        2 <= background_threads_for(pool_size_for(requested_threads, task_count)) <= 12,
{
}

/// The pool has as many workers as the smaller of the requested threads
/// and the tasks, and one where either is zero.
pub proof fn law_pool_size_is_smaller_count(requested_threads: usize, task_count: usize)
    ensures
        requested_threads >= 1 && task_count >= 1 ==> {
            let n = pool_size_for(requested_threads, task_count);
            &&& n <= requested_threads
            &&& n <= task_count
            &&& (n == requested_threads || n == task_count)
        },
        requested_threads == 0 || task_count == 0 ==> pool_size_for(requested_threads, task_count)
            == 1,
{
}

/// V8 gets as many background threads as the pool has workers for pools of
/// 2 to 12, two for smaller pools, and for larger ones half the pool
/// (rounded down) but no more than 12.
pub proof fn law_background_threads(pool_size: usize)
    ensures
        2 <= pool_size <= 12 ==> background_threads_for(pool_size) == pool_size,
        pool_size < 2 ==> background_threads_for(pool_size) == 2,
        pool_size > 12 ==> {
            let b = background_threads_for(pool_size);
            &&& b <= 12
            &&& 2 * b <= pool_size
            &&& (b == 12 || pool_size <= 2 * b + 1)
        },
{
}

/// The embedded JavaScript that every script runs with.
pub struct RuntimeScripts<'a> {
    /// The emulator module (required).
    pub emulator: &'a str,
    /// The target processor script (optional to the engine).
    pub target_processor: &'a str,
}

/// The emulator code: always available.
pub fn get_emulator_code<'a>(scripts: &RuntimeScripts<'a>) -> (r: Option<&'a str>)
    ensures
        r == Some(scripts.emulator),
{
    Some(scripts.emulator)
}

/// The target processor code: always available.
pub fn get_target_processor_code<'a>(scripts: &RuntimeScripts<'a>) -> (r: Option<&'a str>)
    ensures
        r == Some(scripts.target_processor),
{
    Some(scripts.target_processor)
}

/// The name under which a built file is published: the `name` the script
/// reported, with `.mana`; else the file's own name with `.js` replaced by `.mana`.
pub open spec fn published_name(file_name: Seq<char>, result: JsonValue) -> Seq<char> {
    match result.str_member("name"@) {
        Some(n) => n@ + ".mana"@,
        None => replace_all(file_name, ".js"@, ".mana"@),
    }
}

/// The name under which the built file `file_name` is published.
pub fn target_file_name(file_name: &str, result: &JsonValue) -> (r: String)
    ensures
        r@ == published_name(file_name@, *result),
{
    proof {
        reveal_strlit(".js");
    }
    match result.get_str("name") {
        Some(n) => {
            let mut s = n;
            s.append(".mana");
            s
        },
        None => replace_str(file_name, ".js", ".mana"),
    }
}

/// The reports of the files that were processed, in file order.
pub open spec fn successes(outcomes: Seq<Option<JsonValue>>) -> Seq<JsonValue>
    decreases outcomes.len(),
{
    if outcomes.len() == 0 {
        Seq::empty()
    } else {
        let rest = successes(outcomes.drop_last());
        match outcomes.last() {
            Some(v) => rest.push(v),
            None => rest,
        }
    }
}

/// `v` is the repository index: `repositoryName` and `thumbnail` where
/// known, in that order, then `sources`, the reports of the files that
/// were processed, in file order.
pub open spec fn is_sources_index(
    v: JsonValue,
    repository_name: Option<String>,
    thumbnail: Option<String>,
    outcomes: Seq<Option<JsonValue>>,
) -> bool {
    let k: int = (if repository_name is Some {
        1int
    } else {
        0int
    }) + (if thumbnail is Some {
        1int
    } else {
        0int
    });
    match v {
        JsonValue::Object(e) => {
            &&& e@.len() == k + 1
            &&& repository_name matches Some(n) ==> e@[0].0@ == "repositoryName"@ && e@[0].1
                == JsonValue::Str(n)
            &&& thumbnail matches Some(t) ==> e@[k - 1].0@ == "thumbnail"@ && e@[k - 1].1
                == JsonValue::Str(t)
            &&& e@[k].0@ == "sources"@
            &&& e@[k].1 matches JsonValue::Array(a) && a@ == successes(outcomes)
        },
        _ => false,
    }
}

/// What the bulk build answers before it runs any file: with no files it
/// answers an empty object and writes nothing; with files it goes on
/// (`None`).
pub fn bulk_build_skipped(file_count: usize) -> (r: Option<JsonValue>)
    ensures
        file_count == 0 <==> r is Some,
        r matches Some(v) ==> (v matches JsonValue::Object(e) && e@.len() == 0),
{
    if file_count == 0 {
        Some(JsonValue::Object(Vec::new()))
    } else {
        None
    }
}

/// Builds the repository index from the metadata and, for each file in
/// order, the script's report where it was processed.
pub fn build_sources_index(
    repository_name: Option<String>,
    thumbnail: Option<String>,
    outcomes: Vec<Option<JsonValue>>,
) -> (r: JsonValue)
    ensures
        is_sources_index(r, repository_name, thumbnail, outcomes@),
{
    let mut sources: Vec<JsonValue> = Vec::new();
    let mut rest = outcomes;
    let ghost all = rest@;
    let mut i: usize = 0;
    let n = rest.len();
    while i < n
        invariant
            i <= n,
            n == all.len(),
            rest@ == all.skip(i as int),
            sources@ == successes(all.take(i as int)),
        decreases n - i,
    {
        assert(all.take(i + 1).drop_last() =~= all.take(i as int));
        assert(rest@[0] == all[i as int]);
        let o = rest.remove(0);
        assert(rest@ =~= all.skip(i + 1));
        match o {
            Some(v) => sources.push(v),
            None => {},
        }
        i += 1;
    }
    assert(all.take(n as int) =~= all);
    let mut entries: Vec<(String, JsonValue)> = Vec::new();
    if let Some(name) = repository_name.clone() {
        entries.push(("repositoryName".to_string(), JsonValue::Str(name)));
    }
    if let Some(t) = thumbnail.clone() {
        entries.push(("thumbnail".to_string(), JsonValue::Str(t)));
    }
    entries.push(("sources".to_string(), JsonValue::Array(sources)));
    JsonValue::Object(entries)
}

} // verus!
