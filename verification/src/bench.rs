//! Benchmark bookkeeping: per-run results and the statistics reported for
//! each runtime.
use vstd::prelude::*;
use crate::json::JsonValue;
use crate::text::texts;

verus! {

/// The longest `std::time::Duration`, in nanoseconds.
pub const MAX_DURATION_NANOS: u128 = 18_446_744_073_709_551_615_999_999_999;

/// One execution of one script by one runtime.
#[derive(Debug, PartialEq)]
pub struct BenchmarkResult {
    pub runtime_name: String,
    pub file_name: String,
    /// How long the execution took.
    pub execution_nanos: u128,
    /// What the script reported, where it succeeded.
    pub target_info: Option<JsonValue>,
    /// Why it failed, where it did.
    pub error: Option<String>,
}

/// The successful results of runtime `name`, in order.
pub open spec fn successful_runs(s: Seq<BenchmarkResult>, name: Seq<char>) -> Seq<BenchmarkResult>
    decreases s.len(),
{
    if s.len() == 0 {
        Seq::empty()
    } else {
        let rest = successful_runs(s.drop_last(), name);
        if s.last().runtime_name@ == name && s.last().error is None {
            rest.push(s.last())
        } else {
            rest
        }
    }
}

/// How many results belong to runtime `name`.
pub open spec fn runs_of(s: Seq<BenchmarkResult>, name: Seq<char>) -> nat
    decreases s.len(),
{
    if s.len() == 0 {
        0
    } else {
        runs_of(s.drop_last(), name) + if s.last().runtime_name@ == name {
            1nat
        } else {
            0nat
        }
    }
}

/// The total time of `s`.
pub open spec fn total_nanos(s: Seq<BenchmarkResult>) -> nat
    decreases s.len(),
{
    if s.len() == 0 {
        0
    } else {
        total_nanos(s.drop_last()) + s.last().execution_nanos as nat
    }
}

/// The shortest time in the non-empty `s`.
pub open spec fn min_nanos(s: Seq<BenchmarkResult>) -> u128
    decreases s.len(),
{
    if s.len() <= 1 {
        s[0].execution_nanos
    } else if s.last().execution_nanos < min_nanos(s.drop_last()) {
        s.last().execution_nanos
    } else {
        min_nanos(s.drop_last())
    }
}

/// The longest time in the non-empty `s`.
pub open spec fn max_nanos(s: Seq<BenchmarkResult>) -> u128
    decreases s.len(),
{
    if s.len() <= 1 {
        s[0].execution_nanos
    } else if s.last().execution_nanos > max_nanos(s.drop_last()) {
        s.last().execution_nanos
    } else {
        max_nanos(s.drop_last())
    }
}

/// The first position of the shortest time (as `Iterator::min_by_key`).
pub open spec fn fastest_index(s: Seq<BenchmarkResult>) -> int
    decreases s.len(),
{
    if s.len() <= 1 {
        0
    } else if s.last().execution_nanos < min_nanos(s.drop_last()) {
        s.len() - 1
    } else {
        fastest_index(s.drop_last())
    }
}

/// The last position of the longest time (as `Iterator::max_by_key`).
pub open spec fn slowest_index(s: Seq<BenchmarkResult>) -> int
    decreases s.len(),
{
    if s.len() <= 1 {
        0
    } else if s.last().execution_nanos >= max_nanos(s.drop_last()) {
        s.len() - 1
    } else {
        slowest_index(s.drop_last())
    }
}

/// The statistics of one runtime over a benchmark.
#[derive(Debug, PartialEq)]
pub struct RuntimeStats {
    pub runtime_name: String,
    pub total_files: usize,
    pub successful_files: usize,
    pub failed_files: usize,
    pub total_nanos: u128,
    pub average_nanos: u128,
    pub min_nanos: u128,
    pub max_nanos: u128,
    pub fastest_file: String,
    pub slowest_file: String,
}

/// The statistics that `stats` must hold for runtime `name` over `results`,
/// with `recorded_total` the measured wall-clock time of the runtime, if any.
pub open spec fn stats_of(
    stats: RuntimeStats,
    results: Seq<BenchmarkResult>,
    name: Seq<char>,
    recorded_total: Option<u128>,
) -> bool {
    let ok = successful_runs(results, name);
    &&& stats.runtime_name@ == name
    &&& stats.total_files == runs_of(results, name)
    &&& stats.successful_files == ok.len()
    &&& stats.failed_files == stats.total_files - stats.successful_files
    &&& ok.len() == 0 ==> {
        &&& stats.total_nanos == 0
        &&& stats.average_nanos == 0
        &&& stats.min_nanos == 0
        &&& stats.max_nanos == 0
        &&& stats.fastest_file@ == "N/A"@
        &&& stats.slowest_file@ == "N/A"@
    }
    &&& ok.len() > 0 ==> {
        &&& stats.total_nanos == match recorded_total {
            Some(t) => t as nat,
            None => total_nanos(ok),
        }
        &&& stats.average_nanos == total_nanos(ok) / ((ok.len() as u32) as nat)
        &&& stats.min_nanos == min_nanos(ok)
        &&& stats.max_nanos == max_nanos(ok)
        &&& stats.fastest_file == ok[fastest_index(ok)].file_name
        &&& stats.slowest_file == ok[slowest_index(ok)].file_name
    }
}

proof fn lemma_successful_runs_step(s: Seq<BenchmarkResult>, name: Seq<char>, i: int)
    requires
        0 <= i < s.len(),
    ensures
        successful_runs(s.take(i + 1), name) == if s[i].runtime_name@ == name && s[i].error is None {
            successful_runs(s.take(i), name).push(s[i])
        } else {
            successful_runs(s.take(i), name)
        },
        runs_of(s.take(i + 1), name) == runs_of(s.take(i), name) + if s[i].runtime_name@ == name {
            1nat
        } else {
            0nat
        },
{
    assert(s.take(i + 1).drop_last() =~= s.take(i));
}

proof fn lemma_push_stats(s: Seq<BenchmarkResult>, x: BenchmarkResult)
    ensures
        total_nanos(s.push(x)) == total_nanos(s) + x.execution_nanos,
        s.len() > 0 ==> min_nanos(s.push(x)) == if x.execution_nanos < min_nanos(s) {
            x.execution_nanos
        } else {
            min_nanos(s)
        },
        s.len() > 0 ==> max_nanos(s.push(x)) == if x.execution_nanos > max_nanos(s) {
            x.execution_nanos
        } else {
            max_nanos(s)
        },
        s.len() > 0 ==> fastest_index(s.push(x)) == if x.execution_nanos < min_nanos(s) {
            s.len() as int
        } else {
            fastest_index(s)
        },
        s.len() > 0 ==> slowest_index(s.push(x)) == if x.execution_nanos >= max_nanos(s) {
            s.len() as int
        } else {
            slowest_index(s)
        },
        s.len() == 0 ==> min_nanos(s.push(x)) == x.execution_nanos && max_nanos(s.push(x))
            == x.execution_nanos && fastest_index(s.push(x)) == 0 && slowest_index(s.push(x)) == 0,
{
    assert(s.push(x).drop_last() =~= s);
}

proof fn lemma_indices_in_range(s: Seq<BenchmarkResult>)
    requires
        s.len() > 0,
    ensures
        0 <= fastest_index(s) < s.len(),
        0 <= slowest_index(s) < s.len(),
        s[fastest_index(s)].execution_nanos == min_nanos(s),
        s[slowest_index(s)].execution_nanos == max_nanos(s),
    decreases s.len(),
{
    if s.len() > 1 {
        lemma_indices_in_range(s.drop_last());
    }
}

proof fn lemma_runs_bounded(s: Seq<BenchmarkResult>, name: Seq<char>)
    ensures
        successful_runs(s, name).len() <= runs_of(s, name) <= s.len(),
    decreases s.len(),
{
    if s.len() > 0 {
        lemma_runs_bounded(s.drop_last(), name);
    }
}

proof fn lemma_prefix_total_bounded(s: Seq<BenchmarkResult>, name: Seq<char>, k: int)
    requires
        0 <= k <= s.len(),
    ensures
        total_nanos(successful_runs(s.take(k), name)) <= total_nanos(successful_runs(s, name)),
    decreases s.len() - k,
{
    if k < s.len() {
        lemma_prefix_total_bounded(s, name, k + 1);
        lemma_successful_runs_step(s, name, k);
        lemma_push_stats(successful_runs(s.take(k), name), s[k]);
    } else {
        assert(s.take(k) =~= s);
    }
}

/// The statistics of runtime `runtime_name` over `results`, or `None` where
/// it has no results. `recorded_total` is its measured wall-clock time, used
/// as its total where given.
pub fn compute_runtime_stats(
    results: &Vec<BenchmarkResult>,
    runtime_name: &str,
    recorded_total: Option<u128>,
) -> (r: Option<RuntimeStats>)
    requires
        total_nanos(successful_runs(results@, runtime_name@)) <= MAX_DURATION_NANOS,
        successful_runs(results@, runtime_name@).len() > 0 ==> (successful_runs(
            results@,
            runtime_name@,
        ).len() as u32) != 0,
    ensures
        match r {
            Some(st) => runs_of(results@, runtime_name@) > 0 && stats_of(
                st,
                results@,
                runtime_name@,
                recorded_total,
            ),
            None => runs_of(results@, runtime_name@) == 0,
        },
{
    let name = runtime_name.to_string();
    let ghost all = results@;
    let mut total: usize = 0;
    let mut ok: usize = 0;
    let mut sum: u128 = 0;
    let mut min: u128 = 0;
    let mut max: u128 = 0;
    let mut fastest: usize = 0;
    let mut slowest: usize = 0;
    let mut i: usize = 0;
    assert(all.take(0) =~= Seq::<BenchmarkResult>::empty());
    while i < results.len()
        invariant
            i <= results.len(),
            all == results@,
            name@ == runtime_name@,
            total_nanos(successful_runs(all, runtime_name@)) <= MAX_DURATION_NANOS,
            total == runs_of(all.take(i as int), runtime_name@),
            ok == successful_runs(all.take(i as int), runtime_name@).len(),
            sum == total_nanos(successful_runs(all.take(i as int), runtime_name@)),
            ok > 0 ==> min == min_nanos(successful_runs(all.take(i as int), runtime_name@)),
            ok > 0 ==> max == max_nanos(successful_runs(all.take(i as int), runtime_name@)),
            ok > 0 ==> fastest < i && all[fastest as int] == successful_runs(
                all.take(i as int),
                runtime_name@,
            )[fastest_index(successful_runs(all.take(i as int), runtime_name@))],
            ok > 0 ==> slowest < i && all[slowest as int] == successful_runs(
                all.take(i as int),
                runtime_name@,
            )[slowest_index(successful_runs(all.take(i as int), runtime_name@))],
        decreases results.len() - i,
    {
        let ghost before = successful_runs(all.take(i as int), runtime_name@);
        proof {
            lemma_successful_runs_step(all, runtime_name@, i as int);
            lemma_push_stats(before, all[i as int]);
            lemma_prefix_total_bounded(all, runtime_name@, i + 1);
            lemma_runs_bounded(all.take(i as int), runtime_name@);
        }
        let r = &results[i];
        if r.runtime_name == name {
            total = total + 1;
            if r.error.is_none() {
                let t = r.execution_nanos;
                sum = sum + t;
                if ok == 0 {
                    min = t;
                    max = t;
                    fastest = i;
                    slowest = i;
                } else {
                    if t < min {
                        min = t;
                        fastest = i;
                    }
                    if t >= max {
                        max = t;
                        slowest = i;
                    }
                }
                ok = ok + 1;
                proof {
                    let after = before.push(all[i as int]);
                    assert(after[after.len() - 1] == all[i as int]);
                    if before.len() > 0 {
                        lemma_indices_in_range(before);
                        assert(after[fastest_index(before)] == before[fastest_index(before)]);
                        assert(after[slowest_index(before)] == before[slowest_index(before)]);
                    }
                }
            }
        }
        i += 1;
    }
    assert(all.take(results.len() as int) =~= all);
    if total == 0 {
        return None;
    }
    if ok == 0 {
        return Some(
            RuntimeStats {
                runtime_name: name,
                total_files: total,
                successful_files: 0,
                failed_files: total,
                total_nanos: 0,
                average_nanos: 0,
                min_nanos: 0,
                max_nanos: 0,
                fastest_file: "N/A".to_string(),
                slowest_file: "N/A".to_string(),
            },
        );
    }
    proof {
        lemma_runs_bounded(all, runtime_name@);
    }
    let divisor = (ok as u32) as u128;
    let average = sum / divisor;
    let total_time = match recorded_total {
        Some(t) => t,
        None => sum,
    };
    Some(
        RuntimeStats {
            runtime_name: name,
            total_files: total,
            successful_files: ok,
            failed_files: total - ok,
            total_nanos: total_time,
            average_nanos: average,
            min_nanos: min,
            max_nanos: max,
            fastest_file: results[fastest].file_name.clone(),
            slowest_file: results[slowest].file_name.clone(),
        },
    )
}

proof fn lemma_total_bounds(s: Seq<BenchmarkResult>)
    requires
        s.len() > 0,
    ensures
        s.len() * min_nanos(s) <= total_nanos(s),
        total_nanos(s) <= s.len() * max_nanos(s),
    decreases s.len(),
{
    let n = s.len();
    let lo = min_nanos(s);
    let hi = max_nanos(s);
    let t = total_nanos(s);
    if s.len() > 1 {
        let p = s.drop_last();
        lemma_total_bounds(p);
        let m = p.len();
        let plo = min_nanos(p);
        let phi = max_nanos(p);
        let pt = total_nanos(p);
        let x = s.last().execution_nanos;
        assert(n * lo <= t && t <= n * hi) by (nonlinear_arith)
            requires
                m * plo <= pt,
                pt <= m * phi,
                n == m + 1,
                t == pt + x,
                lo == if x < plo { x } else { plo },
                hi == if x > phi { x } else { phi },
        ;
    } else {
        assert(total_nanos(s.drop_last()) == 0);
        assert(n * lo <= t && t <= n * hi) by (nonlinear_arith)
            requires
                n == 1,
                lo == t,
                hi == t,
        ;
    }
}

proof fn lemma_extremes(s: Seq<BenchmarkResult>)
    requires
        s.len() > 0,
    ensures
        forall|j: int| 0 <= j < s.len() ==> min_nanos(s) <= #[trigger] s[j].execution_nanos <= max_nanos(s),
        forall|j: int| 0 <= j < fastest_index(s) ==> #[trigger] s[j].execution_nanos > min_nanos(s),
        forall|j: int| slowest_index(s) < j < s.len() ==> #[trigger] s[j].execution_nanos < max_nanos(s),
    decreases s.len(),
{
    lemma_indices_in_range(s);
    if s.len() > 1 {
        let p = s.drop_last();
        lemma_extremes(p);
        lemma_indices_in_range(p);
        assert forall|j: int| 0 <= j < s.len() implies min_nanos(s) <= #[trigger] s[j].execution_nanos
            <= max_nanos(s) by {
            if j < s.len() - 1 {
                assert(s[j] == p[j]);
            }
        }
        assert forall|j: int| 0 <= j < fastest_index(s) implies #[trigger] s[j].execution_nanos
            > min_nanos(s) by {
            assert(s[j] == p[j]);
        }
        assert forall|j: int| slowest_index(s) < j < s.len() implies #[trigger] s[j].execution_nanos
            < max_nanos(s) by {
            if j < s.len() - 1 {
                assert(s[j] == p[j]);
            }
        }
    }
}

/// The statistics hang together: every file is a success or a failure, the
/// average lies between the shortest and the longest time, the fastest file
/// is the first with the shortest time and the slowest the last with the
/// longest.
pub proof fn law_stats_consistent(
    st: RuntimeStats,
    results: Seq<BenchmarkResult>,
    name: Seq<char>,
    recorded_total: Option<u128>,
)
    requires
        stats_of(st, results, name, recorded_total),
        successful_runs(results, name).len() <= u32::MAX,
    ensures
        st.successful_files + st.failed_files == st.total_files,
        st.successful_files > 0 ==> st.min_nanos <= st.average_nanos <= st.max_nanos,
        st.successful_files > 0 ==> {
            let ok = successful_runs(results, name);
            let k = fastest_index(ok);
            let m = slowest_index(ok);
            &&& 0 <= k < ok.len() && ok[k].file_name == st.fastest_file
            &&& ok[k].execution_nanos == st.min_nanos
            &&& forall|j: int| 0 <= j < k ==> #[trigger] ok[j].execution_nanos > st.min_nanos
            &&& 0 <= m < ok.len() && ok[m].file_name == st.slowest_file
            &&& ok[m].execution_nanos == st.max_nanos
            &&& forall|j: int| m < j < ok.len() ==> #[trigger] ok[j].execution_nanos < st.max_nanos
        },
{
    let ok = successful_runs(results, name);
    lemma_runs_bounded(results, name);
    if ok.len() > 0 {
        lemma_extremes(ok);
        lemma_total_bounds(ok);
        lemma_indices_in_range(ok);
        let n = ok.len();
        assert((n as u32) as nat == n);
        let t = total_nanos(ok);
        let lo = min_nanos(ok);
        let hi = max_nanos(ok);
        assert(lo <= t / n <= hi) by (nonlinear_arith)
            requires
                n > 0,
                n * lo <= t <= n * hi,
        ;
    }
}

/// The names of the files that ran successfully at least once.
pub open spec fn successful_file_names(s: Seq<BenchmarkResult>) -> Set<Seq<char>> {
    Set::new(|n: Seq<char>| exists|i: int| 0 <= i < s.len() && s[i].error is None && s[i].file_name@ == n)
}

fn holds_text(names: &Vec<String>, n: &String) -> (r: bool)
    ensures
        r == texts(names@).contains(n@),
{
    let mut i: usize = 0;
    while i < names.len()
        invariant
            i <= names.len(),
            forall|k: int| 0 <= k < i ==> names@[k]@ != n@,
        decreases names.len() - i,
    {
        if names[i] == *n {
            assert(texts(names@)[i as int] == n@);
            return true;
        }
        i += 1;
    }
    assert forall|k: int| 0 <= k < texts(names@).len() implies texts(names@)[k] != n@ by {
        assert(texts(names@)[k] == names@[k]@);
    }
    false
}

/// How many different files ran successfully at least once.
pub fn count_successful_files(results: &Vec<BenchmarkResult>) -> (r: usize)
    ensures
        r == successful_file_names(results@).len(),
{
    let ghost all = results@;
    let mut names: Vec<String> = Vec::new();
    let mut i: usize = 0;
    assert(texts(names@).to_set() =~= successful_file_names(all.take(0)));
    while i < results.len()
        invariant
            i <= results.len(),
            all == results@,
            names@.len() <= i,
            texts(names@).no_duplicates(),
            texts(names@).to_set() == successful_file_names(all.take(i as int)),
        decreases results.len() - i,
    {
        let ghost prev = texts(names@);
        if results[i].error.is_none() && !holds_text(&names, &results[i].file_name) {
            names.push(results[i].file_name.clone());
            assert(texts(names@) =~= prev.push(all[i as int].file_name@));
        }
        proof {
            let t = texts(names@);
            let w = all.take(i + 1);
            let u = all.take(i as int);
            assert forall|n: Seq<char>| t.to_set().contains(n) == successful_file_names(w).contains(n) by {
                if successful_file_names(w).contains(n) {
                    let k = choose|k: int|
                        0 <= k < w.len() && (#[trigger] w[k]).error is None && w[k].file_name@ == n;
                    if k < i {
                        assert(u[k] == w[k]);
                        assert(successful_file_names(u).contains(n));
                        assert(prev.to_set().contains(n));
                        assert(prev.contains(n));
                        let m = choose|m: int| 0 <= m < prev.len() && #[trigger] prev[m] == n;
                        assert(t[m] == n);
                    } else {
                        assert(all[i as int].file_name@ == n);
                        if prev.contains(n) {
                            let m = choose|m: int| 0 <= m < prev.len() && #[trigger] prev[m] == n;
                            assert(t[m] == n);
                        } else {
                            assert(t[t.len() - 1] == n);
                        }
                    }
                }
                if t.to_set().contains(n) {
                    assert(t.contains(n));
                    let m = choose|m: int| 0 <= m < t.len() && #[trigger] t[m] == n;
                    if m < prev.len() {
                        assert(prev[m] == n);
                        assert(prev.to_set().contains(n));
                        let k = choose|k: int|
                            0 <= k < u.len() && (#[trigger] u[k]).error is None && u[k].file_name@ == n;
                        assert(w[k] == u[k]);
                    } else {
                        assert(w[i as int] == all[i as int]);
                    }
                }
            }
            assert(t.to_set() =~= successful_file_names(all.take(i + 1)));
        }
        i += 1;
    }
    assert(all.take(results.len() as int) =~= all);
    proof {
        texts(names@).unique_seq_to_set();
    }
    names.len()
}

/// The script runtimes that can be benchmarked.
#[derive(PartialEq, Eq, Structural, Clone, Copy, Debug)]
pub enum Runtime {
    V8,
}

/// The error for a runtime name that is not supported.
pub open spec fn unknown_runtime_message(name: Seq<char>) -> Seq<char> {
    "Unknown runtime: "@ + name + ". Supported runtimes: 'v8'"@
}

/// The runtime named `name`, or the error that names the supported ones.
pub fn select_runtime(name: &str) -> (r: Result<Runtime, String>)
    ensures
        name@ == "v8"@ ==> r == Ok::<Runtime, String>(Runtime::V8),
        name@ != "v8"@ ==> (r matches Err(m) && m@ == unknown_runtime_message(name@)),
{
    let v8 = "v8".to_string();
    if name.to_string() == v8 {
        Ok(Runtime::V8)
    } else {
        let mut m = "Unknown runtime: ".to_string();
        m.append(name);
        m.append(". Supported runtimes: 'v8'");
        Err(m)
    }
}

/// The number of runs in a directory benchmark: every file, on every
/// runtime, for every iteration.
pub fn total_tests(files: usize, runtimes: usize, iterations: usize) -> (r: usize)
    requires
        files * runtimes <= usize::MAX,
        files * runtimes * iterations <= usize::MAX,
    ensures
        r == files * runtimes * iterations,
{
    files * runtimes * iterations
}

/// The medal shown beside the runtime ranked `rank` (from 0, fastest first).
pub open spec fn medal_of(rank: usize) -> Seq<char> {
    if rank == 0 {
        "🥇"@
    } else if rank == 1 {
        "🥈"@
    } else if rank == 2 {
        "🥉"@
    } else {
        "  "@
    }
}

/// The medal shown beside the runtime ranked `rank`.
pub fn medal(rank: usize) -> (r: &'static str)
    ensures
        r@ == medal_of(rank),
{
    if rank == 0 {
        "🥇"
    } else if rank == 1 {
        "🥈"
    } else if rank == 2 {
        "🥉"
    } else {
        "  "
    }
}

/// The message of a run whose script file could not be read.
pub open spec fn read_failure_message(path: Seq<char>) -> Seq<char> {
    "Failed to read file: "@ + path
}

/// The result recorded for an iteration whose script file could not be read
/// (or was empty): no time, no report, and the error naming the file.
pub fn failed_read_result(runtime_name: String, file_name: String, file_path: &str) -> (r:
    BenchmarkResult)
    ensures
        r.runtime_name == runtime_name,
        r.file_name == file_name,
        r.execution_nanos == 0,
        r.target_info is None,
        r.error matches Some(e) && e@ == read_failure_message(file_path@),
{
    let mut m = "Failed to read file: ".to_string();
    m.append(file_path);
    BenchmarkResult {
        runtime_name,
        file_name,
        execution_nanos: 0,
        target_info: None,
        error: Some(m),
    }
}

/// The report of the first result that carries one (shown after a
/// single-file benchmark).
pub fn first_target_info(results: &Vec<BenchmarkResult>) -> (r: Option<&JsonValue>)
    ensures
        match r {
            Some(v) => exists|i: int|
                0 <= i < results@.len() && (#[trigger] results@[i]).target_info == Some(*v)
                    && forall|j: int| 0 <= j < i ==> (#[trigger] results@[j]).target_info is None,
            None => forall|i: int| 0 <= i < results@.len() ==> (#[trigger] results@[i]).target_info is None,
        },
{
    let mut i: usize = 0;
    while i < results.len()
        invariant
            i <= results.len(),
            forall|j: int| 0 <= j < i ==> (#[trigger] results@[j]).target_info is None,
        decreases results.len() - i,
    {
        match &results[i].target_info {
            Some(v) => {
                return Some(v);
            },
            None => {},
        }
        i += 1;
    }
    None
}

/// The names of the runtimes in `results`, each once.
pub fn runtime_names(results: &Vec<BenchmarkResult>) -> (r: Vec<String>)
    ensures
        texts(r@).no_duplicates(),
        forall|n: Seq<char>|
            texts(r@).contains(n) <==> exists|i: int|
                0 <= i < results@.len() && (#[trigger] results@[i]).runtime_name@ == n,
{
    let mut names: Vec<String> = Vec::new();
    let mut i: usize = 0;
    while i < results.len()
        invariant
            i <= results.len(),
            texts(names@).no_duplicates(),
            forall|n: Seq<char>|
                texts(names@).contains(n) <==> exists|k: int|
                    0 <= k < i && (#[trigger] results@[k]).runtime_name@ == n,
        decreases results.len() - i,
    {
        let ghost prev = texts(names@);
        if !holds_text(&names, &results[i].runtime_name) {
            names.push(results[i].runtime_name.clone());
            assert(texts(names@) =~= prev.push(results@[i as int].runtime_name@));
        }
        proof {
            let t = texts(names@);
            assert forall|n: Seq<char>| t.contains(n) <==> exists|k: int|
                0 <= k < i + 1 && (#[trigger] results@[k]).runtime_name@ == n by {
                if t.contains(n) {
                    let m = choose|m: int| 0 <= m < t.len() && #[trigger] t[m] == n;
                    if m < prev.len() {
                        assert(prev[m] == n);
                        assert(prev.contains(n));
                    } else {
                        assert(results@[i as int].runtime_name@ == n);
                    }
                }
                if exists|k: int| 0 <= k < i + 1 && (#[trigger] results@[k]).runtime_name@ == n {
                    let k = choose|k: int| 0 <= k < i + 1 && (#[trigger] results@[k]).runtime_name@ == n;
                    if k < i {
                        assert(prev.contains(n));
                        let m = choose|m: int| 0 <= m < prev.len() && #[trigger] prev[m] == n;
                        assert(t[m] == n);
                    } else if prev.contains(n) {
                        let m = choose|m: int| 0 <= m < prev.len() && #[trigger] prev[m] == n;
                        assert(t[m] == n);
                    } else {
                        assert(t[t.len() - 1] == n);
                    }
                }
            }
        }
        i += 1;
    }
    names
}

/// Statistics in non-decreasing order of average time.
pub open spec fn ranked_by_average(s: Seq<RuntimeStats>) -> bool {
    forall|i: int, j: int|
        0 <= i < j < s.len() ==> (#[trigger] s[i]).average_nanos <= (#[trigger] s[j]).average_nanos
}

/// The runtimes ranked by average time, fastest first.
pub fn rank_by_average(stats: Vec<RuntimeStats>) -> (r: Vec<RuntimeStats>)
    ensures
        r@.to_multiset() == stats@.to_multiset(),
        ranked_by_average(r@),
{
    broadcast use vstd::seq_lib::group_to_multiset_ensures;

    let mut rest = stats;
    let ghost all = rest@;
    let n = rest.len();
    let mut out: Vec<RuntimeStats> = Vec::new();
    let mut i: usize = 0;
    assert(all.take(0) =~= out@);
    while i < n
        invariant
            i <= n,
            n == all.len(),
            rest@ == all.skip(i as int),
            out@.to_multiset() == all.take(i as int).to_multiset(),
            ranked_by_average(out@),
        decreases n - i,
    {
        assert(rest@[0] == all[i as int]);
        let x = rest.remove(0);
        assert(rest@ =~= all.skip(i + 1));
        let mut pos: usize = 0;
        while pos < out.len() && out[pos].average_nanos <= x.average_nanos
            invariant
                pos <= out.len(),
                forall|k: int| 0 <= k < pos ==> (#[trigger] out@[k]).average_nanos <= x.average_nanos,
            decreases out.len() - pos,
        {
            pos += 1;
        }
        let ghost before = out@;
        out.insert(pos, x);
        proof {
            assert(all.take(i + 1) =~= all.take(i as int).push(all[i as int]));
            vstd::seq_lib::to_multiset_insert(before, pos as int, all[i as int]);
            all.take(i as int).to_multiset_ensures();
            assert forall|a: int, b: int| 0 <= a < b < out@.len() implies (#[trigger] out@[a]).average_nanos
                <= (#[trigger] out@[b]).average_nanos by {
                if b < pos {
                } else if a < pos && b == pos {
                } else if a < pos {
                    assert(out@[b] == before[b - 1]);
                } else if a == pos {
                    assert(out@[b] == before[b - 1]);
                } else {
                    assert(out@[a] == before[a - 1]);
                    assert(out@[b] == before[b - 1]);
                }
            }
        }
        i += 1;
    }
    assert(all.take(n as int) =~= all);
    out
}

} // verus!
