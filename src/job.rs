//! The jobs a worker receives and the results it sends back.
use vstd::prelude::*;
use crate::isolate::{RunStats, RunStatsView, RunStatus};

verus! {

#[derive(Clone, Debug)]
pub struct JudgementJob {
    pub source_text: String,
    pub test_count: i32,
    /// Input file name of each test, with a `%0<n>d` placeholder for its
    /// 1-based index, relative to the data directory.
    pub test_pattern: String,
    pub checker_language: String,
    /// The checker's source, relative to the data directory.
    pub checker_source_path: String,
}

#[derive(Clone, Debug)]
pub struct RunCachedJob {
    /// The program's source, relative to the data directory.
    pub source_path: String,
    pub arguments: Vec<String>,
    /// Host path of the standard input, under `./data/`.
    pub stdin_path: Option<String>,
    /// Where to keep the standard output, relative to the data directory.
    pub stdout_path: Option<String>,
}

#[derive(Clone, Debug)]
pub enum JobKind {
    Judgement(JudgementJob),
    RunCached(RunCachedJob),
}

#[derive(Clone, Debug)]
pub struct Job {
    pub uuid: String,
    pub language: String,
    pub time_limit_ms: i32,
    pub memory_limit_kib: i32,
    /// `None` for a variant this side does not know.
    pub which: Option<JobKind>,
}

#[derive(Clone, Copy, Debug, PartialEq, Eq, Structural)]
pub enum Verdict {
    Accepted,
    WrongAnswer,
    CompilationError,
    TimeLimitExceeded,
    MemoryLimitExceeded,
    RuntimeError,
}

#[derive(Clone, Copy, Debug, PartialEq, Eq, Structural)]
pub enum RunResult {
    Success,
    CompilationError,
    TimeLimitExceeded,
    MemoryLimitExceeded,
    RuntimeError,
}

#[derive(Clone, Copy, Debug, PartialEq, Eq, Structural)]
pub enum ResultCode {
    Success,
    /// The program's or the checker's language is unknown.
    InvalidLanguage,
}

#[derive(Clone, Debug)]
pub struct JudgementResult {
    pub verdict: Verdict,
    pub failed_test: i32,
    pub exit_code: i32,
    pub exit_signal: Option<i32>,
    pub time_ms: i32,
    pub time_wall_ms: i32,
    pub memory_kib: i32,
    pub error_output: String,
    pub judge_start_instant: String,
    pub judge_end_instant: String,
}

#[derive(Clone, Debug)]
pub struct RunCachedResult {
    pub result: RunResult,
    pub exit_code: i32,
    pub exit_signal: Option<i32>,
    pub time_ms: i32,
    pub time_wall_ms: i32,
    pub memory_kib: i32,
    pub error_output: String,
}

#[derive(Clone, Debug)]
pub enum ResultPayload {
    Judgement(JudgementResult),
    RunCached(RunCachedResult),
}

#[derive(Clone, Debug)]
pub struct JobResult {
    pub uuid: String,
    pub code: ResultCode,
    pub which: Option<ResultPayload>,
}

/// A language as a worker advertises it.
#[derive(Clone, Debug)]
pub struct Language {
    pub key: String,
    pub name: String,
    pub order: i32,
}

/// Exit code reported when the sandbox gave none.
pub const MISSING_EXIT_CODE: i32 = 42;

/// The verdict of a judgement from the status of the last program run and
/// the failed test (0 when none failed).
pub open spec fn verdict_spec(status: RunStatus, failed_test: i32) -> Verdict {
    match status {
        RunStatus::Success => if failed_test == 0 { Verdict::Accepted } else { Verdict::WrongAnswer },
        RunStatus::TimeLimitExceeded => Verdict::TimeLimitExceeded,
        RunStatus::MemoryLimitExceeded => Verdict::MemoryLimitExceeded,
        RunStatus::RuntimeError => Verdict::RuntimeError,
        RunStatus::Signal => Verdict::RuntimeError,
        RunStatus::FailedToStart => Verdict::RuntimeError,
    }
}

/// The outcome class of a one-shot run from its status.
pub open spec fn run_result_spec(status: RunStatus) -> RunResult {
    match status {
        RunStatus::Success => RunResult::Success,
        RunStatus::TimeLimitExceeded => RunResult::TimeLimitExceeded,
        RunStatus::MemoryLimitExceeded => RunResult::MemoryLimitExceeded,
        _ => RunResult::RuntimeError,
    }
}

pub fn verdict(status: RunStatus, failed_test: i32) -> (r: Verdict)
    ensures
        r == verdict_spec(status, failed_test),
{
    match status {
        RunStatus::Success => if failed_test == 0 { Verdict::Accepted } else { Verdict::WrongAnswer },
        RunStatus::TimeLimitExceeded => Verdict::TimeLimitExceeded,
        RunStatus::MemoryLimitExceeded => Verdict::MemoryLimitExceeded,
        RunStatus::RuntimeError => Verdict::RuntimeError,
        RunStatus::Signal => Verdict::RuntimeError,
        RunStatus::FailedToStart => Verdict::RuntimeError,
    }
}

pub fn run_result(status: RunStatus) -> (r: RunResult)
    ensures
        r == run_result_spec(status),
{
    match status {
        RunStatus::Success => RunResult::Success,
        RunStatus::TimeLimitExceeded => RunResult::TimeLimitExceeded,
        RunStatus::MemoryLimitExceeded => RunResult::MemoryLimitExceeded,
        _ => RunResult::RuntimeError,
    }
}

/// Every run status and failed test give exactly one verdict, and it is
/// `Accepted` exactly when the last run ended normally and no test failed.
pub proof fn lemma_verdict_total(status: RunStatus, failed_test: i32)
    requires
        failed_test >= 0,
    ensures
        (verdict_spec(status, failed_test) == Verdict::Accepted) <==> (status == RunStatus::Success
            && failed_test == 0),
        verdict_spec(status, failed_test) == Verdict::WrongAnswer <==> (status == RunStatus::Success
            && failed_test > 0),
        verdict_spec(status, failed_test) == Verdict::TimeLimitExceeded <==> status
            == RunStatus::TimeLimitExceeded,
        verdict_spec(status, failed_test) == Verdict::MemoryLimitExceeded <==> status
            == RunStatus::MemoryLimitExceeded,
        verdict_spec(status, failed_test) == Verdict::RuntimeError <==> (status == RunStatus::RuntimeError
            || status == RunStatus::Signal || status == RunStatus::FailedToStart),
        verdict_spec(status, failed_test) != Verdict::CompilationError,
{
}

/// Whether a run reported everything a result must carry.
pub open spec fn has_metrics(s: RunStatsView) -> bool {
    s.time_ms is Some && s.time_wall_ms is Some && s.memory_kib is Some
}

/// The exit code to report for a run.
pub open spec fn reported_exit_code(s: RunStatsView) -> i32 {
    match s.exit_code {
        Some(c) => c,
        None => MISSING_EXIT_CODE,
    }
}

/// The result of a failed compilation with the compiler's standard error.
pub open spec fn compile_error_matches(r: RunCachedResult, s: RunStatsView, error_output: Seq<char>) -> bool {
    &&& r.result == RunResult::CompilationError
    &&& r.exit_code == reported_exit_code(s)
    &&& r.exit_signal == s.exit_signal
    &&& Some(r.time_ms) == s.time_ms
    &&& Some(r.time_wall_ms) == s.time_wall_ms
    &&& Some(r.memory_kib) == s.memory_kib
    &&& r.error_output@ == error_output
}

/// The payload for a failed compilation; `None` when the run's metrics are
/// missing.
pub fn compile_error_result(stats: &RunStats, error_output: &str) -> (r: Option<RunCachedResult>)
    ensures
        r is Some <==> has_metrics(stats@),
        r is Some ==> compile_error_matches(r->0, stats@, error_output@),
{
    match (stats.time_ms, stats.time_wall_ms, stats.memory_kib) {
        (Some(t), Some(w), Some(m)) => Some(RunCachedResult {
            result: RunResult::CompilationError,
            exit_code: match stats.exit_code {
                Some(c) => c,
                None => MISSING_EXIT_CODE,
            },
            exit_signal: stats.exit_signal,
            time_ms: t,
            time_wall_ms: w,
            memory_kib: m,
            error_output: error_output.to_owned(),
        }),
        _ => None,
    }
}

/// The payload of a finished one-shot run.
pub open spec fn run_cached_matches(r: RunCachedResult, s: RunStatsView, error_output: Seq<char>) -> bool {
    &&& r.result == run_result_spec(s.status)
    &&& Some(r.exit_code) == s.exit_code
    &&& r.exit_signal == s.exit_signal
    &&& Some(r.time_ms) == s.time_ms
    &&& Some(r.time_wall_ms) == s.time_wall_ms
    &&& Some(r.memory_kib) == s.memory_kib
    &&& r.error_output@ == error_output
}

/// The payload of a finished one-shot run; `None` when the run's exit code
/// or metrics are missing.
pub fn run_cached_result(stats: &RunStats, error_output: &str) -> (r: Option<RunCachedResult>)
    ensures
        r is Some <==> has_metrics(stats@) && stats@.exit_code is Some,
        r is Some ==> run_cached_matches(r->0, stats@, error_output@),
{
    match (stats.exit_code, stats.time_ms, stats.time_wall_ms, stats.memory_kib) {
        (Some(c), Some(t), Some(w), Some(m)) => Some(RunCachedResult {
            result: run_result(stats.status),
            exit_code: c,
            exit_signal: stats.exit_signal,
            time_ms: t,
            time_wall_ms: w,
            memory_kib: m,
            error_output: error_output.to_owned(),
        }),
        _ => None,
    }
}

/// The payload of a judgement.
pub open spec fn judgement_matches(
    r: JudgementResult,
    s: RunStatsView,
    failed_test: i32,
    error_output: Seq<char>,
    start: Seq<char>,
    end: Seq<char>,
) -> bool {
    &&& r.verdict == verdict_spec(s.status, failed_test)
    &&& r.failed_test == failed_test
    &&& r.exit_code == reported_exit_code(s)
    &&& r.exit_signal == s.exit_signal
    &&& Some(r.time_ms) == s.time_ms
    &&& Some(r.time_wall_ms) == s.time_wall_ms
    &&& Some(r.memory_kib) == s.memory_kib
    &&& r.error_output@ == error_output
    &&& r.judge_start_instant@ == start
    &&& r.judge_end_instant@ == end
}

/// The payload of a judgement from the last program run; `None` when its
/// metrics are missing.
pub fn judgement_result(
    stats: &RunStats,
    failed_test: i32,
    error_output: &str,
    start: &str,
    end: &str,
) -> (r: Option<JudgementResult>)
    ensures
        r is Some <==> has_metrics(stats@),
        r is Some ==> judgement_matches(r->0, stats@, failed_test, error_output@, start@, end@),
{
    match (stats.time_ms, stats.time_wall_ms, stats.memory_kib) {
        (Some(t), Some(w), Some(m)) => Some(JudgementResult {
            verdict: verdict(stats.status, failed_test),
            failed_test,
            exit_code: match stats.exit_code {
                Some(c) => c,
                None => MISSING_EXIT_CODE,
            },
            exit_signal: stats.exit_signal,
            time_ms: t,
            time_wall_ms: w,
            memory_kib: m,
            error_output: error_output.to_owned(),
            judge_start_instant: start.to_owned(),
            judge_end_instant: end.to_owned(),
        }),
        _ => None,
    }
}

} // verus!
