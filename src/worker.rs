//! The worker's judging state machine. The worker performs each `Action`
//! (sandbox runs, file copies, box resets) and feeds back what came of it
//! as an `Event`; every decision is taken here.
use vstd::prelude::*;
use vstd::string::*;
use crate::isolate::{
    compile, execute, exited_cleanly, guest_data_dir, run_args_spec, stdin_refused, guest_stdin,
    opt_text, copy_opt_text, copy_texts, CommandTuple, CompileParams, ExecuteParams, IsolateBox,
    RunParamsView, RunStats, COMPILE_PROCESS_LIMIT,
};
use crate::job::{
    compile_error_matches, compile_error_result, has_metrics, judgement_matches, judgement_result,
    run_cached_matches, run_cached_result, Job, JobKind, JobResult, JudgementJob, ResultCode,
    ResultPayload, RunCachedJob,
};
use crate::language::{Compile, CompileView, LanguageParams, LanguageParamsView, LanguageRegistry, lookup, transform_spec};
use crate::template::{fill, fill_all, fill_all_spec, fill_spec};
use crate::test_path::{format_width, format_width_spec, opt_view};
use crate::text::{
    base_name, base_name_spec, cat, join_path, join_path_spec, parent, parent_spec, strip_extension,
    strip_extension_spec, texts,
};

verus! {

/// Memory limit of a compilation, in KiB (1 GiB).
pub const COMPILE_MEMORY_LIMIT_KIB: i32 = 1_048_576;

/// Time limit of a compilation, in milliseconds.
pub const COMPILE_TIME_LIMIT_MS: i32 = 25_000;

/// The host's data directory, relative to the worker.
pub open spec fn data_root() -> Seq<char> {
    "./data"@
}

/// The host path of a path relative to the data directory.
pub open spec fn host_data_path(rel: Seq<char>) -> Seq<char> {
    join_path_spec(data_root(), rel)
}

/// Base name given to a submitted program inside the box.
pub open spec fn program_name() -> Seq<char> {
    "program"@
}

/// Compile-once parameters of a program kept next to its source in the
/// data directory: the artifact's host path, the directory to copy into
/// the box, the compile run's arguments and the artifact's path in the box.
pub struct CachePlan {
    pub output_path: String,
    pub source_dir: String,
    pub compile_args: Vec<String>,
    pub artifact_in_box: String,
}

/// The compile run of `binary` with templates `args`, for the box.
pub open spec fn compile_run_view(uuid: Seq<char>, binary: Seq<char>, args: Seq<Seq<char>>) -> RunParamsView {
    RunParamsView {
        memory_limit_kib: COMPILE_MEMORY_LIMIT_KIB,
        time_limit_ms: COMPILE_TIME_LIMIT_MS,
        stdin_path: None,
        uuid,
        restricted: false,
        process_limit: COMPILE_PROCESS_LIMIT,
        binary_path: binary,
        args,
    }
}

/// What a `CachePlan` holds for a source at `source_path` (relative to the
/// data directory) in a language compiled by `binary` with `args`, whose
/// artifact is named by `output`.
pub open spec fn cache_plan_matches(
    p: CachePlan,
    isolate_box: IsolateBox,
    data_dir: Seq<char>,
    uuid: Seq<char>,
    binary: Seq<char>,
    args: Seq<Seq<char>>,
    output: Seq<char>,
    source_path: Seq<char>,
) -> bool {
    let host_source = host_data_path(source_path);
    let host_stem = strip_extension_spec(host_source);
    let source_base = base_name_spec(host_source);
    let stem_base = base_name_spec(host_stem);
    &&& p.output_path@ == fill_spec(output, host_source, host_stem)
    &&& p.source_dir@ == parent_spec(host_source)
    &&& texts(p.compile_args@) == run_args_spec(
        isolate_box.id,
        isolate_box.path@,
        compile_run_view(uuid, binary, fill_all_spec(args, source_base, stem_base)),
        None,
        data_dir,
    )
    &&& p.artifact_in_box@ == join_path_spec(isolate_box.path@, fill_spec(output, source_base, stem_base))
}

/// The compile-once plan for the source at `source_path` in `language`;
/// `None` for a language without a compile step.
pub fn cache_plan(
    isolate_box: &IsolateBox,
    data_dir: &str,
    uuid: &str,
    language: &LanguageParams,
    source_path: &str,
) -> (r: Option<CachePlan>)
    ensures
        match language@.compile {
            CompileView::NoCompile => r is None,
            CompileView::Command(_, binary, args, output) => r is Some && cache_plan_matches(
                r->0,
                *isolate_box,
                data_dir@,
                uuid@,
                binary,
                args,
                output,
                source_path@,
            ),
        },
{
    match &language.compile {
        Compile::NoCompile => None,
        Compile::Command(_, command, output) => {
            let host_source = join_path("./data", source_path);
            let host_stem = strip_extension(host_source.as_str());
            let source_base = base_name(host_source.as_str());
            let stem_base = base_name(host_stem.as_str());
            let params = CompileParams {
                uuid: uuid.to_owned(),
                memory_limit_kib: COMPILE_MEMORY_LIMIT_KIB,
                time_limit_ms: COMPILE_TIME_LIMIT_MS,
                command: CommandTuple {
                    binary_path: command.binary_path.as_str().to_owned(),
                    args: fill_all(&command.args, source_base.as_str(), stem_base.as_str()),
                },
            };
            let compile_args = compile(isolate_box, &params, data_dir);
            let artifact = fill(output.as_str(), source_base.as_str(), stem_base.as_str());
            Some(CachePlan {
                output_path: fill(output.as_str(), host_source.as_str(), host_stem.as_str()),
                source_dir: parent(host_source.as_str()),
                compile_args,
                artifact_in_box: join_path(isolate_box.path.as_str(), artifact.as_str()),
            })
        },
    }
}


/// The name of a submitted program's source file: `program<suffix>`.
pub open spec fn source_name_spec(suffix: Seq<char>) -> Seq<char> {
    program_name() + suffix
}

/// The command that runs a submitted program inside the box.
pub open spec fn program_command_matches(c: CommandTuple, language: LanguageParamsView) -> bool {
    &&& c.binary_path@ == fill_spec(language.run_binary, source_name_spec(language.suffix), program_name())
    &&& texts(c.args@) == fill_all_spec(language.run_args, source_name_spec(language.suffix), program_name())
}

pub fn program_command(language: &LanguageParams) -> (r: CommandTuple)
    ensures
        program_command_matches(r, language@),
{
    let source_name = cat("program", language.suffix.as_str());
    CommandTuple {
        binary_path: fill(language.run.binary_path.as_str(), source_name.as_str(), "program"),
        args: fill_all(&language.run.args, source_name.as_str(), "program"),
    }
}

/// The arguments of the compile run of a submitted program; `None` for a
/// language without a compile step.
pub open spec fn program_compile_spec(
    isolate_box: IsolateBox,
    data_dir: Seq<char>,
    uuid: Seq<char>,
    language: LanguageParamsView,
) -> Option<Seq<Seq<char>>> {
    match language.compile {
        CompileView::NoCompile => None,
        CompileView::Command(_, binary, args, _) => Some(run_args_spec(
            isolate_box.id,
            isolate_box.path@,
            compile_run_view(uuid, binary, fill_all_spec(args, source_name_spec(language.suffix), program_name())),
            None,
            data_dir,
        )),
    }
}

pub open spec fn opt_texts(o: Option<Vec<String>>) -> Option<Seq<Seq<char>>> {
    match o {
        Some(v) => Some(texts(v@)),
        None => None,
    }
}

pub fn program_compile(isolate_box: &IsolateBox, data_dir: &str, uuid: &str, language: &LanguageParams) -> (r: Option<Vec<String>>)
    ensures
        opt_texts(r) == program_compile_spec(*isolate_box, data_dir@, uuid@, language@),
{
    match &language.compile {
        Compile::NoCompile => None,
        Compile::Command(_, command, _) => {
            let source_name = cat("program", language.suffix.as_str());
            let params = CompileParams {
                uuid: uuid.to_owned(),
                memory_limit_kib: COMPILE_MEMORY_LIMIT_KIB,
                time_limit_ms: COMPILE_TIME_LIMIT_MS,
                command: CommandTuple {
                    binary_path: command.binary_path.as_str().to_owned(),
                    args: fill_all(&command.args, source_name.as_str(), "program"),
                },
            };
            Some(compile(isolate_box, &params, data_dir))
        },
    }
}

/// The host path of test `i`'s input; `None` when the pattern's width does
/// not fit in `usize`.
pub open spec fn test_input_spec(pattern: Seq<char>, i: nat) -> Option<Seq<char>> {
    match format_width_spec(pattern, i) {
        Some(name) => Some(host_data_path(name)),
        None => None,
    }
}

pub fn test_input(pattern: &str, i: usize) -> (r: Option<String>)
    ensures
        opt_view(r) == test_input_spec(pattern@, i as nat),
{
    match format_width(pattern, i) {
        Some(name) => Some(join_path("./data", name.as_str())),
        None => None,
    }
}

/// The checker's command for test `i`: the compiled checker next to its
/// source, given the test's input, the program's output copied to
/// `/box/stdin`, and the reference answer (the input's name with `.a`).
pub open spec fn checker_command_matches(
    c: CommandTuple,
    uuid: Seq<char>,
    checker_source_path: Seq<char>,
    test_name: Seq<char>,
) -> bool {
    &&& c.binary_path@ == strip_extension_spec(join_path_spec(guest_data_dir(uuid), checker_source_path))
    &&& texts(c.args@) == seq![
        join_path_spec(guest_data_dir(uuid), test_name),
        "/box/stdin"@,
        join_path_spec(guest_data_dir(uuid), test_name + ".a"@),
    ]
}

pub fn checker_command(uuid: &str, checker_source_path: &str, test_name: &str) -> (r: CommandTuple)
    ensures
        checker_command_matches(r, uuid@, checker_source_path@, test_name@),
{
    let guest = cat("/data-", uuid);
    let binary = join_path(guest.as_str(), checker_source_path);
    let answer = cat(test_name, ".a");
    let mut args: Vec<String> = Vec::new();
    crate::text::push_text(&mut args, join_path(guest.as_str(), test_name));
    crate::text::push_str(&mut args, "/box/stdin");
    crate::text::push_text(&mut args, join_path(guest.as_str(), answer.as_str()));
    let r = CommandTuple { binary_path: strip_extension(binary.as_str()), args };
    assert(texts(r.args@) =~= seq![
        join_path_spec(guest_data_dir(uuid@), test_name@),
        "/box/stdin"@,
        join_path_spec(guest_data_dir(uuid@), test_name@ + ".a"@),
    ]);
    r
}

/// The command of a one-shot run: the language's run command with the
/// guest paths of the source (and of its extension-less artifact), then the
/// caller's arguments.
pub open spec fn one_shot_command_matches(
    c: CommandTuple,
    uuid: Seq<char>,
    language: LanguageParamsView,
    source_path: Seq<char>,
    arguments: Seq<Seq<char>>,
) -> bool {
    let guest_source = join_path_spec(guest_data_dir(uuid), source_path);
    let guest_stem = strip_extension_spec(guest_source);
    &&& c.binary_path@ == fill_spec(language.run_binary, guest_source, guest_stem)
    &&& texts(c.args@) == fill_all_spec(language.run_args, guest_source, guest_stem) + arguments
}

pub fn one_shot_command(uuid: &str, language: &LanguageParams, source_path: &str, arguments: &Vec<String>) -> (r: CommandTuple)
    ensures
        one_shot_command_matches(r, uuid@, language@, source_path@, texts(arguments@)),
{
    let guest = cat("/data-", uuid);
    let guest_source = join_path(guest.as_str(), source_path);
    let guest_stem = strip_extension(guest_source.as_str());
    let mut args = fill_all(&language.run.args, guest_source.as_str(), guest_stem.as_str());
    let mut k: usize = 0;
    let ghost head = texts(args@);
    while k < arguments.len()
        invariant
            k <= arguments@.len(),
            texts(args@) == head + texts(arguments@.subrange(0, k as int)),
        decreases arguments@.len() - k,
    {
        crate::text::push_str(&mut args, arguments[k].as_str());
        assert(texts(arguments@.subrange(0, (k + 1) as int)) =~= texts(arguments@.subrange(0, k as int)).push(arguments@[k as int]@));
        assert(head + texts(arguments@.subrange(0, (k + 1) as int)) =~= (head + texts(arguments@.subrange(0, k as int))).push(arguments@[k as int]@));
        k = k + 1;
    }
    assert(arguments@.subrange(0, k as int) =~= arguments@);
    CommandTuple {
        binary_path: fill(language.run.binary_path.as_str(), guest_source.as_str(), guest_stem.as_str()),
        args,
    }
}


/// What the worker is asked to do next.
pub enum Action {
    /// Tell whether a host file exists (answered by `Event::Exists`).
    CheckExists(String),
    /// Copy a host directory's contents into the box, overwriting nothing.
    CopyDirIntoBox(String),
    /// Create a file (in the box) with the given contents and sync it.
    WriteFile { path: String, contents: String },
    /// Run the sandbox with these arguments; report its statistics (see
    /// `isolate::finish_run`, with this memory limit) and the text of its
    /// standard-error file (answered by `Event::Ran`).
    RunSandbox { args: Vec<String>, memory_limit_kib: i32 },
    /// Copy a file.
    CopyFile { from: String, to: String },
    /// Tell the current UTC time (answered by `Event::Now`).
    ReadClock,
    /// Wipe the box and initialize it again.
    ResetBox,
    /// Send this result; the job is over.
    Reply(JobResult),
    /// Drop the job without a result; the job is over.
    Abandon,
    /// Nothing is left to do.
    Idle,
}

/// What came of the last action.
pub enum Event {
    /// The action completed.
    Done,
    Exists(bool),
    /// A sandbox run's statistics and standard error.
    Ran(RunStats, String),
    Now(String),
}

pub struct JudgementTask {
    pub test_count: i32,
    pub test_pattern: String,
    pub checker_source_path: String,
    pub checker_cache: Option<CachePlan>,
    pub source_file: String,
    pub source_contents: String,
    pub program_compile: Option<Vec<String>>,
    pub run_command: CommandTuple,
    pub process_limit: i32,
    pub judge_start: String,
}

pub struct RunCachedTask {
    pub cache: Option<CachePlan>,
    pub run_args: Vec<String>,
    pub stdout_target: Option<String>,
}

pub enum Task {
    Judgement(JudgementTask),
    RunCached(RunCachedTask),
    Nothing,
}

/// Where the machine stands, and what event it waits for.
pub enum Phase {
    /// Waits for `Exists` on the cached artifact.
    CacheCheck,
    /// Waits for the source directory to be copied into the box.
    CacheCopy,
    /// Waits for the artifact's compile run.
    CacheCompile,
    /// Waits for the artifact to be copied out of the box.
    CacheArtifact,
    /// Waits for the box reset after caching.
    CacheReset,
    /// Waits for the judgement's start time.
    StartClock,
    /// Waits for the program's source to be written.
    SourceWritten,
    /// Waits for the program's compile run.
    ProgramCompile,
    /// Waits for the program's run on a test.
    ProgramRun(i32),
    /// Waits for the program's output to be copied for the checker; holds
    /// the program's statistics.
    OutputCopied(i32, RunStats),
    /// Waits for the checker's run; holds the program's statistics.
    CheckerRun(i32, RunStats),
    /// Waits for the judgement's end time.
    EndClock(i32, String, RunStats),
    /// Waits for a one-shot run.
    OneShotRun,
    /// Waits for a one-shot run's output to be kept.
    StdoutCopied(RunStats, String),
    /// Waits for the box reset, then replies.
    ResetThenReply(JobResult),
    /// Waits for the box reset, then drops the job.
    ResetThenAbandon,
    /// The job is over.
    Finished,
}

/// One worker's progress through one job.
pub struct Worker {
    pub isolate_box: IsolateBox,
    pub data_dir: String,
    pub uuid: String,
    pub time_limit_ms: i32,
    pub memory_limit_kib: i32,
    pub task: Task,
    pub phase: Phase,
    /// Whether the box holds nothing of this job.
    pub box_clean: bool,
    /// How many tests the program was started on.
    pub tests_started: i32,
    /// How many tests the program passed, checker included.
    pub tests_passed: i32,
}

/// Whether an action writes into the box.
pub open spec fn touches_box(a: Action) -> bool {
    a is CopyDirIntoBox || a is WriteFile || a is RunSandbox || a is CopyFile
}

/// Whether an action ends the job.
pub open spec fn ends_job(a: Action) -> bool {
    a is Reply || a is Abandon
}

/// Whether the machine waits for a box reset.
pub open spec fn awaits_reset(p: Phase) -> bool {
    p is CacheReset || p is ResetThenReply || p is ResetThenAbandon
}

/// Whether the machine is past the judgement's tests.
pub open spec fn winding_down(p: Phase) -> bool {
    p is EndClock || p is ResetThenReply || p is ResetThenAbandon || p is Finished
}

pub open spec fn test_count_of(t: Task) -> i32 {
    match t {
        Task::Judgement(j) => j.test_count,
        _ => 0,
    }
}

/// The failed-test count of a judgement's payload (none for other results).
pub open spec fn reply_failed_test(r: JobResult) -> Option<i32> {
    match r.which {
        Some(ResultPayload::Judgement(j)) => Some(j.failed_test),
        _ => None,
    }
}

/// How the test counters relate to a failed test `f` (0: none failed).
pub open spec fn counters_after(w: Worker, f: i32) -> bool {
    &&& f >= 0
    &&& f == 0 ==> w.tests_passed == w.tests_started && w.tests_started == test_count_of(w.task)
    &&& f > 0 ==> w.tests_started == f && w.tests_passed == f - 1
}

impl Worker {
    /// The machine's invariant: the test counters agree with the phase.
    pub open spec fn wf(&self) -> bool {
        &&& 0 <= self.tests_passed <= self.tests_started
        &&& match self.phase {
            Phase::ProgramRun(i) => self.task is Judgement && 1 <= i <= test_count_of(self.task)
                && self.tests_started == i && self.tests_passed == i - 1,
            Phase::OutputCopied(i, _) => self.task is Judgement && 1 <= i <= test_count_of(self.task)
                && self.tests_started == i && self.tests_passed == i - 1,
            Phase::CheckerRun(i, _) => self.task is Judgement && 1 <= i <= test_count_of(self.task)
                && self.tests_started == i && self.tests_passed == i - 1,
            Phase::EndClock(f, _, _) => self.task is Judgement && counters_after(*self, f),
            Phase::ResetThenReply(r) => match reply_failed_test(r) {
                Some(f) => counters_after(*self, f),
                None => true,
            },
            Phase::Finished => true,
            Phase::ResetThenAbandon => true,
            Phase::CacheCheck => cache_of(self.task) is Some && self.tests_started == 0,
            Phase::CacheCopy => cache_of(self.task) is Some && self.tests_started == 0,
            Phase::CacheCompile => cache_of(self.task) is Some && self.tests_started == 0,
            Phase::CacheArtifact => cache_of(self.task) is Some && self.tests_started == 0,
            Phase::CacheReset => (self.task is Judgement || self.task is RunCached) && self.tests_started == 0,
            Phase::StartClock => self.task is Judgement && self.tests_started == 0,
            Phase::SourceWritten => self.task is Judgement && self.tests_started == 0,
            Phase::ProgramCompile => self.task is Judgement && self.tests_started == 0,
            Phase::OneShotRun => self.task is RunCached && self.tests_started == 0,
            Phase::StdoutCopied(_, _) => self.task is RunCached && self.tests_started == 0,
        }
    }
}



/// What a judgement's task holds for program language `lang`, checker
/// language `checker` and request `req`.
pub open spec fn judgement_task_matches(
    t: JudgementTask,
    isolate_box: IsolateBox,
    data_dir: Seq<char>,
    uuid: Seq<char>,
    lang: LanguageParamsView,
    checker: LanguageParamsView,
    req: JudgementJob,
) -> bool {
    &&& t.test_count == req.test_count
    &&& t.test_pattern@ == req.test_pattern@
    &&& t.checker_source_path@ == req.checker_source_path@
    &&& t.source_file@ == join_path_spec(isolate_box.path@, source_name_spec(lang.suffix))
    &&& t.source_contents@ == match lang.compile {
        CompileView::Command(tr, _, _, _) => transform_spec(tr, req.source_text@, program_name()),
        CompileView::NoCompile => req.source_text@,
    }
    &&& opt_texts(t.program_compile) == program_compile_spec(isolate_box, data_dir, uuid, lang)
    &&& program_command_matches(t.run_command, lang)
    &&& t.process_limit == lang.process_limit
    &&& match checker.compile {
        CompileView::NoCompile => t.checker_cache is None,
        CompileView::Command(_, binary, args, output) => t.checker_cache is Some && cache_plan_matches(
            t.checker_cache->0,
            isolate_box,
            data_dir,
            uuid,
            binary,
            args,
            output,
            req.checker_source_path@,
        ),
    }
}

/// The one-shot run of the program at `source_path` in `lang`.
pub open spec fn one_shot_view(
    uuid: Seq<char>,
    lang: LanguageParamsView,
    req: RunCachedJob,
    memory_limit_kib: i32,
    time_limit_ms: i32,
) -> RunParamsView {
    let guest_source = join_path_spec(guest_data_dir(uuid), req.source_path@);
    let guest_stem = strip_extension_spec(guest_source);
    RunParamsView {
        memory_limit_kib,
        time_limit_ms,
        stdin_path: opt_text(req.stdin_path),
        uuid,
        restricted: true,
        process_limit: lang.process_limit,
        binary_path: fill_spec(lang.run_binary, guest_source, guest_stem),
        args: fill_all_spec(lang.run_args, guest_source, guest_stem) + texts(req.arguments@),
    }
}

/// What a one-shot task holds for language `lang` and request `req`.
pub open spec fn run_cached_task_matches(
    t: RunCachedTask,
    isolate_box: IsolateBox,
    data_dir: Seq<char>,
    uuid: Seq<char>,
    lang: LanguageParamsView,
    req: RunCachedJob,
    memory_limit_kib: i32,
    time_limit_ms: i32,
) -> bool {
    &&& texts(t.run_args@) == run_args_spec(
        isolate_box.id,
        isolate_box.path@,
        one_shot_view(uuid, lang, req, memory_limit_kib, time_limit_ms),
        guest_stdin(uuid, opt_text(req.stdin_path)),
        data_dir,
    )
    &&& opt_view(t.stdout_target) == match req.stdout_path {
        Some(p) => Some(host_data_path(p@)),
        None => None,
    }
    &&& match lang.compile {
        CompileView::NoCompile => t.cache is None,
        CompileView::Command(_, binary, args, output) => t.cache is Some && cache_plan_matches(
            t.cache->0,
            isolate_box,
            data_dir,
            uuid,
            binary,
            args,
            output,
            req.source_path@,
        ),
    }
}

/// Whether a job names a language (or a checker language) that the
/// registry lacks, or is of a kind this side does not know.
pub open spec fn invalid_language(registry: LanguageRegistry, job: Job) -> bool {
    ||| job.which is None
    ||| lookup(registry@, job.language@) is None
    ||| match job.which {
        Some(JobKind::Judgement(j)) => lookup(registry@, j.checker_language@) is None,
        _ => false,
    }
}

/// The reply to a job whose language is unknown.
pub open spec fn is_invalid_language_reply(a: Action, uuid: Seq<char>) -> bool {
    a is Reply && a->Reply_0.uuid@ == uuid && a->Reply_0.code == ResultCode::InvalidLanguage
        && a->Reply_0.which is None
}

fn invalid_language_reply(uuid: String) -> (r: Action)
    ensures
        is_invalid_language_reply(r, uuid@),
{
    Action::Reply(JobResult { uuid, code: ResultCode::InvalidLanguage, which: None })
}

fn finished(isolate_box: IsolateBox, data_dir: String, uuid: String, time_limit_ms: i32, memory_limit_kib: i32) -> (w: Worker)
    ensures
        w.wf(),
        w.box_clean,
        w.phase is Finished,
        w.uuid@ == uuid@,
        w.isolate_box == isolate_box,
        w.data_dir@ == data_dir@,
        w.time_limit_ms == time_limit_ms,
        w.memory_limit_kib == memory_limit_kib,
{
    Worker {
        isolate_box,
        data_dir,
        uuid,
        time_limit_ms,
        memory_limit_kib,
        task: Task::Nothing,
        phase: Phase::Finished,
        box_clean: true,
        tests_started: 0,
        tests_passed: 0,
    }
}

fn start_judgement(
    registry: &LanguageRegistry,
    language: &LanguageParams,
    uuid: String,
    time_limit_ms: i32,
    memory_limit_kib: i32,
    request: JudgementJob,
    isolate_box: IsolateBox,
    data_dir: String,
) -> (r: (Worker, Action))
    ensures
        r.0.wf(),
        !touches_box(r.1),
        r.0.box_clean,
        r.0.uuid@ == uuid@,
        r.0.isolate_box == isolate_box,
        lookup(registry@, request.checker_language@) is None <==> is_invalid_language_reply(r.1, uuid@),
        lookup(registry@, request.checker_language@) is None ==> r.0.phase is Finished,
        lookup(registry@, request.checker_language@) is Some ==> (r.0.phase is CacheCheck && r.1 is CheckExists
            && r.0.task is Judgement && r.0.task->Judgement_0.checker_cache is Some && r.1->CheckExists_0@
            == r.0.task->Judgement_0.checker_cache->0.output_path@) || (r.0.phase is StartClock && r.1 is ReadClock),
        lookup(registry@, request.checker_language@) is Some ==> r.0.task is Judgement && judgement_task_matches(
            r.0.task->Judgement_0,
            isolate_box,
            data_dir@,
            uuid@,
            language@,
            lookup(registry@, request.checker_language@)->0,
            request,
        ) && r.0.data_dir@ == data_dir@ && r.0.memory_limit_kib == memory_limit_kib && r.0.time_limit_ms == time_limit_ms,
{
    let checker = match registry.get(request.checker_language.as_str()) {
        Some(c) => c,
        None => {
            let reply = invalid_language_reply(uuid.as_str().to_owned());
            return (finished(isolate_box, data_dir, uuid, time_limit_ms, memory_limit_kib), reply);
        },
    };
    let checker_cache = cache_plan(&isolate_box, data_dir.as_str(), uuid.as_str(), checker, request.checker_source_path.as_str());
    let source_name = cat("program", language.suffix.as_str());
    let source_file = join_path(isolate_box.path.as_str(), source_name.as_str());
    let source_contents = match &language.compile {
        Compile::Command(transform, _, _) => transform.apply(request.source_text, "program"),
        Compile::NoCompile => request.source_text,
    };
    let program_compile = program_compile(&isolate_box, data_dir.as_str(), uuid.as_str(), language);
    let run_command = program_command(language);
    let action = match &checker_cache {
        Some(plan) => Action::CheckExists(plan.output_path.as_str().to_owned()),
        None => Action::ReadClock,
    };
    let phase = match &checker_cache {
        Some(_) => Phase::CacheCheck,
        None => Phase::StartClock,
    };
    let task = JudgementTask {
        test_count: request.test_count,
        test_pattern: request.test_pattern,
        checker_source_path: request.checker_source_path,
        checker_cache,
        source_file,
        source_contents,
        program_compile,
        run_command,
        process_limit: language.process_limit,
        judge_start: String::new(),
    };
    let w = Worker {
        isolate_box,
        data_dir,
        uuid,
        time_limit_ms,
        memory_limit_kib,
        task: Task::Judgement(task),
        phase,
        box_clean: true,
        tests_started: 0,
        tests_passed: 0,
    };
    (w, action)
}

fn start_run_cached(
    language: &LanguageParams,
    uuid: String,
    time_limit_ms: i32,
    memory_limit_kib: i32,
    request: RunCachedJob,
    isolate_box: IsolateBox,
    data_dir: String,
) -> (r: (Worker, Action))
    ensures
        r.0.wf(),
        r.0.box_clean == !touches_box(r.1),
        r.0.uuid@ == uuid@,
        r.0.isolate_box == isolate_box,
        ends_job(r.1) ==> r.0.phase is Finished,
        (r.0.phase is CacheCheck && r.1 is CheckExists) || (r.0.phase is OneShotRun && r.1 is RunSandbox)
            || (r.0.phase is Finished && r.1 is Abandon),
        r.1 is Abandon <==> stdin_refused(uuid@, opt_text(request.stdin_path)),
        r.0.data_dir@ == data_dir@ && r.0.memory_limit_kib == memory_limit_kib && r.0.time_limit_ms == time_limit_ms,
        r.1 is CheckExists ==> cache_of(r.0.task) is Some && r.1->CheckExists_0@ == cache_of(r.0.task)->0.output_path@,
        r.1 is RunSandbox ==> r.0.task is RunCached && texts(r.1->args@) == texts(r.0.task->RunCached_0.run_args@)
            && r.1->memory_limit_kib == memory_limit_kib,
        !(r.1 is Abandon) ==> r.0.task is RunCached && run_cached_task_matches(
            r.0.task->RunCached_0,
            isolate_box,
            data_dir@,
            uuid@,
            language@,
            request,
            memory_limit_kib,
            time_limit_ms,
        ) && r.0.data_dir@ == data_dir@ && r.0.memory_limit_kib == memory_limit_kib && r.0.time_limit_ms == time_limit_ms,
{
    let cache = cache_plan(&isolate_box, data_dir.as_str(), uuid.as_str(), language, request.source_path.as_str());
    let command = one_shot_command(uuid.as_str(), language, request.source_path.as_str(), &request.arguments);
    let params = ExecuteParams {
        uuid: uuid.as_str().to_owned(),
        memory_limit_kib,
        time_limit_ms,
        stdin_path: copy_opt_text(&request.stdin_path),
        process_limit: language.process_limit,
    };
    let run_args = match execute(&isolate_box, &command, &params, data_dir.as_str()) {
        Ok(a) => a,
        Err(_) => {
            return (finished(isolate_box, data_dir, uuid, time_limit_ms, memory_limit_kib), Action::Abandon);
        },
    };
    let stdout_target = match &request.stdout_path {
        Some(p) => Some(join_path("./data", p.as_str())),
        None => None,
    };
    match cache {
        Some(plan) => {
            let action = Action::CheckExists(plan.output_path.as_str().to_owned());
            let task = RunCachedTask { cache: Some(plan), run_args, stdout_target };
            let w = Worker {
                isolate_box,
                data_dir,
                uuid,
                time_limit_ms,
                memory_limit_kib,
                task: Task::RunCached(task),
                phase: Phase::CacheCheck,
                box_clean: true,
                tests_started: 0,
                tests_passed: 0,
            };
            (w, action)
        },
        None => {
            let action = Action::RunSandbox { args: copy_texts(&run_args), memory_limit_kib };
            let task = RunCachedTask { cache: None, run_args, stdout_target };
            let w = Worker {
                isolate_box,
                data_dir,
                uuid,
                time_limit_ms,
                memory_limit_kib,
                task: Task::RunCached(task),
                phase: Phase::OneShotRun,
                box_clean: false,
                tests_started: 0,
                tests_passed: 0,
            };
            (w, action)
        },
    }
}

impl Worker {
    /// Takes up `job` in a clean box: resolves its languages and gives the
    /// first action. `data_dir` is the host's absolute data directory, bound
    /// into every run.
    pub fn start(registry: &LanguageRegistry, job: Job, isolate_box: IsolateBox, data_dir: String) -> (r: (
        Worker,
        Action,
    ))
        ensures
            r.0.wf(),
            r.0.box_clean == !touches_box(r.1),
            ends_job(r.1) ==> r.0.phase is Finished,
            r.0.uuid@ == job.uuid@,
            r.0.isolate_box == isolate_box,
            invalid_language(*registry, job) <==> is_invalid_language_reply(r.1, job.uuid@),
            !invalid_language(*registry, job) ==> r.0.data_dir@ == data_dir@ && r.0.memory_limit_kib
                == job.memory_limit_kib && r.0.time_limit_ms == job.time_limit_ms,
            !invalid_language(*registry, job) ==> match job.which {
                Some(JobKind::Judgement(req)) => r.0.task is Judgement && judgement_task_matches(
                    r.0.task->Judgement_0,
                    isolate_box,
                    data_dir@,
                    job.uuid@,
                    lookup(registry@, job.language@)->0,
                    lookup(registry@, req.checker_language@)->0,
                    req,
                ),
                Some(JobKind::RunCached(req)) => (r.1 is Abandon <==> stdin_refused(job.uuid@, opt_text(req.stdin_path)))
                    && (!(r.1 is Abandon) ==> r.0.task is RunCached && run_cached_task_matches(
                    r.0.task->RunCached_0,
                    isolate_box,
                    data_dir@,
                    job.uuid@,
                    lookup(registry@, job.language@)->0,
                    req,
                    job.memory_limit_kib,
                    job.time_limit_ms,
                )),
                None => true,
            },
            // the first action of a one-shot run
            r.1 is CheckExists ==> cache_of(r.0.task) is Some && r.1->CheckExists_0@ == cache_of(r.0.task)->0.output_path@,
            r.1 is RunSandbox ==> r.0.task is RunCached && texts(r.1->args@) == texts(r.0.task->RunCached_0.run_args@)
                && r.1->memory_limit_kib == job.memory_limit_kib,
            // a judgement first looks for its compiled checker, or reads the clock
            !invalid_language(*registry, job) && job.which is Some && job.which->0 is Judgement ==> (r.0.phase is CacheCheck
                && r.1 is CheckExists && r.1->CheckExists_0@ == r.0.task->Judgement_0.checker_cache->0.output_path@)
                || (r.0.phase is StartClock && r.1 is ReadClock),
    {
        let language = match registry.get(job.language.as_str()) {
            Some(l) => l,
            None => {
                let reply = invalid_language_reply(job.uuid.as_str().to_owned());
                return (finished(isolate_box, data_dir, job.uuid, job.time_limit_ms, job.memory_limit_kib), reply);
            },
        };
        match job.which {
            Some(JobKind::Judgement(request)) => start_judgement(
                registry,
                language,
                job.uuid,
                job.time_limit_ms,
                job.memory_limit_kib,
                request,
                isolate_box,
                data_dir,
            ),
            Some(JobKind::RunCached(request)) => start_run_cached(
                language,
                job.uuid,
                job.time_limit_ms,
                job.memory_limit_kib,
                request,
                isolate_box,
                data_dir,
            ),
            None => {
                let reply = invalid_language_reply(job.uuid.as_str().to_owned());
                (finished(isolate_box, data_dir, job.uuid, job.time_limit_ms, job.memory_limit_kib), reply)
            },
        }
    }
}


/// Drops the job after a reset of the box.
fn abandon(w: Worker) -> (r: (Worker, Action))
    requires
        w.tests_passed <= w.tests_started,
        0 <= w.tests_passed,
    ensures
        same_job(r.0, w),
        r.0.task == w.task,
        r.0.wf(),
        r.0.phase is ResetThenAbandon,
        r.1 is ResetBox,
        r.0.box_clean == w.box_clean,
        r.0.tests_started == w.tests_started,
        r.0.tests_passed == w.tests_passed,
        r.0.uuid == w.uuid,
        r.0.isolate_box == w.isolate_box,
{
    let mut w = w;
    w.phase = Phase::ResetThenAbandon;
    (w, Action::ResetBox)
}

/// The program's run on the test whose input is at host path `host_input`.
pub open spec fn program_run_view(w: Worker, host_input: Seq<char>) -> RunParamsView {
    let t = w.task->Judgement_0;
    RunParamsView {
        memory_limit_kib: w.memory_limit_kib,
        time_limit_ms: w.time_limit_ms,
        stdin_path: Some(host_input),
        uuid: w.uuid@,
        restricted: true,
        process_limit: t.process_limit,
        binary_path: t.run_command.binary_path@,
        args: texts(t.run_command.args@),
    }
}

/// The sandbox arguments of the program's run on test `i`; `None` when the
/// test's input path cannot be formed.
pub open spec fn program_run_args(w: Worker, i: int) -> Option<Seq<Seq<char>>> {
    let t = w.task->Judgement_0;
    match test_input_spec(t.test_pattern@, i as nat) {
        Some(h) => if stdin_refused(w.uuid@, Some(h)) {
            None
        } else {
            Some(run_args_spec(
                w.isolate_box.id,
                w.isolate_box.path@,
                program_run_view(w, h),
                guest_stdin(w.uuid@, Some(h)),
                w.data_dir@,
            ))
        },
        None => None,
    }
}

/// The checker's run on test `i`, whose input file is `test_name`: one
/// process, no standard input, the job's limits.
pub open spec fn checker_run_view(w: Worker, test_name: Seq<char>) -> RunParamsView {
    let t = w.task->Judgement_0;
    RunParamsView {
        memory_limit_kib: w.memory_limit_kib,
        time_limit_ms: w.time_limit_ms,
        stdin_path: None,
        uuid: w.uuid@,
        restricted: true,
        process_limit: 1,
        binary_path: strip_extension_spec(join_path_spec(guest_data_dir(w.uuid@), t.checker_source_path@)),
        args: seq![
            join_path_spec(guest_data_dir(w.uuid@), test_name),
            "/box/stdin"@,
            join_path_spec(guest_data_dir(w.uuid@), test_name + ".a"@),
        ],
    }
}

/// The sandbox arguments of the checker's run on test `i`.
pub open spec fn checker_run_args(w: Worker, i: int) -> Option<Seq<Seq<char>>> {
    let t = w.task->Judgement_0;
    match format_width_spec(t.test_pattern@, i as nat) {
        Some(name) => Some(run_args_spec(w.isolate_box.id, w.isolate_box.path@, checker_run_view(w, name), None, w.data_dir@)),
        None => None,
    }
}

/// Whether two workers hold the same job.
pub open spec fn same_job(a: Worker, b: Worker) -> bool {
    &&& a.isolate_box == b.isolate_box
    &&& a.data_dir == b.data_dir
    &&& a.uuid == b.uuid
    &&& a.time_limit_ms == b.time_limit_ms
    &&& a.memory_limit_kib == b.memory_limit_kib
}

/// Starts the program on test `i` (`tests_passed == i - 1`).
fn begin_test(w: Worker, i: i32) -> (r: (Worker, Action))
    requires
        w.task is Judgement,
        1 <= i,
        w.tests_passed == i - 1,
        w.tests_started == i - 1,
    ensures
        r.0.wf(),
        r.0.tests_passed == w.tests_passed,
        same_job(r.0, w),
        r.0.task == w.task,
        touches_box(r.1) ==> !r.0.box_clean,
        !touches_box(r.1) ==> r.0.box_clean == w.box_clean,
        r.1 is ResetBox ==> r.0.phase is ResetThenAbandon && r.0.tests_started == w.tests_started
            && (i > test_count_of(w.task) || program_run_args(w, i as int) is None),
        r.1 is RunSandbox ==> r.0.phase == Phase::ProgramRun(i) && r.0.tests_started == i
            && program_run_args(w, i as int) == Some(texts(r.1->args@)) && r.1->memory_limit_kib
            == w.memory_limit_kib,
        r.1 is ResetBox || r.1 is RunSandbox,
        r.0.uuid == w.uuid,
        r.0.isolate_box == w.isolate_box,
{
    let mut w = w;
    let (args, ok) = match &w.task {
        Task::Judgement(t) => {
            if i > t.test_count {
                (Vec::new(), false)
            } else {
                match test_input(t.test_pattern.as_str(), i as usize) {
                    None => (Vec::new(), false),
                    Some(host_input) => {
                        let params = ExecuteParams {
                            uuid: w.uuid.as_str().to_owned(),
                            memory_limit_kib: w.memory_limit_kib,
                            time_limit_ms: w.time_limit_ms,
                            stdin_path: Some(host_input),
                            process_limit: t.process_limit,
                        };
                        match execute(&w.isolate_box, &t.run_command, &params, w.data_dir.as_str()) {
                            Ok(a) => (a, true),
                            Err(_) => (Vec::new(), false),
                        }
                    },
                }
            }
        },
        _ => (Vec::new(), false),
    };
    if !ok {
        return abandon(w);
    }
    w.tests_started = i;
    w.phase = Phase::ProgramRun(i);
    w.box_clean = false;
    let memory_limit_kib = w.memory_limit_kib;
    (w, Action::RunSandbox { args, memory_limit_kib })
}

/// Asks for the end time of a judgement that stopped at `failed_test`.
fn end_judgement(w: Worker, failed_test: i32, error_output: String, last: RunStats) -> (r: (Worker, Action))
    requires
        w.task is Judgement,
        counters_after(w, failed_test),
        0 <= w.tests_passed <= w.tests_started,
    ensures
        same_job(r.0, w),
        r.0.task == w.task,
        r.0.wf(),
        r.0.phase == Phase::EndClock(failed_test, error_output, last),
        r.1 is ReadClock,
        r.0.box_clean == w.box_clean,
        r.0.tests_started == w.tests_started,
        r.0.tests_passed == w.tests_passed,
        r.0.uuid == w.uuid,
        r.0.isolate_box == w.isolate_box,
{
    let mut w = w;
    w.phase = Phase::EndClock(failed_test, error_output, last);
    (w, Action::ReadClock)
}

/// Replies after a reset of the box.
fn reply_after_reset(w: Worker, result: JobResult) -> (r: (Worker, Action))
    requires
        match reply_failed_test(result) {
            Some(f) => counters_after(w, f),
            None => true,
        },
        0 <= w.tests_passed <= w.tests_started,
    ensures
        same_job(r.0, w),
        r.0.task == w.task,
        r.0.wf(),
        r.0.phase == Phase::ResetThenReply(result),
        r.1 is ResetBox,
        r.0.box_clean == w.box_clean,
        r.0.tests_started == w.tests_started,
        r.0.tests_passed == w.tests_passed,
        r.0.uuid == w.uuid,
        r.0.isolate_box == w.isolate_box,
{
    let mut w = w;
    w.phase = Phase::ResetThenReply(result);
    (w, Action::ResetBox)
}

/// Whether the cached-compile plan of the task is there.
pub open spec fn cache_of(t: Task) -> Option<CachePlan> {
    match t {
        Task::Judgement(j) => j.checker_cache,
        Task::RunCached(c) => c.cache,
        Task::Nothing => None,
    }
}

fn cache_ref(t: &Task) -> (r: Option<&CachePlan>)
    ensures
        r is Some <==> cache_of(*t) is Some,
        r is Some ==> *r->0 == cache_of(*t)->0,
{
    match t {
        Task::Judgement(j) => match &j.checker_cache {
            Some(p) => Some(p),
            None => None,
        },
        Task::RunCached(c) => match &c.cache {
            Some(p) => Some(p),
            None => None,
        },
        Task::Nothing => None,
    }
}

/// After caching (or a cache hit): the judgement asks for its start time,
/// the one-shot run starts.
fn after_cache(w: Worker) -> (r: (Worker, Action))
    requires
        w.tests_started == 0,
        w.tests_passed == 0,
    ensures
        same_job(r.0, w),
        r.0.task == w.task,
        r.0.wf(),
        r.0.tests_started == 0,
        touches_box(r.1) ==> !r.0.box_clean,
        !touches_box(r.1) ==> r.0.box_clean == w.box_clean,
        r.1 is ReadClock ==> r.0.phase is StartClock,
        r.1 is RunSandbox ==> r.0.phase is OneShotRun && w.task is RunCached
            && texts(r.1->args@) == texts(w.task->RunCached_0.run_args@),
        r.1 is ResetBox ==> r.0.phase is ResetThenAbandon,
        r.1 is ReadClock || r.1 is RunSandbox || r.1 is ResetBox,
        w.task is Judgement ==> r.0.phase is StartClock && r.1 is ReadClock,
        w.task is RunCached ==> r.0.phase is OneShotRun && r.1 is RunSandbox && r.1->memory_limit_kib
            == w.memory_limit_kib,
        r.0.uuid == w.uuid,
        r.0.isolate_box == w.isolate_box,
{
    let mut w = w;
    let (action_args, kind) = match &w.task {
        Task::Judgement(_) => (Vec::new(), 1u8),
        Task::RunCached(c) => (copy_texts(&c.run_args), 2u8),
        Task::Nothing => (Vec::new(), 0u8),
    };
    if kind == 1 {
        w.phase = Phase::StartClock;
        (w, Action::ReadClock)
    } else if kind == 2 {
        w.phase = Phase::OneShotRun;
        w.box_clean = false;
        let memory_limit_kib = w.memory_limit_kib;
        (w, Action::RunSandbox { args: action_args, memory_limit_kib })
    } else {
        abandon(w)
    }
}

/// Ends a one-shot run.
fn finish_one_shot(w: Worker, stats: RunStats, error_output: String) -> (r: (Worker, Action))
    requires
        w.tests_started == 0,
        w.tests_passed == 0,
    ensures
        same_job(r.0, w),
        r.0.task == w.task,
        r.0.wf(),
        r.1 is ResetBox,
        awaits_reset(r.0.phase),
        r.0.box_clean == w.box_clean,
        r.0.tests_started == 0,
        r.0.uuid == w.uuid,
        r.0.isolate_box == w.isolate_box,
        r.0.phase is ResetThenReply <==> has_metrics(stats@) && stats@.exit_code is Some,
        !(r.0.phase is ResetThenReply) ==> r.0.phase is ResetThenAbandon,
        r.0.phase is ResetThenReply ==> ({
            let res = r.0.phase->ResetThenReply_0;
            &&& res.uuid@ == w.uuid@
            &&& res.code == ResultCode::Success
            &&& res.which is Some && res.which->0 is RunCached
            &&& run_cached_matches(res.which->0->RunCached_0, stats@, error_output@)
        }),
{
    match run_cached_result(&stats, error_output.as_str()) {
        Some(p) => {
            let result = JobResult {
                uuid: w.uuid.as_str().to_owned(),
                code: ResultCode::Success,
                which: Some(ResultPayload::RunCached(p)),
            };
            reply_after_reset(w, result)
        },
        None => abandon(w),
    }
}


/// Whether an event is a finished sandbox run that exited cleanly.
pub open spec fn ran_cleanly(e: Event) -> bool {
    e is Ran && exited_cleanly(e->Ran_0@)
}

impl Worker {
    /// Takes the outcome of the last action and gives the next one.
    #[verifier::rlimit(100)]
    pub fn step(self, event: Event) -> (r: (Worker, Action))
        requires
            self.wf(),
        ensures
            r.0.wf(),
            same_job(r.0, self),
            // the sandbox runs asked for
            r.0.phase is ProgramRun && r.1 is RunSandbox ==> program_run_args(r.0, r.0.phase->ProgramRun_0 as int)
                == Some(texts(r.1->args@)) && r.1->memory_limit_kib == self.memory_limit_kib,
            r.0.phase is CheckerRun && r.1 is RunSandbox ==> checker_run_args(r.0, r.0.phase->CheckerRun_0 as int)
                == Some(texts(r.1->args@)) && r.1->memory_limit_kib == self.memory_limit_kib,
            r.0.phase is ProgramCompile ==> r.1 is RunSandbox && r.0.task is Judgement && opt_texts(
                r.0.task->Judgement_0.program_compile,
            ) == Some(texts(r.1->args@)) && r.1->memory_limit_kib == COMPILE_MEMORY_LIMIT_KIB,
            r.0.phase is CacheCompile ==> r.1 is RunSandbox && cache_of(r.0.task) is Some && texts(
                cache_of(r.0.task)->0.compile_args@,
            ) == texts(r.1->args@) && r.1->memory_limit_kib == COMPILE_MEMORY_LIMIT_KIB,
            // the files written and copied
            r.0.phase is SourceWritten ==> r.1 is WriteFile && r.0.task is Judgement && r.1->path@
                == r.0.task->Judgement_0.source_file@ && r.1->contents@ == r.0.task->Judgement_0.source_contents@,
            r.0.phase is CacheCopy ==> r.1 is CopyDirIntoBox && cache_of(r.0.task) is Some && r.1->CopyDirIntoBox_0@
                == cache_of(r.0.task)->0.source_dir@,
            r.0.phase is CacheArtifact ==> r.1 is CopyFile && cache_of(r.0.task) is Some && r.1->from@ == cache_of(
                r.0.task,
            )->0.artifact_in_box@ && r.1->to@ == cache_of(r.0.task)->0.output_path@,
            r.0.phase is OutputCopied ==> r.1 is CopyFile && r.1->from@ == r.0.phase->OutputCopied_1.stdout_path@
                && r.1->to@ == join_path_spec(self.isolate_box.path@, "stdin"@),
            self.phase is OneShotRun && event is Ran && r.1 is CopyFile ==> r.1->from@ == event->Ran_0.stdout_path@
                && self.task is RunCached && opt_view(self.task->RunCached_0.stdout_target) == Some(r.1->to@),
            // what a one-shot run reports
            (self.phase is OneShotRun && event is Ran && r.0.phase is ResetThenReply) ==> ({
                let res = r.0.phase->ResetThenReply_0;
                &&& res.uuid@ == self.uuid@
                &&& res.code == ResultCode::Success
                &&& res.which is Some && res.which->0 is RunCached
                &&& run_cached_matches(res.which->0->RunCached_0, event->Ran_0@, event->Ran_1@)
            }),
            (self.phase is StdoutCopied && event is Done && r.0.phase is ResetThenReply) ==> ({
                let res = r.0.phase->ResetThenReply_0;
                &&& res.uuid@ == self.uuid@
                &&& res.code == ResultCode::Success
                &&& res.which is Some && res.which->0 is RunCached
                &&& run_cached_matches(res.which->0->RunCached_0, self.phase->StdoutCopied_0@, self.phase->StdoutCopied_1@)
            }),
            self.phase is ResetThenReply && event is Done ==> r.1 == Action::Reply(self.phase->ResetThenReply_0),
            // every step owes its successor
            awaits_reset(r.0.phase) ==> r.1 is ResetBox,
            !(self.phase is StartClock && event is Now) ==> r.0.task == self.task,
            self.phase is StartClock && event is Now ==> r.0.task == Task::Judgement(
                JudgementTask { judge_start: event->Now_0, ..self.task->Judgement_0 },
            ) && r.0.phase is SourceWritten && r.1 is WriteFile,
            self.phase is CacheCheck && event == Event::Exists(true) && self.task is Judgement ==> r.0.phase is StartClock
                && r.1 is ReadClock,
            self.phase is CacheCheck && event == Event::Exists(true) && self.task is RunCached ==> r.0.phase is OneShotRun
                && r.1 is RunSandbox && texts(r.1->args@) == texts(self.task->RunCached_0.run_args@)
                && r.1->memory_limit_kib == self.memory_limit_kib,
            self.phase is CacheCheck && event == Event::Exists(false) ==> r.0.phase is CacheCopy,
            self.phase is CacheCopy && event is Done ==> r.0.phase is CacheCompile,
            self.phase is CacheCompile && ran_cleanly(event) ==> r.0.phase is CacheArtifact,
            (self.phase is CacheCompile || self.phase is ProgramCompile) && event is Ran && !ran_cleanly(event) ==> r.1 is ResetBox
                && (has_metrics(event->Ran_0@) ==> r.0.phase is ResetThenReply) && (!has_metrics(event->Ran_0@)
                ==> r.0.phase is ResetThenAbandon),
            self.phase is CacheArtifact && event is Done ==> r.0.phase is CacheReset && r.1 is ResetBox,
            self.phase is CacheReset && event is Done && self.task is Judgement ==> r.0.phase is StartClock && r.1 is ReadClock,
            self.phase is CacheReset && event is Done && self.task is RunCached ==> r.0.phase is OneShotRun
                && r.1 is RunSandbox && texts(r.1->args@) == texts(self.task->RunCached_0.run_args@)
                && r.1->memory_limit_kib == self.memory_limit_kib,
            r.0.phase is OneShotRun && r.1 is RunSandbox ==> r.0.task is RunCached && texts(r.1->args@) == texts(
                r.0.task->RunCached_0.run_args@,
            ),
            // program and checker runs
            ((self.phase is SourceWritten && event is Done && self.task->Judgement_0.program_compile is None)
                || (self.phase is ProgramCompile && ran_cleanly(event))) ==> (r.0.phase == Phase::ProgramRun(1)
                <==> (1 <= test_count_of(self.task) && program_run_args(self, 1) is Some)) && (r.0.phase is ProgramRun
                || r.0.phase is ResetThenAbandon),
            self.phase is SourceWritten && event is Done && self.task->Judgement_0.program_compile is Some
                ==> r.0.phase is ProgramCompile,
            self.phase is ProgramRun && ran_cleanly(event) ==> r.0.phase == Phase::OutputCopied(
                self.phase->ProgramRun_0,
                event->Ran_0,
            ),
            self.phase is ProgramRun && event is Ran && !ran_cleanly(event) ==> r.0.phase == Phase::EndClock(
                self.phase->ProgramRun_0,
                event->Ran_1,
                event->Ran_0,
            ),
            self.phase is OutputCopied && event is Done ==> (checker_run_args(self, self.phase->OutputCopied_0 as int)
                is Some ==> r.0.phase == Phase::CheckerRun(self.phase->OutputCopied_0, self.phase->OutputCopied_1))
                && (checker_run_args(self, self.phase->OutputCopied_0 as int) is None ==> r.0.phase is ResetThenAbandon),
            self.phase is CheckerRun && ran_cleanly(event) && self.phase->CheckerRun_0 < test_count_of(self.task) ==> ({
                let i = self.phase->CheckerRun_0 + 1;
                &&& r.0.tests_passed == self.phase->CheckerRun_0
                &&& (r.0.phase == Phase::ProgramRun(i as i32) <==> program_run_args(self, i) is Some)
                &&& (r.0.phase is ProgramRun || r.0.phase is ResetThenAbandon)
            }),
            self.phase is CheckerRun && ran_cleanly(event) && self.phase->CheckerRun_0 >= test_count_of(self.task) ==> ({
                &&& r.0.phase is EndClock
                &&& r.0.phase->EndClock_0 == 0
                &&& r.0.phase->EndClock_1@ == Seq::<char>::empty()
                &&& r.0.phase->EndClock_2 == self.phase->CheckerRun_1
                &&& r.1 is ReadClock
            }),
            self.phase is CheckerRun && event is Ran && !ran_cleanly(event) ==> r.0.phase == Phase::EndClock(
                self.phase->CheckerRun_0,
                event->Ran_1,
                self.phase->CheckerRun_1,
            ) && r.1 is ReadClock,
            self.phase is EndClock && event is Now ==> r.1 is ResetBox && (has_metrics(self.phase->EndClock_2@)
                <==> r.0.phase is ResetThenReply) && (r.0.phase is ResetThenReply || r.0.phase is ResetThenAbandon),
            // one-shot runs
            self.phase is OneShotRun && event is Ran && self.task->RunCached_0.stdout_target is Some ==> r.0.phase
                == Phase::StdoutCopied(event->Ran_0, event->Ran_1) && r.1 is CopyFile,
            (self.phase is OneShotRun && event is Ran && self.task->RunCached_0.stdout_target is None) ==> r.1 is ResetBox
                && (r.0.phase is ResetThenReply <==> has_metrics(event->Ran_0@) && event->Ran_0@.exit_code is Some)
                && (r.0.phase is ResetThenReply || r.0.phase is ResetThenAbandon),
            (self.phase is StdoutCopied && event is Done) ==> r.1 is ResetBox && (r.0.phase is ResetThenReply <==> has_metrics(
                self.phase->StdoutCopied_0@,
            ) && self.phase->StdoutCopied_0@.exit_code is Some) && (r.0.phase is ResetThenReply || r.0.phase
                is ResetThenAbandon),
            self.phase is ResetThenAbandon && event is Done ==> r.1 is Abandon,
            // the box is clean whenever a job ends
            touches_box(r.1) ==> !r.0.box_clean,
            ends_job(r.1) ==> r.0.box_clean && r.0.phase is Finished,
            !self.box_clean && r.0.box_clean ==> awaits_reset(self.phase) && event is Done,
            r.1 is ResetBox ==> awaits_reset(r.0.phase),
            // tests start one at a time, after all earlier ones passed
            r.0.tests_started != self.tests_started ==> r.0.phase is ProgramRun && r.0.tests_started
                == self.tests_started + 1 && r.0.tests_passed == self.tests_started,
            r.0.tests_passed != self.tests_passed ==> self.phase is CheckerRun && ran_cleanly(event)
                && r.0.tests_passed == self.tests_passed + 1,
            // once the tests stop, no run follows
            winding_down(self.phase) ==> winding_down(r.0.phase) && !(r.1 is RunSandbox)
                && r.0.tests_started == self.tests_started && r.0.tests_passed == self.tests_passed,
            // the checker runs only on the output of a clean program run
            r.0.phase is OutputCopied ==> self.phase is ProgramRun && ran_cleanly(event),
            r.0.phase is CheckerRun ==> self.phase is OutputCopied && event is Done,
            self.phase is ProgramRun && event is Ran && !ran_cleanly(event) ==> r.0.phase is EndClock
                && r.1 is ReadClock,
            // a cached artifact is compiled only when it was found missing
            r.0.phase is CacheCopy ==> self.phase is CacheCheck && event == Event::Exists(false),
            r.0.phase is CacheCompile ==> self.phase is CacheCopy && event is Done,
            self.phase is CacheCheck && event == Event::Exists(true) ==> !(r.0.phase is CacheCopy)
                && !(r.0.phase is CacheCompile) && (r.1 is RunSandbox ==> r.0.phase is OneShotRun),
            // what a judgement reports
            (self.phase is EndClock && event is Now && r.0.phase is ResetThenReply) ==> ({
                let res = r.0.phase->ResetThenReply_0;
                &&& res.uuid@ == self.uuid@
                &&& res.code == ResultCode::Success
                &&& res.which is Some && res.which->0 is Judgement
                &&& judgement_matches(
                    res.which->0->Judgement_0,
                    self.phase->EndClock_2@,
                    self.phase->EndClock_0,
                    self.phase->EndClock_1@,
                    self.task->Judgement_0.judge_start@,
                    event->Now_0@,
                )
            }),
            // what a failed compilation reports
            ((self.phase is CacheCompile || self.phase is ProgramCompile) && event is Ran && !ran_cleanly(event)
                && r.0.phase is ResetThenReply) ==> ({
                let res = r.0.phase->ResetThenReply_0;
                &&& res.uuid@ == self.uuid@
                &&& res.code == ResultCode::Success
                &&& res.which is Some && res.which->0 is RunCached
                &&& compile_error_matches(res.which->0->RunCached_0, event->Ran_0@, event->Ran_1@)
            }),
    {
        let mut w = self;
        let mut phase = Phase::Finished;
        std::mem::swap(&mut w.phase, &mut phase);
        match phase {
            Phase::CacheCheck => match event {
                Event::Exists(true) => after_cache(w),
                Event::Exists(false) => {
                    let dir = match cache_ref(&w.task) {
                        Some(plan) => plan.source_dir.as_str().to_owned(),
                        None => {
                            return abandon(w);
                        },
                    };
                    w.phase = Phase::CacheCopy;
                    w.box_clean = false;
                    (w, Action::CopyDirIntoBox(dir))
                },
                _ => abandon(w),
            },
            Phase::CacheCopy => match event {
                Event::Done => {
                    let args = match cache_ref(&w.task) {
                        Some(plan) => copy_texts(&plan.compile_args),
                        None => {
                            return abandon(w);
                        },
                    };
                    w.phase = Phase::CacheCompile;
                    w.box_clean = false;
                    (w, Action::RunSandbox { args, memory_limit_kib: COMPILE_MEMORY_LIMIT_KIB })
                },
                _ => abandon(w),
            },
            Phase::CacheCompile => match event {
                Event::Ran(stats, error_output) => {
                    if stats.exit_code == Some(0i32) {
                        let (from, to) = match cache_ref(&w.task) {
                            Some(plan) => (plan.artifact_in_box.as_str().to_owned(), plan.output_path.as_str().to_owned()),
                            None => {
                                return abandon(w);
                            },
                        };
                        w.phase = Phase::CacheArtifact;
                        w.box_clean = false;
                        (w, Action::CopyFile { from, to })
                    } else {
                        match compile_error_result(&stats, error_output.as_str()) {
                            Some(p) => {
                                let result = JobResult {
                                    uuid: w.uuid.as_str().to_owned(),
                                    code: ResultCode::Success,
                                    which: Some(ResultPayload::RunCached(p)),
                                };
                                reply_after_reset(w, result)
                            },
                            None => abandon(w),
                        }
                    }
                },
                _ => abandon(w),
            },
            Phase::CacheArtifact => match event {
                Event::Done => {
                    w.phase = Phase::CacheReset;
                    (w, Action::ResetBox)
                },
                _ => abandon(w),
            },
            Phase::CacheReset => match event {
                Event::Done => {
                    w.box_clean = true;
                    after_cache(w)
                },
                _ => abandon(w),
            },
            Phase::StartClock => match event {
                Event::Now(t) => {
                    let (path, contents) = match &mut w.task {
                        Task::Judgement(j) => {
                            j.judge_start = t;
                            (j.source_file.as_str().to_owned(), j.source_contents.as_str().to_owned())
                        },
                        _ => {
                            return abandon(w);
                        },
                    };
                    w.phase = Phase::SourceWritten;
                    w.box_clean = false;
                    (w, Action::WriteFile { path, contents })
                },
                _ => abandon(w),
            },
            Phase::SourceWritten => match event {
                Event::Done => {
                    let args = match &w.task {
                        Task::Judgement(j) => match &j.program_compile {
                            Some(a) => Some(copy_texts(a)),
                            None => None,
                        },
                        _ => {
                            return abandon(w);
                        },
                    };
                    match args {
                        Some(args) => {
                            w.phase = Phase::ProgramCompile;
                            w.box_clean = false;
                            (w, Action::RunSandbox { args, memory_limit_kib: COMPILE_MEMORY_LIMIT_KIB })
                        },
                        None => begin_test(w, 1),
                    }
                },
                _ => abandon(w),
            },
            Phase::ProgramCompile => match event {
                Event::Ran(stats, error_output) => {
                    if stats.exit_code == Some(0i32) {
                        match &w.task {
                            Task::Judgement(_) => {},
                            _ => {
                                return abandon(w);
                            },
                        }
                        begin_test(w, 1)
                    } else {
                        match compile_error_result(&stats, error_output.as_str()) {
                            Some(p) => {
                                let result = JobResult {
                                    uuid: w.uuid.as_str().to_owned(),
                                    code: ResultCode::Success,
                                    which: Some(ResultPayload::RunCached(p)),
                                };
                                reply_after_reset(w, result)
                            },
                            None => abandon(w),
                        }
                    }
                },
                _ => abandon(w),
            },
            Phase::ProgramRun(i) => match event {
                Event::Ran(stats, error_output) => {
                    if stats.exit_code == Some(0i32) {
                        let from = stats.stdout_path.as_str().to_owned();
                        let to = join_path(w.isolate_box.path.as_str(), "stdin");
                        w.phase = Phase::OutputCopied(i, stats);
                        w.box_clean = false;
                        (w, Action::CopyFile { from, to })
                    } else {
                        end_judgement(w, i, error_output, stats)
                    }
                },
                _ => abandon(w),
            },
            Phase::OutputCopied(i, stats) => match event {
                Event::Done => {
                    let args = match &w.task {
                        Task::Judgement(j) => match format_width(j.test_pattern.as_str(), i as usize) {
                            Some(name) => {
                                let command = checker_command(w.uuid.as_str(), j.checker_source_path.as_str(), name.as_str());
                                let params = ExecuteParams {
                                    uuid: w.uuid.as_str().to_owned(),
                                    memory_limit_kib: w.memory_limit_kib,
                                    time_limit_ms: w.time_limit_ms,
                                    stdin_path: None,
                                    process_limit: 1,
                                };
                                match execute(&w.isolate_box, &command, &params, w.data_dir.as_str()) {
                                    Ok(a) => a,
                                    Err(_) => {
                                        return abandon(w);
                                    },
                                }
                            },
                            None => {
                                return abandon(w);
                            },
                        },
                        _ => {
                            return abandon(w);
                        },
                    };
                    w.phase = Phase::CheckerRun(i, stats);
                    w.box_clean = false;
                    let memory_limit_kib = w.memory_limit_kib;
                    (w, Action::RunSandbox { args, memory_limit_kib })
                },
                _ => abandon(w),
            },
            Phase::CheckerRun(i, program_stats) => match event {
                Event::Ran(checker_stats, checker_error) => {
                    if checker_stats.exit_code == Some(0i32) {
                        w.tests_passed = i;
                        let test_count = match &w.task {
                            Task::Judgement(j) => j.test_count,
                            _ => 0,
                        };
                        if i < test_count {
                            begin_test(w, i + 1)
                        } else {
                            end_judgement(w, 0, String::new(), program_stats)
                        }
                    } else {
                        end_judgement(w, i, checker_error, program_stats)
                    }
                },
                _ => abandon(w),
            },
            Phase::EndClock(failed_test, error_output, last) => match event {
                Event::Now(end) => {
                    let result = match &w.task {
                        Task::Judgement(j) => judgement_result(
                            &last,
                            failed_test,
                            error_output.as_str(),
                            j.judge_start.as_str(),
                            end.as_str(),
                        ),
                        _ => None,
                    };
                    match result {
                        Some(j) => {
                            let result = JobResult {
                                uuid: w.uuid.as_str().to_owned(),
                                code: ResultCode::Success,
                                which: Some(ResultPayload::Judgement(j)),
                            };
                            reply_after_reset(w, result)
                        },
                        None => abandon(w),
                    }
                },
                _ => abandon(w),
            },
            Phase::OneShotRun => match event {
                Event::Ran(stats, error_output) => {
                    let target = match &w.task {
                        Task::RunCached(c) => match &c.stdout_target {
                            Some(p) => Some(p.as_str().to_owned()),
                            None => None,
                        },
                        _ => None,
                    };
                    match target {
                        Some(to) => {
                            let from = stats.stdout_path.as_str().to_owned();
                            w.phase = Phase::StdoutCopied(stats, error_output);
                            w.box_clean = false;
                            (w, Action::CopyFile { from, to })
                        },
                        None => finish_one_shot(w, stats, error_output),
                    }
                },
                _ => abandon(w),
            },
            Phase::StdoutCopied(stats, error_output) => match event {
                Event::Done => finish_one_shot(w, stats, error_output),
                _ => abandon(w),
            },
            Phase::ResetThenReply(result) => match event {
                Event::Done => {
                    w.box_clean = true;
                    w.phase = Phase::Finished;
                    (w, Action::Reply(result))
                },
                _ => {
                    w.phase = Phase::ResetThenReply(result);
                    (w, Action::ResetBox)
                },
            },
            Phase::ResetThenAbandon => match event {
                Event::Done => {
                    w.box_clean = true;
                    w.phase = Phase::Finished;
                    (w, Action::Abandon)
                },
                _ => {
                    w.phase = Phase::ResetThenAbandon;
                    (w, Action::ResetBox)
                },
            },
            Phase::Finished => {
                w.phase = Phase::Finished;
                (w, Action::Idle)
            },
        }
    }
}


/// When a judgement is about to report test `k > 0` as failed, the program
/// was started on exactly tests `1..=k` and passed (checker included) the
/// `k - 1` before it; with no failed test, it passed every test.
pub proof fn lemma_failed_test_monotone(w: Worker)
    requires
        w.wf(),
        w.phase is ResetThenReply,
        reply_failed_test(w.phase->ResetThenReply_0) is Some,
    ensures
        ({
            let k = reply_failed_test(w.phase->ResetThenReply_0)->0;
            &&& k > 0 ==> w.tests_started == k && w.tests_passed == k - 1
            &&& k == 0 ==> w.tests_passed == w.tests_started && w.tests_started == test_count_of(w.task)
        }),
{
}

} // verus!
