use jughisto::isolate::{parse_meta, IsolateBox, RunStatus};
use jughisto::job::verdict;
use jughisto::job::{Job, JobKind, JobResult, JudgementJob, ResultCode, ResultPayload, RunCachedJob, RunResult, Verdict};
use jughisto::language::{get_supported_languages, LanguageRegistry};
use jughisto::worker::{Action, Event, Worker};

fn the_box() -> IsolateBox {
    IsolateBox { id: 0, path: "/var/local/lib/isolate/0/box".to_string() }
}

fn registry() -> LanguageRegistry {
    get_supported_languages("g++ (GCC) 12.2.0\n", "gcc (GCC) 12.2.0\n").unwrap()
}

/// A scripted sandbox: answers every action and records what was asked.
struct Sandbox {
    artifact_exists: bool,
    compile_meta: String,
    program_metas: Vec<String>,
    checker_metas: Vec<String>,
    program_runs: usize,
    checker_runs: usize,
    compiles: usize,
    resets: usize,
    writes_since_reset: usize,
    log: Vec<String>,
}

impl Sandbox {
    fn new(program_metas: &[&str], checker_metas: &[&str]) -> Sandbox {
        Sandbox {
            artifact_exists: true,
            compile_meta: "time:0.100\ntime-wall:0.200\ncg-mem:1000\nexitcode:0\n".to_string(),
            program_metas: program_metas.iter().map(|s| s.to_string()).collect(),
            checker_metas: checker_metas.iter().map(|s| s.to_string()).collect(),
            program_runs: 0,
            checker_runs: 0,
            compiles: 0,
            resets: 0,
            writes_since_reset: 0,
            log: Vec::new(),
        }
    }

    fn answer(&mut self, action: &Action) -> Event {
        match action {
            Action::CheckExists(p) => {
                self.log.push(format!("exists {}", p));
                Event::Exists(self.artifact_exists)
            }
            Action::CopyDirIntoBox(d) => {
                self.writes_since_reset += 1;
                self.log.push(format!("copydir {}", d));
                Event::Done
            }
            Action::WriteFile { path, .. } => {
                self.writes_since_reset += 1;
                self.log.push(format!("write {}", path));
                Event::Done
            }
            Action::CopyFile { from, to } => {
                self.writes_since_reset += 1;
                self.log.push(format!("copy {} {}", from, to));
                Event::Done
            }
            Action::ReadClock => Event::Now("2024-05-01T10:00:00".to_string()),
            Action::ResetBox => {
                self.resets += 1;
                self.writes_since_reset = 0;
                Event::Done
            }
            Action::RunSandbox { args, .. } => {
                self.writes_since_reset += 1;
                let meta = if args.iter().any(|a| a == "--processes=40") {
                    self.compiles += 1;
                    self.log.push("compile".to_string());
                    self.compile_meta.clone()
                } else if args.iter().any(|a| a == "/box/stdin") {
                    self.checker_runs += 1;
                    self.log.push(format!("checker {}", self.checker_runs));
                    self.checker_metas[self.checker_runs - 1].clone()
                } else {
                    self.program_runs += 1;
                    self.log.push(format!("program {}", self.program_runs));
                    self.program_metas[self.program_runs - 1].clone()
                };
                let stats = parse_meta(&meta, &the_box());
                let err = if stats.exit_code == Some(0) { String::new() } else { "diagnostic".to_string() };
                Event::Ran(stats, err)
            }
            _ => Event::Done,
        }
    }
}

/// Runs a job to its end; the reply (if any) and whether the box was clean.
fn drive(job: Job, sandbox: &mut Sandbox) -> (Option<JobResult>, bool) {
    let (mut w, mut action) = Worker::start(&registry(), job, the_box(), "/srv/data".to_string());
    for _ in 0..200 {
        match action {
            Action::Reply(r) => return (Some(r), sandbox.writes_since_reset == 0),
            Action::Abandon => return (None, sandbox.writes_since_reset == 0),
            _ => {}
        }
        let event = sandbox.answer(&action);
        let (next, a) = w.step(event);
        w = next;
        action = a;
    }
    panic!("the job did not end");
}

fn judgement(language: &str, source: &str, tests: i32, time_limit_ms: i32, memory_limit_kib: i32) -> Job {
    Job {
        uuid: "job-1".to_string(),
        language: language.to_string(),
        time_limit_ms,
        memory_limit_kib,
        which: Some(JobKind::Judgement(JudgementJob {
            source_text: source.to_string(),
            test_count: tests,
            test_pattern: "p1/tests/%02d".to_string(),
            checker_language: "cpp.17.g++".to_string(),
            checker_source_path: "p1/check.cpp".to_string(),
        })),
    }
}

const CLEAN: &str = "time:0.030\ntime-wall:0.040\ncg-mem:5120\nexitcode:0\n";
const REJECT: &str = "time:0.001\ntime-wall:0.002\ncg-mem:100\nexitcode:1\nstatus:RE\n";

fn judged(r: &JobResult) -> &jughisto::job::JudgementResult {
    match &r.which {
        Some(ResultPayload::Judgement(j)) => j,
        _ => panic!("expected a judgement"),
    }
}

#[test]
fn accepted_python_submission() {
    let mut sandbox = Sandbox::new(&[CLEAN, CLEAN], &[CLEAN, CLEAN]);
    let (reply, clean) = drive(judgement("python.3", "print(input())", 2, 1000, 65536), &mut sandbox);
    let reply = reply.unwrap();
    assert!(clean);
    assert_eq!(reply.code, ResultCode::Success);
    let j = judged(&reply);
    assert_eq!(j.verdict, Verdict::Accepted);
    assert_eq!(j.failed_test, 0);
    assert_eq!(j.time_ms, 30);
    assert_eq!(j.memory_kib, 5120);
    assert_eq!(j.error_output, "");
    assert_eq!(j.judge_start_instant, "2024-05-01T10:00:00");
    assert!(sandbox.log.contains(&"write /var/local/lib/isolate/0/box/program.py".to_string()));
    assert_eq!(sandbox.program_runs, 2);
    assert_eq!(sandbox.checker_runs, 2);
}

#[test]
fn wrong_answer_on_test_two() {
    let mut sandbox = Sandbox::new(&[CLEAN, CLEAN, CLEAN], &[CLEAN, REJECT, CLEAN]);
    let (reply, clean) = drive(judgement("python.3", "print(input())", 3, 1000, 65536), &mut sandbox);
    let reply = reply.unwrap();
    assert!(clean);
    let j = judged(&reply);
    assert_eq!(j.verdict, Verdict::WrongAnswer);
    assert_eq!(j.failed_test, 2);
    assert_eq!(j.error_output, "diagnostic");
    assert_eq!(sandbox.program_runs, 2);
    assert_eq!(sandbox.checker_runs, 2);
}

#[test]
fn compilation_error_reports_the_compiler() {
    let mut sandbox = Sandbox::new(&[], &[]);
    sandbox.compile_meta = "time:0.300\ntime-wall:0.400\ncg-mem:20000\nexitcode:1\nstatus:RE\n".to_string();
    let (reply, clean) = drive(judgement("cpp.17.g++", "int main(", 2, 1000, 65536), &mut sandbox);
    let reply = reply.unwrap();
    assert!(clean);
    match &reply.which {
        Some(ResultPayload::RunCached(c)) => {
            assert_eq!(c.result, RunResult::CompilationError);
            assert_eq!(c.exit_code, 1);
            assert_eq!(c.error_output, "diagnostic");
        }
        _ => panic!("expected a compile failure"),
    }
    assert_eq!(sandbox.program_runs, 0);
}

#[test]
fn time_limit_exceeded_stops_the_tests() {
    let tle = "time:0.512\ntime-wall:0.600\ncg-mem:900\nstatus:TO\nmessage:Time limit exceeded\n";
    let mut sandbox = Sandbox::new(&[tle], &[]);
    let (reply, _) = drive(judgement("cpp.17.g++", "int main(){while(1);}", 3, 500, 65536), &mut sandbox);
    let reply = reply.unwrap();
    let j = judged(&reply);
    assert_eq!(j.verdict, Verdict::TimeLimitExceeded);
    assert!(j.time_ms >= 500);
    assert_eq!(j.failed_test, 1);
    assert_eq!(j.exit_code, 42);
    assert_eq!(sandbox.checker_runs, 0);
    assert_eq!(sandbox.program_runs, 1);
}

#[test]
fn memory_limit_exceeded_by_oom_kill_or_abort() {
    let killed = "time:0.100\ntime-wall:0.100\ncg-mem:65536\ncg-oom-killed:1\nstatus:SG\nexitsig:9\n";
    let mut sandbox = Sandbox::new(&[killed], &[]);
    let (reply, _) = drive(judgement("c.18.gcc", "big", 1, 1000, 65536), &mut sandbox);
    assert_eq!(judged(&reply.unwrap()).verdict, Verdict::MemoryLimitExceeded);

    let aborted = jughisto::isolate::finish_run(
        &the_box(),
        &jughisto::isolate::CommandOutput {
            exit_code: Some(1),
            stdout: b"time:0.1\ntime-wall:0.1\ncg-mem:65536\nstatus:SG\nexitsig:6\n".to_vec(),
            stderr: vec![],
        },
        65536,
    )
    .unwrap();
    assert_eq!(verdict(aborted.status, 1), Verdict::MemoryLimitExceeded);
}

#[test]
fn unknown_language_is_refused() {
    let (w, action) = Worker::start(&registry(), judgement("cobol", "x", 1, 1, 1), the_box(), "/d".to_string());
    assert!(w.box_clean);
    match action {
        Action::Reply(r) => {
            assert_eq!(r.uuid, "job-1");
            assert_eq!(r.code, ResultCode::InvalidLanguage);
            assert!(r.which.is_none());
        }
        _ => panic!("expected a refusal"),
    }
    let mut job = judgement("python.3", "x", 1, 1, 1);
    if let Some(JobKind::Judgement(j)) = &mut job.which {
        j.checker_language = "cobol".to_string();
    }
    let (_, action) = Worker::start(&registry(), job, the_box(), "/d".to_string());
    assert!(matches!(action, Action::Reply(JobResult { code: ResultCode::InvalidLanguage, .. })));
}

#[test]
fn checker_is_not_run_after_a_failed_program() {
    let crash = "time:0.010\ntime-wall:0.010\ncg-mem:100\nexitcode:3\nstatus:RE\n";
    let mut sandbox = Sandbox::new(&[CLEAN, crash], &[CLEAN]);
    let (reply, clean) = drive(judgement("python.3", "x", 4, 1000, 65536), &mut sandbox);
    assert!(clean);
    let reply = reply.unwrap();
    let j = judged(&reply);
    assert_eq!(j.verdict, Verdict::RuntimeError);
    assert_eq!(j.failed_test, 2);
    assert_eq!(j.exit_code, 3);
    assert_eq!(sandbox.checker_runs, 1);
    assert_eq!(sandbox.program_runs, 2);
}

#[test]
fn missing_checker_is_compiled_once_and_kept() {
    let mut sandbox = Sandbox::new(&[CLEAN], &[CLEAN]);
    sandbox.artifact_exists = false;
    let (reply, clean) = drive(judgement("python.3", "x", 1, 1000, 65536), &mut sandbox);
    assert!(clean);
    assert_eq!(judged(&reply.unwrap()).verdict, Verdict::Accepted);
    assert_eq!(sandbox.compiles, 1);
    assert!(sandbox.log.contains(&"exists ./data/p1/check".to_string()));
    assert!(sandbox.log.contains(&"copydir ./data/p1".to_string()));
    assert!(sandbox.log.contains(&"copy /var/local/lib/isolate/0/box/check ./data/p1/check".to_string()));
}

#[test]
fn cached_artifact_skips_the_compile() {
    let mut sandbox = Sandbox::new(&[CLEAN], &[]);
    let job = Job {
        uuid: "gen".to_string(),
        language: "cpp.17.g++".to_string(),
        time_limit_ms: 2000,
        memory_limit_kib: 262144,
        which: Some(JobKind::RunCached(RunCachedJob {
            source_path: "p1/gen.cpp".to_string(),
            arguments: vec!["5".to_string()],
            stdin_path: None,
            stdout_path: Some("p1/tests/05".to_string()),
        })),
    };
    let (reply, clean) = drive(job, &mut sandbox);
    assert!(clean);
    assert_eq!(sandbox.compiles, 0);
    assert!(!sandbox.log.iter().any(|l| l.starts_with("copydir")));
    assert!(sandbox.log.contains(&"copy /var/local/lib/isolate/0/box/stdout ./data/p1/tests/05".to_string()));
    match reply.unwrap().which {
        Some(ResultPayload::RunCached(c)) => {
            assert_eq!(c.result, RunResult::Success);
            assert_eq!(c.exit_code, 0);
            assert_eq!(c.memory_kib, 5120);
        }
        _ => panic!("expected a one-shot result"),
    }
}

#[test]
fn run_cached_compiles_a_missing_artifact() {
    let mut sandbox = Sandbox::new(&[CLEAN], &[]);
    sandbox.artifact_exists = false;
    let job = Job {
        uuid: "val".to_string(),
        language: "cpp.17.g++".to_string(),
        time_limit_ms: 2000,
        memory_limit_kib: 262144,
        which: Some(JobKind::RunCached(RunCachedJob {
            source_path: "p1/val.cpp".to_string(),
            arguments: vec![],
            stdin_path: Some("./data/p1/tests/01".to_string()),
            stdout_path: None,
        })),
    };
    let (reply, clean) = drive(job, &mut sandbox);
    assert!(clean);
    assert_eq!(sandbox.compiles, 1);
    assert!(sandbox.resets >= 2);
    assert!(matches!(reply.unwrap().which, Some(ResultPayload::RunCached(_))));
}

#[test]
fn stdin_outside_data_drops_the_job() {
    let mut sandbox = Sandbox::new(&[], &[]);
    let job = Job {
        uuid: "bad".to_string(),
        language: "python.3".to_string(),
        time_limit_ms: 1,
        memory_limit_kib: 1,
        which: Some(JobKind::RunCached(RunCachedJob {
            source_path: "p/a.py".to_string(),
            arguments: vec![],
            stdin_path: Some("/etc/shadow".to_string()),
            stdout_path: None,
        })),
    };
    let (reply, clean) = drive(job, &mut sandbox);
    assert!(reply.is_none());
    assert!(clean);
}

#[test]
fn verdict_table() {
    assert_eq!(verdict(RunStatus::Success, 0), Verdict::Accepted);
    assert_eq!(verdict(RunStatus::Success, 4), Verdict::WrongAnswer);
    assert_eq!(verdict(RunStatus::TimeLimitExceeded, 1), Verdict::TimeLimitExceeded);
    assert_eq!(verdict(RunStatus::MemoryLimitExceeded, 1), Verdict::MemoryLimitExceeded);
    assert_eq!(verdict(RunStatus::RuntimeError, 1), Verdict::RuntimeError);
    assert_eq!(verdict(RunStatus::Signal, 1), Verdict::RuntimeError);
    assert_eq!(verdict(RunStatus::FailedToStart, 1), Verdict::RuntimeError);
}

#[test]
fn judgement_without_tests_is_dropped() {
    let mut sandbox = Sandbox::new(&[], &[]);
    let (reply, clean) = drive(judgement("python.3", "x", 0, 1000, 65536), &mut sandbox);
    assert!(reply.is_none());
    assert!(clean);
    assert_eq!(sandbox.program_runs, 0);
}

#[test]
fn finished_worker_stays_idle() {
    let (w, _) = Worker::start(&registry(), judgement("cobol", "x", 1, 1, 1), the_box(), "/d".to_string());
    let (w, action) = w.step(Event::Done);
    assert!(matches!(action, Action::Idle));
    assert_eq!(w.tests_started, 0);
}
