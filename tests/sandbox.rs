use jughisto::isolate::{
    compile, execute, finish_run, new_isolate_box, parse_meta, parse_ms, reclassify_oom, run,
    CommandError, CommandOutput, CommandTuple, CompileParams, ExecuteParams, IsolateBox, RunParams,
    RunStatus,
};

fn sample_box() -> IsolateBox {
    IsolateBox { id: 3, path: "/var/local/lib/isolate/3/box".to_string() }
}

fn strings(v: &[&str]) -> Vec<String> {
    v.iter().map(|s| s.to_string()).collect()
}

#[test]
fn parse_ms_reads_seconds_and_milliseconds() {
    assert_eq!(parse_ms("1.500"), Some(1500));
    assert_eq!(parse_ms("0.052"), Some(52));
    assert_eq!(parse_ms("12.0"), Some(12000));
    assert_eq!(parse_ms("1"), None);
    assert_eq!(parse_ms("a.5"), None);
    assert_eq!(parse_ms("1.b"), None);
    assert_eq!(parse_ms(""), None);
}

#[test]
fn parse_ms_out_of_range_is_unknown() {
    assert_eq!(parse_ms("2147484.0"), None);
    assert_eq!(parse_ms("2147483.647"), Some(2147483647));
}

#[test]
fn parse_meta_reads_every_known_key() {
    let text = "time:0.120\ntime-wall:0.250\nmax-rss:1234\ncg-mem:2048\nexitcode:0\nmessage:all good: yes\n";
    let stats = parse_meta(text, &sample_box());
    assert_eq!(stats.time_ms, Some(120));
    assert_eq!(stats.time_wall_ms, Some(250));
    assert_eq!(stats.memory_kib, Some(2048));
    assert_eq!(stats.exit_code, Some(0));
    assert_eq!(stats.exit_signal, None);
    assert_eq!(stats.message, Some("all good: yes".to_string()));
    assert_eq!(stats.status, RunStatus::Success);
    assert_eq!(stats.stdout_path, "/var/local/lib/isolate/3/box/stdout");
    assert_eq!(stats.stderr_path, "/var/local/lib/isolate/3/box/stderr");
}

#[test]
fn parse_meta_status_codes() {
    let b = sample_box();
    assert_eq!(parse_meta("status:RE\n", &b).status, RunStatus::RuntimeError);
    assert_eq!(parse_meta("status:TO\n", &b).status, RunStatus::TimeLimitExceeded);
    assert_eq!(parse_meta("status:XX\n", &b).status, RunStatus::FailedToStart);
    assert_eq!(parse_meta("status:SG\n", &b).status, RunStatus::Signal);
    assert_eq!(parse_meta("status:ZZ\n", &b).status, RunStatus::RuntimeError);
    assert_eq!(parse_meta("", &b).status, RunStatus::Success);
}

#[test]
fn parse_meta_signal_keeps_out_of_memory() {
    let stats = parse_meta("cg-oom-killed:1\nstatus:SG\nexitsig:9\n", &sample_box());
    assert_eq!(stats.status, RunStatus::MemoryLimitExceeded);
    assert_eq!(stats.exit_signal, Some(9));
}

#[test]
fn parse_meta_is_deterministic() {
    let text = "time:1.000\nstatus:TO\ncg-mem:77\n";
    let a = parse_meta(text, &sample_box());
    let b = parse_meta(&text.to_string(), &sample_box());
    assert_eq!(a.time_ms, b.time_ms);
    assert_eq!(a.status, b.status);
    assert_eq!(a.memory_kib, b.memory_kib);
}

#[test]
fn abort_at_memory_limit_is_out_of_memory() {
    let stats = parse_meta("status:SG\nexitsig:6\ncg-mem:65536\n", &sample_box());
    assert_eq!(reclassify_oom(stats, 65536).status, RunStatus::MemoryLimitExceeded);
    let below = parse_meta("status:SG\nexitsig:6\ncg-mem:65535\n", &sample_box());
    assert_eq!(reclassify_oom(below, 65536).status, RunStatus::Signal);
    let other_signal = parse_meta("status:SG\nexitsig:11\ncg-mem:99999\n", &sample_box());
    assert_eq!(reclassify_oom(other_signal, 65536).status, RunStatus::Signal);
}

#[test]
fn finish_run_parses_when_sandbox_succeeds() {
    let out = CommandOutput {
        exit_code: Some(1),
        stdout: b"status:SG\nexitsig:6\ncg-mem:70000\ntime:0.010\ntime-wall:0.020\n".to_vec(),
        stderr: b"".to_vec(),
    };
    let stats = finish_run(&sample_box(), &out, 65536).unwrap();
    assert_eq!(stats.status, RunStatus::MemoryLimitExceeded);
    assert_eq!(stats.time_ms, Some(10));
}

#[test]
fn finish_run_reports_sandbox_failure() {
    let out = CommandOutput { exit_code: Some(2), stdout: b"".to_vec(), stderr: b"box busy".to_vec() };
    match finish_run(&sample_box(), &out, 1) {
        Err(CommandError::IsolateCommandFailed(t)) => assert_eq!(t, "box busy"),
        _ => panic!("expected a sandbox failure"),
    }
    let killed = CommandOutput { exit_code: None, stdout: b"".to_vec(), stderr: b"killed".to_vec() };
    assert!(matches!(finish_run(&sample_box(), &killed, 1), Err(CommandError::IsolateCommandFailed(_))));
    let bad = CommandOutput { exit_code: Some(0), stdout: vec![0xff, 0xfe], stderr: vec![] };
    assert!(matches!(finish_run(&sample_box(), &bad, 1), Err(CommandError::Utf8)));
}

#[test]
fn new_box_from_init_output() {
    let out = CommandOutput { exit_code: Some(0), stdout: b"/var/local/lib/isolate/0\n".to_vec(), stderr: vec![] };
    let b = new_isolate_box(0, &out).unwrap();
    assert_eq!(b.id, 0);
    assert_eq!(b.path, "/var/local/lib/isolate/0/box");
    let failed = CommandOutput { exit_code: Some(1), stdout: vec![], stderr: b"no cgroups".to_vec() };
    match new_isolate_box(0, &failed) {
        Err(CommandError::IsolateCommandFailed(t)) => assert_eq!(t, "no cgroups"),
        _ => panic!("expected an init failure"),
    }
}

#[test]
fn execute_builds_restricted_arguments() {
    let command = CommandTuple { binary_path: "/usr/bin/python3".to_string(), args: strings(&["program.py"]) };
    let params = ExecuteParams {
        uuid: "u1".to_string(),
        memory_limit_kib: 65536,
        time_limit_ms: 1500,
        stdin_path: Some("./data/p1/tests/01".to_string()),
        process_limit: 1,
    };
    let args = execute(&sample_box(), &command, &params, "/srv/data").unwrap();
    assert_eq!(
        args,
        strings(&[
            "--run",
            "--cg",
            "--box-id=3",
            "--wall-time=50.000",
            "--time=1.500",
            "--cg-mem=65536",
            "--stdin=/data-u1/p1/tests/01",
            "--stdout=stdout",
            "--stderr=stderr",
            "--meta=-",
            "--env=PATH=/usr/bin",
            "--no-default-dirs",
            "--dir=box=/var/local/lib/isolate/3/box:rw",
            "--dir=lib",
            "--dir=lib64:maybe",
            "--dir=usr/lib",
            "--dir=usr/bin",
            "--dir=proc=proc:fs",
            "--processes=1",
            "--dir=/data-u1=/srv/data",
            "--fsize=0",
            "--",
            "/usr/bin/python3",
            "program.py",
        ])
    );
}

#[test]
fn execute_refuses_stdin_outside_data() {
    let command = CommandTuple { binary_path: "x".to_string(), args: vec![] };
    let params = ExecuteParams {
        uuid: "u".to_string(),
        memory_limit_kib: 1,
        time_limit_ms: 1,
        stdin_path: Some("/etc/passwd".to_string()),
        process_limit: 1,
    };
    match execute(&sample_box(), &command, &params, "/srv/data") {
        Err(CommandError::PathOutsideData(p)) => assert_eq!(p, "/etc/passwd"),
        _ => panic!("expected a refusal"),
    }
}

#[test]
fn compile_builds_unrestricted_arguments() {
    let params = CompileParams {
        uuid: "u2".to_string(),
        memory_limit_kib: 1048576,
        time_limit_ms: 25000,
        command: CommandTuple { binary_path: "/usr/bin/g++".to_string(), args: strings(&["-o", "program", "program.cpp"]) },
    };
    let args = compile(&sample_box(), &params, "/srv/data");
    assert_eq!(
        args,
        strings(&[
            "--run",
            "--cg",
            "--box-id=3",
            "--wall-time=50.000",
            "--time=25.000",
            "--cg-mem=1048576",
            "--stdout=stdout",
            "--stderr=stderr",
            "--meta=-",
            "--env=PATH=/usr/bin",
            "--no-default-dirs",
            "--dir=box=/var/local/lib/isolate/3/box:rw",
            "--dir=bin",
            "--dir=lib",
            "--dir=lib64:maybe",
            "--dir=usr/lib",
            "--dir=usr/libexec",
            "--dir=usr/bin",
            "--dir=usr/include",
            "--dir=proc=proc:fs",
            "--processes=40",
            "--dir=/data-u2=/srv/data",
            "--",
            "/usr/bin/g++",
            "-o",
            "program",
            "program.cpp",
        ])
    );
}

#[test]
fn run_writes_short_time_limits_with_three_digits() {
    let params = RunParams {
        memory_limit_kib: 10,
        time_limit_ms: 5,
        stdin_path: None,
        uuid: "u".to_string(),
        restricted: true,
        process_limit: 2,
        command: CommandTuple { binary_path: "b".to_string(), args: vec![] },
    };
    let args = run(&sample_box(), &params, "/d").unwrap();
    assert_eq!(args[4], "--time=0.005");
    assert_eq!(args[5], "--cg-mem=10");
    assert!(!args.iter().any(|a| a.starts_with("--stdin=")));
}
