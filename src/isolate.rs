//! The sandbox driver: the argument vector of an `isolate --run`
//! invocation, the parsing of its meta report, and the classification of
//! its outcome.
use vstd::prelude::*;
use vstd::string::*;
use vstd::utf8::{decode_utf8, valid_utf8};
use crate::text::{
    cat, find_char_from, first_char_from, has_prefix, int_to_string, join_path, join_path_spec,
    padded_int_to_string, parse_i32, parse_i32_spec, push_str, push_text, same_text, texts,
    int_str, padded_int_str, starts_with, trunc_div, trunc_rem,
};

verus! {

/// A program and its arguments.
#[derive(Clone, Debug)]
pub struct CommandTuple {
    pub binary_path: String,
    pub args: Vec<String>,
}

/// A failure of the sandbox infrastructure (not of the guest program).
#[derive(Clone, Debug)]
pub enum CommandError {
    /// The sandbox process could not be spawned or waited for.
    CommandIo(String),
    /// A file could not be copied into or out of the box.
    CopyIo(String),
    /// The sandbox itself failed; carries its standard error.
    IsolateCommandFailed(String),
    /// The sandbox wrote text that is not UTF-8.
    Utf8,
    /// A host path that should lie under the data directory does not.
    PathOutsideData(String),
}

/// An initialized sandbox slot.
#[derive(Clone, Debug)]
pub struct IsolateBox {
    pub id: i32,
    /// Host path of the box's writable directory.
    pub path: String,
}

/// What the host saw of a finished sandbox process.
#[derive(Clone, Debug)]
pub struct CommandOutput {
    /// The exit code, or `None` when the process ended by a signal.
    pub exit_code: Option<i32>,
    pub stdout: Vec<u8>,
    pub stderr: Vec<u8>,
}

pub struct RunParams {
    pub memory_limit_kib: i32,
    pub time_limit_ms: i32,
    /// Host path of the standard input, under `./data/`.
    pub stdin_path: Option<String>,
    pub uuid: String,
    pub restricted: bool,
    pub process_limit: i32,
    pub command: CommandTuple,
}

pub struct RunParamsView {
    pub memory_limit_kib: i32,
    pub time_limit_ms: i32,
    pub stdin_path: Option<Seq<char>>,
    pub uuid: Seq<char>,
    pub restricted: bool,
    pub process_limit: i32,
    pub binary_path: Seq<char>,
    pub args: Seq<Seq<char>>,
}

pub open spec fn opt_text(o: Option<String>) -> Option<Seq<char>> {
    match o {
        Some(s) => Some(s@),
        None => None,
    }
}

impl View for RunParams {
    type V = RunParamsView;

    open spec fn view(&self) -> RunParamsView {
        RunParamsView {
            memory_limit_kib: self.memory_limit_kib,
            time_limit_ms: self.time_limit_ms,
            stdin_path: opt_text(self.stdin_path),
            uuid: self.uuid@,
            restricted: self.restricted,
            process_limit: self.process_limit,
            binary_path: self.command.binary_path@,
            args: texts(self.command.args@),
        }
    }
}

pub struct ExecuteParams {
    pub uuid: String,
    pub memory_limit_kib: i32,
    pub time_limit_ms: i32,
    pub stdin_path: Option<String>,
    pub process_limit: i32,
}

pub struct CompileParams {
    pub uuid: String,
    pub memory_limit_kib: i32,
    pub time_limit_ms: i32,
    pub command: CommandTuple,
}

/// Wall-clock ceiling of every run, in milliseconds.
pub const WALL_TIME: i32 = 50_000;

/// Process limit of an unrestricted (compile) run.
pub const COMPILE_PROCESS_LIMIT: i32 = 40;

/// Exit signal of an abort, which allocators raise when memory runs out.
pub const SIGABRT: i32 = 6;

#[derive(Clone, Copy, Debug, PartialEq, Eq, Structural)]
pub enum RunStatus {
    Success,
    TimeLimitExceeded,
    MemoryLimitExceeded,
    RuntimeError,
    Signal,
    FailedToStart,
}

/// One sandbox execution's outcome.
#[derive(Clone, Debug)]
pub struct RunStats {
    pub time_ms: Option<i32>,
    pub time_wall_ms: Option<i32>,
    pub memory_kib: Option<i32>,
    pub exit_code: Option<i32>,
    pub message: Option<String>,
    pub exit_signal: Option<i32>,
    pub status: RunStatus,
    pub stdout_path: String,
    pub stderr_path: String,
}

pub struct RunStatsView {
    pub time_ms: Option<i32>,
    pub time_wall_ms: Option<i32>,
    pub memory_kib: Option<i32>,
    pub exit_code: Option<i32>,
    pub message: Option<Seq<char>>,
    pub exit_signal: Option<i32>,
    pub status: RunStatus,
    pub stdout_path: Seq<char>,
    pub stderr_path: Seq<char>,
}

impl View for RunStats {
    type V = RunStatsView;

    open spec fn view(&self) -> RunStatsView {
        RunStatsView {
            time_ms: self.time_ms,
            time_wall_ms: self.time_wall_ms,
            memory_kib: self.memory_kib,
            exit_code: self.exit_code,
            message: match self.message {
                Some(m) => Some(m@),
                None => None,
            },
            exit_signal: self.exit_signal,
            status: self.status,
            stdout_path: self.stdout_path@,
            stderr_path: self.stderr_path@,
        }
    }
}

/// Whether a run counts as a clean exit: exit code present and zero.
pub open spec fn exited_cleanly(s: RunStatsView) -> bool {
    s.exit_code == Some(0i32)
}

/// The stats before any meta line is read.
pub open spec fn initial_stats(box_path: Seq<char>) -> RunStatsView {
    RunStatsView {
        time_ms: None,
        time_wall_ms: None,
        memory_kib: None,
        exit_code: None,
        message: None,
        exit_signal: None,
        status: RunStatus::Success,
        stdout_path: join_path_spec(box_path, "stdout"@),
        stderr_path: join_path_spec(box_path, "stderr"@),
    }
}

/// A duration written `seconds.milliseconds`, in milliseconds; `None` when
/// either side is not an `i32` or the total leaves the range of `i32`.
pub open spec fn parse_ms_spec(s: Seq<char>) -> Option<i32> {
    match first_char_from(s, '.', 0) {
        Some(d) => match (parse_i32_spec(s.subrange(0, d)), parse_i32_spec(s.subrange(d + 1, s.len() as int))) {
            (Some(i), Some(f)) => {
                let t = i * 1000 + f;
                if i32::MIN <= t && t <= i32::MAX { Some(t as i32) } else { None }
            },
            _ => None,
        },
        None => None,
    }
}

/// The status after a `status:` line with code `code`.
pub open spec fn status_after(code: Seq<char>, current: RunStatus) -> RunStatus {
    if code == "RE"@ {
        RunStatus::RuntimeError
    } else if code == "TO"@ {
        RunStatus::TimeLimitExceeded
    } else if code == "XX"@ {
        RunStatus::FailedToStart
    } else if code == "SG"@ {
        if current == RunStatus::Success { RunStatus::Signal } else { current }
    } else {
        RunStatus::RuntimeError
    }
}

/// The effect of one `key:value` line of the meta report.
pub open spec fn apply_meta_line(s: RunStatsView, line: Seq<char>) -> RunStatsView {
    match first_char_from(line, ':', 0) {
        None => s,
        Some(c) => {
            let key = line.subrange(0, c);
            let value = line.subrange(c + 1, line.len() as int);
            if key == "time"@ {
                RunStatsView { time_ms: parse_ms_spec(value), ..s }
            } else if key == "time-wall"@ {
                RunStatsView { time_wall_ms: parse_ms_spec(value), ..s }
            } else if key == "cg-mem"@ {
                RunStatsView { memory_kib: parse_i32_spec(value), ..s }
            } else if key == "cg-oom-killed"@ {
                RunStatsView { status: RunStatus::MemoryLimitExceeded, ..s }
            } else if key == "exitcode"@ {
                RunStatsView { exit_code: parse_i32_spec(value), ..s }
            } else if key == "message"@ {
                RunStatsView { message: Some(value), ..s }
            } else if key == "exitsig"@ {
                RunStatsView { exit_signal: parse_i32_spec(value), ..s }
            } else if key == "status"@ {
                RunStatsView { status: status_after(value, s.status), ..s }
            } else {
                s
            }
        },
    }
}

/// The lines of `text` from index `from` on, split at `'\n'`, applied in
/// order to `s`.
pub open spec fn apply_meta_from(text: Seq<char>, s: RunStatsView, from: int) -> RunStatsView
    decreases text.len() - from,
{
    if from < 0 || from > text.len() {
        s
    } else {
        match first_char_from(text, '\n', from) {
            Some(e) => if from <= e < text.len() {
                apply_meta_from(text, apply_meta_line(s, text.subrange(from, e)), e + 1)
            } else {
                s
            },
            None => apply_meta_line(s, text.subrange(from, text.len() as int)),
        }
    }
}

/// The run statistics that a meta report describes.
pub open spec fn parse_meta_spec(text: Seq<char>, box_path: Seq<char>) -> RunStatsView {
    apply_meta_from(text, initial_stats(box_path), 0)
}

/// A death by `SIGABRT` at or above the memory limit is an out-of-memory
/// kill; every other outcome is kept.
pub open spec fn reclassify_oom_spec(s: RunStatsView, memory_limit_kib: i32) -> RunStatsView {
    if s.status == RunStatus::Signal && s.exit_signal == Some(SIGABRT) && s.memory_kib is Some
        && s.memory_kib->0 >= memory_limit_kib {
        RunStatsView { status: RunStatus::MemoryLimitExceeded, ..s }
    } else {
        s
    }
}

/// Parses a `seconds.milliseconds` duration into milliseconds.
pub fn parse_ms(input: &str) -> (r: Option<i32>)
    ensures
        r == parse_ms_spec(input@),
{
    let n = input.unicode_len();
    match find_char_from(input, '.', 0) {
        Some(d) => {
            let integer = parse_i32(input.substring_char(0, d));
            let fractional = parse_i32(input.substring_char(d + 1, n));
            match (integer, fractional) {
                (Some(i), Some(f)) => {
                    let t: i64 = (i as i64) * 1000 + (f as i64);
                    if i32::MIN as i64 <= t && t <= i32::MAX as i64 {
                        Some(t as i32)
                    } else {
                        None
                    }
                },
                _ => None,
            }
        },
        None => None,
    }
}

fn apply_status_code(code: &str, current: RunStatus) -> (r: RunStatus)
    ensures
        r == status_after(code@, current),
{
    if same_text(code, "RE") {
        RunStatus::RuntimeError
    } else if same_text(code, "TO") {
        RunStatus::TimeLimitExceeded
    } else if same_text(code, "XX") {
        RunStatus::FailedToStart
    } else if same_text(code, "SG") {
        if current == RunStatus::Success { RunStatus::Signal } else { current }
    } else {
        RunStatus::RuntimeError
    }
}

fn apply_line(stats: &mut RunStats, line: &str)
    ensures
        final(stats)@ == apply_meta_line(old(stats)@, line@),
{
    let n = line.unicode_len();
    match find_char_from(line, ':', 0) {
        None => {},
        Some(c) => {
            let key = line.substring_char(0, c);
            let value = line.substring_char(c + 1, n);
            if same_text(key, "time") {
                stats.time_ms = parse_ms(value);
            } else if same_text(key, "time-wall") {
                stats.time_wall_ms = parse_ms(value);
            } else if same_text(key, "cg-mem") {
                stats.memory_kib = parse_i32(value);
            } else if same_text(key, "cg-oom-killed") {
                stats.status = RunStatus::MemoryLimitExceeded;
            } else if same_text(key, "exitcode") {
                stats.exit_code = parse_i32(value);
            } else if same_text(key, "message") {
                stats.message = Some(value.to_owned());
            } else if same_text(key, "exitsig") {
                stats.exit_signal = parse_i32(value);
            } else if same_text(key, "status") {
                stats.status = apply_status_code(value, stats.status);
            }
        },
    }
}

/// Parses the sandbox's meta report (`key:value` lines) into run
/// statistics for a run in `isolate_box`.
pub fn parse_meta(text: &str, isolate_box: &IsolateBox) -> (r: RunStats)
    ensures
        r@ == parse_meta_spec(text@, isolate_box.path@),
{
    let mut stats = RunStats {
        time_ms: None,
        time_wall_ms: None,
        memory_kib: None,
        exit_code: None,
        message: None,
        exit_signal: None,
        status: RunStatus::Success,
        stdout_path: join_path(isolate_box.path.as_str(), "stdout"),
        stderr_path: join_path(isolate_box.path.as_str(), "stderr"),
    };
    let n = text.unicode_len();
    let mut from: usize = 0;
    loop
        invariant
            from <= n,
            n == text@.len(),
            parse_meta_spec(text@, isolate_box.path@) == apply_meta_from(text@, stats@, from as int),
        decreases n - from,
    {
        match find_char_from(text, '\n', from) {
            Some(e) => {
                let line = text.substring_char(from, e);
                apply_line(&mut stats, line);
                from = e + 1;
            },
            None => {
                let line = text.substring_char(from, n);
                apply_line(&mut stats, line);
                return stats;
            },
        }
    }
}

/// Applies the out-of-memory reclassification to parsed statistics.
pub fn reclassify_oom(stats: RunStats, memory_limit_kib: i32) -> (r: RunStats)
    ensures
        r@ == reclassify_oom_spec(stats@, memory_limit_kib),
{
    let mut s = stats;
    if s.status == RunStatus::Signal && s.exit_signal == Some(SIGABRT) {
        match s.memory_kib {
            Some(m) => {
                if m >= memory_limit_kib {
                    s.status = RunStatus::MemoryLimitExceeded;
                }
            },
            None => {},
        }
    }
    s
}


/// Whether the host-side exit of the sandbox process means the sandbox
/// itself failed: killed by a signal, or an exit code above 1.
pub open spec fn sandbox_failed(exit_code: Option<i32>) -> bool {
    match exit_code {
        None => true,
        Some(c) => c > 1,
    }
}

/// The error for a failed sandbox process with standard error `stderr`.
pub open spec fn failure_error_matches(e: CommandError, stderr: Seq<u8>) -> bool {
    match e {
        CommandError::IsolateCommandFailed(t) => valid_utf8(stderr) && t@ == decode_utf8(stderr),
        CommandError::Utf8 => !valid_utf8(stderr),
        _ => false,
    }
}

/// Relies on `std::str::from_utf8`: it succeeds exactly on valid UTF-8,
/// and the text is what the bytes decode to.
#[verifier::external_body]
fn utf8_text(bytes: &[u8]) -> (r: Option<String>)
    ensures
        r is Some <==> valid_utf8(bytes@),
        r is Some ==> r->0@ == decode_utf8(bytes@),
{
    match std::str::from_utf8(bytes) {
        Ok(t) => Some(t.to_string()),
        Err(_) => None,
    }
}

fn failure_error(stderr: &Vec<u8>) -> (e: CommandError)
    ensures
        failure_error_matches(e, stderr@),
{
    match utf8_text(stderr.as_slice()) {
        Some(t) => CommandError::IsolateCommandFailed(t),
        None => CommandError::Utf8,
    }
}

/// Turns the host's view of a finished `--run` into run statistics: a
/// sandbox failure is an error carrying its standard error; otherwise the
/// meta report on standard output is parsed and the out-of-memory
/// reclassification applied against `memory_limit_kib`.
pub fn finish_run(isolate_box: &IsolateBox, output: &CommandOutput, memory_limit_kib: i32) -> (r:
    Result<RunStats, CommandError>)
    ensures
        sandbox_failed(output.exit_code) ==> r is Err && failure_error_matches(r->Err_0, output.stderr@),
        !sandbox_failed(output.exit_code) ==> (r is Ok <==> valid_utf8(output.stdout@)),
        !sandbox_failed(output.exit_code) && r is Err ==> r->Err_0 is Utf8,
        r is Ok ==> r->Ok_0@ == reclassify_oom_spec(
            parse_meta_spec(decode_utf8(output.stdout@), isolate_box.path@),
            memory_limit_kib,
        ),
{
    let failed = match output.exit_code {
        None => true,
        Some(c) => c > 1,
    };
    if failed {
        return Err(failure_error(&output.stderr));
    }
    match utf8_text(output.stdout.as_slice()) {
        None => Err(CommandError::Utf8),
        Some(text) => {
            let stats = parse_meta(text.as_str(), isolate_box);
            Ok(reclassify_oom(stats, memory_limit_kib))
        },
    }
}

/// `char::is_whitespace`: the Unicode `White_Space` property.
pub open spec fn is_white_space(c: char) -> bool {
    ('\u{9}' <= c && c <= '\u{d}') || c == ' ' || c == '\u{85}' || c == '\u{a0}' || c == '\u{1680}'
        || ('\u{2000}' <= c && c <= '\u{200a}') || c == '\u{2028}' || c == '\u{2029}'
        || c == '\u{202f}' || c == '\u{205f}' || c == '\u{3000}'
}

/// `s` without its trailing white space.
pub open spec fn trim_end_spec(s: Seq<char>) -> Seq<char>
    decreases s.len(),
{
    if s.len() > 0 && is_white_space(s.last()) {
        trim_end_spec(s.drop_last())
    } else {
        s
    }
}

fn white_space(c: char) -> (r: bool)
    ensures
        r == is_white_space(c),
{
    ('\u{9}' <= c && c <= '\u{d}') || c == ' ' || c == '\u{85}' || c == '\u{a0}' || c == '\u{1680}'
        || ('\u{2000}' <= c && c <= '\u{200a}') || c == '\u{2028}' || c == '\u{2029}'
        || c == '\u{202f}' || c == '\u{205f}' || c == '\u{3000}'
}

/// `s` without its trailing white space.
pub fn trim_end(s: &str) -> (r: String)
    ensures
        r@ == trim_end_spec(s@),
{
    let mut k = s.unicode_len();
    assert(s@.subrange(0, k as int) =~= s@);
    while k > 0 && white_space(s.get_char(k - 1))
        invariant
            k <= s@.len(),
            trim_end_spec(s@) == trim_end_spec(s@.subrange(0, k as int)),
        decreases k,
    {
        assert(s@.subrange(0, k as int).drop_last() =~= s@.subrange(0, k - 1));
        k = k - 1;
    }
    s.substring_char(0, k).to_owned()
}

/// The box that `isolate --init --cg --box-id=<id>` set up, from what that
/// command wrote: the box root on standard output, whose `box`
/// subdirectory is the writable one. A nonzero exit is an error carrying
/// standard error.
pub fn new_isolate_box(id: i32, init_output: &CommandOutput) -> (r: Result<IsolateBox, CommandError>)
    ensures
        init_output.exit_code != Some(0i32) ==> r is Err && failure_error_matches(
            r->Err_0,
            init_output.stderr@,
        ),
        init_output.exit_code == Some(0i32) ==> (r is Ok <==> valid_utf8(init_output.stdout@)),
        init_output.exit_code == Some(0i32) && r is Err ==> r->Err_0 is Utf8,
        r is Ok ==> r->Ok_0.id == id && r->Ok_0.path@ == join_path_spec(
            trim_end_spec(decode_utf8(init_output.stdout@)),
            "box"@,
        ),
{
    let succeeded = match init_output.exit_code {
        Some(c) => c == 0,
        None => false,
    };
    if !succeeded {
        return Err(failure_error(&init_output.stderr));
    }
    match utf8_text(init_output.stdout.as_slice()) {
        None => Err(CommandError::Utf8),
        Some(text) => {
            let root = trim_end(text.as_str());
            Ok(IsolateBox { id, path: join_path(root.as_str(), "box") })
        },
    }
}


/// Host directory whose contents the guest sees under its data bind.
pub open spec fn host_data_prefix() -> Seq<char> {
    "./data/"@
}

/// The guest's bind point of the data directory for job `uuid`.
pub open spec fn guest_data_dir(uuid: Seq<char>) -> Seq<char> {
    "/data-"@ + uuid
}

/// The guest view of a host path under `./data/`; `None` for any other path.
pub open spec fn guest_path_spec(uuid: Seq<char>, host: Seq<char>) -> Option<Seq<char>> {
    if starts_with(host, host_data_prefix()) {
        Some(join_path_spec(guest_data_dir(uuid), host.subrange(host_data_prefix().len() as int, host.len() as int)))
    } else {
        None
    }
}

/// Whether a run is refused because its standard input lies outside
/// `./data/`.
pub open spec fn stdin_refused(uuid: Seq<char>, stdin_path: Option<Seq<char>>) -> bool {
    stdin_path is Some && guest_path_spec(uuid, stdin_path->0) is None
}

/// The guest view of a run's standard input, if it has one.
pub open spec fn guest_stdin(uuid: Seq<char>, stdin_path: Option<Seq<char>>) -> Option<Seq<char>> {
    match stdin_path {
        Some(p) => guest_path_spec(uuid, p),
        None => None,
    }
}

/// A limit in milliseconds written `seconds.milliseconds`, three digits
/// after the point.
pub open spec fn seconds_text(ms: int) -> Seq<char> {
    int_str(trunc_div(ms, 1000)) + "."@ + padded_int_str(trunc_rem(ms, 1000), 3)
}

pub open spec fn restricted_dirs() -> Seq<Seq<char>> {
    seq!["--dir=lib"@, "--dir=lib64:maybe"@, "--dir=usr/lib"@, "--dir=usr/bin"@, "--dir=proc=proc:fs"@]
}

pub open spec fn unrestricted_dirs() -> Seq<Seq<char>> {
    seq![
        "--dir=bin"@,
        "--dir=lib"@,
        "--dir=lib64:maybe"@,
        "--dir=usr/lib"@,
        "--dir=usr/libexec"@,
        "--dir=usr/bin"@,
        "--dir=usr/include"@,
        "--dir=proc=proc:fs"@,
    ]
}

/// The arguments of `isolate` for one run, `guest_stdin` being the guest
/// view of the standard input and `data_dir` the host's absolute data
/// directory.
pub open spec fn run_args_spec(
    box_id: i32,
    box_path: Seq<char>,
    p: RunParamsView,
    guest_stdin: Option<Seq<char>>,
    data_dir: Seq<char>,
) -> Seq<Seq<char>> {
    seq![
        "--run"@,
        "--cg"@,
        "--box-id="@ + int_str(box_id as int),
        "--wall-time="@ + seconds_text(WALL_TIME as int),
        "--time="@ + seconds_text(p.time_limit_ms as int),
        "--cg-mem="@ + int_str(p.memory_limit_kib as int),
    ] + match guest_stdin {
        Some(g) => seq!["--stdin="@ + g],
        None => Seq::empty(),
    } + seq![
        "--stdout=stdout"@,
        "--stderr=stderr"@,
        "--meta=-"@,
        "--env=PATH=/usr/bin"@,
        "--no-default-dirs"@,
        "--dir=box="@ + box_path + ":rw"@,
    ] + (if p.restricted { restricted_dirs() } else { unrestricted_dirs() }) + seq![
        "--processes="@ + int_str(p.process_limit as int),
        "--dir="@ + guest_data_dir(p.uuid) + "="@ + data_dir,
    ] + (if p.restricted { seq!["--fsize=0"@] } else { Seq::empty() }) + seq![
        "--"@,
        p.binary_path,
    ] + p.args
}

/// The guest view of a host path under `./data/`.
pub fn guest_path(uuid: &str, host: &str) -> (r: Result<String, CommandError>)
    ensures
        guest_path_spec(uuid@, host@) is Some <==> r is Ok,
        r is Ok ==> r->Ok_0@ == guest_path_spec(uuid@, host@)->0,
        r is Err ==> r->Err_0 is PathOutsideData && r->Err_0->PathOutsideData_0@ == host@,
{
    if !has_prefix(host, "./data/") {
        return Err(CommandError::PathOutsideData(host.to_owned()));
    }
    proof {
        reveal_strlit("./data/");
    }
    let n = host.unicode_len();
    let rest = host.substring_char(7, n);
    let dir = cat("/data-", uuid);
    Ok(join_path(dir.as_str(), rest))
}

fn seconds_string(ms: i32) -> (r: String)
    ensures
        r@ == seconds_text(ms as int),
{
    let neg = ms < 0;
    let a: i64 = if neg { -(ms as i64) } else { ms as i64 };
    let q: i64 = a / 1000;
    let m: i64 = a % 1000;
    let sq: i32 = if neg { (-q) as i32 } else { q as i32 };
    let sm: i32 = if neg { (-m) as i32 } else { m as i32 };
    let head = int_to_string(sq);
    let with_point = cat(head.as_str(), ".");
    let tail = padded_int_to_string(sm, 3);
    cat(with_point.as_str(), tail.as_str())
}

fn push_all(v: &mut Vec<String>, items: &Vec<String>)
    ensures
        texts(final(v)@) == texts(old(v)@) + texts(items@),
{
    let mut k: usize = 0;
    while k < items.len()
        invariant
            k <= items@.len(),
            texts(v@) == texts(old(v)@) + texts(items@.subrange(0, k as int)),
        decreases items@.len() - k,
    {
        push_str(v, items[k].as_str());
        assert(texts(items@.subrange(0, (k + 1) as int)) =~= texts(items@.subrange(0, k as int)).push(items@[k as int]@));
        k = k + 1;
    }
    assert(items@.subrange(0, k as int) =~= items@);
}

/// The argument vector of `isolate` for a run with `run_params` in
/// `isolate_box`, binding the host directory `data_dir` into the guest.
/// A standard input outside `./data/` is refused.
#[verifier::rlimit(50)]
pub fn run(isolate_box: &IsolateBox, run_params: &RunParams, data_dir: &str) -> (r: Result<Vec<String>, CommandError>)
    ensures
        !stdin_refused(run_params@.uuid, run_params@.stdin_path) ==> r is Ok && texts(r->Ok_0@)
            == run_args_spec(
            isolate_box.id,
            isolate_box.path@,
            run_params@,
            guest_stdin(run_params@.uuid, run_params@.stdin_path),
            data_dir@,
        ),
        stdin_refused(run_params@.uuid, run_params@.stdin_path) ==> r is Err && r->Err_0 is PathOutsideData
            && r->Err_0->PathOutsideData_0@ == run_params@.stdin_path->0,
{
    let stdin_arg: Option<String> = match &run_params.stdin_path {
        None => None,
        Some(p) => match guest_path(run_params.uuid.as_str(), p.as_str()) {
            Ok(g) => Some(cat("--stdin=", g.as_str())),
            Err(e) => { return Err(e); },
        },
    };
    let mut v: Vec<String> = Vec::new();
    push_str(&mut v, "--run");
    push_str(&mut v, "--cg");
    push_text(&mut v, cat("--box-id=", int_to_string(isolate_box.id).as_str()));
    push_text(&mut v, cat("--wall-time=", seconds_string(WALL_TIME).as_str()));
    push_text(&mut v, cat("--time=", seconds_string(run_params.time_limit_ms).as_str()));
    push_text(&mut v, cat("--cg-mem=", int_to_string(run_params.memory_limit_kib).as_str()));
    let ghost head = texts(v@);
    match stdin_arg {
        Some(a) => push_text(&mut v, a),
        None => {},
    }
    let ghost with_stdin = texts(v@);
    push_str(&mut v, "--stdout=stdout");
    push_str(&mut v, "--stderr=stderr");
    push_str(&mut v, "--meta=-");
    push_str(&mut v, "--env=PATH=/usr/bin");
    push_str(&mut v, "--no-default-dirs");
    let box_arg = cat("--dir=box=", isolate_box.path.as_str());
    push_text(&mut v, cat(box_arg.as_str(), ":rw"));
    let ghost before_dirs = texts(v@);
    if run_params.restricted {
        push_str(&mut v, "--dir=lib");
        push_str(&mut v, "--dir=lib64:maybe");
        push_str(&mut v, "--dir=usr/lib");
        push_str(&mut v, "--dir=usr/bin");
        push_str(&mut v, "--dir=proc=proc:fs");
        assert(texts(v@) =~= before_dirs + restricted_dirs());
    } else {
        push_str(&mut v, "--dir=bin");
        push_str(&mut v, "--dir=lib");
        push_str(&mut v, "--dir=lib64:maybe");
        push_str(&mut v, "--dir=usr/lib");
        push_str(&mut v, "--dir=usr/libexec");
        push_str(&mut v, "--dir=usr/bin");
        push_str(&mut v, "--dir=usr/include");
        push_str(&mut v, "--dir=proc=proc:fs");
        assert(texts(v@) =~= before_dirs + unrestricted_dirs());
    }
    let ghost after_dirs = texts(v@);
    push_text(&mut v, cat("--processes=", int_to_string(run_params.process_limit).as_str()));
    let guest_dir = cat("/data-", run_params.uuid.as_str());
    let bind_lhs = cat("--dir=", guest_dir.as_str());
    let bind_eq = cat(bind_lhs.as_str(), "=");
    push_text(&mut v, cat(bind_eq.as_str(), data_dir));
    let ghost before_fsize = texts(v@);
    if run_params.restricted {
        push_str(&mut v, "--fsize=0");
    }
    let ghost after_fsize = texts(v@);
    push_str(&mut v, "--");
    push_str(&mut v, run_params.command.binary_path.as_str());
    let ghost before_args = texts(v@);
    push_all(&mut v, &run_params.command.args);
    proof {
        let g = guest_stdin(run_params@.uuid, run_params@.stdin_path);
        let spec = run_args_spec(isolate_box.id, isolate_box.path@, run_params@, g, data_dir@);
        assert(with_stdin =~= head + match g {
            Some(x) => seq!["--stdin="@ + x],
            None => Seq::<Seq<char>>::empty(),
        });
        assert(after_fsize =~= before_fsize + (if run_params.restricted { seq!["--fsize=0"@] } else { Seq::<Seq<char>>::empty() }));
        assert(texts(v@) =~= spec);
    }
    Ok(v)
}

impl ExecuteParams {
    /// The run that these parameters describe for `command`.
    pub open spec fn run_view(&self, command: &CommandTuple, restricted: bool, process_limit: i32) -> RunParamsView {
        RunParamsView {
            memory_limit_kib: self.memory_limit_kib,
            time_limit_ms: self.time_limit_ms,
            stdin_path: opt_text(self.stdin_path),
            uuid: self.uuid@,
            restricted,
            process_limit,
            binary_path: command.binary_path@,
            args: texts(command.args@),
        }
    }
}

/// A copy of `o` with the same text.
pub fn copy_opt_text(o: &Option<String>) -> (r: Option<String>)
    ensures
        opt_text(r) == opt_text(*o),
{
    match o {
        Some(s) => Some(s.as_str().to_owned()),
        None => None,
    }
}

/// A copy of `v` with the same texts.
pub fn copy_texts(v: &Vec<String>) -> (r: Vec<String>)
    ensures
        texts(r@) == texts(v@),
{
    let mut r: Vec<String> = Vec::new();
    push_all(&mut r, v);
    assert(texts(r@) =~= texts(v@));
    r
}

/// A copy of `c` with the same texts.
pub fn copy_command(c: &CommandTuple) -> (r: CommandTuple)
    ensures
        r.binary_path@ == c.binary_path@,
        texts(r.args@) == texts(c.args@),
{
    CommandTuple { binary_path: c.binary_path.as_str().to_owned(), args: copy_texts(&c.args) }
}

/// The argument vector of a restricted run of `command`: no disk writes,
/// and the process limit of `execute_params`.
pub fn execute(
    isolate_box: &IsolateBox,
    command: &CommandTuple,
    execute_params: &ExecuteParams,
    data_dir: &str,
) -> (r: Result<Vec<String>, CommandError>)
    ensures
        ({
            let p = execute_params.run_view(command, true, execute_params.process_limit);
            &&& !stdin_refused(p.uuid, p.stdin_path) ==> r is Ok && texts(r->Ok_0@) == run_args_spec(
                isolate_box.id,
                isolate_box.path@,
                p,
                guest_stdin(p.uuid, p.stdin_path),
                data_dir@,
            )
            &&& stdin_refused(p.uuid, p.stdin_path) ==> r is Err && r->Err_0 is PathOutsideData
                && r->Err_0->PathOutsideData_0@ == p.stdin_path->0
        }),
{
    let p = RunParams {
        memory_limit_kib: execute_params.memory_limit_kib,
        time_limit_ms: execute_params.time_limit_ms,
        stdin_path: copy_opt_text(&execute_params.stdin_path),
        uuid: execute_params.uuid.as_str().to_owned(),
        restricted: true,
        process_limit: execute_params.process_limit,
        command: copy_command(command),
    };
    run(isolate_box, &p, data_dir)
}


impl CompileParams {
    /// The unrestricted run that these parameters describe.
    pub open spec fn run_view(&self) -> RunParamsView {
        RunParamsView {
            memory_limit_kib: self.memory_limit_kib,
            time_limit_ms: self.time_limit_ms,
            stdin_path: None,
            uuid: self.uuid@,
            restricted: false,
            process_limit: COMPILE_PROCESS_LIMIT,
            binary_path: self.command.binary_path@,
            args: texts(self.command.args@),
        }
    }
}

/// The argument vector of an unrestricted (compile) run: the extra
/// directory binds, no file-size limit, no standard input and up to
/// `COMPILE_PROCESS_LIMIT` processes.
pub fn compile(isolate_box: &IsolateBox, compile_params: &CompileParams, data_dir: &str) -> (r: Vec<String>)
    ensures
        texts(r@) == run_args_spec(isolate_box.id, isolate_box.path@, compile_params.run_view(), None, data_dir@),
{
    let p = RunParams {
        memory_limit_kib: compile_params.memory_limit_kib,
        time_limit_ms: compile_params.time_limit_ms,
        stdin_path: None,
        uuid: compile_params.uuid.as_str().to_owned(),
        restricted: false,
        process_limit: COMPILE_PROCESS_LIMIT,
        command: copy_command(&compile_params.command),
    };
    match run(isolate_box, &p, data_dir) {
        Ok(v) => v,
        Err(_) => {
            assert(false);
            Vec::new()
        },
    }
}


/// A run killed by `SIGABRT` with memory use `m` against limit `l` is
/// reported as out of memory exactly when `m >= l`, and as a signal
/// otherwise.
pub proof fn lemma_oom_reclassification(s: RunStatsView, m: i32, l: i32)
    requires
        s.status == RunStatus::Signal,
        s.exit_signal == Some(SIGABRT),
        s.memory_kib == Some(m),
    ensures
        reclassify_oom_spec(s, l).status == RunStatus::MemoryLimitExceeded <==> m >= l,
        m < l ==> reclassify_oom_spec(s, l).status == RunStatus::Signal,
{
}

/// Parsing a meta report depends on its text alone: equal texts give equal
/// statistics.
pub proof fn lemma_parse_meta_pure(a: Seq<char>, b: Seq<char>, box_path: Seq<char>)
    requires
        a == b,
    ensures
        parse_meta_spec(a, box_path) == parse_meta_spec(b, box_path),
{
}

} // verus!
