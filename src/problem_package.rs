//! The description of a problem package (its `problem.xml`), as plain
//! data, and the judging settings it determines.
use vstd::prelude::*;
use crate::text::{parse_i32, parse_i32_spec, same_text};

verus! {

#[derive(Clone, Debug)]
pub struct Problem {
    pub url: String,
    pub revision: String,
    pub short_name: String,
    pub names: Names,
    pub statements: Statements,
    pub judging: Judging,
    pub files: Files,
    pub assets: Assets,
    pub properties: Properties,
    pub stresses: Stresses,
    pub tags: Tags,
}

#[derive(Clone, Debug)]
pub struct Names {
    pub name: Vec<Name>,
}

#[derive(Clone, Debug)]
pub struct Name {
    pub language: String,
    pub value: String,
}

#[derive(Clone, Debug)]
pub struct Statements {
    pub statement: Vec<Statement>,
}

#[derive(Clone, Debug)]
pub struct Statement {
    pub charset: Option<String>,
    pub language: String,
    pub mathjax: Option<bool>,
    pub path: String,
    pub kind: String,
}

#[derive(Clone, Debug)]
pub struct Judging {
    pub cpu_name: String,
    pub cpu_speed: String,
    pub input_file: String,
    pub output_file: String,
    pub testset: Vec<Testset>,
}

#[derive(Clone, Debug)]
pub struct Testset {
    pub name: String,
    pub time_limit: TimeLimit,
    pub memory_limit: MemoryLimit,
    pub test_count: TestCount,
    pub input_path_pattern: InputPathPattern,
    pub answer_path_pattern: AnswerPathPattern,
    pub tests: Tests,
}

#[derive(Clone, Debug)]
pub struct TimeLimit {
    pub value: String,
}

#[derive(Clone, Debug)]
pub struct MemoryLimit {
    pub value: String,
}

#[derive(Clone, Debug)]
pub struct TestCount {
    pub value: String,
}

#[derive(Clone, Debug)]
pub struct InputPathPattern {
    pub value: String,
}

#[derive(Clone, Debug)]
pub struct AnswerPathPattern {
    pub value: String,
}

#[derive(Clone, Debug)]
pub struct Tests {
    pub test: Vec<Test>,
}

#[derive(Clone, Debug)]
pub struct Test {
    pub method: Option<String>,
    pub sample: Option<bool>,
    pub description: Option<String>,
    pub cmd: Option<String>,
}

#[derive(Clone, Debug)]
pub struct Files {
    pub resources: Resources,
    pub executables: Executables,
}

#[derive(Clone, Debug)]
pub struct Resources {
    pub file: Vec<File>,
}

#[derive(Clone, Debug)]
pub struct File {
    pub path: String,
}

#[derive(Clone, Debug)]
pub struct Executables {
    pub executable: Vec<Executable>,
}

#[derive(Clone, Debug)]
pub struct Executable {
    pub source: Source,
    pub binary: Binary,
}

#[derive(Clone, Debug)]
pub struct Source {
    pub path: String,
    pub kind: String,
}

#[derive(Clone, Debug)]
pub struct Binary {
    pub path: String,
    pub kind: String,
}

#[derive(Clone, Debug)]
pub struct Assets {
    pub checker: Checker,
    pub validators: Validators,
    pub solutions: Solutions,
}

#[derive(Clone, Debug)]
pub struct Checker {
    pub name: String,
    pub kind: String,
    pub source: Source,
    pub binary: Binary,
    pub copy: Copy,
    pub testset: CheckerTestset,
}

#[derive(Clone, Debug)]
pub struct CheckerTestset {
    pub test_count: TestCount,
    pub input_path_pattern: InputPathPattern,
    pub answer_path_pattern: AnswerPathPattern,
    pub tests: VerdictTests,
}

#[derive(Clone, Debug)]
pub struct Copy {
    pub path: String,
}

#[derive(Clone, Debug)]
pub struct Validators {
    pub validator: Vec<Validator>,
}

#[derive(Clone, Debug)]
pub struct Validator {
    pub source: Source,
    pub binary: Binary,
    pub testset: ValidatorTestset,
}

#[derive(Clone, Debug)]
pub struct ValidatorTestset {
    pub test_count: TestCount,
    pub input_path_pattern: InputPathPattern,
    pub tests: VerdictTests,
}

#[derive(Clone, Debug)]
pub struct VerdictTests {
    pub test: Option<Vec<VerdictTest>>,
}

#[derive(Clone, Debug)]
pub struct VerdictTest {
    pub verdict: String,
}

#[derive(Clone, Debug)]
pub struct Solutions {
    pub solution: Vec<Solution>,
}

#[derive(Clone, Debug)]
pub struct Solution {
    pub tag: String,
    pub source: Source,
    pub binary: Binary,
}

#[derive(Clone, Debug)]
pub struct Properties {
    pub property: Option<Vec<Property>>,
}

#[derive(Clone, Debug)]
pub struct Property {
    pub name: String,
    pub value: String,
}

#[derive(Clone, Debug)]
pub struct Stresses {
    pub stress_count: String,
    pub stress_path_pattern: String,
    pub list: StressList,
}

#[derive(Clone, Debug)]
pub struct StressList {}

#[derive(Clone, Debug)]
pub struct Tags {
    pub tag: Option<Vec<Tag>>,
}

#[derive(Clone, Debug)]
pub struct Tag {
    pub value: String,
}

/// What judging a problem needs, as a package determines it.
pub struct ProblemSettings {
    pub name: String,
    pub memory_limit_bytes: i32,
    pub time_limit_ms: i32,
    pub checker_path: String,
    pub checker_language: String,
    pub validator_path: String,
    pub validator_language: String,
    pub main_solution_path: String,
    pub main_solution_language: String,
    pub test_count: i32,
    pub test_pattern: String,
}

/// Why a package cannot be judged.
#[derive(Clone, Debug)]
pub enum PackageError {
    /// The problem has no name.
    MissingName,
    /// The problem has no test set.
    MissingTestset,
    /// A limit or count is not an `i32`; carries the text.
    InvalidNumber(String),
    /// A program's type names no supported language; carries the type.
    UnsupportedLanguage(String),
    MissingValidator,
    NoMainSolution,
}

/// The language key for a package's program type.
pub open spec fn package_language_spec(kind: Seq<char>) -> Option<Seq<char>> {
    if kind == "cpp.g++17"@ {
        Some("cpp.17.g++"@)
    } else if kind == "java.8"@ {
        Some("java.8"@)
    } else if kind == "testlib"@ {
        Some("cpp.17.g++"@)
    } else {
        None
    }
}

/// The language key for a package's program type (`None` when none is
/// supported).
pub fn package_language(kind: &str) -> (r: Option<String>)
    ensures
        match package_language_spec(kind@) {
            Some(k) => r is Some && r->0@ == k,
            None => r is None,
        },
{
    if same_text(kind, "cpp.g++17") {
        Some("cpp.17.g++".to_owned())
    } else if same_text(kind, "java.8") {
        Some("java.8".to_owned())
    } else if same_text(kind, "testlib") {
        Some("cpp.17.g++".to_owned())
    } else {
        None
    }
}

/// The index of the first solution tagged `main`.
pub open spec fn main_solution_from(s: Seq<Solution>, i: int) -> Option<int>
    decreases s.len() - i,
{
    if i < 0 || i >= s.len() {
        None
    } else if s[i].tag@ == "main"@ {
        Some(i)
    } else {
        main_solution_from(s, i + 1)
    }
}

/// The error (if any) that stops settings from being read off `p`, in the
/// order the fields are read.
pub open spec fn settings_error(p: Problem) -> Option<PackageError> {
    let ts = p.judging.testset@;
    let vs = p.assets.validators.validator@;
    let main = main_solution_from(p.assets.solutions.solution@, 0);
    if p.names.name@.len() == 0 {
        Some(PackageError::MissingName)
    } else if ts.len() == 0 {
        Some(PackageError::MissingTestset)
    } else if parse_i32_spec(ts[0].memory_limit.value@) is None {
        Some(PackageError::InvalidNumber(ts[0].memory_limit.value))
    } else if parse_i32_spec(ts[0].time_limit.value@) is None {
        Some(PackageError::InvalidNumber(ts[0].time_limit.value))
    } else if package_language_spec(p.assets.checker.kind@) is None {
        Some(PackageError::UnsupportedLanguage(p.assets.checker.kind))
    } else if vs.len() == 0 {
        Some(PackageError::MissingValidator)
    } else if package_language_spec(vs[0].source.kind@) is None {
        Some(PackageError::UnsupportedLanguage(vs[0].source.kind))
    } else if main is None {
        Some(PackageError::NoMainSolution)
    } else if package_language_spec(p.assets.solutions.solution@[main->0].source.kind@) is None {
        Some(PackageError::UnsupportedLanguage(p.assets.solutions.solution@[main->0].source.kind))
    } else if parse_i32_spec(ts[0].test_count.value@) is None {
        Some(PackageError::InvalidNumber(ts[0].test_count.value))
    } else {
        None
    }
}

/// The settings read off a package that has none of the errors above.
pub open spec fn settings_match(s: ProblemSettings, p: Problem) -> bool {
    let ts = p.judging.testset@[0];
    let v = p.assets.validators.validator@[0];
    let m = p.assets.solutions.solution@[main_solution_from(p.assets.solutions.solution@, 0)->0];
    &&& s.name@ == p.names.name@[0].value@
    &&& Some(s.memory_limit_bytes) == parse_i32_spec(ts.memory_limit.value@)
    &&& Some(s.time_limit_ms) == parse_i32_spec(ts.time_limit.value@)
    &&& s.checker_path@ == p.assets.checker.source.path@
    &&& Some(s.checker_language@) == package_language_spec(p.assets.checker.kind@)
    &&& s.validator_path@ == v.source.path@
    &&& Some(s.validator_language@) == package_language_spec(v.source.kind@)
    &&& s.main_solution_path@ == m.source.path@
    &&& Some(s.main_solution_language@) == package_language_spec(m.source.kind@)
    &&& Some(s.test_count) == parse_i32_spec(ts.test_count.value@)
    &&& s.test_pattern@ == ts.input_path_pattern.value@
}

fn main_solution(s: &Vec<Solution>) -> (r: Option<usize>)
    ensures
        r is Some ==> main_solution_from(s@, 0) == Some(r->0 as int) && r->0 < s@.len(),
        r is None ==> main_solution_from(s@, 0) is None,
{
    let mut i: usize = 0;
    while i < s.len()
        invariant
            i <= s@.len(),
            main_solution_from(s@, 0) == main_solution_from(s@, i as int),
        decreases s@.len() - i,
    {
        if same_text(s[i].tag.as_str(), "main") {
            return Some(i);
        }
        i = i + 1;
    }
    None
}

fn number(text: &String) -> (r: Result<i32, PackageError>)
    ensures
        match parse_i32_spec(text@) {
            Some(v) => r == Ok::<i32, PackageError>(v),
            None => r is Err && r->Err_0 is InvalidNumber && r->Err_0->InvalidNumber_0@ == text@,
        },
{
    match parse_i32(text.as_str()) {
        Some(v) => Ok(v),
        None => Err(PackageError::InvalidNumber(text.as_str().to_owned())),
    }
}

fn language_of(kind: &String) -> (r: Result<String, PackageError>)
    ensures
        match package_language_spec(kind@) {
            Some(k) => r is Ok && r->Ok_0@ == k,
            None => r is Err && r->Err_0 is UnsupportedLanguage && r->Err_0->UnsupportedLanguage_0@ == kind@,
        },
{
    match package_language(kind.as_str()) {
        Some(k) => Ok(k),
        None => Err(PackageError::UnsupportedLanguage(kind.as_str().to_owned())),
    }
}

/// The judging settings of the problem that `p` describes: its first name,
/// the limits, test count and input pattern of its first test set, and the
/// paths and languages of its checker, first validator and main solution.
pub fn problem_settings(p: &Problem) -> (r: Result<ProblemSettings, PackageError>)
    ensures
        match settings_error(*p) {
            None => r is Ok && settings_match(r->Ok_0, *p),
            Some(e) => r is Err && match (e, r->Err_0) {
                (PackageError::InvalidNumber(a), PackageError::InvalidNumber(b)) => a@ == b@,
                (PackageError::UnsupportedLanguage(a), PackageError::UnsupportedLanguage(b)) => a@ == b@,
                (PackageError::MissingName, PackageError::MissingName) => true,
                (PackageError::MissingTestset, PackageError::MissingTestset) => true,
                (PackageError::MissingValidator, PackageError::MissingValidator) => true,
                (PackageError::NoMainSolution, PackageError::NoMainSolution) => true,
                _ => false,
            },
        },
{
    if p.names.name.len() == 0 {
        return Err(PackageError::MissingName);
    }
    if p.judging.testset.len() == 0 {
        return Err(PackageError::MissingTestset);
    }
    let ts = &p.judging.testset[0];
    let memory_limit_bytes = match number(&ts.memory_limit.value) {
        Ok(x) => x,
        Err(e) => {
            return Err(e);
        },
    };
    let time_limit_ms = match number(&ts.time_limit.value) {
        Ok(x) => x,
        Err(e) => {
            return Err(e);
        },
    };
    let checker_language = match language_of(&p.assets.checker.kind) {
        Ok(x) => x,
        Err(e) => {
            return Err(e);
        },
    };
    if p.assets.validators.validator.len() == 0 {
        return Err(PackageError::MissingValidator);
    }
    let v = &p.assets.validators.validator[0];
    let validator_language = match language_of(&v.source.kind) {
        Ok(x) => x,
        Err(e) => {
            return Err(e);
        },
    };
    let main = match main_solution(&p.assets.solutions.solution) {
        Some(i) => i,
        None => {
            return Err(PackageError::NoMainSolution);
        },
    };
    assert(main_solution_from(p.assets.solutions.solution@, 0) == Some(main as int));
    let m = &p.assets.solutions.solution[main];
    assert(*m == p.assets.solutions.solution@[main as int]);
    let main_solution_language = match language_of(&m.source.kind) {
        Ok(x) => x,
        Err(e) => {
            return Err(e);
        },
    };
    let test_count = match number(&ts.test_count.value) {
        Ok(x) => x,
        Err(e) => {
            return Err(e);
        },
    };
    Ok(ProblemSettings {
        name: p.names.name[0].value.as_str().to_owned(),
        memory_limit_bytes,
        time_limit_ms,
        checker_path: p.assets.checker.source.path.as_str().to_owned(),
        checker_language,
        validator_path: v.source.path.as_str().to_owned(),
        validator_language,
        main_solution_path: m.source.path.as_str().to_owned(),
        main_solution_language,
        test_count,
        test_pattern: ts.input_path_pattern.value.as_str().to_owned(),
    })
}

} // verus!
