use jughisto::problem_package::{
    package_language, problem_settings, AnswerPathPattern, Assets, Binary, Checker, CheckerTestset, Executables,
    Files, InputPathPattern, Judging, MemoryLimit, Name, Names, PackageError, Problem, Properties, Resources,
    Solution, Solutions, Source, Statements, StressList, Stresses, Tags, TestCount, Tests, Testset, TimeLimit,
    Validator, ValidatorTestset, Validators, VerdictTests,
};

fn source(path: &str, kind: &str) -> Source {
    Source { path: path.to_string(), kind: kind.to_string() }
}

fn binary(path: &str) -> Binary {
    Binary { path: path.to_string(), kind: "exe.win32".to_string() }
}

fn count(v: &str) -> TestCount {
    TestCount { value: v.to_string() }
}

fn package() -> Problem {
    Problem {
        url: "https://polygon.codeforces.com/p/x/sum".to_string(),
        revision: "4".to_string(),
        short_name: "sum".to_string(),
        names: Names { name: vec![Name { language: "english".to_string(), value: "A plus B".to_string() }] },
        statements: Statements { statement: vec![] },
        judging: Judging {
            cpu_name: "Intel".to_string(),
            cpu_speed: "3600".to_string(),
            input_file: String::new(),
            output_file: String::new(),
            testset: vec![Testset {
                name: "tests".to_string(),
                time_limit: TimeLimit { value: "1000".to_string() },
                memory_limit: MemoryLimit { value: "268435456".to_string() },
                test_count: count("12"),
                input_path_pattern: InputPathPattern { value: "tests/%02d".to_string() },
                answer_path_pattern: AnswerPathPattern { value: "tests/%02d.a".to_string() },
                tests: Tests { test: vec![] },
            }],
        },
        files: Files { resources: Resources { file: vec![] }, executables: Executables { executable: vec![] } },
        assets: Assets {
            checker: Checker {
                name: "std::ncmp.cpp".to_string(),
                kind: "testlib".to_string(),
                source: source("files/check.cpp", "cpp.g++17"),
                binary: binary("check.exe"),
                copy: jughisto::problem_package::Copy { path: "check.cpp".to_string() },
                testset: CheckerTestset {
                    test_count: count("0"),
                    input_path_pattern: InputPathPattern { value: String::new() },
                    answer_path_pattern: AnswerPathPattern { value: String::new() },
                    tests: VerdictTests { test: None },
                },
            },
            validators: Validators {
                validator: vec![Validator {
                    source: source("files/val.cpp", "cpp.g++17"),
                    binary: binary("val.exe"),
                    testset: ValidatorTestset {
                        test_count: count("0"),
                        input_path_pattern: InputPathPattern { value: String::new() },
                        tests: VerdictTests { test: None },
                    },
                }],
            },
            solutions: Solutions {
                solution: vec![
                    Solution { tag: "accepted".to_string(), source: source("solutions/b.py", "python.3"), binary: binary("b") },
                    Solution { tag: "main".to_string(), source: source("solutions/a.java", "java.8"), binary: binary("a") },
                ],
            },
        },
        properties: Properties { property: None },
        stresses: Stresses { stress_count: "0".to_string(), stress_path_pattern: String::new(), list: StressList {} },
        tags: Tags { tag: None },
    }
}

#[test]
fn settings_are_read_off_the_package() {
    let s = problem_settings(&package()).unwrap();
    assert_eq!(s.name, "A plus B");
    assert_eq!(s.memory_limit_bytes, 268435456);
    assert_eq!(s.time_limit_ms, 1000);
    assert_eq!(s.checker_path, "files/check.cpp");
    assert_eq!(s.checker_language, "cpp.17.g++");
    assert_eq!(s.validator_path, "files/val.cpp");
    assert_eq!(s.validator_language, "cpp.17.g++");
    assert_eq!(s.main_solution_path, "solutions/a.java");
    assert_eq!(s.main_solution_language, "java.8");
    assert_eq!(s.test_count, 12);
    assert_eq!(s.test_pattern, "tests/%02d");
}

#[test]
fn settings_errors() {
    let mut p = package();
    p.judging.testset[0].time_limit.value = "1s".to_string();
    assert!(matches!(problem_settings(&p), Err(PackageError::InvalidNumber(t)) if t == "1s"));

    let mut p = package();
    p.assets.solutions.solution.remove(1);
    assert!(matches!(problem_settings(&p), Err(PackageError::NoMainSolution)));

    let mut p = package();
    p.assets.checker.kind = "pascal".to_string();
    assert!(matches!(problem_settings(&p), Err(PackageError::UnsupportedLanguage(t)) if t == "pascal"));

    let mut p = package();
    p.judging.testset.clear();
    assert!(matches!(problem_settings(&p), Err(PackageError::MissingTestset)));

    let mut p = package();
    p.names.name.clear();
    assert!(matches!(problem_settings(&p), Err(PackageError::MissingName)));

    let mut p = package();
    p.assets.validators.validator.clear();
    assert!(matches!(problem_settings(&p), Err(PackageError::MissingValidator)));
}

#[test]
fn package_language_keys() {
    assert_eq!(package_language("cpp.g++17"), Some("cpp.17.g++".to_string()));
    assert_eq!(package_language("testlib"), Some("cpp.17.g++".to_string()));
    assert_eq!(package_language("java.8"), Some("java.8".to_string()));
    assert_eq!(package_language("python.3"), None);
}
