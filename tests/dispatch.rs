use jughisto::dispatcher::{advertised_languages, claim, judgement_job, run_cached_job, Claim, LanguageCatalog};
use jughisto::job::{JobKind, JobResult, Language, ResultCode, ResultPayload, RunCachedResult, RunResult};
use jughisto::language::get_supported_languages;

fn lang(key: &str, name: &str, order: i32) -> Language {
    Language { key: key.to_string(), name: name.to_string(), order }
}

#[test]
fn catalog_keeps_the_last_write_per_key() {
    let mut catalog = LanguageCatalog::new();
    catalog.merge(vec![lang("cpp", "G++ 11", 2), lang("py", "Python", 8)]);
    catalog.merge(vec![lang("cpp", "G++ 12", 3), lang("cpp", "G++ 13", 4)]);
    assert_eq!(catalog.languages.len(), 2);
    let cpp = catalog.languages.get("cpp").unwrap();
    assert_eq!(cpp.name, "G++ 13");
    assert_eq!(cpp.order, 4);
    assert_eq!(catalog.languages.get("py").unwrap().name, "Python");
}

#[test]
fn results_are_claimed_by_uuid() {
    let payload = RunCachedResult {
        result: RunResult::Success,
        exit_code: 0,
        exit_signal: None,
        time_ms: 1,
        time_wall_ms: 2,
        memory_kib: 3,
        error_output: String::new(),
    };
    let mine = JobResult { uuid: "a".to_string(), code: ResultCode::Success, which: Some(ResultPayload::RunCached(payload)) };
    assert!(matches!(claim("a", mine.clone()), Claim::RanOnce(_)));
    assert!(matches!(claim("b", mine), Claim::NotMine));
    let refused = JobResult { uuid: "a".to_string(), code: ResultCode::InvalidLanguage, which: None };
    assert!(matches!(claim("a", refused), Claim::Failed));
}

#[test]
fn jobs_are_built_from_their_parts() {
    let job = judgement_job(
        "u".to_string(),
        "python.3".to_string(),
        "print(1)".to_string(),
        3,
        "p/%02d".to_string(),
        "cpp.17.g++".to_string(),
        "p/check.cpp".to_string(),
        1024,
        1000,
    );
    assert_eq!(job.memory_limit_kib, 1024);
    match job.which {
        Some(JobKind::Judgement(j)) => assert_eq!(j.test_count, 3),
        _ => panic!("a judgement"),
    }
    let once = run_cached_job("v".to_string(), "c.18.gcc".to_string(), "p/gen.c".to_string(), vec!["7".to_string()], None, None, 1, 2);
    assert!(matches!(once.which, Some(JobKind::RunCached(_))));
}

#[test]
fn workers_advertise_their_registry() {
    let registry = get_supported_languages("g++ 12.2.0", "gcc 12.2.0").unwrap();
    let langs = advertised_languages(&registry);
    assert_eq!(langs.len(), 5);
    assert_eq!(langs[0].key, "cpp.17.g++");
    assert_eq!(langs[0].name, "GNU G++17 12.2.0");
    assert_eq!(langs[4].key, "python.3");
    assert_eq!(langs[4].order, 8);
}

