//! The dispatcher's bookkeeping: the catalog of languages that workers
//! advertise, the jobs that the host enqueues, and which broadcast result
//! answers which job.
use vstd::prelude::*;
use dashmap::DashMap;
use crate::job::{Job, JobKind, JobResult, JudgementJob, JudgementResult, Language, ResultPayload, RunCachedJob, RunCachedResult};
use crate::language::LanguageRegistry;
use crate::text::same_text;

verus! {

#[verifier::external_type_specification]
#[verifier::external_body]
#[verifier::reject_recursive_types(K)]
#[verifier::reject_recursive_types(V)]
#[verifier::reject_recursive_types(S)]
pub struct ExDashMap<K, V, S>(DashMap<K, V, S>);

/// Advertised languages by key, as the dispatcher shares them.
pub type LanguageMap = DashMap<String, Language>;

/// A language's advertised name and display order.
pub open spec fn language_info(l: Language) -> (Seq<char>, i32) {
    (l.name@, l.order)
}

/// What a map of advertised languages holds: for each key, the name and
/// display order stored under it.
pub uninterp spec fn catalog_contents(m: DashMap<String, Language>) -> Map<Seq<char>, (Seq<char>, i32)>;

/// The catalog before any language is advertised.
pub open spec fn no_languages() -> Map<Seq<char>, (Seq<char>, i32)> {
    Map::empty()
}

/// Relies on `dashmap::DashMap::new`: the map starts empty.
#[verifier::external_body]
fn empty_language_map() -> (r: LanguageMap)
    ensures
        catalog_contents(r) == no_languages(),
{
    DashMap::new()
}

/// Relies on `dashmap::DashMap::insert`: the language is stored under its
/// key, replacing what was there; other keys keep their values.
#[verifier::external_body]
fn insert_language(m: &mut DashMap<String, Language>, l: Language)
    ensures
        catalog_contents(*final(m)) == catalog_contents(*old(m)).insert(l.key@, language_info(l)),
{
    m.insert(l.key.clone(), l);
}

/// `m` after the languages of `ls` are written into it in order, a later
/// one replacing an earlier one with the same key.
pub open spec fn merge_spec(m: Map<Seq<char>, (Seq<char>, i32)>, ls: Seq<Language>) -> Map<Seq<char>, (Seq<char>, i32)>
    decreases ls.len(),
{
    if ls.len() == 0 {
        m
    } else {
        merge_spec(m, ls.drop_last()).insert(ls.last().key@, language_info(ls.last()))
    }
}

/// The languages workers have advertised, one entry per key.
pub struct LanguageCatalog {
    pub languages: DashMap<String, Language>,
}

impl LanguageCatalog {
    pub fn new() -> (r: LanguageCatalog)
        ensures
            r.view_map() == no_languages(),
    {
        LanguageCatalog { languages: empty_language_map() }
    }

    /// The catalog as a map from key to name and display order.
    pub open spec fn view_map(&self) -> Map<Seq<char>, (Seq<char>, i32)> {
        catalog_contents(self.languages)
    }

    /// Records one advertised language, replacing what was known under its
    /// key.
    pub fn insert(&mut self, l: Language)
        ensures
            final(self).view_map() == old(self).view_map().insert(l.key@, language_info(l)),
    {
        insert_language(&mut self.languages, l);
    }

    /// Records the languages a worker advertised, in order, each replacing
    /// what was known under its key.
    pub fn merge(&mut self, languages: Vec<Language>)
        ensures
            final(self).view_map() == merge_spec(old(self).view_map(), languages@),
    {
        let ghost start = self.view_map();
        let mut rest = languages;
        let ghost mut taken: Seq<Language> = Seq::empty();
        while rest.len() > 0
            invariant
                taken + rest@ =~= languages@,
                self.view_map() == merge_spec(start, taken),
            decreases rest@.len(),
        {
            let l = rest.remove(0);
            let ghost lv = l;
            self.insert(l);
            proof {
                let prev = taken;
                taken = taken.push(lv);
                assert(taken.drop_last() =~= prev);
            }
        }
        assert(taken =~= languages@);
    }
}

/// What a broadcast result means to a host waiting on job `uuid`.
pub enum Claim {
    /// The result answers another job.
    NotMine,
    /// The job was judged.
    Judged(JudgementResult),
    /// The job ran once, or its program did not compile.
    RanOnce(RunCachedResult),
    /// The job was refused (unknown language) or answered with no payload.
    Failed,
}

/// Sorts a broadcast result for a host waiting on job `uuid`.
pub fn claim(uuid: &str, result: JobResult) -> (r: Claim)
    ensures
        result.uuid@ != uuid@ <==> r is NotMine,
        result.uuid@ == uuid@ ==> match result.which {
            Some(ResultPayload::Judgement(j)) => r == Claim::Judged(j),
            Some(ResultPayload::RunCached(c)) => r == Claim::RanOnce(c),
            None => r is Failed,
        },
{
    if !same_text(result.uuid.as_str(), uuid) {
        return Claim::NotMine;
    }
    match result.which {
        Some(ResultPayload::Judgement(j)) => Claim::Judged(j),
        Some(ResultPayload::RunCached(c)) => Claim::RanOnce(c),
        None => Claim::Failed,
    }
}

/// The job that judges `source_text` on `test_count` tests.
pub fn judgement_job(
    uuid: String,
    language: String,
    source_text: String,
    test_count: i32,
    test_pattern: String,
    checker_language: String,
    checker_source_path: String,
    memory_limit_kib: i32,
    time_limit_ms: i32,
) -> (r: Job)
    ensures
        r.uuid == uuid,
        r.language == language,
        r.memory_limit_kib == memory_limit_kib,
        r.time_limit_ms == time_limit_ms,
        r.which == Some(JobKind::Judgement(JudgementJob {
            source_text,
            test_count,
            test_pattern,
            checker_language,
            checker_source_path,
        })),
{
    Job {
        uuid,
        language,
        time_limit_ms,
        memory_limit_kib,
        which: Some(JobKind::Judgement(JudgementJob {
            source_text,
            test_count,
            test_pattern,
            checker_language,
            checker_source_path,
        })),
    }
}

/// The job that runs the program at `source_path` once, compiling it first
/// unless its artifact is already kept.
pub fn run_cached_job(
    uuid: String,
    language: String,
    source_path: String,
    arguments: Vec<String>,
    stdin_path: Option<String>,
    stdout_path: Option<String>,
    memory_limit_kib: i32,
    time_limit_ms: i32,
) -> (r: Job)
    ensures
        r.uuid == uuid,
        r.language == language,
        r.memory_limit_kib == memory_limit_kib,
        r.time_limit_ms == time_limit_ms,
        r.which == Some(JobKind::RunCached(RunCachedJob { source_path, arguments, stdin_path, stdout_path })),
{
    Job {
        uuid,
        language,
        time_limit_ms,
        memory_limit_kib,
        which: Some(JobKind::RunCached(RunCachedJob { source_path, arguments, stdin_path, stdout_path })),
    }
}

/// What a worker advertises: each registered language's key, display name
/// and order, in registry order.
pub fn advertised_languages(registry: &LanguageRegistry) -> (r: Vec<Language>)
    ensures
        r@.len() == registry@.len(),
        forall|i: int| 0 <= i < r@.len() ==> r@[i].key@ == (#[trigger] registry@[i]).0 && r@[i].name@
            == registry@[i].1.name && r@[i].order == registry@[i].1.order,
{
    let mut r: Vec<Language> = Vec::new();
    let mut k: usize = 0;
    while k < registry.entries.len()
        invariant
            k <= registry.entries@.len(),
            r@.len() == k,
            forall|i: int| 0 <= i < k ==> r@[i].key@ == (#[trigger] registry@[i]).0 && r@[i].name@
                == registry@[i].1.name && r@[i].order == registry@[i].1.order,
        decreases registry.entries@.len() - k,
    {
        let e = &registry.entries[k];
        r.push(Language {
            key: e.key.as_str().to_owned(),
            name: e.params.name.as_str().to_owned(),
            order: e.params.order,
        });
        k = k + 1;
    }
    r
}

} // verus!
