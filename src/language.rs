//! The language registry: how each supported language is compiled and
//! run, keyed by a stable language key.
use vstd::prelude::*;
use vstd::string::*;
use crate::isolate::CommandTuple;
use crate::pattern::{
    public_class_pattern, public_class_split, split_around_group, split_view, version_pattern, version_span_from,
};
use crate::test_path::opt_view;
use crate::text::{cat, push_str, same_text, texts};

verus! {

/// A source-text rewrite applied before compiling.
#[derive(Clone, Copy, Debug, PartialEq, Eq, Structural)]
pub enum Transform {
    /// The source is compiled as written.
    Identity,
    /// The first `public class <Name>` is renamed to the program's name,
    /// as Java requires the public class to match the file name.
    JavaPublicClass,
}

/// How a language turns source into something runnable.
#[derive(Clone, Debug)]
pub enum Compile {
    NoCompile,
    /// A transform of the source, the compile command and the template of
    /// the artifact's name.
    Command(Transform, CommandTuple, String),
}

#[derive(Clone, Debug)]
pub struct LanguageParams {
    pub order: i32,
    pub name: String,
    pub suffix: String,
    pub compile: Compile,
    pub run: CommandTuple,
    pub process_limit: i32,
}

pub enum CompileView {
    NoCompile,
    Command(Transform, Seq<char>, Seq<Seq<char>>, Seq<char>),
}

pub struct LanguageParamsView {
    pub order: i32,
    pub name: Seq<char>,
    pub suffix: Seq<char>,
    pub compile: CompileView,
    pub run_binary: Seq<char>,
    pub run_args: Seq<Seq<char>>,
    pub process_limit: i32,
}

impl View for Compile {
    type V = CompileView;

    open spec fn view(&self) -> CompileView {
        match self {
            Compile::NoCompile => CompileView::NoCompile,
            Compile::Command(t, c, o) => CompileView::Command(*t, c.binary_path@, texts(c.args@), o@),
        }
    }
}

impl View for LanguageParams {
    type V = LanguageParamsView;

    open spec fn view(&self) -> LanguageParamsView {
        LanguageParamsView {
            order: self.order,
            name: self.name@,
            suffix: self.suffix@,
            compile: self.compile@,
            run_binary: self.run.binary_path@,
            run_args: texts(self.run.args@),
            process_limit: self.process_limit,
        }
    }
}

/// The source as it is.
pub fn no_transform(source_text: String, source_name: String) -> (r: String)
    ensures
        r@ == source_text@,
{
    source_text
}

/// The source after renaming, given how it splits around its public class
/// name.
pub open spec fn renamed_spec(source: Seq<char>, split: Option<(Seq<char>, Seq<char>, Seq<char>)>, class_name: Seq<char>) -> Seq<char> {
    match split {
        Some((a, n, b)) => a + class_name + b,
        None => source,
    }
}

/// Puts `class_name` in place of the public class name that `split`
/// locates in `source`; with no public class the source is kept.
pub fn rename_public_class(source: String, split: Option<(String, String, String)>, class_name: &str) -> (r: String)
    ensures
        r@ == renamed_spec(source@, split_view(split), class_name@),
{
    match split {
        Some((a, _n, b)) => {
            let mut t = a;
            t.append(class_name);
            t.append(b.as_str());
            t
        },
        None => source,
    }
}

/// The Java source with its first public class renamed to `class_name`.
pub fn java_transform(source: String, class_name: &str) -> (r: String)
    ensures
        r@ == renamed_spec(source@, public_class_split(source@), class_name@),
{
    assert("(?i)([^{}]*public\\s+class\\s+)(\\w+)"@ == public_class_pattern());
    let split = split_around_group("(?i)([^{}]*public\\s+class\\s+)(\\w+)", 2, source.as_str());
    rename_public_class(source, split, class_name)
}

pub open spec fn transform_spec(t: Transform, source: Seq<char>, program_name: Seq<char>) -> Seq<char> {
    match t {
        Transform::Identity => source,
        Transform::JavaPublicClass => renamed_spec(source, public_class_split(source), program_name),
    }
}

impl Transform {
    /// The source text to write for a program named `program_name`.
    pub fn apply(&self, source: String, program_name: &str) -> (r: String)
        ensures
            r@ == transform_spec(*self, source@, program_name@),
    {
        match self {
            Transform::Identity => no_transform(source, program_name.to_owned()),
            Transform::JavaPublicClass => java_transform(source, program_name),
        }
    }
}


/// The first `major.minor.patch` version number in `text`.
pub open spec fn version_spec(text: Seq<char>) -> Option<Seq<char>> {
    match version_span_from(text, 0) {
        Some((a, e)) => Some(text.subrange(a, e)),
        None => None,
    }
}

/// The first `major.minor.patch` version number in `text`.
pub fn find_version(text: &str) -> (r: Option<String>)
    ensures
        opt_view(r) == version_spec(text@),
{
    assert("([0-9]+\\.[0-9]+\\.[0-9]+)"@ == version_pattern());
    match split_around_group("([0-9]+\\.[0-9]+\\.[0-9]+)", 1, text) {
        Some((_, v, _)) => Some(v),
        None => None,
    }
}

pub open spec fn gcc_args_spec(x: Seq<char>, std: Seq<char>) -> Seq<Seq<char>> {
    seq![
        "-static"@,
        "-DONLINE_JUDGE"@,
        "-lm"@,
        "-s"@,
        "-std="@ + std,
        "-x"@,
        x,
        "-O2"@,
        "-o"@,
        "{output}"@,
        "{source}"@,
    ]
}

/// A GCC-family language whose display name ends with the compiler's
/// version.
pub open spec fn gcc_params_spec(
    order: i32,
    name: Seq<char>,
    version: Seq<char>,
    binary: Seq<char>,
    x: Seq<char>,
    std: Seq<char>,
) -> LanguageParamsView {
    LanguageParamsView {
        order,
        name: name + version,
        suffix: ".cpp"@,
        compile: CompileView::Command(Transform::Identity, binary, gcc_args_spec(x, std), "{output}"@),
        run_binary: "{output}"@,
        run_args: Seq::empty(),
        process_limit: 1,
    }
}

pub open spec fn pascal_params_spec() -> LanguageParamsView {
    LanguageParamsView {
        order: 6,
        name: "Free Pascal"@,
        suffix: ".pas"@,
        compile: CompileView::Command(
            Transform::Identity,
            "/usr/bin/fpc"@,
            seq![
                "-O2"@,
                "-Xs"@,
                "-XS"@,
                "-Sgic"@,
                "-vwn"@,
                "-dONLINE_JUDGE"@,
                "-Cs67107839"@,
                "-Mdelphi"@,
                "{source}"@,
                "-o{output}"@,
            ],
            "{output}"@,
        ),
        run_binary: "{output}"@,
        run_args: Seq::empty(),
        process_limit: 1,
    }
}

pub open spec fn java_params_spec() -> LanguageParamsView {
    LanguageParamsView {
        order: 7,
        name: "Java 8"@,
        suffix: ".java"@,
        compile: CompileView::Command(
            Transform::JavaPublicClass,
            "/usr/lib/jvm/java-1.8-openjdk/bin/javac"@,
            seq![
                "-cp"@,
                "\".;*\""@,
                "-J-Xmx512m"@,
                "-J-XX:MaxMetaspaceSize=128m"@,
                "-J-XX:CompressedClassSpaceSize=64m"@,
                "{source}"@,
            ],
            "{output}.class"@,
        ),
        run_binary: "/usr/bin/java"@,
        run_args: seq![
            "-Xmx512m"@,
            "-Xss64m"@,
            "-DONLINE_JUDGE=true"@,
            "-Duser.language=en"@,
            "-Duser.region=US"@,
            "-Duser.variant=US"@,
            "{output}"@,
        ],
        process_limit: 19,
    }
}

pub open spec fn python_params_spec() -> LanguageParamsView {
    LanguageParamsView {
        order: 8,
        name: "Python 3"@,
        suffix: ".py"@,
        compile: CompileView::NoCompile,
        run_binary: "/usr/bin/python3"@,
        run_args: seq!["{source}"@],
        process_limit: 1,
    }
}

fn gcc_params(order: i32, name: &str, version: &str, binary: &str, x: &str, std: &str) -> (r: LanguageParams)
    ensures
        r@ == gcc_params_spec(order, name@, version@, binary@, x@, std@),
{
    let mut args: Vec<String> = Vec::new();
    push_str(&mut args, "-static");
    push_str(&mut args, "-DONLINE_JUDGE");
    push_str(&mut args, "-lm");
    push_str(&mut args, "-s");
    let std_arg = cat("-std=", std);
    push_str(&mut args, std_arg.as_str());
    push_str(&mut args, "-x");
    push_str(&mut args, x);
    push_str(&mut args, "-O2");
    push_str(&mut args, "-o");
    push_str(&mut args, "{output}");
    push_str(&mut args, "{source}");
    assert(texts(args@) =~= gcc_args_spec(x@, std@));
    let r = LanguageParams {
        order,
        name: cat(name, version),
        suffix: ".cpp".to_owned(),
        compile: Compile::Command(
            Transform::Identity,
            CommandTuple { binary_path: binary.to_owned(), args },
            "{output}".to_owned(),
        ),
        run: CommandTuple { binary_path: "{output}".to_owned(), args: Vec::new() },
        process_limit: 1,
    };
    assert(texts(r.run.args@) =~= Seq::<Seq<char>>::empty());
    r
}

fn pascal_params() -> (r: LanguageParams)
    ensures
        r@ == pascal_params_spec(),
{
    let mut args: Vec<String> = Vec::new();
    push_str(&mut args, "-O2");
    push_str(&mut args, "-Xs");
    push_str(&mut args, "-XS");
    push_str(&mut args, "-Sgic");
    push_str(&mut args, "-vwn");
    push_str(&mut args, "-dONLINE_JUDGE");
    push_str(&mut args, "-Cs67107839");
    push_str(&mut args, "-Mdelphi");
    push_str(&mut args, "{source}");
    push_str(&mut args, "-o{output}");
    assert(texts(args@) =~= seq![
        "-O2"@,
        "-Xs"@,
        "-XS"@,
        "-Sgic"@,
        "-vwn"@,
        "-dONLINE_JUDGE"@,
        "-Cs67107839"@,
        "-Mdelphi"@,
        "{source}"@,
        "-o{output}"@,
    ]);
    let r = LanguageParams {
        order: 6,
        name: "Free Pascal".to_owned(),
        suffix: ".pas".to_owned(),
        compile: Compile::Command(
            Transform::Identity,
            CommandTuple { binary_path: "/usr/bin/fpc".to_owned(), args },
            "{output}".to_owned(),
        ),
        run: CommandTuple { binary_path: "{output}".to_owned(), args: Vec::new() },
        process_limit: 1,
    };
    assert(texts(r.run.args@) =~= Seq::<Seq<char>>::empty());
    assert(r@.compile == pascal_params_spec().compile);
    r
}

fn java_params() -> (r: LanguageParams)
    ensures
        r@ == java_params_spec(),
{
    let mut args: Vec<String> = Vec::new();
    push_str(&mut args, "-cp");
    push_str(&mut args, "\".;*\"");
    push_str(&mut args, "-J-Xmx512m");
    push_str(&mut args, "-J-XX:MaxMetaspaceSize=128m");
    push_str(&mut args, "-J-XX:CompressedClassSpaceSize=64m");
    push_str(&mut args, "{source}");
    assert(texts(args@) =~= seq![
        "-cp"@,
        "\".;*\""@,
        "-J-Xmx512m"@,
        "-J-XX:MaxMetaspaceSize=128m"@,
        "-J-XX:CompressedClassSpaceSize=64m"@,
        "{source}"@,
    ]);
    let mut run_args: Vec<String> = Vec::new();
    push_str(&mut run_args, "-Xmx512m");
    push_str(&mut run_args, "-Xss64m");
    push_str(&mut run_args, "-DONLINE_JUDGE=true");
    push_str(&mut run_args, "-Duser.language=en");
    push_str(&mut run_args, "-Duser.region=US");
    push_str(&mut run_args, "-Duser.variant=US");
    push_str(&mut run_args, "{output}");
    let r = LanguageParams {
        order: 7,
        name: "Java 8".to_owned(),
        suffix: ".java".to_owned(),
        compile: Compile::Command(
            Transform::JavaPublicClass,
            CommandTuple { binary_path: "/usr/lib/jvm/java-1.8-openjdk/bin/javac".to_owned(), args },
            "{output}.class".to_owned(),
        ),
        run: CommandTuple { binary_path: "/usr/bin/java".to_owned(), args: run_args },
        process_limit: 19,
    };
    assert(r@.compile == java_params_spec().compile);
    assert(r@.run_args =~= java_params_spec().run_args);
    r
}

fn python_params() -> (r: LanguageParams)
    ensures
        r@ == python_params_spec(),
{
    let mut run_args: Vec<String> = Vec::new();
    push_str(&mut run_args, "{source}");
    let r = LanguageParams {
        order: 8,
        name: "Python 3".to_owned(),
        suffix: ".py".to_owned(),
        compile: Compile::NoCompile,
        run: CommandTuple { binary_path: "/usr/bin/python3".to_owned(), args: run_args },
        process_limit: 1,
    };
    assert(r@.run_args =~= python_params_spec().run_args);
    r
}


/// A language under its key.
#[derive(Clone, Debug)]
pub struct LanguageEntry {
    pub key: String,
    pub params: LanguageParams,
}

/// The supported languages, looked up by key.
#[derive(Clone, Debug)]
pub struct LanguageRegistry {
    pub entries: Vec<LanguageEntry>,
}

pub open spec fn entries_view(entries: Seq<LanguageEntry>) -> Seq<(Seq<char>, LanguageParamsView)> {
    entries.map_values(|e: LanguageEntry| (e.key@, e.params@))
}

impl View for LanguageRegistry {
    type V = Seq<(Seq<char>, LanguageParamsView)>;

    open spec fn view(&self) -> Seq<(Seq<char>, LanguageParamsView)> {
        entries_view(self.entries@)
    }
}

/// The index of the first entry from `i` on whose key is `key`.
pub open spec fn lookup_from(entries: Seq<(Seq<char>, LanguageParamsView)>, key: Seq<char>, i: int) -> Option<int>
    decreases entries.len() - i,
{
    if i < 0 || i >= entries.len() {
        None
    } else if entries[i].0 == key {
        Some(i)
    } else {
        lookup_from(entries, key, i + 1)
    }
}

/// The parameters registered under `key`.
pub open spec fn lookup(entries: Seq<(Seq<char>, LanguageParamsView)>, key: Seq<char>) -> Option<LanguageParamsView> {
    match lookup_from(entries, key, 0) {
        Some(i) => Some(entries[i].1),
        None => None,
    }
}

/// The registry built from the version reports of `g++` and `gcc`.
pub open spec fn registry_spec(gpp_version: Seq<char>, gcc_version: Seq<char>) -> Seq<(Seq<char>, LanguageParamsView)> {
    seq![
        ("cpp.17.g++"@, gcc_params_spec(2, "GNU G++17 "@, gpp_version, "/usr/bin/g++"@, "c++"@, "c++17"@)),
        ("c.18.gcc"@, gcc_params_spec(5, "GNU GCC C18 "@, gcc_version, "/usr/bin/gcc"@, "c"@, "c18"@)),
        ("pascal.fpc"@, pascal_params_spec()),
        ("java.8"@, java_params_spec()),
        ("python.3"@, python_params_spec()),
    ]
}

fn push_entry(v: &mut Vec<LanguageEntry>, key: &str, params: LanguageParams)
    ensures
        entries_view(final(v)@) == entries_view(old(v)@).push((key@, params@)),
{
    v.push(LanguageEntry { key: key.to_owned(), params });
    assert(entries_view(v@) =~= entries_view(old(v)@).push((key@, params@)));
}

/// The supported languages, given what `g++ --version` and `gcc --version`
/// printed: their display names carry the first version number found
/// there. `None` when either report holds no version number.
pub fn get_supported_languages(gpp_version_output: &str, gcc_version_output: &str) -> (r: Option<LanguageRegistry>)
    ensures
        r is Some <==> version_spec(gpp_version_output@) is Some && version_spec(gcc_version_output@) is Some,
        r is Some ==> r->0@ == registry_spec(
            version_spec(gpp_version_output@)->0,
            version_spec(gcc_version_output@)->0,
        ),
        r is Some ==> r->0.wf(),
{
    let gpp_version = match find_version(gpp_version_output) {
        Some(v) => v,
        None => { return None; },
    };
    let gcc_version = match find_version(gcc_version_output) {
        Some(v) => v,
        None => { return None; },
    };
    let mut entries: Vec<LanguageEntry> = Vec::new();
    push_entry(&mut entries, "cpp.17.g++", gcc_params(2, "GNU G++17 ", gpp_version.as_str(), "/usr/bin/g++", "c++", "c++17"));
    push_entry(&mut entries, "c.18.gcc", gcc_params(5, "GNU GCC C18 ", gcc_version.as_str(), "/usr/bin/gcc", "c", "c18"));
    push_entry(&mut entries, "pascal.fpc", pascal_params());
    push_entry(&mut entries, "java.8", java_params());
    push_entry(&mut entries, "python.3", python_params());
    let r = LanguageRegistry { entries };
    assert(r@ =~= registry_spec(gpp_version@, gcc_version@));
    proof {
        reveal_strlit("cpp.17.g++");
        reveal_strlit("c.18.gcc");
        reveal_strlit("pascal.fpc");
        reveal_strlit("java.8");
        reveal_strlit("python.3");
        assert forall|i: int, j: int| 0 <= i < j < r@.len() implies r@[i].0 != r@[j].0 by {
            assert(r@[i].0[0] != r@[j].0[0] || r@[i].0[1] != r@[j].0[1]);
        }
    }
    Some(r)
}

impl LanguageRegistry {
    /// No two entries share a key.
    pub open spec fn wf(&self) -> bool {
        forall|i: int, j: int| 0 <= i < j < self@.len() ==> self@[i].0 != self@[j].0
    }

    /// The parameters registered under `key`.
    pub fn get(&self, key: &str) -> (r: Option<&LanguageParams>)
        ensures
            match lookup(self@, key@) {
                Some(p) => r is Some && r->0@ == p,
                None => r is None,
            },
    {
        let mut i: usize = 0;
        while i < self.entries.len()
            invariant
                i <= self.entries@.len(),
                lookup_from(self@, key@, 0) == lookup_from(self@, key@, i as int),
            decreases self.entries@.len() - i,
        {
            if same_text(self.entries[i].key.as_str(), key) {
                return Some(&self.entries[i].params);
            }
            i = i + 1;
        }
        None
    }
}

} // verus!
