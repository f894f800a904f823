//! Rust snippets run with `rustup` in a fresh Cargo project; builds share
//! one target directory in the user's cache.

use vstd::prelude::*;
use crate::cli::{ToolchainSpec, debug_quoted, debug_str};
use crate::execution::{ExecutionContext, ExecutionView, chosen_cwd};
use crate::plan::{
    is_terminal, Invocation, InvocationView, Step, StepView, copy_env, extend_args, no_env, push_arg,
    final_passes, final_runs_in, nothing_shown, step_shown, well_formed_plan,
};
use crate::process::{RunFailure, message_failure};
use crate::runner::{
    BackendView, installs_in, lemma_dependency_stage_lengths, shows_installs_and_final,
};
use crate::text::{
    chars_of, collect_all, concat, contains_char, is_white_space, join_sep, join_strings,
    last_pos, lemma_collect_all_ok, lemma_collect_prefix_err, lemma_collect_step,
    lemma_join_ends_with_last, lemma_join_lacks, lemma_last_pos_below, lemma_leading_white,
    lemma_split_join, lemma_trailing_white, owned, rfind_char, split_char, split_on, string_of,
    occurs_at, sub_chars, trim, trim_chars,
};
use crate::util::{adjoined, is_verbatim, join_path, joined_onto};

verus! {

broadcast use vstd::string::group_string_axioms;

/// The Rust backend for one toolchain and set of packages.
pub struct RustBackend<'a> {
    toolchain: &'a ToolchainSpec,
    packages: &'a [String],
}

impl<'a> View for RustBackend<'a> {
    type V = BackendView;

    closed spec fn view(&self) -> BackendView {
        BackendView { version: self.toolchain.version@, packages: self.packages.deep_view() }
    }
}

/// A package specification split for `cargo add`: the dependency
/// (`NAME[@VERSION]`) and its features.
#[derive(Debug, PartialEq, Eq)]
pub struct RustPackageSpec {
    pub dependency: String,
    pub features: Vec<String>,
}

/// Some character is a square bracket.
pub open spec fn has_bracket(s: Seq<char>) -> bool {
    s.contains('[') || s.contains(']')
}

/// The message for a package specification that cannot be read.
pub open spec fn invalid_rust_package(value: Seq<char>) -> Seq<char> {
    "invalid Rust package specification "@ + debug_quoted(value)
        + "; expected NAME[@VERSION][FEATURE,...]"@
}

/// One comma-separated piece of a feature list, trimmed; an empty feature
/// or one with a bracket refuses the whole specification `value`.
pub open spec fn feature_of(value: Seq<char>, piece: Seq<char>) -> Result<Seq<char>, Seq<char>> {
    if trim(piece).len() == 0 || has_bracket(trim(piece)) {
        Err(invalid_rust_package(value))
    } else {
        Ok(trim(piece))
    }
}

/// `feature_of` for the specification `value`, as a function value.
pub open spec fn feature_converter(value: Seq<char>) -> spec_fn(Seq<char>) -> Result<Seq<char>, Seq<char>> {
    |piece: Seq<char>| feature_of(value, piece)
}

/// Reading `NAME[@VERSION][FEATURE,...]`: a trailing `]` opens a feature
/// list at the last `[`; the dependency and the list must be non-empty and
/// bracket-free, and every feature non-empty after trimming. Without a
/// trailing `]` the whole value is the dependency, non-empty and
/// bracket-free.
pub open spec fn rust_package(value: Seq<char>) -> Result<(Seq<char>, Seq<Seq<char>>), Seq<char>> {
    if value.len() > 0 && value.last() == ']' {
        match last_pos(value, '[') {
            None => Err(invalid_rust_package(value)),
            Some(open) => {
                let dependency = value.take(open);
                let list = value.subrange(open + 1, value.len() - 1);
                if dependency.len() == 0 || has_bracket(dependency) || list.len() == 0 {
                    Err(invalid_rust_package(value))
                } else {
                    match collect_all(split_on(list, ','), feature_converter(value)) {
                        Ok(features) => Ok((dependency, features)),
                        Err(m) => Err(m),
                    }
                }
            },
        }
    } else if value.len() == 0 || has_bracket(value) {
        Err(invalid_rust_package(value))
    } else {
        Ok((value, seq![]))
    }
}

fn has_bracket_chars(s: &[char]) -> (r: bool)
    ensures
        r == has_bracket(s@),
{
    contains_char(s, '[') || contains_char(s, ']')
}

/// The failure for a package specification that cannot be read.
pub fn invalid_package(value: &str) -> (r: RunFailure)
    ensures
        r.deep_view() == message_failure(invalid_rust_package(value@)),
{
    let mut m = concat("invalid Rust package specification ", debug_str(value).as_str());
    m.push_str("; expected NAME[@VERSION][FEATURE,...]");
    RunFailure::message(m)
}

impl RustPackageSpec {
    /// Reads a `NAME[@VERSION][FEATURE,...]` specification.
    pub fn parse(value: &str) -> (r: Result<Self, RunFailure>)
        ensures
            match r {
                Ok(spec) => rust_package(value@) == Ok::<_, Seq<char>>(
                    (spec.dependency@, spec.features.deep_view()),
                ),
                Err(f) => rust_package(value@) matches Err(m) && f.deep_view() == message_failure(m),
            },
    {
        let chars = chars_of(value);
        let n = chars.len();
        if n > 0 && chars[n - 1] == ']' {
            match rfind_char(chars.as_slice(), '[') {
                None => Err(invalid_package(value)),
                Some(open) => {
                    assert(open < n - 1);
                    let dependency = sub_chars(chars.as_slice(), 0, open);
                    let list = sub_chars(chars.as_slice(), open + 1, n - 1);
                    if dependency.len() == 0 || has_bracket_chars(dependency.as_slice()) || list.len()
                        == 0 {
                        return Err(invalid_package(value));
                    }
                    let pieces = split_char(list.as_slice(), ',');
                    let ghost ps = pieces.deep_view();
                    let ghost conv = feature_converter(value@);
                    proof {
                        assert(dependency@ =~= value@.take(open as int));
                        assert(list@ =~= value@.subrange(open + 1, value@.len() - 1));
                    }
                    let ghost whole = match collect_all(ps, conv) {
                        Ok(f) => Ok::<(Seq<char>, Seq<Seq<char>>), Seq<char>>((dependency@, f)),
                        Err(m) => Err(m),
                    };
                    assert(rust_package(value@) == whole);
                    let mut features: Vec<String> = Vec::new();
                    let mut i: usize = 0;
                    assert(ps.take(0) =~= Seq::<Seq<char>>::empty());
                    assert(features.deep_view() =~= Seq::<Seq<char>>::empty());
                    while i < pieces.len()
                        invariant
                            ps == pieces.deep_view(),
                            conv == feature_converter(value@),
                            rust_package(value@) == whole,
                            whole == match collect_all(ps, conv) {
                                Ok(f) => Ok::<(Seq<char>, Seq<Seq<char>>), Seq<char>>((dependency@, f)),
                                Err(m) => Err(m),
                            },
                            i <= ps.len(),
                            collect_all(ps.take(i as int), conv) == Ok::<Seq<Seq<char>>, Seq<char>>(
                                features.deep_view(),
                            ),
                        decreases ps.len() - i,
                    {
                        proof {
                            lemma_collect_step(ps, conv, i as int);
                        }
                        assert(pieces@[i as int].deep_view() =~= pieces@[i as int]@);
                        let feature = trim_chars(pieces[i].as_slice());
                        assert(trim(ps[i as int]) == feature@);
                        assert(conv(ps[i as int]) == feature_of(value@, ps[i as int]));
                        if feature.len() == 0 || has_bracket_chars(feature.as_slice()) {
                            proof {
                                lemma_collect_prefix_err(ps, conv, i + 1);
                            }
                            return Err(invalid_package(value));
                        }
                        let ghost before = features.deep_view();
                        let text = string_of(feature.as_slice());
                        features.push(text);
                        assert(features.deep_view() =~= before.push(text@));
                        i = i + 1;
                    }
                    assert(ps.take(ps.len() as int) =~= ps);
                    Ok(RustPackageSpec { dependency: string_of(dependency.as_slice()), features })
                },
            }
        } else if n == 0 || has_bracket_chars(chars.as_slice()) {
            Err(invalid_package(value))
        } else {
            let features: Vec<String> = Vec::new();
            assert(features.deep_view() =~= Seq::<Seq<char>>::empty());
            Ok(RustPackageSpec { dependency: owned(value), features })
        }
    }
}

/// `cargo add` arguments for one dependency and its features.
pub open spec fn cargo_add_args(version: Seq<char>, dependency: Seq<char>, features: Seq<Seq<char>>) -> Seq<Seq<char>> {
    seq!["run"@, "--install"@, version, "cargo"@, "add"@, dependency] + (if features.len() == 0 {
        seq![]
    } else {
        seq!["--features"@, join_sep(features, ',')]
    })
}

/// The `cargo add` step for one package.
pub open spec fn rust_add_step(
    version: Seq<char>,
    dir: Seq<char>,
    dependency: Seq<char>,
    features: Seq<Seq<char>>,
    quiet: bool,
) -> StepView {
    StepView::Setup {
        stage: "install Rust dependencies"@,
        command: InvocationView {
            program: "rustup"@,
            args: cargo_add_args(version, dependency, features),
            cwd: Some(dir),
            env: seq![],
        },
        quiet,
    }
}

/// The steps for the packages, one `cargo add` each, in order; the first
/// specification that cannot be read ends them with a failure (the second
/// component tells whether that happened).
pub open spec fn rust_package_steps(
    packages: Seq<Seq<char>>,
    version: Seq<char>,
    dir: Seq<char>,
    quiet: bool,
) -> (Seq<StepView>, bool)
    decreases packages.len(),
{
    if packages.len() == 0 {
        (seq![], false)
    } else {
        let (done, stopped) = rust_package_steps(packages.drop_last(), version, dir, quiet);
        if stopped {
            (done, true)
        } else {
            match rust_package(packages.last()) {
                Ok((dependency, features)) => (
                    done.push(rust_add_step(version, dir, dependency, features, quiet)),
                    false,
                ),
                Err(m) => (done.push(StepView::Fail { failure: message_failure(m) }), true),
            }
        }
    }
}

/// Once the package steps stop, later packages add nothing.
pub proof fn lemma_package_steps_stop(
    packages: Seq<Seq<char>>,
    version: Seq<char>,
    dir: Seq<char>,
    quiet: bool,
    k: int,
)
    requires
        0 <= k <= packages.len(),
        rust_package_steps(packages.take(k), version, dir, quiet).1,
    ensures
        rust_package_steps(packages, version, dir, quiet) == rust_package_steps(
            packages.take(k),
            version,
            dir,
            quiet,
        ),
    decreases packages.len() - k,
{
    if k < packages.len() {
        assert(packages.take(k + 1).drop_last() =~= packages.take(k));
        lemma_package_steps_stop(packages, version, dir, quiet, k + 1);
    } else {
        assert(packages.take(k) =~= packages);
    }
}

/// The message when no cache directory can be found for Cargo's builds.
pub open spec fn no_cache_message() -> Seq<char> {
    "could not determine the user cache directory"@
}

/// `cargo run` arguments for the project's manifest, with the snippet's
/// arguments after `--` when there are any.
pub open spec fn cargo_run_args(version: Seq<char>, manifest: Seq<char>, arguments: Seq<Seq<char>>) -> Seq<Seq<char>> {
    seq!["run"@, "--install"@, version, "cargo"@, "run"@, "--quiet"@, "--manifest-path"@, manifest]
        + (if arguments.len() == 0 {
        seq![]
    } else {
        seq!["--"@] + arguments
    })
}

/// Running code in the Cargo project at `dir`: `cargo init`, write the
/// source, `cargo add` each package (stopping at the first that cannot be
/// read), create the shared target directory `cache` (or stop when there is
/// none), then `cargo run` with `CARGO_TARGET_DIR` set to it.
pub open spec fn rust_project_plan(
    b: BackendView,
    dir: Seq<char>,
    source: Seq<char>,
    manifest: Seq<char>,
    cache: Option<Seq<char>>,
    code: Seq<char>,
    arguments: Seq<Seq<char>>,
    exec: ExecutionView,
    quiet: bool,
) -> Seq<StepView> {
    let init = StepView::Setup {
        stage: "initialize Cargo project"@,
        command: InvocationView {
            program: "rustup"@,
            args: seq![
                "run"@,
                "--install"@,
                b.version,
                "cargo"@,
                "init"@,
                "--bin"@,
                "--name"@,
                "run_code_snippet"@,
                "--vcs"@,
                "none"@,
                dir,
            ],
            cwd: None,
            env: seq![],
        },
        quiet: true,
    };
    let (adds, stopped) = rust_package_steps(b.packages, b.version, dir, quiet);
    let head = seq![init, StepView::WriteSource { path: source, code }] + adds;
    if stopped {
        head
    } else {
        match cache {
            None => head.push(StepView::Fail { failure: message_failure(no_cache_message()) }),
            Some(c) => head + seq![
                StepView::CreateCache { path: c },
                StepView::Final {
                    command: InvocationView {
                        program: "rustup"@,
                        args: cargo_run_args(b.version, manifest, arguments),
                        cwd: Some(chosen_cwd(exec, dir)),
                        env: seq![("CARGO_TARGET_DIR"@, c)],
                    },
                    unprinted_env: exec.environment,
                    quiet,
                },
            ],
        }
    }
}

/// An application name that every platform keeps as it is in the project's
/// directories: not empty, made of lower-case ASCII letters, digits and `-`.
pub open spec fn plain_application_name(name: Seq<char>) -> bool {
    &&& name.len() > 0
    &&& forall|i: int|
        0 <= i < name.len() ==> ('a' <= #[trigger] name[i] <= 'z' || '0' <= name[i] <= '9'
            || name[i] == '-')
}

/// Calls `directories::ProjectDirs::from` and, when it finds a home
/// directory, reads the project's `cache_dir` as text. That directory holds
/// the application name on every platform: Linux appends the trimmed,
/// lower-cased name to the cache home, macOS the bundle identifier
/// `qualifier.organization.application` (spaces replaced by `-`), Windows
/// `organization\application\cache`. Where the directory is otherwise, and
/// whether there is a home directory at all, depend on the environment and
/// are not stated.
#[verifier::external_body]
fn user_cache_dir(qualifier: &str, organization: &str, application: &str) -> (r: Option<String>)
    requires
        plain_application_name(application@),
    ensures
        r is Some ==> exists|i: int|
            #![trigger occurs_at(r->0@, application@, i)]
            occurs_at(r->0@, application@, i),
{
    match directories::ProjectDirs::from(qualifier, organization, application) {
        Some(dirs) => Some(dirs.cache_dir().to_string_lossy().into_owned()),
        None => None,
    }
}

/// A directory whose path names this program (`run-code`).
pub open spec fn names_run_code(dir: Seq<char>) -> bool {
    exists|i: int| #![trigger occurs_at(dir, "run-code"@, i)] occurs_at(dir, "run-code"@, i)
}

/// The shared Cargo target directory, `cargo-target` in the user's cache
/// directory for this program, or `None` when there is no home directory.
/// Where the cache directory is depends on the environment, so what is
/// stated is the join and that the directory names this program.
pub fn target_cache() -> (r: Option<String>)
    ensures
        r is Some ==> exists|base: Seq<char>|
            #![trigger joined_onto(base, "cargo-target"@, r->0@)]
            joined_onto(base, "cargo-target"@, r->0@) && names_run_code(base),
{
    proof {
        reveal_strlit("run-code");
        assert(plain_application_name("run-code"@));
    }
    match user_cache_dir("dev", "timzhong", "run-code") {
        None => None,
        Some(cache) => {
            proof {
                reveal_strlit("cargo-target");
            }
            let path = join_path(cache.as_str(), "cargo-target");
            let r = Some(path);
            assert(joined_onto(cache@, "cargo-target"@, r->0@));
            assert(names_run_code(cache@));
            r
        },
    }
}

/// `plan` is the Rust project plan for `dir`, with the files placed in it
/// and the shared target directory, if there is one, named `cargo-target`
/// inside a directory that names this program.
pub open spec fn rust_prepared(
    b: BackendView,
    dir: Seq<char>,
    code: Seq<char>,
    arguments: Seq<Seq<char>>,
    exec: ExecutionView,
    quiet: bool,
    plan: Seq<StepView>,
) -> bool {
    exists|source: Seq<char>, manifest: Seq<char>, cache: Option<Seq<char>>|
        #![trigger rust_project_plan(b, dir, source, manifest, cache, code, arguments, exec, quiet)]
        {
            &&& !is_verbatim(dir) ==> adjoined(dir, "src/main.rs"@, source)
            &&& !is_verbatim(dir) ==> adjoined(dir, "Cargo.toml"@, manifest)
            &&& cache is Some ==> exists|base: Seq<char>|
                #![trigger joined_onto(base, "cargo-target"@, cache->0)]
                joined_onto(base, "cargo-target"@, cache->0) && names_run_code(base)
            &&& plan == rust_project_plan(
                b,
                dir,
                source,
                manifest,
                cache,
                code,
                arguments,
                exec,
                quiet,
            )
        }
}

impl<'a> RustBackend<'a> {
    /// The Rust backend for a toolchain and the user's packages.
    pub fn new(toolchain: &'a ToolchainSpec, packages: &'a [String]) -> (r: Self)
        ensures
            r@ == (BackendView { version: toolchain.version@, packages: packages.deep_view() }),
    {
        RustBackend { toolchain, packages }
    }

    /// The plan for running code in the project at `dir`, with the source
    /// file `source`, the manifest `manifest`, and the shared target
    /// directory `cache` if one was found.
    pub fn plan_project(
        &self,
        dir: &str,
        source: &str,
        manifest: &str,
        cache: Option<&str>,
        code: &str,
        arguments: &[String],
        execution: &ExecutionContext,
        quiet: bool,
    ) -> (plan: Vec<Step>)
        ensures
            plan.deep_view() == rust_project_plan(
                self@,
                dir@,
                source@,
                manifest@,
                match cache {
                    Some(c) => Some(c@),
                    None => None,
                },
                code@,
                arguments.deep_view(),
                execution@,
                quiet,
            ),
    {
        let ghost cache_view = match cache {
            Some(c) => Some(c@),
            None => None,
        };
        let ghost expected = rust_project_plan(
            self@,
            dir@,
            source@,
            manifest@,
            cache_view,
            code@,
            arguments.deep_view(),
            execution@,
            quiet,
        );
        let version = self.toolchain.version.as_str();
        let mut init: Vec<String> = Vec::new();
        push_arg(&mut init, "run");
        push_arg(&mut init, "--install");
        push_arg(&mut init, version);
        push_arg(&mut init, "cargo");
        push_arg(&mut init, "init");
        push_arg(&mut init, "--bin");
        push_arg(&mut init, "--name");
        push_arg(&mut init, "run_code_snippet");
        push_arg(&mut init, "--vcs");
        push_arg(&mut init, "none");
        push_arg(&mut init, dir);
        assert(init.deep_view() =~= expected[0]->Setup_command.args);
        let mut plan: Vec<Step> = Vec::new();
        plan.push(Step::Setup {
            stage: owned("initialize Cargo project"),
            command: Invocation { program: owned("rustup"), args: init, cwd: None, env: no_env() },
            quiet: true,
        });
        plan.push(Step::WriteSource { path: owned(source), code: owned(code) });
        let ghost head = plan.deep_view();
        let ghost ps = self@.packages;
        assert(head[0] == expected[0]);
        assert(ps.take(0) =~= Seq::<Seq<char>>::empty());
        assert(plan.deep_view() =~= head + rust_package_steps(ps.take(0), self@.version, dir@, quiet).0);
        let n = self.packages.len();
        let mut i: usize = 0;
        while i < n
            invariant
                n == ps.len(),
                ps == self@.packages,
                version@ == self@.version,
                i <= n,
                head.len() == 2,
                head[0] == expected[0],
                head[1] == (StepView::WriteSource { path: source@, code: code@ }),
                expected == rust_project_plan(
                    self@,
                    dir@,
                    source@,
                    manifest@,
                    cache_view,
                    code@,
                    arguments.deep_view(),
                    execution@,
                    quiet,
                ),
                !rust_package_steps(ps.take(i as int), self@.version, dir@, quiet).1,
                plan.deep_view() == head + rust_package_steps(ps.take(i as int), self@.version, dir@, quiet).0,
            decreases n - i,
        {
            let ghost before = plan.deep_view();
            proof {
                assert(ps.take(i + 1).drop_last() =~= ps.take(i as int));
                assert(self.packages@[i as int]@ == ps[i as int]);
            }
            match RustPackageSpec::parse(self.packages[i].as_str()) {
                Ok(spec) => {
                    let mut add: Vec<String> = Vec::new();
                    push_arg(&mut add, "run");
                    push_arg(&mut add, "--install");
                    push_arg(&mut add, version);
                    push_arg(&mut add, "cargo");
                    push_arg(&mut add, "add");
                    push_arg(&mut add, spec.dependency.as_str());
                    if spec.features.len() > 0 {
                        push_arg(&mut add, "--features");
                        let fs = spec.features.as_slice();
                        assert(fs.deep_view() =~= spec.features.deep_view());
                        let joined = join_strings(fs, ',');
                        push_arg(&mut add, joined.as_str());
                    }
                    let ghost step = rust_add_step(
                        self@.version,
                        dir@,
                        spec.dependency@,
                        spec.features.deep_view(),
                        quiet,
                    );
                    assert(add.deep_view() =~= cargo_add_args(
                        self@.version,
                        spec.dependency@,
                        spec.features.deep_view(),
                    ));
                    plan.push(Step::Setup {
                        stage: owned("install Rust dependencies"),
                        command: Invocation {
                            program: owned("rustup"),
                            args: add,
                            cwd: Some(owned(dir)),
                            env: no_env(),
                        },
                        quiet,
                    });
                    assert(plan.deep_view() =~= before.push(step));
                    proof {
                        let prev = rust_package_steps(ps.take(i as int), self@.version, dir@, quiet);
                        assert(rust_package(ps[i as int]) == Ok::<_, Seq<char>>(
                            (spec.dependency@, spec.features.deep_view()),
                        ));
                        assert(rust_package_steps(ps.take(i + 1), self@.version, dir@, quiet) == (
                            prev.0.push(step),
                            false,
                        ));
                        assert(plan.deep_view() =~= head + rust_package_steps(
                            ps.take(i + 1),
                            self@.version,
                            dir@,
                            quiet,
                        ).0);
                    }
                },
                Err(failure) => {
                    let ghost fv = failure.deep_view();
                    plan.push(Step::Fail { failure });
                    assert(plan.deep_view() =~= before.push(StepView::Fail { failure: fv }));
                    proof {
                        let prev = rust_package_steps(ps.take(i as int), self@.version, dir@, quiet);
                        let m = rust_package(ps[i as int])->Err_0;
                        let stop = StepView::Fail { failure: message_failure(m) };
                        assert(rust_package_steps(ps.take(i + 1), self@.version, dir@, quiet) == (
                            prev.0.push(stop),
                            true,
                        ));
                        lemma_package_steps_stop(ps, self@.version, dir@, quiet, i + 1);
                        let all = rust_package_steps(ps, self@.version, dir@, quiet);
                        assert(all.1);
                        assert(expected == head + all.0);
                        assert(fv == message_failure(m));
                        assert(all.0 == prev.0.push(stop));
                        assert(before == head + prev.0);
                        assert(plan.deep_view() =~= expected);
                    }
                    return plan;
                },
            }
            i = i + 1;
        }
        assert(ps.take(n as int) =~= ps);
        let ghost body = plan.deep_view();
        let ghost all = rust_package_steps(ps, self@.version, dir@, quiet);
        assert(!all.1);
        assert(body == head + all.0);
        assert(seq![expected[0], StepView::WriteSource { path: source@, code: code@ }] =~= head);
        match cache {
            None => {
                plan.push(Step::Fail {
                    failure: RunFailure::message(owned("could not determine the user cache directory")),
                });
                assert(expected == (head + all.0).push(
                    StepView::Fail { failure: message_failure(no_cache_message()) },
                ));
                assert(plan.deep_view() =~= expected);
            },
            Some(c) => {
                plan.push(Step::CreateCache { path: owned(c) });
                let mut run: Vec<String> = Vec::new();
                push_arg(&mut run, "run");
                push_arg(&mut run, "--install");
                push_arg(&mut run, version);
                push_arg(&mut run, "cargo");
                push_arg(&mut run, "run");
                push_arg(&mut run, "--quiet");
                push_arg(&mut run, "--manifest-path");
                push_arg(&mut run, manifest);
                if arguments.len() > 0 {
                    push_arg(&mut run, "--");
                    extend_args(&mut run, arguments);
                }
                assert(run.deep_view() =~= cargo_run_args(self@.version, manifest@, arguments.deep_view()));
                let mut env: Vec<(String, String)> = Vec::new();
                env.push((owned("CARGO_TARGET_DIR"), owned(c)));
                assert(env.deep_view() =~= seq![("CARGO_TARGET_DIR"@, c@)]);
                plan.push(Step::Final {
                    command: Invocation {
                        program: owned("rustup"),
                        args: run,
                        cwd: Some(owned(execution.cwd_or(dir))),
                        env,
                    },
                    unprinted_env: copy_env(execution.environment()),
                    quiet,
                });
                assert(expected == head + all.0 + seq![
                    StepView::CreateCache { path: c@ },
                    StepView::Final {
                        command: InvocationView {
                            program: "rustup"@,
                            args: cargo_run_args(self@.version, manifest@, arguments.deep_view()),
                            cwd: Some(chosen_cwd(execution@, dir@)),
                            env: seq![("CARGO_TARGET_DIR"@, c@)],
                        },
                        unprinted_env: execution@.environment,
                        quiet,
                    },
                ]);
                assert(plan.deep_view() =~= expected);
            },
        }
        plan
    }

    /// The plan for running code in the project at `dir`: the source is
    /// `src/main.rs` and the manifest `Cargo.toml` in it, and builds go to
    /// the shared target directory in the user's cache.
    pub fn prepare(
        &self,
        dir: &str,
        code: &str,
        arguments: &[String],
        execution: &ExecutionContext,
        quiet: bool,
    ) -> (plan: Vec<Step>)
        ensures
            rust_prepared(self@, dir@, code@, arguments.deep_view(), execution@, quiet, plan.deep_view()),
            well_formed_plan(plan.deep_view()),
    {
        proof {
            reveal_strlit("src/main.rs");
            reveal_strlit("Cargo.toml");
        }
        let source = join_path(dir, "src/main.rs");
        let manifest = join_path(dir, "Cargo.toml");
        let cache = target_cache();
        let (s, m) = (source.as_str(), manifest.as_str());
        let c = match &cache {
            Some(p) => Some(p.as_str()),
            None => None,
        };
        let plan = self.plan_project(dir, s, m, c, code, arguments, execution, quiet);
        let ghost cv = match c {
            Some(p) => Some(p@),
            None => None,
        };
        assert(plan.deep_view() == rust_project_plan(
            self@,
            dir@,
            s@,
            m@,
            cv,
            code@,
            arguments.deep_view(),
            execution@,
            quiet,
        ));
        proof {
            lemma_rust_plans_well_formed(self@, dir@, s@, m@, cv, code@, arguments.deep_view(), execution@, quiet);
        }
        plan
    }
}

/// Package steps are `cargo add` steps, except a failure that ends them.
pub proof fn lemma_package_steps_shape(
    packages: Seq<Seq<char>>,
    version: Seq<char>,
    dir: Seq<char>,
    quiet: bool,
)
    ensures
        ({
            let (steps, stopped) = rust_package_steps(packages, version, dir, quiet);
            &&& stopped ==> steps.len() > 0 && steps.last() is Fail
            &&& forall|i: int|
                0 <= i < steps.len() && !(stopped && i == steps.len() - 1) ==> !is_terminal(
                    #[trigger] steps[i],
                )
            &&& quiet ==> nothing_shown(steps)
            &&& forall|i: int|
                0 <= i < steps.len() ==> (#[trigger] steps[i] matches StepView::Setup {
                    stage,
                    command,
                    quiet: q,
                } ==> stage == "install Rust dependencies"@ && q == quiet && command.cwd == Some(dir))
        }),
    decreases packages.len(),
{
    if packages.len() > 0 {
        lemma_package_steps_shape(packages.drop_last(), version, dir, quiet);
    }
}

/// Every Rust plan ends with exactly one final command or failure.
pub proof fn lemma_rust_plans_well_formed(
    b: BackendView,
    dir: Seq<char>,
    source: Seq<char>,
    manifest: Seq<char>,
    cache: Option<Seq<char>>,
    code: Seq<char>,
    arguments: Seq<Seq<char>>,
    exec: ExecutionView,
    quiet: bool,
)
    ensures
        well_formed_plan(rust_project_plan(b, dir, source, manifest, cache, code, arguments, exec, quiet)),
{
    lemma_package_steps_shape(b.packages, b.version, dir, quiet);
    let (adds, stopped) = rust_package_steps(b.packages, b.version, dir, quiet);
    let plan = rust_project_plan(b, dir, source, manifest, cache, code, arguments, exec, quiet);
    assert forall|i: int| 2 <= i < 2 + adds.len() implies #[trigger] plan[i] == adds[i - 2] by {
        if !stopped {
            match cache {
                None => {},
                Some(c) => {},
            }
        }
    }
    assert forall|i: int| 0 <= i < plan.len() - 1 implies !is_terminal(#[trigger] plan[i]) by {
        if 2 <= i < 2 + adds.len() {
            assert(plan[i] == adds[i - 2]);
        }
    }
}

/// A feature as written in a package specification: not empty, without
/// surrounding white space, commas or brackets.
pub open spec fn plain_feature(feature: Seq<char>) -> bool {
    &&& feature.len() > 0
    &&& !is_white_space(feature[0])
    &&& !is_white_space(feature.last())
    &&& !feature.contains(',')
    &&& !has_bracket(feature)
}

/// A dependency written without features reads back unchanged, and one
/// written as `DEPENDENCY[F1,...,Fn]` reads back as that dependency and
/// exactly those features, in order.
pub proof fn lemma_package_specs_read_back(dependency: Seq<char>, features: Seq<Seq<char>>)
    requires
        dependency.len() > 0,
        !has_bracket(dependency),
        forall|i: int| 0 <= i < features.len() ==> plain_feature(#[trigger] features[i]),
    ensures
        rust_package(dependency) == Ok::<_, Seq<char>>((dependency, Seq::<Seq<char>>::empty())),
        features.len() > 0 ==> rust_package(
            dependency + seq!['['] + join_sep(features, ',') + seq![']'],
        ) == Ok::<_, Seq<char>>((dependency, features)),
{
    if dependency.last() == ']' {
        assert(dependency.contains(']'));
    }
    if features.len() > 0 {
        let list = join_sep(features, ',');
        let value = dependency + seq!['['] + list + seq![']'];
        let open = dependency.len() as int;
        assert forall|i: int| 0 <= i < features.len() implies !(#[trigger] features[i]).contains(
            '[',
        ) by {
            assert(plain_feature(features[i]));
        }
        lemma_join_lacks(features, ',', '[');
        lemma_join_ends_with_last(features, ',');
        assert(plain_feature(features.last()));
        assert(value.last() == ']');
        assert(value[open] == '[');
        lemma_last_pos_below(value, '[', value.len() as int);
        match last_pos(value, '[') {
            Some(i) => {
                if i > open {
                    assert(value[i] == list[i - open - 1]);
                } else if i < open {
                    assert(value[open] != '[');
                }
            },
            None => {
                assert(value[open] != '[');
            },
        }
        assert(last_pos(value, '[') == Some(open));
        assert(value.take(open) =~= dependency);
        assert(value.subrange(open + 1, value.len() - 1) =~= list);
        lemma_split_join(features, ',');
        assert forall|i: int| 0 <= i < features.len() implies feature_converter(value)(
            #[trigger] features[i],
        ) == Ok::<Seq<char>, Seq<char>>(features[i]) by {
            let f = features[i];
            assert(plain_feature(f));
            lemma_leading_white(f, 0);
            lemma_trailing_white(f, f.len() as int);
            assert(f.skip(0) =~= f);
            assert(f.take(f.len() as int) =~= f);
            assert(trim(f) == f);
        }
        lemma_collect_all_ok(features, feature_converter(value), features);
    }
}

/// The final `cargo run` of a Rust plan runs in the chosen working directory
/// and receives the environment file's variables.
pub proof fn lemma_rust_final_context(
    b: BackendView,
    dir: Seq<char>,
    source: Seq<char>,
    manifest: Seq<char>,
    cache: Option<Seq<char>>,
    code: Seq<char>,
    arguments: Seq<Seq<char>>,
    exec: ExecutionView,
    quiet: bool,
)
    ensures
        final_runs_in(
            rust_project_plan(b, dir, source, manifest, cache, code, arguments, exec, quiet),
            chosen_cwd(exec, dir),
            exec.environment,
        ),
{
    lemma_package_steps_shape(b.packages, b.version, dir, quiet);
}

/// With `--quiet` no setup step or command of a Rust plan is shown.
pub proof fn lemma_rust_quiet(
    b: BackendView,
    dir: Seq<char>,
    source: Seq<char>,
    manifest: Seq<char>,
    cache: Option<Seq<char>>,
    code: Seq<char>,
    arguments: Seq<Seq<char>>,
    exec: ExecutionView,
)
    ensures
        nothing_shown(rust_project_plan(b, dir, source, manifest, cache, code, arguments, exec, true)),
{
    lemma_package_steps_shape(b.packages, b.version, dir, true);
    let (adds, stopped) = rust_package_steps(b.packages, b.version, dir, true);
    let plan = rust_project_plan(b, dir, source, manifest, cache, code, arguments, exec, true);
    assert forall|i: int| 0 <= i < plan.len() implies !step_shown(#[trigger] plan[i]) by {
        if 2 <= i < 2 + adds.len() {
            assert(plan[i] == adds[i - 2]);
            assert(!step_shown(adds[i - 2]));
        }
    }
}

/// Without `--quiet` a Rust plan shows only the package installation and
/// the final command.
pub proof fn lemma_rust_shown_steps(
    b: BackendView,
    dir: Seq<char>,
    source: Seq<char>,
    manifest: Seq<char>,
    cache: Option<Seq<char>>,
    code: Seq<char>,
    arguments: Seq<Seq<char>>,
    exec: ExecutionView,
)
    ensures
        shows_installs_and_final(
            rust_project_plan(b, dir, source, manifest, cache, code, arguments, exec, false),
        ),
{
    lemma_dependency_stage_lengths();
    reveal_strlit("initialize Cargo project");
    assert("initialize Cargo project"@.len() == 24);
    lemma_package_steps_shape(b.packages, b.version, dir, false);
    let (adds, stopped) = rust_package_steps(b.packages, b.version, dir, false);
    let plan = rust_project_plan(b, dir, source, manifest, cache, code, arguments, exec, false);
    assert forall|i: int| 2 <= i < 2 + adds.len() implies #[trigger] plan[i] == adds[i - 2] by {
        if !stopped {
            match cache {
                None => {},
                Some(c) => {},
            }
        }
    }
}

/// When every package specification reads, the package steps are one
/// `cargo add` per package, in order, each adding that package's dependency.
pub proof fn lemma_package_steps_add_each(
    packages: Seq<Seq<char>>,
    version: Seq<char>,
    dir: Seq<char>,
    quiet: bool,
)
    requires
        forall|i: int| 0 <= i < packages.len() ==> #[trigger] rust_package(packages[i]) is Ok,
    ensures
        ({
            let (steps, stopped) = rust_package_steps(packages, version, dir, quiet);
            &&& !stopped
            &&& steps.len() == packages.len()
            &&& forall|i: int|
                0 <= i < packages.len() ==> {
                    &&& #[trigger] steps[i] matches StepView::Setup { command, .. }
                    &&& steps[i]->Setup_command.program == "rustup"@
                    &&& steps[i]->Setup_command.args[4] == "add"@
                    &&& steps[i]->Setup_command.args[5] == rust_package(packages[i])->Ok_0.0
                }
        }),
    decreases packages.len(),
{
    if packages.len() > 0 {
        let front = packages.drop_last();
        assert forall|i: int| 0 <= i < front.len() implies #[trigger] rust_package(front[i]) is Ok by {
            assert(front[i] == packages[i]);
        }
        lemma_package_steps_add_each(front, version, dir, quiet);
        assert(rust_package(packages[packages.len() - 1]) is Ok);
        let (done, _) = rust_package_steps(front, version, dir, quiet);
        let (steps, _) = rust_package_steps(packages, version, dir, quiet);
        assert forall|i: int| 0 <= i < packages.len() implies {
            &&& #[trigger] steps[i] matches StepView::Setup { command, .. }
            &&& steps[i]->Setup_command.program == "rustup"@
            &&& steps[i]->Setup_command.args[4] == "add"@
            &&& steps[i]->Setup_command.args[5] == rust_package(packages[i])->Ok_0.0
        } by {
            if i < packages.len() - 1 {
                assert(steps[i] == done[i]);
                assert(front[i] == packages[i]);
            }
        }
    }
}

/// A Rust plan passes the snippet's arguments last, and adds the packages
/// in the project directory: when every specification reads, there is one
/// `cargo add` step per package, in order, after the source is written.
pub proof fn lemma_rust_arguments_and_packages(
    b: BackendView,
    dir: Seq<char>,
    source: Seq<char>,
    manifest: Seq<char>,
    cache: Option<Seq<char>>,
    code: Seq<char>,
    arguments: Seq<Seq<char>>,
    exec: ExecutionView,
    quiet: bool,
)
    ensures
        final_passes(
            rust_project_plan(b, dir, source, manifest, cache, code, arguments, exec, quiet),
            arguments,
        ),
        installs_in(
            rust_project_plan(b, dir, source, manifest, cache, code, arguments, exec, quiet),
            dir,
        ),
        (forall|i: int| 0 <= i < b.packages.len() ==> #[trigger] rust_package(b.packages[i]) is Ok)
            ==> {
            let plan = rust_project_plan(b, dir, source, manifest, cache, code, arguments, exec, quiet);
            &&& plan.len() >= b.packages.len() + 3
            &&& forall|i: int|
                0 <= i < b.packages.len() ==> {
                    &&& #[trigger] plan[i + 2] matches StepView::Setup { command, .. }
                    &&& plan[i + 2]->Setup_command.cwd == Some(dir)
                    &&& plan[i + 2]->Setup_command.args[4] == "add"@
                    &&& plan[i + 2]->Setup_command.args[5] == rust_package(b.packages[i])->Ok_0.0
                }
        },
{
    lemma_dependency_stage_lengths();
    reveal_strlit("initialize Cargo project");
    assert("initialize Cargo project"@.len() == 24);
    lemma_package_steps_shape(b.packages, b.version, dir, quiet);
    let (adds, stopped) = rust_package_steps(b.packages, b.version, dir, quiet);
    let plan = rust_project_plan(b, dir, source, manifest, cache, code, arguments, exec, quiet);
    assert forall|i: int| 2 <= i < 2 + adds.len() implies #[trigger] plan[i] == adds[i - 2] by {
        if !stopped {
            match cache {
                None => {},
                Some(c) => {},
            }
        }
    }
    if !stopped && cache is Some {
        let args = cargo_run_args(b.version, manifest, arguments);
        assert(plan.last()->Final_command.args == args);
        if arguments.len() > 0 {
            assert(args.subrange(args.len() - arguments.len(), args.len() as int) =~= arguments);
        } else {
            assert(args.subrange(args.len() - arguments.len(), args.len() as int) =~= arguments);
        }
    }
    if forall|i: int| 0 <= i < b.packages.len() ==> #[trigger] rust_package(b.packages[i]) is Ok {
        lemma_package_steps_add_each(b.packages, b.version, dir, quiet);
        assert forall|i: int| 0 <= i < b.packages.len() implies {
            &&& #[trigger] plan[i + 2] matches StepView::Setup { command, .. }
            &&& plan[i + 2]->Setup_command.cwd == Some(dir)
            &&& plan[i + 2]->Setup_command.args[4] == "add"@
            &&& plan[i + 2]->Setup_command.args[5] == rust_package(b.packages[i])->Ok_0.0
        } by {
            assert(plan[i + 2] == adds[i]);
        }
    }
}

} // verus!
