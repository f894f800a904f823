//! Python snippets run with `uv`: directly when no package is requested,
//! otherwise in a fresh `uv` project.

use vstd::prelude::*;
use crate::cli::ToolchainSpec;
use crate::execution::{ExecutionContext, ExecutionView, chosen_cwd};
use crate::plan::{
    Invocation, InvocationView, Step, StepView, copy_env, extend_args, no_env, push_arg,
    final_passes, final_runs_in, nothing_shown, well_formed_plan,
};
use crate::process::{RunFailure, message_failure};
use crate::runner::{
    BackendView, installs_in, lemma_dependency_stage_lengths, shows_installs_and_final,
};
use crate::text::{
    chars_of, collect_all, concat, find, first_match, last_pos, occurs_at, lemma_collect_prefix_err,
    lemma_collect_all_converts, lemma_collect_step, lemma_first_match_at, lemma_first_match_from, lemma_last_pos_below, owned, rfind_char,
    rsplit_once, split_once, string_of, sub_chars,
};
use crate::util::{adjoined, is_verbatim, join_path};

verus! {

broadcast use vstd::string::group_string_axioms;

/// The Python backend for one toolchain and set of packages.
pub struct PythonBackend<'a> {
    toolchain: &'a ToolchainSpec,
    packages: &'a [String],
    source_file: bool,
}

impl<'a> View for PythonBackend<'a> {
    type V = BackendView;

    closed spec fn view(&self) -> BackendView {
        BackendView { version: self.toolchain.version@, packages: self.packages.deep_view() }
    }
}

/// The message for a package specification `uv` cannot be given.
pub open spec fn invalid_python_package(package: Seq<char>) -> Seq<char> {
    "invalid Python package specification: "@ + package
}

/// A user package specification as `uv add` takes it: `NAME==VERSION` is
/// kept, `NAME@VERSION` (cut at the last `@`) becomes `NAME==VERSION`,
/// anything else is kept; an empty name or version is refused.
pub open spec fn python_package(package: Seq<char>) -> Result<Seq<char>, Seq<char>> {
    match split_once(package, seq!['=', '=']) {
        Some((name, version)) => if name.len() == 0 || version.len() == 0 {
            Err(invalid_python_package(package))
        } else {
            Ok(package)
        },
        None => match rsplit_once(package, '@') {
            Some((name, version)) => if name.len() == 0 || version.len() == 0 {
                Err(invalid_python_package(package))
            } else {
                Ok(name + seq!['=', '='] + version)
            },
            None => Ok(package),
        },
    }
}

/// Converts a user package specification for `uv add`.
pub fn package_spec(package: &str) -> (r: Result<String, RunFailure>)
    ensures
        match r {
            Ok(spec) => python_package(package@) == Ok::<_, Seq<char>>(spec@),
            Err(f) => python_package(package@) is Err && f.deep_view() == message_failure(
                python_package(package@)->Err_0,
            ),
        },
{
    let chars = chars_of(package);
    let n = chars.len();
    let eq: Vec<char> = vec!['=', '='];
    let pat = eq.as_slice();
    assert(pat@ =~= seq!['=', '=']);
    match find(chars.as_slice(), pat) {
        Some(i) => {
            if i == 0 || i + 2 == n {
                return Err(RunFailure::message(concat("invalid Python package specification: ", package)));
            }
            assert(package@.take(i as int).len() > 0);
            Ok(owned(package))
        },
        None => match rfind_char(chars.as_slice(), '@') {
            Some(i) => {
                if i == 0 || i + 1 == n {
                    return Err(RunFailure::message(concat("invalid Python package specification: ", package)));
                }
                let name = sub_chars(chars.as_slice(), 0, i);
                let version = sub_chars(chars.as_slice(), i + 1, n);
                let mut out = name;
                out.push('=');
                out.push('=');
                let ghost head = out@;
                let mut k: usize = 0;
                while k < version.len()
                    invariant
                        k <= version@.len(),
                        out@ == head + version@.take(k as int),
                    decreases version@.len() - k,
                {
                    out.push(version[k]);
                    k = k + 1;
                    assert(out@ =~= head + version@.take(k as int));
                }
                proof {
                    assert(version@.take(version@.len() as int) =~= version@);
                    assert(name@ =~= package@.take(i as int));
                    assert(version@ =~= package@.skip(i + 1));
                    assert(out@ =~= package@.take(i as int) + seq!['=', '='] + package@.skip(i + 1));
                }
                Ok(string_of(out.as_slice()))
            },
            None => Ok(owned(package)),
        },
    }
}

/// `python_package` as a function value.
pub open spec fn python_converter() -> spec_fn(Seq<char>) -> Result<Seq<char>, Seq<char>> {
    |p: Seq<char>| python_package(p)
}

/// `uv run` arguments that execute code without a project.
pub open spec fn uv_direct_args(version: Seq<char>, code: Seq<char>, arguments: Seq<Seq<char>>) -> Seq<Seq<char>> {
    seq![
        "run"@,
        "--quiet"@,
        "--isolated"@,
        "--managed-python"@,
        "--python"@,
        version,
        "python"@,
        "-c"@,
        code,
    ] + arguments
}

/// Running code without a project: one `uv run` in the chosen directory.
pub open spec fn python_direct_plan(
    b: BackendView,
    code: Seq<char>,
    arguments: Seq<Seq<char>>,
    exec: ExecutionView,
    fallback: Seq<char>,
    quiet: bool,
) -> Seq<StepView> {
    seq![
        StepView::Final {
            command: InvocationView {
                program: "uv"@,
                args: uv_direct_args(b.version, code, arguments),
                cwd: Some(chosen_cwd(exec, fallback)),
                env: seq![],
            },
            unprinted_env: exec.environment,
            quiet,
        },
    ]
}

/// `uv init` arguments for the project directory.
pub open spec fn uv_init_args(version: Seq<char>, dir: Seq<char>) -> Seq<Seq<char>> {
    seq![
        "init"@,
        "--app"@,
        "--no-readme"@,
        "--vcs"@,
        "none"@,
        "--no-workspace"@,
        "--managed-python"@,
        "--python"@,
        version,
        dir,
    ]
}

/// `uv run` arguments that execute the project's source file.
pub open spec fn uv_project_run_args(
    version: Seq<char>,
    dir: Seq<char>,
    source: Seq<char>,
    arguments: Seq<Seq<char>>,
    quiet: bool,
) -> Seq<Seq<char>> {
    seq!["run"@] + (if quiet {
        seq!["--quiet"@]
    } else {
        seq![]
    }) + seq!["--project"@, dir, "--managed-python"@, "--python"@, version, "python"@, source]
        + arguments
}

/// Running code in a project: `uv init`, write the source, `uv add` the
/// converted packages (or stop at the first one that cannot be converted),
/// then `uv run` the source.
pub open spec fn python_project_plan(
    b: BackendView,
    dir: Seq<char>,
    source: Seq<char>,
    code: Seq<char>,
    arguments: Seq<Seq<char>>,
    exec: ExecutionView,
    quiet: bool,
) -> Seq<StepView> {
    let init = StepView::Setup {
        stage: "initialize uv project"@,
        command: InvocationView {
            program: "uv"@,
            args: uv_init_args(b.version, dir),
            cwd: None,
            env: seq![],
        },
        quiet: true,
    };
    let write = StepView::WriteSource { path: source, code };
    let run = StepView::Final {
        command: InvocationView {
            program: "uv"@,
            args: uv_project_run_args(b.version, dir, source, arguments, quiet),
            cwd: Some(chosen_cwd(exec, dir)),
            env: seq![],
        },
        unprinted_env: exec.environment,
        quiet,
    };
    if b.packages.len() == 0 {
        seq![init, write, run]
    } else {
        match collect_all(b.packages, python_converter()) {
            Err(m) => seq![init, write, StepView::Fail { failure: message_failure(m) }],
            Ok(specs) => seq![
                init,
                write,
                StepView::Setup {
                    stage: "install Python dependencies"@,
                    command: InvocationView {
                        program: "uv"@,
                        args: seq!["add"@] + specs,
                        cwd: Some(dir),
                        env: seq![],
                    },
                    quiet,
                },
                run,
            ],
        }
    }
}

/// `plan` is the Python project plan for `dir`, with the files placed in it.
pub open spec fn python_prepared(
    b: BackendView,
    dir: Seq<char>,
    code: Seq<char>,
    arguments: Seq<Seq<char>>,
    exec: ExecutionView,
    quiet: bool,
    plan: Seq<StepView>,
) -> bool {
    exists|source: Seq<char>|
        #![trigger python_project_plan(b, dir, source, code, arguments, exec, quiet)]
        {
            &&& !is_verbatim(dir) ==> adjoined(dir, "main.py"@, source)
            &&& plan == python_project_plan(
                b,
                dir,
                source,
                code,
                arguments,
                exec,
                quiet,
            )
        }
}

impl<'a> PythonBackend<'a> {
    /// The Python backend for a toolchain and the user's packages.
    pub fn new(toolchain: &'a ToolchainSpec, packages: &'a [String]) -> (r: Self)
        ensures
            r@ == (BackendView { version: toolchain.version@, packages: packages.deep_view() }),
            !r.copies_source_file(),
    {
        PythonBackend { toolchain, packages, source_file: false }
    }

    /// Whether the code comes from a source file, which is copied into a
    /// fresh project rather than run directly.
    pub closed spec fn copies_source_file(&self) -> bool {
        self.source_file
    }

    /// The same backend, for code from a source file or not.
    pub fn with_source_file(self, source_file: bool) -> (r: Self)
        ensures
            r@ == self@,
            r.copies_source_file() == source_file,
    {
        PythonBackend { source_file, ..self }
    }

    /// Python runs without a project when no package is requested and the
    /// code does not come from a source file.
    pub fn runs_without_project(&self) -> (r: bool)
        ensures
            r == (self@.packages.len() == 0 && !self.copies_source_file()),
    {
        self.packages.len() == 0 && !self.source_file
    }

    /// The plan for running code without a project; `fallback` is the
    /// directory it runs in when no working directory was given.
    pub fn run_direct(
        &self,
        code: &str,
        arguments: &[String],
        execution: &ExecutionContext,
        fallback: &str,
        quiet: bool,
    ) -> (plan: Vec<Step>)
        ensures
            plan.deep_view() == python_direct_plan(
                self@,
                code@,
                arguments.deep_view(),
                execution@,
                fallback@,
                quiet,
            ),
    {
        let mut args: Vec<String> = Vec::new();
        push_arg(&mut args, "run");
        push_arg(&mut args, "--quiet");
        push_arg(&mut args, "--isolated");
        push_arg(&mut args, "--managed-python");
        push_arg(&mut args, "--python");
        push_arg(&mut args, self.toolchain.version.as_str());
        push_arg(&mut args, "python");
        push_arg(&mut args, "-c");
        push_arg(&mut args, code);
        extend_args(&mut args, arguments);
        let command = Invocation {
            program: owned("uv"),
            args,
            cwd: Some(owned(execution.cwd_or(fallback))),
            env: no_env(),
        };
        let step = Step::Final {
            command,
            unprinted_env: copy_env(execution.environment()),
            quiet,
        };
        let mut plan: Vec<Step> = Vec::new();
        plan.push(step);
        proof {
            assert(command.args.deep_view() =~= uv_direct_args(self@.version, code@, arguments.deep_view()));
            assert(command.env.deep_view() =~= Seq::<(Seq<char>, Seq<char>)>::empty());
            assert(plan.deep_view() =~= python_direct_plan(
                self@,
                code@,
                arguments.deep_view(),
                execution@,
                fallback@,
                quiet,
            ));
        }
        plan
    }

    /// The plan for running code in the project at `dir`, whose source file
    /// is `source`.
    pub fn plan_project(
        &self,
        dir: &str,
        source: &str,
        code: &str,
        arguments: &[String],
        execution: &ExecutionContext,
        quiet: bool,
    ) -> (plan: Vec<Step>)
        ensures
            plan.deep_view() == python_project_plan(
                self@,
                dir@,
                source@,
                code@,
                arguments.deep_view(),
                execution@,
                quiet,
            ),
    {
        let version = self.toolchain.version.as_str();
        let mut init_args: Vec<String> = Vec::new();
        push_arg(&mut init_args, "init");
        push_arg(&mut init_args, "--app");
        push_arg(&mut init_args, "--no-readme");
        push_arg(&mut init_args, "--vcs");
        push_arg(&mut init_args, "none");
        push_arg(&mut init_args, "--no-workspace");
        push_arg(&mut init_args, "--managed-python");
        push_arg(&mut init_args, "--python");
        push_arg(&mut init_args, version);
        push_arg(&mut init_args, dir);
        assert(init_args.deep_view() =~= uv_init_args(self@.version, dir@));
        let init = Step::Setup {
            stage: owned("initialize uv project"),
            command: Invocation { program: owned("uv"), args: init_args, cwd: None, env: no_env() },
            quiet: true,
        };
        let write = Step::WriteSource { path: owned(source), code: owned(code) };
        let mut plan: Vec<Step> = Vec::new();
        plan.push(init);
        plan.push(write);
        let ghost expected = python_project_plan(
            self@,
            dir@,
            source@,
            code@,
            arguments.deep_view(),
            execution@,
            quiet,
        );
        assert(plan.deep_view()[0] == expected[0]);
        assert(plan.deep_view()[1] == expected[1]);
        let ghost prefix = plan.deep_view();
        if self.packages.len() > 0 {
            let mut add_args: Vec<String> = Vec::new();
            push_arg(&mut add_args, "add");
            proof {
                assert(self@.packages.take(0) =~= Seq::<Seq<char>>::empty());
                assert(add_args.deep_view().skip(1) =~= Seq::<Seq<char>>::empty());
            }
            let n = self.packages.len();
            let mut i: usize = 0;
            while i < n
                invariant
                    n == self@.packages.len(),
                    i <= n,
                    collect_all(self@.packages.take(i as int), python_converter()) == Ok::<
                        Seq<Seq<char>>,
                        Seq<char>,
                    >(add_args.deep_view().skip(1)),
                    add_args.deep_view().len() >= 1,
                    add_args.deep_view()[0] == "add"@,
                    plan.deep_view() == prefix,
                    prefix.len() == 2,
                    prefix[0] == expected[0],
                    prefix[1] == expected[1],
                    expected == python_project_plan(
                        self@,
                        dir@,
                        source@,
                        code@,
                        arguments.deep_view(),
                        execution@,
                        quiet,
                    ),
                decreases n - i,
            {
                proof {
                    lemma_collect_step(self@.packages, python_converter(), i as int);
                }
                assert(self.packages@[i as int]@ == self@.packages[i as int]);
                match package_spec(self.packages[i].as_str()) {
                    Ok(spec) => {
                        let ghost before = add_args.deep_view();
                        add_args.push(spec);
                        assert(add_args.deep_view() =~= before.push(spec@));
                        assert(add_args.deep_view().skip(1) =~= before.skip(1).push(spec@));
                    },
                    Err(failure) => {
                        proof {
                            lemma_collect_prefix_err(self@.packages, python_converter(), i + 1);
                        }
                        plan.push(Step::Fail { failure });
                        assert(plan.deep_view() =~= expected);
                        return plan;
                    },
                }
                i = i + 1;
            }
            proof {
                assert(self@.packages.take(n as int) =~= self@.packages);
                assert(add_args.deep_view() =~= seq!["add"@] + add_args.deep_view().skip(1));
            }
            plan.push(Step::Setup {
                stage: owned("install Python dependencies"),
                command: Invocation {
                    program: owned("uv"),
                    args: add_args,
                    cwd: Some(owned(dir)),
                    env: no_env(),
                },
                quiet,
            });
        }
        let mut run_args: Vec<String> = Vec::new();
        push_arg(&mut run_args, "run");
        if quiet {
            push_arg(&mut run_args, "--quiet");
        }
        push_arg(&mut run_args, "--project");
        push_arg(&mut run_args, dir);
        push_arg(&mut run_args, "--managed-python");
        push_arg(&mut run_args, "--python");
        push_arg(&mut run_args, version);
        push_arg(&mut run_args, "python");
        push_arg(&mut run_args, source);
        extend_args(&mut run_args, arguments);
        assert(run_args.deep_view() =~= uv_project_run_args(
            self@.version,
            dir@,
            source@,
            arguments.deep_view(),
            quiet,
        ));
        plan.push(Step::Final {
            command: Invocation {
                program: owned("uv"),
                args: run_args,
                cwd: Some(owned(execution.cwd_or(dir))),
                env: no_env(),
            },
            unprinted_env: copy_env(execution.environment()),
            quiet,
        });
        proof {
            assert(plan.deep_view().last() == expected.last());
            assert(plan.deep_view().len() == expected.len());
            assert(plan.deep_view() =~= expected);
        }
        plan
    }

    /// The plan for running code in the project at `dir`; the source file
    /// is `main.py` in it.
    pub fn prepare(
        &self,
        dir: &str,
        code: &str,
        arguments: &[String],
        execution: &ExecutionContext,
        quiet: bool,
    ) -> (plan: Vec<Step>)
        ensures
            python_prepared(self@, dir@, code@, arguments.deep_view(), execution@, quiet, plan.deep_view()),
            well_formed_plan(plan.deep_view()),
    {
        proof {
            reveal_strlit("main.py");
        }
        let source = join_path(dir, "main.py");
        let src = source.as_str();
        let plan = self.plan_project(dir, src, code, arguments, execution, quiet);
        assert(plan.deep_view() == python_project_plan(
            self@,
            dir@,
            src@,
            code@,
            arguments.deep_view(),
            execution@,
            quiet,
        ));
        assert(!is_verbatim(dir@) ==> adjoined(dir@, "main.py"@, src@));
        proof {
            lemma_python_plans_well_formed(self@, dir@, src@, code@, arguments.deep_view(), execution@, dir@, quiet);
        }
        plan
    }
}

/// Every Python plan ends with exactly one final command or failure.
pub proof fn lemma_python_plans_well_formed(
    b: BackendView,
    dir: Seq<char>,
    source: Seq<char>,
    code: Seq<char>,
    arguments: Seq<Seq<char>>,
    exec: ExecutionView,
    fallback: Seq<char>,
    quiet: bool,
)
    ensures
        well_formed_plan(python_project_plan(b, dir, source, code, arguments, exec, quiet)),
        well_formed_plan(python_direct_plan(b, code, arguments, exec, fallback, quiet)),
{
}

/// A text without `=` holds no `==`.
proof fn lemma_no_equality(s: Seq<char>)
    requires
        !s.contains('='),
    ensures
        first_match(s, seq!['=', '=']) is None,
{
    lemma_first_match_from(s, seq!['=', '='], 0);
    match first_match(s, seq!['=', '=']) {
        Some(i) => {
            assert(s.subrange(i, i + 2)[0] == s[i]);
        },
        None => {},
    }
}

/// The first `==` of `name == version` is the one after the name, when the
/// name holds no `=`.
proof fn lemma_equality_after_name(name: Seq<char>, version: Seq<char>)
    requires
        !name.contains('='),
    ensures
        first_match(name + seq!['=', '='] + version, seq!['=', '=']) == Some(name.len() as int),
{
    let eq = seq!['=', '='];
    let n = name.len() as int;
    let kept = name + eq + version;
    assert(kept.subrange(n, n + 2) =~= eq);
    assert forall|j: int| 0 <= j < n implies !occurs_at(kept, eq, j) by {
        if occurs_at(kept, eq, j) {
            assert(kept.subrange(j, j + 2)[0] == kept[j]);
            assert(kept[j] == name[j]);
        }
    }
    lemma_first_match_at(kept, eq, n);
}

/// `NAME==VERSION` is handed to `uv` unchanged, and `NAME@VERSION` becomes
/// `NAME==VERSION` (the version being what follows the last `@`), for a
/// name and version without `=` and not empty.
pub proof fn lemma_python_package_forms(name: Seq<char>, version: Seq<char>)
    requires
        name.len() > 0,
        version.len() > 0,
        !name.contains('='),
        !version.contains('='),
    ensures
        python_package(name + seq!['=', '='] + version) == Ok::<_, Seq<char>>(
            name + seq!['=', '='] + version,
        ),
        !version.contains('@') ==> python_package(name + seq!['@'] + version) == Ok::<
            _,
            Seq<char>,
        >(name + seq!['=', '='] + version),
{
    let n = name.len() as int;
    let kept = name + seq!['=', '='] + version;
    lemma_equality_after_name(name, version);
    assert(kept.take(n) =~= name);
    assert(kept.skip(n + 2) =~= version);
    if !version.contains('@') {
        let at = name + seq!['@'] + version;
        assert(!at.contains('=')) by {
            if at.contains('=') {
                let k = choose|k: int| 0 <= k < at.len() && at[k] == '=';
                if k < n {
                    assert(at[k] == name[k]);
                } else if k > n {
                    assert(at[k] == version[k - n - 1]);
                }
            }
        }
        lemma_no_equality(at);
        assert(at[n] == '@');
        lemma_last_pos_below(at, '@', at.len() as int);
        match last_pos(at, '@') {
            Some(i) => {
                if i > n {
                    assert(at[i] == version[i - n - 1]);
                }
            },
            None => {},
        }
        assert(at.take(n) =~= name);
        assert(at.skip(n + 1) =~= version);
    }
}

/// The final `uv run` of a Python plan runs in the chosen working directory
/// (the project directory, or `fallback` without a project) and receives
/// the environment file's variables.
pub proof fn lemma_python_final_context(
    b: BackendView,
    dir: Seq<char>,
    source: Seq<char>,
    code: Seq<char>,
    arguments: Seq<Seq<char>>,
    exec: ExecutionView,
    fallback: Seq<char>,
    quiet: bool,
)
    ensures
        final_runs_in(
            python_project_plan(b, dir, source, code, arguments, exec, quiet),
            chosen_cwd(exec, dir),
            exec.environment,
        ),
        final_runs_in(
            python_direct_plan(b, code, arguments, exec, fallback, quiet),
            chosen_cwd(exec, fallback),
            exec.environment,
        ),
{
}

/// With `--quiet` no setup step or command of a Python plan is shown.
pub proof fn lemma_python_quiet(
    b: BackendView,
    dir: Seq<char>,
    source: Seq<char>,
    code: Seq<char>,
    arguments: Seq<Seq<char>>,
    exec: ExecutionView,
    fallback: Seq<char>,
)
    ensures
        nothing_shown(python_project_plan(b, dir, source, code, arguments, exec, true)),
        nothing_shown(python_direct_plan(b, code, arguments, exec, fallback, true)),
{
}

/// Without `--quiet` a Python plan shows only the package installation and
/// the final command.
pub proof fn lemma_python_shown_steps(
    b: BackendView,
    dir: Seq<char>,
    source: Seq<char>,
    code: Seq<char>,
    arguments: Seq<Seq<char>>,
    exec: ExecutionView,
    fallback: Seq<char>,
)
    ensures
        shows_installs_and_final(python_project_plan(b, dir, source, code, arguments, exec, false)),
        shows_installs_and_final(python_direct_plan(b, code, arguments, exec, fallback, false)),
{
    lemma_dependency_stage_lengths();
    reveal_strlit("initialize uv project");
    assert("initialize uv project"@.len() == 21);
}

/// A Python plan passes the snippet's arguments last, and installs the
/// packages in the project directory: when every package converts, one
/// `uv add` step adds all of them, converted, in order.
pub proof fn lemma_python_arguments_and_packages(
    b: BackendView,
    dir: Seq<char>,
    source: Seq<char>,
    code: Seq<char>,
    arguments: Seq<Seq<char>>,
    exec: ExecutionView,
    fallback: Seq<char>,
    quiet: bool,
)
    ensures
        final_passes(python_project_plan(b, dir, source, code, arguments, exec, quiet), arguments),
        final_passes(python_direct_plan(b, code, arguments, exec, fallback, quiet), arguments),
        installs_in(python_project_plan(b, dir, source, code, arguments, exec, quiet), dir),
        ({
            let plan = python_project_plan(b, dir, source, code, arguments, exec, quiet);
            b.packages.len() > 0 && (forall|i: int|
                0 <= i < b.packages.len() ==> #[trigger] python_package(b.packages[i]) is Ok) ==> {
                &&& plan.len() == 4
                &&& plan[2] matches StepView::Setup { command, .. }
                &&& plan[2]->Setup_command.program == "uv"@
                &&& plan[2]->Setup_command.args.len() == b.packages.len() + 1
                &&& plan[2]->Setup_command.args[0] == "add"@
                &&& forall|i: int|
                    0 <= i < b.packages.len() ==> plan[2]->Setup_command.args[i + 1] == python_package(
                        #[trigger] b.packages[i],
                    )->Ok_0
            }
        }),
{
    lemma_dependency_stage_lengths();
    reveal_strlit("initialize uv project");
    assert("initialize uv project"@.len() == 21);
    let plan = python_project_plan(b, dir, source, code, arguments, exec, quiet);
    if b.packages.len() > 0 && (forall|i: int|
        0 <= i < b.packages.len() ==> #[trigger] python_package(b.packages[i]) is Ok) {
        assert forall|i: int| 0 <= i < b.packages.len() implies python_converter()(
            #[trigger] b.packages[i],
        ) is Ok by {
            assert(python_package(b.packages[i]) is Ok);
        }
        lemma_collect_all_converts(b.packages, python_converter());
        let specs = collect_all(b.packages, python_converter())->Ok_0;
        assert forall|i: int| 0 <= i < b.packages.len() implies plan[2]->Setup_command.args[i + 1]
            == python_package(#[trigger] b.packages[i])->Ok_0 by {
            assert(python_converter()(b.packages[i]) == python_package(b.packages[i]));
        }
    }
}

} // verus!
