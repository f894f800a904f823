//! Go snippets run through `mise` in a fresh module, with `GOWORK=off` so
//! that an enclosing workspace cannot take over.

use vstd::prelude::*;
use crate::cli::ToolchainSpec;
use crate::execution::{ExecutionContext, ExecutionView, chosen_cwd};
use crate::plan::{
    Invocation, InvocationView, Step, StepView, copy_env, extend_args, no_env, push_arg,
    final_passes, final_runs_in, nothing_shown, well_formed_plan,
};
use crate::runner::{
    BackendView, installs_in, lemma_dependency_stage_lengths, shows_installs_and_final,
};
use crate::text::{concat, owned};
use crate::util::{Platform, adjoined, is_verbatim, join_path};

verus! {

broadcast use vstd::string::group_string_axioms;

/// The Go backend for one toolchain and set of packages.
pub struct GoBackend<'a> {
    toolchain: &'a ToolchainSpec,
    packages: &'a [String],
}

impl<'a> View for GoBackend<'a> {
    type V = BackendView;

    closed spec fn view(&self) -> BackendView {
        BackendView { version: self.toolchain.version@, packages: self.packages.deep_view() }
    }
}

/// The file name of the built snippet binary.
pub open spec fn go_binary_name(platform: Platform) -> Seq<char> {
    if platform == Platform::Windows {
        "run-code-snippet.exe"@
    } else {
        "run-code-snippet"@
    }
}

/// The variables that every Go command gets.
pub open spec fn go_env() -> Seq<(Seq<char>, Seq<char>)> {
    seq![("GOWORK"@, "off"@)]
}

/// A `mise exec go@VERSION -- go ...` invocation in the module directory.
pub open spec fn go_command(version: Seq<char>, dir: Seq<char>, go_args: Seq<Seq<char>>) -> InvocationView {
    InvocationView {
        program: "mise"@,
        args: seq!["exec"@, "go@"@ + version, "--"@, "go"@] + go_args,
        cwd: Some(dir),
        env: go_env(),
    }
}

/// Running code in the module at `dir`: `go mod init`, write the source,
/// `go get` the packages when there are any, then either build the binary
/// and run it in the chosen working directory, or `go run` in the module.
pub open spec fn go_project_plan(
    b: BackendView,
    dir: Seq<char>,
    source: Seq<char>,
    binary: Seq<char>,
    code: Seq<char>,
    arguments: Seq<Seq<char>>,
    exec: ExecutionView,
    quiet: bool,
) -> Seq<StepView> {
    let init = StepView::Setup {
        stage: "initialize Go module"@,
        command: go_command(b.version, dir, seq!["mod"@, "init"@, "run-code.local/snippet"@]),
        quiet: true,
    };
    let write = StepView::WriteSource { path: source, code };
    let setup = if b.packages.len() == 0 {
        seq![init, write]
    } else {
        seq![
            init,
            write,
            StepView::Setup {
                stage: "install Go dependencies"@,
                command: go_command(b.version, dir, seq!["get"@] + b.packages),
                quiet,
            },
        ]
    };
    if exec.working_directory is Some {
        setup + seq![
            StepView::Setup {
                stage: "build Go snippet"@,
                command: go_command(b.version, dir, seq!["build"@, "-o"@, binary, "."@]),
                quiet: true,
            },
            StepView::Final {
                command: InvocationView {
                    program: binary,
                    args: arguments,
                    cwd: Some(chosen_cwd(exec, dir)),
                    env: seq![],
                },
                unprinted_env: exec.environment,
                quiet,
            },
        ]
    } else {
        setup + seq![
            StepView::Final {
                command: go_command(b.version, dir, seq!["run"@, "."@] + arguments),
                unprinted_env: exec.environment,
                quiet,
            },
        ]
    }
}

fn go_env_vec() -> (r: Vec<(String, String)>)
    ensures
        r.deep_view() == go_env(),
{
    let mut r: Vec<(String, String)> = Vec::new();
    r.push((owned("GOWORK"), owned("off")));
    assert(r.deep_view() =~= go_env());
    r
}

/// `exec go@VERSION -- go` followed by nothing yet.
fn go_prefix(toolchain: &str) -> (r: Vec<String>)
    ensures
        r.deep_view() == seq!["exec"@, toolchain@, "--"@, "go"@],
{
    let mut r: Vec<String> = Vec::new();
    push_arg(&mut r, "exec");
    push_arg(&mut r, toolchain);
    push_arg(&mut r, "--");
    push_arg(&mut r, "go");
    r
}

/// The path of the built snippet binary in the module directory.
pub fn snippet_binary(dir: &str, platform: Platform) -> (r: String)
    ensures
        !is_verbatim(dir@) ==> adjoined(dir@, go_binary_name(platform), r@),
{
    if platform == Platform::Windows {
        proof {
            reveal_strlit("run-code-snippet.exe");
        }
        join_path(dir, "run-code-snippet.exe")
    } else {
        proof {
            reveal_strlit("run-code-snippet");
        }
        join_path(dir, "run-code-snippet")
    }
}

/// `plan` is the Go project plan for `dir`, with the files placed in it.
pub open spec fn go_prepared(
    b: BackendView,
    dir: Seq<char>,
    code: Seq<char>,
    arguments: Seq<Seq<char>>,
    exec: ExecutionView,
    quiet: bool,
    platform: Platform,
    plan: Seq<StepView>,
) -> bool {
    exists|source: Seq<char>, binary: Seq<char>|
        #![trigger go_project_plan(b, dir, source, binary, code, arguments, exec, quiet)]
        {
            &&& !is_verbatim(dir) ==> adjoined(dir, "main.go"@, source)
            &&& !is_verbatim(dir) ==> adjoined(dir, go_binary_name(platform), binary)
            &&& plan == go_project_plan(
                b,
                dir,
                source,
                binary,
                code,
                arguments,
                exec,
                quiet,
            )
        }
}

impl<'a> GoBackend<'a> {
    /// The Go backend for a toolchain and the user's packages.
    pub fn new(toolchain: &'a ToolchainSpec, packages: &'a [String]) -> (r: Self)
        ensures
            r@ == (BackendView { version: toolchain.version@, packages: packages.deep_view() }),
    {
        GoBackend { toolchain, packages }
    }

    /// The plan for running code in the module at `dir`, with the source
    /// file `source` and the binary path `binary`.
    pub fn plan_project(
        &self,
        dir: &str,
        source: &str,
        binary: &str,
        code: &str,
        arguments: &[String],
        execution: &ExecutionContext,
        quiet: bool,
    ) -> (plan: Vec<Step>)
        ensures
            plan.deep_view() == go_project_plan(
                self@,
                dir@,
                source@,
                binary@,
                code@,
                arguments.deep_view(),
                execution@,
                quiet,
            ),
    {
        let ghost expected = go_project_plan(
            self@,
            dir@,
            source@,
            binary@,
            code@,
            arguments.deep_view(),
            execution@,
            quiet,
        );
        let toolchain = concat("go@", self.toolchain.version.as_str());
        let mut init_args = go_prefix(toolchain.as_str());
        push_arg(&mut init_args, "mod");
        push_arg(&mut init_args, "init");
        push_arg(&mut init_args, "run-code.local/snippet");
        assert(init_args.deep_view() =~= go_command(self@.version, dir@, seq!["mod"@, "init"@, "run-code.local/snippet"@]).args);
        let mut plan: Vec<Step> = Vec::new();
        plan.push(Step::Setup {
            stage: owned("initialize Go module"),
            command: Invocation {
                program: owned("mise"),
                args: init_args,
                cwd: Some(owned(dir)),
                env: go_env_vec(),
            },
            quiet: true,
        });
        plan.push(Step::WriteSource { path: owned(source), code: owned(code) });
        assert(plan.deep_view()[0] == expected[0]);
        assert(plan.deep_view()[1] == expected[1]);
        if self.packages.len() > 0 {
            let mut get_args = go_prefix(toolchain.as_str());
            push_arg(&mut get_args, "get");
            extend_args(&mut get_args, self.packages);
            assert(get_args.deep_view() =~= go_command(self@.version, dir@, seq!["get"@] + self@.packages).args);
            plan.push(Step::Setup {
                stage: owned("install Go dependencies"),
                command: Invocation {
                    program: owned("mise"),
                    args: get_args,
                    cwd: Some(owned(dir)),
                    env: go_env_vec(),
                },
                quiet,
            });
            assert(plan.deep_view()[2] == expected[2]);
        }
        let ghost setup_len: int = plan.deep_view().len() as int;
        if execution.has_custom_cwd() {
            let mut build_args = go_prefix(toolchain.as_str());
            push_arg(&mut build_args, "build");
            push_arg(&mut build_args, "-o");
            push_arg(&mut build_args, binary);
            push_arg(&mut build_args, ".");
            assert(build_args.deep_view() =~= go_command(self@.version, dir@, seq!["build"@, "-o"@, binary@, "."@]).args);
            plan.push(Step::Setup {
                stage: owned("build Go snippet"),
                command: Invocation {
                    program: owned("mise"),
                    args: build_args,
                    cwd: Some(owned(dir)),
                    env: go_env_vec(),
                },
                quiet: true,
            });
            let mut run_args: Vec<String> = Vec::new();
            extend_args(&mut run_args, arguments);
            assert(run_args.deep_view() =~= arguments.deep_view());
            plan.push(Step::Final {
                command: Invocation {
                    program: owned(binary),
                    args: run_args,
                    cwd: Some(owned(execution.cwd_or(dir))),
                    env: no_env(),
                },
                unprinted_env: copy_env(execution.environment()),
                quiet,
            });
            assert(plan.deep_view()[setup_len] == expected[setup_len]);
            assert(plan.deep_view()[setup_len + 1] == expected[setup_len + 1]);
        } else {
            let mut run_args = go_prefix(toolchain.as_str());
            push_arg(&mut run_args, "run");
            push_arg(&mut run_args, ".");
            extend_args(&mut run_args, arguments);
            assert(run_args.deep_view() =~= go_command(self@.version, dir@, seq!["run"@, "."@] + arguments.deep_view()).args);
            plan.push(Step::Final {
                command: Invocation {
                    program: owned("mise"),
                    args: run_args,
                    cwd: Some(owned(dir)),
                    env: go_env_vec(),
                },
                unprinted_env: copy_env(execution.environment()),
                quiet,
            });
            assert(plan.deep_view()[setup_len] == expected[setup_len]);
        }
        assert(plan.deep_view() =~= expected);
        plan
    }

    /// The plan for running code in the module at `dir`; the source file is
    /// `main.go` in it and the binary is built next to it.
    pub fn prepare(
        &self,
        dir: &str,
        code: &str,
        arguments: &[String],
        execution: &ExecutionContext,
        quiet: bool,
        platform: Platform,
    ) -> (plan: Vec<Step>)
        ensures
            go_prepared(self@, dir@, code@, arguments.deep_view(), execution@, quiet, platform, plan.deep_view()),
            well_formed_plan(plan.deep_view()),
    {
        proof {
            reveal_strlit("main.go");
        }
        let source = join_path(dir, "main.go");
        let binary = snippet_binary(dir, platform);
        let src = source.as_str();
        let bin = binary.as_str();
        let plan = self.plan_project(dir, src, bin, code, arguments, execution, quiet);
        assert(plan.deep_view() == go_project_plan(
            self@,
            dir@,
            src@,
            bin@,
            code@,
            arguments.deep_view(),
            execution@,
            quiet,
        ));
        proof {
            lemma_go_plans_well_formed(self@, dir@, src@, bin@, code@, arguments.deep_view(), execution@, quiet);
        }
        plan
    }
}

/// Every Go plan ends with exactly one final command or failure.
pub proof fn lemma_go_plans_well_formed(
    b: BackendView,
    dir: Seq<char>,
    source: Seq<char>,
    binary: Seq<char>,
    code: Seq<char>,
    arguments: Seq<Seq<char>>,
    exec: ExecutionView,
    quiet: bool,
)
    ensures
        well_formed_plan(go_project_plan(b, dir, source, binary, code, arguments, exec, quiet)),
{
}

/// The final command of a Go plan runs in the chosen working directory and
/// receives the environment file's variables.
pub proof fn lemma_go_final_context(
    b: BackendView,
    dir: Seq<char>,
    source: Seq<char>,
    binary: Seq<char>,
    code: Seq<char>,
    arguments: Seq<Seq<char>>,
    exec: ExecutionView,
    quiet: bool,
)
    ensures
        final_runs_in(
            go_project_plan(b, dir, source, binary, code, arguments, exec, quiet),
            chosen_cwd(exec, dir),
            exec.environment,
        ),
{
}

/// With `--quiet` no setup step or command of a Go plan is shown.
pub proof fn lemma_go_quiet(
    b: BackendView,
    dir: Seq<char>,
    source: Seq<char>,
    binary: Seq<char>,
    code: Seq<char>,
    arguments: Seq<Seq<char>>,
    exec: ExecutionView,
)
    ensures
        nothing_shown(go_project_plan(b, dir, source, binary, code, arguments, exec, true)),
{
}

/// Without `--quiet` a Go plan shows only the package installation and
/// the final command.
pub proof fn lemma_go_shown_steps(
    b: BackendView,
    dir: Seq<char>,
    source: Seq<char>,
    binary: Seq<char>,
    code: Seq<char>,
    arguments: Seq<Seq<char>>,
    exec: ExecutionView,
)
    ensures
        shows_installs_and_final(go_project_plan(b, dir, source, binary, code, arguments, exec, false)),
{
    lemma_dependency_stage_lengths();
    reveal_strlit("initialize Go module");
    reveal_strlit("build Go snippet");
    assert("initialize Go module"@.len() == 20);
    assert("build Go snippet"@.len() == 16);
}

/// A Go plan passes the snippet's arguments last, and gets the packages, in
/// order, in the module directory. Without `--cwd` the snippet runs as
/// `go run .` in the module, followed by exactly its arguments.
pub proof fn lemma_go_arguments_and_packages(
    b: BackendView,
    dir: Seq<char>,
    source: Seq<char>,
    binary: Seq<char>,
    code: Seq<char>,
    arguments: Seq<Seq<char>>,
    exec: ExecutionView,
    quiet: bool,
)
    ensures
        final_passes(go_project_plan(b, dir, source, binary, code, arguments, exec, quiet), arguments),
        installs_in(go_project_plan(b, dir, source, binary, code, arguments, exec, quiet), dir),
        ({
            let plan = go_project_plan(b, dir, source, binary, code, arguments, exec, quiet);
            &&& b.packages.len() > 0 ==> (plan[2] matches StepView::Setup { .. }
                && b.packages.is_suffix_of(plan[2]->Setup_command.args))
            &&& exec.working_directory is None ==> (plan.last() matches StepView::Final { command, .. }
                && command.program == "mise"@ && command.cwd == Some(dir) && command.args == seq![
                "exec"@,
                "go@"@ + b.version,
                "--"@,
                "go"@,
                "run"@,
                "."@,
            ] + arguments)
        }),
{
    lemma_dependency_stage_lengths();
    reveal_strlit("initialize Go module");
    reveal_strlit("build Go snippet");
    assert("initialize Go module"@.len() == 20);
    assert("build Go snippet"@.len() == 16);
    let plan = go_project_plan(b, dir, source, binary, code, arguments, exec, quiet);
    if exec.working_directory is None {
        assert(plan.last()->Final_command.args =~= seq![
            "exec"@,
            "go@"@ + b.version,
            "--"@,
            "go"@,
            "run"@,
            "."@,
        ] + arguments);
    }
}

} // verus!
