//! The language backends, the choice between them, and the errors a run
//! reports to the user.

pub mod dotnet;
pub mod go;
pub mod node;
pub mod python;
pub mod rust;

use vstd::prelude::*;
use crate::cli::{Cli, ToolchainKind};
use crate::execution::{ExecutionContext, ExecutionView, chosen_cwd};
use crate::plan::{
    Step, StepView, final_passes, final_runs_in, nothing_shown, well_formed_plan, writes_code,
};
use crate::process::{FailureView, RunFailure, message_failure};
use crate::text::{collect_all, concat, owned};
use crate::util::{Platform, adjoined, install_hint, is_verbatim, program_install_hint};
use dotnet::DotnetBackend;
use go::GoBackend;
use node::{NodeBackend, NodeView};
use python::PythonBackend;
use rust::RustBackend;

verus! {

broadcast use vstd::string::group_string_axioms;

/// The abstract value of a backend: the requested toolchain version and
/// the user's package specifications.
pub struct BackendView {
    pub version: Seq<char>,
    pub packages: Seq<Seq<char>>,
}

/// The backend chosen for a command line.
pub enum Backend<'a> {
    Python(PythonBackend<'a>),
    Node(NodeBackend<'a>),
    Rust(RustBackend<'a>),
    Go(GoBackend<'a>),
    Dotnet(DotnetBackend<'a>),
}

/// The message for `--commonjs` with a toolchain other than Node.
pub open spec fn commonjs_message() -> Seq<char> {
    "--commonjs is only valid with the node toolchain"@
}

/// `backend` is the one for `cli`'s toolchain, with its version and
/// packages, and (for the backends that can run code directly) whether the
/// code comes from a source file.
pub open spec fn serves(backend: Backend, cli: Cli) -> bool {
    let version = cli.toolchain->0.version@;
    let packages = cli.packages.deep_view();
    match (cli.toolchain->0.kind, backend) {
        (ToolchainKind::Python, Backend::Python(b)) => b@ == BackendView { version, packages }
            && b.copies_source_file() == cli.source is Some,
        (ToolchainKind::Node, Backend::Node(b)) => b@ == NodeView {
            version,
            packages,
            commonjs: cli.commonjs,
        } && b.copies_source_file() == cli.source is Some,
        (ToolchainKind::Rust, Backend::Rust(b)) => b@ == BackendView { version, packages },
        (ToolchainKind::Go, Backend::Go(b)) => b@ == BackendView { version, packages },
        (ToolchainKind::Dotnet, Backend::Dotnet(b)) => b@ == BackendView { version, packages },
        _ => false,
    }
}

/// Whether a backend runs code without creating a project: Python and Node
/// do when no package is requested and the code does not come from a source
/// file.
pub open spec fn direct(backend: Backend) -> bool {
    match backend {
        Backend::Python(b) => b@.packages.len() == 0 && !b.copies_source_file(),
        Backend::Node(b) => b@.packages.len() == 0 && !b.copies_source_file(),
        _ => false,
    }
}

/// Chooses the backend for a validated command line; `--commonjs` is
/// refused for every toolchain but Node.
pub fn backend_for<'a>(cli: &'a Cli) -> (r: Result<Backend<'a>, String>)
    requires
        cli.toolchain is Some,
    ensures
        match r {
            Ok(backend) => !(cli.commonjs && cli.toolchain->0.kind != ToolchainKind::Node) && serves(
                backend,
                *cli,
            ),
            Err(m) => cli.commonjs && cli.toolchain->0.kind != ToolchainKind::Node && m@
                == commonjs_message(),
        },
{
    let toolchain = cli.toolchain();
    let packages = cli.packages.as_slice();
    assert(packages.deep_view() =~= cli.packages.deep_view());
    match toolchain.kind {
        ToolchainKind::Node => Ok(
            Backend::Node(
                NodeBackend::new(toolchain, packages, cli.commonjs).with_source_file(
                    cli.source.is_some(),
                ),
            ),
        ),
        _ if cli.commonjs => Err(owned("--commonjs is only valid with the node toolchain")),
        ToolchainKind::Python => Ok(
            Backend::Python(
                PythonBackend::new(toolchain, packages).with_source_file(cli.source.is_some()),
            ),
        ),
        ToolchainKind::Rust => Ok(Backend::Rust(RustBackend::new(toolchain, packages))),
        ToolchainKind::Go => Ok(Backend::Go(GoBackend::new(toolchain, packages))),
        ToolchainKind::Dotnet => Ok(Backend::Dotnet(DotnetBackend::new(toolchain, packages))),
    }
}

/// The message of the default `run_direct` for backends that always need a
/// project.
pub open spec fn no_direct_message() -> Seq<char> {
    "this backend does not support direct execution"@
}

/// The stage of a step that installs the user's packages.
pub open spec fn dependency_stage(stage: Seq<char>) -> bool {
    ||| stage == "install Python dependencies"@
    ||| stage == "install Node dependencies"@
    ||| stage == "install Rust dependencies"@
    ||| stage == "install Go dependencies"@
}

/// The lengths of the dependency stages, which tell them from the others.
pub(crate) proof fn lemma_dependency_stage_lengths()
    ensures
        "install Python dependencies"@.len() == 27,
        "install Node dependencies"@.len() == 25,
        "install Rust dependencies"@.len() == 25,
        "install Go dependencies"@.len() == 23,
{
    reveal_strlit("install Python dependencies");
    reveal_strlit("install Node dependencies");
    reveal_strlit("install Rust dependencies");
    reveal_strlit("install Go dependencies");
}

/// Without `--quiet`, a plan shows only the installation of the packages and
/// the final command; every other setup step (initializing the project,
/// pinning the toolchain, building) is hidden and shown only if it fails.
pub open spec fn shows_installs_and_final(plan: Seq<StepView>) -> bool {
    forall|i: int|
        0 <= i < plan.len() ==> match #[trigger] plan[i] {
            StepView::Setup { stage, quiet, .. } => quiet == !dependency_stage(stage),
            StepView::Final { quiet, .. } => !quiet,
            _ => true,
        }
}

/// Every step of `plan` that installs the user's packages runs in `dir`.
pub open spec fn installs_in(plan: Seq<StepView>, dir: Seq<char>) -> bool {
    forall|i: int|
        0 <= i < plan.len() ==> match #[trigger] plan[i] {
            StepView::Setup { stage, command, .. } => dependency_stage(stage) ==> command.cwd == Some(
                dir,
            ),
            _ => true,
        }
}

/// `plan` is what `backend` plans for running `code` in the project
/// directory `dir`.
pub open spec fn prepared_by(
    backend: Backend,
    dir: Seq<char>,
    code: Seq<char>,
    arguments: Seq<Seq<char>>,
    exec: ExecutionView,
    quiet: bool,
    platform: Platform,
    plan: Seq<StepView>,
) -> bool {
    match backend {
        Backend::Python(b) => python::python_prepared(b@, dir, code, arguments, exec, quiet, plan),
        Backend::Node(b) => node::node_prepared(b@, dir, code, arguments, exec, quiet, plan),
        Backend::Rust(b) => rust::rust_prepared(b@, dir, code, arguments, exec, quiet, plan),
        Backend::Go(b) => go::go_prepared(b@, dir, code, arguments, exec, quiet, platform, plan),
        Backend::Dotnet(b) => dotnet::dotnet_prepared(b@, dir, code, quiet, plan),
    }
}

impl<'a> Backend<'a> {
    /// Whether this backend runs code without creating a project.
    pub fn runs_without_project(&self) -> (r: bool)
        ensures
            r == direct(*self),
    {
        match self {
            Backend::Python(b) => b.runs_without_project(),
            Backend::Node(b) => b.runs_without_project(),
            _ => false,
        }
    }

    /// The suffix of the temporary source file that direct execution
    /// needs, for the backends that need one.
    pub fn direct_source_suffix(&self) -> (r: Option<&'static str>)
        ensures
            match *self {
                Backend::Node(b) => r matches Some(s) && s@ == node::node_direct_suffix(b@.commonjs),
                _ => r is None,
            },
    {
        match self {
            Backend::Node(b) => Some(b.direct_source_suffix()),
            _ => None,
        }
    }

    /// The plan for running code without a project. `temp_source` is the
    /// temporary source file (for Node) and `fallback` the directory used
    /// when no working directory was given.
    pub fn run_direct(
        &self,
        code: &str,
        arguments: &[String],
        execution: &ExecutionContext,
        temp_source: Option<&str>,
        fallback: &str,
        quiet: bool,
    ) -> (plan: Vec<Step>)
        requires
            *self is Node ==> temp_source is Some,
        ensures
            well_formed_plan(plan.deep_view()),
            match *self {
                Backend::Python(b) => plan.deep_view() == python::python_direct_plan(
                    b@,
                    code@,
                    arguments.deep_view(),
                    execution@,
                    fallback@,
                    quiet,
                ),
                Backend::Node(b) => plan.deep_view() == node::node_direct_plan(
                    b@,
                    temp_source->0@,
                    code@,
                    arguments.deep_view(),
                    execution@,
                    fallback@,
                    quiet,
                ),
                _ => plan.deep_view() == seq![
                    StepView::Fail { failure: message_failure(no_direct_message()) },
                ],
            },
    {
        match self {
            Backend::Python(b) => {
                proof {
                    python::lemma_python_plans_well_formed(
                        b@,
                        fallback@,
                        fallback@,
                        code@,
                        arguments.deep_view(),
                        execution@,
                        fallback@,
                        quiet,
                    );
                }
                b.run_direct(code, arguments, execution, fallback, quiet)
            },
            Backend::Node(b) => {
                let source = temp_source.unwrap();
                proof {
                    node::lemma_node_plans_well_formed(
                        b@,
                        fallback@,
                        source@,
                        source@,
                        source@,
                        source@,
                        code@,
                        arguments.deep_view(),
                        execution@,
                        fallback@,
                        quiet,
                    );
                }
                b.run_direct(source, code, arguments, execution, fallback, quiet)
            },
            _ => {
                let mut plan: Vec<Step> = Vec::new();
                plan.push(Step::Fail {
                    failure: RunFailure::message(owned("this backend does not support direct execution")),
                });
                assert(plan.deep_view() =~= seq![
                    StepView::Fail { failure: message_failure(no_direct_message()) },
                ]);
                plan
            },
        }
    }

    /// The plan for running code in the project directory `dir`.
    pub fn prepare(
        &self,
        dir: &str,
        code: &str,
        arguments: &[String],
        execution: &ExecutionContext,
        quiet: bool,
        platform: Platform,
    ) -> (plan: Vec<Step>)
        ensures
            well_formed_plan(plan.deep_view()),
            prepared_by(*self, dir@, code@, arguments.deep_view(), execution@, quiet, platform, plan.deep_view()),
    {
        match self {
            Backend::Python(b) => b.prepare(dir, code, arguments, execution, quiet),
            Backend::Node(b) => b.prepare(dir, code, arguments, execution, quiet),
            Backend::Rust(b) => b.prepare(dir, code, arguments, execution, quiet),
            Backend::Go(b) => b.prepare(dir, code, arguments, execution, quiet, platform),
            Backend::Dotnet(b) => b.prepare(dir, code, quiet),
        }
    }
}

/// An error as reported to the user: message, installation hint, and the
/// exit code of the program when it is not 1.
#[derive(Debug)]
pub struct RunError {
    pub message: String,
    pub hint: Option<String>,
    pub exit_code: Option<i32>,
}

/// The abstract value of a `RunError`.
pub struct RunErrorView {
    pub message: Seq<char>,
    pub hint: Option<Seq<char>>,
    pub exit_code: Option<i32>,
}

impl DeepView for RunError {
    type V = RunErrorView;

    open spec fn deep_view(&self) -> RunErrorView {
        RunErrorView {
            message: self.message@,
            hint: self.hint.deep_view(),
            exit_code: self.exit_code,
        }
    }
}

/// The error reported for a failure: its message and exit code, and the
/// installation hint for the missing program, if there is one.
pub open spec fn reported_error(f: FailureView, platform: Platform) -> RunErrorView {
    RunErrorView {
        message: f.message,
        hint: match f.missing_program {
            Some(p) => install_hint(p, platform),
            None => None,
        },
        exit_code: f.exit_code,
    }
}

impl RunError {
    /// The error reported for a run failure on `platform`.
    pub fn from_failure(failure: RunFailure, platform: Platform) -> (r: RunError)
        ensures
            r.deep_view() == reported_error(failure.deep_view(), platform),
    {
        let hint = match &failure.missing_program {
            Some(program) => program_install_hint(program.as_str(), platform),
            None => None,
        };
        RunError { message: failure.message, hint, exit_code: failure.exit_code }
    }

    /// A command line that cannot run: reported with exit code 2.
    pub fn usage(message: String) -> (r: RunError)
        ensures
            r.deep_view() == (RunErrorView { message: message@, hint: None, exit_code: Some(2) }),
    {
        RunError { message, hint: None, exit_code: Some(2) }
    }

    /// No temporary project directory could be allocated.
    pub fn temp_dir_failure(error: &str) -> (r: RunError)
        ensures
            r.deep_view() == (RunErrorView {
                message: "failed to allocate a system temporary directory: "@ + error@,
                hint: Some("Check that the operating system temporary directory is writable."@),
                exit_code: None,
            }),
    {
        RunError {
            message: concat("failed to allocate a system temporary directory: ", error),
            hint: Some(owned("Check that the operating system temporary directory is writable.")),
            exit_code: None,
        }
    }
}

/// No temporary source file could be allocated for direct execution.
pub fn temp_source_failure(error: &str) -> (r: RunFailure)
    ensures
        r.deep_view() == message_failure("failed to allocate a temporary source file: "@ + error@),
{
    RunFailure::message(concat("failed to allocate a temporary source file: ", error))
}

/// How a snippet run begins: with a backend that runs code directly, or
/// with one that needs a project directory.
pub enum Start<'a> {
    Direct(Backend<'a>),
    Project(Backend<'a>),
}

/// The first decision of a run: choose the backend (a refused choice is a
/// usage error with exit code 2) and whether it needs a project.
pub fn snippet_start<'a>(cli: &'a Cli) -> (r: Result<Start<'a>, RunError>)
    requires
        cli.toolchain is Some,
    ensures
        match r {
            Ok(Start::Direct(b)) => !(cli.commonjs && cli.toolchain->0.kind != ToolchainKind::Node)
                && serves(b, *cli) && direct(b),
            Ok(Start::Project(b)) => !(cli.commonjs && cli.toolchain->0.kind != ToolchainKind::Node)
                && serves(b, *cli) && !direct(b),
            Err(e) => cli.commonjs && cli.toolchain->0.kind != ToolchainKind::Node && e.deep_view()
                == (RunErrorView { message: commonjs_message(), hint: None, exit_code: Some(2) }),
        },
{
    match backend_for(cli) {
        Err(message) => Err(RunError::usage(message)),
        Ok(backend) => if backend.runs_without_project() {
            Ok(Start::Direct(backend))
        } else {
            Ok(Start::Project(backend))
        },
    }
}

/// Python and Node run code read from stdin directly unless packages were
/// requested; every other toolchain, Python or Node with packages, and code
/// from a source file get an isolated project.
pub proof fn lemma_direct_only_from_stdin_without_packages(backend: Backend, cli: Cli)
    requires
        cli.toolchain is Some,
        serves(backend, cli),
    ensures
        direct(backend) <==> ((cli.toolchain->0.kind == ToolchainKind::Python
            || cli.toolchain->0.kind == ToolchainKind::Node) && cli.packages@.len() == 0
            && cli.source is None),
{
}

/// `--cwd` and `--env-file` apply to the final code process: whatever a
/// backend other than .NET plans, its final command runs in the chosen
/// working directory (the project directory when none was given, `fallback`
/// when the code runs without a project) and receives the environment
/// file's variables.
pub proof fn lemma_final_process_context(
    backend: Backend,
    dir: Seq<char>,
    code: Seq<char>,
    arguments: Seq<Seq<char>>,
    exec: ExecutionView,
    quiet: bool,
    platform: Platform,
    plan: Seq<StepView>,
)
    requires
        !(backend is Dotnet),
        prepared_by(backend, dir, code, arguments, exec, quiet, platform, plan),
    ensures
        final_runs_in(plan, chosen_cwd(exec, dir), exec.environment),
{
    match backend {
        Backend::Python(b) => {
            assert forall|source: Seq<char>|
                #![trigger python::python_project_plan(b@, dir, source, code, arguments, exec, quiet)]
                final_runs_in(
                    python::python_project_plan(b@, dir, source, code, arguments, exec, quiet),
                    chosen_cwd(exec, dir),
                    exec.environment,
                ) by {
                python::lemma_python_final_context(b@, dir, source, code, arguments, exec, dir, quiet);
            }
        },
        Backend::Node(b) => {
            assert forall|manifest: Seq<char>, source: Seq<char>, tsx_cli: Seq<char>|
                #![trigger node::node_project_plan(b@, dir, manifest, source, tsx_cli, code, arguments, exec, quiet)]
                final_runs_in(
                    node::node_project_plan(b@, dir, manifest, source, tsx_cli, code, arguments, exec, quiet),
                    chosen_cwd(exec, dir),
                    exec.environment,
                ) by {
                node::lemma_node_final_context(
                    b@,
                    dir,
                    manifest,
                    source,
                    tsx_cli,
                    source,
                    code,
                    arguments,
                    exec,
                    dir,
                    quiet,
                );
            }
        },
        Backend::Rust(b) => {
            assert forall|source: Seq<char>, manifest: Seq<char>, cache: Option<Seq<char>>|
                #![trigger rust::rust_project_plan(b@, dir, source, manifest, cache, code, arguments, exec, quiet)]
                final_runs_in(
                    rust::rust_project_plan(b@, dir, source, manifest, cache, code, arguments, exec, quiet),
                    chosen_cwd(exec, dir),
                    exec.environment,
                ) by {
                rust::lemma_rust_final_context(b@, dir, source, manifest, cache, code, arguments, exec, quiet);
            }
        },
        Backend::Go(b) => {
            assert forall|source: Seq<char>, binary: Seq<char>|
                #![trigger go::go_project_plan(b@, dir, source, binary, code, arguments, exec, quiet)]
                final_runs_in(
                    go::go_project_plan(b@, dir, source, binary, code, arguments, exec, quiet),
                    chosen_cwd(exec, dir),
                    exec.environment,
                ) by {
                go::lemma_go_final_context(b@, dir, source, binary, code, arguments, exec, quiet);
            }
        },
        Backend::Dotnet(_) => {},
    }
}

/// `--quiet` hides everything but the final process's own output: no setup
/// step of a quiet plan is shown and its final command is not displayed.
pub proof fn lemma_quiet_plans_show_nothing(
    backend: Backend,
    dir: Seq<char>,
    code: Seq<char>,
    arguments: Seq<Seq<char>>,
    exec: ExecutionView,
    platform: Platform,
    plan: Seq<StepView>,
)
    requires
        prepared_by(backend, dir, code, arguments, exec, true, platform, plan),
    ensures
        nothing_shown(plan),
{
    match backend {
        Backend::Python(b) => {
            assert forall|source: Seq<char>|
                #![trigger python::python_project_plan(b@, dir, source, code, arguments, exec, true)]
                nothing_shown(python::python_project_plan(b@, dir, source, code, arguments, exec, true)) by {
                python::lemma_python_quiet(b@, dir, source, code, arguments, exec, dir);
            }
        },
        Backend::Node(b) => {
            assert forall|manifest: Seq<char>, source: Seq<char>, tsx_cli: Seq<char>|
                #![trigger node::node_project_plan(b@, dir, manifest, source, tsx_cli, code, arguments, exec, true)]
                nothing_shown(
                    node::node_project_plan(b@, dir, manifest, source, tsx_cli, code, arguments, exec, true),
                ) by {
                node::lemma_node_quiet(b@, dir, manifest, source, tsx_cli, source, code, arguments, exec, dir);
            }
        },
        Backend::Rust(b) => {
            assert forall|source: Seq<char>, manifest: Seq<char>, cache: Option<Seq<char>>|
                #![trigger rust::rust_project_plan(b@, dir, source, manifest, cache, code, arguments, exec, true)]
                nothing_shown(
                    rust::rust_project_plan(b@, dir, source, manifest, cache, code, arguments, exec, true),
                ) by {
                rust::lemma_rust_quiet(b@, dir, source, manifest, cache, code, arguments, exec);
            }
        },
        Backend::Go(b) => {
            assert forall|source: Seq<char>, binary: Seq<char>|
                #![trigger go::go_project_plan(b@, dir, source, binary, code, arguments, exec, true)]
                nothing_shown(go::go_project_plan(b@, dir, source, binary, code, arguments, exec, true)) by {
                go::lemma_go_quiet(b@, dir, source, binary, code, arguments, exec);
            }
        },
        Backend::Dotnet(b) => {
            assert forall|path: Seq<char>|
                #![trigger dotnet::dotnet_project_plan(b@, dir, path, code, true)]
                nothing_shown(dotnet::dotnet_project_plan(b@, dir, path, code, true)) by {
                dotnet::lemma_dotnet_quiet(b@, dir, path, code);
            }
        },
    }
}

/// Without `--quiet` only the installation of the packages and the final
/// command are shown, whatever the backend; the other setup steps are
/// hidden and shown only if they fail.
pub proof fn lemma_default_plans_show_installs_and_final(
    backend: Backend,
    dir: Seq<char>,
    code: Seq<char>,
    arguments: Seq<Seq<char>>,
    exec: ExecutionView,
    platform: Platform,
    plan: Seq<StepView>,
)
    requires
        prepared_by(backend, dir, code, arguments, exec, false, platform, plan),
    ensures
        shows_installs_and_final(plan),
{
    match backend {
        Backend::Python(b) => {
            assert forall|source: Seq<char>|
                #![trigger python::python_project_plan(b@, dir, source, code, arguments, exec, false)]
                shows_installs_and_final(
                    python::python_project_plan(b@, dir, source, code, arguments, exec, false),
                ) by {
                python::lemma_python_shown_steps(b@, dir, source, code, arguments, exec, dir);
            }
        },
        Backend::Node(b) => {
            assert forall|manifest: Seq<char>, source: Seq<char>, tsx_cli: Seq<char>|
                #![trigger node::node_project_plan(b@, dir, manifest, source, tsx_cli, code, arguments, exec, false)]
                shows_installs_and_final(
                    node::node_project_plan(b@, dir, manifest, source, tsx_cli, code, arguments, exec, false),
                ) by {
                node::lemma_node_shown_steps(
                    b@,
                    dir,
                    manifest,
                    source,
                    tsx_cli,
                    source,
                    code,
                    arguments,
                    exec,
                    dir,
                );
            }
        },
        Backend::Rust(b) => {
            assert forall|source: Seq<char>, manifest: Seq<char>, cache: Option<Seq<char>>|
                #![trigger rust::rust_project_plan(b@, dir, source, manifest, cache, code, arguments, exec, false)]
                shows_installs_and_final(
                    rust::rust_project_plan(b@, dir, source, manifest, cache, code, arguments, exec, false),
                ) by {
                rust::lemma_rust_shown_steps(b@, dir, source, manifest, cache, code, arguments, exec);
            }
        },
        Backend::Go(b) => {
            assert forall|source: Seq<char>, binary: Seq<char>|
                #![trigger go::go_project_plan(b@, dir, source, binary, code, arguments, exec, false)]
                shows_installs_and_final(
                    go::go_project_plan(b@, dir, source, binary, code, arguments, exec, false),
                ) by {
                go::lemma_go_shown_steps(b@, dir, source, binary, code, arguments, exec);
            }
        },
        Backend::Dotnet(b) => {
            assert forall|path: Seq<char>|
                #![trigger dotnet::dotnet_project_plan(b@, dir, path, code, false)]
                shows_installs_and_final(dotnet::dotnet_project_plan(b@, dir, path, code, false)) by {
                dotnet::lemma_dotnet_shown_steps(b@, dir, path, code);
            }
        },
    }
}

/// The arguments after `--` reach the snippet, last and in order, whatever
/// backend other than .NET runs it (which passes none); the packages are
/// installed in the project directory; and the final process of a .NET
/// plan runs in that directory, where its source was written.
pub proof fn lemma_arguments_and_installs(
    backend: Backend,
    dir: Seq<char>,
    code: Seq<char>,
    arguments: Seq<Seq<char>>,
    exec: ExecutionView,
    quiet: bool,
    platform: Platform,
    plan: Seq<StepView>,
)
    requires
        prepared_by(backend, dir, code, arguments, exec, quiet, platform, plan),
    ensures
        installs_in(plan, dir),
        !(backend is Dotnet) ==> final_passes(plan, arguments),
        backend is Dotnet ==> (plan.last() matches StepView::Final { command, .. } ==> command.cwd
            == Some(dir)),
{
    match backend {
        Backend::Python(b) => {
            assert forall|source: Seq<char>|
                #![trigger python::python_project_plan(b@, dir, source, code, arguments, exec, quiet)]
                installs_in(python::python_project_plan(b@, dir, source, code, arguments, exec, quiet), dir)
                    && final_passes(
                    python::python_project_plan(b@, dir, source, code, arguments, exec, quiet),
                    arguments,
                ) by {
                python::lemma_python_arguments_and_packages(b@, dir, source, code, arguments, exec, dir, quiet);
            }
        },
        Backend::Node(b) => {
            assert forall|manifest: Seq<char>, source: Seq<char>, tsx_cli: Seq<char>|
                #![trigger node::node_project_plan(b@, dir, manifest, source, tsx_cli, code, arguments, exec, quiet)]
                installs_in(
                    node::node_project_plan(b@, dir, manifest, source, tsx_cli, code, arguments, exec, quiet),
                    dir,
                ) && final_passes(
                    node::node_project_plan(b@, dir, manifest, source, tsx_cli, code, arguments, exec, quiet),
                    arguments,
                ) by {
                node::lemma_node_arguments_and_packages(
                    b@,
                    dir,
                    manifest,
                    source,
                    tsx_cli,
                    source,
                    code,
                    arguments,
                    exec,
                    dir,
                    quiet,
                );
            }
        },
        Backend::Rust(b) => {
            assert forall|source: Seq<char>, manifest: Seq<char>, cache: Option<Seq<char>>|
                #![trigger rust::rust_project_plan(b@, dir, source, manifest, cache, code, arguments, exec, quiet)]
                installs_in(
                    rust::rust_project_plan(b@, dir, source, manifest, cache, code, arguments, exec, quiet),
                    dir,
                ) && final_passes(
                    rust::rust_project_plan(b@, dir, source, manifest, cache, code, arguments, exec, quiet),
                    arguments,
                ) by {
                rust::lemma_rust_arguments_and_packages(
                    b@,
                    dir,
                    source,
                    manifest,
                    cache,
                    code,
                    arguments,
                    exec,
                    quiet,
                );
            }
        },
        Backend::Go(b) => {
            assert forall|source: Seq<char>, binary: Seq<char>|
                #![trigger go::go_project_plan(b@, dir, source, binary, code, arguments, exec, quiet)]
                installs_in(go::go_project_plan(b@, dir, source, binary, code, arguments, exec, quiet), dir)
                    && final_passes(
                    go::go_project_plan(b@, dir, source, binary, code, arguments, exec, quiet),
                    arguments,
                ) by {
                go::lemma_go_arguments_and_packages(b@, dir, source, binary, code, arguments, exec, quiet);
            }
        },
        Backend::Dotnet(b) => {
            assert forall|path: Seq<char>|
                #![trigger dotnet::dotnet_project_plan(b@, dir, path, code, quiet)]
                (!is_verbatim(dir) ==> adjoined(dir, "snippet.cs"@, path)) ==> {
                    let p = dotnet::dotnet_project_plan(b@, dir, path, code, quiet);
                    &&& installs_in(p, dir)
                    &&& (p.last() matches StepView::Final { command, .. } ==> command.cwd == Some(dir))
                } by {
                if !is_verbatim(dir) ==> adjoined(dir, "snippet.cs"@, path) {
                    dotnet::lemma_dotnet_runs_where_it_writes(b@, dir, path, code, quiet);
                }
            }
        },
    }
}

/// Code run without a project gets its arguments last and in order.
pub proof fn lemma_direct_arguments(
    backend: Backend,
    temp_source: Seq<char>,
    code: Seq<char>,
    arguments: Seq<Seq<char>>,
    exec: ExecutionView,
    fallback: Seq<char>,
    quiet: bool,
)
    ensures
        backend matches Backend::Python(b) ==> final_passes(
            python::python_direct_plan(b@, code, arguments, exec, fallback, quiet),
            arguments,
        ),
        backend matches Backend::Node(b) ==> final_passes(
            node::node_direct_plan(b@, temp_source, code, arguments, exec, fallback, quiet),
            arguments,
        ),
{
    match backend {
        Backend::Python(b) => {
            python::lemma_python_arguments_and_packages(
                b@,
                fallback,
                fallback,
                code,
                arguments,
                exec,
                fallback,
                quiet,
            );
        },
        Backend::Node(b) => {
            node::lemma_node_arguments_and_packages(
                b@,
                fallback,
                fallback,
                temp_source,
                temp_source,
                temp_source,
                code,
                arguments,
                exec,
                fallback,
                quiet,
            );
        },
        _ => {},
    }
}

/// The snippet's code is what runs: every project plan that reaches its
/// final command has first written a source file ending with the code
/// (exactly the code but for .NET's package directives), and without a
/// project Python hands the code to the interpreter as it is while Node
/// writes it to the temporary source file that it runs.
pub proof fn lemma_code_is_delivered(
    backend: Backend,
    dir: Seq<char>,
    code: Seq<char>,
    arguments: Seq<Seq<char>>,
    exec: ExecutionView,
    quiet: bool,
    platform: Platform,
    plan: Seq<StepView>,
    temp_source: Seq<char>,
    fallback: Seq<char>,
)
    requires
        prepared_by(backend, dir, code, arguments, exec, quiet, platform, plan),
    ensures
        writes_code(plan, code),
        backend matches Backend::Python(b) ==> python::python_direct_plan(
            b@,
            code,
            arguments,
            exec,
            fallback,
            quiet,
        )[0]->Final_command.args.contains(code),
        backend matches Backend::Node(b) ==> {
            let direct = node::node_direct_plan(b@, temp_source, code, arguments, exec, fallback, quiet);
            &&& direct[0] == (StepView::WriteSource { path: temp_source, code })
            &&& direct[1]->Final_command.args.contains(temp_source)
        },
{
    assert(code.is_suffix_of(code)) by {
        assert(code.subrange(0, code.len() as int) =~= code);
    }
    match backend {
        Backend::Python(b) => {
            assert forall|source: Seq<char>|
                #![trigger python::python_project_plan(b@, dir, source, code, arguments, exec, quiet)]
                writes_code(python::python_project_plan(b@, dir, source, code, arguments, exec, quiet), code) by {
                let p = python::python_project_plan(b@, dir, source, code, arguments, exec, quiet);
                assert(p[1] matches StepView::WriteSource { code: written, .. } && code.is_suffix_of(written));
            }
            let direct = python::python_direct_plan(b@, code, arguments, exec, fallback, quiet);
            assert(direct[0]->Final_command.args[8] == code);
        },
        Backend::Node(b) => {
            assert forall|manifest: Seq<char>, source: Seq<char>, tsx_cli: Seq<char>|
                #![trigger node::node_project_plan(b@, dir, manifest, source, tsx_cli, code, arguments, exec, quiet)]
                writes_code(
                    node::node_project_plan(b@, dir, manifest, source, tsx_cli, code, arguments, exec, quiet),
                    code,
                ) by {
                let p = node::node_project_plan(b@, dir, manifest, source, tsx_cli, code, arguments, exec, quiet);
                assert(p[1] matches StepView::WriteSource { code: written, .. } && code.is_suffix_of(written));
            }
            let direct = node::node_direct_plan(b@, temp_source, code, arguments, exec, fallback, quiet);
            assert(direct[1]->Final_command.args[7] == temp_source);
        },
        Backend::Rust(b) => {
            assert forall|source: Seq<char>, manifest: Seq<char>, cache: Option<Seq<char>>|
                #![trigger rust::rust_project_plan(b@, dir, source, manifest, cache, code, arguments, exec, quiet)]
                writes_code(
                    rust::rust_project_plan(b@, dir, source, manifest, cache, code, arguments, exec, quiet),
                    code,
                ) by {
                let p = rust::rust_project_plan(b@, dir, source, manifest, cache, code, arguments, exec, quiet);
                let (adds, stopped) = rust::rust_package_steps(b@.packages, b@.version, dir, quiet);
                if !stopped {
                    match cache {
                        None => {},
                        Some(c) => {},
                    }
                }
                assert(p[1] matches StepView::WriteSource { code: written, .. } && code.is_suffix_of(written));
            }
        },
        Backend::Go(b) => {
            assert forall|source: Seq<char>, binary: Seq<char>|
                #![trigger go::go_project_plan(b@, dir, source, binary, code, arguments, exec, quiet)]
                writes_code(go::go_project_plan(b@, dir, source, binary, code, arguments, exec, quiet), code) by {
                let p = go::go_project_plan(b@, dir, source, binary, code, arguments, exec, quiet);
                assert(p[1] matches StepView::WriteSource { code: written, .. } && code.is_suffix_of(written));
            }
        },
        Backend::Dotnet(b) => {
            assert forall|path: Seq<char>|
                #![trigger dotnet::dotnet_project_plan(b@, dir, path, code, quiet)]
                writes_code(dotnet::dotnet_project_plan(b@, dir, path, code, quiet), code) by {
                let p = dotnet::dotnet_project_plan(b@, dir, path, code, quiet);
                match dotnet::dotnet_source(code, b@.packages) {
                    Ok(source) => {
                        let lines = collect_all(b@.packages, dotnet::nuget_converter())->Ok_0;
                        assert(source == lines.flatten_alt() + code);
                        assert(source.subrange(source.len() - code.len(), source.len() as int) =~= code);
                        assert(p[0] matches StepView::WriteSource { code: written, .. } && code.is_suffix_of(
                            written,
                        ));
                    },
                    Err(_) => {},
                }
            }
        },
    }
}

} // verus!
