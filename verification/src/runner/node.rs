//! JavaScript and TypeScript snippets run with `tsx` under a Node version
//! pinned through `vp`: directly from a temporary file when no package is
//! requested, otherwise in a fresh npm project.

use vstd::prelude::*;
use crate::cli::ToolchainSpec;
use crate::execution::{ExecutionContext, ExecutionView, chosen_cwd};
use crate::plan::{
    Invocation, InvocationView, Step, StepView, copy_env, extend_args, no_env, push_arg,
    final_passes, final_runs_in, nothing_shown, well_formed_plan,
};
use crate::runner::{installs_in, lemma_dependency_stage_lengths, shows_installs_and_final};
use crate::text::{concat, owned};
use crate::util::{adjoined, is_verbatim, join_path};

verus! {

broadcast use vstd::string::group_string_axioms;

/// The `tsx` version installed to run snippets.
pub const TSX_VERSION: &'static str = "4.23.12";

/// The Node backend for one toolchain, set of packages and module system.
pub struct NodeBackend<'a> {
    toolchain: &'a ToolchainSpec,
    packages: &'a [String],
    commonjs: bool,
    source_file: bool,
}

/// The abstract value of a `NodeBackend`.
pub struct NodeView {
    pub version: Seq<char>,
    pub packages: Seq<Seq<char>>,
    pub commonjs: bool,
}

impl<'a> View for NodeBackend<'a> {
    type V = NodeView;

    closed spec fn view(&self) -> NodeView {
        NodeView {
            version: self.toolchain.version@,
            packages: self.packages.deep_view(),
            commonjs: self.commonjs,
        }
    }
}

/// The project's source file name: CommonJS or ES module TypeScript.
pub open spec fn node_file(commonjs: bool) -> Seq<char> {
    if commonjs {
        "snippet.cts"@
    } else {
        "snippet.ts"@
    }
}

/// The suffix of the temporary source file used without a project.
pub open spec fn node_direct_suffix(commonjs: bool) -> Seq<char> {
    if commonjs {
        ".cts"@
    } else {
        ".mts"@
    }
}

/// The `tsx` package at its pinned version.
pub open spec fn tsx_package() -> Seq<char> {
    "tsx@"@ + TSX_VERSION@
}

/// Running a temporary source file without a project: write it, then run
/// it with `npx tsx` under the requested Node version.
pub open spec fn node_direct_plan(
    b: NodeView,
    temp_source: Seq<char>,
    code: Seq<char>,
    arguments: Seq<Seq<char>>,
    exec: ExecutionView,
    fallback: Seq<char>,
    quiet: bool,
) -> Seq<StepView> {
    seq![
        StepView::WriteSource { path: temp_source, code },
        StepView::Final {
            command: InvocationView {
                program: "vp"@,
                args: seq![
                    "env"@,
                    "exec"@,
                    "--node"@,
                    b.version,
                    "npx"@,
                    "--yes"@,
                    tsx_package(),
                    temp_source,
                ] + arguments,
                cwd: Some(chosen_cwd(exec, fallback)),
                env: seq![],
            },
            unprinted_env: exec.environment,
            quiet,
        },
    ]
}

/// The final `vp` arguments in the project directory: the `start` script,
/// or `tsx` directly when quiet, then the snippet's arguments.
pub open spec fn final_args(file: Seq<char>, arguments: Seq<Seq<char>>, quiet: bool) -> Seq<Seq<char>> {
    (if quiet {
        seq!["exec"@, "--"@, "tsx"@, file]
    } else {
        seq!["run"@, "start"@]
    }) + arguments
}

/// The final `vp` arguments for another working directory: Node runs the
/// project's `tsx` CLI on the project's source by absolute paths.
pub open spec fn final_args_from(
    tsx_cli: Seq<char>,
    source: Seq<char>,
    version: Seq<char>,
    arguments: Seq<Seq<char>>,
) -> Seq<Seq<char>> {
    seq!["env"@, "exec"@, "--node"@, version, "node"@, tsx_cli, source] + arguments
}

/// How JSON writes one character inside a string: the quote, the backslash
/// and the control characters are escaped; every other character stands
/// for itself.
pub open spec fn json_char(c: char) -> Seq<char> {
    if c == '"' {
        seq!['\\', '"']
    } else if c == '\\' {
        seq!['\\', '\\']
    } else if c == '\u{8}' {
        seq!['\\', 'b']
    } else if c == '\t' {
        seq!['\\', 't']
    } else if c == '\n' {
        seq!['\\', 'n']
    } else if c == '\u{c}' {
        seq!['\\', 'f']
    } else if c == '\r' {
        seq!['\\', 'r']
    } else if (c as int) < 0x20 {
        seq!['\\', 'u', '0', '0', hex_digit(c as int / 16), hex_digit(c as int % 16)]
    } else {
        seq![c]
    }
}

/// A lowercase hexadecimal digit.
pub open spec fn hex_digit(n: int) -> char {
    if n < 10 {
        (48 + n) as char
    } else {
        (87 + n) as char
    }
}

/// The JSON string literal for `s`.
pub open spec fn json_quoted(s: Seq<char>) -> Seq<char> {
    seq!['"'] + s.map_values(|c: char| json_char(c)).flatten() + seq!['"']
}

/// Calls `serde_json::to_string` on a string slice: the JSON string literal
/// for it, with the escapes of `json_char`. It always succeeds: serializing
/// a string into a `Vec<u8>` can fail only when writing fails, and writing
/// to a `Vec` does not.
#[verifier::external_body]
fn json_string(s: &str) -> (r: Result<String, String>)
    ensures
        r is Ok,
        r->Ok_0@ == json_quoted(s@),
{
    serde_json::to_string(s).map_err(|e| e.to_string())
}

/// The package manifest of a snippet project whose `start` script runs
/// `file` with `tsx`: the JSON object with the name, `private`, the script
/// and the ES module type, keys in order, two spaces a level, and a final
/// newline.
pub open spec fn manifest_text(file: Seq<char>) -> Seq<char> {
    "{\n  \"name\": \"run-code-snippet\",\n  \"private\": true,\n  \"scripts\": {\n    \"start\": "@
        + json_quoted("tsx "@ + file) + "\n  },\n  \"type\": \"module\"\n}\n"@
}

/// The package manifest whose `start` script runs `file` with `tsx`.
pub fn package_manifest(file: &str) -> (r: String)
    ensures
        r@ == manifest_text(file@),
{
    let script = concat("tsx ", file);
    let quoted = json_string(script.as_str()).unwrap();
    let mut r = owned("{\n  \"name\": \"run-code-snippet\",\n  \"private\": true,\n  \"scripts\": {\n    \"start\": ");
    r.push_str(quoted.as_str());
    r.push_str("\n  },\n  \"type\": \"module\"\n}\n");
    r
}

/// Running code in the project at `dir`: write `package.json` and the
/// source, pin the Node version, install `tsx` and the packages, then run.
pub open spec fn node_project_plan(
    b: NodeView,
    dir: Seq<char>,
    manifest: Seq<char>,
    source: Seq<char>,
    tsx_cli: Seq<char>,
    code: Seq<char>,
    arguments: Seq<Seq<char>>,
    exec: ExecutionView,
    quiet: bool,
) -> Seq<StepView> {
    let file = node_file(b.commonjs);
    seq![
        StepView::WriteManifest { path: manifest, contents: manifest_text(file) },
        StepView::WriteSource { path: source, code },
        StepView::Setup {
            stage: "pin Node.js toolchain"@,
            command: InvocationView {
                program: "vp"@,
                args: seq!["env"@, "pin"@, b.version, "--target"@, "node-version"@, "--force"@],
                cwd: Some(dir),
                env: seq![],
            },
            quiet: true,
        },
        StepView::Setup {
            stage: "install Node dependencies"@,
            command: InvocationView {
                program: "vp"@,
                args: seq![
                    "env"@,
                    "exec"@,
                    "--node"@,
                    b.version,
                    "npm"@,
                    "install"@,
                    "--save-exact"@,
                    tsx_package(),
                ] + b.packages,
                cwd: Some(dir),
                env: seq![],
            },
            quiet,
        },
        StepView::Final {
            command: InvocationView {
                program: "vp"@,
                args: if exec.working_directory is Some {
                    final_args_from(tsx_cli, source, b.version, arguments)
                } else {
                    final_args(file, arguments, quiet)
                },
                cwd: Some(chosen_cwd(exec, dir)),
                env: seq![],
            },
            unprinted_env: exec.environment,
            quiet,
        },
    ]
}

/// The final command in the project directory.
pub fn final_command(file: &str, arguments: &[String], quiet: bool) -> (r: Vec<String>)
    ensures
        r.deep_view() == final_args(file@, arguments.deep_view(), quiet),
{
    let mut command: Vec<String> = Vec::new();
    if quiet {
        push_arg(&mut command, "exec");
        push_arg(&mut command, "--");
        push_arg(&mut command, "tsx");
        push_arg(&mut command, file);
    } else {
        push_arg(&mut command, "run");
        push_arg(&mut command, "start");
    }
    extend_args(&mut command, arguments);
    assert(command.deep_view() =~= final_args(file@, arguments.deep_view(), quiet));
    command
}

/// The final command for another working directory, with the path of the
/// project's `tsx` CLI given.
pub fn final_command_with(tsx_cli: &str, source: &str, version: &str, arguments: &[String]) -> (r: Vec<String>)
    ensures
        r.deep_view() == final_args_from(tsx_cli@, source@, version@, arguments.deep_view()),
{
    let mut command: Vec<String> = Vec::new();
    push_arg(&mut command, "env");
    push_arg(&mut command, "exec");
    push_arg(&mut command, "--node");
    push_arg(&mut command, version);
    push_arg(&mut command, "node");
    push_arg(&mut command, tsx_cli);
    push_arg(&mut command, source);
    extend_args(&mut command, arguments);
    assert(command.deep_view() =~= final_args_from(tsx_cli@, source@, version@, arguments.deep_view()));
    command
}

/// The path of the `tsx` CLI installed in a project.
pub fn tsx_cli_path(project_dir: &str) -> (r: String)
    ensures
        !is_verbatim(project_dir@) ==> adjoined(project_dir@, "node_modules/tsx/dist/cli.mjs"@, r@),
{
    proof {
        reveal_strlit("node_modules/tsx/dist/cli.mjs");
    }
    join_path(project_dir, "node_modules/tsx/dist/cli.mjs")
}

/// The final command for another working directory: Node runs the
/// project's `tsx` CLI on the source, both by path.
pub fn final_command_from(project_dir: &str, source: &str, version: &str, arguments: &[String]) -> (r: Vec<String>)
    ensures
        exists|tsx_cli: Seq<char>|
            #![trigger final_args_from(tsx_cli, source@, version@, arguments.deep_view())]
            {
                &&& !is_verbatim(project_dir@) ==> adjoined(
                    project_dir@,
                    "node_modules/tsx/dist/cli.mjs"@,
                    tsx_cli,
                )
                &&& r.deep_view() == final_args_from(tsx_cli, source@, version@, arguments.deep_view())
            },
{
    let tsx_cli = tsx_cli_path(project_dir);
    let cli = tsx_cli.as_str();
    let r = final_command_with(cli, source, version, arguments);
    assert(r.deep_view() == final_args_from(cli@, source@, version@, arguments.deep_view()));
    r
}

/// `plan` is the Node project plan for `dir`, with the files placed in it.
pub open spec fn node_prepared(
    b: NodeView,
    dir: Seq<char>,
    code: Seq<char>,
    arguments: Seq<Seq<char>>,
    exec: ExecutionView,
    quiet: bool,
    plan: Seq<StepView>,
) -> bool {
    exists|manifest: Seq<char>, source: Seq<char>, tsx_cli: Seq<char>|
        #![trigger node_project_plan(b, dir, manifest, source, tsx_cli, code, arguments, exec, quiet)]
        {
            &&& !is_verbatim(dir) ==> adjoined(dir, "package.json"@, manifest)
            &&& !is_verbatim(dir) ==> adjoined(dir, node_file(b.commonjs), source)
            &&& !is_verbatim(dir) ==> adjoined(
                dir,
                "node_modules/tsx/dist/cli.mjs"@,
                tsx_cli,
            )
            &&& plan == node_project_plan(
                b,
                dir,
                manifest,
                source,
                tsx_cli,
                code,
                arguments,
                exec,
                quiet,
            )
        }
}

impl<'a> NodeBackend<'a> {
    /// The Node backend for a toolchain, the user's packages, and the
    /// module format.
    pub fn new(toolchain: &'a ToolchainSpec, packages: &'a [String], commonjs: bool) -> (r: Self)
        ensures
            r@ == (NodeView {
                version: toolchain.version@,
                packages: packages.deep_view(),
                commonjs,
            }),
            !r.copies_source_file(),
    {
        NodeBackend { toolchain, packages, commonjs, source_file: false }
    }

    /// Whether the code comes from a source file, which is copied into a
    /// fresh project rather than run directly.
    pub closed spec fn copies_source_file(&self) -> bool {
        self.source_file
    }

    /// The same backend, for code from a source file or not.
    pub fn with_source_file(self, source_file: bool) -> (r: Self)
        ensures
            r@ == self@,
            r.copies_source_file() == source_file,
    {
        NodeBackend { source_file, ..self }
    }

    /// The project's source file name.
    pub fn file_name(&self) -> (r: &'static str)
        ensures
            r@ == node_file(self@.commonjs),
    {
        if self.commonjs {
            "snippet.cts"
        } else {
            "snippet.ts"
        }
    }

    /// The suffix for the temporary source file used without a project.
    pub fn direct_source_suffix(&self) -> (r: &'static str)
        ensures
            r@ == node_direct_suffix(self@.commonjs),
    {
        if self.commonjs {
            ".cts"
        } else {
            ".mts"
        }
    }

    /// Node runs without a project when no package is requested and the
    /// code does not come from a source file.
    pub fn runs_without_project(&self) -> (r: bool)
        ensures
            r == (self@.packages.len() == 0 && !self.copies_source_file()),
    {
        self.packages.len() == 0 && !self.source_file
    }

    /// The plan for running code from the temporary file `temp_source`
    /// without a project; `fallback` is the directory it runs in when no
    /// working directory was given.
    pub fn run_direct(
        &self,
        temp_source: &str,
        code: &str,
        arguments: &[String],
        execution: &ExecutionContext,
        fallback: &str,
        quiet: bool,
    ) -> (plan: Vec<Step>)
        ensures
            plan.deep_view() == node_direct_plan(
                self@,
                temp_source@,
                code@,
                arguments.deep_view(),
                execution@,
                fallback@,
                quiet,
            ),
    {
        let mut args: Vec<String> = Vec::new();
        push_arg(&mut args, "env");
        push_arg(&mut args, "exec");
        push_arg(&mut args, "--node");
        push_arg(&mut args, self.toolchain.version.as_str());
        push_arg(&mut args, "npx");
        push_arg(&mut args, "--yes");
        let tsx = concat("tsx@", TSX_VERSION);
        push_arg(&mut args, tsx.as_str());
        push_arg(&mut args, temp_source);
        extend_args(&mut args, arguments);
        let mut plan: Vec<Step> = Vec::new();
        plan.push(Step::WriteSource { path: owned(temp_source), code: owned(code) });
        plan.push(Step::Final {
            command: Invocation {
                program: owned("vp"),
                args,
                cwd: Some(owned(execution.cwd_or(fallback))),
                env: no_env(),
            },
            unprinted_env: copy_env(execution.environment()),
            quiet,
        });
        proof {
            let expected = node_direct_plan(
                self@,
                temp_source@,
                code@,
                arguments.deep_view(),
                execution@,
                fallback@,
                quiet,
            );
            assert(args.deep_view() =~= expected[1]->Final_command.args);
            assert(plan.deep_view() =~= expected);
        }
        plan
    }

    /// The plan for running code in the project at `dir`, with the paths of
    /// its manifest, its source file and its `tsx` CLI given.
    pub fn plan_project(
        &self,
        dir: &str,
        manifest: &str,
        source: &str,
        tsx_cli: &str,
        code: &str,
        arguments: &[String],
        execution: &ExecutionContext,
        quiet: bool,
    ) -> (plan: Vec<Step>)
        ensures
            plan.deep_view() == node_project_plan(
                self@,
                dir@,
                manifest@,
                source@,
                tsx_cli@,
                code@,
                arguments.deep_view(),
                execution@,
                quiet,
            ),
    {
        let ghost expected = node_project_plan(
            self@,
            dir@,
            manifest@,
            source@,
            tsx_cli@,
            code@,
            arguments.deep_view(),
            execution@,
            quiet,
        );
        let file = self.file_name();
        let version = self.toolchain.version.as_str();
        let mut plan: Vec<Step> = Vec::new();
        plan.push(Step::WriteManifest { path: owned(manifest), contents: package_manifest(file) });
        plan.push(Step::WriteSource { path: owned(source), code: owned(code) });
        let mut pin: Vec<String> = Vec::new();
        push_arg(&mut pin, "env");
        push_arg(&mut pin, "pin");
        push_arg(&mut pin, version);
        push_arg(&mut pin, "--target");
        push_arg(&mut pin, "node-version");
        push_arg(&mut pin, "--force");
        assert(pin.deep_view() =~= expected[2]->Setup_command.args);
        plan.push(Step::Setup {
            stage: owned("pin Node.js toolchain"),
            command: Invocation { program: owned("vp"), args: pin, cwd: Some(owned(dir)), env: no_env() },
            quiet: true,
        });
        let mut install: Vec<String> = Vec::new();
        push_arg(&mut install, "env");
        push_arg(&mut install, "exec");
        push_arg(&mut install, "--node");
        push_arg(&mut install, version);
        push_arg(&mut install, "npm");
        push_arg(&mut install, "install");
        push_arg(&mut install, "--save-exact");
        let tsx = concat("tsx@", TSX_VERSION);
        push_arg(&mut install, tsx.as_str());
        extend_args(&mut install, self.packages);
        assert(install.deep_view() =~= expected[3]->Setup_command.args);
        plan.push(Step::Setup {
            stage: owned("install Node dependencies"),
            command: Invocation { program: owned("vp"), args: install, cwd: Some(owned(dir)), env: no_env() },
            quiet,
        });
        let run = if execution.has_custom_cwd() {
            final_command_with(tsx_cli, source, version, arguments)
        } else {
            final_command(file, arguments, quiet)
        };
        assert(run.deep_view() =~= expected[4]->Final_command.args);
        plan.push(Step::Final {
            command: Invocation {
                program: owned("vp"),
                args: run,
                cwd: Some(owned(execution.cwd_or(dir))),
                env: no_env(),
            },
            unprinted_env: copy_env(execution.environment()),
            quiet,
        });
        assert(plan.deep_view() =~= expected);
        plan
    }

    /// The plan for running code in the project at `dir`: the manifest is
    /// `package.json` and the source file is `file_name` in it.
    pub fn prepare(
        &self,
        dir: &str,
        code: &str,
        arguments: &[String],
        execution: &ExecutionContext,
        quiet: bool,
    ) -> (plan: Vec<Step>)
        ensures
            node_prepared(self@, dir@, code@, arguments.deep_view(), execution@, quiet, plan.deep_view()),
            well_formed_plan(plan.deep_view()),
    {
        proof {
            reveal_strlit("package.json");
            reveal_strlit("snippet.cts");
            reveal_strlit("snippet.ts");
        }
        let manifest = join_path(dir, "package.json");
        let source = join_path(dir, self.file_name());
        let tsx_cli = tsx_cli_path(dir);
        let (m, s, t) = (manifest.as_str(), source.as_str(), tsx_cli.as_str());
        let plan = self.plan_project(dir, m, s, t, code, arguments, execution, quiet);
        assert(plan.deep_view() == node_project_plan(
            self@,
            dir@,
            m@,
            s@,
            t@,
            code@,
            arguments.deep_view(),
            execution@,
            quiet,
        ));
        proof {
            lemma_node_plans_well_formed(self@, dir@, m@, s@, t@, s@, code@, arguments.deep_view(), execution@, dir@, quiet);
        }
        plan
    }
}

/// Every Node plan ends with exactly one final command or failure.
pub proof fn lemma_node_plans_well_formed(
    b: NodeView,
    dir: Seq<char>,
    manifest: Seq<char>,
    source: Seq<char>,
    tsx_cli: Seq<char>,
    temp_source: Seq<char>,
    code: Seq<char>,
    arguments: Seq<Seq<char>>,
    exec: ExecutionView,
    fallback: Seq<char>,
    quiet: bool,
)
    ensures
        well_formed_plan(node_project_plan(b, dir, manifest, source, tsx_cli, code, arguments, exec, quiet)),
        well_formed_plan(node_direct_plan(b, temp_source, code, arguments, exec, fallback, quiet)),
{
}

/// The final command of a Node plan runs in the chosen working directory
/// (the project directory, or `fallback` without a project) and receives
/// the environment file's variables.
pub proof fn lemma_node_final_context(
    b: NodeView,
    dir: Seq<char>,
    manifest: Seq<char>,
    source: Seq<char>,
    tsx_cli: Seq<char>,
    temp_source: Seq<char>,
    code: Seq<char>,
    arguments: Seq<Seq<char>>,
    exec: ExecutionView,
    fallback: Seq<char>,
    quiet: bool,
)
    ensures
        final_runs_in(
            node_project_plan(b, dir, manifest, source, tsx_cli, code, arguments, exec, quiet),
            chosen_cwd(exec, dir),
            exec.environment,
        ),
        final_runs_in(
            node_direct_plan(b, temp_source, code, arguments, exec, fallback, quiet),
            chosen_cwd(exec, fallback),
            exec.environment,
        ),
{
}

/// With `--quiet` no setup step or command of a Node plan is shown.
pub proof fn lemma_node_quiet(
    b: NodeView,
    dir: Seq<char>,
    manifest: Seq<char>,
    source: Seq<char>,
    tsx_cli: Seq<char>,
    temp_source: Seq<char>,
    code: Seq<char>,
    arguments: Seq<Seq<char>>,
    exec: ExecutionView,
    fallback: Seq<char>,
)
    ensures
        nothing_shown(node_project_plan(b, dir, manifest, source, tsx_cli, code, arguments, exec, true)),
        nothing_shown(node_direct_plan(b, temp_source, code, arguments, exec, fallback, true)),
{
}

/// Without `--quiet` a Node plan shows only the package installation and
/// the final command.
pub proof fn lemma_node_shown_steps(
    b: NodeView,
    dir: Seq<char>,
    manifest: Seq<char>,
    source: Seq<char>,
    tsx_cli: Seq<char>,
    temp_source: Seq<char>,
    code: Seq<char>,
    arguments: Seq<Seq<char>>,
    exec: ExecutionView,
    fallback: Seq<char>,
)
    ensures
        shows_installs_and_final(
            node_project_plan(b, dir, manifest, source, tsx_cli, code, arguments, exec, false),
        ),
        shows_installs_and_final(node_direct_plan(b, temp_source, code, arguments, exec, fallback, false)),
{
    lemma_dependency_stage_lengths();
    reveal_strlit("pin Node.js toolchain");
    assert("pin Node.js toolchain"@.len() == 21);
}

/// Code run without a project is written to an ES module (`.mts`) unless
/// `--commonjs` asks for CommonJS (`.cts`); the two never coincide.
pub proof fn lemma_node_direct_module_kind()
    ensures
        node_direct_suffix(false) == ".mts"@,
        node_direct_suffix(true) == ".cts"@,
        node_direct_suffix(false) != node_direct_suffix(true),
{
    reveal_strlit(".mts");
    reveal_strlit(".cts");
    assert(".mts"@[1] != ".cts"@[1]);
}

/// A Node plan passes the snippet's arguments last, and installs `tsx` and
/// every requested package, in order, in the project directory.
pub proof fn lemma_node_arguments_and_packages(
    b: NodeView,
    dir: Seq<char>,
    manifest: Seq<char>,
    source: Seq<char>,
    tsx_cli: Seq<char>,
    temp_source: Seq<char>,
    code: Seq<char>,
    arguments: Seq<Seq<char>>,
    exec: ExecutionView,
    fallback: Seq<char>,
    quiet: bool,
)
    ensures
        final_passes(
            node_project_plan(b, dir, manifest, source, tsx_cli, code, arguments, exec, quiet),
            arguments,
        ),
        final_passes(node_direct_plan(b, temp_source, code, arguments, exec, fallback, quiet), arguments),
        installs_in(node_project_plan(b, dir, manifest, source, tsx_cli, code, arguments, exec, quiet), dir),
        ({
            let plan = node_project_plan(b, dir, manifest, source, tsx_cli, code, arguments, exec, quiet);
            &&& plan[3] matches StepView::Setup { .. }
            &&& b.packages.is_suffix_of(plan[3]->Setup_command.args)
        }),
{
    lemma_dependency_stage_lengths();
    reveal_strlit("pin Node.js toolchain");
    assert("pin Node.js toolchain"@.len() == 21);
}

} // verus!
