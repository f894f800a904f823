//! C# snippets run as .NET file-based apps through `mise`; packages become
//! `#:package` directives at the top of the source.

use vstd::prelude::*;
use crate::cli::{ToolchainSpec, debug_quoted, debug_str};
use crate::plan::{
    Invocation, InvocationView, Step, StepView, no_env, nothing_shown, push_arg, well_formed_plan,
};
use crate::process::{RunFailure, message_failure};
use crate::runner::{BackendView, shows_installs_and_final};
use crate::text::{
    chars_of, collect_all, concat, contains_char, has_white_space, has_white_space_chars,
    lemma_collect_prefix_err, lemma_collect_step, owned,
};
use crate::util::{adjoined, is_verbatim, join_path};

verus! {

broadcast use vstd::string::group_string_axioms;

/// The .NET backend for one toolchain and set of packages.
pub struct DotnetBackend<'a> {
    toolchain: &'a ToolchainSpec,
    packages: &'a [String],
}

impl<'a> View for DotnetBackend<'a> {
    type V = BackendView;

    closed spec fn view(&self) -> BackendView {
        BackendView { version: self.toolchain.version@, packages: self.packages.deep_view() }
    }
}

/// The message for a package that cannot be a NuGet directive.
pub open spec fn invalid_nuget_package(package: Seq<char>) -> Seq<char> {
    "invalid NuGet package specification "@ + debug_quoted(package) + "; expected NAME[@VERSION]"@
}

/// The `#:package` directive line for `NAME[@VERSION]`; a missing version
/// becomes `@*`. An empty package, one with white space, or one that starts
/// or ends with `@` is refused.
pub open spec fn nuget_directive(package: Seq<char>) -> Result<Seq<char>, Seq<char>> {
    if package.len() == 0 || has_white_space(package) || package[0] == '@' || package.last()
        == '@' {
        Err(invalid_nuget_package(package))
    } else {
        Ok(
            "#:package "@ + package + (if package.contains('@') {
                seq![]
            } else {
                seq!['@', '*']
            }) + seq!['\n'],
        )
    }
}

/// `nuget_directive` as a function value.
pub open spec fn nuget_converter() -> spec_fn(Seq<char>) -> Result<Seq<char>, Seq<char>> {
    |p: Seq<char>| nuget_directive(p)
}

/// The source with one directive line per package before the code, or the
/// message for the first package that cannot be a directive.
pub open spec fn dotnet_source(code: Seq<char>, packages: Seq<Seq<char>>) -> Result<Seq<char>, Seq<char>> {
    match collect_all(packages, nuget_converter()) {
        Ok(lines) => Ok(lines.flatten_alt() + code),
        Err(m) => Err(m),
    }
}

fn directive(package: &str) -> (r: Result<String, RunFailure>)
    ensures
        match r {
            Ok(line) => nuget_directive(package@) == Ok::<_, Seq<char>>(line@),
            Err(f) => nuget_directive(package@) matches Err(m) && f.deep_view() == message_failure(m),
        },
{
    let chars = chars_of(package);
    let n = chars.len();
    if n == 0 || has_white_space_chars(chars.as_slice()) || chars[0] == '@' || chars[n - 1] == '@' {
        let mut m = concat("invalid NuGet package specification ", debug_str(package).as_str());
        m.push_str("; expected NAME[@VERSION]");
        return Err(RunFailure::message(m));
    }
    let mut line = concat("#:package ", package);
    if !contains_char(chars.as_slice(), '@') {
        line.push('@');
        line.push('*');
    }
    line.push('\n');
    assert(line@ =~= "#:package "@ + package@ + (if package@.contains('@') {
        seq![]
    } else {
        seq!['@', '*']
    }) + seq!['\n']);
    Ok(line)
}

/// Prepends a `#:package` directive for every package to the code.
pub fn source_with_packages(code: &str, packages: &[String]) -> (r: Result<String, RunFailure>)
    ensures
        match r {
            Ok(source) => dotnet_source(code@, packages.deep_view()) == Ok::<_, Seq<char>>(source@),
            Err(f) => dotnet_source(code@, packages.deep_view()) matches Err(m) && f.deep_view()
                == message_failure(m),
        },
{
    let ghost ps = packages.deep_view();
    let mut source = String::new();
    let ghost mut lines: Seq<Seq<char>> = seq![];
    let mut i: usize = 0;
    assert(ps.take(0) =~= Seq::<Seq<char>>::empty());
    while i < packages.len()
        invariant
            ps == packages.deep_view(),
            i <= ps.len(),
            collect_all(ps.take(i as int), nuget_converter()) == Ok::<Seq<Seq<char>>, Seq<char>>(lines),
            source@ == lines.flatten_alt(),
        decreases ps.len() - i,
    {
        proof {
            lemma_collect_step(ps, nuget_converter(), i as int);
        }
        assert(packages@[i as int]@ == ps[i as int]);
        match directive(packages[i].as_str()) {
            Ok(line) => {
                source.push_str(line.as_str());
                proof {
                    let old_lines = lines;
                    lines = lines.push(line@);
                    assert(lines.drop_last() =~= old_lines);
                }
            },
            Err(f) => {
                proof {
                    lemma_collect_prefix_err(ps, nuget_converter(), i + 1);
                }
                return Err(f);
            },
        }
        i = i + 1;
    }
    assert(ps.take(ps.len() as int) =~= ps);
    source.push_str(code);
    Ok(source)
}

/// The `mise exec dotnet@VERSION -- dotnet run snippet.cs` invocation.
pub open spec fn dotnet_run(version: Seq<char>, dir: Seq<char>) -> InvocationView {
    InvocationView {
        program: "mise"@,
        args: seq!["exec"@, "dotnet@"@ + version, "--"@, "dotnet"@, "run"@, "snippet.cs"@],
        cwd: Some(dir),
        env: seq![],
    }
}

/// Running code in the directory `dir`: write the source with its package
/// directives to `path`, then `dotnet run` it; a package that cannot be a
/// directive stops the run before anything is written.
pub open spec fn dotnet_project_plan(
    b: BackendView,
    dir: Seq<char>,
    path: Seq<char>,
    code: Seq<char>,
    quiet: bool,
) -> Seq<StepView> {
    match dotnet_source(code, b.packages) {
        Err(m) => seq![StepView::Fail { failure: message_failure(m) }],
        Ok(source) => seq![
            StepView::WriteSource { path, code: source },
            StepView::Final { command: dotnet_run(b.version, dir), unprinted_env: seq![], quiet },
        ],
    }
}

/// `plan` is the .NET project plan for `dir`, with the files placed in it.
pub open spec fn dotnet_prepared(
    b: BackendView,
    dir: Seq<char>,
    code: Seq<char>,
    quiet: bool,
    plan: Seq<StepView>,
) -> bool {
    exists|path: Seq<char>|
        #![trigger dotnet_project_plan(b, dir, path, code, quiet)]
        {
            &&& !is_verbatim(dir) ==> adjoined(dir, "snippet.cs"@, path)
            &&& plan == dotnet_project_plan(b, dir, path, code, quiet)
        }
}

impl<'a> DotnetBackend<'a> {
    /// The .NET backend for a toolchain and the user's packages.
    pub fn new(toolchain: &'a ToolchainSpec, packages: &'a [String]) -> (r: Self)
        ensures
            r@ == (BackendView { version: toolchain.version@, packages: packages.deep_view() }),
    {
        DotnetBackend { toolchain, packages }
    }

    /// The plan for running code in `dir` with the source file at `path`.
    pub fn plan_project(&self, dir: &str, path: &str, code: &str, quiet: bool) -> (plan: Vec<Step>)
        ensures
            plan.deep_view() == dotnet_project_plan(self@, dir@, path@, code@, quiet),
    {
        let mut plan: Vec<Step> = Vec::new();
        match source_with_packages(code, self.packages) {
            Err(failure) => {
                plan.push(Step::Fail { failure });
                assert(plan.deep_view() =~= dotnet_project_plan(self@, dir@, path@, code@, quiet));
            },
            Ok(source) => {
                plan.push(Step::WriteSource { path: owned(path), code: source });
                let toolchain = concat("dotnet@", self.toolchain.version.as_str());
                let mut args: Vec<String> = Vec::new();
                push_arg(&mut args, "exec");
                push_arg(&mut args, toolchain.as_str());
                push_arg(&mut args, "--");
                push_arg(&mut args, "dotnet");
                push_arg(&mut args, "run");
                push_arg(&mut args, "snippet.cs");
                assert(args.deep_view() =~= dotnet_run(self@.version, dir@).args);
                plan.push(Step::Final {
                    command: Invocation {
                        program: owned("mise"),
                        args,
                        cwd: Some(owned(dir)),
                        env: no_env(),
                    },
                    unprinted_env: no_env(),
                    quiet,
                });
                assert(plan.deep_view() =~= dotnet_project_plan(self@, dir@, path@, code@, quiet));
            },
        }
        plan
    }

    /// The plan for running code in `dir`; the source file is `snippet.cs`
    /// in it.
    pub fn prepare(&self, dir: &str, code: &str, quiet: bool) -> (plan: Vec<Step>)
        ensures
            dotnet_prepared(self@, dir@, code@, quiet, plan.deep_view()),
            well_formed_plan(plan.deep_view()),
    {
        proof {
            reveal_strlit("snippet.cs");
        }
        let path = join_path(dir, "snippet.cs");
        let p = path.as_str();
        let plan = self.plan_project(dir, p, code, quiet);
        assert(plan.deep_view() == dotnet_project_plan(self@, dir@, p@, code@, quiet));
        proof {
            lemma_dotnet_plans_well_formed(self@, dir@, p@, code@, quiet);
        }
        plan
    }
}

/// Every .NET plan ends with exactly one final command or failure.
pub proof fn lemma_dotnet_plans_well_formed(
    b: BackendView,
    dir: Seq<char>,
    path: Seq<char>,
    code: Seq<char>,
    quiet: bool,
)
    ensures
        well_formed_plan(dotnet_project_plan(b, dir, path, code, quiet)),
{
}

/// With `--quiet` the command of a .NET plan is not shown.
pub proof fn lemma_dotnet_quiet(b: BackendView, dir: Seq<char>, path: Seq<char>, code: Seq<char>)
    ensures
        nothing_shown(dotnet_project_plan(b, dir, path, code, true)),
{
}

/// Without `--quiet` a .NET plan shows only the package installation and
/// the final command.
pub proof fn lemma_dotnet_shown_steps(
    b: BackendView,
    dir: Seq<char>,
    path: Seq<char>,
    code: Seq<char>,
)
    ensures
        shows_installs_and_final(dotnet_project_plan(b, dir, path, code, false)),
{
}

/// A .NET plan writes `snippet.cs` into `dir` and runs it there: the final
/// `dotnet run snippet.cs` has `dir` as its working directory.
pub proof fn lemma_dotnet_runs_where_it_writes(
    b: BackendView,
    dir: Seq<char>,
    path: Seq<char>,
    code: Seq<char>,
    quiet: bool,
)
    requires
        !is_verbatim(dir) ==> adjoined(dir, "snippet.cs"@, path),
    ensures
        ({
            let plan = dotnet_project_plan(b, dir, path, code, quiet);
            plan.last() matches StepView::Final { command, .. } ==> {
                &&& command.cwd == Some(dir)
                &&& command.args.last() == "snippet.cs"@
                &&& plan[0] matches StepView::WriteSource { path: written, .. }
                &&& written == path
            }
        }),
{
}

} // verus!
