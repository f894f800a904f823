//! A backend's work as a list of steps: setup commands, files to write, and
//! the final command. The caller performs each step and reports what it came
//! to; `advance` decides whether the run goes on, stops with a failure, or
//! has finished with an exit code.

use vstd::prelude::*;
use crate::process::{
    FailureView, ProcessOutcome, display_command, displayed_command, RunFailure, checked_outcome, final_outcome, message_failure,
    reported_exit_code, run_checked, run_checked_hidden, run_final, exit_code_of,
};
use crate::text::concat;

verus! {

broadcast use vstd::string::group_string_axioms;

/// A command to start: program, arguments, working directory and the
/// variables shown with it.
#[derive(Debug)]
pub struct Invocation {
    pub program: String,
    pub args: Vec<String>,
    pub cwd: Option<String>,
    pub env: Vec<(String, String)>,
}

/// The abstract value of an `Invocation`.
pub struct InvocationView {
    pub program: Seq<char>,
    pub args: Seq<Seq<char>>,
    pub cwd: Option<Seq<char>>,
    pub env: Seq<(Seq<char>, Seq<char>)>,
}

impl DeepView for Invocation {
    type V = InvocationView;

    open spec fn deep_view(&self) -> InvocationView {
        InvocationView {
            program: self.program@,
            args: self.args.deep_view(),
            cwd: self.cwd.deep_view(),
            env: self.env.deep_view(),
        }
    }
}

/// One step of running a snippet.
#[derive(Debug)]
pub enum Step {
    /// A setup command. With `quiet` its output is captured and shown only
    /// when it fails; otherwise the command is shown and its output streamed.
    Setup { stage: String, command: Invocation, quiet: bool },
    /// Write the snippet's source to `path`, creating its directory first.
    WriteSource { path: String, code: String },
    /// Write the Node package manifest, whose text is `contents`.
    WriteManifest { path: String, contents: String },
    /// Create the shared Cargo target directory.
    CreateCache { path: String },
    /// Stop with this failure.
    Fail { failure: RunFailure },
    /// The final command: its exit code is the run's. `unprinted_env` is
    /// applied before `command.env` and is not shown.
    Final { command: Invocation, unprinted_env: Vec<(String, String)>, quiet: bool },
}

/// The abstract value of a `Step`.
pub enum StepView {
    Setup { stage: Seq<char>, command: InvocationView, quiet: bool },
    WriteSource { path: Seq<char>, code: Seq<char> },
    WriteManifest { path: Seq<char>, contents: Seq<char> },
    CreateCache { path: Seq<char> },
    Fail { failure: FailureView },
    Final { command: InvocationView, unprinted_env: Seq<(Seq<char>, Seq<char>)>, quiet: bool },
}

impl DeepView for Step {
    type V = StepView;

    open spec fn deep_view(&self) -> StepView {
        match self {
            Step::Setup { stage, command, quiet } => StepView::Setup {
                stage: stage@,
                command: command.deep_view(),
                quiet: *quiet,
            },
            Step::WriteSource { path, code } => StepView::WriteSource { path: path@, code: code@ },
            Step::WriteManifest { path, contents } => StepView::WriteManifest {
                path: path@,
                contents: contents@,
            },
            Step::CreateCache { path } => StepView::CreateCache { path: path@ },
            Step::Fail { failure } => StepView::Fail { failure: failure.deep_view() },
            Step::Final { command, unprinted_env, quiet } => StepView::Final {
                command: command.deep_view(),
                unprinted_env: unprinted_env.deep_view(),
                quiet: *quiet,
            },
        }
    }
}

/// A step that ends a run.
pub open spec fn is_terminal(step: StepView) -> bool {
    step is Fail || step is Final
}

/// A plan that ends with exactly one terminal step: a final command or a
/// failure, and nothing ends the run before it.
pub open spec fn well_formed_plan(plan: Seq<StepView>) -> bool {
    &&& plan.len() > 0
    &&& is_terminal(plan.last())
    &&& forall|i: int| 0 <= i < plan.len() - 1 ==> !is_terminal(#[trigger] plan[i])
}

/// What performing a step came to.
pub enum Outcome {
    /// A setup or final command was started (or not).
    Process(ProcessOutcome),
    /// A file step succeeded.
    Done,
    /// Creating a directory failed, with this description.
    DirectoryFailed(String),
    /// Writing a file failed, with this description.
    WriteFailed(String),
}

/// The outcomes that a step can come to.
pub open spec fn outcome_fits(step: StepView, outcome: Outcome) -> bool {
    match step {
        StepView::Setup { .. } => outcome is Process,
        StepView::Final { .. } => outcome is Process,
        StepView::WriteSource { .. } => outcome is Done || outcome is DirectoryFailed
            || outcome is WriteFailed,
        StepView::WriteManifest { .. } => outcome is Done || outcome is WriteFailed,
        StepView::CreateCache { .. } => outcome is Done || outcome is DirectoryFailed,
        StepView::Fail { .. } => true,
    }
}

/// Where a run stands after a step.
#[derive(Debug)]
pub enum Progress {
    Continue,
    Finished(i32),
    Failed(RunFailure),
}

/// The abstract value of a `Progress`.
pub enum ProgressView {
    Continue,
    Finished(i32),
    Failed(FailureView),
}

impl DeepView for Progress {
    type V = ProgressView;

    open spec fn deep_view(&self) -> ProgressView {
        match self {
            Progress::Continue => ProgressView::Continue,
            Progress::Finished(code) => ProgressView::Finished(*code),
            Progress::Failed(f) => ProgressView::Failed(f.deep_view()),
        }
    }
}

/// The message-only failure `prefix` followed by a description.
pub open spec fn described(prefix: Seq<char>, error: Seq<char>) -> ProgressView {
    ProgressView::Failed(message_failure(prefix + error))
}

/// Where a run stands after a step came to `outcome`.
pub open spec fn next_progress(step: StepView, outcome: Outcome) -> ProgressView {
    match step {
        StepView::Setup { stage, command, .. } => match outcome {
            Outcome::Process(o) => match checked_outcome(stage, command.program, o) {
                Ok(_) => ProgressView::Continue,
                Err(f) => ProgressView::Failed(f),
            },
            _ => ProgressView::Continue,
        },
        StepView::Final { command, .. } => match outcome {
            Outcome::Process(o) => match final_outcome(command.program, o) {
                Ok(result) => ProgressView::Finished(reported_exit_code(result)),
                Err(f) => ProgressView::Failed(f),
            },
            _ => ProgressView::Continue,
        },
        StepView::WriteSource { .. } => match outcome {
            Outcome::DirectoryFailed(e) => described("failed to create source directory: "@, e@),
            Outcome::WriteFailed(e) => described("failed to store stdin source: "@, e@),
            _ => ProgressView::Continue,
        },
        StepView::WriteManifest { .. } => match outcome {
            Outcome::WriteFailed(e) => described("failed to write package.json: "@, e@),
            _ => ProgressView::Continue,
        },
        StepView::CreateCache { .. } => match outcome {
            Outcome::DirectoryFailed(e) => described("failed to create Cargo cache: "@, e@),
            _ => ProgressView::Continue,
        },
        StepView::Fail { failure } => ProgressView::Failed(failure),
    }
}

fn failed_with(prefix: &str, error: &str) -> (r: Progress)
    ensures
        r.deep_view() == described(prefix@, error@),
{
    Progress::Failed(RunFailure::message(concat(prefix, error)))
}

/// Decides where a run stands after `step` came to `outcome`.
pub fn advance(step: Step, outcome: Outcome) -> (r: Progress)
    requires
        outcome_fits(step.deep_view(), outcome),
    ensures
        r.deep_view() == next_progress(step.deep_view(), outcome),
{
    match step {
        Step::Setup { stage, command, quiet } => match outcome {
            Outcome::Process(o) => {
                let checked = if quiet {
                    run_checked_hidden(stage.as_str(), command.program.as_str(), o)
                } else {
                    run_checked(stage.as_str(), command.program.as_str(), o)
                };
                match checked {
                    Ok(_) => Progress::Continue,
                    Err(f) => Progress::Failed(f),
                }
            },
            _ => Progress::Continue,
        },
        Step::Final { command, .. } => match outcome {
            Outcome::Process(o) => match run_final(command.program.as_str(), o) {
                Ok(result) => Progress::Finished(exit_code_of(result)),
                Err(f) => Progress::Failed(f),
            },
            _ => Progress::Continue,
        },
        Step::WriteSource { .. } => match outcome {
            Outcome::DirectoryFailed(e) => failed_with("failed to create source directory: ", e.as_str()),
            Outcome::WriteFailed(e) => failed_with("failed to store stdin source: ", e.as_str()),
            _ => Progress::Continue,
        },
        Step::WriteManifest { .. } => match outcome {
            Outcome::WriteFailed(e) => failed_with("failed to write package.json: ", e.as_str()),
            _ => Progress::Continue,
        },
        Step::CreateCache { .. } => match outcome {
            Outcome::DirectoryFailed(e) => failed_with("failed to create Cargo cache: ", e.as_str()),
            _ => Progress::Continue,
        },
        Step::Fail { failure } => Progress::Failed(failure),
    }
}

/// No variables.
pub fn no_env() -> (r: Vec<(String, String)>)
    ensures
        r.deep_view() == Seq::<(Seq<char>, Seq<char>)>::empty(),
{
    let r: Vec<(String, String)> = Vec::new();
    assert(r.deep_view() =~= Seq::<(Seq<char>, Seq<char>)>::empty());
    r
}

/// Appends a copy of `arg` to an argument list.
pub fn push_arg(args: &mut Vec<String>, arg: &str)
    ensures
        final(args).deep_view() == old(args).deep_view().push(arg@),
{
    let ghost before = args.deep_view();
    args.push(crate::text::owned(arg));
    assert(args.deep_view() =~= before.push(arg@));
}

/// Appends copies of `more` to an argument list.
pub fn extend_args(args: &mut Vec<String>, more: &[String])
    ensures
        final(args).deep_view() == old(args).deep_view() + more.deep_view(),
{
    let ghost start = args.deep_view();
    let mut i: usize = 0;
    while i < more.len()
        invariant
            i <= more@.len(),
            args.deep_view() == start + more.deep_view().take(i as int),
        decreases more@.len() - i,
    {
        let ghost before = args.deep_view();
        args.push(more[i].clone());
        i = i + 1;
        assert(args.deep_view() =~= start + more.deep_view().take(i as int)) by {
            assert(args.deep_view() =~= before.push(more@[i - 1]@));
        }
    }
    assert(more.deep_view().take(more@.len() as int) =~= more.deep_view());
}

/// A copy of a list of variable assignments.
pub fn copy_env(env: &[(String, String)]) -> (r: Vec<(String, String)>)
    ensures
        r.deep_view() == env.deep_view(),
{
    let mut r: Vec<(String, String)> = Vec::new();
    let mut i: usize = 0;
    while i < env.len()
        invariant
            i <= env@.len(),
            r.deep_view() == env.deep_view().take(i as int),
        decreases env@.len() - i,
    {
        let ghost before = r.deep_view();
        let (k, v) = &env[i];
        r.push((k.clone(), v.clone()));
        i = i + 1;
        assert(r.deep_view() =~= env.deep_view().take(i as int)) by {
            assert(r.deep_view() =~= before.push((k@, v@)));
        }
    }
    assert(env.deep_view().take(env@.len() as int) =~= env.deep_view());
    r
}

/// Only a final command finishes a run with an exit code, and a failure
/// step always fails it with its own failure; file and setup steps either
/// let the run go on or fail it.
pub proof fn lemma_only_final_commands_finish(step: StepView, outcome: Outcome)
    ensures
        next_progress(step, outcome) is Finished ==> step is Final,
        step matches StepView::Fail { failure } ==> next_progress(step, outcome)
            == ProgressView::Failed(failure),
        !is_terminal(step) ==> !(next_progress(step, outcome) is Finished),
{
}

/// The final command of `plan`, if it ends with one, runs in `cwd` and
/// receives `env` before its own variables.
pub open spec fn final_runs_in(
    plan: Seq<StepView>,
    cwd: Seq<char>,
    env: Seq<(Seq<char>, Seq<char>)>,
) -> bool {
    plan.len() > 0 ==> match plan.last() {
        StepView::Final { command, unprinted_env, .. } => command.cwd == Some(cwd) && unprinted_env
            == env,
        _ => true,
    }
}

/// A setup or final step that is shown: its command is displayed, or its
/// output streamed.
pub open spec fn step_shown(step: StepView) -> bool {
    match step {
        StepView::Setup { quiet, .. } => !quiet,
        StepView::Final { quiet, .. } => !quiet,
        _ => false,
    }
}

/// No step of `plan` is shown: only the final process's own output appears.
pub open spec fn nothing_shown(plan: Seq<StepView>) -> bool {
    forall|i: int| 0 <= i < plan.len() ==> !step_shown(#[trigger] plan[i])
}

/// The line announcing a step before it runs: `+ ` and the command as shown,
/// for a setup or final step that is not quiet.
pub open spec fn announced(step: StepView) -> Option<Seq<char>> {
    match step {
        StepView::Setup { command, quiet, .. } => if quiet {
            None
        } else {
            Some("+ "@ + displayed_command(command.program, command.args, command.cwd, command.env))
        },
        StepView::Final { command, quiet, .. } => if quiet {
            None
        } else {
            Some("+ "@ + displayed_command(command.program, command.args, command.cwd, command.env))
        },
        _ => None,
    }
}

/// The line announcing `command`, or `None` when it is quiet.
fn announce(command: &Invocation, quiet: bool) -> (r: Option<String>)
    ensures
        match r {
            Some(line) => !quiet && line@ == "+ "@ + displayed_command(
                command.program@,
                command.args.deep_view(),
                command.cwd.deep_view(),
                command.env.deep_view(),
            ),
            None => quiet,
        },
{
    if quiet {
        None
    } else {
        let cwd = match &command.cwd {
            Some(dir) => Some(dir.as_str()),
            None => None,
        };
        let shown = display_command(
            command.program.as_str(),
            command.args.as_slice(),
            cwd,
            command.env.as_slice(),
        );
        Some(concat("+ ", shown.as_str()))
    }
}

/// The line to show before performing `step`, if any.
pub fn announcement(step: &Step) -> (r: Option<String>)
    ensures
        announced(step.deep_view()) == match r {
            Some(line) => Some(line@),
            None => None::<Seq<char>>,
        },
{
    match step {
        Step::Setup { command, quiet, .. } => announce(command, *quiet),
        Step::Final { command, quiet, .. } => announce(command, *quiet),
        _ => None,
    }
}

/// The variables of an environment file never show: two final steps that
/// differ only in the variables applied unseen are announced alike.
pub proof fn lemma_file_variables_never_shown(
    command: InvocationView,
    quiet: bool,
    file: Seq<(Seq<char>, Seq<char>)>,
    other: Seq<(Seq<char>, Seq<char>)>,
)
    ensures
        announced(StepView::Final { command, unprinted_env: file, quiet }) == announced(
            StepView::Final { command, unprinted_env: other, quiet },
        ),
{
}

/// The final command of `plan`, if it ends with one, ends with `arguments`:
/// the snippet's own arguments are passed last and in order.
pub open spec fn final_passes(plan: Seq<StepView>, arguments: Seq<Seq<char>>) -> bool {
    plan.len() > 0 ==> match plan.last() {
        StepView::Final { command, .. } => arguments.is_suffix_of(command.args),
        _ => true,
    }
}

/// A plan that gets to its final command has written the snippet's code:
/// some step writes a source file that ends with `code` (exactly `code`, or
/// `code` after package directives).
pub open spec fn writes_code(plan: Seq<StepView>, code: Seq<char>) -> bool {
    (plan.len() > 0 && plan.last() is Final) ==> exists|i: int|
        0 <= i < plan.len() && (#[trigger] plan[i] matches StepView::WriteSource { code: written, .. }
            && code.is_suffix_of(written))
}

} // verus!
