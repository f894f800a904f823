//! Processes as plain values: what a run produced, why a run failed, how a
//! command is shown to the user, and which environment a process receives.
//! Starting processes is left to the caller; the decisions around it are here.

use vstd::prelude::*;
use crate::text::{chars_of, concat, join_sep, join_strings, owned, string_of};

verus! {

broadcast use vstd::string::group_string_axioms;

/// How a process that ran ended.
#[derive(Debug, Clone, Copy)]
pub struct ProcessResult {
    pub success: bool,
    pub exit_code: Option<i32>,
}

/// Why a run failed: the message shown, the exit code to propagate and the
/// program that could not be found, if that is the cause.
#[derive(Debug)]
pub struct RunFailure {
    pub message: String,
    pub exit_code: Option<i32>,
    pub missing_program: Option<String>,
}

/// The abstract value of a `RunFailure`.
pub struct FailureView {
    pub message: Seq<char>,
    pub exit_code: Option<i32>,
    pub missing_program: Option<Seq<char>>,
}

impl DeepView for RunFailure {
    type V = FailureView;

    open spec fn deep_view(&self) -> FailureView {
        FailureView {
            message: self.message@,
            exit_code: self.exit_code,
            missing_program: match self.missing_program {
                Some(p) => Some(p@),
                None => None,
            },
        }
    }
}

/// A failure with a message only.
pub open spec fn message_failure(message: Seq<char>) -> FailureView {
    FailureView { message, exit_code: None, missing_program: None }
}

/// A program that could not be started; it counts as missing when the
/// operating system reported that it was not found.
pub open spec fn start_failure(program: Seq<char>, error: Seq<char>, not_found: bool) -> FailureView {
    FailureView {
        message: "failed to start "@ + program + ": "@ + error,
        exit_code: None,
        missing_program: if not_found { Some(program) } else { None },
    }
}

/// A stage whose process ran and did not succeed.
pub open spec fn process_failure(stage: Seq<char>, process: ProcessResult) -> FailureView {
    FailureView { message: stage + " failed"@, exit_code: process.exit_code, missing_program: None }
}

impl RunFailure {
    /// A failure with a message only.
    pub fn message(message: String) -> (r: RunFailure)
        ensures
            r.deep_view() == message_failure(message@),
    {
        RunFailure { message, exit_code: None, missing_program: None }
    }

    /// A program that could not be started; `error` is the operating
    /// system's description and `not_found` whether it reported the program
    /// as missing.
    pub fn start(program: &str, error: &str, not_found: bool) -> (r: RunFailure)
        ensures
            r.deep_view() == start_failure(program@, error@, not_found),
    {
        let mut message = concat("failed to start ", program);
        message.push_str(": ");
        message.push_str(error);
        RunFailure {
            message,
            exit_code: None,
            missing_program: if not_found { Some(owned(program)) } else { None },
        }
    }

    /// A stage whose process ran and did not succeed.
    pub fn process(stage: &str, process: ProcessResult) -> (r: RunFailure)
        ensures
            r.deep_view() == process_failure(stage@, process),
    {
        RunFailure {
            message: concat(stage, " failed"),
            exit_code: process.exit_code,
            missing_program: None,
        }
    }
}

/// Why a process could not be started.
#[derive(Debug)]
pub struct StartError {
    pub not_found: bool,
    pub error: String,
}

/// What starting a process came to: it ran and ended, or it did not start.
pub type ProcessOutcome = Result<ProcessResult, StartError>;

/// The outcome of a setup command: it must have started and succeeded.
pub open spec fn checked_outcome(stage: Seq<char>, program: Seq<char>, outcome: ProcessOutcome) -> Result<ProcessResult, FailureView> {
    match outcome {
        Ok(result) => if result.success {
            Ok(result)
        } else {
            Err(process_failure(stage, result))
        },
        Err(e) => Err(start_failure(program, e.error@, e.not_found)),
    }
}

/// The outcome of the final command: any exit counts, only a failed start
/// is an error.
pub open spec fn final_outcome(program: Seq<char>, outcome: ProcessOutcome) -> Result<ProcessResult, FailureView> {
    match outcome {
        Ok(result) => Ok(result),
        Err(e) => Err(start_failure(program, e.error@, e.not_found)),
    }
}

/// `Ok` and `Err` compared through their abstract values.
pub open spec fn result_matches(r: Result<ProcessResult, RunFailure>, expected: Result<ProcessResult, FailureView>) -> bool {
    match (r, expected) {
        (Ok(a), Ok(b)) => a == b,
        (Err(a), Err(b)) => a.deep_view() == b,
        _ => false,
    }
}

fn checked(stage: &str, program: &str, outcome: ProcessOutcome) -> (r: Result<ProcessResult, RunFailure>)
    ensures
        result_matches(r, checked_outcome(stage@, program@, outcome)),
{
    match outcome {
        Ok(result) => if result.success {
            Ok(result)
        } else {
            Err(RunFailure::process(stage, result))
        },
        Err(e) => Err(RunFailure::start(program, e.error.as_str(), e.not_found)),
    }
}

/// Judges a setup command whose output was captured and shown only on
/// failure: it must have started and succeeded.
pub fn run_checked_hidden(stage: &str, program: &str, outcome: ProcessOutcome) -> (r: Result<ProcessResult, RunFailure>)
    ensures
        result_matches(r, checked_outcome(stage@, program@, outcome)),
{
    checked(stage, program, outcome)
}

/// Judges a setup command whose output was streamed unless quiet: it must
/// have started and succeeded.
pub fn run_checked(stage: &str, program: &str, outcome: ProcessOutcome) -> (r: Result<ProcessResult, RunFailure>)
    ensures
        result_matches(r, checked_outcome(stage@, program@, outcome)),
{
    checked(stage, program, outcome)
}

/// Judges the final command: any exit is passed on, a failed start is an error.
pub fn run_final(program: &str, outcome: ProcessOutcome) -> (r: Result<ProcessResult, RunFailure>)
    ensures
        result_matches(r, final_outcome(program@, outcome)),
{
    match outcome {
        Ok(result) => Ok(result),
        Err(e) => Err(RunFailure::start(program, e.error.as_str(), e.not_found)),
    }
}

/// The exit code reported for a final process: its own, or 1 when it has
/// none (it was ended by a signal).
pub open spec fn reported_exit_code(result: ProcessResult) -> i32 {
    match result.exit_code {
        Some(code) => code,
        None => 1,
    }
}

/// The exit code reported for a final process.
pub fn exit_code_of(result: ProcessResult) -> (r: i32)
    ensures
        r == reported_exit_code(result),
{
    match result.exit_code {
        Some(code) => code,
        None => 1,
    }
}

// ---------------------------------------------------------------------------
// Showing a command
// ---------------------------------------------------------------------------

/// Characters that a POSIX shell reads literally outside quotes.
pub open spec fn is_shell_safe(c: char) -> bool {
    ||| 'a' <= c <= 'z'
    ||| 'A' <= c <= 'Z'
    ||| '0' <= c <= '9'
    ||| c == '_' || c == '@' || c == '%' || c == '+' || c == '='
    ||| c == ':' || c == ',' || c == '.' || c == '/' || c == '-'
}

/// A non-empty word made of shell-safe characters only.
pub open spec fn shell_safe(s: Seq<char>) -> bool {
    s.len() > 0 && forall|i: int| 0 <= i < s.len() ==> is_shell_safe(#[trigger] s[i])
}

/// How one character is written inside single quotes: a quote closes the
/// quoting, appears in double quotes, and reopens it.
pub open spec fn quote_piece(c: char) -> Seq<char> {
    if c == '\'' {
        seq!['\'', '"', '\'', '"', '\'']
    } else {
        seq![c]
    }
}

/// Every character of `s` written as `quote_piece` does.
pub open spec fn escape_quotes(s: Seq<char>) -> Seq<char>
    decreases s.len(),
{
    if s.len() == 0 {
        seq![]
    } else {
        escape_quotes(s.drop_last()) + quote_piece(s.last())
    }
}

/// A word as shown to the user: unchanged when it is shell-safe, otherwise
/// single-quoted.
pub open spec fn shell_quoted(s: Seq<char>) -> Seq<char> {
    if shell_safe(s) {
        s
    } else {
        seq!['\''] + escape_quotes(s) + seq!['\'']
    }
}

/// Words joined by single spaces.
pub open spec fn join_words(words: Seq<Seq<char>>) -> Seq<char> {
    join_sep(words, ' ')
}

/// `KEY=VALUE` with the value quoted.
pub open spec fn assignment_word(pair: (Seq<char>, Seq<char>)) -> Seq<char> {
    pair.0 + seq!['='] + shell_quoted(pair.1)
}

/// The words of a shown command: the environment assignments, the program,
/// then the arguments, each quoted.
pub open spec fn command_words(
    program: Seq<char>,
    args: Seq<Seq<char>>,
    env: Seq<(Seq<char>, Seq<char>)>,
) -> Seq<Seq<char>> {
    env.map_values(|p: (Seq<char>, Seq<char>)| assignment_word(p)) + seq![shell_quoted(program)]
        + args.map_values(|a: Seq<char>| shell_quoted(a))
}

/// A command as shown to the user, preceded by `cd DIR &&` when it runs in a
/// directory of its own.
pub open spec fn displayed_command(
    program: Seq<char>,
    args: Seq<Seq<char>>,
    cwd: Option<Seq<char>>,
    env: Seq<(Seq<char>, Seq<char>)>,
) -> Seq<char> {
    let command = join_words(command_words(program, args, env));
    match cwd {
        Some(dir) => "cd "@ + shell_quoted(dir) + " && "@ + command,
        None => command,
    }
}

fn is_shell_safe_char(c: char) -> (r: bool)
    ensures
        r == is_shell_safe(c),
{
    ('a' <= c && c <= 'z') || ('A' <= c && c <= 'Z') || ('0' <= c && c <= '9') || c == '_' || c
        == '@' || c == '%' || c == '+' || c == '=' || c == ':' || c == ',' || c == '.' || c == '/'
        || c == '-'
}

/// Quotes a word for display the way a POSIX shell would read it back.
pub fn shell_quote(value: &str) -> (r: String)
    ensures
        r@ == shell_quoted(value@),
{
    let chars = chars_of(value);
    let n: usize = chars.len();
    let mut safe = n > 0;
    let mut i: usize = 0;
    while i < n
        invariant
            n == chars@.len(),
            chars@ == value@,
            i <= n,
            safe == (n > 0 && forall|j: int| 0 <= j < i ==> is_shell_safe(#[trigger] chars@[j])),
        decreases n - i,
    {
        if !is_shell_safe_char(chars[i]) {
            safe = false;
        }
        i = i + 1;
    }
    if safe {
        return owned(value);
    }
    let mut out: Vec<char> = Vec::new();
    out.push('\'');
    let mut k: usize = 0;
    while k < n
        invariant
            n == chars@.len(),
            k <= n,
            out@ == seq!['\''] + escape_quotes(chars@.take(k as int)),
        decreases n - k,
    {
        let c = chars[k];
        proof {
            assert(chars@.take(k + 1).drop_last() =~= chars@.take(k as int));
        }
        if c == '\'' {
            out.push('\'');
            out.push('"');
            out.push('\'');
            out.push('"');
            out.push('\'');
        } else {
            out.push(c);
        }
        k = k + 1;
        assert(out@ =~= seq!['\''] + escape_quotes(chars@.take(k as int)));
    }
    out.push('\'');
    assert(chars@.take(n as int) =~= chars@);
    assert(out@ =~= seq!['\''] + escape_quotes(value@) + seq!['\'']);
    string_of(out.as_slice())
}

/// Words joined by single spaces.
pub fn join_with_spaces(words: &[String]) -> (r: String)
    ensures
        r@ == join_words(words.deep_view()),
{
    join_strings(words, ' ')
}

/// Shows a command the way the user would type it into a POSIX shell.
pub fn display_command(
    program: &str,
    args: &[String],
    cwd: Option<&str>,
    env: &[(String, String)],
) -> (r: String)
    ensures
        r@ == displayed_command(
            program@,
            args.deep_view(),
            match cwd {
                Some(d) => Some(d@),
                None => None,
            },
            env.deep_view(),
        ),
{
    let mut parts: Vec<String> = Vec::new();
    let mut i: usize = 0;
    while i < env.len()
        invariant
            i <= env@.len(),
            parts.deep_view() == env.deep_view().take(i as int).map_values(
                |p: (Seq<char>, Seq<char>)| assignment_word(p),
            ),
        decreases env@.len() - i,
    {
        let ghost before = parts.deep_view();
        let (key, value) = &env[i];
        let mut word = key.clone();
        word.push('=');
        let quoted = shell_quote(value.as_str());
        word.push_str(quoted.as_str());
        assert(env.deep_view()[i as int] == (key@, value@));
        assert(word@ == assignment_word(env.deep_view()[i as int]));
        parts.push(word);
        i = i + 1;
        assert(parts.deep_view() =~= env.deep_view().take(i as int).map_values(
            |p: (Seq<char>, Seq<char>)| assignment_word(p),
        )) by {
            assert(parts.deep_view() =~= before.push(word@));
        }
    }
    let ghost env_words = parts.deep_view();
    parts.push(shell_quote(program));
    let ghost with_program = parts.deep_view();
    assert(with_program =~= env_words.push(shell_quoted(program@)));
    let mut j: usize = 0;
    while j < args.len()
        invariant
            j <= args@.len(),
            parts.deep_view() == with_program + args.deep_view().take(j as int).map_values(
                |a: Seq<char>| shell_quoted(a),
            ),
        decreases args@.len() - j,
    {
        let ghost before = parts.deep_view();
        let quoted = shell_quote(args[j].as_str());
        parts.push(quoted);
        j = j + 1;
        assert(parts.deep_view() =~= with_program + args.deep_view().take(j as int).map_values(
            |a: Seq<char>| shell_quoted(a),
        )) by {
            assert(parts.deep_view() =~= before.push(quoted@));
        }
    }
    assert(env.deep_view().take(env@.len() as int) =~= env.deep_view());
    assert(args.deep_view().take(args@.len() as int) =~= args.deep_view());
    assert(parts.deep_view() =~= command_words(program@, args.deep_view(), env.deep_view()));
    let command = join_with_spaces(parts.as_slice());
    match cwd {
        Some(dir) => {
            let mut shown = concat("cd ", shell_quote(dir).as_str());
            shown.push_str(" && ");
            shown.push_str(command.as_str());
            shown
        },
        None => command,
    }
}

// ---------------------------------------------------------------------------
// The environment of a process
// ---------------------------------------------------------------------------

/// The value that a list of assignments, applied in order, leaves for `key`.
pub open spec fn last_value(assignments: Seq<(Seq<char>, Seq<char>)>, key: Seq<char>) -> Option<Seq<char>>
    decreases assignments.len(),
{
    if assignments.len() == 0 {
        None
    } else if assignments.last().0 == key {
        Some(assignments.last().1)
    } else {
        last_value(assignments.drop_last(), key)
    }
}

/// The assignments a process receives, in the order they are applied: the
/// variables from an environment file first, then the runner's own, so
/// that the runner's settings (such as `GOWORK=off`) are never replaced.
pub fn command_environment(env: &[(String, String)], unprinted_env: &[(String, String)]) -> (r: Vec<(String, String)>)
    ensures
        r.deep_view() == unprinted_env.deep_view() + env.deep_view(),
{
    let mut r: Vec<(String, String)> = Vec::new();
    let mut i: usize = 0;
    while i < unprinted_env.len()
        invariant
            i <= unprinted_env@.len(),
            r.deep_view() == unprinted_env.deep_view().take(i as int),
        decreases unprinted_env@.len() - i,
    {
        let ghost before = r.deep_view();
        let (k, v) = &unprinted_env[i];
        r.push((k.clone(), v.clone()));
        i = i + 1;
        assert(r.deep_view() =~= unprinted_env.deep_view().take(i as int)) by {
            assert(r.deep_view() =~= before.push((k@, v@)));
        }
    }
    assert(unprinted_env.deep_view().take(unprinted_env@.len() as int) =~= unprinted_env.deep_view());
    let ghost first = r.deep_view();
    let mut j: usize = 0;
    while j < env.len()
        invariant
            j <= env@.len(),
            r.deep_view() == first + env.deep_view().take(j as int),
        decreases env@.len() - j,
    {
        let ghost before = r.deep_view();
        let (k, v) = &env[j];
        r.push((k.clone(), v.clone()));
        j = j + 1;
        assert(r.deep_view() =~= first + env.deep_view().take(j as int)) by {
            assert(r.deep_view() =~= before.push((k@, v@)));
        }
    }
    assert(env.deep_view().take(env@.len() as int) =~= env.deep_view());
    r
}

/// The runner's own variables win: a key that the runner sets has, once
/// all assignments are applied, the value the runner gave it last, whatever
/// the environment file holds; other keys keep the file's value.
pub proof fn lemma_runner_environment_wins(
    env: Seq<(Seq<char>, Seq<char>)>,
    file: Seq<(Seq<char>, Seq<char>)>,
    key: Seq<char>,
)
    ensures
        last_value(file + env, key) == match last_value(env, key) {
            Some(v) => Some(v),
            None => last_value(file, key),
        },
    decreases env.len(),
{
    if env.len() == 0 {
        assert(file + env =~= file);
    } else {
        assert((file + env).drop_last() =~= file + env.drop_last());
        assert((file + env).last() == env.last());
        lemma_runner_environment_wins(env.drop_last(), file, key);
    }
}

// ---------------------------------------------------------------------------
// Reading a shown word back
// ---------------------------------------------------------------------------

/// Where a POSIX shell stands while it reads a word.
pub enum QuoteState {
    /// Outside quotes.
    Plain,
    /// Inside single quotes.
    Single,
    /// Inside double quotes.
    Double,
}

/// `word` preceded by `prefix`, if there is a word.
pub open spec fn prefixed(prefix: Seq<char>, word: Option<Seq<char>>) -> Option<Seq<char>> {
    match word {
        Some(w) => Some(prefix + w),
        None => None,
    }
}

/// How a POSIX shell reads `s` as one word, starting in `state`: outside
/// quotes only shell-safe characters stand for themselves, single quotes
/// keep everything up to the closing quote, and double quotes keep every
/// character but the ones that stay special there (`$`, `` ` `` and `\`).
/// `None` when the text is not such a word or a quote is left open.
pub open spec fn shell_read_from(s: Seq<char>, state: QuoteState) -> Option<Seq<char>>
    decreases s.len(),
{
    if s.len() == 0 {
        if state is Plain {
            Some(seq![])
        } else {
            None
        }
    } else {
        let c = s[0];
        let rest = s.drop_first();
        match state {
            QuoteState::Plain => if c == '\'' {
                shell_read_from(rest, QuoteState::Single)
            } else if c == '"' {
                shell_read_from(rest, QuoteState::Double)
            } else if is_shell_safe(c) {
                prefixed(seq![c], shell_read_from(rest, QuoteState::Plain))
            } else {
                None
            },
            QuoteState::Single => if c == '\'' {
                shell_read_from(rest, QuoteState::Plain)
            } else {
                prefixed(seq![c], shell_read_from(rest, QuoteState::Single))
            },
            QuoteState::Double => if c == '"' {
                shell_read_from(rest, QuoteState::Plain)
            } else if c == '$' || c == '`' || c == '\\' {
                None
            } else {
                prefixed(seq![c], shell_read_from(rest, QuoteState::Double))
            },
        }
    }
}

/// How a POSIX shell reads `s` as one word.
pub open spec fn shell_read(s: Seq<char>) -> Option<Seq<char>> {
    shell_read_from(s, QuoteState::Plain)
}

/// Shell-safe characters read back as themselves.
proof fn lemma_read_safe(s: Seq<char>)
    requires
        forall|i: int| 0 <= i < s.len() ==> is_shell_safe(#[trigger] s[i]),
    ensures
        shell_read(s) == Some(s),
    decreases s.len(),
{
    if s.len() > 0 {
        let rest = s.drop_first();
        assert forall|i: int| 0 <= i < rest.len() implies is_shell_safe(#[trigger] rest[i]) by {
            assert(rest[i] == s[i + 1]);
        }
        assert(is_shell_safe(s[0]));
        lemma_read_safe(rest);
        assert(seq![s[0]] + rest =~= s);
    }
}

/// Inside single quotes, an escaped text reads back as the text it escapes,
/// followed by whatever the rest reads as.
proof fn lemma_read_escaped(v: Seq<char>, t: Seq<char>)
    ensures
        shell_read_from(escape_quotes(v) + t, QuoteState::Single) == prefixed(
            v,
            shell_read_from(t, QuoteState::Single),
        ),
    decreases v.len(),
{
    let x = shell_read_from(t, QuoteState::Single);
    if v.len() == 0 {
        assert(escape_quotes(v) + t =~= t);
        match x {
            Some(w) => assert(v + w =~= w),
            None => {},
        }
    } else {
        let front = v.drop_last();
        let c = v.last();
        let u = quote_piece(c) + t;
        lemma_read_escaped(front, u);
        assert(escape_quotes(v) + t =~= escape_quotes(front) + u);
        if c == '\'' {
            let s1 = u.drop_first();
            let s2 = s1.drop_first();
            let s3 = s2.drop_first();
            let s4 = s3.drop_first();
            assert(u[0] == '\'');
            assert(s1[0] == '"' && s2[0] == '\'' && s3[0] == '"' && s4[0] == '\'');
            assert(s4.drop_first() =~= t);
            assert(shell_read_from(s4, QuoteState::Plain) == x);
            assert(shell_read_from(s3, QuoteState::Double) == x);
            assert(shell_read_from(s2, QuoteState::Double) == prefixed(seq!['\''], x));
            assert(shell_read_from(s1, QuoteState::Plain) == prefixed(seq!['\''], x));
            assert(shell_read_from(u, QuoteState::Single) == prefixed(seq!['\''], x));
        } else {
            assert(u[0] == c);
            assert(u.drop_first() =~= t);
        }
        match x {
            Some(w) => {
                assert(front + (seq![c] + w) =~= v + w);
            },
            None => {},
        }
    }
}

/// A word as shown reads back, in a POSIX shell, as the word itself.
pub proof fn lemma_shown_words_read_back(word: Seq<char>)
    ensures
        shell_read(shell_quoted(word)) == Some(word),
{
    if shell_safe(word) {
        lemma_read_safe(word);
    } else {
        let closing = seq!['\''];
        lemma_read_escaped(word, closing);
        let quoted = seq!['\''] + escape_quotes(word) + closing;
        assert(quoted.drop_first() =~= escape_quotes(word) + closing);
        assert(closing.drop_first() =~= Seq::<char>::empty());
        assert(closing[0] == '\'');
        assert(shell_read_from(Seq::<char>::empty(), QuoteState::Plain) == Some(Seq::<char>::empty()));
        assert(shell_read_from(closing, QuoteState::Single) == Some(Seq::<char>::empty()));
        assert(quoted[0] == '\'');
        assert(word + Seq::<char>::empty() =~= word);
    }
}

} // verus!
