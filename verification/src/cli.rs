//! The command-line model: which toolchain is selected, how a
//! `TOOLCHAIN[@VERSION]` argument is read, and which combinations of options
//! are refused before anything runs.

use vstd::prelude::*;
use crate::text::{
    chars_eq, chars_of, concat, find, lemma_first_char, lemma_no_char, owned,
    split_once, string_of, sub_chars,
};

verus! {

broadcast use vstd::string::group_string_axioms;

/// The Python version used when none is requested.
pub const DEFAULT_PYTHON_TOOLCHAIN: &'static str = "3.14";
/// The Node version used when none is requested.
pub const DEFAULT_NODE_TOOLCHAIN: &'static str = "latest";
/// The Rust toolchain used when none is requested.
pub const DEFAULT_RUST_TOOLCHAIN: &'static str = "stable";
/// The Go version used when none is requested.
pub const DEFAULT_GO_TOOLCHAIN: &'static str = "latest";
/// The .NET version used when none is requested.
pub const DEFAULT_DOTNET_TOOLCHAIN: &'static str = "10";

/// The language backends a snippet can run with.
#[derive(Debug, Clone, Copy, PartialEq, Eq, Structural)]
pub enum ToolchainKind {
    Python,
    Node,
    Rust,
    Go,
    Dotnet,
}

/// A selected toolchain and the version requested for it.
#[derive(Debug, Clone)]
pub struct ToolchainSpec {
    pub kind: ToolchainKind,
    pub version: String,
}

/// What `format!("{:?}", s)` produces for a string slice `s`: the slice in
/// double quotes, escaped as `char::escape_debug` escapes characters, except
/// that a single quote is left as it is.
pub uninterp spec fn debug_quoted(s: Seq<char>) -> Seq<char>;

/// Calls std's `Debug` formatting of a string slice (`format!("{:?}", s)`);
/// the result is stated only as `debug_quoted` of the argument.
#[verifier::external_body]
pub(crate) fn debug_str(s: &str) -> (r: String)
    ensures
        r@ == debug_quoted(s@),
{
    format!("{:?}", s)
}

/// The toolchain that a name selects, aliases included.
pub open spec fn kind_named(name: Seq<char>) -> Option<ToolchainKind> {
    if name == "python"@ || name == "py"@ {
        Some(ToolchainKind::Python)
    } else if name == "node"@ || name == "javascript"@ || name == "typescript"@ {
        Some(ToolchainKind::Node)
    } else if name == "rust"@ {
        Some(ToolchainKind::Rust)
    } else if name == "go"@ {
        Some(ToolchainKind::Go)
    } else if name == "dotnet"@ || name == "csharp"@ || name == "cs"@ {
        Some(ToolchainKind::Dotnet)
    } else {
        None
    }
}

/// The version used when a toolchain is named without one.
pub open spec fn default_version(kind: ToolchainKind) -> Seq<char> {
    match kind {
        ToolchainKind::Python => DEFAULT_PYTHON_TOOLCHAIN@,
        ToolchainKind::Node => DEFAULT_NODE_TOOLCHAIN@,
        ToolchainKind::Rust => DEFAULT_RUST_TOOLCHAIN@,
        ToolchainKind::Go => DEFAULT_GO_TOOLCHAIN@,
        ToolchainKind::Dotnet => DEFAULT_DOTNET_TOOLCHAIN@,
    }
}

/// The message for a toolchain name that selects nothing.
pub open spec fn unsupported_message(name: Seq<char>) -> Seq<char> {
    "unsupported toolchain "@ + debug_quoted(name)
        + "; expected python, node, javascript, typescript, rust, go, or dotnet"@
}

/// Reading `NAME` or `NAME@VERSION`: the name is cut at the first `@`, both
/// sides must be non-empty, the name must select a toolchain, and a missing
/// version is the toolchain's default.
pub open spec fn parse_toolchain(value: Seq<char>) -> Result<(ToolchainKind, Seq<char>), Seq<char>> {
    match split_once(value, seq!['@']) {
        Some((name, version)) => if name.len() == 0 || version.len() == 0 {
            Err("invalid toolchain specification: "@ + value)
        } else {
            match kind_named(name) {
                Some(kind) => Ok((kind, version)),
                None => Err(unsupported_message(name)),
            }
        },
        None => match kind_named(value) {
            Some(kind) => Ok((kind, default_version(kind))),
            None => Err(unsupported_message(value)),
        },
    }
}

fn name_is(name: &[char], candidate: &str) -> (r: bool)
    ensures
        r == (name@ == candidate@),
{
    let c = chars_of(candidate);
    chars_eq(name, c.as_slice())
}

/// The toolchain that a name selects.
pub fn toolchain_kind_named(name: &[char]) -> (r: Option<ToolchainKind>)
    ensures
        r == kind_named(name@),
{
    if name_is(name, "python") || name_is(name, "py") {
        Some(ToolchainKind::Python)
    } else if name_is(name, "node") || name_is(name, "javascript") || name_is(name, "typescript") {
        Some(ToolchainKind::Node)
    } else if name_is(name, "rust") {
        Some(ToolchainKind::Rust)
    } else if name_is(name, "go") {
        Some(ToolchainKind::Go)
    } else if name_is(name, "dotnet") || name_is(name, "csharp") || name_is(name, "cs") {
        Some(ToolchainKind::Dotnet)
    } else {
        None
    }
}

/// The version used when a toolchain is named without one.
pub fn default_toolchain_version(kind: ToolchainKind) -> (r: String)
    ensures
        r@ == default_version(kind),
{
    match kind {
        ToolchainKind::Python => owned(DEFAULT_PYTHON_TOOLCHAIN),
        ToolchainKind::Node => owned(DEFAULT_NODE_TOOLCHAIN),
        ToolchainKind::Rust => owned(DEFAULT_RUST_TOOLCHAIN),
        ToolchainKind::Go => owned(DEFAULT_GO_TOOLCHAIN),
        ToolchainKind::Dotnet => owned(DEFAULT_DOTNET_TOOLCHAIN),
    }
}

fn unsupported(name: &[char]) -> (r: String)
    ensures
        r@ == unsupported_message(name@),
{
    let text = string_of(name);
    let quoted = debug_str(text.as_str());
    let mut r = owned("unsupported toolchain ");
    r.push_str(quoted.as_str());
    r.push_str("; expected python, node, javascript, typescript, rust, go, or dotnet");
    r
}

impl ToolchainSpec {
    /// Reads a `NAME` or `NAME@VERSION` argument.
    pub fn parse(value: &str) -> (r: Result<ToolchainSpec, String>)
        ensures
            match r {
                Ok(spec) => parse_toolchain(value@) == Ok::<_, Seq<char>>((spec.kind, spec.version@)),
                Err(message) => parse_toolchain(value@) == Err::<(ToolchainKind, Seq<char>), _>(message@),
            },
    {
        let chars = chars_of(value);
        let at: Vec<char> = vec!['@'];
        let ps = at.as_slice();
        assert(ps@ =~= seq!['@']);
        match find(chars.as_slice(), ps) {
            Some(i) => {
                let name = sub_chars(chars.as_slice(), 0, i);
                let n = chars.len();
                let version = sub_chars(chars.as_slice(), i + 1, n);
                proof {
                    assert(name@ =~= value@.take(i as int));
                    assert(version@ =~= value@.skip(i + 1));
                }
                if name.len() == 0 || version.len() == 0 {
                    return Err(concat("invalid toolchain specification: ", value));
                }
                match toolchain_kind_named(name.as_slice()) {
                    Some(kind) => Ok(ToolchainSpec { kind, version: string_of(version.as_slice()) }),
                    None => Err(unsupported(name.as_slice())),
                }
            },
            None => {
                match toolchain_kind_named(chars.as_slice()) {
                    Some(kind) => Ok(ToolchainSpec { kind, version: default_toolchain_version(kind) }),
                    None => Err(unsupported(chars.as_slice())),
                }
            },
        }
    }
}

impl std::str::FromStr for ToolchainSpec {
    type Err = String;

    fn from_str(value: &str) -> (r: Result<Self, Self::Err>)
        ensures
            match r {
                Ok(spec) => parse_toolchain(value@) == Ok::<_, Seq<char>>((spec.kind, spec.version@)),
                Err(message) => parse_toolchain(value@) == Err::<(ToolchainKind, Seq<char>), _>(message@),
            },
    {
        ToolchainSpec::parse(value)
    }
}

/// The subcommands.
#[derive(Debug, Clone, Copy, PartialEq, Eq, Structural)]
pub enum Command {
    /// Print the bundled skill document.
    Skill,
}

/// The parsed command line.
pub struct Cli {
    pub command: Option<Command>,
    /// Runtime/compiler in NAME or NAME@VERSION form.
    pub toolchain: Option<ToolchainSpec>,
    /// Source file to copy into the project; stdin when absent.
    pub source: Option<String>,
    /// Arguments passed to the snippet.
    pub args: Vec<String>,
    /// Working directory for the final code process.
    pub cwd: Option<String>,
    /// Environment file for the final code process.
    pub env_file: Option<String>,
    /// Dependency specifications.
    pub packages: Vec<String>,
    pub commonjs: bool,
    pub clean: bool,
    pub quiet: bool,
}

/// The skill command was given together with execution options.
pub open spec fn skill_has_execution_arguments(cli: Cli) -> bool {
    ||| cli.toolchain is Some
    ||| cli.packages@.len() > 0
    ||| cli.commonjs
    ||| cli.clean
    ||| cli.quiet
    ||| cli.source is Some
    ||| cli.args@.len() > 0
    ||| cli.cwd is Some
    ||| cli.env_file is Some
}

/// Why a command line is refused before anything runs, if it is.
pub open spec fn validation_message(cli: Cli) -> Option<Seq<char>> {
    if cli.command is Some {
        if skill_has_execution_arguments(cli) {
            Some("the skill command does not accept execution arguments"@)
        } else {
            None
        }
    } else if cli.toolchain is None {
        Some("missing required TOOLCHAIN[@VERSION] or the skill command"@)
    } else if cli.commonjs && cli.toolchain->0.kind != ToolchainKind::Node {
        Some("--commonjs is only valid with the node toolchain"@)
    } else {
        None
    }
}

impl Cli {
    /// The selected toolchain; it is present once the command line validated.
    pub fn toolchain(&self) -> (r: &ToolchainSpec)
        requires
            self.toolchain is Some,
        ensures
            *r == self.toolchain->0,
    {
        self.toolchain.as_ref().expect("toolchain is validated before execution")
    }

    /// Why this command line is refused, if it is.
    pub fn validation_error(&self) -> (r: Option<String>)
        ensures
            match r {
                Some(message) => validation_message(*self) == Some(message@),
                None => validation_message(*self) is None,
            },
    {
        if self.command.is_some() {
            if self.toolchain.is_some() || self.packages.len() > 0 || self.commonjs || self.clean
                || self.quiet || self.source.is_some() || self.args.len() > 0 || self.cwd.is_some()
                || self.env_file.is_some() {
                Some(owned("the skill command does not accept execution arguments"))
            } else {
                None
            }
        } else if self.toolchain.is_none() {
            Some(owned("missing required TOOLCHAIN[@VERSION] or the skill command"))
        } else if self.commonjs && self.toolchain().kind != ToolchainKind::Node {
            Some(owned("--commonjs is only valid with the node toolchain"))
        } else {
            None
        }
    }
}

/// A supported toolchain name is not empty and holds no `@`.
proof fn lemma_names_have_no_at(name: Seq<char>)
    requires
        kind_named(name) is Some,
    ensures
        !name.contains('@'),
        name.len() > 0,
{
    reveal_strlit("python");
    reveal_strlit("py");
    reveal_strlit("node");
    reveal_strlit("javascript");
    reveal_strlit("typescript");
    reveal_strlit("rust");
    reveal_strlit("go");
    reveal_strlit("dotnet");
    reveal_strlit("csharp");
    reveal_strlit("cs");
}

/// A toolchain named without a version runs with that toolchain's default
/// version; named as `NAME@VERSION` it runs with exactly `VERSION`, whatever
/// characters (`@` among them) the version holds.
pub proof fn lemma_toolchain_versions(name: Seq<char>, version: Seq<char>)
    requires
        kind_named(name) is Some,
        version.len() > 0,
    ensures
        parse_toolchain(name) == Ok::<_, Seq<char>>(
            (kind_named(name)->0, default_version(kind_named(name)->0)),
        ),
        parse_toolchain(name + seq!['@'] + version) == Ok::<_, Seq<char>>(
            (kind_named(name)->0, version),
        ),
{
    lemma_names_have_no_at(name);
    lemma_no_char(name, '@');
    let value = name + seq!['@'] + version;
    assert forall|j: int| 0 <= j < name.len() implies value[j] != '@' by {
        assert(value[j] == name[j]);
    }
    lemma_first_char(value, '@', name.len() as int);
    assert(value.take(name.len() as int) =~= name);
    assert(value.skip(name.len() as int + 1) =~= version);
    assert(split_once(value, seq!['@']) == Some((name, version)));
}

/// The aliases select the same toolchain as the names they stand for, with
/// or without a version: `py` is `python`; `javascript` and `typescript` are
/// `node`; `csharp` and `cs` are `dotnet`.
pub proof fn lemma_toolchain_aliases(version: Seq<char>)
    requires
        version.len() > 0,
    ensures
        parse_toolchain("py"@) == parse_toolchain("python"@),
        parse_toolchain("javascript"@) == parse_toolchain("node"@),
        parse_toolchain("typescript"@) == parse_toolchain("node"@),
        parse_toolchain("csharp"@) == parse_toolchain("dotnet"@),
        parse_toolchain("cs"@) == parse_toolchain("dotnet"@),
        parse_toolchain("py"@ + seq!['@'] + version) == parse_toolchain(
            "python"@ + seq!['@'] + version,
        ),
        parse_toolchain("javascript"@ + seq!['@'] + version) == parse_toolchain(
            "node"@ + seq!['@'] + version,
        ),
        parse_toolchain("typescript"@ + seq!['@'] + version) == parse_toolchain(
            "node"@ + seq!['@'] + version,
        ),
        parse_toolchain("csharp"@ + seq!['@'] + version) == parse_toolchain(
            "dotnet"@ + seq!['@'] + version,
        ),
        parse_toolchain("cs"@ + seq!['@'] + version) == parse_toolchain(
            "dotnet"@ + seq!['@'] + version,
        ),
{
    reveal_strlit("python");
    reveal_strlit("py");
    reveal_strlit("node");
    reveal_strlit("javascript");
    reveal_strlit("typescript");
    reveal_strlit("rust");
    reveal_strlit("go");
    reveal_strlit("dotnet");
    reveal_strlit("csharp");
    reveal_strlit("cs");
    assert("dotnet"@[0] != "python"@[0]);
    assert("csharp"@[0] != "python"@[0]);
    assert("cs"@[0] != "py"@[0]);
    assert("cs"@[0] != "go"@[0]);
    assert(kind_named("python"@) == Some(ToolchainKind::Python));
    assert(kind_named("py"@) == Some(ToolchainKind::Python));
    assert(kind_named("node"@) == Some(ToolchainKind::Node));
    assert(kind_named("javascript"@) == Some(ToolchainKind::Node));
    assert(kind_named("typescript"@) == Some(ToolchainKind::Node));
    assert(kind_named("dotnet"@) == Some(ToolchainKind::Dotnet));
    assert(kind_named("csharp"@) == Some(ToolchainKind::Dotnet));
    assert(kind_named("cs"@) == Some(ToolchainKind::Dotnet));
    lemma_toolchain_versions("py"@, version);
    lemma_toolchain_versions("python"@, version);
    lemma_toolchain_versions("javascript"@, version);
    lemma_toolchain_versions("typescript"@, version);
    lemma_toolchain_versions("node"@, version);
    lemma_toolchain_versions("csharp"@, version);
    lemma_toolchain_versions("cs"@, version);
    lemma_toolchain_versions("dotnet"@, version);
}

/// A command line that validates and names no subcommand has a toolchain,
/// and `--commonjs` appears on it only with Node: choosing its backend
/// cannot fail.
pub proof fn lemma_validated_runs_have_a_backend(cli: Cli)
    requires
        validation_message(cli) is None,
        cli.command is None,
    ensures
        cli.toolchain is Some,
        !(cli.commonjs && cli.toolchain->0.kind != ToolchainKind::Node),
{
}

} // verus!
