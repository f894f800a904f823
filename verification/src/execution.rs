//! The context of the final code process: its working directory and the
//! variables loaded from an environment file. Resolving the directory and
//! reading the file are done by the caller; judging what came back, and
//! parsing the file's contents, are done here.

use vstd::prelude::*;
use crate::text::{collect_all, concat, lemma_collect_prefix_err, lemma_collect_step};

verus! {

broadcast use vstd::string::group_string_axioms;

/// Where and with which extra variables the final code process runs.
#[derive(Debug, Default)]
pub struct ExecutionContext {
    working_directory: Option<String>,
    environment: Vec<(String, String)>,
}

/// The abstract value of an `ExecutionContext`.
pub struct ExecutionView {
    pub working_directory: Option<Seq<char>>,
    pub environment: Seq<(Seq<char>, Seq<char>)>,
}

impl View for ExecutionContext {
    type V = ExecutionView;

    closed spec fn view(&self) -> ExecutionView {
        ExecutionView {
            working_directory: self.working_directory.deep_view(),
            environment: self.environment.deep_view(),
        }
    }
}

/// What resolving a `--cwd` path came to.
pub enum DirectoryProbe {
    /// The path resolved to `path`; `is_dir` tells whether that is a directory.
    Resolved { path: String, is_dir: bool },
    /// The path could not be resolved; `error` describes why.
    Unresolved { error: String },
}

/// What reading an `--env-file` came to.
pub enum EnvFileRead {
    /// The file's bytes.
    Read { bytes: Vec<u8> },
    /// The file could not be opened; `error` describes why.
    Unreadable { error: String },
}

/// The working directory that a probe yields, or the message for the user.
pub open spec fn directory_result(path: Seq<char>, probe: DirectoryProbe) -> Result<Seq<char>, Seq<char>> {
    match probe {
        DirectoryProbe::Resolved { path: resolved, is_dir } => if is_dir {
            Ok(resolved@)
        } else {
            Err("working directory is not a directory: "@ + path)
        },
        DirectoryProbe::Unresolved { error } => Err(
            "failed to resolve working directory "@ + path + ": "@ + error@,
        ),
    }
}

/// Judges a resolved `--cwd`: it must exist and be a directory.
pub fn canonical_directory(path: &str, probe: DirectoryProbe) -> (r: Result<String, String>)
    ensures
        match r {
            Ok(dir) => directory_result(path@, probe) == Ok::<_, Seq<char>>(dir@),
            Err(m) => directory_result(path@, probe) == Err::<Seq<char>, _>(m@),
        },
{
    match probe {
        DirectoryProbe::Resolved { path: resolved, is_dir } => if is_dir {
            Ok(resolved)
        } else {
            Err(concat("working directory is not a directory: ", path))
        },
        DirectoryProbe::Unresolved { error } => {
            let mut m = concat("failed to resolve working directory ", path);
            m.push_str(": ");
            m.push_str(error.as_str());
            Err(m)
        },
    }
}

/// What dotenvy's parser yields for the contents of an environment file
/// without `$`: each entry, or an error's `Display` text, in order.
pub uninterp spec fn dotenv_parse(bytes: Seq<u8>) -> Seq<Result<(Seq<char>, Seq<char>), Seq<char>>>;

/// Calls dotenvy's `from_read_iter` on the contents of an environment file
/// and gathers every item that its iterator yields, in order, each error as
/// its `Display` text. For contents without `$` the items are named
/// `dotenv_parse` of the bytes: the parser consults the process environment
/// only to substitute a `$NAME` reference (and, at the end of each value, the
/// empty name, which no environment holds). With a `$` nothing is stated,
/// since the same bytes can then give different values.
#[verifier::external_body]
fn dotenv_items(bytes: &[u8]) -> (r: Vec<Result<(String, String), String>>)
    ensures
        !bytes@.contains(36u8) ==> items_view(r@) == dotenv_parse(bytes@),
{
    dotenvy::from_read_iter(bytes).map(|item| item.map_err(|e| e.to_string())).collect()
}

/// The message for an environment file whose contents do not parse.
pub open spec fn env_parse_message(path: Seq<char>, error: Seq<char>) -> Seq<char> {
    "failed to parse environment file "@ + path + ": "@ + error
}

/// The message for an environment file that cannot be opened.
pub open spec fn env_read_message(path: Seq<char>, error: Seq<char>) -> Seq<char> {
    "failed to read environment file "@ + path + ": "@ + error
}

/// An item that the parser yielded, as plain values.
pub open spec fn item_view(item: Result<(String, String), String>) -> Result<(Seq<char>, Seq<char>), Seq<char>> {
    match item {
        Ok((key, value)) => Ok((key@, value@)),
        Err(e) => Err(e@),
    }
}

/// The items of an environment file as plain values.
pub open spec fn items_view(items: Seq<Result<(String, String), String>>) -> Seq<Result<(Seq<char>, Seq<char>), Seq<char>>> {
    items.map_values(|item: Result<(String, String), String>| item_view(item))
}

/// Every entry that the parser yielded, or the message naming the file for
/// the first error among them.
pub open spec fn env_entries(path: Seq<char>, items: Seq<Result<(Seq<char>, Seq<char>), Seq<char>>>) -> Result<Seq<(Seq<char>, Seq<char>)>, Seq<char>> {
    match collect_all(items, |item: Result<(Seq<char>, Seq<char>), Seq<char>>| item) {
        Ok(entries) => Ok(entries),
        Err(e) => Err(env_parse_message(path, e)),
    }
}

/// The entries or the message that loading an environment file gave, as
/// plain values.
pub open spec fn entries_view(r: Result<Vec<(String, String)>, String>) -> Result<Seq<(Seq<char>, Seq<char>)>, Seq<char>> {
    match r {
        Ok(entries) => Ok(entries.deep_view()),
        Err(m) => Err(m@),
    }
}

/// Judges what the parser yielded for an environment file: all its entries,
/// or the message for the first error.
pub fn env_file_entries(path: &str, items: Vec<Result<(String, String), String>>) -> (r: Result<Vec<(String, String)>, String>)
    ensures
        entries_view(r) == env_entries(path@, items_view(items@)),
{
    let ghost all = items_view(items@);
    let ghost id = |item: Result<(Seq<char>, Seq<char>), Seq<char>>| item;
    let mut entries: Vec<(String, String)> = Vec::new();
    let mut i: usize = 0;
    assert(all.take(0) =~= Seq::<Result<(Seq<char>, Seq<char>), Seq<char>>>::empty());
    assert(entries.deep_view() =~= Seq::<(Seq<char>, Seq<char>)>::empty());
    while i < items.len()
        invariant
            i <= items@.len(),
            all == items_view(items@),
            id == (|item: Result<(Seq<char>, Seq<char>), Seq<char>>| item),
            collect_all(all.take(i as int), id) == Ok::<_, Seq<char>>(entries.deep_view()),
        decreases items@.len() - i,
    {
        proof {
            lemma_collect_step(all, id, i as int);
        }
        match &items[i] {
            Ok((key, value)) => {
                let ghost before = entries.deep_view();
                entries.push((key.clone(), value.clone()));
                assert(entries.deep_view() =~= before.push((key@, value@)));
            },
            Err(e) => {
                proof {
                    lemma_collect_prefix_err(all, id, i + 1);
                }
                let mut m = concat("failed to parse environment file ", path);
                m.push_str(": ");
                m.push_str(e.as_str());
                return Err(m);
            },
        }
        i = i + 1;
    }
    assert(all.take(items@.len() as int) =~= all);
    Ok(entries)
}

/// Loads an environment file from what reading it gave. A file that cannot
/// be opened is refused with a message naming it; otherwise the contents are
/// parsed by dotenvy, and a parse error is refused with a message naming it.
/// Contents without `$` give what the parser yields for those bytes.
pub fn read_env_file(path: &str, read: EnvFileRead) -> (r: Result<Vec<(String, String)>, String>)
    ensures
        match read {
            EnvFileRead::Unreadable { error } => entries_view(r) == Err::<
                Seq<(Seq<char>, Seq<char>)>,
                _,
            >(env_read_message(path@, error@)),
            EnvFileRead::Read { bytes } => {
                &&& exists|items: Seq<Result<(Seq<char>, Seq<char>), Seq<char>>>|
                    #![trigger env_entries(path@, items)]
                    entries_view(r) == env_entries(path@, items)
                &&& !bytes@.contains(36u8) ==> entries_view(r) == env_entries(
                    path@,
                    dotenv_parse(bytes@),
                )
            },
        },
{
    match read {
        EnvFileRead::Read { bytes } => {
            let items = dotenv_items(bytes.as_slice());
            let ghost seen = items_view(items@);
            let r = env_file_entries(path, items);
            assert(entries_view(r) == env_entries(path@, seen));
            r
        },
        EnvFileRead::Unreadable { error } => {
            let mut m = concat("failed to read environment file ", path);
            m.push_str(": ");
            m.push_str(error.as_str());
            Err(m)
        },
    }
}

/// The working directory chosen for the final process: the given one, or
/// `fallback`.
pub open spec fn chosen_cwd(exec: ExecutionView, fallback: Seq<char>) -> Seq<char> {
    match exec.working_directory {
        Some(d) => d,
        None => fallback,
    }
}

/// No `--cwd` was given, or it resolved to a directory.
pub open spec fn directory_accepted(cwd: Option<(&str, DirectoryProbe)>) -> bool {
    match cwd {
        Some((p, probe)) => directory_result(p@, probe) is Ok,
        None => true,
    }
}

impl ExecutionContext {
    /// A context with the given working directory and variables.
    pub fn new(working_directory: Option<String>, environment: Vec<(String, String)>) -> (r: Self)
        ensures
            r@.working_directory == working_directory.deep_view(),
            r@.environment == environment.deep_view(),
    {
        ExecutionContext { working_directory, environment }
    }

    /// Builds the context from what resolving `--cwd` and reading
    /// `--env-file` gave, each paired with the path the user wrote. The
    /// directory is judged first; its error wins over the file's.
    pub fn load(
        cwd: Option<(&str, DirectoryProbe)>,
        env_file: Option<(&str, EnvFileRead)>,
    ) -> (r: Result<Self, String>)
        ensures
            match cwd {
                Some((p, probe)) => match directory_result(p@, probe) {
                    Err(m) => r matches Err(e) && e@ == m,
                    Ok(d) => r matches Ok(ctx) ==> ctx@.working_directory == Some(d),
                },
                None => r matches Ok(ctx) ==> ctx@.working_directory is None,
            },
            directory_accepted(cwd) ==> match env_file {
                None => r matches Ok(ctx) && ctx@.environment.len() == 0,
                Some((f, read)) => match read {
                    EnvFileRead::Unreadable { error } => r matches Err(e) && e@ == env_read_message(f@, error@),
                    EnvFileRead::Read { bytes } => {
                        &&& exists|items: Seq<Result<(Seq<char>, Seq<char>), Seq<char>>>|
                            #![trigger env_entries(f@, items)]
                            match r {
                                Ok(ctx) => env_entries(f@, items) == Ok::<_, Seq<char>>(ctx@.environment),
                                Err(e) => env_entries(f@, items) == Err::<Seq<(Seq<char>, Seq<char>)>, _>(e@),
                            }
                        &&& !bytes@.contains(36u8) ==> match r {
                            Ok(ctx) => env_entries(f@, dotenv_parse(bytes@)) == Ok::<_, Seq<char>>(
                                ctx@.environment,
                            ),
                            Err(e) => env_entries(f@, dotenv_parse(bytes@)) == Err::<
                                Seq<(Seq<char>, Seq<char>)>,
                                _,
                            >(e@),
                        }
                    },
                },
            },
    {
        let working_directory = match cwd {
            Some((path, probe)) => match canonical_directory(path, probe) {
                Ok(dir) => Some(dir),
                Err(m) => return Err(m),
            },
            None => None,
        };
        let environment = match env_file {
            Some((path, read)) => match read_env_file(path, read) {
                Ok(entries) => entries,
                Err(m) => return Err(m),
            },
            None => Vec::new(),
        };
        Ok(ExecutionContext { working_directory, environment })
    }

    /// The working directory for the final process: the one given, or
    /// `fallback`.
    pub fn cwd_or<'a>(&'a self, fallback: &'a str) -> (r: &'a str)
        ensures
            r@ == chosen_cwd(self@, fallback@),
    {
        match &self.working_directory {
            Some(dir) => dir.as_str(),
            None => fallback,
        }
    }

    /// Whether a working directory was given.
    pub fn has_custom_cwd(&self) -> (r: bool)
        ensures
            r == self@.working_directory is Some,
    {
        self.working_directory.is_some()
    }

    /// The variables loaded for the final process.
    pub fn environment(&self) -> (r: &[(String, String)])
        ensures
            r.deep_view() == self@.environment,
    {
        self.environment.as_slice()
    }
}

} // verus!
