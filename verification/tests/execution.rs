use run_code::execution::{
    canonical_directory, env_file_entries, read_env_file, DirectoryProbe, EnvFileRead, ExecutionContext,
};
use run_code::skill::SKILL_MD;

#[test]
fn loads_quoted_and_escaped_environment_values_without_mutating_process() {
    let bytes = b"RUN_CODE_CONTEXT_TEST='hello world'\nESCAPED=hello\\ world\n".to_vec();
    let context = ExecutionContext::load(
        Some(("dir", DirectoryProbe::Resolved { path: "/resolved/dir".to_string(), is_dir: true })),
        Some(("snippet.env", EnvFileRead::Read { bytes })),
    )
    .unwrap();
    assert_eq!(context.cwd_or("fallback"), "/resolved/dir");
    assert!(context.has_custom_cwd());
    assert_eq!(
        context.environment(),
        [
            ("RUN_CODE_CONTEXT_TEST".to_string(), "hello world".to_string()),
            ("ESCAPED".to_string(), "hello world".to_string())
        ]
    );
}

#[test]
fn rejects_missing_or_non_directory_working_directories() {
    let missing = ExecutionContext::load(
        Some((
            "run-code-missing-directory",
            DirectoryProbe::Unresolved { error: "No such file or directory (os error 2)".to_string() },
        )),
        None,
    );
    assert_eq!(
        missing.unwrap_err(),
        "failed to resolve working directory run-code-missing-directory: No such file or directory (os error 2)"
    );

    let not_directory = ExecutionContext::load(
        Some(("file.txt", DirectoryProbe::Resolved { path: "/abs/file.txt".to_string(), is_dir: false })),
        None,
    );
    assert_eq!(not_directory.unwrap_err(), "working directory is not a directory: file.txt");
}

#[test]
fn without_options_the_fallback_directory_is_used() {
    let context = ExecutionContext::load(None, None).unwrap();
    assert_eq!(context.cwd_or("fallback"), "fallback");
    assert!(!context.has_custom_cwd());
    assert!(context.environment().is_empty());
    assert_eq!(canonical_directory("d", DirectoryProbe::Resolved { path: "/d".to_string(), is_dir: true }).unwrap(), "/d");
}

#[test]
fn unreadable_and_malformed_environment_files_are_refused() {
    let unreadable = read_env_file("missing.env", EnvFileRead::Unreadable { error: "not found".to_string() });
    assert_eq!(unreadable.unwrap_err(), "failed to read environment file missing.env: not found");

    let malformed = read_env_file("bad.env", EnvFileRead::Read { bytes: b"NOT VALID LINE\n".to_vec() });
    assert!(malformed.unwrap_err().starts_with("failed to parse environment file bad.env: "));

    let comments = read_env_file("c.env", EnvFileRead::Read { bytes: b"# comment\nA=1\n\nB=\"two words\"\n".to_vec() });
    assert_eq!(
        comments.unwrap(),
        [("A".to_string(), "1".to_string()), ("B".to_string(), "two words".to_string())]
    );
}

#[test]
fn embedded_skill_has_the_expected_identity() {
    let mut lines = SKILL_MD.lines();
    assert_eq!(lines.next(), Some("---"));
    assert_eq!(lines.next(), Some("name: run-code-snippet"));
    assert!(SKILL_MD.contains("run-code TOOLCHAIN[@VERSION]"));
}

#[test]
fn the_first_parse_error_names_the_file() {
    let items = vec![
        Ok(("A".to_string(), "1".to_string())),
        Err("bad".to_string()),
        Err("worse".to_string()),
    ];
    assert_eq!(
        env_file_entries("f.env", items).unwrap_err(),
        "failed to parse environment file f.env: bad"
    );
    let items = vec![Ok(("A".to_string(), "1".to_string())), Ok(("B".to_string(), "2".to_string()))];
    assert_eq!(
        env_file_entries("f.env", items).unwrap(),
        [("A".to_string(), "1".to_string()), ("B".to_string(), "2".to_string())]
    );
}
