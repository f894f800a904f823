use run_code::plan::{advance, announcement, Invocation, Outcome, Progress, Step};
use run_code::process::{
    command_environment, display_command, exit_code_of, run_checked, run_checked_hidden,
    run_final, shell_quote, ProcessResult, RunFailure, StartError,
};
use run_code::util::{
    mise_install_hint, program_install_hint, rustup_install_hint, strings, uv_install_hint,
    vp_install_hint, Platform,
};

fn pairs(values: &[(&str, &str)]) -> Vec<(String, String)> {
    values.iter().map(|(k, v)| (k.to_string(), v.to_string())).collect()
}

fn last_value<'a>(env: &'a [(String, String)], key: &str) -> Option<&'a str> {
    env.iter().rev().find(|(k, _)| k == key).map(|(_, v)| v.as_str())
}

fn invocation(program: &str) -> Invocation {
    Invocation { program: program.to_string(), args: Vec::new(), cwd: None, env: Vec::new() }
}

#[test]
fn displayed_command_contains_cwd_env_and_quoted_args() {
    let args = vec!["run".to_string(), "hello world".to_string()];
    let env = pairs(&[("MODE", "test value")]);
    let shown = display_command("tool", &args, Some("/tmp/my dir"), &env);
    assert_eq!(shown, "cd '/tmp/my dir' && MODE='test value' tool run 'hello world'");
}

#[test]
fn missing_program_is_reported_structurally() {
    let error = run_final(
        "run-code-program-that-does-not-exist",
        Err(StartError { not_found: true, error: "No such file or directory (os error 2)".to_string() }),
    )
    .unwrap_err();
    assert_eq!(error.missing_program.as_deref(), Some("run-code-program-that-does-not-exist"));
}

#[test]
fn unprinted_environment_is_applied_but_not_displayed() {
    let shown = display_command("tool", &[], None, &[]);
    assert_eq!(shown, "tool");

    let applied = command_environment(
        &pairs(&[("VISIBLE", "runner")]),
        &pairs(&[("SECRET", "hidden"), ("VISIBLE", "file")]),
    );
    let mut keys: Vec<&str> = applied.iter().map(|(k, _)| k.as_str()).collect();
    keys.sort();
    keys.dedup();
    assert_eq!(keys.len(), 2);
    assert_eq!(last_value(&applied, "VISIBLE"), Some("runner"));
    assert_eq!(last_value(&applied, "SECRET"), Some("hidden"));
}

#[test]
fn shell_quoting_keeps_safe_words_and_quotes_the_rest() {
    assert_eq!(shell_quote("abc_@%+=:,./-XYZ09"), "abc_@%+=:,./-XYZ09");
    assert_eq!(shell_quote(""), "''");
    assert_eq!(shell_quote("a b"), "'a b'");
    assert_eq!(shell_quote("it's"), "'it'\"'\"'s'");
    assert_eq!(shell_quote("é"), "'é'");
}

#[test]
fn judging_setup_and_final_outcomes() {
    let ok = ProcessResult { success: true, exit_code: Some(0) };
    let failed = ProcessResult { success: false, exit_code: Some(3) };
    assert!(run_checked("install", "uv", Ok(ok)).is_ok());
    let error = run_checked_hidden("initialize uv project", "uv", Ok(failed)).unwrap_err();
    assert_eq!(error.message, "initialize uv project failed");
    assert_eq!(error.exit_code, Some(3));
    assert_eq!(error.missing_program, None);

    let error = run_checked(
        "install",
        "vp",
        Err(StartError { not_found: false, error: "permission denied".to_string() }),
    )
    .unwrap_err();
    assert_eq!(error.message, "failed to start vp: permission denied");
    assert_eq!(error.missing_program, None);

    let result = run_final("uv", Ok(failed)).unwrap();
    assert_eq!(exit_code_of(result), 3);
    assert_eq!(exit_code_of(ProcessResult { success: false, exit_code: None }), 1);
}

#[test]
fn advancing_through_steps() {
    let setup = Step::Setup { stage: "initialize Go module".to_string(), command: invocation("mise"), quiet: true };
    let failed = ProcessResult { success: false, exit_code: Some(1) };
    match advance(setup, Outcome::Process(Ok(failed))) {
        Progress::Failed(f) => {
            assert_eq!(f.message, "initialize Go module failed");
            assert_eq!(f.exit_code, Some(1));
        }
        other => panic!("unexpected {other:?}"),
    }

    let setup = Step::Setup { stage: "s".to_string(), command: invocation("mise"), quiet: false };
    let ok = ProcessResult { success: true, exit_code: Some(0) };
    assert!(matches!(advance(setup, Outcome::Process(Ok(ok))), Progress::Continue));

    let last = Step::Final { command: invocation("uv"), unprinted_env: Vec::new(), quiet: false };
    let ended = ProcessResult { success: false, exit_code: Some(42) };
    assert!(matches!(advance(last, Outcome::Process(Ok(ended))), Progress::Finished(42)));

    let last = Step::Final { command: invocation("uv"), unprinted_env: Vec::new(), quiet: false };
    match advance(last, Outcome::Process(Err(StartError { not_found: true, error: "gone".to_string() }))) {
        Progress::Failed(f) => assert_eq!(f.missing_program.as_deref(), Some("uv")),
        other => panic!("unexpected {other:?}"),
    }

    let write = Step::WriteSource { path: "/p/main.py".to_string(), code: String::new() };
    match advance(write, Outcome::DirectoryFailed("denied".to_string())) {
        Progress::Failed(f) => assert_eq!(f.message, "failed to create source directory: denied"),
        other => panic!("unexpected {other:?}"),
    }
    let write = Step::WriteSource { path: "/p/main.py".to_string(), code: String::new() };
    match advance(write, Outcome::WriteFailed("full".to_string())) {
        Progress::Failed(f) => assert_eq!(f.message, "failed to store stdin source: full"),
        other => panic!("unexpected {other:?}"),
    }
    let manifest = Step::WriteManifest { path: "/p/package.json".to_string(), contents: "{}\n".to_string() };
    assert!(matches!(advance(manifest, Outcome::Done), Progress::Continue));
    let manifest = Step::WriteManifest { path: "/p/package.json".to_string(), contents: "{}\n".to_string() };
    match advance(manifest, Outcome::WriteFailed("full".to_string())) {
        Progress::Failed(f) => assert_eq!(f.message, "failed to write package.json: full"),
        other => panic!("unexpected {other:?}"),
    }
    let cache = Step::CreateCache { path: "/c".to_string() };
    match advance(cache, Outcome::DirectoryFailed("denied".to_string())) {
        Progress::Failed(f) => assert_eq!(f.message, "failed to create Cargo cache: denied"),
        other => panic!("unexpected {other:?}"),
    }
    let cache = Step::CreateCache { path: "/c".to_string() };
    assert!(matches!(advance(cache, Outcome::Done), Progress::Continue));

    let fail = Step::Fail { failure: RunFailure::message("stop".to_string()) };
    match advance(fail, Outcome::Done) {
        Progress::Failed(f) => assert_eq!(f.message, "stop"),
        other => panic!("unexpected {other:?}"),
    }
}

#[test]
fn install_hints_by_platform() {
    assert_eq!(uv_install_hint(Platform::Macos), "Install uv with Homebrew: brew install uv");
    assert_eq!(uv_install_hint(Platform::Windows), "Install uv with WinGet: winget install --id astral-sh.uv -e");
    assert_eq!(vp_install_hint(Platform::Macos), "Install vp: curl -fsSL https://vite.plus | bash");
    assert_eq!(vp_install_hint(Platform::Windows), "Install vp in PowerShell: irm https://vite.plus/ps1 | iex");
    assert_eq!(
        rustup_install_hint(Platform::Other),
        "Install rustup: curl --proto '=https' --tlsv1.2 -sSf https://sh.rustup.rs | sh"
    );
    assert_eq!(mise_install_hint(Platform::Windows), "Install mise with WinGet: winget install jdx.mise");
    assert_eq!(
        program_install_hint("mise", Platform::Other).as_deref(),
        Some("Install mise: curl https://mise.run | sh")
    );
    assert_eq!(program_install_hint("go", Platform::Other), None);
    assert_eq!(strings(&["a", "b"]), ["a", "b"]);
}

#[test]
fn announcements_never_show_the_file_variables() {
    let command = Invocation {
        program: "tool".to_string(),
        args: vec!["run".to_string()],
        cwd: Some("/tmp/my dir".to_string()),
        env: pairs(&[("MODE", "test value")]),
    };
    let hidden = Step::Final { command, unprinted_env: pairs(&[("SECRET", "hidden")]), quiet: false };
    assert_eq!(
        announcement(&hidden).as_deref(),
        Some("+ cd '/tmp/my dir' && MODE='test value' tool run")
    );
    let quiet = Step::Setup { stage: "s".to_string(), command: invocation("uv"), quiet: true };
    assert_eq!(announcement(&quiet), None);
    let write = Step::WriteSource { path: "/p".to_string(), code: String::new() };
    assert_eq!(announcement(&write), None);
}
