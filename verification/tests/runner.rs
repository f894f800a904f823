use run_code::cli::{Cli, ToolchainSpec};
use run_code::execution::ExecutionContext;
use run_code::plan::Step;
use run_code::process::RunFailure;
use run_code::runner::dotnet::source_with_packages;
use run_code::runner::node::{final_command, final_command_from, package_manifest, tsx_cli_path};
use run_code::runner::python::package_spec;
use run_code::runner::rust::{RustPackageSpec, target_cache};
use run_code::runner::{backend_for, snippet_start, temp_source_failure, Backend, RunError, Start};
use run_code::util::Platform;

fn cli_with(toolchain: &str, packages: &[&str]) -> Cli {
    Cli {
        command: None,
        toolchain: Some(toolchain.parse::<ToolchainSpec>().unwrap()),
        source: None,
        args: Vec::new(),
        cwd: None,
        env_file: None,
        packages: packages.iter().map(|p| p.to_string()).collect(),
        commonjs: false,
        clean: false,
        quiet: false,
    }
}

fn joined(base: &str, rel: &str) -> String {
    format!("{base}{}{rel}", std::path::MAIN_SEPARATOR)
}

fn strings(values: &[&str]) -> Vec<String> {
    values.iter().map(|v| v.to_string()).collect()
}

fn final_args(plan: &[Step]) -> Vec<String> {
    match plan.last() {
        Some(Step::Final { command, .. }) => command.args.clone(),
        other => panic!("no final command: {other:?}"),
    }
}

#[test]
fn mod_commonjs_is_node_only() {
    let mut cli = cli_with("python", &[]);
    cli.commonjs = true;
    assert!(backend_for(&cli).is_err());
}

#[test]
fn python_and_node_only_need_projects_for_user_packages() {
    for toolchain in ["python", "node"] {
        let direct = cli_with(toolchain, &[]);
        assert!(backend_for(&direct).unwrap().runs_without_project());

        let with_package = cli_with(toolchain, &["example"]);
        assert!(!backend_for(&with_package).unwrap().runs_without_project());
    }
}

#[test]
fn other_toolchains_always_need_projects() {
    for toolchain in ["rust", "go", "dotnet"] {
        let cli = cli_with(toolchain, &[]);
        assert!(!backend_for(&cli).unwrap().runs_without_project());
    }
}

#[test]
fn refused_backend_is_a_usage_error() {
    let mut cli = cli_with("go", &[]);
    cli.commonjs = true;
    match snippet_start(&cli) {
        Err(RunError { message, hint, exit_code }) => {
            assert_eq!(message, "--commonjs is only valid with the node toolchain");
            assert_eq!(hint, None);
            assert_eq!(exit_code, Some(2));
        }
        Ok(_) => panic!("commonjs with go must be refused"),
    }
    assert!(matches!(snippet_start(&cli_with("node", &[])), Ok(Start::Direct(_))));
    assert!(matches!(snippet_start(&cli_with("node", &["zod"])), Ok(Start::Project(_))));
}

#[test]
fn snippet_arguments_do_not_include_the_cli_separator() {
    let arguments = strings(&["first", "--flag"]);
    assert_eq!(
        final_command("snippet.ts", &arguments, false),
        ["run", "start", "first", "--flag"]
    );
    assert_eq!(
        final_command("snippet.ts", &arguments, true),
        ["exec", "--", "tsx", "snippet.ts", "first", "--flag"]
    );
}

#[test]
fn custom_cwd_command_uses_absolute_project_tools_and_source() {
    let project = "template";
    let source = joined(project, "snippet.ts");
    let command = final_command_from(project, &source, "20", &strings(&["first"]));
    assert_eq!(&command[..5], ["env", "exec", "--node", "20", "node"]);
    assert_eq!(command[5], tsx_cli_path(project));
    assert_eq!(command[6], source);
    assert_eq!(command[7], "first");
}

#[test]
fn project_paths_are_joined_onto_the_directory() {
    assert_eq!(
        tsx_cli_path("/tmp/project"),
        joined("/tmp/project", "node_modules/tsx/dist/cli.mjs")
    );
}

#[test]
fn at_version_becomes_python_equality() {
    assert_eq!(package_spec("requests@2.32.5").unwrap(), "requests==2.32.5");
}

#[test]
fn equality_version_uses_native_python_syntax() {
    assert_eq!(package_spec("requests==2.32.5").unwrap(), "requests==2.32.5");
    assert_eq!(
        package_spec("httpx[socks]==0.28.1").unwrap(),
        "httpx[socks]==0.28.1"
    );
}

#[test]
fn equality_version_requires_both_sides() {
    assert!(package_spec("requests==").is_err());
    assert!(package_spec("==2.32.5").is_err());
}

#[test]
fn python_package_edge_cases() {
    assert_eq!(package_spec("requests").unwrap(), "requests");
    assert_eq!(package_spec("a@b@1").unwrap(), "a@b==1");
    let error = package_spec("@1").unwrap_err();
    assert_eq!(error.message, "invalid Python package specification: @1");
    assert!(package_spec("requests@").is_err());
}

#[test]
fn package_directives_are_prepended_to_source() {
    let source = source_with_packages(
        "using Spectre.Console;\nAnsiConsole.WriteLine(\"hello\");\n",
        &strings(&["Spectre.Console@0.50.0", "Humanizer"]),
    )
    .unwrap();
    assert_eq!(
        source,
        "#:package Spectre.Console@0.50.0\n#:package Humanizer@*\nusing Spectre.Console;\nAnsiConsole.WriteLine(\"hello\");\n"
    );
}

#[test]
fn malformed_package_directives_are_rejected() {
    for value in ["", "Spectre.Console@", "@0.50.0", "Bad Package", "Bad\nCode"] {
        assert!(
            source_with_packages("", &[value.to_string()]).is_err(),
            "{value:?}"
        );
    }
}

#[test]
fn malformed_nuget_package_message_quotes_the_package() {
    let error = source_with_packages("", &strings(&["Bad Package"])).unwrap_err();
    assert_eq!(
        error.message,
        "invalid NuGet package specification \"Bad Package\"; expected NAME[@VERSION]"
    );
    assert_eq!(source_with_packages("code", &[]).unwrap(), "code");
}

#[test]
fn package_without_features_is_unchanged() {
    assert_eq!(
        RustPackageSpec::parse("serde_json@1").unwrap(),
        RustPackageSpec {
            dependency: "serde_json@1".into(),
            features: vec![],
        }
    );
}

#[test]
fn package_features_are_parsed() {
    assert_eq!(
        RustPackageSpec::parse("reqwest@0.12[json,rustls-tls]").unwrap(),
        RustPackageSpec {
            dependency: "reqwest@0.12".into(),
            features: vec!["json".into(), "rustls-tls".into()],
        }
    );
}

#[test]
fn malformed_feature_lists_are_rejected() {
    for value in ["tokio@1[]", "tokio@1[full", "tokio@1[full,]", "tokio@1[full][macros]"] {
        assert!(RustPackageSpec::parse(value).is_err(), "{value}");
    }
}

#[test]
fn rust_features_are_trimmed_and_errors_quote_the_spec() {
    assert_eq!(
        RustPackageSpec::parse("tokio@1[ full , macros ]").unwrap(),
        RustPackageSpec {
            dependency: "tokio@1".into(),
            features: vec!["full".into(), "macros".into()],
        }
    );
    let error = RustPackageSpec::parse("tokio@1[]").unwrap_err();
    assert_eq!(
        error.message,
        "invalid Rust package specification \"tokio@1[]\"; expected NAME[@VERSION][FEATURE,...]"
    );
    assert!(RustPackageSpec::parse("").is_err());
    assert!(RustPackageSpec::parse("tok]io").is_err());
}

#[test]
fn rust_cache_directory_ends_with_cargo_target() {
    if let Some(path) = target_cache() {
        assert!(path.ends_with("cargo-target"));
        assert!(path.contains("run-code"));
        assert!(path.len() > "cargo-target".len());
    }
}

#[test]
fn direct_python_plan_runs_uv_with_the_code() {
    let cli = cli_with("python@3.12", &[]);
    let backend = backend_for(&cli).unwrap();
    let execution = ExecutionContext::new(None, Vec::new());
    let plan = backend.run_direct(
        "print(1)",
        &strings(&["a"]),
        &execution,
        None,
        "/tmp",
        false,
    );
    assert_eq!(plan.len(), 1);
    match &plan[0] {
        Step::Final { command, unprinted_env, quiet } => {
            assert_eq!(command.program, "uv");
            assert_eq!(
                command.args,
                [
                    "run",
                    "--quiet",
                    "--isolated",
                    "--managed-python",
                    "--python",
                    "3.12",
                    "python",
                    "-c",
                    "print(1)",
                    "a"
                ]
            );
            assert_eq!(command.cwd.as_deref(), Some("/tmp"));
            assert!(command.env.is_empty());
            assert!(unprinted_env.is_empty());
            assert!(!quiet);
        }
        other => panic!("unexpected step {other:?}"),
    }
}

#[test]
fn direct_node_plan_writes_the_source_first() {
    let mut cli = cli_with("node@20", &[]);
    cli.commonjs = true;
    let backend = backend_for(&cli).unwrap();
    assert_eq!(backend.direct_source_suffix(), Some(".cts"));
    let execution = ExecutionContext::new(Some("/work".to_string()), Vec::new());
    let plan = backend.run_direct("x", &[], &execution, Some("/tmp/s.cts"), "/tmp", true);
    assert_eq!(plan.len(), 2);
    assert!(matches!(&plan[0], Step::WriteSource { path, code } if path == "/tmp/s.cts" && code == "x"));
    let args = final_args(&plan);
    assert_eq!(
        args,
        ["env", "exec", "--node", "20", "npx", "--yes", "tsx@4.23.12", "/tmp/s.cts"]
    );
    match plan.last() {
        Some(Step::Final { command, .. }) => assert_eq!(command.cwd.as_deref(), Some("/work")),
        _ => unreachable!(),
    }
}

#[test]
fn project_backends_cannot_run_directly() {
    let cli = cli_with("go", &[]);
    let backend = backend_for(&cli).unwrap();
    assert_eq!(backend.direct_source_suffix(), None);
    let execution = ExecutionContext::new(None, Vec::new());
    let plan = backend.run_direct("x", &[], &execution, None, "/tmp", false);
    assert_eq!(plan.len(), 1);
    match &plan[0] {
        Step::Fail { failure } => {
            assert_eq!(failure.message, "this backend does not support direct execution")
        }
        other => panic!("unexpected step {other:?}"),
    }
}

#[test]
fn dotnet_project_plan_runs_the_file_based_app() {
    let cli = cli_with("csharp", &["Humanizer"]);
    let backend = backend_for(&cli).unwrap();
    let execution = ExecutionContext::new(None, Vec::new());
    let plan = backend.prepare("/p", "code", &[], &execution, false, Platform::Other);
    assert_eq!(plan.len(), 2);
    assert!(matches!(&plan[0], Step::WriteSource { path, code }
        if *path == joined("/p", "snippet.cs") && code == "#:package Humanizer@*\ncode"));
    assert_eq!(
        final_args(&plan),
        ["exec", "dotnet@10", "--", "dotnet", "run", "snippet.cs"]
    );
}

#[test]
fn dotnet_plan_with_a_bad_package_fails() {
    let cli = cli_with("dotnet", &["Bad Package"]);
    let backend = backend_for(&cli).unwrap();
    let execution = ExecutionContext::new(None, Vec::new());
    let plan = backend.prepare("/p", "code", &[], &execution, false, Platform::Other);
    assert_eq!(plan.len(), 1);
    assert!(matches!(&plan[0], Step::Fail { .. }));
}

#[test]
fn python_project_plan_installs_converted_packages() {
    let cli = cli_with("python", &["requests@2.32.5"]);
    let backend = backend_for(&cli).unwrap();
    let execution = ExecutionContext::new(None, Vec::new());
    let plan = backend.prepare("/p", "print(1)", &strings(&["x"]), &execution, true, Platform::Other);
    assert_eq!(plan.len(), 4);
    match &plan[0] {
        Step::Setup { stage, command, quiet } => {
            assert_eq!(stage, "initialize uv project");
            assert_eq!(command.program, "uv");
            assert_eq!(
                command.args,
                [
                    "init",
                    "--app",
                    "--no-readme",
                    "--vcs",
                    "none",
                    "--no-workspace",
                    "--managed-python",
                    "--python",
                    "3.14",
                    "/p"
                ]
            );
            assert!(quiet);
        }
        other => panic!("unexpected step {other:?}"),
    }
    assert!(matches!(&plan[1], Step::WriteSource { path, .. } if *path == joined("/p", "main.py")));
    match &plan[2] {
        Step::Setup { stage, command, .. } => {
            assert_eq!(stage, "install Python dependencies");
            assert_eq!(command.args, ["add", "requests==2.32.5"]);
            assert_eq!(command.cwd.as_deref(), Some("/p"));
        }
        other => panic!("unexpected step {other:?}"),
    }
    assert_eq!(
        final_args(&plan),
        [
            "run",
            "--quiet",
            "--project",
            "/p",
            "--managed-python",
            "--python",
            "3.14",
            "python",
            joined("/p", "main.py").as_str(),
            "x"
        ]
    );
}

#[test]
fn python_project_plan_stops_at_a_bad_package() {
    let cli = cli_with("python", &["==1"]);
    let backend = backend_for(&cli).unwrap();
    let execution = ExecutionContext::new(None, Vec::new());
    let plan = backend.prepare("/p", "print(1)", &[], &execution, false, Platform::Other);
    match plan.last() {
        Some(Step::Fail { failure }) => {
            assert_eq!(failure.message, "invalid Python package specification: ==1")
        }
        other => panic!("unexpected step {other:?}"),
    }
}

#[test]
fn rust_project_plan_adds_packages_with_features() {
    let cli = cli_with("rust", &["tokio@1[full,macros]"]);
    let backend = backend_for(&cli).unwrap();
    let execution = ExecutionContext::new(None, Vec::new());
    let plan = backend.prepare("/p", "fn main() {}", &strings(&["a"]), &execution, false, Platform::Other);
    assert!(matches!(&plan[1], Step::WriteSource { path, .. } if *path == joined("/p", "src/main.rs")));
    match &plan[2] {
        Step::Setup { command, .. } => assert_eq!(
            command.args,
            ["run", "--install", "stable", "cargo", "add", "tokio@1", "--features", "full,macros"]
        ),
        other => panic!("unexpected step {other:?}"),
    }
    match plan.last() {
        Some(Step::Final { command, .. }) => {
            assert_eq!(command.program, "rustup");
            assert_eq!(
                command.args,
                [
                    "run",
                    "--install",
                    "stable",
                    "cargo",
                    "run",
                    "--quiet",
                    "--manifest-path",
                    joined("/p", "Cargo.toml").as_str(),
                    "--",
                    "a"
                ]
            );
            assert_eq!(command.env.len(), 1);
            assert_eq!(command.env[0].0, "CARGO_TARGET_DIR");
        }
        Some(Step::Fail { failure }) => {
            assert_eq!(failure.message, "could not determine the user cache directory")
        }
        other => panic!("unexpected step {other:?}"),
    }
}

#[test]
fn go_project_plan_builds_then_runs_the_binary() {
    let cli = cli_with("go@1.22", &[]);
    let backend = backend_for(&cli).unwrap();
    let execution = ExecutionContext::new(Some("/work".to_string()), Vec::new());
    let plan = backend.prepare("/p", "package main", &[], &execution, false, Platform::Other);
    assert!(plan.iter().any(|s| matches!(s, Step::WriteSource { path, .. } if *path == joined("/p", "main.go"))));
    match plan.last() {
        Some(Step::Final { command, .. }) => {
            assert_eq!(command.cwd.as_deref(), Some("/work"));
        }
        other => panic!("unexpected step {other:?}"),
    }
}

#[test]
fn run_errors_carry_hints_for_missing_tools() {
    let failure = RunFailure::start("uv", "No such file or directory (os error 2)", true);
    let error = RunError::from_failure(failure, Platform::Other);
    assert_eq!(error.message, "failed to start uv: No such file or directory (os error 2)");
    assert_eq!(
        error.hint.as_deref(),
        Some("Install uv: curl -LsSf https://astral.sh/uv/install.sh | sh")
    );
    assert_eq!(error.exit_code, None);

    let failure = RunFailure::start("node", "denied", false);
    let error = RunError::from_failure(failure, Platform::Macos);
    assert_eq!(error.hint, None);

    let usage = RunError::usage("bad".to_string());
    assert_eq!(usage.exit_code, Some(2));

    let temp = RunError::temp_dir_failure("full");
    assert_eq!(temp.message, "failed to allocate a system temporary directory: full");
    assert_eq!(
        temp.hint.as_deref(),
        Some("Check that the operating system temporary directory is writable.")
    );
    assert_eq!(
        temp_source_failure("full").message,
        "failed to allocate a temporary source file: full"
    );
}

#[test]
fn every_backend_plan_ends_with_one_terminal_step() {
    let execution = ExecutionContext::new(None, Vec::new());
    for (toolchain, packages) in [
        ("python", vec!["requests"]),
        ("node", vec!["zod@4"]),
        ("rust", vec!["serde", "bad[]"]),
        ("go", vec!["example.com/m@v1"]),
        ("dotnet", vec![]),
    ] {
        let cli = cli_with(toolchain, &packages);
        let backend: Backend = backend_for(&cli).unwrap();
        let plan = backend.prepare("/p", "code", &[], &execution, true, Platform::Other);
        let last = plan.len() - 1;
        for (i, step) in plan.iter().enumerate() {
            let terminal = matches!(step, Step::Final { .. } | Step::Fail { .. });
            assert_eq!(terminal, i == last, "{toolchain}: step {i} of {plan:?}");
        }
    }
}

#[test]
fn final_process_runs_in_the_given_directory_with_the_file_variables() {
    let env = vec![("TOKEN".to_string(), "x".to_string())];
    let execution = ExecutionContext::new(Some("/work".to_string()), env.clone());
    for (toolchain, packages) in [
        ("python", vec!["requests"]),
        ("node", vec!["zod@4"]),
        ("rust", vec!["serde"]),
        ("go", vec![]),
    ] {
        let cli = cli_with(toolchain, &packages);
        let backend = backend_for(&cli).unwrap();
        let plan = backend.prepare("/p", "code", &[], &execution, false, Platform::Other);
        match plan.last() {
            Some(Step::Final { command, unprinted_env, .. }) => {
                assert_eq!(command.cwd.as_deref(), Some("/work"), "{toolchain}");
                assert_eq!(unprinted_env, &env, "{toolchain}");
            }
            Some(Step::Fail { .. }) if toolchain == "rust" => {}
            other => panic!("{toolchain}: unexpected {other:?}"),
        }
    }
    let cli = cli_with("node@20", &[]);
    let backend = backend_for(&cli).unwrap();
    let plan = backend.run_direct("x", &[], &execution, Some("/tmp/s.mts"), "/tmp", false);
    match plan.last() {
        Some(Step::Final { command, unprinted_env, .. }) => {
            assert_eq!(command.cwd.as_deref(), Some("/work"));
            assert_eq!(unprinted_env, &env);
        }
        other => panic!("unexpected {other:?}"),
    }
}

#[test]
fn a_validated_command_line_gets_a_backend() {
    let mut cli = cli_with("typescript@22", &[]);
    cli.commonjs = true;
    assert!(cli.validation_error().is_none());
    assert!(backend_for(&cli).is_ok());
}

#[test]
fn quiet_plans_show_nothing_but_the_final_output() {
    let execution = ExecutionContext::new(Some("/work".to_string()), Vec::new());
    for (toolchain, packages) in [
        ("python", vec!["requests"]),
        ("node", vec!["zod@4"]),
        ("rust", vec!["serde", "tokio@1[full]"]),
        ("go", vec!["example.com/m@v1"]),
        ("dotnet", vec!["Humanizer"]),
    ] {
        let cli = cli_with(toolchain, &packages);
        let backend = backend_for(&cli).unwrap();
        let plan = backend.prepare("/p", "code", &[], &execution, true, Platform::Other);
        for step in &plan {
            match step {
                Step::Setup { quiet, .. } | Step::Final { quiet, .. } => {
                    assert!(*quiet, "{toolchain}: {step:?}")
                }
                _ => {}
            }
        }
    }
}

#[test]
fn default_plans_show_only_installs_and_the_final_command() {
    let execution = ExecutionContext::new(Some("/work".to_string()), Vec::new());
    for (toolchain, packages) in [
        ("python", vec!["requests"]),
        ("node", vec!["zod@4"]),
        ("rust", vec!["serde"]),
        ("go", vec!["example.com/m@v1"]),
        ("dotnet", vec!["Humanizer"]),
    ] {
        let cli = cli_with(toolchain, &packages);
        let backend = backend_for(&cli).unwrap();
        let plan = backend.prepare("/p", "code", &[], &execution, false, Platform::Other);
        for step in &plan {
            match step {
                Step::Setup { stage, quiet, .. } => {
                    assert_eq!(*quiet, !stage.ends_with("dependencies"), "{toolchain}: {stage}")
                }
                Step::Final { quiet, .. } => assert!(!quiet, "{toolchain}"),
                _ => {}
            }
        }
    }
}

#[test]
fn source_files_are_copied_into_a_project() {
    for toolchain in ["python", "node"] {
        let mut cli = cli_with(toolchain, &[]);
        cli.source = Some("snippet.py".to_string());
        assert!(!backend_for(&cli).unwrap().runs_without_project(), "{toolchain}");
        assert!(matches!(snippet_start(&cli), Ok(Start::Project(_))), "{toolchain}");
    }
}

#[test]
fn package_manifest_is_the_pretty_printed_object() {
    for file in ["snippet.ts", "snippet.cts"] {
        let mut scripts = serde_json::Map::new();
        scripts.insert("start".to_string(), serde_json::Value::String(format!("tsx {file}")));
        let mut object = serde_json::Map::new();
        object.insert("name".to_string(), serde_json::Value::String("run-code-snippet".to_string()));
        object.insert("private".to_string(), serde_json::Value::Bool(true));
        object.insert("type".to_string(), serde_json::Value::String("module".to_string()));
        object.insert("scripts".to_string(), serde_json::Value::Object(scripts));
        let pretty = serde_json::to_string_pretty(&serde_json::Value::Object(object)).unwrap();
        assert_eq!(package_manifest(file), format!("{pretty}\n"));
    }
    assert_eq!(
        package_manifest("a\"b\u{1}.ts"),
        "{\n  \"name\": \"run-code-snippet\",\n  \"private\": true,\n  \"scripts\": {\n    \"start\": \"tsx a\\\"b\\u0001.ts\"\n  },\n  \"type\": \"module\"\n}\n"
    );
}

#[test]
fn node_project_plan_writes_the_manifest_first() {
    let cli = cli_with("node@20", &["zod@4"]);
    let backend = backend_for(&cli).unwrap();
    let execution = ExecutionContext::new(None, Vec::new());
    let plan = backend.prepare("/p", "code", &[], &execution, false, Platform::Other);
    match &plan[0] {
        Step::WriteManifest { path, contents } => {
            assert_eq!(*path, joined("/p", "package.json"));
            assert_eq!(*contents, package_manifest("snippet.ts"));
        }
        other => panic!("unexpected {other:?}"),
    }
}

#[test]
fn commonjs_with_python_never_starts() {
    let mut cli = cli_with("python", &[]);
    cli.commonjs = true;
    match snippet_start(&cli) {
        Err(error) => assert_eq!(error.exit_code, Some(2)),
        Ok(_) => panic!("commonjs with python must be refused"),
    }
}
