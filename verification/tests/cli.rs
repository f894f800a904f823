use run_code::cli::{
    Cli, Command, ToolchainKind, ToolchainSpec, DEFAULT_DOTNET_TOOLCHAIN, DEFAULT_GO_TOOLCHAIN,
    DEFAULT_NODE_TOOLCHAIN, DEFAULT_PYTHON_TOOLCHAIN, DEFAULT_RUST_TOOLCHAIN,
};

fn empty_cli() -> Cli {
    Cli {
        command: None,
        toolchain: None,
        source: None,
        args: Vec::new(),
        cwd: None,
        env_file: None,
        packages: Vec::new(),
        commonjs: false,
        clean: false,
        quiet: false,
    }
}

fn cli_with(toolchain: &str) -> Cli {
    let mut cli = empty_cli();
    cli.toolchain = Some(toolchain.parse::<ToolchainSpec>().unwrap());
    cli
}

fn assert_toolchain(input: &str, kind: ToolchainKind, version: &str) {
    let spec = input.parse::<ToolchainSpec>().unwrap();
    assert_eq!(spec.kind, kind);
    assert_eq!(spec.version, version);
}

#[test]
fn positional_toolchain_accepts_a_version() {
    let mut cli = cli_with("node@20");
    cli.commonjs = true;
    assert_eq!(cli.toolchain().kind, ToolchainKind::Node);
    assert_eq!(cli.toolchain().version, "20");
    assert!(cli.commonjs);
}

#[test]
fn source_file_and_trailing_arguments_are_distinct() {
    let mut cli = cli_with("node@20");
    cli.source = Some("snippet.ts".to_string());
    cli.args = vec!["first".to_string(), "--flag".to_string()];
    assert_eq!(cli.source, Some("snippet.ts".to_string()));
    assert_eq!(cli.args, ["first", "--flag"]);
    assert!(cli.validation_error().is_none());
}

#[test]
fn stdin_can_also_receive_trailing_arguments() {
    let mut cli = cli_with("python");
    cli.args = vec!["first".to_string()];
    assert!(cli.source.is_none());
    assert_eq!(cli.args, ["first"]);
    assert!(cli.validation_error().is_none());
}

#[test]
fn execution_context_options_accept_paths() {
    let mut cli = cli_with("python");
    cli.cwd = Some("data".to_string());
    cli.env_file = Some("snippet.env".to_string());
    assert_eq!(cli.cwd, Some("data".to_string()));
    assert_eq!(cli.env_file, Some("snippet.env".to_string()));
    assert!(cli.validation_error().is_none());
}

#[test]
fn skill_is_a_command_without_a_toolchain() {
    let mut cli = empty_cli();
    cli.command = Some(Command::Skill);
    assert!(matches!(cli.command, Some(Command::Skill)));
    assert!(cli.validation_error().is_none());
}

#[test]
fn quiet_uses_the_conventional_spelling() {
    let mut cli = cli_with("python");
    cli.quiet = true;
    assert!(cli.quiet);
    assert!(cli.validation_error().is_none());
}

#[test]
fn omitted_versions_use_stable_policy() {
    assert_toolchain("python", ToolchainKind::Python, "3.14");
    assert_toolchain("node", ToolchainKind::Node, "latest");
    assert_toolchain("rust", ToolchainKind::Rust, "stable");
    assert_toolchain("go", ToolchainKind::Go, "latest");
    assert_toolchain("dotnet", ToolchainKind::Dotnet, "10");
}

#[test]
fn csharp_aliases_select_dotnet() {
    assert_toolchain("csharp@10", ToolchainKind::Dotnet, "10");
    assert_toolchain("cs", ToolchainKind::Dotnet, "10");
}

#[test]
fn language_names_alias_to_node() {
    for alias in ["javascript", "typescript"] {
        assert_toolchain(&format!("{alias}@20"), ToolchainKind::Node, "20");
    }
}

#[test]
fn cli_commonjs_is_node_only() {
    let mut cli = cli_with("python");
    cli.commonjs = true;
    assert!(cli.validation_error().is_some());
}

#[test]
fn default_versions_match_the_constants() {
    assert_eq!(DEFAULT_PYTHON_TOOLCHAIN, "3.14");
    assert_eq!(DEFAULT_NODE_TOOLCHAIN, "latest");
    assert_eq!(DEFAULT_RUST_TOOLCHAIN, "stable");
    assert_eq!(DEFAULT_GO_TOOLCHAIN, "latest");
    assert_eq!(DEFAULT_DOTNET_TOOLCHAIN, "10");
}

#[test]
fn py_alias_and_versions_after_the_first_at() {
    assert_toolchain("py", ToolchainKind::Python, "3.14");
    assert_toolchain("py@3.12", ToolchainKind::Python, "3.12");
    assert_toolchain("node@lts@x", ToolchainKind::Node, "lts@x");
    assert_toolchain("go@1.22", ToolchainKind::Go, "1.22");
    assert_toolchain("rust@nightly", ToolchainKind::Rust, "nightly");
}

#[test]
fn empty_name_or_version_is_invalid() {
    for value in ["@20", "node@", "@"] {
        let error = ToolchainSpec::parse(value).unwrap_err();
        assert_eq!(error, format!("invalid toolchain specification: {value}"));
    }
}

#[test]
fn unknown_toolchain_names_are_quoted_in_the_message() {
    let error = ToolchainSpec::parse("ruby@3").unwrap_err();
    assert_eq!(
        error,
        "unsupported toolchain \"ruby\"; expected python, node, javascript, typescript, rust, go, or dotnet"
    );
    let error = "a\"b".parse::<ToolchainSpec>().unwrap_err();
    assert_eq!(
        error,
        "unsupported toolchain \"a\\\"b\"; expected python, node, javascript, typescript, rust, go, or dotnet"
    );
}

#[test]
fn validation_messages_for_each_refusal() {
    let mut skill = empty_cli();
    skill.command = Some(Command::Skill);
    skill.quiet = true;
    assert_eq!(
        skill.validation_error(),
        Some("the skill command does not accept execution arguments".to_string())
    );

    let mut skill_with_toolchain = cli_with("python");
    skill_with_toolchain.command = Some(Command::Skill);
    assert_eq!(
        skill_with_toolchain.validation_error(),
        Some("the skill command does not accept execution arguments".to_string())
    );

    assert_eq!(
        empty_cli().validation_error(),
        Some("missing required TOOLCHAIN[@VERSION] or the skill command".to_string())
    );

    let mut commonjs = cli_with("rust");
    commonjs.commonjs = true;
    assert_eq!(
        commonjs.validation_error(),
        Some("--commonjs is only valid with the node toolchain".to_string())
    );

    let mut node = cli_with("node");
    node.commonjs = true;
    assert_eq!(node.validation_error(), None);
}
