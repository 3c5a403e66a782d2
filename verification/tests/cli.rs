use codex_potter::cli::load_exec_human_verbosity;
use codex_potter::cli::parse_rounds;
use codex_potter::cli::parse_sandbox;
use codex_potter::cli::parse_verbosity;
use codex_potter::cli::resolve_exec_human_verbosity;
use codex_potter::cli::Cli;
use codex_potter::cli::CliCommand;
use codex_potter::cli::CliError;
use codex_potter::cli::CliSandbox;
use codex_potter::cli::CliVerbosity;
use codex_potter::cli::ConfiguredVerbosity;
use codex_potter::cli::ParsedArgs;
use codex_potter::cli::Verbosity;
use codex_potter::launch::SandboxMode;

fn owned(args: &[&str]) -> Vec<String> {
    args.iter().map(|a| a.to_string()).collect()
}

#[test]
fn rounds_must_be_at_least_one() {
    assert!(Cli::try_parse_from(&["codex-potter", "--rounds", "0"]).is_err());
    assert!(Cli::try_parse_from(&["codex-potter", "--rounds", "1"]).is_ok());
    assert!(Cli::try_parse_from(&["codex-potter", "--strict-rounds", "0"]).is_err());
    assert!(Cli::try_parse_from(&["codex-potter", "--strict-rounds", "1"]).is_ok());
}

#[test]
fn yolo_alias_sets_bypass_flag() {
    let cli = Cli::try_parse_from(&["codex-potter", "--yolo"]).expect("parse args");
    assert!(cli.dangerously_bypass_approvals_and_sandbox);
}

#[test]
fn resume_allows_global_args_after_subcommand() {
    let cli = Cli::try_parse_from(&[
        "codex-potter",
        "resume",
        "2026/02/01/1",
        "--yolo",
        "--sandbox",
        "read-only",
        "--rounds",
        "3",
        "--strict-rounds",
        "7",
        "--codex-bin",
        "custom-codex",
        "--model",
        "o3",
        "--profile",
        "my-profile",
        "--search",
        "--config",
        "model_reasoning_effort=\"high\"",
        "--enable",
        "unified_exec",
        "--disable",
        "web_search_request",
        "--xmodel",
    ])
    .expect("parse args");

    assert!(cli.dangerously_bypass_approvals_and_sandbox);
    assert!(cli.xmodel);
    assert_eq!(cli.sandbox, CliSandbox::ReadOnly);
    assert_eq!(cli.rounds.get(), 3);
    assert_eq!(cli.strict_rounds.expect("strict rounds").get(), 7);
    assert_eq!(cli.effective_rounds().get(), 7);
    assert_eq!(cli.codex_bin, "custom-codex");
    assert_eq!(cli.upstream_cli_args.model.as_deref(), Some("o3"));
    assert_eq!(cli.upstream_cli_args.profile.as_deref(), Some("my-profile"));
    assert!(cli.upstream_cli_args.web_search);
    assert_eq!(
        cli.upstream_cli_args.config_overrides,
        vec!["model_reasoning_effort=\"high\"".to_string()]
    );
    assert_eq!(cli.upstream_cli_args.enable_features, vec!["unified_exec".to_string()]);
    assert_eq!(cli.upstream_cli_args.disable_features, vec!["web_search_request".to_string()]);

    let Some(CliCommand::Resume { project_path }) = cli.command else {
        panic!("expected resume command, got: {:?}", cli.command);
    };
    assert_eq!(project_path, Some("2026/02/01/1".to_string()));
}

#[test]
fn resume_subcommand_parses_project_path() {
    let cli = Cli::try_parse_from(&["codex-potter", "resume", "2026/02/01/1"]).expect("parse args");

    let Some(CliCommand::Resume { project_path }) = cli.command else {
        panic!("expected resume command, got: {:?}", cli.command);
    };
    assert_eq!(project_path, Some("2026/02/01/1".to_string()));
}

#[test]
fn resume_subcommand_parses_without_project_path() {
    let cli = Cli::try_parse_from(&["codex-potter", "resume"]).expect("parse args");

    let Some(CliCommand::Resume { project_path }) = cli.command else {
        panic!("expected resume command, got: {:?}", cli.command);
    };
    assert_eq!(project_path, None);
}

#[test]
fn exec_subcommand_parses_prompt_json_flag_and_verbosity() {
    let cli = Cli::try_parse_from(&[
        "codex-potter",
        "exec",
        "hello",
        "--json",
        "--verbosity",
        "simple",
    ])
    .expect("parse args");

    let Some(CliCommand::Exec { prompt, json, verbosity }) = cli.command else {
        panic!("expected exec command, got: {:?}", cli.command);
    };
    assert_eq!(prompt, Some("hello".to_string()));
    assert!(json);
    assert_eq!(verbosity, Some(CliVerbosity::Simple));
}

#[test]
fn exec_subcommand_defaults_to_human_output() {
    let cli = Cli::try_parse_from(&["codex-potter", "exec", "hello"]).expect("parse args");

    let Some(CliCommand::Exec { prompt, json, verbosity }) = cli.command else {
        panic!("expected exec command, got: {:?}", cli.command);
    };
    assert_eq!(prompt, Some("hello".to_string()));
    assert!(!json);
    assert_eq!(verbosity, None);
}

#[test]
fn strict_rounds_override_rounds() {
    let cli = Cli::try_parse_from(&["codex-potter", "--rounds", "5", "--strict-rounds", "100"])
        .expect("parse args");

    assert_eq!(cli.rounds.get(), 5);
    assert_eq!(cli.strict_rounds.expect("strict").get(), 100);
    assert_eq!(cli.effective_rounds().get(), 100);
    assert!(cli.strict_rounds_enabled());
}

#[test]
fn resolve_exec_human_verbosity_prefers_cli_override() {
    assert_eq!(
        resolve_exec_human_verbosity(Some(CliVerbosity::Minimal), Some(Verbosity::Simple)),
        Verbosity::Minimal
    );
}

#[test]
fn resolve_exec_human_verbosity_uses_config_or_minimal_default() {
    assert_eq!(resolve_exec_human_verbosity(None, Some(Verbosity::Simple)), Verbosity::Simple);
    assert_eq!(resolve_exec_human_verbosity(None, None), Verbosity::Minimal);
}

#[test]
fn app_server_subcommand_parses() {
    let cli = Cli::try_parse_from(&["codex-potter", "app-server"]).expect("parse args");

    assert!(matches!(cli.command, Some(CliCommand::AppServer)));
}

#[test]
fn bare_command_line_has_defaults() {
    let cli = Cli::try_parse_from(&["codex-potter"]).expect("parse args");
    assert_eq!(cli.codex_bin, "codex");
    assert_eq!(cli.rounds.get(), 10);
    assert!(cli.strict_rounds.is_none());
    assert!(!cli.strict_rounds_enabled());
    assert_eq!(cli.effective_rounds().get(), 10);
    assert_eq!(cli.sandbox, CliSandbox::Default);
    assert!(!cli.dangerously_bypass_approvals_and_sandbox);
    assert!(!cli.xmodel);
    assert!(cli.upstream_cli_args.config_overrides.is_empty());
    assert!(cli.upstream_cli_args.model.is_none());
    assert!(cli.command.is_none());
}

#[test]
fn codex_bin_comes_from_the_command_line_before_the_environment() {
    let argv = owned(&["codex-potter"]);
    let cli = Cli::parse(&argv, "1.0", Some("from-env".to_string())).expect("parse args");
    assert_eq!(cli.codex_bin, "from-env");
    let argv = owned(&["codex-potter", "--codex-bin", "given"]);
    let cli = Cli::parse(&argv, "1.0", Some("from-env".to_string())).expect("parse args");
    assert_eq!(cli.codex_bin, "given");
}

#[test]
fn repeated_lists_keep_their_order() {
    let cli = Cli::try_parse_from(&["codex-potter", "--config", "a=1", "--config", "b=2"])
        .expect("parse args");
    assert_eq!(
        cli.upstream_cli_args.config_overrides,
        vec!["a=1".to_string(), "b=2".to_string()]
    );
}

#[test]
fn unknown_arguments_and_values_are_refused() {
    for args in [
        vec!["codex-potter", "--no-such-flag"],
        vec!["codex-potter", "no-such-command"],
        vec!["codex-potter", "--sandbox", "read_only"],
        vec!["codex-potter", "--rounds", "many"],
        vec!["codex-potter", "--rounds", "-1"],
        vec!["codex-potter", "exec", "--verbosity", "loud"],
        vec!["codex-potter", "resume", ""],
        vec!["codex-potter", "--json"],
    ] {
        let error = Cli::try_parse_from(&args).expect_err("refused");
        let CliError::Refused(refusal) = error else {
            panic!("expected a refusal");
        };
        assert_eq!(refusal.exit_code, 2);
        assert!(refusal.use_stderr);
    }
}

#[test]
fn refusals_are_in_the_words_of_the_parser() {
    let error = Cli::try_parse_from(&["codex-potter", "--rounds", "0"]).expect_err("refused");
    let message = error.message();
    assert!(message.contains("invalid value '0' for '--rounds <ROUNDS>'"));
    assert!(message.contains("number would be zero for non-zero type"));
}

#[test]
fn version_is_shown_on_standard_output() {
    let argv = owned(&["codex-potter", "--version"]);
    let error = Cli::parse(&argv, "1.2.3", None).expect_err("version");
    let CliError::Refused(refusal) = error else {
        panic!("expected the version");
    };
    assert_eq!(refusal.exit_code, 0);
    assert!(!refusal.use_stderr);
    assert!(refusal.message.contains("1.2.3"));
}

#[test]
fn help_describes_the_arguments() {
    let error = Cli::try_parse_from(&["codex-potter", "--help"]).expect_err("help");
    let message = error.message();
    assert!(message.contains("Run CodexPotter interactively"));
    assert!(message.contains("--strict-rounds <STRICT_ROUNDS>"));
    assert!(message.contains("possible values: default, read-only, workspace-write"));
    assert!(message.contains("Run CodexPotter non-interactively"));
    assert!(!message.contains("--yolo "));
}

fn parsed(rounds: &str, strict: &str, sandbox: &str) -> ParsedArgs {
    let mut root: Vec<Vec<String>> = vec![
        Vec::new(),
        vec![rounds.to_string()],
        vec![strict.to_string()],
        vec![sandbox.to_string()],
    ];
    while root.len() < 12 {
        root.push(Vec::new());
    }
    ParsedArgs { root, subcommands: vec![None, None, None] }
}

#[test]
fn values_that_mean_nothing_are_named() {
    let cases = [
        (parsed("0", "1", "default"), "--rounds <ROUNDS>", "0"),
        (parsed("1", "x", "default"), "--strict-rounds <STRICT_ROUNDS>", "x"),
        (parsed("1", "1", "nowhere"), "--sandbox <SANDBOX>", "nowhere"),
    ];
    for (args, option, value) in cases {
        let error = Cli::from_parsed(&args, None).expect_err("invalid");
        assert_eq!(error.message(), format!("error: invalid value '{value}' for '{option}'"));
    }
    let mut args = parsed("1", "1", "default");
    args.subcommands[1] = Some(vec![Vec::new(), Vec::new(), vec!["loud".to_string()]]);
    let error = Cli::from_parsed(&args, None).expect_err("invalid");
    assert_eq!(error.message(), "error: invalid value 'loud' for '--verbosity <VERBOSITY>'");
}

#[test]
fn numbers_of_rounds_are_read() {
    assert_eq!(parse_rounds("7").expect("rounds").get(), 7);
    assert_eq!(parse_rounds("+7").expect("rounds").get(), 7);
    assert_eq!(parse_rounds("007").expect("rounds").get(), 7);
    assert_eq!(parse_rounds("18446744073709551615").expect("rounds").get(), usize::MAX);
    for s in ["", "+", "0", "+0", "-1", "1 ", " 1", "1_0", "18446744073709551616"] {
        assert!(parse_rounds(s).is_none(), "{s:?}");
    }
}

#[test]
fn names_of_sandboxes_and_verbosities_are_read() {
    assert_eq!(parse_sandbox("default"), Some(CliSandbox::Default));
    assert_eq!(parse_sandbox("workspace-write"), Some(CliSandbox::WorkspaceWrite));
    assert_eq!(parse_sandbox("danger-full-access"), Some(CliSandbox::DangerFullAccess));
    assert_eq!(parse_sandbox("Default"), None);
    assert_eq!(parse_verbosity("minimal"), Some(CliVerbosity::Minimal));
    assert_eq!(parse_verbosity(""), None);
    assert_eq!(CliSandbox::default().as_protocol(), None);
    assert_eq!(CliSandbox::ReadOnly.as_protocol(), Some(SandboxMode::ReadOnly));
    assert_eq!(CliSandbox::WorkspaceWrite.as_protocol(), Some(SandboxMode::WorkspaceWrite));
    assert_eq!(CliSandbox::DangerFullAccess.as_protocol(), Some(SandboxMode::DangerFullAccess));
    assert_eq!(Verbosity::from(CliVerbosity::Simple), Verbosity::Simple);
}

#[test]
fn unreadable_configuration_is_warned_about() {
    let failed = ConfiguredVerbosity::Failed { error: "no such file".to_string() };
    let (verbosity, warning) = load_exec_human_verbosity(None, &failed);
    assert_eq!(verbosity, Verbosity::Minimal);
    assert_eq!(
        warning.as_deref(),
        Some("warning: failed to load TUI verbosity: no such file")
    );
    let (verbosity, warning) = load_exec_human_verbosity(Some(CliVerbosity::Simple), &failed);
    assert_eq!(verbosity, Verbosity::Simple);
    assert!(warning.is_none());
    let loaded = ConfiguredVerbosity::Loaded(Some(Verbosity::Simple));
    assert_eq!(load_exec_human_verbosity(None, &loaded).0, Verbosity::Simple);
}

#[test]
fn help_shows_the_environment() {
    let argv = owned(&["codex-potter", "-h"]);
    let shown = |env: Option<String>| match Cli::parse(&argv, "1.2.3", env).expect_err("help") {
        CliError::Refused(refusal) => {
            assert!(!refusal.use_stderr);
            assert_eq!(refusal.exit_code, 0);
            refusal.message
        }
        other => panic!("expected the help, got {other:?}"),
    };
    assert!(shown(None).contains("[env: CODEX_BIN=] [default: codex]"));
    let set = shown(Some("/opt/codex".to_string()));
    assert!(set.contains("[env: CODEX_BIN=/opt/codex] [default: codex]"));
}
