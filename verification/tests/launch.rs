use codex_potter::launch::potter_app_server_args;
use codex_potter::launch::sandbox_mode_cli_arg;
use codex_potter::launch::AppServerLaunchConfig;
use codex_potter::launch::SandboxMode;
use codex_potter::launch::UpstreamCodexCliArgs;
use codex_potter::rounds::round_budget_to_u32;
use codex_potter::rounds::Rounds;

#[test]
fn potter_app_server_args_forward_runtime_xmodel_before_subcommand() {
    let args = potter_app_server_args(
        "custom-codex",
        Rounds::new(3).expect("nonzero rounds"),
        AppServerLaunchConfig {
            spawn_sandbox: Some(SandboxMode::ReadOnly),
            thread_sandbox: Some(SandboxMode::ReadOnly),
            bypass_approvals_and_sandbox: false,
        },
        true,
        false,
        &UpstreamCodexCliArgs {
            config_overrides: vec!["foo=1".to_string()],
            enable_features: vec!["unified_exec".to_string()],
            disable_features: vec!["web_search_request".to_string()],
            model: Some("o3".to_string()),
            profile: Some("my-profile".to_string()),
            web_search: true,
        },
    );

    assert_eq!(
        args,
        vec![
            "--codex-bin",
            "custom-codex",
            "--rounds",
            "3",
            "--config",
            "foo=1",
            "--enable",
            "unified_exec",
            "--disable",
            "web_search_request",
            "--model",
            "o3",
            "--profile",
            "my-profile",
            "--search",
            "--xmodel",
            "--sandbox",
            "read-only",
            "app-server",
        ]
        .into_iter()
        .map(ToString::to_string)
        .collect::<Vec<_>>()
    );
}

#[test]
fn potter_app_server_args_omit_runtime_xmodel_when_disabled() {
    let args = potter_app_server_args(
        "custom-codex",
        Rounds::new(1).expect("nonzero rounds"),
        AppServerLaunchConfig {
            spawn_sandbox: None,
            thread_sandbox: None,
            bypass_approvals_and_sandbox: true,
        },
        false,
        false,
        &UpstreamCodexCliArgs::default(),
    );

    assert_eq!(
        args,
        vec![
            "--codex-bin",
            "custom-codex",
            "--rounds",
            "1",
            "--dangerously-bypass-approvals-and-sandbox",
            "app-server",
        ]
        .into_iter()
        .map(ToString::to_string)
        .collect::<Vec<_>>()
    );
}

#[test]
fn potter_app_server_args_forward_strict_rounds_when_enabled() {
    let args = potter_app_server_args(
        "custom-codex",
        Rounds::new(100).expect("nonzero rounds"),
        AppServerLaunchConfig {
            spawn_sandbox: None,
            thread_sandbox: None,
            bypass_approvals_and_sandbox: false,
        },
        false,
        true,
        &UpstreamCodexCliArgs::default(),
    );

    assert_eq!(
        args,
        vec![
            "--codex-bin",
            "custom-codex",
            "--rounds",
            "100",
            "--strict-rounds",
            "100",
            "app-server",
        ]
        .into_iter()
        .map(ToString::to_string)
        .collect::<Vec<_>>()
    );
}

#[test]
fn every_setting_comes_before_the_subcommand() {
    let args = potter_app_server_args(
        "codex",
        Rounds::default(),
        AppServerLaunchConfig {
            spawn_sandbox: Some(SandboxMode::WorkspaceWrite),
            thread_sandbox: None,
            bypass_approvals_and_sandbox: true,
        },
        true,
        true,
        &UpstreamCodexCliArgs {
            config_overrides: vec!["a=1".to_string(), "b=2".to_string()],
            enable_features: Vec::new(),
            disable_features: Vec::new(),
            model: None,
            profile: None,
            web_search: false,
        },
    );
    assert_eq!(
        args,
        [
            "--codex-bin",
            "codex",
            "--rounds",
            "10",
            "--config",
            "a=1",
            "--config",
            "b=2",
            "--xmodel",
            "--strict-rounds",
            "10",
            "--dangerously-bypass-approvals-and-sandbox",
            "--sandbox",
            "workspace-write",
            "app-server",
        ]
    );
}

#[test]
fn sandboxes_have_names() {
    assert_eq!(sandbox_mode_cli_arg(SandboxMode::ReadOnly), "read-only");
    assert_eq!(sandbox_mode_cli_arg(SandboxMode::WorkspaceWrite), "workspace-write");
    assert_eq!(sandbox_mode_cli_arg(SandboxMode::DangerFullAccess), "danger-full-access");
}

#[test]
fn round_budgets_fit_the_protocol() {
    assert!(Rounds::new(0).is_none());
    let most = Rounds::new(4294967295).expect("rounds");
    assert_eq!(round_budget_to_u32(most), Ok(4294967295));
    let too_many = Rounds::new(4294967296).expect("rounds");
    let error = round_budget_to_u32(too_many).expect_err("too many");
    assert_eq!(
        error.message(),
        "round budget 4294967296 exceeds the maximum of 4294967295"
    );
}
