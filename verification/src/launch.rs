//! How the app-server is launched.

use vstd::prelude::*;

use crate::rounds::Rounds;
use crate::text;

verus! {

/// A sandbox that the backend is asked to run in.
#[derive(Debug, Clone, Copy, PartialEq, Eq, Structural)]
pub enum SandboxMode {
    ReadOnly,
    WorkspaceWrite,
    DangerFullAccess,
}

/// Sandbox and approval settings of a launch.
#[derive(Debug, Clone, Copy, PartialEq, Eq)]
pub struct AppServerLaunchConfig {
    pub spawn_sandbox: Option<SandboxMode>,
    pub thread_sandbox: Option<SandboxMode>,
    pub bypass_approvals_and_sandbox: bool,
}

/// Command-line settings that are handed on to the backend.
#[derive(Debug, Clone, PartialEq, Eq)]
pub struct UpstreamCodexCliArgs {
    pub config_overrides: Vec<String>,
    pub enable_features: Vec<String>,
    pub disable_features: Vec<String>,
    pub model: Option<String>,
    pub profile: Option<String>,
    pub web_search: bool,
}

impl Default for UpstreamCodexCliArgs {
    /// No setting at all.
    fn default() -> (r: Self)
        ensures
            r.config_overrides@.len() == 0,
            r.enable_features@.len() == 0,
            r.disable_features@.len() == 0,
            r.model is None,
            r.profile is None,
            !r.web_search,
    {
        UpstreamCodexCliArgs {
            config_overrides: Vec::new(),
            enable_features: Vec::new(),
            disable_features: Vec::new(),
            model: None,
            profile: None,
            web_search: false,
        }
    }
}

/// The command-line name of a sandbox mode.
pub open spec fn sandbox_label(mode: SandboxMode) -> Seq<char> {
    match mode {
        SandboxMode::ReadOnly => "read-only"@,
        SandboxMode::WorkspaceWrite => "workspace-write"@,
        SandboxMode::DangerFullAccess => "danger-full-access"@,
    }
}

/// The command-line name of a sandbox mode.
pub fn sandbox_mode_cli_arg(mode: SandboxMode) -> (r: &'static str)
    ensures
        r@ == sandbox_label(mode),
{
    match mode {
        SandboxMode::ReadOnly => "read-only",
        SandboxMode::WorkspaceWrite => "workspace-write",
        SandboxMode::DangerFullAccess => "danger-full-access",
    }
}

/// A flag repeated before each of its values.
pub open spec fn repeated(flag: Seq<char>, values: Seq<Seq<char>>) -> Seq<Seq<char>>
    decreases values.len(),
{
    if values.len() == 0 {
        seq![]
    } else {
        repeated(flag, values.drop_last()).push(flag).push(values.last())
    }
}

/// A flag before its value, where there is one.
pub open spec fn optional(flag: Seq<char>, value: Option<Seq<char>>) -> Seq<Seq<char>> {
    match value {
        Some(v) => seq![flag, v],
        None => seq![],
    }
}

/// A flag that stands alone, where it is switched on.
pub open spec fn switch(flag: Seq<char>, on: bool) -> Seq<Seq<char>> {
    if on {
        seq![flag]
    } else {
        seq![]
    }
}

/// The backend settings as command-line arguments.
pub open spec fn upstream_args(a: UpstreamCodexCliArgs) -> Seq<Seq<char>> {
    repeated("--config"@, text::texts(a.config_overrides@)) + repeated(
        "--enable"@,
        text::texts(a.enable_features@),
    ) + repeated("--disable"@, text::texts(a.disable_features@)) + optional(
        "--model"@,
        text::opt_text(a.model),
    ) + optional("--profile"@, text::opt_text(a.profile)) + switch("--search"@, a.web_search)
}

/// The arguments with which the app-server is launched. The subcommand comes last.
pub open spec fn app_server_args(
    codex_bin: Seq<char>,
    rounds: nat,
    launch: AppServerLaunchConfig,
    potter_xmodel: bool,
    strict_rounds: bool,
    upstream: UpstreamCodexCliArgs,
) -> Seq<Seq<char>> {
    seq!["--codex-bin"@, codex_bin, "--rounds"@, text::decimal(rounds)] + upstream_args(upstream)
        + switch("--xmodel"@, potter_xmodel) + optional(
        "--strict-rounds"@,
        if strict_rounds {
            Some(text::decimal(rounds))
        } else {
            None
        },
    ) + switch(
        "--dangerously-bypass-approvals-and-sandbox"@,
        launch.bypass_approvals_and_sandbox,
    ) + optional(
        "--sandbox"@,
        match launch.spawn_sandbox {
            Some(mode) => Some(sandbox_label(mode)),
            None => None,
        },
    ) + seq!["app-server"@]
}

fn push_repeated(args: &mut Vec<String>, flag: &str, values: &Vec<String>)
    ensures
        text::texts(final(args)@) == text::texts(old(args)@) + repeated(flag@, text::texts(values@)),
{
    let ghost before = text::texts(args@);
    let ghost all = text::texts(values@);
    let mut i: usize = 0;
    assert(all.take(0) =~= Seq::<Seq<char>>::empty());
    assert(text::texts(args@) =~= before + repeated(flag@, all.take(0)));
    while i < values.len()
        invariant
            i <= values.len(),
            all == text::texts(values@),
            text::texts(args@) == before + repeated(flag@, all.take(i as int)),
        decreases values.len() - i,
    {
        text::push_text(args, flag);
        text::push_text(args, values[i].as_str());
        assert(all.take(i + 1).drop_last() =~= all.take(i as int));
        assert(text::texts(args@) =~= before + repeated(flag@, all.take(i + 1)));
        i = i + 1;
    }
    assert(all.take(all.len() as int) =~= all);
}

fn push_optional(args: &mut Vec<String>, flag: &str, value: &Option<String>)
    ensures
        text::texts(final(args)@) == text::texts(old(args)@) + optional(flag@, text::opt_text(*value)),
{
    let ghost before = text::texts(args@);
    match value {
        Some(v) => {
            text::push_text(args, flag);
            text::push_text(args, v.as_str());
        },
        None => {},
    }
    assert(text::texts(args@) =~= before + optional(flag@, text::opt_text(*value)));
}

fn push_switch(args: &mut Vec<String>, flag: &str, on: bool)
    ensures
        text::texts(final(args)@) == text::texts(old(args)@) + switch(flag@, on),
{
    let ghost before = text::texts(args@);
    if on {
        text::push_text(args, flag);
    }
    assert(text::texts(args@) =~= before + switch(flag@, on));
}

impl UpstreamCodexCliArgs {
    /// The settings as command-line arguments of the app-server.
    pub fn to_potter_app_server_args(&self) -> (r: Vec<String>)
        ensures
            text::texts(r@) == upstream_args(*self),
    {
        let mut args: Vec<String> = Vec::new();
        push_repeated(&mut args, "--config", &self.config_overrides);
        push_repeated(&mut args, "--enable", &self.enable_features);
        push_repeated(&mut args, "--disable", &self.disable_features);
        push_optional(&mut args, "--model", &self.model);
        push_optional(&mut args, "--profile", &self.profile);
        push_switch(&mut args, "--search", self.web_search);
        assert(text::texts(args@) =~= upstream_args(*self));
        args
    }
}

/// The arguments with which the app-server is launched.
pub fn potter_app_server_args(
    codex_bin: &str,
    rounds: Rounds,
    launch: AppServerLaunchConfig,
    potter_xmodel: bool,
    strict_rounds: bool,
    upstream_cli_args: &UpstreamCodexCliArgs,
) -> (r: Vec<String>)
    ensures
        text::texts(r@) == app_server_args(
            codex_bin@,
            rounds@,
            launch,
            potter_xmodel,
            strict_rounds,
            *upstream_cli_args,
        ),
{
    let count = text::decimal_of(rounds.get() as u64);
    let mut args: Vec<String> = Vec::new();
    text::push_text(&mut args, "--codex-bin");
    text::push_text(&mut args, codex_bin);
    text::push_text(&mut args, "--rounds");
    text::push_text(&mut args, count.as_str());
    assert(text::texts(args@) =~= seq!["--codex-bin"@, codex_bin@, "--rounds"@, count@]);
    let ghost number = count@;
    let mut upstream = upstream_cli_args.to_potter_app_server_args();
    let ghost before = args@;
    let ghost more = upstream@;
    args.append(&mut upstream);
    assert(text::texts(args@) =~= text::texts(before) + text::texts(more));
    assert(text::texts(args@) == seq!["--codex-bin"@, codex_bin@, "--rounds"@, number]
        + upstream_args(*upstream_cli_args));
    push_switch(&mut args, "--xmodel", potter_xmodel);
    let strict = if strict_rounds {
        Some(count)
    } else {
        None
    };
    push_optional(&mut args, "--strict-rounds", &strict);
    push_switch(
        &mut args,
        "--dangerously-bypass-approvals-and-sandbox",
        launch.bypass_approvals_and_sandbox,
    );
    let sandbox = match launch.spawn_sandbox {
        Some(mode) => Some(sandbox_mode_cli_arg(mode).to_owned()),
        None => None,
    };
    push_optional(&mut args, "--sandbox", &sandbox);
    let ghost settings = text::texts(args@);
    text::push_text(&mut args, "app-server");
    assert(settings.push("app-server"@) =~= settings + seq!["app-server"@]);
    args
}

/// The subcommand is the last argument, whatever the settings.
pub proof fn law_subcommand_comes_last(
    codex_bin: Seq<char>,
    rounds: nat,
    launch: AppServerLaunchConfig,
    potter_xmodel: bool,
    strict_rounds: bool,
    upstream: UpstreamCodexCliArgs,
)
    ensures
        app_server_args(codex_bin, rounds, launch, potter_xmodel, strict_rounds, upstream).last()
            == "app-server"@,
{
}

/// A flag that is repeated stands before each of its values, which keep their order.
pub proof fn law_flag_before_each_value(flag: Seq<char>, values: Seq<Seq<char>>, i: int)
    requires
        0 <= i < values.len(),
    ensures
        repeated(flag, values).len() == 2 * values.len(),
        repeated(flag, values)[2 * i] == flag,
        repeated(flag, values)[2 * i + 1] == values[i],
    decreases values.len(),
{
    lemma_repeated_len(flag, values);
    let front = values.drop_last();
    lemma_repeated_len(flag, front);
    if i < front.len() {
        law_flag_before_each_value(flag, front, i);
    }
}

proof fn lemma_repeated_len(flag: Seq<char>, values: Seq<Seq<char>>)
    ensures
        repeated(flag, values).len() == 2 * values.len(),
    decreases values.len(),
{
    if values.len() > 0 {
        lemma_repeated_len(flag, values.drop_last());
    }
}

/// Every setting of the backend stands behind its flag, in the order of the command line: the
/// overrides, the features that are switched on and off, the model, the profile, and the search. A
/// setting that was not made is not there.
pub proof fn law_backend_settings_are_handed_on(
    a: UpstreamCodexCliArgs,
    config: Seq<Seq<char>>,
    enable: Seq<Seq<char>>,
    disable: Seq<Seq<char>>,
)
    requires
        config.len() == a.config_overrides@.len(),
        enable.len() == a.enable_features@.len(),
        disable.len() == a.disable_features@.len(),
        forall|i: int| 0 <= i < config.len() ==> config[i] == #[trigger] a.config_overrides@[i]@,
        forall|i: int| 0 <= i < enable.len() ==> enable[i] == #[trigger] a.enable_features@[i]@,
        forall|i: int| 0 <= i < disable.len() ==> disable[i] == #[trigger] a.disable_features@[i]@,
    ensures
        upstream_args(a) == repeated("--config"@, config) + repeated("--enable"@, enable)
            + repeated("--disable"@, disable) + match a.model {
            Some(model) => seq!["--model"@, model@],
            None => seq![],
        } + match a.profile {
            Some(profile) => seq!["--profile"@, profile@],
            None => seq![],
        } + if a.web_search {
            seq!["--search"@]
        } else {
            seq![]
        },
{
    assert(config =~= text::texts(a.config_overrides@));
    assert(enable =~= text::texts(a.enable_features@));
    assert(disable =~= text::texts(a.disable_features@));
}

/// The app-server is told which backend to use and how many rounds to run, then the settings of the
/// backend, then what was asked for of cross-model review, strict rounds (with their number) and
/// the sandbox, and nothing that was not asked for; the subcommand comes last.
pub proof fn law_launch_settings_are_handed_on(
    codex_bin: Seq<char>,
    rounds: nat,
    launch: AppServerLaunchConfig,
    potter_xmodel: bool,
    strict_rounds: bool,
    upstream: UpstreamCodexCliArgs,
)
    ensures
        app_server_args(codex_bin, rounds, launch, potter_xmodel, strict_rounds, upstream) == seq![
            "--codex-bin"@,
            codex_bin,
            "--rounds"@,
            text::decimal(rounds),
        ] + upstream_args(upstream) + if potter_xmodel {
            seq!["--xmodel"@]
        } else {
            seq![]
        } + if strict_rounds {
            seq!["--strict-rounds"@, text::decimal(rounds)]
        } else {
            seq![]
        } + if launch.bypass_approvals_and_sandbox {
            seq!["--dangerously-bypass-approvals-and-sandbox"@]
        } else {
            seq![]
        } + match launch.spawn_sandbox {
            Some(SandboxMode::ReadOnly) => seq!["--sandbox"@, "read-only"@],
            Some(SandboxMode::WorkspaceWrite) => seq!["--sandbox"@, "workspace-write"@],
            Some(SandboxMode::DangerFullAccess) => seq!["--sandbox"@, "danger-full-access"@],
            None => seq![],
        } + seq!["app-server"@],
{
}

} // verus!
