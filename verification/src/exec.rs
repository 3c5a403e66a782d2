//! What every non-interactive run starts from.

use std::path::PathBuf;

use vstd::prelude::*;

use crate::launch::AppServerLaunchConfig;
use crate::launch::UpstreamCodexCliArgs;
use crate::rounds::Rounds;
use crate::text;

verus! {

/// Settings of a non-interactive run.
#[derive(Debug)]
pub struct ExecRunConfig {
    pub rounds: Rounds,
    pub strict_rounds: bool,
    pub codex_bin: String,
    pub backend_launch: AppServerLaunchConfig,
    pub potter_xmodel: bool,
    pub upstream_cli_args: UpstreamCodexCliArgs,
}

/// A project that the app-server has started, as far as a run reports on it.
#[derive(Debug)]
pub struct StartedProject {
    pub project_id: String,
    pub working_dir: String,
    pub project_dir: String,
    pub progress_file: String,
    pub git_commit_start: String,
    pub git_branch: Option<String>,
    pub rounds_total: u32,
}

/// The mathematical counterpart of [`StartedProject`].
pub struct ProjectFacts {
    pub project_id: Seq<char>,
    pub working_dir: Seq<char>,
    pub project_dir: Seq<char>,
    pub progress_file: Seq<char>,
    pub git_commit_start: Seq<char>,
    pub git_branch: Option<Seq<char>>,
    pub rounds_total: u32,
}

impl View for StartedProject {
    type V = ProjectFacts;

    open spec fn view(&self) -> ProjectFacts {
        ProjectFacts {
            project_id: self.project_id@,
            working_dir: self.working_dir@,
            project_dir: self.project_dir@,
            progress_file: self.progress_file@,
            git_commit_start: self.git_commit_start@,
            git_branch: text::opt_text(self.git_branch),
            rounds_total: self.rounds_total,
        }
    }
}

/// The settings of a run, mathematically.
pub struct RunPlan {
    pub rounds: nat,
    pub strict_rounds: bool,
    pub codex_bin: Seq<char>,
    pub backend_launch: AppServerLaunchConfig,
    pub potter_xmodel: bool,
    pub upstream_cli_args: UpstreamCodexCliArgs,
    pub workdir: PathBuf,
}

/// The settings of a run, mathematically.
pub open spec fn plan_of(config: ExecRunConfig, workdir: PathBuf) -> RunPlan {
    RunPlan {
        rounds: config.rounds@,
        strict_rounds: config.strict_rounds,
        codex_bin: config.codex_bin@,
        backend_launch: config.backend_launch,
        potter_xmodel: config.potter_xmodel,
        upstream_cli_args: config.upstream_cli_args,
        workdir,
    }
}

/// The reason of a failure, as a text.
pub open spec fn failure_text<T>(r: Result<T, String>) -> Result<T, Seq<char>> {
    match r {
        Ok(v) => Ok(v),
        Err(e) => Err(e@),
    }
}

/// Nothing but white space.
pub open spec fn is_blank(s: Seq<char>) -> bool {
    text::trim(s).len() == 0
}

/// Whether a text holds nothing but white space.
pub fn blank(s: &str) -> (r: bool)
    ensures
        r == is_blank(s@),
{
    let chars = text::chars_of(s);
    text::trim_of(chars.as_slice()).len() == 0
}

/// The settings of a run are those of its configuration, each in its place, and its working
/// directory; what is known of a project is what was handed over of it.
pub proof fn law_settings_are_taken_over(
    config: ExecRunConfig,
    workdir: PathBuf,
    project: StartedProject,
)
    ensures
        ({
            let plan = plan_of(config, workdir);
            &&& plan.rounds == config.rounds@
            &&& plan.strict_rounds == config.strict_rounds
            &&& plan.codex_bin == config.codex_bin@
            &&& plan.backend_launch == config.backend_launch
            &&& plan.potter_xmodel == config.potter_xmodel
            &&& plan.upstream_cli_args == config.upstream_cli_args
            &&& plan.workdir == workdir
        }),
        project@.project_id == project.project_id@,
        project@.working_dir == project.working_dir@,
        project@.project_dir == project.project_dir@,
        project@.progress_file == project.progress_file@,
        project@.git_commit_start == project.git_commit_start@,
        project@.git_branch == text::opt_text(project.git_branch),
        project@.rounds_total == project.rounds_total,
{
}

/// A failure keeps its reason, and a success its value.
pub proof fn law_failure_keeps_its_reason<T>(value: T, reason: String)
    ensures
        failure_text(Ok::<T, String>(value)) == Ok::<T, Seq<char>>(value),
        failure_text(Err::<T, String>(reason)) == Err::<T, Seq<char>>(reason@),
{
}

} // verus!
