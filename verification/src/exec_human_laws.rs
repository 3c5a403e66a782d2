//! What holds of whole runs of `exec` that print a transcript.

use vstd::prelude::*;

use crate::exec;
use crate::exec::ProjectFacts;
use crate::exec::RunPlan;
use crate::exec_human;
use crate::exec_human::HumanAction;
use crate::exec_human::HumanInput;
use crate::exec_human::PotterProjectRenderExit;
use crate::launch;
use crate::potter_protocol::PotterEventMode;
use crate::protocol::Event;
use crate::protocol::PotterProjectOutcome;
use crate::text;

verus! {

/// What follows a report after which nothing is left to shut down: the run exits with one.
pub open spec fn reports(at: (exec_human::HumanState, HumanAction), message: Seq<char>) -> bool {
    &&& at.1 == (HumanAction::PrintError { message })
    &&& exec_human::human_next(at.0, HumanInput::Done).1 == (HumanAction::Exit { code: 1 })
}

/// The app-server is shut down, and the run exits with `code`.
pub open spec fn shuts_down(at: (exec_human::HumanState, HumanAction), code: i32) -> bool {
    &&& at.1 is Shutdown
    &&& exec_human::human_next(at.0, HumanInput::Done).1 == (HumanAction::Exit { code })
}

/// The project is interrupted, the reason is printed where there is one, the app-server is shut
/// down, and the run exits with one.
pub open spec fn interrupts(
    at: (exec_human::HumanState, HumanAction),
    project_id: Seq<char>,
    message: Option<Seq<char>>,
) -> bool {
    let a = exec_human::human_next(at.0, HumanInput::Done);
    &&& at.1 == (HumanAction::Interrupt { project_id })
    &&& match message {
        Some(m) => {
            &&& a.1 == (HumanAction::PrintError { message: m })
            &&& shuts_down(exec_human::human_next(a.0, HumanInput::Done), 1)
        },
        None => shuts_down(a, 1),
    }
}

/// The settings of a run and its prompt are what the app-server is spawned with and what the
/// project is started with, whether the prompt comes from the command line or is read; the project
/// that was started is the one that is rendered, with the fixed prompt of a turn and with every
/// event that came early, in order. A project that ran to its end ends the run, with zero if it
/// succeeded; any other end of the rendering interrupts that project.
pub proof fn law_project_is_run(
    plan: RunPlan,
    fixed_prompt: Seq<char>,
    prompt: Seq<char>,
    project: ProjectFacts,
    events: Seq<Event>,
    outcome: PotterProjectOutcome,
    error: Seq<char>,
)
    requires
        !exec::is_blank(prompt),
        plan.rounds <= u32::MAX,
    ensures
        ({
            let a = exec_human::human_start(plan, fixed_prompt, Some(prompt));
            let waiting = exec_human::human_start(plan, fixed_prompt, None);
            let b = exec_human::human_next(a.0, HumanInput::Spawned(Ok(())));
            let c = exec_human::human_next(b.0, HumanInput::Initialized(Ok(())));
            let d = exec_human::human_next(c.0, HumanInput::Started(Ok((project, events))));
            let completed = exec_human::human_next(
                d.0,
                HumanInput::Rendered(Ok(PotterProjectRenderExit::Completed { outcome })),
            );
            &&& waiting.1 is ReadPrompt
            &&& exec_human::human_next(waiting.0, HumanInput::Prompt(Ok(prompt))) == a
            &&& a.1 == (HumanAction::Spawn {
                args: launch::app_server_args(
                    plan.codex_bin,
                    plan.rounds,
                    plan.backend_launch,
                    plan.potter_xmodel,
                    plan.strict_rounds,
                    plan.upstream_cli_args,
                ),
            })
            &&& b.1 is Initialize
            &&& c.1 == (HumanAction::StartProject {
                user_message: prompt,
                cwd: Some(plan.workdir),
                rounds: Some(plan.rounds as u32),
                strict_rounds: plan.strict_rounds,
                event_mode: Some(PotterEventMode::Interactive),
            })
            &&& d.1 == (HumanAction::Render {
                project_id: project.project_id,
                working_dir: project.working_dir,
                git_branch: project.git_branch,
                turn_prompt: text::trim_end(fixed_prompt),
                buffered_events: events,
            })
            &&& shuts_down(
                completed,
                if outcome is Succeeded {
                    0
                } else {
                    1
                },
            )
            &&& interrupts(
                exec_human::human_next(
                    d.0,
                    HumanInput::Rendered(Ok(PotterProjectRenderExit::Interrupted)),
                ),
                project.project_id,
                Some("exec human mode cannot resolve interrupted projects"@),
            )
            &&& interrupts(
                exec_human::human_next(
                    d.0,
                    HumanInput::Rendered(Ok(PotterProjectRenderExit::UserRequested)),
                ),
                project.project_id,
                None,
            )
            &&& interrupts(
                exec_human::human_next(
                    d.0,
                    HumanInput::Rendered(Ok(PotterProjectRenderExit::FatalExitRequested)),
                ),
                project.project_id,
                None,
            )
            &&& interrupts(
                exec_human::human_next(d.0, HumanInput::Rendered(Err(error))),
                project.project_id,
                Some(error),
            )
        }),
{
}

/// A run that cannot start its project prints the reason as it was given, and exits with one; an
/// app-server that is there is shut down.
pub proof fn law_run_that_cannot_start(
    plan: RunPlan,
    fixed_prompt: Seq<char>,
    prompt: Seq<char>,
    error: Seq<char>,
)
    ensures
        reports(
            exec_human::human_next(
                exec_human::human_start(plan, fixed_prompt, None).0,
                HumanInput::Prompt(Err(error)),
            ),
            error,
        ),
        exec::is_blank(prompt) ==> reports(
            exec_human::human_start(plan, fixed_prompt, Some(prompt)),
            "prompt is empty"@,
        ),
        !exec::is_blank(prompt) && plan.rounds > u32::MAX ==> reports(
            exec_human::human_start(plan, fixed_prompt, Some(prompt)),
            "round budget "@ + text::decimal(plan.rounds) + " exceeds the maximum of 4294967295"@,
        ),
        !exec::is_blank(prompt) && plan.rounds <= u32::MAX ==> {
            let a = exec_human::human_start(plan, fixed_prompt, Some(prompt));
            let b = exec_human::human_next(a.0, HumanInput::Spawned(Ok(())));
            let not_ready = exec_human::human_next(b.0, HumanInput::Initialized(Err(error)));
            let c = exec_human::human_next(b.0, HumanInput::Initialized(Ok(())));
            let not_started = exec_human::human_next(c.0, HumanInput::Started(Err(error)));
            &&& reports(exec_human::human_next(a.0, HumanInput::Spawned(Err(error))), error)
            &&& not_ready.1 is Shutdown
            &&& reports(exec_human::human_next(not_ready.0, HumanInput::Done), error)
            &&& not_started.1 == (HumanAction::PrintError { message: error })
            &&& shuts_down(exec_human::human_next(not_started.0, HumanInput::Done), 1)
        },
{
}

/// A text is blank exactly if every character of it is white space.
pub proof fn law_blank(s: Seq<char>)
    ensures
        exec::is_blank(s) <==> forall|i: int| 0 <= i < s.len() ==> text::is_white(#[trigger] s[i]),
{
    if forall|i: int| 0 <= i < s.len() ==> text::is_white(#[trigger] s[i]) {
        text::lemma_trim_white(s);
    } else {
        let k = choose|i: int| 0 <= i < s.len() && !text::is_white(#[trigger] s[i]);
        if exec::is_blank(s) {
            text::lemma_trim_start(s);
            let t = text::trim_start(s);
            text::lemma_trim_end(t);
        }
    }
}

/// The result of an action, of whatever value, is one that can come back for it.
pub open spec fn answers(action: HumanAction, input: HumanInput) -> bool {
    match action {
        HumanAction::ReadPrompt => input is Prompt,
        HumanAction::PrintError { .. } => input is Done,
        HumanAction::Spawn { .. } => input is Spawned,
        HumanAction::Initialize => input is Initialized,
        HumanAction::StartProject { .. } => input is Started,
        HumanAction::Render { .. } => input is Rendered,
        HumanAction::Interrupt { .. } => input is Done,
        HumanAction::Shutdown => input is Done,
        HumanAction::Exit { .. } => false,
    }
}

/// Whatever comes back for an action can be handed in: a run is never stuck before its end, and is
/// over once it exited.
pub proof fn law_every_result_can_be_handed_in(
    s: exec_human::HumanState,
    input: HumanInput,
    result: HumanInput,
)
    requires
        exec_human::fits(s.phase, input),
    ensures
        ({
            let (t, action) = exec_human::human_next(s, input);
            exec_human::fits(t.phase, result) <==> answers(action, result)
        }),
{
}

/// So it is from the start.
pub proof fn law_first_result_can_be_handed_in(
    plan: RunPlan,
    fixed_prompt: Seq<char>,
    prompt: Option<Seq<char>>,
    result: HumanInput,
)
    ensures
        ({
            let (t, action) = exec_human::human_start(plan, fixed_prompt, prompt);
            exec_human::fits(t.phase, result) <==> answers(action, result)
        }),
{
}

} // verus!
