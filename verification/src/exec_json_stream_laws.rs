//! What holds of the stream of `exec --json`: what goes into it, in which order, and how it ends.

use vstd::prelude::*;

use crate::exec;
use crate::exec::ProjectFacts;
use crate::exec::RunPlan;
use crate::exec_emitter;
use crate::exec_emitter::ExecJsonlEmitter;
use crate::exec_events::JsonlEvent;
use crate::exec_events::PotterProjectCompletedOutcome;
use crate::exec_events::PotterRoundCompletedOutcome;
use crate::exec_json;
use crate::exec_json::JsonAction;
use crate::exec_json::JsonGoal;
use crate::exec_json::JsonInput;
use crate::exec_json::JsonPhase;
use crate::exec_json::JsonState;
use crate::exec_json::JsonTrace;
use crate::launch;
use crate::potter_protocol::PotterEventMode;
use crate::protocol::EventMsg;
use crate::protocol::PotterProjectOutcome;
use crate::text;

verus! {

/// A run after `n` more writes, each of which succeeded.
pub open spec fn written(at: (JsonState, JsonAction), n: nat) -> (JsonState, JsonAction)
    decreases n,
{
    if n == 0 {
        at
    } else {
        exec_json::json_next(written(at, (n - 1) as nat).0, JsonInput::Written(Ok(())))
    }
}

/// An event of the agent that is for the stream: neither a request that needs somebody at the
/// terminal, nor the end of the project.
pub open spec fn is_forwarded(msg: EventMsg) -> bool {
    !(msg is RequestUserInput) && !(msg is ElicitationRequest) && !(msg is PotterProjectCompleted)
}

/// The same run: only what is open in the stream, and what was written, may differ.
pub open spec fn same_run(s: JsonState, t: JsonState) -> bool {
    s.plan == t.plan && s.prompt == t.prompt && s.project == t.project
}

proof fn lemma_observed_keeps_rounds(emitter: ExecJsonlEmitter, events: Seq<JsonlEvent>)
    ensures
        exec_emitter::observed_all(emitter, events).rounds_run == emitter.rounds_run,
        exec_emitter::observed_all(emitter, events).round_in_progress == emitter.round_in_progress,
    decreases events.len(),
{
    if events.len() > 0 {
        lemma_observed_keeps_rounds(emitter, events.drop_last());
    }
}

/// The state after some events were written.
spec fn having_written(s: JsonState, events: Seq<JsonlEvent>) -> JsonState {
    JsonState {
        emitter: exec_emitter::observed_all(s.emitter, events),
        trace: JsonTrace {
            requested: s.trace.requested + events,
            written: s.trace.written + events,
            ..s.trace
        },
        ..s
    }
}

/// A group of writes, one after the other.
proof fn lemma_writes(s: JsonState, events: Seq<JsonlEvent>, goal: JsonGoal, n: nat)
    requires
        n <= events.len(),
    ensures
        n < events.len() ==> written(s.write_all(events, goal), n) == having_written(
            s,
            events.take(n as int),
        ).write(events[n as int], events.skip(n as int + 1), goal),
        n == events.len() ==> written(s.write_all(events, goal), n) == having_written(
            s,
            events,
        ).wrote(goal),
    decreases n,
{
    let at = s.write_all(events, goal);
    if n == 0 {
        assert(s.trace.requested + events.take(0) =~= s.trace.requested);
        assert(s.trace.written + events.take(0) =~= s.trace.written);
        assert(events.take(0).len() == 0);
        assert(having_written(s, events.take(0)) == s);
        if events.len() == 0 {
            assert(events =~= events.take(0));
        }
    } else {
        lemma_writes(s, events, goal, (n - 1) as nat);
        let m = (n - 1) as int;
        let before = having_written(s, events.take(m));
        let waiting = written(at, (n - 1) as nat).0;
        assert(events.take(n as int).drop_last() =~= events.take(m));
        assert(events.take(n as int).last() == events[m]);
        assert((s.trace.requested + events.take(m)).push(events[m]) =~= s.trace.requested
            + events.take(n as int));
        assert((s.trace.written + events.take(m)).push(events[m]) =~= s.trace.written
            + events.take(n as int));
        let t = waiting.with_written(events[m]);
        let after = having_written(s, events.take(n as int));
        assert(t == JsonState { phase: t.phase, ..after });
        let queue = events.skip(m + 1);
        if n < events.len() {
            assert(queue[0] == events[n as int]);
            assert(queue.skip(1) =~= events.skip(n as int + 1));
        } else {
            assert(queue.len() == 0);
            assert(events.take(n as int) =~= events);
        }
    }
}

/// Every event of the agent that is for the stream is handed to the translator, as it came, and a
/// round that starts is announced to it; nothing is written or forgotten on the way.
pub proof fn law_event_is_translated(s: JsonState, msg: EventMsg)
    requires
        s.phase is ReadEvent,
        is_forwarded(msg),
    ensures
        ({
            let (t, action) = exec_json::json_next(s, JsonInput::Event(Ok(Some(msg))));
            &&& action == (JsonAction::Translate { msg, round_started: msg is PotterRoundStarted })
            &&& t.phase is Translate
            &&& same_run(s, t)
            &&& t.pending == s.pending
            &&& t.trace == s.trace
            &&& t.emitter.rounds_run == s.emitter.rounds_run
            &&& if msg is PotterRoundStarted {
                t.emitter.round_in_progress && !t.emitter.json_turn_open
            } else {
                t.emitter == s.emitter
            }
        }),
{
}

/// What the translator made of an event is written, whole and in order, before the next event of
/// the agent is taken: those that came before the answer to the start of the project first, as if
/// they were read then, and after them those that are read.
pub proof fn law_translated_events_are_written(s: JsonState, events: Seq<JsonlEvent>, n: nat)
    requires
        s.phase is Translate,
        n <= events.len(),
    ensures
        ({
            let at = exec_json::json_next(s, JsonInput::Translated(events));
            let (t, action) = written(at, n);
            if n < events.len() {
                &&& action == (JsonAction::Write { event: events[n as int] })
                &&& t.phase is Write
                &&& t.trace.written == s.trace.written + events.take(n as int)
                &&& same_run(s, t)
                &&& t.pending == s.pending
            } else {
                &&& exists|u: JsonState|
                    {
                        &&& #[trigger] same_run(s, u)
                        &&& u.phase is ReadEvent
                        &&& u.trace.written == s.trace.written + events
                        &&& u.trace.completed == s.trace.completed
                        &&& s.pending.len() == 0 ==> u.pending.len() == 0 && (t, action) == (
                            u,
                            JsonAction::ReadEvent,
                        )
                        &&& s.pending.len() > 0 ==> u.pending == s.pending.skip(1) && (t, action)
                            == exec_json::json_next(u, JsonInput::Event(Ok(Some(s.pending[0]))))
                        &&& u.emitter.rounds_run == if s.phase->Translate_round_finished
                            && s.emitter.rounds_run < u32::MAX {
                            s.emitter.rounds_run + 1
                        } else {
                            s.emitter.rounds_run as int
                        }
                        &&& u.emitter.round_in_progress == (s.emitter.round_in_progress
                            && !s.phase->Translate_round_finished)
                    }
            }
        }),
{
    let round_finished = s.phase->Translate_round_finished;
    let goal = JsonGoal::Translated { round_finished };
    lemma_writes(s, events, goal, n);
    lemma_observed_keeps_rounds(s.emitter, events);
    if n == events.len() {
        let v = having_written(s, events);
        let w = if round_finished {
            JsonState { emitter: v.emitter.with_round_finished(), ..v }
        } else {
            v
        };
        let u = JsonState {
            phase: JsonPhase::ReadEvent,
            pending: if s.pending.len() > 0 {
                s.pending.skip(1)
            } else {
                s.pending
            },
            ..w
        };
        assert(same_run(s, u));
        let next = written(exec_json::json_next(s, JsonInput::Translated(events)), n);
        assert(next == v.wrote(goal));
        if s.pending.len() == 0 {
            assert(next == (u, JsonAction::ReadEvent));
        } else {
            let msg = s.pending[0];
            assert(next == JsonState { pending: s.pending.skip(1), ..w }.handle(msg));
            assert(u.handle(msg) == JsonState { pending: s.pending.skip(1), ..w }.handle(msg)) by {
                lemma_phase_does_not_matter(
                    u,
                    JsonState { pending: s.pending.skip(1), ..w },
                    msg,
                );
            }
        }
    }
}

proof fn lemma_phase_does_not_matter(u: JsonState, v: JsonState, msg: EventMsg)
    requires
        u == (JsonState { phase: u.phase, ..v }),
    ensures
        u.handle(msg) == v.handle(msg),
{
}

/// One event of the agent, from reading it to asking for the next one: what the translator made of
/// it is what the stream has grown by, nothing more, and a round that finished is counted.
pub proof fn law_stream_grows_by_what_was_translated(
    s: JsonState,
    msg: EventMsg,
    events: Seq<JsonlEvent>,
)
    requires
        s.phase is ReadEvent,
        s.pending.len() == 0,
        is_forwarded(msg),
    ensures
        ({
            let read = exec_json::json_next(s, JsonInput::Event(Ok(Some(msg))));
            let translated = exec_json::json_next(read.0, JsonInput::Translated(events));
            let (t, action) = written(translated, events.len());
            &&& read.1 == (JsonAction::Translate { msg, round_started: msg is PotterRoundStarted })
            &&& action is ReadEvent
            &&& t.phase is ReadEvent
            &&& t.pending.len() == 0
            &&& same_run(s, t)
            &&& t.trace.written == s.trace.written + events
            &&& t.emitter.rounds_run == if msg is PotterRoundFinished && s.emitter.rounds_run
                < u32::MAX {
                s.emitter.rounds_run + 1
            } else {
                s.emitter.rounds_run as int
            }
        }),
{
    let read = exec_json::json_next(s, JsonInput::Event(Ok(Some(msg))));
    law_event_is_translated(s, msg);
    law_translated_events_are_written(read.0, events, events.len());
}

/// What a translator makes of some events of the agent, one after the other.
pub open spec fn forwarded(
    msgs: Seq<EventMsg>,
    translate: spec_fn(EventMsg) -> Seq<JsonlEvent>,
) -> Seq<JsonlEvent>
    decreases msgs.len(),
{
    if msgs.len() == 0 {
        seq![]
    } else {
        forwarded(msgs.drop_last(), translate) + translate(msgs.last())
    }
}

/// A run after some events of the agent were read, translated and written.
pub open spec fn read_all(
    s: JsonState,
    msgs: Seq<EventMsg>,
    translate: spec_fn(EventMsg) -> Seq<JsonlEvent>,
) -> JsonState
    decreases msgs.len(),
{
    if msgs.len() == 0 {
        s
    } else {
        let before = read_all(s, msgs.drop_last(), translate);
        let read = exec_json::json_next(before, JsonInput::Event(Ok(Some(msgs.last()))));
        let events = translate(msgs.last());
        written(exec_json::json_next(read.0, JsonInput::Translated(events)), events.len()).0
    }
}

/// Whatever the agent sends while its project runs, the stream holds what the translator makes of
/// it, of every event and in order.
pub proof fn law_every_event_is_forwarded(
    s: JsonState,
    msgs: Seq<EventMsg>,
    translate: spec_fn(EventMsg) -> Seq<JsonlEvent>,
)
    requires
        s.phase is ReadEvent,
        s.pending.len() == 0,
        forall|i: int| 0 <= i < msgs.len() ==> is_forwarded(#[trigger] msgs[i]),
    ensures
        ({
            let t = read_all(s, msgs, translate);
            &&& t.phase is ReadEvent
            &&& t.pending.len() == 0
            &&& same_run(s, t)
            &&& t.trace.written == s.trace.written + forwarded(msgs, translate)
        }),
    decreases msgs.len(),
{
    if msgs.len() == 0 {
        assert(s.trace.written + forwarded(msgs, translate) =~= s.trace.written);
    } else {
        let front = msgs.drop_last();
        assert forall|i: int| 0 <= i < front.len() implies is_forwarded(#[trigger] front[i]) by {
            assert(front[i] == msgs[i]);
        }
        law_every_event_is_forwarded(s, front, translate);
        let before = read_all(s, front, translate);
        law_stream_grows_by_what_was_translated(before, msgs.last(), translate(msgs.last()));
        let a = s.trace.written;
        let b = forwarded(front, translate);
        let c = translate(msgs.last());
        assert(a + b + c =~= a + (b + c));
    }
}

/// The settings of a run and its prompt are what the app-server is spawned with and what the
/// project is started with, whether the prompt comes from the command line or is read; and the
/// project that was started is announced, with that prompt, before its first event is taken.
pub proof fn law_project_is_started(
    plan: RunPlan,
    prompt: Seq<char>,
    project: ProjectFacts,
    pending: Seq<EventMsg>,
)
    requires
        !exec::is_blank(prompt),
        plan.rounds <= u32::MAX,
    ensures
        ({
            let a = exec_json::json_start(plan, Some(prompt));
            let waiting = exec_json::json_start(plan, None);
            let b = exec_json::json_next(a.0, JsonInput::Spawned(Ok(())));
            let c = exec_json::json_next(b.0, JsonInput::Initialized(Ok(())));
            let d = exec_json::json_next(c.0, JsonInput::Started(Ok((project, pending))));
            let (e, action) = exec_json::json_next(d.0, JsonInput::Written(Ok(())));
            let announcement = JsonlEvent::ProjectStarted {
                working_dir: project.working_dir,
                project_dir: project.project_dir,
                progress_file: project.progress_file,
                user_message: prompt,
                git_commit_start: project.git_commit_start,
                git_branch: project.git_branch,
            };
            &&& waiting.1 is ReadPrompt
            &&& exec_json::json_next(waiting.0, JsonInput::Prompt(Ok(prompt))) == a
            &&& a.1 == (JsonAction::Spawn {
                args: launch::app_server_args(
                    plan.codex_bin,
                    plan.rounds,
                    plan.backend_launch,
                    plan.potter_xmodel,
                    plan.strict_rounds,
                    plan.upstream_cli_args,
                ),
            })
            &&& b.1 is Initialize
            &&& c.1 == (JsonAction::StartProject {
                user_message: prompt,
                cwd: Some(plan.workdir),
                rounds: Some(plan.rounds as u32),
                strict_rounds: plan.strict_rounds,
                event_mode: Some(PotterEventMode::ExecJson),
            })
            &&& d.1 == (JsonAction::Write { event: announcement })
            &&& e.trace.written == seq![announcement]
            &&& e.project == project
            &&& pending.len() == 0 ==> action is ReadEvent && e.phase is ReadEvent
                && e.pending.len() == 0
            &&& pending.len() > 0 && is_forwarded(pending[0]) ==> {
                &&& action == (JsonAction::Translate {
                    msg: pending[0],
                    round_started: pending[0] is PotterRoundStarted,
                })
                &&& e.pending == pending.skip(1)
            }
            &&& e.emitter.rounds_run == 0
        }),
{
    let a = exec_json::json_start(plan, Some(prompt));
    let b = exec_json::json_next(a.0, JsonInput::Spawned(Ok(())));
    let c = exec_json::json_next(b.0, JsonInput::Initialized(Ok(())));
    let d = exec_json::json_next(c.0, JsonInput::Started(Ok((project, pending))));
    let announcement = JsonlEvent::ProjectStarted {
        working_dir: project.working_dir,
        project_dir: project.project_dir,
        progress_file: project.progress_file,
        user_message: prompt,
        git_commit_start: project.git_commit_start,
        git_branch: project.git_branch,
    };
    assert(d.0.trace.written.push(announcement) =~= seq![announcement]);
}

/// What follows a report that no project was started: the run exits with one.
pub open spec fn reports(at: (JsonState, JsonAction), message: Seq<char>) -> bool {
    &&& at.1 == (JsonAction::ReportError { message })
    &&& exec_json::json_next(at.0, JsonInput::Done).1 == (JsonAction::Exit { code: 1 })
}

/// A run that cannot start its project reports the reason as it was given, and exits with one; an
/// app-server that is there is shut down.
pub proof fn law_run_that_cannot_start(plan: RunPlan, prompt: Seq<char>, error: Seq<char>)
    ensures
        reports(
            exec_json::json_next(
                exec_json::json_start(plan, None).0,
                JsonInput::Prompt(Err(error)),
            ),
            error,
        ),
        exec::is_blank(prompt) ==> reports(
            exec_json::json_start(plan, Some(prompt)),
            "prompt is empty"@,
        ),
        !exec::is_blank(prompt) && plan.rounds > u32::MAX ==> reports(
            exec_json::json_start(plan, Some(prompt)),
            "round budget "@ + text::decimal(plan.rounds) + " exceeds the maximum of 4294967295"@,
        ),
        !exec::is_blank(prompt) && plan.rounds <= u32::MAX ==> {
            let a = exec_json::json_start(plan, Some(prompt));
            let b = exec_json::json_next(a.0, JsonInput::Spawned(Ok(())));
            let not_ready = exec_json::json_next(b.0, JsonInput::Initialized(Err(error)));
            let c = exec_json::json_next(b.0, JsonInput::Initialized(Ok(())));
            let not_started = exec_json::json_next(c.0, JsonInput::Started(Err(error)));
            let shut_down = exec_json::json_next(not_started.0, JsonInput::Done);
            &&& reports(exec_json::json_next(a.0, JsonInput::Spawned(Err(error))), error)
            &&& not_ready.1 is Shutdown
            &&& reports(exec_json::json_next(not_ready.0, JsonInput::Done), error)
            &&& not_started.1 == (JsonAction::ReportError { message: error })
            &&& shut_down.1 is Shutdown
            &&& exec_json::json_next(shut_down.0, JsonInput::Done).1 == (JsonAction::Exit {
                code: 1,
            })
        },
{
}

/// The report on a project and what follows it: `at` asks for what the report needs, the report is
/// written with what came back and with what is known of the project, the app-server is shut down,
/// and the run exits with zero if the project succeeded and the report was written.
pub open spec fn completes(
    at: (JsonState, JsonAction),
    project: ProjectFacts,
    outcome: PotterProjectCompletedOutcome,
    message: Option<Seq<char>>,
    rounds_run: u32,
    git_commit_end: Seq<char>,
    duration_secs: u64,
    error: Seq<char>,
) -> bool {
    let report = exec_json::json_next(at.0, JsonInput::Ended { git_commit_end, duration_secs });
    let good = exec_json::json_next(report.0, JsonInput::Written(Ok(())));
    let bad = exec_json::json_next(report.0, JsonInput::Written(Err(error)));
    let succeeded = outcome is Succeeded;
    let event = JsonlEvent::ProjectCompleted {
        outcome,
        message,
        rounds_run,
        rounds_total: project.rounds_total,
        duration_secs,
        progress_file: project.progress_file,
        git_commit_start: project.git_commit_start,
        git_commit_end,
        git_branch: project.git_branch,
    };
    &&& at.1 is ResolveEnd
    &&& report.1 == (JsonAction::Write { event })
    &&& good.1 is Shutdown
    &&& good.0.trace.written == at.0.trace.written.push(event)
    &&& exec_json::json_next(good.0, JsonInput::Done).1 == (JsonAction::Exit {
        code: if succeeded {
            0
        } else {
            1
        },
    })
    &&& bad.1 is Shutdown
    &&& exec_json::json_next(bad.0, JsonInput::Done).1 == (JsonAction::Exit { code: 1 })
}

/// A project that ended is reported with its outcome and with the reason that it gave; one that was
/// interrupted is reported as failed.
pub proof fn law_end_of_the_project_is_reported(
    s: JsonState,
    outcome: PotterProjectOutcome,
    git_commit_end: Seq<char>,
    duration_secs: u64,
    error: Seq<char>,
)
    requires
        s.phase is ReadEvent,
    ensures
        completes(
            exec_json::json_next(
                s,
                JsonInput::Event(Ok(Some(EventMsg::PotterProjectCompleted { outcome }))),
            ),
            s.project,
            match outcome {
                PotterProjectOutcome::Succeeded => PotterProjectCompletedOutcome::Succeeded,
                PotterProjectOutcome::Interrupted => PotterProjectCompletedOutcome::Fatal,
                PotterProjectOutcome::BudgetExhausted => {
                    PotterProjectCompletedOutcome::BudgetExhausted
                },
                PotterProjectOutcome::TaskFailed { .. } => {
                    PotterProjectCompletedOutcome::TaskFailed
                },
                PotterProjectOutcome::Fatal { .. } => PotterProjectCompletedOutcome::Fatal,
            },
            match outcome {
                PotterProjectOutcome::Succeeded => None,
                PotterProjectOutcome::Interrupted => Some("interrupted"@),
                PotterProjectOutcome::BudgetExhausted => None,
                PotterProjectOutcome::TaskFailed { message } => Some(message@),
                PotterProjectOutcome::Fatal { message } => Some(message@),
            },
            s.emitter.rounds_run,
            git_commit_end,
            duration_secs,
            error,
        ),
{
}

/// What a run that gives up writes: the reason, and that the turn and the round that are open
/// failed for it.
pub open spec fn closing(turn_open: bool, round_open: bool, message: Seq<char>) -> Seq<JsonlEvent> {
    let error = JsonlEvent::Error { message };
    let turn = JsonlEvent::TurnFailed { message };
    let round = JsonlEvent::RoundCompleted {
        outcome: PotterRoundCompletedOutcome::Fatal,
        message: Some(message),
    };
    match (turn_open, round_open) {
        (true, true) => seq![error, turn, round],
        (true, false) => seq![error, turn],
        (false, true) => seq![error, round],
        (false, false) => seq![error],
    }
}

/// A run in state `s` gives up for a reason: it writes what closes its stream, interrupts its
/// project, and reports it as failed for that reason; a round that was in progress counts as run.
pub open spec fn gives_up(
    at: (JsonState, JsonAction),
    s: JsonState,
    message: Seq<char>,
    git_commit_end: Seq<char>,
    duration_secs: u64,
    error: Seq<char>,
) -> bool {
    let events = closing(s.emitter.json_turn_open, s.emitter.round_in_progress, message);
    let interrupt = written(at, events.len());
    let rounds_run = if s.emitter.round_in_progress && s.emitter.rounds_run < u32::MAX {
        (s.emitter.rounds_run + 1) as u32
    } else {
        s.emitter.rounds_run
    };
    &&& at.1 == (JsonAction::Write { event: events[0] })
    &&& forall|i: nat|
        i < events.len() ==> (#[trigger] written(at, i)).1 == (JsonAction::Write {
            event: events[i as int],
        })
    &&& interrupt.1 == (JsonAction::Interrupt { project_id: s.project.project_id })
    &&& interrupt.0.trace.written == s.trace.written + events
    &&& completes(
        exec_json::json_next(interrupt.0, JsonInput::Done),
        s.project,
        PotterProjectCompletedOutcome::Fatal,
        Some(message),
        rounds_run,
        git_commit_end,
        duration_secs,
        error,
    )
}

proof fn lemma_gives_up(
    s: JsonState,
    message: Seq<char>,
    git_commit_end: Seq<char>,
    duration_secs: u64,
    error: Seq<char>,
)
    ensures
        gives_up(s.fail(message), s, message, git_commit_end, duration_secs, error),
{
    let events = closing(s.emitter.json_turn_open, s.emitter.round_in_progress, message);
    assert(events =~= s.emitter.failure_events(message));
    let goal = JsonGoal::Failed { message };
    let at = s.fail(message);
    assert(at == s.write_all(events, goal));
    lemma_writes(s, events, goal, events.len());
    lemma_observed_keeps_rounds(s.emitter, events);
    assert forall|i: nat| i < events.len() implies (#[trigger] written(at, i)).1 == (
    JsonAction::Write { event: events[i as int] }) by {
        lemma_writes(s, events, goal, i);
    }
    assert(at == written(at, 0));
    let interrupt = written(at, events.len());
    assert(interrupt == having_written(s, events).wrote(goal));
    lemma_completes(
        interrupt.0,
        PotterProjectCompletedOutcome::Fatal,
        Some(message),
        git_commit_end,
        duration_secs,
        error,
    );
    assert(exec_json::json_next(interrupt.0, JsonInput::Done) == interrupt.0.resolve_end(
        PotterProjectCompletedOutcome::Fatal,
        Some(message),
    ));
}

/// The report on a project, from any state.
proof fn lemma_completes(
    s: JsonState,
    outcome: PotterProjectCompletedOutcome,
    message: Option<Seq<char>>,
    git_commit_end: Seq<char>,
    duration_secs: u64,
    error: Seq<char>,
)
    ensures
        completes(
            s.resolve_end(outcome, message),
            s.project,
            outcome,
            message,
            s.emitter.rounds_run,
            git_commit_end,
            duration_secs,
            error,
        ),
{
}

/// Everything that a run cannot go on after makes it give up for that reason: a request that needs
/// somebody at the terminal, the end of the events, an error on the way to them, and an event that
/// could not be written.
pub proof fn law_run_gives_up(
    s: JsonState,
    msg: EventMsg,
    cause: Seq<char>,
    git_commit_end: Seq<char>,
    duration_secs: u64,
    error: Seq<char>,
)
    ensures
        s.phase is ReadEvent ==> gives_up(
            exec_json::json_next(s, JsonInput::Event(Err(cause))),
            s,
            cause,
            git_commit_end,
            duration_secs,
            error,
        ),
        s.phase is ReadEvent ==> gives_up(
            exec_json::json_next(s, JsonInput::Event(Ok(None))),
            s,
            "potter app-server event stream closed unexpectedly"@,
            git_commit_end,
            duration_secs,
            error,
        ),
        s.phase is ReadEvent ==> match msg {
            EventMsg::RequestUserInput(request) => gives_up(
                exec_json::json_next(s, JsonInput::Event(Ok(Some(msg)))),
                s,
                "unsupported interactive request: RequestUserInput call_id="@ + request.call_id@,
                git_commit_end,
                duration_secs,
                error,
            ),
            EventMsg::ElicitationRequest(request) => gives_up(
                exec_json::json_next(s, JsonInput::Event(Ok(Some(msg)))),
                s,
                "unsupported interactive request: ElicitationRequest server_name="@
                    + request.server_name@ + " request_id="@ + request.id@,
                git_commit_end,
                duration_secs,
                error,
            ),
            _ => true,
        },
        s.phase is Write && s.phase->Write_goal is Translated ==> gives_up(
            exec_json::json_next(s, JsonInput::Written(Err(cause))),
            s,
            "write exec jsonl event: "@ + cause,
            git_commit_end,
            duration_secs,
            error,
        ),
{
    lemma_gives_up(s, cause, git_commit_end, duration_secs, error);
    lemma_gives_up(
        s,
        "potter app-server event stream closed unexpectedly"@,
        git_commit_end,
        duration_secs,
        error,
    );
    lemma_gives_up(s, "write exec jsonl event: "@ + cause, git_commit_end, duration_secs, error);
    match msg {
        EventMsg::RequestUserInput(request) => {
            lemma_gives_up(
                s,
                "unsupported interactive request: RequestUserInput call_id="@ + request.call_id@,
                git_commit_end,
                duration_secs,
                error,
            );
        },
        EventMsg::ElicitationRequest(request) => {
            lemma_gives_up(
                s,
                "unsupported interactive request: ElicitationRequest server_name="@
                    + request.server_name@ + " request_id="@ + request.id@,
                git_commit_end,
                duration_secs,
                error,
            );
        },
        _ => {},
    }
}

/// A run that can write neither its first event nor the last ones shuts the app-server down and
/// exits with one, without trying to write again.
pub proof fn law_broken_stream_ends_the_run(s: JsonState, cause: Seq<char>)
    requires
        s.phase is Write,
        !(s.phase->Write_goal is Translated),
    ensures
        ({
            let a = exec_json::json_next(s, JsonInput::Written(Err(cause)));
            &&& a.1 is Shutdown
            &&& exec_json::json_next(a.0, JsonInput::Done).1 == (JsonAction::Exit { code: 1 })
        }),
{
}

/// What is asked to be written is what is remembered as asked for, and becomes part of what was
/// written once that succeeded, and not otherwise.
pub proof fn law_written_is_what_was_asked_for(s: JsonState, input: JsonInput, cause: Seq<char>)
    requires
        exec_json::fits(s.phase, input),
    ensures
        ({
            let (t, action) = exec_json::json_next(s, input);
            match action {
                JsonAction::Write { event } => {
                    &&& t.trace.requested == s.trace.requested.push(event)
                    &&& exec_json::json_next(t, JsonInput::Written(Ok(()))).0.trace.written
                        == t.trace.written.push(event)
                    &&& exec_json::json_next(t, JsonInput::Written(Err(cause))).0.trace.written
                        == t.trace.written
                },
                JsonAction::ReportError { message } => t.trace.requested
                    == s.trace.requested.push(JsonlEvent::Error { message }),
                _ => t.trace.requested == s.trace.requested,
            }
        }),
{
    let (t, action) = exec_json::json_next(s, input);
    if action is Write {
        assert(t.phase is Write);
        assert(t.phase->Write_current == action->Write_event);
        let a = exec_json::json_next(t, JsonInput::Written(Ok(())));
        lemma_writing_keeps_written(
            t.with_written(action->Write_event),
            t.phase->Write_queue,
            t.phase->Write_goal,
        );
        lemma_failing_keeps_written(t, cause);
    }
}

proof fn lemma_writing_keeps_written(s: JsonState, events: Seq<JsonlEvent>, goal: JsonGoal)
    ensures
        s.write_all(events, goal).0.trace.written == s.trace.written,
{
}

proof fn lemma_failing_keeps_written(s: JsonState, cause: Seq<char>)
    requires
        s.phase is Write,
    ensures
        s.write_failed(s.phase->Write_goal, cause).0.trace.written == s.trace.written,
{
}

/// The result of an action, of whatever value, is one that can come back for it.
pub open spec fn answers(action: JsonAction, input: JsonInput) -> bool {
    match action {
        JsonAction::ReadPrompt => input is Prompt,
        JsonAction::ReportError { .. } => input is Done,
        JsonAction::Spawn { .. } => input is Spawned,
        JsonAction::Initialize => input is Initialized,
        JsonAction::StartProject { .. } => input is Started,
        JsonAction::Write { .. } => input is Written,
        JsonAction::ReadEvent => input is Event,
        JsonAction::Translate { .. } => input is Translated,
        JsonAction::Interrupt { .. } => input is Done,
        JsonAction::ResolveEnd => input is Ended,
        JsonAction::Shutdown => input is Done,
        JsonAction::Exit { .. } => false,
    }
}

/// What is asked for and what can be handed in agree.
spec fn agree(at: (JsonState, JsonAction), result: JsonInput) -> bool {
    exec_json::fits(at.0.phase, result) <==> answers(at.1, result)
}

proof fn lemma_handle_agrees(s: JsonState, msg: EventMsg, result: JsonInput)
    ensures
        agree(s.handle(msg), result),
{
}

proof fn lemma_wrote_agrees(s: JsonState, goal: JsonGoal, result: JsonInput)
    ensures
        agree(s.wrote(goal), result),
{
    let t = match goal {
        JsonGoal::Translated { round_finished: true } => JsonState {
            emitter: s.emitter.with_round_finished(),
            ..s
        },
        _ => s,
    };
    if s.pending.len() > 0 {
        lemma_handle_agrees(
            JsonState { pending: t.pending.skip(1), ..t },
            t.pending[0],
            result,
        );
    }
    if goal is Started || goal is Translated {
        assert(s.wrote(goal) == t.read_on());
        assert(agree(t.read_on(), result));
    }
}

proof fn lemma_write_all_agrees(
    s: JsonState,
    events: Seq<JsonlEvent>,
    goal: JsonGoal,
    result: JsonInput,
)
    ensures
        agree(s.write_all(events, goal), result),
{
    if events.len() == 0 {
        lemma_wrote_agrees(s, goal, result);
    }
}

/// Whatever comes back for an action can be handed in: a run is never stuck before its end, and is
/// over once it exited.
pub proof fn law_every_result_can_be_handed_in(s: JsonState, input: JsonInput, result: JsonInput)
    requires
        exec_json::fits(s.phase, input),
    ensures
        ({
            let (t, action) = exec_json::json_next(s, input);
            exec_json::fits(t.phase, result) <==> answers(action, result)
        }),
{
    match (s.phase, input) {
        (JsonPhase::Write { current, queue, goal }, JsonInput::Written(Ok(_))) => {
            lemma_write_all_agrees(s.with_written(current), queue, goal, result);
            assert(agree(exec_json::json_next(s, input), result));
        },
        (JsonPhase::ReadEvent, JsonInput::Event(Ok(Some(msg)))) => {
            lemma_handle_agrees(s, msg, result);
            assert(agree(exec_json::json_next(s, input), result));
        },
        (JsonPhase::Translate { round_finished }, JsonInput::Translated(events)) => {
            lemma_write_all_agrees(s, events, JsonGoal::Translated { round_finished }, result);
            assert(agree(exec_json::json_next(s, input), result));
        },
        _ => {},
    }
}

/// So it is from the start.
pub proof fn law_first_result_can_be_handed_in(
    plan: RunPlan,
    prompt: Option<Seq<char>>,
    result: JsonInput,
)
    ensures
        ({
            let (t, action) = exec_json::json_start(plan, prompt);
            exec_json::fits(t.phase, result) <==> answers(action, result)
        }),
{
}

/// A run after `n` more events that it has taken were translated and written.
pub open spec fn taken(
    at: (JsonState, JsonAction),
    translate: spec_fn(EventMsg) -> Seq<JsonlEvent>,
    n: nat,
) -> (JsonState, JsonAction)
    decreases n,
{
    match at.1 {
        JsonAction::Translate { msg, .. } => if n == 0 {
            at
        } else {
            let events = translate(msg);
            taken(
                written(
                    exec_json::json_next(at.0, JsonInput::Translated(events)),
                    events.len(),
                ),
                translate,
                (n - 1) as nat,
            )
        },
        _ => at,
    }
}

proof fn lemma_forwarded_from_the_front(
    msg: EventMsg,
    rest: Seq<EventMsg>,
    translate: spec_fn(EventMsg) -> Seq<JsonlEvent>,
)
    ensures
        forwarded(seq![msg] + rest, translate) == translate(msg) + forwarded(rest, translate),
    decreases rest.len(),
{
    let all = seq![msg] + rest;
    if rest.len() == 0 {
        assert(all.drop_last() =~= Seq::<EventMsg>::empty());
        assert(forwarded(all.drop_last(), translate) =~= Seq::<JsonlEvent>::empty());
        assert(forwarded(all, translate) =~= translate(msg) + forwarded(rest, translate));
    } else {
        lemma_forwarded_from_the_front(msg, rest.drop_last(), translate);
        assert(all.drop_last() =~= seq![msg] + rest.drop_last());
        assert(all.last() == rest.last());
        let a = translate(msg);
        let b = forwarded(rest.drop_last(), translate);
        let c = translate(rest.last());
        assert(a + b + c =~= a + (b + c));
    }
}

/// An event that is taken, and those that wait behind it.
proof fn lemma_waiting_events_are_forwarded(
    s: JsonState,
    msg: EventMsg,
    translate: spec_fn(EventMsg) -> Seq<JsonlEvent>,
)
    requires
        s.phase is ReadEvent,
        is_forwarded(msg),
        forall|i: int| 0 <= i < s.pending.len() ==> is_forwarded(#[trigger] s.pending[i]),
    ensures
        ({
            let at = exec_json::json_next(s, JsonInput::Event(Ok(Some(msg))));
            let (t, action) = taken(at, translate, s.pending.len() + 1);
            &&& action is ReadEvent
            &&& t.phase is ReadEvent
            &&& t.pending.len() == 0
            &&& same_run(s, t)
            &&& t.trace.written == s.trace.written + forwarded(seq![msg] + s.pending, translate)
        }),
    decreases s.pending.len(),
{
    let at = exec_json::json_next(s, JsonInput::Event(Ok(Some(msg))));
    law_event_is_translated(s, msg);
    let events = translate(msg);
    law_translated_events_are_written(at.0, events, events.len());
    lemma_forwarded_from_the_front(msg, s.pending, translate);
    let next = written(
        exec_json::json_next(at.0, JsonInput::Translated(events)),
        events.len(),
    );
    let u = choose|u: JsonState|
        {
            &&& #[trigger] same_run(at.0, u)
            &&& u.phase is ReadEvent
            &&& u.trace.written == at.0.trace.written + events
            &&& u.trace.completed == at.0.trace.completed
            &&& at.0.pending.len() == 0 ==> u.pending.len() == 0 && next == (
                u,
                JsonAction::ReadEvent,
            )
            &&& at.0.pending.len() > 0 ==> u.pending == at.0.pending.skip(1) && next
                == exec_json::json_next(u, JsonInput::Event(Ok(Some(at.0.pending[0]))))
        };
    assert(taken(at, translate, s.pending.len() + 1) == taken(next, translate, s.pending.len()));
    let a = s.trace.written;
    let b = translate(msg);
    let c = forwarded(s.pending, translate);
    assert(a + b + c =~= a + (b + c));
    if s.pending.len() == 0 {
        assert(c =~= Seq::<JsonlEvent>::empty());
        assert(a + b + c =~= a + b);
    } else {
        let first = s.pending[0];
        let rest = s.pending.skip(1);
        assert(s.pending =~= seq![first] + rest);
        assert forall|i: int| 0 <= i < u.pending.len() implies is_forwarded(
            #[trigger] u.pending[i],
        ) by {
            assert(u.pending[i] == s.pending[i + 1]);
        }
        lemma_waiting_events_are_forwarded(u, first, translate);
    }
}

/// The events that came before the answer to the start of the project are forwarded before any
/// other, all of them and in order: once they are, the stream holds the announcement of the project
/// and what the translator made of them, and the next event is read.
pub proof fn law_early_events_come_first(
    plan: RunPlan,
    prompt: Seq<char>,
    project: ProjectFacts,
    pending: Seq<EventMsg>,
    translate: spec_fn(EventMsg) -> Seq<JsonlEvent>,
)
    requires
        !exec::is_blank(prompt),
        plan.rounds <= u32::MAX,
        forall|i: int| 0 <= i < pending.len() ==> is_forwarded(#[trigger] pending[i]),
    ensures
        ({
            let a = exec_json::json_start(plan, Some(prompt));
            let b = exec_json::json_next(a.0, JsonInput::Spawned(Ok(())));
            let c = exec_json::json_next(b.0, JsonInput::Initialized(Ok(())));
            let d = exec_json::json_next(c.0, JsonInput::Started(Ok((project, pending))));
            let e = exec_json::json_next(d.0, JsonInput::Written(Ok(())));
            let (t, action) = taken(e, translate, pending.len());
            let announcement = JsonlEvent::ProjectStarted {
                working_dir: project.working_dir,
                project_dir: project.project_dir,
                progress_file: project.progress_file,
                user_message: prompt,
                git_commit_start: project.git_commit_start,
                git_branch: project.git_branch,
            };
            &&& action is ReadEvent
            &&& t.phase is ReadEvent
            &&& t.pending.len() == 0
            &&& t.trace.written == seq![announcement] + forwarded(pending, translate)
        }),
{
    let a = exec_json::json_start(plan, Some(prompt));
    let b = exec_json::json_next(a.0, JsonInput::Spawned(Ok(())));
    let c = exec_json::json_next(b.0, JsonInput::Initialized(Ok(())));
    let d = exec_json::json_next(c.0, JsonInput::Started(Ok((project, pending))));
    let e = exec_json::json_next(d.0, JsonInput::Written(Ok(())));
    let announcement = JsonlEvent::ProjectStarted {
        working_dir: project.working_dir,
        project_dir: project.project_dir,
        progress_file: project.progress_file,
        user_message: prompt,
        git_commit_start: project.git_commit_start,
        git_branch: project.git_branch,
    };
    law_project_is_started(plan, prompt, project, pending);
    if pending.len() == 0 {
        assert(forwarded(pending, translate) =~= Seq::<JsonlEvent>::empty());
        assert(seq![announcement] + forwarded(pending, translate) =~= seq![announcement]);
    } else {
        let v = d.0.with_written(announcement);
        assert(v.trace.written =~= seq![announcement]);
        let u = JsonState { phase: JsonPhase::ReadEvent, pending: pending.skip(1), ..v };
        assert(e == v.read_on());
        lemma_phase_does_not_matter(
            u,
            JsonState { pending: pending.skip(1), ..v },
            pending[0],
        );
        assert(e == exec_json::json_next(u, JsonInput::Event(Ok(Some(pending[0])))));
        assert forall|i: int| 0 <= i < u.pending.len() implies is_forwarded(
            #[trigger] u.pending[i],
        ) by {
            assert(u.pending[i] == pending[i + 1]);
        }
        lemma_waiting_events_are_forwarded(u, pending[0], translate);
        assert(seq![pending[0]] + pending.skip(1) =~= pending);
    }
}

} // verus!
