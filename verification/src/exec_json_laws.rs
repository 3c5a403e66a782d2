//! Laws of an `exec --json` run: what its stream looks like, and what the exit code means.

use vstd::prelude::*;

use crate::exec;
use crate::exec::RunPlan;
use crate::exec_emitter;
use crate::exec_emitter::ExecJsonlEmitter;
use crate::exec_events;
use crate::exec_events::JsonlEvent;
use crate::exec_events::PotterProjectCompletedOutcome;
use crate::exec_json;
use crate::exec_json::JsonAction;
use crate::exec_json::JsonGoal;
use crate::exec_json::JsonInput;
use crate::exec_json::JsonPhase;
use crate::exec_json::JsonState;
use crate::exec_json::JsonTrace;
use crate::protocol::EventMsg;

verus! {

/// No turn is open once `events` were written, where `emitter` knows what is open before.
pub open spec fn closes_turn(emitter: ExecJsonlEmitter, events: Seq<JsonlEvent>) -> bool
    decreases events.len(),
{
    if events.len() == 0 {
        !emitter.json_turn_open
    } else {
        closes_turn(emitter.observed(events[0]), events.skip(1))
    }
}

/// The run has written nothing, and asked for nothing to be written.
pub open spec fn silent(trace: JsonTrace) -> bool {
    &&& trace.requested.len() == 0
    &&& trace.written.len() == 0
    &&& trace.completed is None
}

/// The run failed before a project was started: the one event it asked for is the error.
pub open spec fn reported_only(trace: JsonTrace) -> bool {
    &&& trace.requested.len() == 1
    &&& trace.requested[0] is Error
    &&& trace.written.len() == 0
    &&& trace.completed is None
}

/// The run asked for its project to be announced before anything else.
pub open spec fn announced(trace: JsonTrace) -> bool {
    &&& trace.requested.len() > 0
    &&& trace.requested[0] is ProjectStarted
    &&& trace.written.len() > 0 ==> trace.written[0] is ProjectStarted
}

/// The report on the project was written, as the last event.
pub open spec fn completed_with(trace: JsonTrace, outcome: PotterProjectCompletedOutcome) -> bool {
    &&& trace.completed == Some(outcome)
    &&& trace.written.len() > 1
    &&& trace.written.last() is ProjectCompleted
    &&& trace.written.last()->ProjectCompleted_outcome == outcome
    &&& trace.requested.last() == trace.written.last()
}

/// What holds of the events when the run ends, or is about to, with `code`.
pub open spec fn ended(trace: JsonTrace, code: i32) -> bool {
    match trace.completed {
        Some(outcome) => announced(trace) && completed_with(trace, outcome) && code
            == exec_events::exit_code(outcome),
        None => code == 1 && (reported_only(trace) || announced(trace)),
    }
}

/// What holds in every state of a run.
pub open spec fn json_inv(s: JsonState) -> bool {
    match s.phase {
        JsonPhase::ReadPrompt => silent(s.trace),
        JsonPhase::Spawn => silent(s.trace) && !exec::is_blank(s.prompt) && s.plan.rounds
            <= u32::MAX,
        JsonPhase::Initialize => silent(s.trace) && !exec::is_blank(s.prompt) && s.plan.rounds
            <= u32::MAX,
        JsonPhase::Start => silent(s.trace) && !exec::is_blank(s.prompt) && s.plan.rounds
            <= u32::MAX,
        JsonPhase::ShutdownToReport { .. } => silent(s.trace),
        JsonPhase::Report => reported_only(s.trace),
        JsonPhase::ReportToShutdown => reported_only(s.trace),
        JsonPhase::Write { current, queue, goal } => {
            &&& announced(s.trace)
            &&& s.trace.completed is None
            &&& s.trace.requested.last() == current
            &&& match goal {
                JsonGoal::Started => s.trace.written.len() == 0 && queue.len() == 0 && current
                    == s.trace.requested[0],
                JsonGoal::Translated { .. } => s.trace.written.len() > 0,
                JsonGoal::Failed { .. } => s.trace.written.len() > 0 && closes_turn(
                    s.emitter,
                    seq![current] + queue,
                ),
                JsonGoal::Completed { outcome } => s.trace.written.len() > 0 && queue.len() == 0
                    && current is ProjectCompleted && current->ProjectCompleted_outcome == outcome,
            }
        },
        JsonPhase::ReadEvent => announced(s.trace) && s.trace.written.len() > 0
            && s.trace.completed is None,
        JsonPhase::Translate { .. } => announced(s.trace) && s.trace.written.len() > 0
            && s.trace.completed is None,
        JsonPhase::Interrupt { .. } => announced(s.trace) && s.trace.written.len() > 0
            && s.trace.completed is None && !s.emitter.json_turn_open
            && !s.emitter.round_in_progress,
        JsonPhase::ResolveEnd { .. } => announced(s.trace) && s.trace.written.len() > 0
            && s.trace.completed is None,
        JsonPhase::Shutdown { code } => ended(s.trace, code),
        JsonPhase::Exited { code } => ended(s.trace, code),
    }
}

/// The events of a run that gives up close the turn that is open.
proof fn lemma_failure_closes_turn(emitter: ExecJsonlEmitter, message: Seq<char>)
    ensures
        closes_turn(emitter, emitter.failure_events(message)),
{
    let events = emitter.failure_events(message);
    reveal_with_fuel(closes_turn, 4);
    let error = JsonlEvent::Error { message };
    assert(events[0] == error);
    let rest = events.skip(1);
    assert(rest =~= emitter.fatal_closure(message));
    if emitter.json_turn_open {
        assert(rest[0] == JsonlEvent::TurnFailed { message });
        if emitter.round_in_progress {
            assert(rest.skip(1)[0] is RoundCompleted);
            assert(rest.skip(1).skip(1).len() == 0);
        } else {
            assert(rest.skip(1).len() == 0);
        }
    } else if emitter.round_in_progress {
        assert(rest[0] is RoundCompleted);
        assert(rest.skip(1).len() == 0);
    }
}

proof fn lemma_fail_keeps_inv(s: JsonState, message: Seq<char>)
    requires
        announced(s.trace),
        s.trace.written.len() > 0,
        s.trace.completed is None,
    ensures
        json_inv(s.fail(message).0),
{
    let events = s.emitter.failure_events(message);
    lemma_failure_closes_turn(s.emitter, message);
    assert(seq![events[0]] + events.skip(1) =~= events);
}

proof fn lemma_handle_keeps_inv(s: JsonState, msg: EventMsg)
    requires
        announced(s.trace),
        s.trace.written.len() > 0,
        s.trace.completed is None,
    ensures
        json_inv(s.handle(msg).0),
{
    match msg {
        EventMsg::RequestUserInput(ev) => lemma_fail_keeps_inv(
            s,
            exec_emitter::user_input_failure(ev.call_id@),
        ),
        EventMsg::ElicitationRequest(ev) => lemma_fail_keeps_inv(
            s,
            exec_emitter::elicitation_failure(ev.server_name@, ev.id@),
        ),
        _ => {},
    }
}

proof fn lemma_read_on_keeps_inv(s: JsonState)
    requires
        announced(s.trace),
        s.trace.written.len() > 0,
        s.trace.completed is None,
    ensures
        json_inv(s.read_on().0),
{
    if s.pending.len() > 0 {
        lemma_handle_keeps_inv(JsonState { pending: s.pending.skip(1), ..s }, s.pending[0]);
    }
}

proof fn lemma_written_keeps_inv(s: JsonState)
    requires
        json_inv(s),
        s.phase is Write,
    ensures
        json_inv(exec_json::json_next(s, JsonInput::Written(Ok(()))).0),
{
    match s.phase {
        JsonPhase::Write { current, queue, goal } => {
            let t = s.with_written(current);
            assert(t.trace.written[0] == (if s.trace.written.len() > 0 {
                s.trace.written[0]
            } else {
                current
            }));
            match goal {
                JsonGoal::Started => lemma_read_on_keeps_inv(t),
                JsonGoal::Translated { round_finished } => {
                    if queue.len() == 0 {
                        if round_finished {
                            lemma_read_on_keeps_inv(
                                JsonState { emitter: t.emitter.with_round_finished(), ..t },
                            );
                        } else {
                            lemma_read_on_keeps_inv(t);
                        }
                    }
                },
                JsonGoal::Failed { message } => {
                    reveal_with_fuel(closes_turn, 2);
                    assert((seq![current] + queue)[0] == current);
                    assert((seq![current] + queue).skip(1) =~= queue);
                    if queue.len() > 0 {
                        assert(seq![queue[0]] + queue.skip(1) =~= queue);
                    }
                },
                JsonGoal::Completed { outcome } => {
                    assert(t.trace.written.last() == current);
                },
            }
        },
        _ => {},
    }
}

/// A run starts in a state as every state of a run is.
pub proof fn law_start_is_valid(plan: RunPlan, prompt: Option<Seq<char>>)
    ensures
        json_inv(exec_json::json_start(plan, prompt).0),
{
}

/// A run stays in states as every state of a run is, whatever comes back from outside.
pub proof fn law_steps_stay_valid(s: JsonState, input: JsonInput)
    requires
        json_inv(s),
        exec_json::fits(s.phase, input),
    ensures
        json_inv(exec_json::json_next(s, input).0),
{
    match (s.phase, input) {
        (JsonPhase::Write { current, queue, goal }, JsonInput::Written(Ok(_))) => {
            lemma_written_keeps_inv(s);
        },
        (JsonPhase::Write { current, queue, goal }, JsonInput::Written(Err(cause))) => {
            if goal is Translated {
                lemma_fail_keeps_inv(s, "write exec jsonl event: "@ + cause);
            }
        },
        (JsonPhase::ReadEvent, JsonInput::Event(Ok(Some(msg)))) => {
            lemma_handle_keeps_inv(s, msg);
        },
        (JsonPhase::ReadEvent, JsonInput::Event(Ok(None))) => {
            lemma_fail_keeps_inv(s, "potter app-server event stream closed unexpectedly"@);
        },
        (JsonPhase::ReadEvent, JsonInput::Event(Err(e))) => {
            lemma_fail_keeps_inv(s, e);
        },
        (JsonPhase::Translate { round_finished }, JsonInput::Translated(events)) => {
            if events.len() == 0 {
                if round_finished {
                    lemma_read_on_keeps_inv(
                        JsonState { emitter: s.emitter.with_round_finished(), ..s },
                    );
                } else {
                    lemma_read_on_keeps_inv(s);
                }
            }
        },
        _ => {},
    }
}

/// The state of a run after a sequence of inputs.
pub open spec fn json_run(start: JsonState, inputs: Seq<JsonInput>) -> JsonState
    decreases inputs.len(),
{
    if inputs.len() == 0 {
        start
    } else {
        exec_json::json_next(json_run(start, inputs.drop_last()), inputs.last()).0
    }
}

/// Every input of a sequence is the result of what the run asked for.
pub open spec fn all_fit(start: JsonState, inputs: Seq<JsonInput>) -> bool
    decreases inputs.len(),
{
    inputs.len() > 0 ==> {
        &&& all_fit(start, inputs.drop_last())
        &&& exec_json::fits(json_run(start, inputs.drop_last()).phase, inputs.last())
    }
}

/// Every state that a run can reach is valid.
pub proof fn law_runs_are_valid(
    plan: RunPlan,
    prompt: Option<Seq<char>>,
    inputs: Seq<JsonInput>,
)
    requires
        all_fit(exec_json::json_start(plan, prompt).0, inputs),
    ensures
        json_inv(json_run(exec_json::json_start(plan, prompt).0, inputs)),
    decreases inputs.len(),
{
    if inputs.len() == 0 {
        law_start_is_valid(plan, prompt);
    } else {
        let start = exec_json::json_start(plan, prompt).0;
        law_runs_are_valid(plan, prompt, inputs.drop_last());
        law_steps_stay_valid(json_run(start, inputs.drop_last()), inputs.last());
    }
}

/// A run exits with zero exactly when the report of a successful project was written, as the
/// last event of a stream that opened with the announcement of the project.
pub proof fn law_exit_code(s: JsonState)
    requires
        json_inv(s),
        s.phase is Exited,
    ensures
        s.phase->Exited_code == 0 <==> s.trace.completed == Some(
            PotterProjectCompletedOutcome::Succeeded,
        ),
        s.phase->Exited_code == 0 || s.phase->Exited_code == 1,
        s.trace.completed matches Some(outcome) ==> s.trace.written[0] is ProjectStarted
            && completed_with(s.trace, outcome),
{
}

/// A run that ends before a project was announced has asked for a single event, an error, and
/// exits with one.
pub proof fn law_preflight_failure_is_one_error(s: JsonState)
    requires
        json_inv(s),
        s.phase is Exited,
        s.trace.requested.len() == 0 || !(s.trace.requested[0] is ProjectStarted),
    ensures
        s.trace.requested.len() == 1,
        s.trace.requested[0] is Error,
        s.trace.written.len() == 0,
        s.phase->Exited_code == 1,
{
}

/// A run that gives up has closed its stream before it interrupts the project: no turn is open,
/// and no round is in progress.
pub proof fn law_failed_run_is_closed(s: JsonState)
    requires
        json_inv(s),
        s.phase is Interrupt,
    ensures
        !s.emitter.json_turn_open,
        !s.emitter.round_in_progress,
{
}

/// Once the report on the project was written, nothing is written any more: the app-server is
/// shut down, and the run exits.
pub proof fn law_report_comes_last(s: JsonState, input: JsonInput)
    requires
        json_inv(s),
        s.trace.completed is Some,
        exec_json::fits(s.phase, input),
    ensures
        exec_json::json_next(s, input).1 == (JsonAction::Exit { code: s.phase->Shutdown_code }),
        exec_json::json_next(s, input).0.trace == s.trace,
{
}

/// A request that needs somebody at the terminal ends the run: the next event is an error that
/// names the request, and the project is reported as failed.
pub proof fn law_interactive_requests_are_fatal(s: JsonState, msg: EventMsg)
    requires
        s.phase is ReadEvent,
        msg is RequestUserInput || msg is ElicitationRequest,
    ensures
        ({
            let (t, action) = exec_json::json_next(s, JsonInput::Event(Ok(Some(msg))));
            &&& action matches JsonAction::Write { event } && event is Error
            &&& t.phase is Write
            &&& t.phase->Write_goal is Failed
        }),
{
}

} // verus!
