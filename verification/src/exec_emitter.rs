//! What an `exec --json` run knows about its own output.
//!
//! Consumers of the stream rely on closure: a turn that was opened is closed, and a round that
//! was started is completed, even when the run fails in the middle. The emitter remembers what
//! is open, decides what an agent event means to the run, and names the events that close
//! whatever is open when the run gives up.

use vstd::prelude::*;

use crate::exec_events::ExecJsonlEvent;
use crate::exec_events::JsonlEvent;
use crate::exec_events::PotterRoundCompletedEvent;
use crate::exec_events::PotterRoundCompletedOutcome;
use crate::exec_events::ThreadErrorEvent;
use crate::exec_events::TurnFailedEvent;
use crate::protocol::EventMsg;
use crate::protocol::PotterProjectOutcome;

verus! {

/// What is open in the stream, and how many rounds were completed.
#[derive(Debug, Clone, Copy, PartialEq, Eq, Structural)]
pub struct ExecJsonlEmitter {
    pub json_turn_open: bool,
    pub round_in_progress: bool,
    pub rounds_run: u32,
}

/// What an agent event means to the run.
#[derive(Debug)]
pub enum ExecEventProgress {
    /// Translate the event, write what comes out, and go on. A round that just started makes the
    /// translator forget the round before it.
    Translate { msg: EventMsg, round_started: bool, round_finished: bool },
    /// The project is over.
    ProjectCompleted { outcome: PotterProjectOutcome },
    /// The run cannot go on.
    FailFast { message: String },
}

/// The failure reported for a request to answer questions.
pub open spec fn user_input_failure(call_id: Seq<char>) -> Seq<char> {
    "unsupported interactive request: RequestUserInput call_id="@ + call_id
}

/// The failure reported for an elicitation request.
pub open spec fn elicitation_failure(server_name: Seq<char>, id: Seq<char>) -> Seq<char> {
    "unsupported interactive request: ElicitationRequest server_name="@ + server_name
        + " request_id="@ + id
}

impl ExecJsonlEmitter {
    /// After an event was written.
    pub open spec fn observed(self, event: JsonlEvent) -> ExecJsonlEmitter {
        ExecJsonlEmitter {
            json_turn_open: match event {
                JsonlEvent::TurnStarted { .. } => true,
                JsonlEvent::TurnCompleted { .. } => false,
                JsonlEvent::TurnFailed { .. } => false,
                _ => self.json_turn_open,
            },
            ..self
        }
    }

    /// After a round started.
    pub open spec fn with_round_started(self) -> ExecJsonlEmitter {
        ExecJsonlEmitter { json_turn_open: false, round_in_progress: true, ..self }
    }

    /// After a round was completed.
    pub open spec fn with_round_finished(self) -> ExecJsonlEmitter {
        ExecJsonlEmitter {
            round_in_progress: false,
            rounds_run: if self.rounds_run < u32::MAX {
                (self.rounds_run + 1) as u32
            } else {
                u32::MAX
            },
            ..self
        }
    }

    /// The events that close whatever is open, when the run gives up for the reason `message`.
    pub open spec fn fatal_closure(self, message: Seq<char>) -> Seq<JsonlEvent> {
        (if self.json_turn_open {
            seq![JsonlEvent::TurnFailed { message }]
        } else {
            seq![]
        }) + (if self.round_in_progress {
            seq![
                JsonlEvent::RoundCompleted {
                    outcome: PotterRoundCompletedOutcome::Fatal,
                    message: Some(message),
                },
            ]
        } else {
            seq![]
        })
    }

    /// All events of a run that gives up for the reason `message`.
    pub open spec fn failure_events(self, message: Seq<char>) -> Seq<JsonlEvent> {
        seq![JsonlEvent::Error { message }] + self.fatal_closure(message)
    }

    /// After [`Self::failure_events`] were written.
    pub open spec fn closed(self) -> ExecJsonlEmitter {
        if self.round_in_progress {
            self.with_round_finished()
        } else {
            self
        }
    }

    /// An emitter of a run that has written nothing.
    pub fn new() -> (r: ExecJsonlEmitter)
        ensures
            !r.json_turn_open,
            !r.round_in_progress,
            r.rounds_run == 0,
    {
        ExecJsonlEmitter { json_turn_open: false, round_in_progress: false, rounds_run: 0 }
    }

    /// The number of rounds that were completed.
    pub fn rounds_run(&self) -> (r: u32)
        ensures
            r == self.rounds_run,
    {
        self.rounds_run
    }

    /// Take note of an event that was written.
    pub fn observe_json_turn_state(&mut self, event: &ExecJsonlEvent)
        ensures
            *final(self) == old(self).observed(event@),
    {
        match event {
            ExecJsonlEvent::TurnStarted(_) => {
                self.json_turn_open = true;
            },
            ExecJsonlEvent::TurnCompleted(_) | ExecJsonlEvent::TurnFailed(_) => {
                self.json_turn_open = false;
            },
            _ => {},
        }
    }

    /// A round starts.
    pub fn start_round(&mut self)
        ensures
            *final(self) == old(self).with_round_started(),
    {
        self.json_turn_open = false;
        self.round_in_progress = true;
    }

    /// A round is completed.
    pub fn finish_round(&mut self)
        ensures
            *final(self) == old(self).with_round_finished(),
    {
        self.round_in_progress = false;
        self.rounds_run = self.rounds_run.saturating_add(1);
    }

    /// Decide what an agent event means to the run. Requests that need somebody at the terminal
    /// are failures, because nobody is there.
    pub fn process_event_msg(&mut self, msg: EventMsg) -> (r: ExecEventProgress)
        ensures
            match msg {
                EventMsg::RequestUserInput(ev) => {
                    &&& *final(self) == *old(self)
                    &&& r matches ExecEventProgress::FailFast { message }
                    &&& message@ == user_input_failure(ev.call_id@)
                },
                EventMsg::ElicitationRequest(ev) => {
                    &&& *final(self) == *old(self)
                    &&& r matches ExecEventProgress::FailFast { message }
                    &&& message@ == elicitation_failure(ev.server_name@, ev.id@)
                },
                EventMsg::PotterProjectCompleted { outcome } => {
                    &&& *final(self) == *old(self)
                    &&& r == (ExecEventProgress::ProjectCompleted { outcome })
                },
                EventMsg::PotterRoundStarted { .. } => {
                    &&& *final(self) == old(self).with_round_started()
                    &&& r == (ExecEventProgress::Translate {
                        msg,
                        round_started: true,
                        round_finished: false,
                    })
                },
                _ => {
                    &&& *final(self) == *old(self)
                    &&& r == (ExecEventProgress::Translate {
                        msg,
                        round_started: false,
                        round_finished: msg is PotterRoundFinished,
                    })
                },
            },
    {
        match msg {
            EventMsg::RequestUserInput(ev) => {
                let mut message =
                    "unsupported interactive request: RequestUserInput call_id=".to_owned();
                message.append(ev.call_id.as_str());
                ExecEventProgress::FailFast { message }
            },
            EventMsg::ElicitationRequest(ev) => {
                let mut message =
                    "unsupported interactive request: ElicitationRequest server_name=".to_owned();
                message.append(ev.server_name.as_str());
                message.append(" request_id=");
                message.append(ev.id.as_str());
                ExecEventProgress::FailFast { message }
            },
            EventMsg::PotterProjectCompleted { outcome } => {
                ExecEventProgress::ProjectCompleted { outcome }
            },
            EventMsg::PotterRoundStarted { current, total } => {
                self.start_round();
                ExecEventProgress::Translate {
                    msg: EventMsg::PotterRoundStarted { current, total },
                    round_started: true,
                    round_finished: false,
                }
            },
            other => {
                let round_finished = match &other {
                    EventMsg::PotterRoundFinished { .. } => true,
                    _ => false,
                };
                ExecEventProgress::Translate { msg: other, round_started: false, round_finished }
            },
        }
    }

    /// The events that close whatever is open, when the run gives up.
    pub fn synthesize_round_fatal_closure(&self, message: &str) -> (r: Vec<ExecJsonlEvent>)
        ensures
            event_views(r@) == self.fatal_closure(message@),
    {
        let mut r: Vec<ExecJsonlEvent> = Vec::new();
        if self.json_turn_open {
            r.push(
                ExecJsonlEvent::TurnFailed(
                    TurnFailedEvent { error: ThreadErrorEvent { message: message.to_owned() } },
                ),
            );
        }
        if self.round_in_progress {
            r.push(
                ExecJsonlEvent::PotterRoundCompleted(
                    PotterRoundCompletedEvent {
                        outcome: PotterRoundCompletedOutcome::Fatal,
                        message: Some(message.to_owned()),
                    },
                ),
            );
        }
        assert(event_views(r@) =~= self.fatal_closure(message@));
        r
    }

    /// All events of a run that gives up: the error, and the events that close whatever is open.
    pub fn fail_fast_with_error(&self, message: &str) -> (r: Vec<ExecJsonlEvent>)
        ensures
            event_views(r@) == self.failure_events(message@),
    {
        let mut r: Vec<ExecJsonlEvent> = Vec::new();
        r.push(ExecJsonlEvent::Error(ThreadErrorEvent { message: message.to_owned() }));
        let mut closing = self.synthesize_round_fatal_closure(message);
        let ghost first = r@;
        let ghost rest = closing@;
        r.append(&mut closing);
        proof {
            assert(r@ =~= first + rest);
            assert(event_views(r@) =~= event_views(first) + event_views(rest));
            assert(event_views(first) =~= seq![JsonlEvent::Error { message: message@ }]);
        }
        r
    }
}

/// The events of a list, mathematically.
pub open spec fn event_views(v: Seq<ExecJsonlEvent>) -> Seq<JsonlEvent> {
    Seq::new(v.len(), |i: int| v[i]@)
}

/// Taking note of a sequence of events, in order.
pub open spec fn observed_all(s: ExecJsonlEmitter, events: Seq<JsonlEvent>) -> ExecJsonlEmitter
    decreases events.len(),
{
    if events.len() == 0 {
        s
    } else {
        observed_all(s, events.drop_last()).observed(events.last())
    }
}

/// Closure: once a run that gives up has written its last events, no turn is open, no round is
/// in progress, and the round that was cut short counts as run.
pub proof fn law_failure_closes_everything(s: ExecJsonlEmitter, message: Seq<char>)
    ensures
        ({
            let after = observed_all(s, s.failure_events(message)).closed();
            &&& !after.json_turn_open
            &&& !after.round_in_progress
            &&& s.round_in_progress && s.rounds_run < u32::MAX ==> after.rounds_run == s.rounds_run
                + 1
            &&& !s.round_in_progress ==> after.rounds_run == s.rounds_run
        }),
{
    let events = s.failure_events(message);
    let first = seq![JsonlEvent::Error { message }];
    reveal_with_fuel(observed_all, 4);
    assert(first.drop_last() =~= Seq::<JsonlEvent>::empty());
    if s.json_turn_open && s.round_in_progress {
        assert(events.drop_last() =~= first.push(JsonlEvent::TurnFailed { message }));
        assert(events.drop_last().drop_last() =~= first);
    } else if s.json_turn_open || s.round_in_progress {
        assert(events.drop_last() =~= first);
    } else {
        assert(events =~= first);
    }
}

/// The error comes first, and everything else that is written closes something.
pub proof fn law_failure_starts_with_the_error(s: ExecJsonlEmitter, message: Seq<char>)
    ensures
        ({
            let events = s.failure_events(message);
            &&& 1 <= events.len() <= 3
            &&& events[0] == JsonlEvent::Error { message }
            &&& forall|i: int|
                1 <= i < events.len() ==> (#[trigger] events[i] is TurnFailed
                    || events[i] is RoundCompleted)
        }),
{
}

/// A turn is open from the event that starts it to the one that completes it or says that it
/// failed, and a round that starts leaves none open; no other event matters.
pub proof fn law_turn_is_open(s: ExecJsonlEmitter, event: JsonlEvent)
    ensures
        s.observed(event).json_turn_open == (event is TurnStarted || (s.json_turn_open && !(
        event is TurnCompleted) && !(event is TurnFailed))),
        s.observed(event).round_in_progress == s.round_in_progress,
        s.observed(event).rounds_run == s.rounds_run,
        !s.with_round_started().json_turn_open,
        s.with_round_finished().json_turn_open == s.json_turn_open,
{
}

/// A round is in progress from its start to its end, and every end of a round counts it, up to the
/// largest number there is.
pub proof fn law_rounds_are_counted(s: ExecJsonlEmitter)
    ensures
        s.with_round_started().round_in_progress,
        s.with_round_started().rounds_run == s.rounds_run,
        !s.with_round_finished().round_in_progress,
        s.rounds_run < u32::MAX ==> s.with_round_finished().rounds_run == s.rounds_run + 1,
        s.rounds_run == u32::MAX ==> s.with_round_finished().rounds_run == u32::MAX,
        s.round_in_progress ==> s.closed() == s.with_round_finished(),
        !s.round_in_progress ==> s.closed() == s,
{
}

/// A run that gives up says why, and says of the turn and of the round that are open, in this
/// order, that they failed for that reason; it says so of nothing that is not open.
pub proof fn law_what_is_open_is_closed(s: ExecJsonlEmitter, message: Seq<char>)
    ensures
        ({
            let error = JsonlEvent::Error { message };
            let turn = JsonlEvent::TurnFailed { message };
            let round = JsonlEvent::RoundCompleted {
                outcome: PotterRoundCompletedOutcome::Fatal,
                message: Some(message),
            };
            match (s.json_turn_open, s.round_in_progress) {
                (true, true) => s.failure_events(message) == seq![error, turn, round]
                    && s.fatal_closure(message) == seq![turn, round],
                (true, false) => s.failure_events(message) == seq![error, turn] && s.fatal_closure(
                    message,
                ) == seq![turn],
                (false, true) => s.failure_events(message) == seq![error, round]
                    && s.fatal_closure(message) == seq![round],
                (false, false) => s.failure_events(message) == seq![error] && s.fatal_closure(
                    message,
                ) == Seq::<JsonlEvent>::empty(),
            }
        }),
{
    let error = JsonlEvent::Error { message };
    let turn = JsonlEvent::TurnFailed { message };
    let round = JsonlEvent::RoundCompleted {
        outcome: PotterRoundCompletedOutcome::Fatal,
        message: Some(message),
    };
    let closing = s.fatal_closure(message);
    let all = s.failure_events(message);
    match (s.json_turn_open, s.round_in_progress) {
        (true, true) => {
            assert(closing =~= seq![turn, round]);
            assert(all =~= seq![error, turn, round]);
        },
        (true, false) => {
            assert(closing =~= seq![turn]);
            assert(all =~= seq![error, turn]);
        },
        (false, true) => {
            assert(closing =~= seq![round]);
            assert(all =~= seq![error, round]);
        },
        (false, false) => {
            assert(closing =~= Seq::<JsonlEvent>::empty());
            assert(all =~= seq![error]);
        },
    }
}

/// A request that needs somebody at the terminal is named, by what it came with, in the reason for
/// giving up.
pub proof fn law_request_is_named(call_id: Seq<char>, server_name: Seq<char>, id: Seq<char>)
    ensures
        user_input_failure(call_id)
            == "unsupported interactive request: RequestUserInput call_id="@ + call_id,
        elicitation_failure(server_name, id)
            == "unsupported interactive request: ElicitationRequest server_name="@ + server_name
            + " request_id="@ + id,
{
}

/// A list of events has as many counterparts, each in its place.
pub proof fn law_every_event_has_its_place(v: Seq<ExecJsonlEvent>, i: int)
    requires
        0 <= i < v.len(),
    ensures
        event_views(v).len() == v.len(),
        event_views(v)[i] == v[i]@,
{
}

} // verus!
