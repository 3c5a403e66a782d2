//! The client's side of the app-server protocol: which requests it sends, and how it reads what
//! comes back.
//!
//! Lines are read and decoded outside. A [`PotterRead`] decides what to do with each of them: it
//! waits either for the next agent event, or for the answer to a request; events that arrive
//! before the answer are kept, in order.

use vstd::prelude::*;

use crate::exec;
use crate::potter_protocol::ClientInfo;
use crate::potter_protocol::InitializeParams;
use crate::potter_protocol::PotterAppServerClientNotification;
use crate::potter_protocol::PotterAppServerClientRequest;
use crate::potter_protocol::ProjectInterruptParams;
use crate::potter_protocol::ProjectListParams;
use crate::potter_protocol::ProjectResolveInterruptParams;
use crate::potter_protocol::ProjectResumeParams;
use crate::potter_protocol::ProjectStartParams;
use crate::potter_protocol::ProjectStartRoundsParams;
use crate::potter_protocol::RequestId;
use crate::potter_protocol::POTTER_EVENT_NOTIFICATION_METHOD;
use crate::protocol::Event;
use crate::text;

verus! {

/// The request numbering of a client.
#[derive(Debug)]
pub struct PotterAppServerClient {
    next_id: i64,
}

impl View for PotterAppServerClient {
    type V = int;

    /// The number of the next request.
    closed spec fn view(&self) -> int {
        self.next_id as int
    }
}

/// The number after `n`; the largest number is used again and again.
pub open spec fn next_number(n: int) -> int {
    if n < i64::MAX {
        n + 1
    } else {
        n
    }
}

/// A request numbered `n` was made from `params`.
pub open spec fn numbered(id: RequestId, n: int) -> bool {
    id matches RequestId::Integer(i) && i == n
}

impl PotterAppServerClient {
    /// A client that has sent nothing.
    pub fn new() -> (r: PotterAppServerClient)
        ensures
            r@ == 1,
    {
        PotterAppServerClient { next_id: 1 }
    }

    /// The identifier of the next request.
    pub fn next_request_id(&mut self) -> (r: RequestId)
        ensures
            numbered(r, old(self)@),
            final(self)@ == next_number(old(self)@),
    {
        let id = self.next_id;
        if self.next_id < i64::MAX {
            self.next_id = self.next_id + 1;
        }
        RequestId::Integer(id)
    }

    /// Introduce the client to the server.
    pub fn initialize(&mut self, version: &str) -> (r: PotterAppServerClientRequest)
        ensures
            final(self)@ == next_number(old(self)@),
            r matches PotterAppServerClientRequest::Initialize { request_id, params } && numbered(
                request_id,
                old(self)@,
            ) && params.client_info.name@ == "codex-potter"@ && text::opt_text(
                params.client_info.title,
            ) == Some("codex-potter"@) && params.client_info.version@ == version@
                && params.capabilities is None,
    {
        let request_id = self.next_request_id();
        PotterAppServerClientRequest::Initialize {
            request_id,
            params: InitializeParams {
                client_info: ClientInfo {
                    name: "codex-potter".to_owned(),
                    title: Some("codex-potter".to_owned()),
                    version: version.to_owned(),
                },
                capabilities: None,
            },
        }
    }

    /// Once the server has answered: confirm, unless agent events came with the answer.
    pub fn initialized(buffered_events: &Vec<Event>) -> (r: Result<
        PotterAppServerClientNotification,
        String,
    >)
        ensures
            match r {
                Ok(n) => buffered_events@.len() == 0 && n
                    == PotterAppServerClientNotification::Initialized,
                Err(e) => buffered_events@.len() > 0 && e@
                    == "internal error: unexpected events during potter app-server initialize"@,
            },
    {
        if buffered_events.len() == 0 {
            Ok(PotterAppServerClientNotification::Initialized)
        } else {
            Err(
                "internal error: unexpected events during potter app-server initialize".to_owned(),
            )
        }
    }

    /// Ask for the projects of a working directory.
    pub fn project_list(&mut self, params: ProjectListParams) -> (r: PotterAppServerClientRequest)
        ensures
            final(self)@ == next_number(old(self)@),
            r matches PotterAppServerClientRequest::ProjectList { request_id, params: p }
                && numbered(request_id, old(self)@) && p == params,
    {
        let request_id = self.next_request_id();
        PotterAppServerClientRequest::ProjectList { request_id, params }
    }

    /// Start a project.
    pub fn project_start(&mut self, params: ProjectStartParams) -> (r:
        PotterAppServerClientRequest)
        ensures
            final(self)@ == next_number(old(self)@),
            r matches PotterAppServerClientRequest::ProjectStart { request_id, params: p }
                && numbered(request_id, old(self)@) && p == params,
    {
        let request_id = self.next_request_id();
        PotterAppServerClientRequest::ProjectStart { request_id, params }
    }

    /// Resume a project.
    pub fn project_resume(&mut self, params: ProjectResumeParams) -> (r:
        PotterAppServerClientRequest)
        ensures
            final(self)@ == next_number(old(self)@),
            r matches PotterAppServerClientRequest::ProjectResume { request_id, params: p }
                && numbered(request_id, old(self)@) && p == params,
    {
        let request_id = self.next_request_id();
        PotterAppServerClientRequest::ProjectResume { request_id, params }
    }

    /// Start further rounds of a resumed project.
    pub fn project_start_rounds(&mut self, params: ProjectStartRoundsParams) -> (r:
        PotterAppServerClientRequest)
        ensures
            final(self)@ == next_number(old(self)@),
            r matches PotterAppServerClientRequest::ProjectStartRounds { request_id, params: p }
                && numbered(request_id, old(self)@) && p == params,
    {
        let request_id = self.next_request_id();
        PotterAppServerClientRequest::ProjectStartRounds { request_id, params }
    }

    /// Interrupt a project.
    pub fn project_interrupt(&mut self, params: ProjectInterruptParams) -> (r:
        PotterAppServerClientRequest)
        ensures
            final(self)@ == next_number(old(self)@),
            r matches PotterAppServerClientRequest::ProjectInterrupt { request_id, params: p }
                && numbered(request_id, old(self)@) && p == params,
    {
        let request_id = self.next_request_id();
        PotterAppServerClientRequest::ProjectInterrupt { request_id, params }
    }

    /// Resolve an interrupted project.
    pub fn project_resolve_interrupt(&mut self, params: ProjectResolveInterruptParams) -> (r:
        PotterAppServerClientRequest)
        ensures
            final(self)@ == next_number(old(self)@),
            r matches PotterAppServerClientRequest::ProjectResolveInterrupt {
                request_id,
                params: p,
            } && numbered(request_id, old(self)@) && p == params,
    {
        let request_id = self.next_request_id();
        PotterAppServerClientRequest::ProjectResolveInterrupt { request_id, params }
    }
}

/// The number of a client after `k` requests, from `n` on.
pub open spec fn number_after(n: int, k: nat) -> int
    decreases k,
{
    if k == 0 {
        n
    } else {
        next_number(number_after(n, (k - 1) as nat))
    }
}

/// The requests of a client are numbered without a gap and without a repetition, as long as there
/// are numbers.
pub proof fn law_requests_are_numbered_in_order(k: nat)
    requires
        k < i64::MAX,
    ensures
        number_after(1, k) == k + 1,
    decreases k,
{
    if k > 0 {
        law_requests_are_numbered_in_order((k - 1) as nat);
    }
}

/// The identifier of a request, mathematically.
pub enum IdView {
    Text(Seq<char>),
    Integer(i64),
}

impl View for RequestId {
    type V = IdView;

    open spec fn view(&self) -> IdView {
        match *self {
            RequestId::Text(s) => IdView::Text(s@),
            RequestId::Integer(i) => IdView::Integer(i),
        }
    }
}

/// Whether two identifiers are the same.
pub fn same_id(a: &RequestId, b: &RequestId) -> (r: bool)
    ensures
        r == (a@ == b@),
{
    match (a, b) {
        (RequestId::Text(s), RequestId::Text(t)) => text::same_str(s.as_str(), t.as_str()),
        (RequestId::Integer(i), RequestId::Integer(j)) => *i == *j,
        _ => false,
    }
}

/// A message from the server.
#[derive(Debug)]
pub enum JsonRpcMessage {
    Request,
    Notification { method: String, params: Option<serde_json::Value> },
    Response { id: RequestId, result: serde_json::Value },
    Error { id: RequestId, code: i64, message: String },
}

/// Why reading failed.
#[derive(Debug)]
pub enum ReadFailure {
    /// The line could not be read.
    Line,
    /// The server closed its output before it answered.
    Closed,
    /// The line is no message.
    Decode { line: String },
    /// An event notification came without an event.
    MissingParams,
    /// The event of a notification could not be decoded, while waiting for the next event or for
    /// an answer.
    DecodeEvent { awaiting_response: bool },
    /// The server answered with an error.
    Rpc { code: i64, message: String },
}

/// The mathematical counterpart of [`ReadFailure`].
pub enum ReadFault {
    Line,
    Closed,
    Decode { line: Seq<char> },
    MissingParams,
    DecodeEvent { awaiting_response: bool },
    Rpc { code: i64, message: Seq<char> },
}

impl View for ReadFailure {
    type V = ReadFault;

    open spec fn view(&self) -> ReadFault {
        match *self {
            ReadFailure::Line => ReadFault::Line,
            ReadFailure::Closed => ReadFault::Closed,
            ReadFailure::Decode { line } => ReadFault::Decode { line: line@ },
            ReadFailure::MissingParams => ReadFault::MissingParams,
            ReadFailure::DecodeEvent { awaiting_response } => ReadFault::DecodeEvent {
                awaiting_response,
            },
            ReadFailure::Rpc { code, message } => ReadFault::Rpc { code, message: message@ },
        }
    }
}

/// What a failure is called.
pub open spec fn fault_message(f: ReadFault) -> Seq<char> {
    match f {
        ReadFault::Line => "read potter app-server stdout line"@,
        ReadFault::Closed => "potter app-server closed stdout unexpectedly"@,
        ReadFault::Decode { line } => "decode potter app-server JSON-RPC: "@ + text::debug_text(
            line,
        ),
        ReadFault::MissingParams => "potter app-server event notification missing params"@,
        ReadFault::DecodeEvent { awaiting_response } => if awaiting_response {
            "deserialize potter event payload"@
        } else {
            "deserialize potter app-server event payload"@
        },
        ReadFault::Rpc { code, message } => "potter app-server JSON-RPC error: code="@
            + text::signed(code as int) + " message="@ + message,
    }
}

impl ReadFailure {
    /// What the failure is called.
    pub fn message(&self) -> (r: String)
        ensures
            r@ == fault_message(self@),
    {
        match self {
            ReadFailure::Line => "read potter app-server stdout line".to_owned(),
            ReadFailure::Closed => "potter app-server closed stdout unexpectedly".to_owned(),
            ReadFailure::Decode { line } => {
                let mut out = "decode potter app-server JSON-RPC: ".to_owned();
                let shown = text::debug_of(line.as_str());
                out.append(shown.as_str());
                out
            },
            ReadFailure::MissingParams => {
                "potter app-server event notification missing params".to_owned()
            },
            ReadFailure::DecodeEvent { awaiting_response } => if *awaiting_response {
                "deserialize potter event payload".to_owned()
            } else {
                "deserialize potter app-server event payload".to_owned()
            },
            ReadFailure::Rpc { code, message } => {
                let mut out = "potter app-server JSON-RPC error: code=".to_owned();
                let number = text::signed_of(*code);
                out.append(number.as_str());
                out.append(" message=");
                out.append(message.as_str());
                out
            },
        }
    }
}

/// What is waited for.
#[derive(Debug)]
pub enum ReadGoal {
    /// The next agent event.
    NextEvent,
    /// The answer to a request.
    Response { id: RequestId },
}

/// The mathematical counterpart of [`ReadGoal`].
pub enum GoalView {
    NextEvent,
    Response { id: IdView },
}

impl View for ReadGoal {
    type V = GoalView;

    open spec fn view(&self) -> GoalView {
        match *self {
            ReadGoal::NextEvent => GoalView::NextEvent,
            ReadGoal::Response { id } => GoalView::Response { id: id@ },
        }
    }
}

/// Outside work that reading asks for.
#[derive(Debug)]
pub enum ReadAction {
    /// Read a line.
    ReadLine,
    /// Decode the line into a message.
    Decode { line: String },
    /// Decode the event of a notification.
    DecodeEvent { params: serde_json::Value },
    /// Done: this is the event.
    Event { event: Event },
    /// Done: there are no more events.
    EndOfStream,
    /// Done: this is the answer.
    Response { result: serde_json::Value },
    /// Reading failed.
    Failed { failure: ReadFailure },
}

/// The result of outside work.
#[derive(Debug)]
pub enum ReadInput {
    /// Of `ReadLine`: nothing at the end of the output.
    Line(Option<String>),
    /// Of `ReadLine`, where it failed.
    LineFailed,
    /// Of `Decode`.
    Message(JsonRpcMessage),
    /// Of `Decode`, where the line is no message.
    Undecodable { line: String },
    /// Of `DecodeEvent`.
    Event(Event),
    /// Of `DecodeEvent`, where the payload is no event.
    UndecodableEvent,
}

/// Reading until something arrives.
#[derive(Debug)]
pub struct PotterRead {
    goal: ReadGoal,
    buffered: Vec<Event>,
}

/// The state of reading, mathematically.
pub struct ReadState {
    pub goal: GoalView,
    /// The events that arrived before the answer.
    pub buffered: Seq<Event>,
}

/// The mathematical counterpart of [`ReadAction`].
pub enum ReadStep {
    ReadLine,
    Decode { line: Seq<char> },
    DecodeEvent { params: serde_json::Value },
    Event { event: Event },
    EndOfStream,
    Response { result: serde_json::Value },
    Failed { fault: ReadFault },
}

impl View for ReadAction {
    type V = ReadStep;

    open spec fn view(&self) -> ReadStep {
        match *self {
            ReadAction::ReadLine => ReadStep::ReadLine,
            ReadAction::Decode { line } => ReadStep::Decode { line: line@ },
            ReadAction::DecodeEvent { params } => ReadStep::DecodeEvent { params },
            ReadAction::Event { event } => ReadStep::Event { event },
            ReadAction::EndOfStream => ReadStep::EndOfStream,
            ReadAction::Response { result } => ReadStep::Response { result },
            ReadAction::Failed { failure } => ReadStep::Failed { fault: failure@ },
        }
    }
}

impl View for PotterRead {
    type V = ReadState;

    closed spec fn view(&self) -> ReadState {
        ReadState { goal: self.goal@, buffered: self.buffered@ }
    }
}

impl ReadState {
    /// This is the answer that is waited for.
    pub open spec fn answers(self, id: IdView) -> bool {
        self.goal == (GoalView::Response { id })
    }

    /// How reading goes on.
    pub open spec fn next(self, input: ReadInput) -> (ReadState, ReadStep) {
        match input {
            ReadInput::LineFailed => (self, ReadStep::Failed { fault: ReadFault::Line }),
            ReadInput::Line(None) => (
                self,
                if self.goal is NextEvent {
                    ReadStep::EndOfStream
                } else {
                    ReadStep::Failed { fault: ReadFault::Closed }
                },
            ),
            ReadInput::Line(Some(line)) => (
                self,
                if exec::is_blank(line@) {
                    ReadStep::ReadLine
                } else {
                    ReadStep::Decode { line: line@ }
                },
            ),
            ReadInput::Undecodable { line } => (
                self,
                ReadStep::Failed { fault: ReadFault::Decode { line: line@ } },
            ),
            ReadInput::Message(JsonRpcMessage::Request) => (self, ReadStep::ReadLine),
            ReadInput::Message(JsonRpcMessage::Notification { method, params }) => (
                self,
                if method@ != POTTER_EVENT_NOTIFICATION_METHOD@ {
                    ReadStep::ReadLine
                } else {
                    match params {
                        Some(p) => ReadStep::DecodeEvent { params: p },
                        None => ReadStep::Failed { fault: ReadFault::MissingParams },
                    }
                },
            ),
            ReadInput::Message(JsonRpcMessage::Response { id, result }) => (
                self,
                if self.answers(id@) {
                    ReadStep::Response { result }
                } else {
                    ReadStep::ReadLine
                },
            ),
            ReadInput::Message(JsonRpcMessage::Error { id, code, message }) => (
                self,
                if self.answers(id@) {
                    ReadStep::Failed { fault: ReadFault::Rpc { code, message: message@ } }
                } else {
                    ReadStep::ReadLine
                },
            ),
            ReadInput::Event(event) => if self.goal is NextEvent {
                (self, ReadStep::Event { event })
            } else {
                (
                    ReadState { buffered: self.buffered.push(event), ..self },
                    ReadStep::ReadLine,
                )
            },
            ReadInput::UndecodableEvent => (
                self,
                ReadStep::Failed {
                    fault: ReadFault::DecodeEvent {
                        awaiting_response: !(self.goal is NextEvent),
                    },
                },
            ),
        }
    }
}

impl PotterRead {
    /// Wait for the next agent event.
    pub fn read_next_event() -> (r: (PotterRead, ReadAction))
        ensures
            r.0@.goal is NextEvent,
            r.0@.buffered.len() == 0,
            r.1@ == ReadStep::ReadLine,
    {
        (PotterRead { goal: ReadGoal::NextEvent, buffered: Vec::new() }, ReadAction::ReadLine)
    }

    /// Wait for the answer to a request. Events that arrive before it are appended to
    /// `buffered_events`.
    pub fn read_until_response(request_id: RequestId, buffered_events: Vec<Event>) -> (r: (
        PotterRead,
        ReadAction,
    ))
        ensures
            r.0@.goal == (GoalView::Response { id: request_id@ }),
            r.0@.buffered == buffered_events@,
            r.1@ == ReadStep::ReadLine,
    {
        (
            PotterRead { goal: ReadGoal::Response { id: request_id }, buffered: buffered_events },
            ReadAction::ReadLine,
        )
    }

    /// Whether this is the answer that is waited for.
    fn is_answer(&self, id: &RequestId) -> (r: bool)
        ensures
            r == self@.answers(id@),
    {
        match &self.goal {
            ReadGoal::NextEvent => false,
            ReadGoal::Response { id: wanted } => same_id(wanted, id),
        }
    }

    fn awaits_response(&self) -> (r: bool)
        ensures
            r == !(self@.goal is NextEvent),
    {
        match &self.goal {
            ReadGoal::NextEvent => false,
            ReadGoal::Response { .. } => true,
        }
    }

    /// Decide what a message means.
    fn on_message(&self, message: JsonRpcMessage) -> (r: ReadAction)
        ensures
            (self@, r@) == self@.next(ReadInput::Message(message)),
    {
        match message {
            JsonRpcMessage::Request => ReadAction::ReadLine,
            JsonRpcMessage::Notification { method, params } => {
                if !text::same_str(method.as_str(), POTTER_EVENT_NOTIFICATION_METHOD) {
                    return ReadAction::ReadLine;
                }
                match params {
                    Some(params) => ReadAction::DecodeEvent { params },
                    None => ReadAction::Failed { failure: ReadFailure::MissingParams },
                }
            },
            JsonRpcMessage::Response { id, result } => if self.is_answer(&id) {
                ReadAction::Response { result }
            } else {
                ReadAction::ReadLine
            },
            JsonRpcMessage::Error { id, code, message } => if self.is_answer(&id) {
                ReadAction::Failed { failure: ReadFailure::Rpc { code, message } }
            } else {
                ReadAction::ReadLine
            },
        }
    }

    /// Go on with the result of what was asked for last.
    pub fn step(&mut self, input: ReadInput) -> (r: ReadAction)
        ensures
            (final(self)@, r@) == old(self)@.next(input),
    {
        match input {
            ReadInput::LineFailed => ReadAction::Failed { failure: ReadFailure::Line },
            ReadInput::Line(None) => if self.awaits_response() {
                ReadAction::Failed { failure: ReadFailure::Closed }
            } else {
                ReadAction::EndOfStream
            },
            ReadInput::Line(Some(line)) => if exec::blank(line.as_str()) {
                ReadAction::ReadLine
            } else {
                ReadAction::Decode { line }
            },
            ReadInput::Undecodable { line } => ReadAction::Failed {
                failure: ReadFailure::Decode { line },
            },
            ReadInput::Message(message) => self.on_message(message),
            ReadInput::Event(event) => if self.awaits_response() {
                self.buffered.push(event);
                ReadAction::ReadLine
            } else {
                ReadAction::Event { event }
            },
            ReadInput::UndecodableEvent => ReadAction::Failed {
                failure: ReadFailure::DecodeEvent { awaiting_response: self.awaits_response() },
            },
        }
    }

    /// The events that arrived before the answer.
    pub fn into_buffered_events(self) -> (r: Vec<Event>)
        ensures
            r@ == self@.buffered,
    {
        self.buffered
    }
}

/// The events among some inputs, in order.
pub open spec fn events_of(inputs: Seq<ReadInput>) -> Seq<Event>
    decreases inputs.len(),
{
    if inputs.len() == 0 {
        seq![]
    } else {
        match inputs.last() {
            ReadInput::Event(event) => events_of(inputs.drop_last()).push(event),
            _ => events_of(inputs.drop_last()),
        }
    }
}

/// The state of reading after a sequence of inputs.
pub open spec fn after(s: ReadState, inputs: Seq<ReadInput>) -> ReadState
    decreases inputs.len(),
{
    if inputs.len() == 0 {
        s
    } else {
        after(s, inputs.drop_last()).next(inputs.last()).0
    }
}

/// While an answer is waited for, every event that arrives is kept, in order, and nothing else
/// is.
pub proof fn law_no_event_is_lost(s: ReadState, inputs: Seq<ReadInput>)
    requires
        s.goal is Response,
    ensures
        after(s, inputs).buffered == s.buffered + events_of(inputs),
        after(s, inputs).goal == s.goal,
    decreases inputs.len(),
{
    if inputs.len() > 0 {
        law_no_event_is_lost(s, inputs.drop_last());
        match inputs.last() {
            ReadInput::Event(event) => {
                assert(s.buffered + events_of(inputs.drop_last()).push(event) =~= (s.buffered
                    + events_of(inputs.drop_last())).push(event));
            },
            _ => {},
        }
    } else {
        assert(s.buffered + events_of(inputs) =~= s.buffered);
    }
}

/// Only the answer to the request that was sent ends the wait for it; answers to other requests
/// are passed over.
pub proof fn law_other_answers_are_passed_over(
    s: ReadState,
    id: RequestId,
    result: serde_json::Value,
    code: i64,
    message: String,
)
    requires
        !s.answers(id@),
    ensures
        s.next(ReadInput::Message(JsonRpcMessage::Response { id, result })) == (
            s,
            ReadStep::ReadLine,
        ),
        s.next(ReadInput::Message(JsonRpcMessage::Error { id, code, message })) == (
            s,
            ReadStep::ReadLine,
        ),
{
}

/// A message as one line of output.
pub fn frame_message(json: Vec<u8>) -> (r: Vec<u8>)
    ensures
        r@ == json@.push(10),
{
    let mut line = json;
    line.push(10);
    line
}

/// How a server process is brought to its end.
#[derive(Debug, Clone, Copy, PartialEq, Eq, Structural)]
pub enum ShutdownAction {
    /// Close its input.
    CloseInput,
    /// Wait for it to end, for so many seconds at most.
    WaitUpTo { secs: u64 },
    /// Kill it.
    Kill,
    /// Wait for it to end.
    Wait,
    /// It has ended.
    Done,
    /// It could not be waited for.
    WaitFailed,
    /// It could not be killed.
    KillFailed,
    /// It was killed, but could not be waited for.
    WaitKilledFailed,
}

/// What came of it.
#[derive(Debug, Clone, Copy, PartialEq, Eq, Structural)]
pub enum ShutdownInput {
    Succeeded,
    Failed,
    TimedOut,
}

/// What follows on a step of the shutdown: the input is closed first, and a process that has not
/// ended two seconds later is killed.
pub open spec fn shutdown_next(action: ShutdownAction, input: ShutdownInput) -> ShutdownAction {
    match (action, input) {
        (ShutdownAction::CloseInput, _) => ShutdownAction::WaitUpTo { secs: 2 },
        (ShutdownAction::WaitUpTo { .. }, ShutdownInput::Succeeded) => ShutdownAction::Done,
        (ShutdownAction::WaitUpTo { .. }, ShutdownInput::Failed) => ShutdownAction::WaitFailed,
        (ShutdownAction::WaitUpTo { .. }, ShutdownInput::TimedOut) => ShutdownAction::Kill,
        (ShutdownAction::Kill, ShutdownInput::Succeeded) => ShutdownAction::Wait,
        (ShutdownAction::Kill, _) => ShutdownAction::KillFailed,
        (ShutdownAction::Wait, ShutdownInput::Succeeded) => ShutdownAction::Done,
        (ShutdownAction::Wait, _) => ShutdownAction::WaitKilledFailed,
        (ended, _) => ended,
    }
}

/// [`shutdown_next`], and the first step where there is none before.
pub fn shutdown(last: Option<(ShutdownAction, ShutdownInput)>) -> (r: ShutdownAction)
    ensures
        match last {
            Some((action, input)) => r == shutdown_next(action, input),
            None => r == ShutdownAction::CloseInput,
        },
{
    match last {
        None => ShutdownAction::CloseInput,
        Some((ShutdownAction::CloseInput, _)) => ShutdownAction::WaitUpTo { secs: 2 },
        Some((ShutdownAction::WaitUpTo { .. }, ShutdownInput::Succeeded)) => ShutdownAction::Done,
        Some((ShutdownAction::WaitUpTo { .. }, ShutdownInput::Failed)) => {
            ShutdownAction::WaitFailed
        },
        Some((ShutdownAction::WaitUpTo { .. }, ShutdownInput::TimedOut)) => ShutdownAction::Kill,
        Some((ShutdownAction::Kill, ShutdownInput::Succeeded)) => ShutdownAction::Wait,
        Some((ShutdownAction::Kill, _)) => ShutdownAction::KillFailed,
        Some((ShutdownAction::Wait, ShutdownInput::Succeeded)) => ShutdownAction::Done,
        Some((ShutdownAction::Wait, _)) => ShutdownAction::WaitKilledFailed,
        Some((ended, _)) => ended,
    }
}

/// What a failed shutdown is called.
pub fn shutdown_failure(action: ShutdownAction) -> (r: Option<&'static str>)
    ensures
        match action {
            ShutdownAction::WaitFailed => r matches Some(s) && s@
                == "wait for potter app-server process"@,
            ShutdownAction::KillFailed => r matches Some(s) && s@
                == "kill potter app-server process"@,
            ShutdownAction::WaitKilledFailed => r matches Some(s) && s@
                == "wait for killed potter app-server process"@,
            _ => r is None,
        },
{
    match action {
        ShutdownAction::WaitFailed => Some("wait for potter app-server process"),
        ShutdownAction::KillFailed => Some("kill potter app-server process"),
        ShutdownAction::WaitKilledFailed => Some("wait for killed potter app-server process"),
        _ => None,
    }
}

/// The shutdown ends after five steps at most, whatever comes of them.
pub proof fn law_shutdown_ends(a: ShutdownInput, b: ShutdownInput, c: ShutdownInput, d: ShutdownInput)
    ensures
        ({
            let s = ShutdownAction::CloseInput;
            let s = shutdown_next(s, a);
            let s = shutdown_next(s, b);
            let s = shutdown_next(s, c);
            let s = shutdown_next(s, d);
            s is Done || s is WaitFailed || s is KillFailed || s is WaitKilledFailed
        }),
{
}

/// A request with an identifier of its own: no two numbers give the same one, and a text gives
/// none.
pub proof fn law_number_is_the_identifier(id: RequestId, m: int, n: int)
    ensures
        numbered(id, m) && numbered(id, n) ==> m == n,
        numbered(id, n) ==> id@ == IdView::Integer(n as i64),
        numbered(id, n) ==> !(id is Text),
        id matches RequestId::Integer(i) ==> numbered(id, i as int),
        id matches RequestId::Integer(i) ==> id@ == IdView::Integer(i),
        id matches RequestId::Text(s) ==> id@ == IdView::Text(s@),
        n < i64::MAX ==> next_number(n) == n + 1,
        n == i64::MAX ==> next_number(n) == n,
{
}

/// While the next event is waited for, the event that arrives is handed out as it is; answers are
/// passed over, whomever they are for; and the end of the output is the end of the events.
pub proof fn law_waiting_for_an_event(
    s: ReadState,
    event: Event,
    id: RequestId,
    result: serde_json::Value,
    code: i64,
    message: String,
)
    requires
        s.goal is NextEvent,
    ensures
        s.next(ReadInput::Event(event)) == (s, ReadStep::Event { event }),
        s.next(ReadInput::Line(None)) == (s, ReadStep::EndOfStream),
        s.next(ReadInput::Message(JsonRpcMessage::Response { id, result })) == (
            s,
            ReadStep::ReadLine,
        ),
        s.next(ReadInput::Message(JsonRpcMessage::Error { id, code, message })) == (
            s,
            ReadStep::ReadLine,
        ),
        s.next(ReadInput::UndecodableEvent).1 == (ReadStep::Failed {
            fault: ReadFault::DecodeEvent { awaiting_response: false },
        }),
{
}

/// While an answer is waited for, the answer to that request ends the wait, with its result or with
/// its error as they came; an event that arrives is put behind those that came before it, and the
/// wait goes on; and the end of the output is a failure.
pub proof fn law_waiting_for_an_answer(
    s: ReadState,
    event: Event,
    id: RequestId,
    result: serde_json::Value,
    code: i64,
    message: String,
)
    requires
        s.goal is Response,
    ensures
        s.goal->id == id@ ==> {
            &&& s.next(ReadInput::Message(JsonRpcMessage::Response { id, result })) == (
                s,
                ReadStep::Response { result },
            )
            &&& s.next(ReadInput::Message(JsonRpcMessage::Error { id, code, message })) == (
                s,
                ReadStep::Failed { fault: ReadFault::Rpc { code, message: message@ } },
            )
        },
        s.goal->id != id@ ==> {
            &&& s.next(ReadInput::Message(JsonRpcMessage::Response { id, result })) == (
                s,
                ReadStep::ReadLine,
            )
            &&& s.next(ReadInput::Message(JsonRpcMessage::Error { id, code, message })) == (
                s,
                ReadStep::ReadLine,
            )
        },
        s.next(ReadInput::Event(event)).1 == ReadStep::ReadLine,
        s.next(ReadInput::Event(event)).0.buffered == s.buffered.push(event),
        s.next(ReadInput::Event(event)).0.goal == s.goal,
        s.next(ReadInput::Line(None)) == (s, ReadStep::Failed { fault: ReadFault::Closed }),
        s.next(ReadInput::UndecodableEvent).1 == (ReadStep::Failed {
            fault: ReadFault::DecodeEvent { awaiting_response: true },
        }),
{
}

/// Whatever is waited for: a line that is not blank is decoded as it is, and a blank one is passed
/// over; so are requests, and notifications that are not about an event; the payload of one that is
/// gets decoded. What cannot be read or decoded, or lacks its payload, is a failure that names it.
/// None of these changes what is waited for, or what was kept.
pub proof fn law_lines_and_notifications(
    s: ReadState,
    line: String,
    method: String,
    params: Option<serde_json::Value>,
)
    ensures
        exec::is_blank(line@) ==> s.next(ReadInput::Line(Some(line))) == (s, ReadStep::ReadLine),
        !exec::is_blank(line@) ==> s.next(ReadInput::Line(Some(line))) == (
            s,
            ReadStep::Decode { line: line@ },
        ),
        s.next(ReadInput::LineFailed) == (s, ReadStep::Failed { fault: ReadFault::Line }),
        s.next(ReadInput::Undecodable { line }) == (
            s,
            ReadStep::Failed { fault: ReadFault::Decode { line: line@ } },
        ),
        s.next(ReadInput::Message(JsonRpcMessage::Request)) == (s, ReadStep::ReadLine),
        ({
            let read = s.next(
                ReadInput::Message(JsonRpcMessage::Notification { method, params }),
            );
            &&& read.0 == s
            &&& read.1 == if method@ != "codex/event/potter"@ {
                ReadStep::ReadLine
            } else if params is Some {
                ReadStep::DecodeEvent { params: params->0 }
            } else {
                ReadStep::Failed { fault: ReadFault::MissingParams }
            }
        }),
{
}

/// What the failures are called; those that came with something name it.
pub proof fn law_fault_messages(line: Seq<char>, code: i64, message: Seq<char>)
    ensures
        fault_message(ReadFault::Line) == "read potter app-server stdout line"@,
        fault_message(ReadFault::Closed) == "potter app-server closed stdout unexpectedly"@,
        fault_message(ReadFault::Decode { line }) == "decode potter app-server JSON-RPC: "@
            + text::debug_text(line),
        fault_message(ReadFault::MissingParams)
            == "potter app-server event notification missing params"@,
        fault_message(ReadFault::DecodeEvent { awaiting_response: true })
            == "deserialize potter event payload"@,
        fault_message(ReadFault::DecodeEvent { awaiting_response: false })
            == "deserialize potter app-server event payload"@,
        fault_message(ReadFault::Rpc { code, message })
            == "potter app-server JSON-RPC error: code="@ + text::signed(code as int)
            + " message="@ + message,
{
}

/// The input is closed first, whatever comes of it; then the process has two seconds to end by
/// itself, and is killed where it takes longer, and only there; one that was killed is waited for.
pub proof fn law_shutdown_is_gentle_first(secs: u64, input: ShutdownInput)
    ensures
        shutdown_next(ShutdownAction::CloseInput, input) == (ShutdownAction::WaitUpTo { secs: 2 }),
        shutdown_next(ShutdownAction::WaitUpTo { secs }, input) is Kill <==> input is TimedOut,
        shutdown_next(ShutdownAction::WaitUpTo { secs }, input) is Done <==> input is Succeeded,
        shutdown_next(ShutdownAction::WaitUpTo { secs }, input) is WaitFailed <==> input is Failed,
        shutdown_next(ShutdownAction::Kill, input) is Wait <==> input is Succeeded,
        shutdown_next(ShutdownAction::Kill, input) is KillFailed <==> !(input is Succeeded),
        shutdown_next(ShutdownAction::Wait, input) is Done <==> input is Succeeded,
        shutdown_next(ShutdownAction::Wait, input) is WaitKilledFailed <==> !(input is Succeeded),
        shutdown_next(ShutdownAction::Done, input) is Done,
        shutdown_next(ShutdownAction::WaitFailed, input) is WaitFailed,
        shutdown_next(ShutdownAction::KillFailed, input) is KillFailed,
        shutdown_next(ShutdownAction::WaitKilledFailed, input) is WaitKilledFailed,
{
}

/// An action is read, mathematically, as what it is, with every value that it holds.
pub proof fn law_action_is_read_as_it_is(action: ReadAction)
    ensures
        match action {
            ReadAction::ReadLine => action@ is ReadLine,
            ReadAction::Decode { line } => action@ is Decode && action@->Decode_line == line@,
            ReadAction::DecodeEvent { params } => {
                &&& action@ is DecodeEvent
                &&& action@->DecodeEvent_params == params
            },
            ReadAction::Event { event } => action@ is Event && action@->Event_event == event,
            ReadAction::EndOfStream => action@ is EndOfStream,
            ReadAction::Response { result } => {
                &&& action@ is Response
                &&& action@->Response_result == result
            },
            ReadAction::Failed { failure } => {
                &&& action@ is Failed
                &&& action@->Failed_fault == failure@
            },
        },
{
}

/// A failure is read, mathematically, as what it is, with every value that it holds.
pub proof fn law_failure_is_read_as_it_is(failure: ReadFailure)
    ensures
        match failure {
            ReadFailure::Line => failure@ is Line,
            ReadFailure::Closed => failure@ is Closed,
            ReadFailure::Decode { line } => failure@ is Decode && failure@->Decode_line == line@,
            ReadFailure::MissingParams => failure@ is MissingParams,
            ReadFailure::DecodeEvent { awaiting_response } => {
                &&& failure@ is DecodeEvent
                &&& failure@->DecodeEvent_awaiting_response == awaiting_response
            },
            ReadFailure::Rpc { code, message } => {
                &&& failure@ is Rpc
                &&& failure@->Rpc_code == code
                &&& failure@->Rpc_message == message@
            },
        },
{
}

/// What is waited for is read, mathematically, as what it is.
pub proof fn law_goal_is_read_as_it_is(goal: ReadGoal)
    ensures
        match goal {
            ReadGoal::NextEvent => goal@ is NextEvent,
            ReadGoal::Response { id } => goal@ is Response && goal@->Response_id == id@,
        },
{
}

} // verus!
