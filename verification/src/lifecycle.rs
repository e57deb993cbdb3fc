//! The life of a call, from the first message to the proof.
//!
//! A [`CallStep`] is what has to be done next. Whoever does it hands back what came of it, as a
//! [`CallEvent`], and gets the step after that.

use vstd::prelude::*;

use crate::api::{McpCallProofResult, ProofView};
use crate::checks::{
    expect_response_id, id_outcome, initialize_outcome, protocol_error, tool_call_outcome,
    tools_list_outcome, validate_initialize, validate_tool_call, validate_tools_list,
};
use crate::evidence::{build_proof, proof_of};
use crate::failure::{
    failure, plain_failure, CallProofStage, FailureView, McpCallProofErrorCode, McpCallProofFailure,
};
use crate::json::{Json, JsonTree};
use crate::prepared::{outcome, PreparedCall, PreparedView};
use crate::protocol::{
    build_tools_call_request, tools_call_request, JsonRpcRequest, JsonRpcResponse, RequestView,
    ResponseView,
};
use crate::receive::{
    announces_events, answers, body_outcome, check_line, endpoint_read_outcome, extend_body,
    header_value, is_answer, is_event_stream, is_header_value, line_outcome, message_outcome,
    optional_response, status_outcome, validate_http_status, wait_for_bounded_endpoint,
    wait_for_bounded_sse_response, StreamRead, StreamReadView,
};
use crate::spawn::{spawn_error, spawn_failure, SpawnErrorKind};
use crate::text::optional_text;
use crate::urls::{UrlParts, UrlView};

verus! {

/// The identifier of the request `initialize`.
pub const INITIALIZE_REQUEST_ID: u64 = 1;

/// The identifier of the request `tools/list`.
pub const TOOLS_LIST_REQUEST_ID: u64 = 2;

/// The identifier of the request `tools/call`.
pub const TOOL_CALL_REQUEST_ID: u64 = 3;

/// How the server is spoken to.
#[derive(Debug)]
pub enum Channel {
    Stdio,
    Http,
    /// The URL of the event stream, and its parts.
    Sse { url: String, base: UrlParts },
}

/// What a [`Channel`] says.
pub enum ChannelView {
    Stdio,
    Http,
    Sse { url: Seq<char>, base: UrlView },
}

impl View for Channel {
    type V = ChannelView;

    open spec fn view(&self) -> ChannelView {
        match self {
            Channel::Stdio => ChannelView::Stdio,
            Channel::Http => ChannelView::Http,
            Channel::Sse { url, base } => ChannelView::Sse { url: url@, base: base@ },
        }
    }
}

impl ChannelView {
    /// The name of the kind of transport.
    pub open spec fn label(self) -> Seq<char> {
        match self {
            ChannelView::Stdio => "stdio"@,
            ChannelView::Http => "http"@,
            ChannelView::Sse { .. } => "sse"@,
        }
    }
}

impl Channel {
    /// The name of the kind of transport.
    pub fn label(&self) -> (label: &'static str)
        ensures
            label@ == self@.label(),
    {
        match self {
            Channel::Stdio => "stdio",
            Channel::Http => "http",
            Channel::Sse { .. } => "sse",
        }
    }
}

/// A message to the server.
#[derive(Debug)]
pub enum Outgoing {
    Initialize { id: u64 },
    Initialized,
    ToolsList { id: u64 },
    ToolsCall(JsonRpcRequest),
}

/// What an [`Outgoing`] says.
pub enum OutgoingView {
    Initialize { id: u64 },
    Initialized,
    ToolsList { id: u64 },
    ToolsCall(RequestView),
}

impl View for Outgoing {
    type V = OutgoingView;

    open spec fn view(&self) -> OutgoingView {
        match self {
            Outgoing::Initialize { id } => OutgoingView::Initialize { id: *id },
            Outgoing::Initialized => OutgoingView::Initialized,
            Outgoing::ToolsList { id } => OutgoingView::ToolsList { id: *id },
            Outgoing::ToolsCall(request) => OutgoingView::ToolsCall(request@),
        }
    }
}

/// Which message the call has come to, and what earlier responses brought.
#[derive(Debug)]
pub enum Exchange {
    Initialize,
    Initialized { version: String },
    ToolsList { version: String },
    ToolsCall { version: String, tools: Json },
}

/// What an [`Exchange`] says.
pub enum ExchangeView {
    Initialize,
    Initialized { version: Seq<char> },
    ToolsList { version: Seq<char> },
    ToolsCall { version: Seq<char>, tools: JsonTree },
}

impl View for Exchange {
    type V = ExchangeView;

    open spec fn view(&self) -> ExchangeView {
        match self {
            Exchange::Initialize => ExchangeView::Initialize,
            Exchange::Initialized { version } => ExchangeView::Initialized { version: version@ },
            Exchange::ToolsList { version } => ExchangeView::ToolsList { version: version@ },
            Exchange::ToolsCall { version, tools } => ExchangeView::ToolsCall {
                version: version@,
                tools: tools@,
            },
        }
    }
}

impl ExchangeView {
    /// The stage of the call.
    pub open spec fn stage(self) -> CallProofStage {
        match self {
            ExchangeView::Initialize => CallProofStage::Initialize,
            ExchangeView::Initialized { .. } => CallProofStage::Initialized,
            ExchangeView::ToolsList { .. } => CallProofStage::ToolsList,
            ExchangeView::ToolsCall { .. } => CallProofStage::ToolsCall,
        }
    }
}

impl Exchange {
    /// The stage of the call.
    pub fn stage(&self) -> (stage: CallProofStage)
        ensures
            stage == self@.stage(),
    {
        match self {
            Exchange::Initialize => CallProofStage::Initialize,
            Exchange::Initialized { .. } => CallProofStage::Initialized,
            Exchange::ToolsList { .. } => CallProofStage::ToolsList,
            Exchange::ToolsCall { .. } => CallProofStage::ToolsCall,
        }
    }
}

/// How far a call has come.
#[derive(Debug)]
pub struct Progress {
    pub prepared: PreparedCall,
    pub channel: Channel,
    pub exchange: Exchange,
    /// The session that the server offered with its reply to `initialize`.
    pub offered: Option<String>,
    /// The session, which has to be deleted in the end.
    pub session: Option<String>,
    /// Where an event stream takes messages.
    pub endpoint: Option<String>,
}

/// What a [`Progress`] says.
pub struct ProgressView {
    pub prepared: PreparedView,
    pub channel: ChannelView,
    pub exchange: ExchangeView,
    pub offered: Option<Seq<char>>,
    pub session: Option<Seq<char>>,
    pub endpoint: Option<Seq<char>>,
}

impl View for Progress {
    type V = ProgressView;

    open spec fn view(&self) -> ProgressView {
        ProgressView {
            prepared: self.prepared@,
            channel: self.channel@,
            exchange: self.exchange@,
            offered: optional_text(self.offered),
            session: optional_text(self.session),
            endpoint: optional_text(self.endpoint),
        }
    }
}

/// Where bytes that are to be decoded came from.
#[derive(Debug, Clone, Copy, PartialEq, Eq, Structural)]
pub enum Source {
    Line,
    Body,
    Event,
}

/// What a call came to.
pub type CallOutcome = Result<McpCallProofResult, McpCallProofFailure>;

/// What has to be done next.
#[derive(Debug)]
pub enum CallStep {
    /// Start the command.
    Spawn(Progress),
    /// Open the event stream.
    Open(Progress),
    /// Read the event stream, which has yet to name its endpoint.
    AwaitEndpoint(Progress),
    /// Send a message.
    Send(Progress, Outgoing),
    /// Read a line.
    ReadLine(Progress),
    /// Read the next piece of a body, which has come as far as this.
    ReadBody(Progress, Vec<u8>),
    /// Read the event stream.
    ReadEvent(Progress),
    /// Decode a response.
    Decode(Progress, Vec<u8>, Source),
    /// Delete the session.
    DeleteSession(Progress, CallOutcome),
    /// Kill the command.
    Kill(CallOutcome),
    /// Nothing: the call is over. Its session may still have to be deleted, without anyone waiting
    /// for it.
    Done { outcome: CallOutcome, session_left: bool },
}

/// What a [`CallStep`] says.
pub enum StepView {
    Spawn(ProgressView),
    Open(ProgressView),
    AwaitEndpoint(ProgressView),
    Send(ProgressView, OutgoingView),
    ReadLine(ProgressView),
    ReadBody(ProgressView, Seq<u8>),
    ReadEvent(ProgressView),
    Decode(ProgressView, Seq<u8>, Source),
    DeleteSession(ProgressView, Result<ProofView, FailureView>),
    Kill(Result<ProofView, FailureView>),
    Done { outcome: Result<ProofView, FailureView>, session_left: bool },
}

impl View for CallStep {
    type V = StepView;

    open spec fn view(&self) -> StepView {
        match self {
            CallStep::Spawn(p) => StepView::Spawn(p@),
            CallStep::Open(p) => StepView::Open(p@),
            CallStep::AwaitEndpoint(p) => StepView::AwaitEndpoint(p@),
            CallStep::Send(p, message) => StepView::Send(p@, message@),
            CallStep::ReadLine(p) => StepView::ReadLine(p@),
            CallStep::ReadBody(p, body) => StepView::ReadBody(p@, body@),
            CallStep::ReadEvent(p) => StepView::ReadEvent(p@),
            CallStep::Decode(p, bytes, source) => StepView::Decode(p@, bytes@, *source),
            CallStep::DeleteSession(p, result) => StepView::DeleteSession(p@, outcome(*result)),
            CallStep::Kill(result) => StepView::Kill(outcome(*result)),
            CallStep::Done { outcome: result, session_left } => StepView::Done {
                outcome: outcome(*result),
                session_left: *session_left,
            },
        }
    }
}

/// The head of an HTTP response.
#[derive(Debug)]
pub struct ReplyHead {
    pub status: u16,
    pub content_type: Option<String>,
    pub session_id: Option<String>,
}

/// What a [`ReplyHead`] says.
pub struct ReplyHeadView {
    pub status: u16,
    pub content_type: Option<Seq<char>>,
    pub session_id: Option<Seq<char>>,
}

impl View for ReplyHead {
    type V = ReplyHeadView;

    open spec fn view(&self) -> ReplyHeadView {
        ReplyHeadView {
            status: self.status,
            content_type: optional_text(self.content_type),
            session_id: optional_text(self.session_id),
        }
    }
}

/// What came of a step. An event that the step at hand does not wait for changes nothing.
#[derive(Debug)]
pub enum CallEvent {
    Spawned,
    SpawnFailed(SpawnErrorKind),
    /// A message was written to the command.
    Written,
    /// A message could not be put into bytes.
    EncodingFailed,
    /// A message could not be sent, or no reply came.
    SendFailed,
    /// A message was answered with this head.
    Replied(ReplyHead),
    /// A line was read, up to its end or up to one byte more than is allowed.
    Line(Vec<u8>),
    /// A piece of a body was read.
    Piece(Vec<u8>),
    /// The body is over.
    BodyEnd,
    /// The event stream was read.
    Stream(StreamRead),
    /// Reading failed.
    ReadFailed,
    /// The bytes were decoded, to nothing where they are no response.
    Decoded(Option<JsonRpcResponse>),
    /// The attempt to delete the session is over.
    SessionDeleted,
    Killed,
    KillFailed,
    /// The time for the call is up.
    TimedOut,
}

/// What a [`CallEvent`] says.
pub enum EventView {
    Spawned,
    SpawnFailed(SpawnErrorKind),
    Written,
    EncodingFailed,
    SendFailed,
    Replied(ReplyHeadView),
    Line(Seq<u8>),
    Piece(Seq<u8>),
    BodyEnd,
    Stream(StreamReadView),
    ReadFailed,
    Decoded(Option<ResponseView>),
    SessionDeleted,
    Killed,
    KillFailed,
    TimedOut,
}

impl View for CallEvent {
    type V = EventView;

    open spec fn view(&self) -> EventView {
        match self {
            CallEvent::Spawned => EventView::Spawned,
            CallEvent::SpawnFailed(kind) => EventView::SpawnFailed(*kind),
            CallEvent::Written => EventView::Written,
            CallEvent::EncodingFailed => EventView::EncodingFailed,
            CallEvent::SendFailed => EventView::SendFailed,
            CallEvent::Replied(head) => EventView::Replied(head@),
            CallEvent::Line(bytes) => EventView::Line(bytes@),
            CallEvent::Piece(bytes) => EventView::Piece(bytes@),
            CallEvent::BodyEnd => EventView::BodyEnd,
            CallEvent::Stream(read) => EventView::Stream(read@),
            CallEvent::ReadFailed => EventView::ReadFailed,
            CallEvent::Decoded(response) => EventView::Decoded(optional_response(*response)),
            CallEvent::SessionDeleted => EventView::SessionDeleted,
            CallEvent::Killed => EventView::Killed,
            CallEvent::KillFailed => EventView::KillFailed,
            CallEvent::TimedOut => EventView::TimedOut,
        }
    }
}

/// The end of a call that leaves nothing behind.
pub open spec fn over(outcome: Result<ProofView, FailureView>) -> StepView {
    StepView::Done { outcome, session_left: false }
}

/// What follows once it is known what the call came to: a command is killed and a session is
/// deleted first.
pub open spec fn finish(p: ProgressView, outcome: Result<ProofView, FailureView>) -> StepView {
    match p.channel {
        ChannelView::Stdio => StepView::Kill(outcome),
        ChannelView::Http => if p.session is Some {
            StepView::DeleteSession(p, outcome)
        } else {
            over(outcome)
        },
        ChannelView::Sse { .. } => over(outcome),
    }
}

/// What follows a failure.
pub open spec fn fail(p: ProgressView, error: FailureView) -> StepView {
    finish(p, Err(error))
}

/// What follows a failure with the code `code` in the stage that the call has come to.
pub open spec fn fail_here(p: ProgressView, code: McpCallProofErrorCode) -> StepView {
    fail(p, plain_failure(code, p.exchange.stage(), p.channel.label()))
}

/// What follows once the message at hand has gone out and `head` has come back, where there is
/// one.
pub open spec fn await_response(p: ProgressView, head: Option<ReplyHeadView>) -> StepView {
    match p.exchange {
        ExchangeView::Initialized { version } => StepView::Send(
            ProgressView { exchange: ExchangeView::ToolsList { version }, ..p },
            OutgoingView::ToolsList { id: TOOLS_LIST_REQUEST_ID },
        ),
        _ => match (p.channel, head) {
            (ChannelView::Stdio, _) => StepView::ReadLine(p),
            (ChannelView::Http, Some(head)) => {
                let offered = if p.exchange is Initialize {
                    head.session_id
                } else {
                    p.offered
                };
                if announces_events(head.content_type) {
                    StepView::ReadEvent(ProgressView { offered, ..p })
                } else {
                    StepView::ReadBody(ProgressView { offered, ..p }, Seq::empty())
                }
            },
            _ => StepView::ReadEvent(p),
        },
    }
}

/// What follows the response to `initialize`.
pub open spec fn after_initialize(p: ProgressView, response: ResponseView) -> StepView {
    let label = p.channel.label();
    match (
        id_outcome(response, INITIALIZE_REQUEST_ID, CallProofStage::Initialize, label),
        initialize_outcome(response, label),
    ) {
        (Err(error), _) => fail(p, error),
        (_, Err(error)) => fail(p, error),
        (Ok(_), Ok(version)) => if p.offered is Some && !header_value(p.offered->0) {
            fail(p, protocol_error(CallProofStage::Initialize, label))
        } else {
            StepView::Send(
                ProgressView {
                    exchange: ExchangeView::Initialized { version },
                    session: p.offered,
                    ..p
                },
                OutgoingView::Initialized,
            )
        },
    }
}

/// What follows the response to `tools/list`.
pub open spec fn after_tools_list(
    p: ProgressView,
    version: Seq<char>,
    response: ResponseView,
) -> StepView {
    let label = p.channel.label();
    match (
        id_outcome(response, TOOLS_LIST_REQUEST_ID, CallProofStage::ToolsList, label),
        tools_list_outcome(response, p.prepared.tool, label),
    ) {
        (Err(error), _) => fail(p, error),
        (_, Err(error)) => fail(p, error),
        (Ok(_), Ok(tools)) => StepView::Send(
            ProgressView { exchange: ExchangeView::ToolsCall { version, tools }, ..p },
            OutgoingView::ToolsCall(
                tools_call_request(TOOL_CALL_REQUEST_ID, p.prepared.tool, p.prepared.arguments),
            ),
        ),
    }
}

/// What follows the response to `tools/call`.
pub open spec fn after_tools_call(
    p: ProgressView,
    version: Seq<char>,
    tools: JsonTree,
    response: ResponseView,
) -> StepView {
    let label = p.channel.label();
    match (
        id_outcome(response, TOOL_CALL_REQUEST_ID, CallProofStage::ToolsCall, label),
        tool_call_outcome(response, label),
    ) {
        (Err(error), _) => fail(p, error),
        (_, Err(error)) => fail(p, error),
        (Ok(_), Ok(result)) => finish(p, Ok(proof_of(p.prepared, version, tools, result))),
    }
}

/// What follows a response.
pub open spec fn after_response(p: ProgressView, response: ResponseView) -> StepView {
    match p.exchange {
        ExchangeView::Initialize => after_initialize(p, response),
        ExchangeView::Initialized { .. } => fail_here(p, McpCallProofErrorCode::ProtocolError),
        ExchangeView::ToolsList { version } => after_tools_list(p, version, response),
        ExchangeView::ToolsCall { version, tools } => after_tools_call(p, version, tools, response),
    }
}

/// What follows where the time is up.
pub open spec fn after_timeout(p: ProgressView) -> StepView {
    let error = plain_failure(
        McpCallProofErrorCode::Timeout,
        CallProofStage::ToolsCall,
        p.channel.label(),
    );
    match p.channel {
        ChannelView::Stdio => StepView::Kill(Err(error)),
        _ => StepView::Done { outcome: Err(error), session_left: p.session is Some },
    }
}

/// What follows `step` if `event` came of it.
pub open spec fn next_step(step: StepView, event: EventView) -> StepView {
    match (step, event) {
        (StepView::Spawn(p), EventView::Spawned) => StepView::Send(
            p,
            OutgoingView::Initialize { id: INITIALIZE_REQUEST_ID },
        ),
        (StepView::Spawn(_), EventView::SpawnFailed(kind)) => over(Err(spawn_failure(kind))),
        (StepView::Open(p), EventView::SendFailed) => fail(
            p,
            plain_failure(
                McpCallProofErrorCode::ConnectionFailed,
                CallProofStage::Connect,
                p.channel.label(),
            ),
        ),
        (StepView::Open(p), EventView::Replied(head)) => match status_outcome(
            head.status,
            CallProofStage::Connect,
            p.channel.label(),
        ) {
            Err(error) => fail(p, error),
            Ok(_) => StepView::AwaitEndpoint(p),
        },
        (StepView::AwaitEndpoint(p), EventView::Stream(read)) => match p.channel {
            ChannelView::Sse { url, base } => match endpoint_read_outcome(url, base, read) {
                Err(error) => fail(p, error),
                Ok(None) => step,
                Ok(Some(endpoint)) => StepView::Send(
                    ProgressView { endpoint: Some(endpoint), ..p },
                    OutgoingView::Initialize { id: INITIALIZE_REQUEST_ID },
                ),
            },
            _ => step,
        },
        (StepView::Send(p, _), EventView::Written) => if p.channel is Stdio {
            await_response(p, None)
        } else {
            step
        },
        (StepView::Send(p, _), EventView::EncodingFailed) => if p.channel is Stdio {
            fail_here(p, McpCallProofErrorCode::ProtocolError)
        } else {
            step
        },
        (StepView::Send(p, _), EventView::SendFailed) => fail_here(
            p,
            McpCallProofErrorCode::ConnectionFailed,
        ),
        (StepView::Send(p, _), EventView::Replied(head)) => if p.channel is Stdio {
            step
        } else {
            match status_outcome(head.status, p.exchange.stage(), p.channel.label()) {
                Err(error) => fail(p, error),
                Ok(_) => await_response(p, Some(head)),
            }
        },
        (StepView::ReadLine(p), EventView::Line(line)) => match line_outcome(
            line,
            p.exchange.stage(),
        ) {
            Err(error) => fail(p, error),
            Ok(_) => StepView::Decode(p, line, Source::Line),
        },
        (StepView::ReadLine(p), EventView::ReadFailed) => fail_here(
            p,
            McpCallProofErrorCode::ConnectionFailed,
        ),
        (StepView::ReadBody(p, body), EventView::Piece(piece)) => match body_outcome(
            body,
            piece,
            p.exchange.stage(),
            p.channel.label(),
        ) {
            Err(error) => fail(p, error),
            Ok(longer) => StepView::ReadBody(p, longer),
        },
        (StepView::ReadBody(p, body), EventView::BodyEnd) => StepView::Decode(
            p,
            body,
            Source::Body,
        ),
        (StepView::ReadBody(p, _), EventView::ReadFailed) => fail_here(
            p,
            McpCallProofErrorCode::ConnectionFailed,
        ),
        (StepView::ReadEvent(p), EventView::Stream(read)) => match message_outcome(
            read,
            p.exchange.stage(),
            p.channel.label(),
        ) {
            Err(error) => fail(p, error),
            Ok(None) => step,
            Ok(Some(data)) => StepView::Decode(p, data, Source::Event),
        },
        (StepView::Decode(p, _, source), EventView::Decoded(decoded)) => if source is Body {
            match decoded {
                Some(response) => after_response(p, response),
                None => fail_here(p, McpCallProofErrorCode::ProtocolError),
            }
        } else if answers(decoded) {
            after_response(p, decoded->0)
        } else if source is Line {
            StepView::ReadLine(p)
        } else {
            StepView::ReadEvent(p)
        },
        (StepView::DeleteSession(_, outcome), EventView::SessionDeleted) => over(outcome),
        (StepView::Kill(outcome), EventView::Killed) => over(outcome),
        (StepView::Kill(_), EventView::KillFailed) => over(
            Err(
                plain_failure(
                    McpCallProofErrorCode::ProcessCleanupFailed,
                    CallProofStage::Cleanup,
                    "stdio"@,
                ),
            ),
        ),
        (StepView::Open(p), EventView::TimedOut) => after_timeout(p),
        (StepView::AwaitEndpoint(p), EventView::TimedOut) => after_timeout(p),
        (StepView::Send(p, _), EventView::TimedOut) => after_timeout(p),
        (StepView::ReadLine(p), EventView::TimedOut) => after_timeout(p),
        (StepView::ReadBody(p, _), EventView::TimedOut) => after_timeout(p),
        (StepView::ReadEvent(p), EventView::TimedOut) => after_timeout(p),
        (StepView::Decode(p, _, _), EventView::TimedOut) => after_timeout(p),
        (StepView::DeleteSession(p, _), EventView::TimedOut) => after_timeout(p),
        _ => step,
    }
}

fn done(result: CallOutcome) -> (step: CallStep)
    ensures
        step@ == over(outcome(result)),
{
    CallStep::Done { outcome: result, session_left: false }
}

fn finished(p: Progress, result: CallOutcome) -> (step: CallStep)
    ensures
        step@ == finish(p@, outcome(result)),
{
    match &p.channel {
        Channel::Stdio => CallStep::Kill(result),
        Channel::Http => if p.session.is_some() {
            CallStep::DeleteSession(p, result)
        } else {
            done(result)
        },
        Channel::Sse { .. } => done(result),
    }
}

fn failed(p: Progress, error: McpCallProofFailure) -> (step: CallStep)
    ensures
        step@ == fail(p@, error@),
{
    finished(p, Err(error))
}

fn failed_here(p: Progress, code: McpCallProofErrorCode) -> (step: CallStep)
    ensures
        step@ == fail_here(p@, code),
{
    let error = failure(code, p.exchange.stage(), p.channel.label());
    failed(p, error)
}

fn awaiting_response(p: Progress, head: Option<ReplyHead>) -> (step: CallStep)
    ensures
        step@ == await_response(
            p@,
            match head {
                Some(h) => Some(h@),
                None => None,
            },
        ),
{
    let Progress { prepared, channel, exchange, offered, session, endpoint } = p;
    match exchange {
        Exchange::Initialized { version } => CallStep::Send(
            Progress {
                prepared,
                channel,
                exchange: Exchange::ToolsList { version },
                offered,
                session,
                endpoint,
            },
            Outgoing::ToolsList { id: TOOLS_LIST_REQUEST_ID },
        ),
        exchange => {
            let stdio = match &channel {
                Channel::Stdio => true,
                _ => false,
            };
            let http = match &channel {
                Channel::Http => true,
                _ => false,
            };
            if stdio {
                return CallStep::ReadLine(
                    Progress { prepared, channel, exchange, offered, session, endpoint },
                );
            }
            if http {
                if let Some(head) = head {
                    let offered = match &exchange {
                        Exchange::Initialize => head.session_id,
                        _ => offered,
                    };
                    let p = Progress { prepared, channel, exchange, offered, session, endpoint };
                    return if is_event_stream(&head.content_type) {
                        CallStep::ReadEvent(p)
                    } else {
                        CallStep::ReadBody(p, Vec::new())
                    };
                }
            }
            CallStep::ReadEvent(Progress { prepared, channel, exchange, offered, session, endpoint })
        },
    }
}

fn responded_to_initialize(p: Progress, response: &JsonRpcResponse) -> (step: CallStep)
    ensures
        step@ == after_initialize(p@, response@),
{
    let label = p.channel.label();
    if let Err(error) = expect_response_id(
        response,
        INITIALIZE_REQUEST_ID,
        CallProofStage::Initialize,
        label,
    ) {
        return failed(p, error);
    }
    let version = match validate_initialize(response, label) {
        Ok(version) => version,
        Err(error) => return failed(p, error),
    };
    let refused = match &p.offered {
        Some(session_id) => !is_header_value(session_id.as_str()),
        None => false,
    };
    if refused {
        let error = failure(McpCallProofErrorCode::ProtocolError, CallProofStage::Initialize, label);
        return failed(p, error);
    }
    let session = p.offered.clone();
    CallStep::Send(
        Progress { exchange: Exchange::Initialized { version }, session, ..p },
        Outgoing::Initialized,
    )
}

fn responded_to_tools_list(p: Progress, version: String, response: &JsonRpcResponse) -> (step:
    CallStep)
    ensures
        step@ == after_tools_list(p@, version@, response@),
{
    let label = p.channel.label();
    if let Err(error) = expect_response_id(
        response,
        TOOLS_LIST_REQUEST_ID,
        CallProofStage::ToolsList,
        label,
    ) {
        return failed(p, error);
    }
    let tools = match validate_tools_list(response, p.prepared.tool.as_str(), label) {
        Ok(tools) => tools,
        Err(error) => return failed(p, error),
    };
    let request = build_tools_call_request(
        TOOL_CALL_REQUEST_ID,
        p.prepared.tool.as_str(),
        p.prepared.arguments.clone(),
    );
    CallStep::Send(
        Progress { exchange: Exchange::ToolsCall { version, tools }, ..p },
        Outgoing::ToolsCall(request),
    )
}

fn responded_to_tools_call(
    p: Progress,
    version: String,
    tools: Json,
    response: &JsonRpcResponse,
) -> (step: CallStep)
    ensures
        step@ == after_tools_call(p@, version@, tools@, response@),
{
    let label = p.channel.label();
    if let Err(error) = expect_response_id(
        response,
        TOOL_CALL_REQUEST_ID,
        CallProofStage::ToolsCall,
        label,
    ) {
        return failed(p, error);
    }
    let result = match validate_tool_call(response, label) {
        Ok(result) => result,
        Err(error) => return failed(p, error),
    };
    let proof = build_proof(&p.prepared, version, tools, result);
    finished(p, proof)
}

fn responded(p: Progress, response: &JsonRpcResponse) -> (step: CallStep)
    ensures
        step@ == after_response(p@, response@),
{
    match &p.exchange {
        Exchange::Initialize => responded_to_initialize(p, response),
        Exchange::Initialized { .. } => failed_here(p, McpCallProofErrorCode::ProtocolError),
        Exchange::ToolsList { version } => {
            let version = version.clone();
            responded_to_tools_list(p, version, response)
        },
        Exchange::ToolsCall { version, tools } => {
            let version = version.clone();
            let tools = tools.clone();
            responded_to_tools_call(p, version, tools, response)
        },
    }
}

fn timed_out(p: Progress) -> (step: CallStep)
    ensures
        step@ == after_timeout(p@),
{
    let error = failure(
        McpCallProofErrorCode::Timeout,
        CallProofStage::ToolsCall,
        p.channel.label(),
    );
    match p.channel {
        Channel::Stdio => CallStep::Kill(Err(error)),
        _ => CallStep::Done { outcome: Err(error), session_left: p.session.is_some() },
    }
}

fn is_stdio(channel: &Channel) -> (r: bool)
    ensures
        r == (channel@ is Stdio),
{
    match channel {
        Channel::Stdio => true,
        _ => false,
    }
}

fn opened(p: Progress, event: CallEvent) -> (step: CallStep)
    ensures
        step@ == next_step(StepView::Open(p@), event@),
{
    match event {
        CallEvent::SendFailed => {
            let error = failure(
                McpCallProofErrorCode::ConnectionFailed,
                CallProofStage::Connect,
                p.channel.label(),
            );
            failed(p, error)
        },
        CallEvent::Replied(head) => match validate_http_status(
            head.status,
            CallProofStage::Connect,
            p.channel.label(),
        ) {
            Err(error) => failed(p, error),
            Ok(_) => CallStep::AwaitEndpoint(p),
        },
        CallEvent::TimedOut => timed_out(p),
        _ => CallStep::Open(p),
    }
}

fn endpoint_read(p: Progress, event: CallEvent) -> (step: CallStep)
    ensures
        step@ == next_step(StepView::AwaitEndpoint(p@), event@),
{
    match event {
        CallEvent::Stream(read) => {
            let named = match &p.channel {
                Channel::Sse { url, base } => wait_for_bounded_endpoint(url.as_str(), base, &read),
                _ => Ok(None),
            };
            match named {
                Err(error) => failed(p, error),
                Ok(None) => CallStep::AwaitEndpoint(p),
                Ok(Some(endpoint)) => CallStep::Send(
                    Progress { endpoint: Some(endpoint), ..p },
                    Outgoing::Initialize { id: INITIALIZE_REQUEST_ID },
                ),
            }
        },
        CallEvent::TimedOut => timed_out(p),
        _ => CallStep::AwaitEndpoint(p),
    }
}

fn sent(p: Progress, message: Outgoing, event: CallEvent) -> (step: CallStep)
    ensures
        step@ == next_step(StepView::Send(p@, message@), event@),
{
    match event {
        CallEvent::Written => if is_stdio(&p.channel) {
            awaiting_response(p, None)
        } else {
            CallStep::Send(p, message)
        },
        CallEvent::EncodingFailed => if is_stdio(&p.channel) {
            failed_here(p, McpCallProofErrorCode::ProtocolError)
        } else {
            CallStep::Send(p, message)
        },
        CallEvent::SendFailed => failed_here(p, McpCallProofErrorCode::ConnectionFailed),
        CallEvent::Replied(head) => if is_stdio(&p.channel) {
            CallStep::Send(p, message)
        } else {
            match validate_http_status(head.status, p.exchange.stage(), p.channel.label()) {
                Err(error) => failed(p, error),
                Ok(_) => awaiting_response(p, Some(head)),
            }
        },
        CallEvent::TimedOut => timed_out(p),
        _ => CallStep::Send(p, message),
    }
}

fn line_read(p: Progress, event: CallEvent) -> (step: CallStep)
    ensures
        step@ == next_step(StepView::ReadLine(p@), event@),
{
    match event {
        CallEvent::Line(line) => match check_line(line.as_slice(), p.exchange.stage()) {
            Err(error) => failed(p, error),
            Ok(_) => CallStep::Decode(p, line, Source::Line),
        },
        CallEvent::ReadFailed => failed_here(p, McpCallProofErrorCode::ConnectionFailed),
        CallEvent::TimedOut => timed_out(p),
        _ => CallStep::ReadLine(p),
    }
}

fn body_read(p: Progress, body: Vec<u8>, event: CallEvent) -> (step: CallStep)
    ensures
        step@ == next_step(StepView::ReadBody(p@, body@), event@),
{
    match event {
        CallEvent::Piece(piece) => match extend_body(
            body,
            piece.as_slice(),
            p.exchange.stage(),
            p.channel.label(),
        ) {
            Err(error) => failed(p, error),
            Ok(longer) => CallStep::ReadBody(p, longer),
        },
        CallEvent::BodyEnd => CallStep::Decode(p, body, Source::Body),
        CallEvent::ReadFailed => failed_here(p, McpCallProofErrorCode::ConnectionFailed),
        CallEvent::TimedOut => timed_out(p),
        _ => CallStep::ReadBody(p, body),
    }
}

fn event_read(p: Progress, event: CallEvent) -> (step: CallStep)
    ensures
        step@ == next_step(StepView::ReadEvent(p@), event@),
{
    match event {
        CallEvent::Stream(read) => match wait_for_bounded_sse_response(
            &read,
            p.exchange.stage(),
            p.channel.label(),
        ) {
            Err(error) => failed(p, error),
            Ok(None) => CallStep::ReadEvent(p),
            Ok(Some(data)) => CallStep::Decode(p, data, Source::Event),
        },
        CallEvent::TimedOut => timed_out(p),
        _ => CallStep::ReadEvent(p),
    }
}

fn decoded(p: Progress, bytes: Vec<u8>, source: Source, event: CallEvent) -> (step: CallStep)
    ensures
        step@ == next_step(StepView::Decode(p@, bytes@, source), event@),
{
    match event {
        CallEvent::Decoded(response) => match source {
            Source::Body => match response {
                Some(response) => responded(p, &response),
                None => failed_here(p, McpCallProofErrorCode::ProtocolError),
            },
            Source::Line => if is_answer(&response) {
                responded(p, &response.unwrap())
            } else {
                CallStep::ReadLine(p)
            },
            Source::Event => if is_answer(&response) {
                responded(p, &response.unwrap())
            } else {
                CallStep::ReadEvent(p)
            },
        },
        CallEvent::TimedOut => timed_out(p),
        _ => CallStep::Decode(p, bytes, source),
    }
}

impl CallStep {
    /// The step after this one, if `event` came of it.
    pub fn advance(self, event: CallEvent) -> (step: CallStep)
        ensures
            step@ == next_step(self@, event@),
    {
        match self {
            CallStep::Spawn(p) => match event {
                CallEvent::Spawned => CallStep::Send(
                    p,
                    Outgoing::Initialize { id: INITIALIZE_REQUEST_ID },
                ),
                CallEvent::SpawnFailed(kind) => done(Err(spawn_error(kind))),
                _ => CallStep::Spawn(p),
            },
            CallStep::Open(p) => opened(p, event),
            CallStep::AwaitEndpoint(p) => endpoint_read(p, event),
            CallStep::Send(p, message) => sent(p, message, event),
            CallStep::ReadLine(p) => line_read(p, event),
            CallStep::ReadBody(p, body) => body_read(p, body, event),
            CallStep::ReadEvent(p) => event_read(p, event),
            CallStep::Decode(p, bytes, source) => decoded(p, bytes, source, event),
            CallStep::DeleteSession(p, result) => match event {
                CallEvent::SessionDeleted => done(result),
                CallEvent::TimedOut => timed_out(p),
                _ => CallStep::DeleteSession(p, result),
            },
            CallStep::Kill(result) => match event {
                CallEvent::Killed => done(result),
                CallEvent::KillFailed => done(
                    Err(
                        failure(
                            McpCallProofErrorCode::ProcessCleanupFailed,
                            CallProofStage::Cleanup,
                            "stdio",
                        ),
                    ),
                ),
                _ => CallStep::Kill(result),
            },
            CallStep::Done { outcome, session_left } => CallStep::Done { outcome, session_left },
        }
    }
}

} // verus!
