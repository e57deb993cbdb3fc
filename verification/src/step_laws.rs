//! What each step of a call leads to, whatever comes of it.

use vstd::prelude::*;
use vstd::utf8::encode_utf8;

use crate::answer_laws::{failed_with, fits};
use crate::api::{McpServerTransport, ProofView};
use crate::checks::{initialize_outcome, tool_call_outcome, tools_list_outcome};
use crate::digest::sha256_text;
use crate::evidence::proof_of;
use crate::failure::{CallProofStage, FailureView, McpCallProofErrorCode};
use crate::json::{json_bytes, JsonTree};
use crate::lifecycle::{
    next_step, ChannelView, EventView, ExchangeView, OutgoingView, ProgressView, ReplyHeadView,
    Source, StepView,
};
use crate::prepared::{prepare, PreparedView};
use crate::protocol::{tools_call_request, ResponseView};
use crate::receive::{announces_events, clean_deletion, header_value, StreamReadView};
use crate::service::{
    channel_outcome, first_step, in_scope, transport_url, CALL_PROOF_TIMEOUT_NANOS,
};
use crate::spawn::SpawnErrorKind;
use crate::urls::{joined_url, parsed_url, UrlView};
use crate::value_laws::{found_where_it_can_be_read, readable_at};

verus! {

/// The word for the transport in failures.
pub open spec fn word_for(channel: ChannelView) -> Seq<char> {
    match channel {
        ChannelView::Stdio => "stdio"@,
        ChannelView::Http => "http"@,
        ChannelView::Sse { .. } => "sse"@,
    }
}

/// The stage in which a message goes out and is answered.
pub open spec fn stage_of(exchange: ExchangeView) -> CallProofStage {
    match exchange {
        ExchangeView::Initialize => CallProofStage::Initialize,
        ExchangeView::Initialized { .. } => CallProofStage::Initialized,
        ExchangeView::ToolsList { .. } => CallProofStage::ToolsList,
        ExchangeView::ToolsCall { .. } => CallProofStage::ToolsCall,
    }
}

/// Whether `step` brings a call to its end with `outcome`: a command is still to be killed, an open
/// session is still to be deleted, and otherwise nothing is left to do.
pub open spec fn closes(
    step: StepView,
    p: ProgressView,
    outcome: Result<ProofView, FailureView>,
) -> bool {
    if p.channel is Stdio {
        step == StepView::Kill(outcome)
    } else if p.channel is Http && p.session is Some {
        step == StepView::DeleteSession(p, outcome)
    } else {
        step == (StepView::Done { outcome, session_left: false })
    }
}

/// Whether `step` brings a call to its end with a failure of the code `code` in `stage`.
pub open spec fn breaks(
    step: StepView,
    p: ProgressView,
    code: McpCallProofErrorCode,
    stage: CallProofStage,
) -> bool {
    closes(step, p, Err(failed_with(code, stage, word_for(p.channel))))
}

/// Whether `head` announces an event stream.
pub open spec fn streams(head: ReplyHeadView) -> bool {
    head.content_type is Some && exists|at: int|
        readable_at(head.content_type->0, "text/event-stream"@, at)
}

/// An event stream is announced exactly by its name within the content type.
pub proof fn event_stream_is_announced_by_name(head: ReplyHeadView)
    ensures
        announces_events(head.content_type) <==> streams(head),
{
    if head.content_type is Some {
        found_where_it_can_be_read(head.content_type->0, "text/event-stream"@);
    }
}

/// A deletion went as it should exactly on a success, or where sessions cannot be deleted.
pub proof fn deletion_is_clean_on_success(status: u16)
    ensures
        clean_deletion(status) <==> status / 100 == 2 || status == 405,
{
}

/// Whether a server may be reached at a URL: over HTTP or HTTPS, with no user and no password in it.
pub open spec fn reachable(url: Option<UrlView>) -> bool {
    &&& url is Some
    &&& url->0.scheme == "http"@ || url->0.scheme == "https"@
    &&& url->0.username.len() == 0
    &&& url->0.password is None
}

/// A call begins only where its names fit, its arguments are an object that is not too long, and its
/// URL, if it has one, may be used. It is then the call that was asked for: of the tool, with the
/// arguments, on the server, for the user and in the scope. Otherwise it ends with a failure that
/// tells why, and nothing is done.
pub proof fn call_begins_as_asked(
    name: Seq<char>,
    transport: McpServerTransport,
    tool: Seq<char>,
    arguments: JsonTree,
    user_id: Seq<char>,
    scope: Option<Seq<char>>,
)
    ensures
        ({
            let first = first_step(
                in_scope(
                    prepare(
                        name,
                        tool,
                        arguments,
                        json_bytes(arguments),
                        user_id,
                        transport.kind_name(),
                    ),
                    scope,
                ),
                channel_outcome(transport, transport_url(transport)),
            );
            let word = match transport {
                McpServerTransport::Stdio { .. } => "stdio"@,
                McpServerTransport::Http { .. } => "http"@,
                McpServerTransport::Sse { .. } => "sse"@,
            };
            let url = match transport {
                McpServerTransport::Stdio { .. } => None,
                McpServerTransport::Http { url, .. } => parsed_url(url@),
                McpServerTransport::Sse { url, .. } => parsed_url(url@),
            };
            let prepared = PreparedView {
                server_name: name,
                tool,
                arguments,
                arguments_bytes: json_bytes(arguments),
                authenticated_subject_sha256: sha256_text(encode_utf8(user_id)),
                runtime_scope_id: scope,
            };
            let valid = fits(name) && fits(tool) && fits(user_id) && arguments is Object;
            let short = json_bytes(arguments).len() <= 65536;
            let usable = transport is Stdio || reachable(url);
            let refused = |code: McpCallProofErrorCode|
                StepView::Done {
                    outcome: Err(failed_with(code, CallProofStage::Validate, word)),
                    session_left: false,
                };
            &&& !valid ==> first == refused(McpCallProofErrorCode::InvalidRequest)
            &&& valid && !short ==> first == refused(McpCallProofErrorCode::ArgumentsTooLarge)
            &&& valid && short && !usable ==> first == refused(
                McpCallProofErrorCode::InvalidRequest,
            )
            &&& valid && short && usable ==> match transport {
                McpServerTransport::Stdio { .. } => first is Spawn && fresh(
                    first->Spawn_0,
                    prepared,
                    ChannelView::Stdio,
                ),
                McpServerTransport::Http { .. } => first is Send && fresh(
                    first->Send_0,
                    prepared,
                    ChannelView::Http,
                ) && first->Send_1 == (OutgoingView::Initialize { id: 1 }),
                McpServerTransport::Sse { url: text, .. } => first is Open && fresh(
                    first->Open_0,
                    prepared,
                    ChannelView::Sse { url: text@, base: url->0 },
                ),
            }
        }),
{
}

/// Whether nothing has happened yet in the course of the call `prepared` over `channel`.
pub open spec fn fresh(p: ProgressView, prepared: PreparedView, channel: ChannelView) -> bool {
    &&& p.prepared == prepared
    &&& p.channel == channel
    &&& p.exchange is Initialize
    &&& p.offered is None
    &&& p.session is None
    &&& p.endpoint is None
}

/// A command that has started is sent `initialize`. One that has not ends the call with a failure
/// that tells why, and is not to be killed.
pub proof fn started_command_is_spoken_to(p: ProgressView, kind: SpawnErrorKind)
    ensures
        next_step(StepView::Spawn(p), EventView::Spawned) == StepView::Send(
            p,
            OutgoingView::Initialize { id: 1 },
        ),
        next_step(StepView::Spawn(p), EventView::SpawnFailed(kind)) == (StepView::Done {
            outcome: Err(
                failed_with(
                    match kind {
                        SpawnErrorKind::NotFound => McpCallProofErrorCode::CommandNotFound,
                        SpawnErrorKind::PermissionDenied =>
                            McpCallProofErrorCode::CommandPermissionDenied,
                        SpawnErrorKind::Other => McpCallProofErrorCode::CommandStartFailed,
                    },
                    CallProofStage::Spawn,
                    "stdio"@,
                ),
            ),
            session_left: false,
        }),
{
}

/// An event stream that opens with a success is read for its endpoint. A redirect is refused and not
/// followed, and any other status is an error.
pub proof fn opened_stream_is_read(p: ProgressView, head: ReplyHeadView)
    ensures
        ({
            let next = next_step(StepView::Open(p), EventView::Replied(head));
            let stage = CallProofStage::Connect;
            &&& head.status / 100 == 2 ==> next == StepView::AwaitEndpoint(p)
            &&& head.status / 100 == 3 ==> breaks(
                next,
                p,
                McpCallProofErrorCode::RedirectRejected,
                stage,
            )
            &&& head.status / 100 != 2 && head.status / 100 != 3 ==> breaks(
                next,
                p,
                McpCallProofErrorCode::HttpError,
                stage,
            )
            &&& breaks(
                next_step(StepView::Open(p), EventView::SendFailed),
                p,
                McpCallProofErrorCode::ConnectionFailed,
                stage,
            )
        }),
{
}

/// The endpoint of an event stream is what the event of that type names, read relative to the
/// stream's URL. It is spoken to only at the scheme, host and port of the stream and without
/// credentials. Other events are passed over unless they are too long.
pub proof fn endpoint_is_the_one_that_is_named(
    p: ProgressView,
    url: Seq<char>,
    base: UrlView,
    event_type: Seq<char>,
    data: Seq<char>,
)
    requires
        p.channel == (ChannelView::Sse { url, base }),
    ensures
        ({
            let stage = CallProofStage::Endpoint;
            let step = StepView::AwaitEndpoint(p);
            let next = next_step(
                step,
                EventView::Stream(StreamReadView::Event { event_type, data }),
            );
            let short = encode_utf8(data).len() <= 1048576;
            let named = joined_url(url, data);
            let home = named->0.scheme == base.scheme && named->0.host == base.host
                && named->0.port == base.port && named->0.username.len() == 0
                && named->0.password is None;
            &&& !short ==> breaks(next, p, McpCallProofErrorCode::ResponseTooLarge, stage)
            &&& short && event_type != "endpoint"@ ==> next == step
            &&& short && event_type == "endpoint"@ && named is None ==> breaks(
                next,
                p,
                McpCallProofErrorCode::ProtocolError,
                stage,
            )
            &&& short && event_type == "endpoint"@ && named is Some && !home ==> breaks(
                next,
                p,
                McpCallProofErrorCode::RedirectRejected,
                stage,
            )
            &&& short && event_type == "endpoint"@ && named is Some && home ==> next
                == StepView::Send(
                ProgressView { endpoint: Some(named->0.text), ..p },
                OutgoingView::Initialize { id: 1 },
            )
            &&& breaks(
                next_step(step, EventView::Stream(StreamReadView::Overflow)),
                p,
                McpCallProofErrorCode::ResponseTooLarge,
                stage,
            )
            &&& breaks(
                next_step(step, EventView::Stream(StreamReadView::End)),
                p,
                McpCallProofErrorCode::ProtocolError,
                stage,
            )
        }),
{
}

/// What has been sent is followed by what answers it: a line of a command, and of an HTTP server a
/// body, or an event stream if it announces one. `initialized` is not answered, and `tools/list`
/// follows it. A session is taken from the reply to `initialize` over HTTP and from no other.
pub proof fn sent_message_is_followed_by_its_answer(
    p: ProgressView,
    message: OutgoingView,
    head: ReplyHeadView,
)
    ensures
        ({
            let step = StepView::Send(p, message);
            let event = if p.channel is Stdio {
                EventView::Written
            } else {
                EventView::Replied(head)
            };
            let next = next_step(step, event);
            let well = p.channel is Stdio || head.status / 100 == 2;
            let q = if p.channel is Http && p.exchange is Initialize {
                ProgressView { offered: head.session_id, ..p }
            } else {
                p
            };
            &&& well && p.exchange is Initialized ==> next == StepView::Send(
                ProgressView {
                    exchange: ExchangeView::ToolsList {
                        version: p.exchange->Initialized_version,
                    },
                    ..p
                },
                OutgoingView::ToolsList { id: 2 },
            )
            &&& !(p.exchange is Initialized) && p.channel is Stdio ==> next == StepView::ReadLine(p)
            &&& well && !(p.exchange is Initialized) && p.channel is Http && streams(head) ==> next
                == StepView::ReadEvent(q)
            &&& well && !(p.exchange is Initialized) && p.channel is Http && !streams(head) ==> next
                == StepView::ReadBody(q, Seq::empty())
            &&& well && !(p.exchange is Initialized) && p.channel is Sse ==> next
                == StepView::ReadEvent(p)
            &&& !(p.channel is Stdio) && head.status / 100 == 3 ==> breaks(
                next,
                p,
                McpCallProofErrorCode::RedirectRejected,
                stage_of(p.exchange),
            )
            &&& !well && head.status / 100 != 3 ==> breaks(
                next,
                p,
                McpCallProofErrorCode::HttpError,
                stage_of(p.exchange),
            )
            &&& breaks(
                next_step(step, EventView::SendFailed),
                p,
                McpCallProofErrorCode::ConnectionFailed,
                stage_of(p.exchange),
            )
            &&& p.channel is Stdio ==> breaks(
                next_step(step, EventView::EncodingFailed),
                p,
                McpCallProofErrorCode::ProtocolError,
                stage_of(p.exchange),
            )
        }),
{
    event_stream_is_announced_by_name(head);
}

/// A line is decoded as it was read, up to and with its end. One that is empty, too long or without
/// its end is a failure.
pub proof fn line_is_decoded_as_it_was_read(p: ProgressView, line: Seq<u8>)
    ensures
        ({
            let stage = stage_of(p.exchange);
            let next = next_step(StepView::ReadLine(p), EventView::Line(line));
            let whole = line.len() <= 1048576 && line.last() == 10;
            &&& line.len() > 0 && whole ==> next == StepView::Decode(p, line, Source::Line)
            &&& line.len() == 0 ==> closes(
                next,
                p,
                Err(failed_with(McpCallProofErrorCode::ProtocolError, stage, "stdio"@)),
            )
            &&& line.len() > 0 && !whole ==> closes(
                next,
                p,
                Err(failed_with(McpCallProofErrorCode::ResponseTooLarge, stage, "stdio"@)),
            )
            &&& breaks(
                next_step(StepView::ReadLine(p), EventView::ReadFailed),
                p,
                McpCallProofErrorCode::ConnectionFailed,
                stage,
            )
        }),
{
}

/// A body grows by each piece as it was read, unless it grows too long, and is decoded whole when it
/// is over.
pub proof fn body_is_kept_as_it_was_read(p: ProgressView, body: Seq<u8>, piece: Seq<u8>)
    ensures
        ({
            let stage = stage_of(p.exchange);
            let step = StepView::ReadBody(p, body);
            let next = next_step(step, EventView::Piece(piece));
            &&& body.len() + piece.len() <= 1048576 ==> next == StepView::ReadBody(p, body + piece)
            &&& body.len() + piece.len() > 1048576 ==> breaks(
                next,
                p,
                McpCallProofErrorCode::ResponseTooLarge,
                stage,
            )
            &&& next_step(step, EventView::BodyEnd) == StepView::Decode(p, body, Source::Body)
            &&& breaks(
                next_step(step, EventView::ReadFailed),
                p,
                McpCallProofErrorCode::ConnectionFailed,
                stage,
            )
        }),
{
}

/// The data of a message in an event stream is decoded as it was read. Events of other types are
/// passed over. One that is too long, and the end of the stream, are failures.
pub proof fn message_is_decoded_as_it_was_read(
    p: ProgressView,
    event_type: Seq<char>,
    data: Seq<char>,
)
    ensures
        ({
            let stage = stage_of(p.exchange);
            let step = StepView::ReadEvent(p);
            let next = next_step(
                step,
                EventView::Stream(StreamReadView::Event { event_type, data }),
            );
            let short = encode_utf8(data).len() <= 1048576;
            let message = event_type.len() == 0 || event_type == "message"@;
            &&& short && message ==> next == StepView::Decode(p, encode_utf8(data), Source::Event)
            &&& short && !message ==> next == step
            &&& !short ==> breaks(next, p, McpCallProofErrorCode::ResponseTooLarge, stage)
            &&& breaks(
                next_step(step, EventView::Stream(StreamReadView::Overflow)),
                p,
                McpCallProofErrorCode::ResponseTooLarge,
                stage,
            )
            &&& breaks(
                next_step(step, EventView::Stream(StreamReadView::End)),
                p,
                McpCallProofErrorCode::ProtocolError,
                stage,
            )
        }),
{
}

/// The number of the request that a message makes.
pub open spec fn request_number(exchange: ExchangeView) -> u64 {
    match exchange {
        ExchangeView::Initialize => 1,
        ExchangeView::Initialized { .. } => 0,
        ExchangeView::ToolsList { .. } => 2,
        ExchangeView::ToolsCall { .. } => 3,
    }
}

/// What is decoded from a line or an event and answers nothing is passed over, and reading goes on.
/// What is decoded from a body must be a response.
pub proof fn what_answers_nothing_is_passed_over(
    p: ProgressView,
    bytes: Seq<u8>,
    decoded: Option<ResponseView>,
)
    ensures
        decoded is None || decoded->0.id is None ==> {
            &&& next_step(
                StepView::Decode(p, bytes, Source::Line),
                EventView::Decoded(decoded),
            ) == StepView::ReadLine(p)
            &&& next_step(
                StepView::Decode(p, bytes, Source::Event),
                EventView::Decoded(decoded),
            ) == StepView::ReadEvent(p)
        },
        breaks(
            next_step(StepView::Decode(p, bytes, Source::Body), EventView::Decoded(None)),
            p,
            McpCallProofErrorCode::ProtocolError,
            stage_of(p.exchange),
        ),
{
}

/// A response that names another request ends the call. One that names the request at hand is taken
/// for what it is: `initialize` is followed by `initialized`, and opens the session that was offered
/// if it can stand in a header, `tools/list` by the call of the tool with its arguments, and the
/// call by the proof. What is refused ends the call with the failure that tells why.
pub proof fn response_is_taken_for_what_it_is(
    p: ProgressView,
    bytes: Seq<u8>,
    source: Source,
    response: ResponseView,
)
    requires
        response.id is Some || source is Body,
    ensures
        ({
            let word = word_for(p.channel);
            let next = next_step(
                StepView::Decode(p, bytes, source),
                EventView::Decoded(Some(response)),
            );
            let meant = response.id == Some(request_number(p.exchange));
            let opened = initialize_outcome(response, word);
            let listed = tools_list_outcome(response, p.prepared.tool, word);
            let called = tool_call_outcome(response, word);
            &&& p.exchange is Initialized || !meant ==> breaks(
                next,
                p,
                McpCallProofErrorCode::ProtocolError,
                stage_of(p.exchange),
            )
            &&& meant && p.exchange is Initialize && opened is Err ==> closes(
                next,
                p,
                Err(opened->Err_0),
            )
            &&& meant && p.exchange is Initialize && opened is Ok && p.offered is Some
                && !header_value(p.offered->0) ==> breaks(
                next,
                p,
                McpCallProofErrorCode::ProtocolError,
                CallProofStage::Initialize,
            )
            &&& meant && p.exchange is Initialize && opened is Ok && (p.offered is None
                || header_value(p.offered->0)) ==> next == StepView::Send(
                ProgressView {
                    exchange: ExchangeView::Initialized { version: opened->Ok_0 },
                    session: p.offered,
                    ..p
                },
                OutgoingView::Initialized,
            )
            &&& meant && p.exchange is ToolsList && listed is Err ==> closes(
                next,
                p,
                Err(listed->Err_0),
            )
            &&& meant && p.exchange is ToolsList && listed is Ok ==> next == StepView::Send(
                ProgressView {
                    exchange: ExchangeView::ToolsCall {
                        version: p.exchange->ToolsList_version,
                        tools: listed->Ok_0,
                    },
                    ..p
                },
                OutgoingView::ToolsCall(
                    tools_call_request(3, p.prepared.tool, p.prepared.arguments),
                ),
            )
            &&& meant && p.exchange is ToolsCall && called is Err ==> closes(
                next,
                p,
                Err(called->Err_0),
            )
            &&& meant && p.exchange is ToolsCall && called is Ok ==> closes(
                next,
                p,
                Ok(
                    proof_of(
                        p.prepared,
                        p.exchange->ToolsCall_version,
                        p.exchange->ToolsCall_tools,
                        called->Ok_0,
                    ),
                ),
            )
        }),
{
}

/// Once a session is deleted or a command is killed the call has come to what it had come to before,
/// except that a command which cannot be killed is a failure of its own.
pub proof fn clearing_up_keeps_the_outcome(
    p: ProgressView,
    outcome: Result<ProofView, FailureView>,
    session_left: bool,
    event: EventView,
)
    ensures
        next_step(StepView::DeleteSession(p, outcome), EventView::SessionDeleted) == (
        StepView::Done { outcome, session_left: false }),
        next_step(StepView::Kill(outcome), EventView::Killed) == (StepView::Done {
            outcome,
            session_left: false,
        }),
        next_step(StepView::Kill(outcome), EventView::KillFailed) == (StepView::Done {
            outcome: Err(
                failed_with(
                    McpCallProofErrorCode::ProcessCleanupFailed,
                    CallProofStage::Cleanup,
                    "stdio"@,
                ),
            ),
            session_left: false,
        }),
        next_step(StepView::Done { outcome, session_left }, event) == (StepView::Done {
            outcome,
            session_left,
        }),
{
}

/// Where a call has come to, if its time can be up there.
pub open spec fn timed(step: StepView) -> Option<ProgressView> {
    match step {
        StepView::Spawn(_) => None,
        StepView::Open(p) => Some(p),
        StepView::AwaitEndpoint(p) => Some(p),
        StepView::Send(p, _) => Some(p),
        StepView::ReadLine(p) => Some(p),
        StepView::ReadBody(p, _) => Some(p),
        StepView::ReadEvent(p) => Some(p),
        StepView::Decode(p, _, _) => Some(p),
        StepView::DeleteSession(p, _) => Some(p),
        StepView::Kill(_) => None,
        StepView::Done { .. } => None,
    }
}

/// When the time is up the call has failed for that reason, from wherever it had come to. A command
/// is still to be killed, and a session that is open is told to be left.
pub proof fn time_that_is_up_ends_the_call(step: StepView)
    ensures
        ({
            let next = next_step(step, EventView::TimedOut);
            match timed(step) {
                None => next == step,
                Some(p) => {
                    let error = failed_with(
                        McpCallProofErrorCode::Timeout,
                        CallProofStage::ToolsCall,
                        word_for(p.channel),
                    );
                    if p.channel is Stdio {
                        next == StepView::Kill(Err(error))
                    } else {
                        next == (StepView::Done {
                            outcome: Err(error),
                            session_left: p.session is Some,
                        })
                    }
                },
            }
        }),
{
}

/// Whether `step` waits for an event such as `event`.
pub open spec fn awaited(step: StepView, event: EventView) -> bool {
    match step {
        StepView::Spawn(_) => event is Spawned || event is SpawnFailed,
        StepView::Open(_) => event is Replied || event is SendFailed,
        StepView::AwaitEndpoint(p) => event is Stream && p.channel is Sse,
        StepView::Send(p, _) => event is SendFailed || if p.channel is Stdio {
            event is Written || event is EncodingFailed
        } else {
            event is Replied
        },
        StepView::ReadLine(_) => event is Line || event is ReadFailed,
        StepView::ReadBody(..) => event is Piece || event is BodyEnd || event is ReadFailed,
        StepView::ReadEvent(_) => event is Stream,
        StepView::Decode(..) => event is Decoded,
        StepView::DeleteSession(..) => event is SessionDeleted,
        StepView::Kill(_) => event is Killed || event is KillFailed,
        StepView::Done { .. } => false,
    }
}

/// What nobody waits for changes nothing.
pub proof fn what_is_not_awaited_changes_nothing(step: StepView, event: EventView)
    requires
        !awaited(step, event),
        !(event is TimedOut),
    ensures
        next_step(step, event) == step,
{
}

/// A call may take thirty seconds at most.
pub proof fn call_takes_thirty_seconds_at_most()
    ensures
        CALL_PROOF_TIMEOUT_NANOS == 30 * 1_000_000_000,
{
}

} // verus!
