//! What a server has to do for a call to be proved, over each transport.

use vstd::prelude::*;
use vstd::utf8::encode_utf8;

use crate::api::{ProofView, MCP_CALL_PROOF_MAX_RESPONSE_BYTES};
use crate::checks::offers;
use crate::evidence::proof_of;
use crate::failure::FailureView;
use crate::json::JsonTree;
use crate::laws::{run, session_of, start, succeeded, welcomes};
use crate::lifecycle::{
    after_response, finish, next_step, over, ChannelView, EventView, ExchangeView, OutgoingView,
    ProgressView, ReplyHeadView, Source, StepView, INITIALIZE_REQUEST_ID, TOOLS_LIST_REQUEST_ID,
    TOOL_CALL_REQUEST_ID,
};
use crate::prepared::PreparedView;
use crate::protocol::{tools_call_request, ResponseView, PROTOCOL_VERSION};
use crate::receive::{announces_events, answers, header_value, StreamReadView};
use crate::service::at_start;
use crate::text::utf8_len;
use crate::urls::{joined_url, same_origin, without_credentials, UrlView};

verus! {

/// The response that answers the request `id` with `result`.
pub open spec fn answer(id: u64, result: JsonTree) -> EventView {
    EventView::Decoded(Some(response(id, result)))
}

/// The response that answers the request `id` with `result`.
pub open spec fn response(id: u64, result: JsonTree) -> ResponseView {
    ResponseView { id: Some(id), result: Some(result), error_code: None }
}

/// Whether a line ends where it should and is not too long.
pub open spec fn good_line(line: Seq<u8>) -> bool {
    0 < line.len() <= MCP_CALL_PROOF_MAX_RESPONSE_BYTES && line.last() == 10
}

/// Whether `head` is that of a success.
pub open spec fn good_head(head: ReplyHeadView) -> bool {
    200 <= head.status < 300
}

/// Whether `data` is not too long for an event.
pub open spec fn good_data(data: Seq<char>) -> bool {
    utf8_len(data) <= MCP_CALL_PROOF_MAX_RESPONSE_BYTES
}

/// Whether an event of this type is a message.
pub open spec fn message_type(event_type: Seq<char>) -> bool {
    event_type.len() == 0 || event_type == "message"@
}

/// The event that reading an event stream yields.
pub open spec fn stream_event(event_type: Seq<char>, data: Seq<char>) -> EventView {
    EventView::Stream(StreamReadView::Event { event_type, data })
}

/// A line that answers nothing, and what it is decoded to.
pub struct IdleLine {
    pub line: Seq<u8>,
    pub decoded: Option<ResponseView>,
}

impl IdleLine {
    /// Whether the line is a good one that answers nothing.
    pub open spec fn idle(self) -> bool {
        good_line(self.line) && !answers(self.decoded)
    }
}

/// What comes about where `lines` are read.
pub open spec fn idle_lines(lines: Seq<IdleLine>) -> Seq<EventView>
    decreases lines.len(),
{
    if lines.len() == 0 {
        Seq::empty()
    } else {
        idle_lines(lines.drop_last()) + seq![
            EventView::Line(lines.last().line),
            EventView::Decoded(lines.last().decoded),
        ]
    }
}

/// How a server answers a request over standard streams: with a line, and before it with any
/// number of lines that answer nothing.
pub struct LineAnswer {
    pub before: Seq<IdleLine>,
    pub line: Seq<u8>,
}

impl LineAnswer {
    /// Whether all lines are good ones and those before the last answer nothing.
    pub open spec fn good(self) -> bool {
        &&& forall|i: int| 0 <= i < self.before.len() ==> (#[trigger] self.before[i]).idle()
        &&& good_line(self.line)
    }

    /// What comes about from when the request is sent to when its answer is decoded.
    pub open spec fn events(self, id: u64, result: JsonTree) -> Seq<EventView> {
        seq![EventView::Written] + idle_lines(self.before) + seq![
            EventView::Line(self.line),
            answer(id, result),
        ]
    }
}

/// An event that answers nothing: one of another type, or a message and what it is decoded to.
pub enum IdleEvent {
    Other { event_type: Seq<char>, data: Seq<char> },
    Message { event_type: Seq<char>, data: Seq<char>, decoded: Option<ResponseView> },
}

impl IdleEvent {
    /// Whether the event is not too long and answers nothing.
    pub open spec fn idle(self) -> bool {
        match self {
            IdleEvent::Other { event_type, data } => !message_type(event_type) && good_data(data),
            IdleEvent::Message { event_type, data, decoded } => message_type(event_type)
                && good_data(data) && !answers(decoded),
        }
    }

    /// What comes about where this event is read.
    pub open spec fn events(self) -> Seq<EventView> {
        match self {
            IdleEvent::Other { event_type, data } => seq![stream_event(event_type, data)],
            IdleEvent::Message { event_type, data, decoded } => seq![
                stream_event(event_type, data),
                EventView::Decoded(decoded),
            ],
        }
    }
}

/// What comes about where `reads` are read.
pub open spec fn idle_events(reads: Seq<IdleEvent>) -> Seq<EventView>
    decreases reads.len(),
{
    if reads.len() == 0 {
        Seq::empty()
    } else {
        idle_events(reads.drop_last()) + reads.last().events()
    }
}

/// How a server answers a request in an event stream: with a message, and before it with any number
/// of events that answer nothing. `head` is the head of the response to the request.
pub struct StreamAnswer {
    pub head: ReplyHeadView,
    pub before: Seq<IdleEvent>,
    pub event_type: Seq<char>,
    pub data: Seq<char>,
}

impl StreamAnswer {
    /// Whether the head is that of a success, no event is too long, and only the last answers.
    pub open spec fn good(self) -> bool {
        &&& good_head(self.head)
        &&& forall|i: int| 0 <= i < self.before.len() ==> (#[trigger] self.before[i]).idle()
        &&& message_type(self.event_type)
        &&& good_data(self.data)
    }

    /// What comes about from when the request is sent to when its answer is decoded.
    pub open spec fn events(self, id: u64, result: JsonTree) -> Seq<EventView> {
        seq![EventView::Replied(self.head)] + idle_events(self.before) + seq![
            stream_event(self.event_type, self.data),
            answer(id, result),
        ]
    }
}

/// The body that `pieces` make up.
pub open spec fn body_of(pieces: Seq<Seq<u8>>) -> Seq<u8>
    decreases pieces.len(),
{
    if pieces.len() == 0 {
        Seq::empty()
    } else {
        body_of(pieces.drop_last()) + pieces.last()
    }
}

/// What comes about where `pieces` of a body are read.
pub open spec fn piece_events(pieces: Seq<Seq<u8>>) -> Seq<EventView> {
    pieces.map_values(|piece: Seq<u8>| EventView::Piece(piece))
}

/// How a server answers a request over HTTP: with a body, which comes in any number of pieces, or
/// with an event stream.
pub enum HttpAnswer {
    Body { head: ReplyHeadView, pieces: Seq<Seq<u8>> },
    Stream(StreamAnswer),
}

impl HttpAnswer {
    /// The head of the response to the request.
    pub open spec fn head(self) -> ReplyHeadView {
        match self {
            HttpAnswer::Body { head, .. } => head,
            HttpAnswer::Stream(stream) => stream.head,
        }
    }

    /// Whether the head is that of a success and announces what follows, which is not too long.
    pub open spec fn good(self) -> bool {
        match self {
            HttpAnswer::Body { head, pieces } => good_head(head) && !announces_events(
                head.content_type,
            ) && body_of(pieces).len() <= MCP_CALL_PROOF_MAX_RESPONSE_BYTES,
            HttpAnswer::Stream(stream) => stream.good() && announces_events(
                stream.head.content_type,
            ),
        }
    }

    /// What comes about from when the request is sent to when its answer is decoded.
    pub open spec fn events(self, id: u64, result: JsonTree) -> Seq<EventView> {
        match self {
            HttpAnswer::Body { head, pieces } => seq![EventView::Replied(head)] + piece_events(
                pieces,
            ) + seq![EventView::BodyEnd, answer(id, result)],
            HttpAnswer::Stream(stream) => stream.events(id, result),
        }
    }
}

/// An event that names no endpoint.
pub struct OtherEvent {
    pub event_type: Seq<char>,
    pub data: Seq<char>,
}

impl OtherEvent {
    /// Whether the event is not too long and names no endpoint.
    pub open spec fn idle(self) -> bool {
        self.event_type != "endpoint"@ && good_data(self.data)
    }
}

/// What comes about where `reads` are read.
pub open spec fn other_events(reads: Seq<OtherEvent>) -> Seq<EventView> {
    reads.map_values(|read: OtherEvent| stream_event(read.event_type, read.data))
}

/// How an event stream opens: with a head and the name of an endpoint, and before it with any number
/// of events that name none.
pub struct Opening {
    pub head: ReplyHeadView,
    pub before: Seq<OtherEvent>,
    pub endpoint: Seq<char>,
}

impl Opening {
    /// Whether the head is that of a success, no event is too long, and the endpoint lies at the
    /// origin of the stream at `url`, whose parts are `base`, and carries no credentials.
    pub open spec fn good(self, url: Seq<char>, base: UrlView) -> bool {
        &&& good_head(self.head)
        &&& forall|i: int| 0 <= i < self.before.len() ==> (#[trigger] self.before[i]).idle()
        &&& good_data(self.endpoint)
        &&& joined_url(url, self.endpoint) matches Some(endpoint)
        &&& same_origin(endpoint, base)
        &&& without_credentials(endpoint)
    }

    /// What comes about from when the stream is asked for to when its endpoint is known.
    pub open spec fn events(self) -> Seq<EventView> {
        seq![EventView::Replied(self.head)] + other_events(self.before) + seq![
            stream_event("endpoint"@, self.endpoint),
        ]
    }
}

/// What comes of some events and then some more.
pub(crate) proof fn lemma_run_on(first: StepView, events: Seq<EventView>, more: Seq<EventView>)
    ensures
        run(first, events + more) == run(run(first, events), more),
    decreases more.len(),
{
    reveal(run);
    if more.len() == 0 {
        assert(events + more =~= events);
    } else {
        lemma_run_on(first, events, more.drop_last());
        assert((events + more).drop_last() =~= events + more.drop_last());
    }
}

/// What comes of one event.
pub(crate) proof fn lemma_run_one(first: StepView, event: EventView)
    ensures
        run(first, seq![event]) == next_step(first, event),
{
    reveal_with_fuel(run, 2);
    assert(seq![event].drop_last() =~= Seq::empty());
}

/// What comes of two events.
proof fn lemma_run_two(
    first: StepView,
    a: EventView,
    second: StepView,
    b: EventView,
    last: StepView,
)
    requires
        next_step(first, a) == second,
        next_step(second, b) == last,
    ensures
        run(first, seq![a, b]) == last,
{
    lemma_run_one(first, a);
    lemma_run_one(second, b);
    lemma_run_on(first, seq![a], seq![b]);
    assert(seq![a] + seq![b] =~= seq![a, b]);
}

/// What comes of events, of some that change nothing, and of some more.
proof fn lemma_run_idle(
    first: StepView,
    events: Seq<EventView>,
    waiting: StepView,
    idle: Seq<EventView>,
    more: Seq<EventView>,
    last: StepView,
)
    requires
        run(first, events) == waiting,
        run(waiting, idle) == waiting,
        run(waiting, more) == last,
    ensures
        run(first, events + idle + more) == last,
{
    lemma_run_on(first, events, idle);
    lemma_run_on(first, events + idle, more);
}

/// Lines that answer nothing are passed over.
proof fn lemma_idle_lines(p: ProgressView, lines: Seq<IdleLine>)
    requires
        forall|i: int| 0 <= i < lines.len() ==> (#[trigger] lines[i]).idle(),
    ensures
        run(StepView::ReadLine(p), idle_lines(lines)) == StepView::ReadLine(p),
    decreases lines.len(),
{
    let waiting = StepView::ReadLine(p);
    if lines.len() == 0 {
        reveal(run);
    } else {
        let fewer = lines.drop_last();
        let last = lines.last();
        assert forall|i: int| 0 <= i < fewer.len() implies (#[trigger] fewer[i]).idle() by {
            assert(lines[i].idle());
        }
        assert(lines[lines.len() - 1].idle());
        lemma_idle_lines(p, fewer);
        lemma_run_two(
            waiting,
            EventView::Line(last.line),
            StepView::Decode(p, last.line, Source::Line),
            EventView::Decoded(last.decoded),
            waiting,
        );
        lemma_run_on(
            waiting,
            idle_lines(fewer),
            seq![EventView::Line(last.line), EventView::Decoded(last.decoded)],
        );
    }
}

/// What comes of one event that answers nothing.
proof fn lemma_idle_event(p: ProgressView, read: IdleEvent)
    requires
        read.idle(),
    ensures
        run(StepView::ReadEvent(p), read.events()) == StepView::ReadEvent(p),
{
    let waiting = StepView::ReadEvent(p);
    match read {
        IdleEvent::Other { event_type, data } => {
            lemma_run_one(waiting, stream_event(event_type, data));
        },
        IdleEvent::Message { event_type, data, decoded } => {
            lemma_run_two(
                waiting,
                stream_event(event_type, data),
                StepView::Decode(p, encode_utf8(data), Source::Event),
                EventView::Decoded(decoded),
                waiting,
            );
        },
    }
}

/// Events that answer nothing are passed over.
proof fn lemma_idle_events(p: ProgressView, reads: Seq<IdleEvent>)
    requires
        forall|i: int| 0 <= i < reads.len() ==> (#[trigger] reads[i]).idle(),
    ensures
        run(StepView::ReadEvent(p), idle_events(reads)) == StepView::ReadEvent(p),
    decreases reads.len(),
{
    let waiting = StepView::ReadEvent(p);
    if reads.len() == 0 {
        reveal(run);
    } else {
        let fewer = reads.drop_last();
        assert forall|i: int| 0 <= i < fewer.len() implies (#[trigger] fewer[i]).idle() by {
            assert(reads[i].idle());
        }
        assert(reads[reads.len() - 1].idle());
        lemma_idle_events(p, fewer);
        lemma_idle_event(p, reads.last());
        lemma_run_on(waiting, idle_events(fewer), reads.last().events());
    }
}

/// Events that name no endpoint are passed over.
proof fn lemma_other_events(p: ProgressView, reads: Seq<OtherEvent>)
    requires
        p.channel is Sse,
        forall|i: int| 0 <= i < reads.len() ==> (#[trigger] reads[i]).idle(),
    ensures
        run(StepView::AwaitEndpoint(p), other_events(reads)) == StepView::AwaitEndpoint(p),
    decreases reads.len(),
{
    let waiting = StepView::AwaitEndpoint(p);
    if reads.len() == 0 {
        reveal(run);
    } else {
        let fewer = reads.drop_last();
        let last = stream_event(reads.last().event_type, reads.last().data);
        assert forall|i: int| 0 <= i < fewer.len() implies (#[trigger] fewer[i]).idle() by {
            assert(reads[i].idle());
        }
        assert(reads[reads.len() - 1].idle());
        lemma_other_events(p, fewer);
        lemma_run_one(waiting, last);
        lemma_run_on(waiting, other_events(fewer), seq![last]);
        assert(other_events(reads) =~= other_events(fewer) + seq![last]);
    }
}

/// The pieces of a body are put together.
pub(crate) proof fn lemma_pieces(p: ProgressView, pieces: Seq<Seq<u8>>)
    requires
        body_of(pieces).len() <= MCP_CALL_PROOF_MAX_RESPONSE_BYTES,
    ensures
        run(StepView::ReadBody(p, Seq::empty()), piece_events(pieces)) == StepView::ReadBody(
            p,
            body_of(pieces),
        ),
    decreases pieces.len(),
{
    let first = StepView::ReadBody(p, Seq::empty());
    if pieces.len() == 0 {
        reveal(run);
    } else {
        let fewer = pieces.drop_last();
        let last = EventView::Piece(pieces.last());
        lemma_pieces(p, fewer);
        lemma_run_one(StepView::ReadBody(p, body_of(fewer)), last);
        lemma_run_on(first, piece_events(fewer), seq![last]);
        assert(piece_events(pieces) =~= piece_events(fewer) + seq![last]);
    }
}

/// What comes of a message over standard streams and of its answer.
proof fn lemma_stdio_round(
    p: ProgressView,
    message: OutgoingView,
    reply: LineAnswer,
    id: u64,
    result: JsonTree,
)
    requires
        p.channel is Stdio,
        !(p.exchange is Initialized),
        reply.good(),
    ensures
        run(StepView::Send(p, message), reply.events(id, result)) == after_response(
            p,
            response(id, result),
        ),
{
    let waiting = StepView::ReadLine(p);
    let last = after_response(p, response(id, result));
    lemma_run_one(StepView::Send(p, message), EventView::Written);
    lemma_idle_lines(p, reply.before);
    lemma_run_two(
        waiting,
        EventView::Line(reply.line),
        StepView::Decode(p, reply.line, Source::Line),
        answer(id, result),
        last,
    );
    lemma_run_idle(
        StepView::Send(p, message),
        seq![EventView::Written],
        waiting,
        idle_lines(reply.before),
        seq![EventView::Line(reply.line), answer(id, result)],
        last,
    );
}

/// The call once `head` has come back from an HTTP server.
pub(crate) open spec fn headed(p: ProgressView, head: ReplyHeadView) -> ProgressView {
    ProgressView {
        offered: if p.channel is Http && p.exchange is Initialize {
            head.session_id
        } else {
            p.offered
        },
        ..p
    }
}

/// What comes of a message that is answered in an event stream.
proof fn lemma_stream_round(
    p: ProgressView,
    message: OutgoingView,
    reply: StreamAnswer,
    id: u64,
    result: JsonTree,
)
    requires
        !(p.channel is Stdio),
        !(p.exchange is Initialized),
        reply.good(),
        p.channel is Http ==> announces_events(reply.head.content_type),
    ensures
        run(StepView::Send(p, message), reply.events(id, result)) == after_response(
            headed(p, reply.head),
            response(id, result),
        ),
{
    let q = headed(p, reply.head);
    let waiting = StepView::ReadEvent(q);
    let last = after_response(q, response(id, result));
    lemma_run_one(StepView::Send(p, message), EventView::Replied(reply.head));
    lemma_idle_events(q, reply.before);
    lemma_run_two(
        waiting,
        stream_event(reply.event_type, reply.data),
        StepView::Decode(q, encode_utf8(reply.data), Source::Event),
        answer(id, result),
        last,
    );
    lemma_run_idle(
        StepView::Send(p, message),
        seq![EventView::Replied(reply.head)],
        waiting,
        idle_events(reply.before),
        seq![stream_event(reply.event_type, reply.data), answer(id, result)],
        last,
    );
}

/// What comes of a message over HTTP and of its answer.
proof fn lemma_http_round(
    p: ProgressView,
    message: OutgoingView,
    reply: HttpAnswer,
    id: u64,
    result: JsonTree,
)
    requires
        p.channel is Http,
        !(p.exchange is Initialized),
        reply.good(),
    ensures
        run(StepView::Send(p, message), reply.events(id, result)) == after_response(
            headed(p, reply.head()),
            response(id, result),
        ),
{
    match reply {
        HttpAnswer::Body { head, pieces } => {
            let q = headed(p, head);
            let first = StepView::Send(p, message);
            let waiting = StepView::ReadBody(q, Seq::empty());
            let read = StepView::ReadBody(q, body_of(pieces));
            let last = after_response(q, response(id, result));
            lemma_run_one(first, EventView::Replied(head));
            lemma_pieces(q, pieces);
            lemma_run_two(
                read,
                EventView::BodyEnd,
                StepView::Decode(q, body_of(pieces), Source::Body),
                answer(id, result),
                last,
            );
            lemma_run_on(first, seq![EventView::Replied(head)], piece_events(pieces));
            lemma_run_on(
                first,
                seq![EventView::Replied(head)] + piece_events(pieces),
                seq![EventView::BodyEnd, answer(id, result)],
            );
        },
        HttpAnswer::Stream(stream) => {
            lemma_stream_round(p, message, stream, id, result);
        },
    }
}

/// What comes of the opening of an event stream.
proof fn lemma_opening(
    call: PreparedView,
    url: Seq<char>,
    base: UrlView,
    opening: Opening,
)
    requires
        opening.good(url, base),
    ensures
        run(start(call, ChannelView::Sse { url, base }), opening.events()) == send_initialize(
            ProgressView {
                endpoint: Some(joined_url(url, opening.endpoint)->0.text),
                ..at_start(call, ChannelView::Sse { url, base })
            },
        ),
{
    let channel = ChannelView::Sse { url, base };
    let p = at_start(call, channel);
    let q = ProgressView { endpoint: Some(joined_url(url, opening.endpoint)->0.text), ..p };
    let waiting = StepView::AwaitEndpoint(p);
    lemma_run_one(start(call, channel), EventView::Replied(opening.head));
    lemma_other_events(p, opening.before);
    lemma_run_one(waiting, stream_event("endpoint"@, opening.endpoint));
    lemma_run_idle(
        start(call, channel),
        seq![EventView::Replied(opening.head)],
        waiting,
        other_events(opening.before),
        seq![stream_event("endpoint"@, opening.endpoint)],
        send_initialize(q),
    );
}

/// What comes of the word that the session is initialised.
proof fn lemma_initialized(p: ProgressView, event: EventView)
    requires
        p.exchange == (ExchangeView::Initialized { version: PROTOCOL_VERSION@ }),
        if p.channel is Stdio {
            event is Written
        } else {
            event matches EventView::Replied(head) && good_head(head)
        },
    ensures
        run(send_initialized(p), seq![event]) == send_tools_list(listing(p)),
{
    lemma_run_one(send_initialized(p), event);
}

/// The call after the server has agreed to the version of the protocol.
pub(crate) open spec fn welcomed(p: ProgressView) -> ProgressView {
    ProgressView {
        exchange: ExchangeView::Initialized { version: PROTOCOL_VERSION@ },
        session: p.offered,
        ..p
    }
}

/// The call when the listing is asked for.
pub(crate) open spec fn listing(p: ProgressView) -> ProgressView {
    ProgressView { exchange: ExchangeView::ToolsList { version: PROTOCOL_VERSION@ }, ..p }
}

/// The call when the tool is called.
pub(crate) open spec fn calling(p: ProgressView, tools: JsonTree) -> ProgressView {
    ProgressView { exchange: ExchangeView::ToolsCall { version: PROTOCOL_VERSION@, tools }, ..p }
}

pub(crate) open spec fn send_initialize(p: ProgressView) -> StepView {
    StepView::Send(p, OutgoingView::Initialize { id: INITIALIZE_REQUEST_ID })
}

pub(crate) open spec fn send_initialized(p: ProgressView) -> StepView {
    StepView::Send(p, OutgoingView::Initialized)
}

pub(crate) open spec fn send_tools_list(p: ProgressView) -> StepView {
    StepView::Send(p, OutgoingView::ToolsList { id: TOOLS_LIST_REQUEST_ID })
}

pub(crate) open spec fn send_tools_call(p: ProgressView) -> StepView {
    StepView::Send(
        p,
        OutgoingView::ToolsCall(
            tools_call_request(TOOL_CALL_REQUEST_ID, p.prepared.tool, p.prepared.arguments),
        ),
    )
}

/// What the answers of a good server lead to.
pub(crate) proof fn lemma_answers(p: ProgressView, welcome: JsonTree, tools: JsonTree, result: JsonTree)
    requires
        welcomes(welcome),
        offers(tools, p.prepared.tool),
        succeeded(result),
        p.offered is Some ==> header_value(p.offered->0),
    ensures
        p.exchange is Initialize ==> after_response(p, response(INITIALIZE_REQUEST_ID, welcome))
            == send_initialized(welcomed(p)),
        p.exchange == (ExchangeView::ToolsList { version: PROTOCOL_VERSION@ }) ==> after_response(
            p,
            response(TOOLS_LIST_REQUEST_ID, tools),
        ) == send_tools_call(calling(p, tools)),
        p.exchange == (ExchangeView::ToolsCall { version: PROTOCOL_VERSION@, tools })
            ==> after_response(p, response(TOOL_CALL_REQUEST_ID, result)) == finish(
            p,
            Ok(proof_of(p.prepared, PROTOCOL_VERSION@, tools, result)),
        ),
{
}

/// What comes of all that happens once `initialize` is to be sent: of a round, of `confirmed`, and
/// of two more rounds.
proof fn lemma_all_rounds(
    p: ProgressView,
    first_round: Seq<EventView>,
    confirmed: EventView,
    second_round: Seq<EventView>,
    third_round: Seq<EventView>,
    tools: JsonTree,
    last: StepView,
)
    requires
        ({
            let q = welcomed(p);
            &&& run(send_initialize(p), first_round) == send_initialized(q)
            &&& run(send_initialized(q), seq![confirmed]) == send_tools_list(listing(q))
            &&& run(send_tools_list(listing(q)), second_round) == send_tools_call(
                calling(listing(q), tools),
            )
            &&& run(send_tools_call(calling(listing(q), tools)), third_round) == last
        }),
    ensures
        run(
            send_initialize(p),
            first_round + seq![confirmed] + second_round + third_round,
        ) == last,
{
    let first = send_initialize(p);
    lemma_run_on(first, first_round, seq![confirmed]);
    lemma_run_on(first, first_round + seq![confirmed], second_round);
    lemma_run_on(first, first_round + seq![confirmed] + second_round, third_round);
}

/// A server that speaks over standard streams and answers each request as it must gets its proof,
/// whatever other lines it writes in between.
pub proof fn good_server_is_proved_over_stdio(
    call: PreparedView,
    welcome: JsonTree,
    tools: JsonTree,
    result: JsonTree,
    replies: (LineAnswer, LineAnswer, LineAnswer),
)
    requires
        welcomes(welcome),
        offers(tools, call.tool),
        succeeded(result),
        replies.0.good(),
        replies.1.good(),
        replies.2.good(),
    ensures
        run(
            start(call, ChannelView::Stdio),
            seq![EventView::Spawned] + (replies.0.events(INITIALIZE_REQUEST_ID, welcome) + seq![
                EventView::Written,
            ] + replies.1.events(TOOLS_LIST_REQUEST_ID, tools) + replies.2.events(
                TOOL_CALL_REQUEST_ID,
                result,
            )) + seq![EventView::Killed],
        ) == over(Ok(proof_of(call, PROTOCOL_VERSION@, tools, result))),
{
    let proved: Result<ProofView, FailureView> = Ok(
        proof_of(call, PROTOCOL_VERSION@, tools, result),
    );
    let first = start(call, ChannelView::Stdio);
    let p1 = at_start(call, ChannelView::Stdio);
    let p3 = listing(welcomed(p1));
    let p4 = calling(p3, tools);
    let r1 = replies.0.events(INITIALIZE_REQUEST_ID, welcome);
    let r2 = replies.1.events(TOOLS_LIST_REQUEST_ID, tools);
    let r3 = replies.2.events(TOOL_CALL_REQUEST_ID, result);
    lemma_answers(p1, welcome, tools, result);
    lemma_answers(p3, welcome, tools, result);
    lemma_answers(p4, welcome, tools, result);
    lemma_stdio_round(
        p1,
        send_initialize(p1)->Send_1,
        replies.0,
        INITIALIZE_REQUEST_ID,
        welcome,
    );
    lemma_initialized(welcomed(p1), EventView::Written);
    lemma_stdio_round(p3, send_tools_list(p3)->Send_1, replies.1, TOOLS_LIST_REQUEST_ID, tools);
    lemma_stdio_round(p4, send_tools_call(p4)->Send_1, replies.2, TOOL_CALL_REQUEST_ID, result);
    lemma_all_rounds(p1, r1, EventView::Written, r2, r3, tools, StepView::Kill(proved));
    let rounds = r1 + seq![EventView::Written] + r2 + r3;
    lemma_run_one(first, EventView::Spawned);
    lemma_run_on(first, seq![EventView::Spawned], rounds);
    lemma_run_one(StepView::Kill(proved), EventView::Killed);
    lemma_run_on(first, seq![EventView::Spawned] + rounds, seq![EventView::Killed]);
}

/// A server that speaks over HTTP and answers each request as it must, each with a body or with an
/// event stream, gets its proof, once its session has been deleted, if it has opened one.
pub proof fn good_server_is_proved_over_http(
    call: PreparedView,
    session: Option<Seq<char>>,
    welcome: JsonTree,
    tools: JsonTree,
    result: JsonTree,
    replies: (HttpAnswer, HttpAnswer, HttpAnswer),
    confirmed: ReplyHeadView,
)
    requires
        replies.0.head().session_id == session,
        session is Some ==> header_value(session->0),
        welcomes(welcome),
        offers(tools, call.tool),
        succeeded(result),
        replies.0.good(),
        good_head(confirmed),
        replies.1.good(),
        replies.2.good(),
    ensures
        ({
            let proved = proof_of(call, PROTOCOL_VERSION@, tools, result);
            let step = run(
                start(call, ChannelView::Http),
                replies.0.events(INITIALIZE_REQUEST_ID, welcome) + seq![
                    EventView::Replied(confirmed),
                ] + replies.1.events(TOOLS_LIST_REQUEST_ID, tools) + replies.2.events(
                    TOOL_CALL_REQUEST_ID,
                    result,
                ),
            );
            if session is Some {
                step is DeleteSession && session_of(step) == session && next_step(
                    step,
                    EventView::SessionDeleted,
                ) == over(Ok(proved))
            } else {
                step == over(Ok(proved))
            }
        }),
{
    let proved: Result<ProofView, FailureView> = Ok(
        proof_of(call, PROTOCOL_VERSION@, tools, result),
    );
    let first = start(call, ChannelView::Http);
    let p1 = at_start(call, ChannelView::Http);
    let q1 = headed(p1, replies.0.head());
    let p3 = listing(welcomed(q1));
    let p4 = calling(p3, tools);
    let r1 = replies.0.events(INITIALIZE_REQUEST_ID, welcome);
    let r2 = replies.1.events(TOOLS_LIST_REQUEST_ID, tools);
    let r3 = replies.2.events(TOOL_CALL_REQUEST_ID, result);
    let heard = seq![EventView::Replied(confirmed)];
    assert(p3 == headed(p3, replies.1.head()));
    assert(p4 == headed(p4, replies.2.head()));
    lemma_answers(q1, welcome, tools, result);
    lemma_answers(p3, welcome, tools, result);
    lemma_answers(p4, welcome, tools, result);
    lemma_http_round(
        p1,
        send_initialize(p1)->Send_1,
        replies.0,
        INITIALIZE_REQUEST_ID,
        welcome,
    );
    lemma_initialized(welcomed(q1), EventView::Replied(confirmed));
    lemma_http_round(p3, send_tools_list(p3)->Send_1, replies.1, TOOLS_LIST_REQUEST_ID, tools);
    lemma_http_round(p4, send_tools_call(p4)->Send_1, replies.2, TOOL_CALL_REQUEST_ID, result);
    lemma_run_on(first, r1, heard);
    lemma_run_on(first, r1 + heard, r2);
    lemma_run_on(first, r1 + heard + r2, r3);
    assert(run(first, r1 + heard + r2 + r3) == finish(p4, proved));
}

/// A server that speaks over an event stream, names an endpoint at its own origin and answers each
/// request as it must gets its proof, whatever other events it streams in between.
pub proof fn good_server_is_proved_over_an_event_stream(
    call: PreparedView,
    url: Seq<char>,
    base: UrlView,
    opening: Opening,
    welcome: JsonTree,
    tools: JsonTree,
    result: JsonTree,
    replies: (StreamAnswer, StreamAnswer, StreamAnswer),
    confirmed: ReplyHeadView,
)
    requires
        opening.good(url, base),
        welcomes(welcome),
        offers(tools, call.tool),
        succeeded(result),
        replies.0.good(),
        good_head(confirmed),
        replies.1.good(),
        replies.2.good(),
    ensures
        run(
            start(call, ChannelView::Sse { url, base }),
            opening.events() + (replies.0.events(INITIALIZE_REQUEST_ID, welcome) + seq![
                EventView::Replied(confirmed),
            ] + replies.1.events(TOOLS_LIST_REQUEST_ID, tools) + replies.2.events(
                TOOL_CALL_REQUEST_ID,
                result,
            )),
        ) == over(Ok(proof_of(call, PROTOCOL_VERSION@, tools, result))),
{
    let proved: Result<ProofView, FailureView> = Ok(
        proof_of(call, PROTOCOL_VERSION@, tools, result),
    );
    let channel = ChannelView::Sse { url, base };
    let first = start(call, channel);
    let p1 = ProgressView {
        endpoint: Some(joined_url(url, opening.endpoint)->0.text),
        ..at_start(call, channel)
    };
    let p3 = listing(welcomed(p1));
    let p4 = calling(p3, tools);
    let r1 = replies.0.events(INITIALIZE_REQUEST_ID, welcome);
    let r2 = replies.1.events(TOOLS_LIST_REQUEST_ID, tools);
    let r3 = replies.2.events(TOOL_CALL_REQUEST_ID, result);
    let heard = EventView::Replied(confirmed);
    lemma_opening(call, url, base, opening);
    lemma_answers(p1, welcome, tools, result);
    lemma_answers(p3, welcome, tools, result);
    lemma_answers(p4, welcome, tools, result);
    lemma_stream_round(
        p1,
        send_initialize(p1)->Send_1,
        replies.0,
        INITIALIZE_REQUEST_ID,
        welcome,
    );
    lemma_initialized(welcomed(p1), heard);
    lemma_stream_round(p3, send_tools_list(p3)->Send_1, replies.1, TOOLS_LIST_REQUEST_ID, tools);
    lemma_stream_round(p4, send_tools_call(p4)->Send_1, replies.2, TOOL_CALL_REQUEST_ID, result);
    lemma_all_rounds(p1, r1, heard, r2, r3, tools, over(proved));
    lemma_run_on(first, opening.events(), r1 + seq![heard] + r2 + r3);
}

} // verus!
