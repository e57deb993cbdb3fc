//! What is decoded is what was read: a server is judged by the bytes that it sent.

use vstd::prelude::*;
use vstd::utf8::encode_utf8;

use crate::api::ProofView;
use crate::checks::offers;
use crate::evidence::proof_of;
use crate::failure::FailureView;
use crate::json::JsonTree;
use crate::laws::{run, session_of, start, succeeded, welcomes};
use crate::lifecycle::{
    after_response, finish, next_step, over, ChannelView, EventView, OutgoingView, ProgressView,
    ReplyHeadView, Source, StepView,
};
use crate::prepared::PreparedView;
use crate::protocol::{ResponseView, PROTOCOL_VERSION};
use crate::receive::header_value;
use crate::service::at_start;
use crate::step_laws::{event_stream_is_announced_by_name, streams};
use crate::success::{
    body_of, calling, good_head, headed, lemma_answers, lemma_pieces, lemma_run_on, lemma_run_one,
    listing, other_events, piece_events, response, send_initialize, send_initialized,
    send_tools_call, send_tools_list, stream_event, welcomed, HttpAnswer, IdleEvent, IdleLine,
    LineAnswer, Opening, OtherEvent, StreamAnswer,
};
use crate::urls::{joined_url, UrlView};

verus! {

/// What bytes are decoded to.
pub type Decoder = spec_fn(Seq<u8>) -> Option<ResponseView>;

/// The step that follows `step` once the bytes that it may hold have been decoded.
pub open spec fn settle(step: StepView, decoder: Decoder) -> StepView {
    match step {
        StepView::Decode(_, bytes, _) => next_step(step, EventView::Decoded(decoder(bytes))),
        _ => step,
    }
}

/// Where a call comes to from `first` when `events` come about one after the other and the bytes of
/// each step that holds some are decoded at once.
#[verifier::opaque]
pub open spec fn drive(first: StepView, events: Seq<EventView>, decoder: Decoder) -> StepView
    decreases events.len(),
{
    if events.len() == 0 {
        settle(first, decoder)
    } else {
        settle(next_step(drive(first, events.drop_last(), decoder), events.last()), decoder)
    }
}

/// The pieces of a body, one after the other.
pub open spec fn joined(pieces: Seq<Seq<u8>>) -> Seq<u8>
    decreases pieces.len(),
{
    if pieces.len() == 0 {
        Seq::empty()
    } else {
        joined(pieces.drop_last()) + pieces.last()
    }
}

proof fn lemma_joined(pieces: Seq<Seq<u8>>)
    ensures
        joined(pieces) == body_of(pieces),
    decreases pieces.len(),
{
    if pieces.len() > 0 {
        lemma_joined(pieces.drop_last());
    }
}

/// After the head of a success that announces no event stream, what is decoded is exactly the pieces
/// of the body, one after the other.
pub proof fn body_is_decoded_whole(
    p: ProgressView,
    message: OutgoingView,
    head: ReplyHeadView,
    pieces: Seq<Seq<u8>>,
)
    requires
        p.channel is Http,
        !(p.exchange is Initialized),
        200 <= head.status < 300,
        !streams(head),
        joined(pieces).len() <= 1048576,
    ensures
        run(
            StepView::Send(p, message),
            seq![EventView::Replied(head)] + pieces.map_values(
                |piece: Seq<u8>| EventView::Piece(piece),
            ) + seq![EventView::BodyEnd],
        ) == StepView::Decode(
            ProgressView {
                offered: if p.exchange is Initialize {
                    head.session_id
                } else {
                    p.offered
                },
                ..p
            },
            joined(pieces),
            Source::Body,
        ),
{
    let first = StepView::Send(p, message);
    let q = headed(p, head);
    let came = seq![EventView::Replied(head)];
    event_stream_is_announced_by_name(head);
    lemma_joined(pieces);
    lemma_run_one(first, EventView::Replied(head));
    lemma_pieces(q, pieces);
    lemma_run_one(StepView::ReadBody(q, joined(pieces)), EventView::BodyEnd);
    lemma_run_on(first, came, piece_events(pieces));
    lemma_run_on(first, came + piece_events(pieces), seq![EventView::BodyEnd]);
}

/// After a message has been written to a command, what is decoded is exactly the line that is read.
pub proof fn line_is_decoded_whole(p: ProgressView, message: OutgoingView, line: Seq<u8>)
    requires
        p.channel is Stdio,
        !(p.exchange is Initialized),
        0 < line.len() <= 1048576,
        line.last() == 10,
    ensures
        run(StepView::Send(p, message), seq![EventView::Written, EventView::Line(line)])
            == StepView::Decode(p, line, Source::Line),
{
    let first = StepView::Send(p, message);
    lemma_run_one(first, EventView::Written);
    lemma_run_one(StepView::ReadLine(p), EventView::Line(line));
    lemma_run_on(first, seq![EventView::Written], seq![EventView::Line(line)]);
    assert(seq![EventView::Written] + seq![EventView::Line(line)] =~= seq![
        EventView::Written,
        EventView::Line(line),
    ]);
}

/// After the head of a success, what is decoded is exactly the data of the message that is read.
pub proof fn data_is_decoded_whole(
    p: ProgressView,
    message: OutgoingView,
    head: ReplyHeadView,
    event_type: Seq<char>,
    data: Seq<char>,
)
    requires
        !(p.channel is Stdio),
        !(p.exchange is Initialized),
        200 <= head.status < 300,
        p.channel is Http ==> streams(head),
        event_type.len() == 0 || event_type == "message"@,
        encode_utf8(data).len() <= 1048576,
    ensures
        ({
            let step = run(
                StepView::Send(p, message),
                seq![EventView::Replied(head), stream_event(event_type, data)],
            );
            &&& step is Decode
            &&& step->Decode_1 == encode_utf8(data)
            &&& step->Decode_2 is Event
        }),
{
    let first = StepView::Send(p, message);
    let came = seq![EventView::Replied(head)];
    let read = seq![stream_event(event_type, data)];
    event_stream_is_announced_by_name(head);
    lemma_run_one(first, EventView::Replied(head));
    lemma_run_one(StepView::ReadEvent(headed(p, head)), stream_event(event_type, data));
    lemma_run_on(first, came, read);
    assert(came + read =~= seq![EventView::Replied(head), stream_event(event_type, data)]);
}

/// Nothing is left to decode once the bytes have been decoded.
proof fn lemma_settled(step: StepView, decoder: Decoder)
    ensures
        settle(settle(step, decoder), decoder) == settle(step, decoder),
{
    if let StepView::Decode(_, bytes, _) = step {
        assert(!(next_step(step, EventView::Decoded(decoder(bytes))) is Decode));
    }
}

/// What comes of no event.
proof fn lemma_drive_none(first: StepView, decoder: Decoder)
    ensures
        drive(first, Seq::empty(), decoder) == settle(first, decoder),
{
    reveal(drive);
}

/// What comes of one event.
proof fn lemma_drive_one(first: StepView, event: EventView, decoder: Decoder)
    requires
        !(first is Decode),
    ensures
        drive(first, seq![event], decoder) == settle(next_step(first, event), decoder),
{
    reveal_with_fuel(drive, 2);
    assert(seq![event].drop_last() =~= Seq::empty());
}

/// What comes of some events and then some more.
proof fn lemma_drive_on(
    first: StepView,
    events: Seq<EventView>,
    more: Seq<EventView>,
    decoder: Decoder,
)
    ensures
        drive(first, events + more, decoder) == drive(
            drive(first, events, decoder),
            more,
            decoder,
        ),
    decreases more.len(),
{
    reveal(drive);
    if more.len() == 0 {
        assert(events + more =~= events);
        if events.len() == 0 {
            lemma_settled(first, decoder);
        } else {
            lemma_settled(
                next_step(drive(first, events.drop_last(), decoder), events.last()),
                decoder,
            );
        }
    } else {
        lemma_drive_on(first, events, more.drop_last(), decoder);
        assert((events + more).drop_last() =~= events + more.drop_last());
    }
}

/// What is read where `lines` are read.
pub open spec fn lines_read(lines: Seq<IdleLine>) -> Seq<EventView> {
    lines.map_values(|idle: IdleLine| EventView::Line(idle.line))
}

/// What is read where `reads` are read.
pub open spec fn events_read(reads: Seq<IdleEvent>) -> Seq<EventView> {
    reads.map_values(
        |idle: IdleEvent|
            match idle {
                IdleEvent::Other { event_type, data } => stream_event(event_type, data),
                IdleEvent::Message { event_type, data, .. } => stream_event(event_type, data),
            },
    )
}

/// Whether an event that answers nothing is decoded to what it says, if it is decoded at all.
pub open spec fn idle_read(idle: IdleEvent, decoder: Decoder) -> bool {
    idle matches IdleEvent::Message { data, decoded, .. } ==> decoder(encode_utf8(data)) == decoded
}

impl LineAnswer {
    /// What comes about from when the request is sent to when its answer is read.
    pub open spec fn read(self) -> Seq<EventView> {
        seq![EventView::Written] + lines_read(self.before) + seq![EventView::Line(self.line)]
    }

    /// Whether the last line is decoded to `response`, and the lines before it to what they say.
    pub open spec fn holds(self, response: ResponseView, decoder: Decoder) -> bool {
        &&& forall|i: int|
            0 <= i < self.before.len() ==> decoder((#[trigger] self.before[i]).line)
                == self.before[i].decoded
        &&& decoder(self.line) == Some(response)
    }
}

impl StreamAnswer {
    /// What comes about from when the request is sent to when its answer is read.
    pub open spec fn read(self) -> Seq<EventView> {
        seq![EventView::Replied(self.head)] + events_read(self.before) + seq![
            stream_event(self.event_type, self.data),
        ]
    }

    /// Whether the data of the last event is decoded to `response`, and that of the events before it
    /// to what they say.
    pub open spec fn holds(self, response: ResponseView, decoder: Decoder) -> bool {
        &&& forall|i: int|
            0 <= i < self.before.len() ==> idle_read(#[trigger] self.before[i], decoder)
        &&& decoder(encode_utf8(self.data)) == Some(response)
    }
}

impl HttpAnswer {
    /// What comes about from when the request is sent to when its answer is read.
    pub open spec fn read(self) -> Seq<EventView> {
        match self {
            HttpAnswer::Body { head, pieces } => seq![EventView::Replied(head)] + pieces.map_values(
                |piece: Seq<u8>| EventView::Piece(piece),
            ) + seq![EventView::BodyEnd],
            HttpAnswer::Stream(stream) => stream.read(),
        }
    }

    /// Whether the body, or the last event of the stream, is decoded to `response`.
    pub open spec fn holds(self, response: ResponseView, decoder: Decoder) -> bool {
        match self {
            HttpAnswer::Body { pieces, .. } => decoder(joined(pieces)) == Some(response),
            HttpAnswer::Stream(stream) => stream.holds(response, decoder),
        }
    }
}

/// Lines that answer nothing are passed over.
proof fn lemma_lines_read(p: ProgressView, lines: Seq<IdleLine>, decoder: Decoder)
    requires
        forall|i: int| 0 <= i < lines.len() ==> (#[trigger] lines[i]).idle(),
        forall|i: int|
            0 <= i < lines.len() ==> decoder((#[trigger] lines[i]).line) == lines[i].decoded,
    ensures
        drive(StepView::ReadLine(p), lines_read(lines), decoder) == StepView::ReadLine(p),
    decreases lines.len(),
{
    let waiting = StepView::ReadLine(p);
    if lines.len() == 0 {
        assert(lines_read(lines) =~= Seq::empty());
        lemma_drive_none(waiting, decoder);
    } else {
        let fewer = lines.drop_last();
        let last = lines[lines.len() - 1];
        assert forall|i: int| 0 <= i < fewer.len() implies (#[trigger] fewer[i]).idle() && decoder(
            fewer[i].line,
        ) == fewer[i].decoded by {
            assert(lines[i].idle());
        }
        assert(last.idle());
        lemma_lines_read(p, fewer, decoder);
        lemma_drive_one(waiting, EventView::Line(last.line), decoder);
        lemma_drive_on(waiting, lines_read(fewer), seq![EventView::Line(last.line)], decoder);
        assert(lines_read(lines) =~= lines_read(fewer) + seq![EventView::Line(last.line)]);
    }
}

/// An event that answers nothing is passed over.
proof fn lemma_event_read(p: ProgressView, idle: IdleEvent, decoder: Decoder)
    requires
        idle.idle(),
        idle_read(idle, decoder),
    ensures
        drive(StepView::ReadEvent(p), events_read(seq![idle]), decoder) == StepView::ReadEvent(p),
{
    let waiting = StepView::ReadEvent(p);
    match idle {
        IdleEvent::Other { event_type, data } => {
            lemma_drive_one(waiting, stream_event(event_type, data), decoder);
            assert(events_read(seq![idle]) =~= seq![stream_event(event_type, data)]);
        },
        IdleEvent::Message { event_type, data, decoded } => {
            lemma_drive_one(waiting, stream_event(event_type, data), decoder);
            assert(events_read(seq![idle]) =~= seq![stream_event(event_type, data)]);
        },
    }
}

/// Events that answer nothing are passed over.
proof fn lemma_events_read(p: ProgressView, reads: Seq<IdleEvent>, decoder: Decoder)
    requires
        forall|i: int| 0 <= i < reads.len() ==> (#[trigger] reads[i]).idle(),
        forall|i: int| 0 <= i < reads.len() ==> idle_read(#[trigger] reads[i], decoder),
    ensures
        drive(StepView::ReadEvent(p), events_read(reads), decoder) == StepView::ReadEvent(p),
    decreases reads.len(),
{
    let waiting = StepView::ReadEvent(p);
    if reads.len() == 0 {
        assert(events_read(reads) =~= Seq::empty());
        lemma_drive_none(waiting, decoder);
    } else {
        let fewer = reads.drop_last();
        let last = reads[reads.len() - 1];
        assert forall|i: int| 0 <= i < fewer.len() implies (#[trigger] fewer[i]).idle()
            && idle_read(fewer[i], decoder) by {
            assert(reads[i].idle());
        }
        assert(last.idle());
        lemma_events_read(p, fewer, decoder);
        lemma_event_read(p, last, decoder);
        lemma_drive_on(waiting, events_read(fewer), events_read(seq![last]), decoder);
        assert(events_read(reads) =~= events_read(fewer) + events_read(seq![last]));
    }
}

/// Events that name no endpoint are passed over.
proof fn lemma_others_read(p: ProgressView, reads: Seq<OtherEvent>, decoder: Decoder)
    requires
        p.channel is Sse,
        forall|i: int| 0 <= i < reads.len() ==> (#[trigger] reads[i]).idle(),
    ensures
        drive(StepView::AwaitEndpoint(p), other_events(reads), decoder)
            == StepView::AwaitEndpoint(p),
    decreases reads.len(),
{
    let waiting = StepView::AwaitEndpoint(p);
    if reads.len() == 0 {
        assert(other_events(reads) =~= Seq::empty());
        lemma_drive_none(waiting, decoder);
    } else {
        let fewer = reads.drop_last();
        let last = stream_event(reads.last().event_type, reads.last().data);
        assert forall|i: int| 0 <= i < fewer.len() implies (#[trigger] fewer[i]).idle() by {
            assert(reads[i].idle());
        }
        assert(reads[reads.len() - 1].idle());
        lemma_others_read(p, fewer, decoder);
        lemma_drive_one(waiting, last, decoder);
        lemma_drive_on(waiting, other_events(fewer), seq![last], decoder);
        assert(other_events(reads) =~= other_events(fewer) + seq![last]);
    }
}

/// The pieces of a body are put together.
proof fn lemma_pieces_read(p: ProgressView, pieces: Seq<Seq<u8>>, decoder: Decoder)
    requires
        joined(pieces).len() <= 1048576,
    ensures
        drive(StepView::ReadBody(p, Seq::empty()), piece_events(pieces), decoder)
            == StepView::ReadBody(p, joined(pieces)),
    decreases pieces.len(),
{
    let first = StepView::ReadBody(p, Seq::empty());
    if pieces.len() == 0 {
        assert(piece_events(pieces) =~= Seq::empty());
        lemma_drive_none(first, decoder);
    } else {
        let fewer = pieces.drop_last();
        let last = EventView::Piece(pieces.last());
        lemma_pieces_read(p, fewer, decoder);
        lemma_drive_one(StepView::ReadBody(p, joined(fewer)), last, decoder);
        lemma_drive_on(first, piece_events(fewer), seq![last], decoder);
        assert(piece_events(pieces) =~= piece_events(fewer) + seq![last]);
    }
}

/// A line that is decoded to a response leads to where the response leads.
proof fn lemma_line_decoded(
    p: ProgressView,
    bytes: Seq<u8>,
    source: Source,
    id: u64,
    result: JsonTree,
    decoder: Decoder,
)
    requires
        decoder(bytes) == Some(response(id, result)),
    ensures
        settle(StepView::Decode(p, bytes, source), decoder) == after_response(
            p,
            response(id, result),
        ),
{
}

/// What comes of a message over standard streams and of its answer.
proof fn lemma_stdio_read(
    p: ProgressView,
    message: OutgoingView,
    reply: LineAnswer,
    id: u64,
    result: JsonTree,
    decoder: Decoder,
)
    requires
        p.channel is Stdio,
        !(p.exchange is Initialized),
        reply.good(),
        reply.holds(response(id, result), decoder),
    ensures
        drive(StepView::Send(p, message), reply.read(), decoder) == after_response(
            p,
            response(id, result),
        ),
{
    let first = StepView::Send(p, message);
    let waiting = StepView::ReadLine(p);
    let lines = lines_read(reply.before);
    lemma_drive_one(first, EventView::Written, decoder);
    lemma_lines_read(p, reply.before, decoder);
    lemma_drive_one(waiting, EventView::Line(reply.line), decoder);
    lemma_line_decoded(p, reply.line, Source::Line, id, result, decoder);
    lemma_drive_on(first, seq![EventView::Written], lines, decoder);
    lemma_drive_on(
        first,
        seq![EventView::Written] + lines,
        seq![EventView::Line(reply.line)],
        decoder,
    );
}

/// What comes of a message that is answered in an event stream.
proof fn lemma_stream_read(
    p: ProgressView,
    message: OutgoingView,
    reply: StreamAnswer,
    id: u64,
    result: JsonTree,
    decoder: Decoder,
)
    requires
        !(p.channel is Stdio),
        !(p.exchange is Initialized),
        reply.good(),
        p.channel is Http ==> streams(reply.head),
        reply.holds(response(id, result), decoder),
    ensures
        drive(StepView::Send(p, message), reply.read(), decoder) == after_response(
            headed(p, reply.head),
            response(id, result),
        ),
{
    let first = StepView::Send(p, message);
    let q = headed(p, reply.head);
    let waiting = StepView::ReadEvent(q);
    let head = seq![EventView::Replied(reply.head)];
    let reads = events_read(reply.before);
    let last = stream_event(reply.event_type, reply.data);
    event_stream_is_announced_by_name(reply.head);
    lemma_drive_one(first, EventView::Replied(reply.head), decoder);
    lemma_events_read(q, reply.before, decoder);
    lemma_drive_one(waiting, last, decoder);
    lemma_line_decoded(q, encode_utf8(reply.data), Source::Event, id, result, decoder);
    lemma_drive_on(first, head, reads, decoder);
    lemma_drive_on(first, head + reads, seq![last], decoder);
}

/// What comes of a message over HTTP and of its answer.
proof fn lemma_http_read(
    p: ProgressView,
    message: OutgoingView,
    reply: HttpAnswer,
    id: u64,
    result: JsonTree,
    decoder: Decoder,
)
    requires
        p.channel is Http,
        !(p.exchange is Initialized),
        reply.good(),
        reply.holds(response(id, result), decoder),
    ensures
        drive(StepView::Send(p, message), reply.read(), decoder) == after_response(
            headed(p, reply.head()),
            response(id, result),
        ),
{
    event_stream_is_announced_by_name(reply.head());
    match reply {
        HttpAnswer::Body { head, pieces } => {
            let first = StepView::Send(p, message);
            let q = headed(p, head);
            let came = seq![EventView::Replied(head)];
            lemma_joined(pieces);
            lemma_drive_one(first, EventView::Replied(head), decoder);
            lemma_pieces_read(q, pieces, decoder);
            lemma_drive_one(StepView::ReadBody(q, joined(pieces)), EventView::BodyEnd, decoder);
            lemma_line_decoded(q, joined(pieces), Source::Body, id, result, decoder);
            lemma_drive_on(first, came, piece_events(pieces), decoder);
            lemma_drive_on(
                first,
                came + piece_events(pieces),
                seq![EventView::BodyEnd],
                decoder,
            );
        },
        HttpAnswer::Stream(stream) => {
            lemma_stream_read(p, message, stream, id, result, decoder);
        },
    }
}

/// What comes of the word that the session is initialised.
proof fn lemma_initialized_read(p: ProgressView, event: EventView, decoder: Decoder)
    requires
        p.exchange is Initialized,
        p.exchange->Initialized_version == PROTOCOL_VERSION@,
        if p.channel is Stdio {
            event is Written
        } else {
            event matches EventView::Replied(head) && good_head(head)
        },
    ensures
        drive(send_initialized(p), seq![event], decoder) == send_tools_list(listing(p)),
{
    lemma_drive_one(send_initialized(p), event, decoder);
}

/// What comes of all that happens once `initialize` is to be sent: of a round, of `confirmed`, and
/// of two more rounds.
proof fn lemma_all_read(
    p: ProgressView,
    q: ProgressView,
    first_round: Seq<EventView>,
    confirmed: EventView,
    second_round: Seq<EventView>,
    third_round: Seq<EventView>,
    tools: JsonTree,
    last: StepView,
    decoder: Decoder,
)
    requires
        drive(send_initialize(p), first_round, decoder) == send_initialized(q),
        drive(send_initialized(q), seq![confirmed], decoder) == send_tools_list(listing(q)),
        drive(send_tools_list(listing(q)), second_round, decoder) == send_tools_call(
            calling(listing(q), tools),
        ),
        drive(send_tools_call(calling(listing(q), tools)), third_round, decoder) == last,
    ensures
        drive(
            send_initialize(p),
            first_round + seq![confirmed] + second_round + third_round,
            decoder,
        ) == last,
{
    let first = send_initialize(p);
    let so_far = first_round + seq![confirmed];
    lemma_drive_on(first, first_round, seq![confirmed], decoder);
    lemma_drive_on(first, so_far, second_round, decoder);
    lemma_drive_on(first, so_far + second_round, third_round, decoder);
}

/// A command whose lines are decoded to the responses that it must give gets its proof.
pub proof fn lines_are_proof_over_stdio(
    call: PreparedView,
    welcome: JsonTree,
    tools: JsonTree,
    result: JsonTree,
    replies: (LineAnswer, LineAnswer, LineAnswer),
    decoder: Decoder,
)
    requires
        welcomes(welcome),
        offers(tools, call.tool),
        succeeded(result),
        replies.0.good(),
        replies.1.good(),
        replies.2.good(),
        replies.0.holds(response(1, welcome), decoder),
        replies.1.holds(response(2, tools), decoder),
        replies.2.holds(response(3, result), decoder),
    ensures
        drive(
            start(call, ChannelView::Stdio),
            seq![EventView::Spawned] + (replies.0.read() + seq![EventView::Written]
                + replies.1.read() + replies.2.read()) + seq![EventView::Killed],
            decoder,
        ) == over(Ok(proof_of(call, PROTOCOL_VERSION@, tools, result))),
{
    let proved: Result<ProofView, FailureView> = Ok(
        proof_of(call, PROTOCOL_VERSION@, tools, result),
    );
    let first = start(call, ChannelView::Stdio);
    let p1 = at_start(call, ChannelView::Stdio);
    let p3 = listing(welcomed(p1));
    let p4 = calling(p3, tools);
    let r1 = replies.0.read();
    let r2 = replies.1.read();
    let r3 = replies.2.read();
    lemma_answers(p1, welcome, tools, result);
    lemma_answers(p3, welcome, tools, result);
    lemma_answers(p4, welcome, tools, result);
    lemma_stdio_read(p1, send_initialize(p1)->Send_1, replies.0, 1, welcome, decoder);
    lemma_initialized_read(welcomed(p1), EventView::Written, decoder);
    lemma_stdio_read(p3, send_tools_list(p3)->Send_1, replies.1, 2, tools, decoder);
    lemma_stdio_read(p4, send_tools_call(p4)->Send_1, replies.2, 3, result, decoder);
    lemma_all_read(
        p1,
        welcomed(p1),
        r1,
        EventView::Written,
        r2,
        r3,
        tools,
        StepView::Kill(proved),
        decoder,
    );
    let rounds = r1 + seq![EventView::Written] + r2 + r3;
    lemma_drive_one(first, EventView::Spawned, decoder);
    lemma_drive_on(first, seq![EventView::Spawned], rounds, decoder);
    lemma_drive_one(StepView::Kill(proved), EventView::Killed, decoder);
    lemma_drive_on(
        first,
        seq![EventView::Spawned] + rounds,
        seq![EventView::Killed],
        decoder,
    );
}

/// An HTTP server whose bodies, or whose events, are decoded to the responses that it must give gets
/// its proof, once its session has been deleted, if it has opened one.
pub proof fn bodies_are_proof_over_http(
    call: PreparedView,
    session: Option<Seq<char>>,
    welcome: JsonTree,
    tools: JsonTree,
    result: JsonTree,
    replies: (HttpAnswer, HttpAnswer, HttpAnswer),
    confirmed: ReplyHeadView,
    decoder: Decoder,
)
    requires
        replies.0.head().session_id == session,
        session is Some ==> header_value(session->0),
        welcomes(welcome),
        offers(tools, call.tool),
        succeeded(result),
        replies.0.good(),
        good_head(confirmed),
        replies.1.good(),
        replies.2.good(),
        replies.0.holds(response(1, welcome), decoder),
        replies.1.holds(response(2, tools), decoder),
        replies.2.holds(response(3, result), decoder),
    ensures
        ({
            let proved = proof_of(call, PROTOCOL_VERSION@, tools, result);
            let step = drive(
                start(call, ChannelView::Http),
                replies.0.read() + seq![EventView::Replied(confirmed)] + replies.1.read()
                    + replies.2.read(),
                decoder,
            );
            if session is Some {
                step is DeleteSession && session_of(step) == session && next_step(
                    step,
                    EventView::SessionDeleted,
                ) == over(Ok(proved))
            } else {
                step == over(Ok(proved))
            }
        }),
{
    let proved: Result<ProofView, FailureView> = Ok(
        proof_of(call, PROTOCOL_VERSION@, tools, result),
    );
    let p1 = at_start(call, ChannelView::Http);
    let q1 = headed(p1, replies.0.head());
    let p3 = listing(welcomed(q1));
    let p4 = calling(p3, tools);
    let heard = EventView::Replied(confirmed);
    assert(p3 == headed(p3, replies.1.head()));
    assert(p4 == headed(p4, replies.2.head()));
    lemma_answers(q1, welcome, tools, result);
    lemma_answers(p3, welcome, tools, result);
    lemma_answers(p4, welcome, tools, result);
    lemma_http_read(p1, send_initialize(p1)->Send_1, replies.0, 1, welcome, decoder);
    lemma_initialized_read(welcomed(q1), heard, decoder);
    lemma_http_read(p3, send_tools_list(p3)->Send_1, replies.1, 2, tools, decoder);
    lemma_http_read(p4, send_tools_call(p4)->Send_1, replies.2, 3, result, decoder);
    lemma_all_read(
        p1,
        welcomed(q1),
        replies.0.read(),
        heard,
        replies.1.read(),
        replies.2.read(),
        tools,
        finish(p4, proved),
        decoder,
    );
}

/// A server whose events are decoded to the responses that it must give, and which names an endpoint
/// at its own origin, gets its proof.
pub proof fn messages_are_proof_over_an_event_stream(
    call: PreparedView,
    url: Seq<char>,
    base: UrlView,
    opening: Opening,
    welcome: JsonTree,
    tools: JsonTree,
    result: JsonTree,
    replies: (StreamAnswer, StreamAnswer, StreamAnswer),
    confirmed: ReplyHeadView,
    decoder: Decoder,
)
    requires
        opening.good(url, base),
        welcomes(welcome),
        offers(tools, call.tool),
        succeeded(result),
        replies.0.good(),
        good_head(confirmed),
        replies.1.good(),
        replies.2.good(),
        replies.0.holds(response(1, welcome), decoder),
        replies.1.holds(response(2, tools), decoder),
        replies.2.holds(response(3, result), decoder),
    ensures
        drive(
            start(call, ChannelView::Sse { url, base }),
            opening.events() + (replies.0.read() + seq![EventView::Replied(confirmed)]
                + replies.1.read() + replies.2.read()),
            decoder,
        ) == over(Ok(proof_of(call, PROTOCOL_VERSION@, tools, result))),
{
    let proved: Result<ProofView, FailureView> = Ok(
        proof_of(call, PROTOCOL_VERSION@, tools, result),
    );
    let channel = ChannelView::Sse { url, base };
    let first = start(call, channel);
    let p1 = ProgressView {
        endpoint: Some(joined_url(url, opening.endpoint)->0.text),
        ..at_start(call, channel)
    };
    let p3 = listing(welcomed(p1));
    let p4 = calling(p3, tools);
    let heard = EventView::Replied(confirmed);
    lemma_opening_read(call, url, base, opening, decoder);
    lemma_answers(p1, welcome, tools, result);
    lemma_answers(p3, welcome, tools, result);
    lemma_answers(p4, welcome, tools, result);
    lemma_stream_read(p1, send_initialize(p1)->Send_1, replies.0, 1, welcome, decoder);
    lemma_initialized_read(welcomed(p1), heard, decoder);
    lemma_stream_read(p3, send_tools_list(p3)->Send_1, replies.1, 2, tools, decoder);
    lemma_stream_read(p4, send_tools_call(p4)->Send_1, replies.2, 3, result, decoder);
    lemma_all_read(
        p1,
        welcomed(p1),
        replies.0.read(),
        heard,
        replies.1.read(),
        replies.2.read(),
        tools,
        over(proved),
        decoder,
    );
    lemma_drive_on(
        first,
        opening.events(),
        replies.0.read() + seq![heard] + replies.1.read() + replies.2.read(),
        decoder,
    );
}

/// What comes of the opening of an event stream.
proof fn lemma_opening_read(
    call: PreparedView,
    url: Seq<char>,
    base: UrlView,
    opening: Opening,
    decoder: Decoder,
)
    requires
        opening.good(url, base),
    ensures
        drive(start(call, ChannelView::Sse { url, base }), opening.events(), decoder)
            == send_initialize(
            ProgressView {
                endpoint: Some(joined_url(url, opening.endpoint)->0.text),
                ..at_start(call, ChannelView::Sse { url, base })
            },
        ),
{
    let channel = ChannelView::Sse { url, base };
    let first = start(call, channel);
    let p = at_start(call, channel);
    let waiting = StepView::AwaitEndpoint(p);
    let head = seq![EventView::Replied(opening.head)];
    let named = stream_event("endpoint"@, opening.endpoint);
    lemma_drive_one(first, EventView::Replied(opening.head), decoder);
    lemma_others_read(p, opening.before, decoder);
    lemma_drive_one(waiting, named, decoder);
    lemma_drive_on(first, head, other_events(opening.before), decoder);
    lemma_drive_on(first, head + other_events(opening.before), seq![named], decoder);
}

} // verus!
