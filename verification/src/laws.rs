//! What holds of every call, whatever the server does and in whatever order things come about.

use vstd::prelude::*;

use crate::api::{McpServerTransport, ProofView, MCP_CALL_PROOF_MAX_RESPONSE_BYTES};
use crate::checks::{call_result_form, offers, tool_call_outcome};
use crate::digest::sha256_text;
use crate::evidence::{content_items, proof_document, proof_of, text_or_null};
use crate::failure::{plain_failure, CallProofStage, FailureView, McpCallProofErrorCode};
use crate::json::{json_bytes, optional_tree, JsonTree};
use crate::lifecycle::{
    after_response, next_step, over, ChannelView, EventView, ExchangeView, OutgoingView,
    ProgressView, StepView, INITIALIZE_REQUEST_ID, TOOLS_LIST_REQUEST_ID, TOOL_CALL_REQUEST_ID,
};
use crate::prepared::PreparedView;
use crate::protocol::{tools_call_request, JsonRpcResponse, ResponseView, PROTOCOL_VERSION};
use crate::service::{at_start, channel_outcome, first_step};
use crate::urls::{acceptable_url, joined_url, same_origin, without_credentials, UrlView};

verus! {

/// The step that a call has come to after `events`.
#[verifier::opaque]
pub open spec fn run(first: StepView, events: Seq<EventView>) -> StepView
    decreases events.len(),
{
    if events.len() == 0 {
        first
    } else {
        next_step(run(first, events.drop_last()), events.last())
    }
}

/// The message that `step` sends, if it sends one that `before` has not sent yet.
pub open spec fn new_message(before: Option<StepView>, step: StepView) -> Seq<OutgoingView> {
    match step {
        StepView::Send(_, message) => if before == Some(step) {
            Seq::empty()
        } else {
            seq![message]
        },
        _ => Seq::empty(),
    }
}

/// The messages that a call has sent after `events`.
pub open spec fn messages(first: StepView, events: Seq<EventView>) -> Seq<OutgoingView>
    decreases events.len(),
{
    if events.len() == 0 {
        new_message(None, first)
    } else {
        messages(first, events.drop_last()) + new_message(
            Some(run(first, events.drop_last())),
            run(first, events),
        )
    }
}

/// The messages of a call, in their order.
pub open spec fn script(call: PreparedView) -> Seq<OutgoingView> {
    seq![
        OutgoingView::Initialize { id: INITIALIZE_REQUEST_ID },
        OutgoingView::Initialized,
        OutgoingView::ToolsList { id: TOOLS_LIST_REQUEST_ID },
        OutgoingView::ToolsCall(tools_call_request(TOOL_CALL_REQUEST_ID, call.tool, call.arguments)),
    ]
}

/// Whether the server answered the request `id` with `result`.
pub open spec fn answered(event: EventView, id: u64, result: JsonTree) -> bool {
    event matches EventView::Decoded(Some(response)) && response.id == Some(id)
        && response.error_code is None && response.result == Some(result)
}

/// Whether `result` agrees to the version of the protocol that is spoken.
pub open spec fn welcomes(result: JsonTree) -> bool {
    result.text_member("protocolVersion"@) == Some(PROTOCOL_VERSION@)
}

/// Whether `result` is that of a tool that did not fail, and not too long.
pub open spec fn succeeded(result: JsonTree) -> bool {
    &&& call_result_form(result)
    &&& result.member("isError"@) != Some(JsonTree::Bool(true))
    &&& json_bytes(result).len() <= MCP_CALL_PROOF_MAX_RESPONSE_BYTES
}

/// Whether the server has agreed to the version of the protocol.
pub open spec fn was_welcomed(events: Seq<EventView>) -> bool {
    exists|i: int, welcome: JsonTree|
        0 <= i < events.len() && #[trigger] answered(events[i], INITIALIZE_REQUEST_ID, welcome)
            && welcomes(welcome)
}

/// Whether the server has agreed to the version of the protocol and has then listed `tools`, which
/// offer `tool` exactly once and for reading only.
pub open spec fn was_offered(events: Seq<EventView>, tool: Seq<char>, tools: JsonTree) -> bool {
    &&& offers(tools, tool)
    &&& exists|i: int, welcome: JsonTree, j: int|
        0 <= i < j < events.len() && #[trigger] answered(events[i], INITIALIZE_REQUEST_ID, welcome)
            && welcomes(welcome) && #[trigger] answered(events[j], TOOLS_LIST_REQUEST_ID, tools)
}

/// Whether the server has offered `tool` in some listing.
pub open spec fn was_offered_at_all(events: Seq<EventView>, tool: Seq<char>) -> bool {
    exists|tools: JsonTree| was_offered(events, tool, tools)
}

/// Whether the server has agreed to the version of the protocol, has then listed `tools`, which
/// offer `tool` exactly once and for reading only, and has then answered the call with `result`,
/// which is no failure.
pub open spec fn was_called(
    events: Seq<EventView>,
    tool: Seq<char>,
    tools: JsonTree,
    result: JsonTree,
) -> bool {
    &&& offers(tools, tool)
    &&& succeeded(result)
    &&& exists|i: int, welcome: JsonTree, j: int, k: int|
        0 <= i < j < k < events.len() && #[trigger] answered(
            events[i],
            INITIALIZE_REQUEST_ID,
            welcome,
        ) && welcomes(welcome) && #[trigger] answered(events[j], TOOLS_LIST_REQUEST_ID, tools)
            && #[trigger] answered(events[k], TOOL_CALL_REQUEST_ID, result)
}

/// Whether `endpoint` lies at the origin of `base` and carries no credentials.
pub open spec fn lawful_endpoint(base: UrlView, endpoint: Seq<char>) -> bool {
    exists|url: UrlView| #[trigger]
        same_origin(url, base) && without_credentials(url) && url.text == endpoint
}

/// Whether `proved` is a proof of `call` that rests on what the server sent.
pub open spec fn founded(call: PreparedView, events: Seq<EventView>, proved: ProofView) -> bool {
    exists|tools: JsonTree, result: JsonTree|
        was_called(events, call.tool, tools, result) && proved == #[trigger] proof_of(
            call,
            PROTOCOL_VERSION@,
            tools,
            result,
        )
}

/// How many messages have been sent once the call has come to `exchange`.
spec fn sent_by(exchange: ExchangeView) -> int {
    match exchange {
        ExchangeView::Initialize => 1,
        ExchangeView::Initialized { .. } => 2,
        ExchangeView::ToolsList { .. } => 3,
        ExchangeView::ToolsCall { .. } => 4,
    }
}

/// What holds while messages go to and fro.
spec fn under_way(
    call: PreparedView,
    channel: ChannelView,
    events: Seq<EventView>,
    sent: Seq<OutgoingView>,
    p: ProgressView,
) -> bool {
    &&& p.prepared == call
    &&& p.channel == channel
    &&& sent == script(call).take(sent_by(p.exchange))
    &&& !(channel is Http) ==> p.offered is None && p.session is None
    &&& channel matches ChannelView::Sse { base, .. } ==> p.endpoint is Some && lawful_endpoint(
        base,
        p.endpoint->0,
    )
    &&& match p.exchange {
        ExchangeView::Initialize => p.session is None,
        ExchangeView::Initialized { version } => version == PROTOCOL_VERSION@ && was_welcomed(
            events,
        ),
        ExchangeView::ToolsList { version } => version == PROTOCOL_VERSION@ && was_welcomed(events),
        ExchangeView::ToolsCall { version, tools } => version == PROTOCOL_VERSION@ && was_offered(
            events,
            call.tool,
            tools,
        ),
    }
}

/// What holds once it is known what the call comes to.
spec fn settled(
    call: PreparedView,
    channel: ChannelView,
    events: Seq<EventView>,
    sent: Seq<OutgoingView>,
    outcome: Result<ProofView, FailureView>,
) -> bool {
    &&& sent.is_prefix_of(script(call))
    &&& sent.len() == 4 ==> was_offered_at_all(events, call.tool)
    &&& match outcome {
        Ok(proved) => sent == script(call) && founded(call, events, proved),
        Err(error) => error.transport == channel.label() && (error.rpc_code is Some ==> error.code
            is RpcError),
    }
}

/// What holds of every step of a call.
spec fn sound(
    call: PreparedView,
    channel: ChannelView,
    events: Seq<EventView>,
    sent: Seq<OutgoingView>,
    step: StepView,
) -> bool {
    match step {
        StepView::Spawn(p) => channel is Stdio && p == at_start(call, channel) && sent.len() == 0,
        StepView::Open(p) => channel is Sse && p == at_start(call, channel) && sent.len() == 0,
        StepView::AwaitEndpoint(p) => channel is Sse && p == at_start(call, channel) && sent.len()
            == 0,
        StepView::Send(p, message) => under_way(call, channel, events, sent, p) && message
            == sent.last(),
        StepView::ReadLine(p) => under_way(call, channel, events, sent, p) && !(
        p.exchange is Initialized) && channel is Stdio,
        StepView::ReadBody(p, body) => under_way(call, channel, events, sent, p) && !(
        p.exchange is Initialized) && body.len() <= MCP_CALL_PROOF_MAX_RESPONSE_BYTES,
        StepView::ReadEvent(p) => under_way(call, channel, events, sent, p) && !(
        p.exchange is Initialized),
        StepView::Decode(p, bytes, source) => under_way(call, channel, events, sent, p) && !(
        p.exchange is Initialized) && bytes.len() <= MCP_CALL_PROOF_MAX_RESPONSE_BYTES && (
        source is Line ==> channel is Stdio),
        StepView::DeleteSession(p, outcome) => p.channel == channel && channel is Http && settled(
            call,
            channel,
            events,
            sent,
            outcome,
        ),
        StepView::Kill(outcome) => channel is Stdio && settled(call, channel, events, sent, outcome),
        StepView::Done { outcome, .. } => settled(call, channel, events, sent, outcome),
    }
}

proof fn lemma_later(events: Seq<EventView>, event: EventView, tool: Seq<char>)
    ensures
        was_welcomed(events) ==> was_welcomed(events.push(event)),
        was_offered_at_all(events, tool) ==> was_offered_at_all(events.push(event), tool),
        forall|tools: JsonTree|
            was_offered(events, tool, tools) ==> #[trigger] was_offered(
                events.push(event),
                tool,
                tools,
            ),
        forall|tools: JsonTree, result: JsonTree|
            was_called(events, tool, tools, result) ==> #[trigger] was_called(
                events.push(event),
                tool,
                tools,
                result,
            ),
{
    let longer = events.push(event);
    if was_welcomed(events) {
        let (i, welcome) = choose|i: int, welcome: JsonTree|
            0 <= i < events.len() && #[trigger] answered(events[i], INITIALIZE_REQUEST_ID, welcome)
                && welcomes(welcome);
        assert(answered(longer[i], INITIALIZE_REQUEST_ID, welcome));
    }
    assert forall|tools: JsonTree| was_offered(events, tool, tools) implies #[trigger] was_offered(
        longer,
        tool,
        tools,
    ) by {
        let (i, welcome, j) = choose|i: int, welcome: JsonTree, j: int|
            0 <= i < j < events.len() && #[trigger] answered(
                events[i],
                INITIALIZE_REQUEST_ID,
                welcome,
            ) && welcomes(welcome) && #[trigger] answered(events[j], TOOLS_LIST_REQUEST_ID, tools);
        assert(answered(longer[i], INITIALIZE_REQUEST_ID, welcome));
        assert(answered(longer[j], TOOLS_LIST_REQUEST_ID, tools));
    }
    if was_offered_at_all(events, tool) {
        let tools = choose|tools: JsonTree| was_offered(events, tool, tools);
        assert(was_offered(longer, tool, tools));
    }
    assert forall|tools: JsonTree, result: JsonTree| was_called(
        events,
        tool,
        tools,
        result,
    ) implies #[trigger] was_called(longer, tool, tools, result) by {
        let (i, welcome, j, k) = choose|i: int, welcome: JsonTree, j: int, k: int|
            0 <= i < j < k < events.len() && #[trigger] answered(
                events[i],
                INITIALIZE_REQUEST_ID,
                welcome,
            ) && welcomes(welcome) && #[trigger] answered(events[j], TOOLS_LIST_REQUEST_ID, tools)
                && #[trigger] answered(events[k], TOOL_CALL_REQUEST_ID, result);
        assert(answered(longer[i], INITIALIZE_REQUEST_ID, welcome));
        assert(answered(longer[j], TOOLS_LIST_REQUEST_ID, tools));
        assert(answered(longer[k], TOOL_CALL_REQUEST_ID, result));
    }
}

/// What follows an answer of the server.
proof fn lemma_response(
    call: PreparedView,
    channel: ChannelView,
    events: Seq<EventView>,
    sent: Seq<OutgoingView>,
    p: ProgressView,
    response: ResponseView,
)
    requires
        under_way(call, channel, events, sent, p),
        !(p.exchange is Initialized),
    ensures
        ({
            let next = after_response(p, response);
            sound(
                call,
                channel,
                events.push(EventView::Decoded(Some(response))),
                sent + new_message(None, next),
                next,
            )
        }),
{
    let event = EventView::Decoded(Some(response));
    let longer = events.push(event);
    let next = after_response(p, response);
    lemma_later(events, event, call.tool);
    lemma_script(call);
    let n = events.len() as int;
    assert(longer[n] == event);
    assert(sent + Seq::<OutgoingView>::empty() =~= sent);
    if next is Send {
        assert(sent + new_message(None, next) =~= script(call).take(sent_by(p.exchange) + 1));
    }
    match p.exchange {
        ExchangeView::Initialize => {
            if next is Send {
                assert(answered(longer[n], INITIALIZE_REQUEST_ID, response.result->0));
            }
        },
        ExchangeView::Initialized { .. } => {},
        ExchangeView::ToolsList { .. } => {
            if next is Send {
                let tools = response.result->0;
                let (i, welcome) = choose|i: int, welcome: JsonTree|
                    0 <= i < events.len() && #[trigger] answered(
                        events[i],
                        INITIALIZE_REQUEST_ID,
                        welcome,
                    ) && welcomes(welcome);
                assert(answered(longer[i], INITIALIZE_REQUEST_ID, welcome));
                assert(answered(longer[n], TOOLS_LIST_REQUEST_ID, tools));
            }
        },
        ExchangeView::ToolsCall { version, tools } => {
            if tool_call_outcome(response, channel.label()) is Ok && response.id == Some(
                TOOL_CALL_REQUEST_ID,
            ) {
                let result = response.result->0;
                let (i, welcome, j) = choose|i: int, welcome: JsonTree, j: int|
                    0 <= i < j < events.len() && #[trigger] answered(
                        events[i],
                        INITIALIZE_REQUEST_ID,
                        welcome,
                    ) && welcomes(welcome) && #[trigger] answered(
                        events[j],
                        TOOLS_LIST_REQUEST_ID,
                        tools,
                    );
                assert(answered(longer[i], INITIALIZE_REQUEST_ID, welcome));
                assert(answered(longer[j], TOOLS_LIST_REQUEST_ID, tools));
                assert(answered(longer[n], TOOL_CALL_REQUEST_ID, result));
                assert(was_called(longer, call.tool, tools, result));
                assert(founded(call, longer, proof_of(call, PROTOCOL_VERSION@, tools, result)));
            }
        },
    }
}

proof fn lemma_script(call: PreparedView)
    ensures
        script(call).len() == 4,
        script(call).take(4) == script(call),
        forall|n: int| 0 <= n <= 4 ==> (#[trigger] script(call).take(n)).is_prefix_of(script(call)),
        forall|n: int| 0 <= n < 4 ==> #[trigger] script(call).take(n + 1) == script(call).take(n).push(script(call)[n]),
{
    assert(script(call).take(4) =~= script(call));
    assert forall|n: int| 0 <= n < 4 implies #[trigger] script(call).take(n + 1) == script(
        call,
    ).take(n).push(script(call)[n]) by {
        assert(script(call).take(n + 1) =~= script(call).take(n).push(script(call)[n]));
    }
}

/// What holds of a step keeps holding while the step stays.
proof fn lemma_stays(
    call: PreparedView,
    channel: ChannelView,
    events: Seq<EventView>,
    sent: Seq<OutgoingView>,
    step: StepView,
    event: EventView,
)
    requires
        sound(call, channel, events, sent, step),
    ensures
        sound(call, channel, events.push(event), sent, step),
{
    lemma_later(events, event, call.tool);
    assert forall|proved: ProofView| founded(call, events, proved) implies #[trigger] founded(
        call,
        events.push(event),
        proved,
    ) by {
        let (tools, result) = choose|tools: JsonTree, result: JsonTree|
            was_called(events, call.tool, tools, result) && proved == #[trigger] proof_of(
                call,
                PROTOCOL_VERSION@,
                tools,
                result,
            );
        assert(was_called(events.push(event), call.tool, tools, result));
    }
}

/// Whether what holds of `step` holds of the step that follows `event` too.
spec fn keeps(
    call: PreparedView,
    channel: ChannelView,
    events: Seq<EventView>,
    sent: Seq<OutgoingView>,
    step: StepView,
    event: EventView,
) -> bool {
    let next = next_step(step, event);
    sound(call, channel, events.push(event), sent + new_message(Some(step), next), next)
}

proof fn lemma_opening_keeps(
    call: PreparedView,
    channel: ChannelView,
    events: Seq<EventView>,
    sent: Seq<OutgoingView>,
    step: StepView,
    event: EventView,
)
    requires
        sound(call, channel, events, sent, step),
        step is Spawn || step is Open || step is AwaitEndpoint,
    ensures
        keeps(call, channel, events, sent, step, event),
{
    let next = next_step(step, event);
    lemma_stays(call, channel, events, sent, step, event);
    lemma_script(call);
    assert(sent + Seq::<OutgoingView>::empty() =~= sent);
    if next is Send {
        assert(sent + new_message(Some(step), next) =~= script(call).take(1));
        if let ChannelView::Sse { url, base } = channel {
            let endpoint = joined_url(url, event->Stream_0->data);
            assert(same_origin(endpoint->0, base));
        }
    }
}

proof fn lemma_send_keeps(
    call: PreparedView,
    channel: ChannelView,
    events: Seq<EventView>,
    sent: Seq<OutgoingView>,
    step: StepView,
    event: EventView,
)
    requires
        sound(call, channel, events, sent, step),
        step is Send,
    ensures
        keeps(call, channel, events, sent, step, event),
{
    let next = next_step(step, event);
    lemma_stays(call, channel, events, sent, step, event);
    lemma_script(call);
    assert(sent + Seq::<OutgoingView>::empty() =~= sent);
    if next is Send && next != step {
        assert(step->Send_0.exchange is Initialized);
        assert(sent + new_message(Some(step), next) =~= script(call).take(3));
    }
}

proof fn lemma_read_keeps(
    call: PreparedView,
    channel: ChannelView,
    events: Seq<EventView>,
    sent: Seq<OutgoingView>,
    step: StepView,
    event: EventView,
)
    requires
        sound(call, channel, events, sent, step),
        step is ReadLine || step is ReadBody || step is ReadEvent,
    ensures
        keeps(call, channel, events, sent, step, event),
{
    let next = next_step(step, event);
    lemma_stays(call, channel, events, sent, step, event);
    lemma_script(call);
    assert(sent + Seq::<OutgoingView>::empty() =~= sent);
}

proof fn lemma_decode_keeps(
    call: PreparedView,
    channel: ChannelView,
    events: Seq<EventView>,
    sent: Seq<OutgoingView>,
    step: StepView,
    event: EventView,
)
    requires
        sound(call, channel, events, sent, step),
        step is Decode,
    ensures
        keeps(call, channel, events, sent, step, event),
{
    let next = next_step(step, event);
    lemma_stays(call, channel, events, sent, step, event);
    lemma_script(call);
    assert(sent + Seq::<OutgoingView>::empty() =~= sent);
    if let EventView::Decoded(Some(response)) = event {
        lemma_response(call, channel, events, sent, step->Decode_0, response);
    }
}

proof fn lemma_closing_keeps(
    call: PreparedView,
    channel: ChannelView,
    events: Seq<EventView>,
    sent: Seq<OutgoingView>,
    step: StepView,
    event: EventView,
)
    requires
        sound(call, channel, events, sent, step),
        step is DeleteSession || step is Kill || step is Done,
    ensures
        keeps(call, channel, events, sent, step, event),
{
    let next = next_step(step, event);
    lemma_stays(call, channel, events, sent, step, event);
    lemma_script(call);
    assert(sent + Seq::<OutgoingView>::empty() =~= sent);
}

/// Every step keeps what holds of every step.
proof fn lemma_step(
    call: PreparedView,
    channel: ChannelView,
    events: Seq<EventView>,
    sent: Seq<OutgoingView>,
    step: StepView,
    event: EventView,
)
    requires
        sound(call, channel, events, sent, step),
    ensures
        keeps(call, channel, events, sent, step, event),
{
    match step {
        StepView::Spawn(_) | StepView::Open(_) | StepView::AwaitEndpoint(_) => {
            lemma_opening_keeps(call, channel, events, sent, step, event);
        },
        StepView::Send(..) => {
            lemma_send_keeps(call, channel, events, sent, step, event);
        },
        StepView::ReadLine(_) | StepView::ReadBody(..) | StepView::ReadEvent(_) => {
            lemma_read_keeps(call, channel, events, sent, step, event);
        },
        StepView::Decode(..) => {
            lemma_decode_keeps(call, channel, events, sent, step, event);
        },
        StepView::DeleteSession(..) | StepView::Kill(_) | StepView::Done { .. } => {
            lemma_closing_keeps(call, channel, events, sent, step, event);
        },
    }
}

/// The first step of `call` over `channel`, once both have passed their checks.
pub open spec fn start(call: PreparedView, channel: ChannelView) -> StepView {
    first_step(Ok(call), Ok(channel))
}

proof fn lemma_run(call: PreparedView, channel: ChannelView, events: Seq<EventView>)
    ensures
        sound(
            call,
            channel,
            events,
            messages(start(call, channel), events),
            run(start(call, channel), events),
        ),
    decreases events.len(),
{
    reveal(run);
    let first = start(call, channel);
    if events.len() == 0 {
        lemma_script(call);
        assert(channel is Http ==> messages(first, events) =~= script(call).take(1));
    } else {
        let before = events.drop_last();
        lemma_run(call, channel, before);
        lemma_step(call, channel, before, messages(first, before), run(first, before), events.last());
        assert(before.push(events.last()) =~= events);
    }
}

/// The messages of a call go out in one order and no other: `initialize`, `initialized`,
/// `tools/list`, and the call of the one tool with the one value as its arguments. None goes out
/// twice.
pub proof fn messages_follow_the_script(
    call: PreparedView,
    channel: ChannelView,
    events: Seq<EventView>,
)
    ensures
        messages(start(call, channel), events).is_prefix_of(script(call)),
{
    lemma_run(call, channel, events);
    lemma_script(call);
}

/// The tool is called only after the server has listed it exactly once and as one that only reads:
/// at whatever moment the call has gone out, `events` being what has come about by then.
pub proof fn tool_is_called_only_when_offered(
    call: PreparedView,
    channel: ChannelView,
    events: Seq<EventView>,
    n: int,
)
    requires
        0 <= n < messages(start(call, channel), events).len(),
        messages(start(call, channel), events)[n] is ToolsCall,
    ensures
        was_offered_at_all(events, call.tool),
{
    lemma_run(call, channel, events);
    lemma_script(call);
    let sent = messages(start(call, channel), events);
    assert(sent.is_prefix_of(script(call)));
    assert(sent[n] == script(call)[n]);
    assert(n == 3);
}

/// A proof comes out only where all messages have gone out and the server has answered each request
/// as it must. It is the proof of the call that was asked for, over what the server listed and what
/// the tool returned.
pub proof fn proof_is_founded(
    call: PreparedView,
    channel: ChannelView,
    events: Seq<EventView>,
    proved: ProofView,
    session_left: bool,
)
    requires
        run(start(call, channel), events) == (StepView::Done { outcome: Ok(proved), session_left }),
    ensures
        messages(start(call, channel), events) == script(call),
        founded(call, events, proved),
{
    lemma_run(call, channel, events);
}

/// A failure names the transport of the call, and holds a code of the server's only where the
/// server answered with an error.
pub proof fn failure_names_its_transport(
    call: PreparedView,
    channel: ChannelView,
    events: Seq<EventView>,
    error: FailureView,
    session_left: bool,
)
    requires
        run(start(call, channel), events) == (StepView::Done { outcome: Err(error), session_left }),
    ensures
        error.transport == channel.label(),
        error.rpc_code is Some ==> error.code is RpcError,
{
    lemma_run(call, channel, events);
}

/// No more bytes are decoded than a response may take.
pub proof fn long_responses_are_not_decoded(
    call: PreparedView,
    channel: ChannelView,
    events: Seq<EventView>,
)
    ensures
        run(start(call, channel), events) matches StepView::Decode(_, bytes, _) ==> bytes.len()
            <= MCP_CALL_PROOF_MAX_RESPONSE_BYTES,
{
    lemma_run(call, channel, events);
}

/// Messages to an event stream go to an endpoint at the stream's own origin, without credentials.
pub proof fn endpoint_lies_at_the_origin(
    call: PreparedView,
    url: Seq<char>,
    base: UrlView,
    events: Seq<EventView>,
)
    ensures
        run(start(call, ChannelView::Sse { url, base }), events) matches StepView::Send(p, _)
            ==> p.endpoint is Some && lawful_endpoint(base, p.endpoint->0),
{
    lemma_run(call, ChannelView::Sse { url, base }, events);
}

/// A call over HTTP or over an event stream starts only at a URL of HTTP or HTTPS that carries no
/// credentials.
pub proof fn url_is_acceptable(transport: McpServerTransport, url: Option<UrlView>)
    requires
        channel_outcome(transport, url) is Ok,
        !(transport is Stdio),
    ensures
        url is Some,
        acceptable_url(url->0),
{
}

/// A call that does not pass its checks sends nothing.
pub proof fn refused_call_sends_nothing(
    prepared: Result<PreparedView, FailureView>,
    channel: Result<ChannelView, FailureView>,
    events: Seq<EventView>,
)
    requires
        prepared is Err || channel is Err,
    ensures
        messages(first_step(prepared, channel), events).len() == 0,
        run(first_step(prepared, channel), events) == over(
            Err(
                if prepared is Err {
                    prepared->Err_0
                } else {
                    channel->Err_0
                },
            ),
        ),
    decreases events.len(),
{
    reveal(run);
    if events.len() > 0 {
        refused_call_sends_nothing(prepared, channel, events.drop_last());
    }
}

/// What a call has come to does not change any more.
pub proof fn done_is_final(step: StepView, events: Seq<EventView>)
    requires
        step is Done,
    ensures
        run(step, events) == step,
    decreases events.len(),
{
    reveal(run);
    if events.len() > 0 {
        done_is_final(step, events.drop_last());
    }
}

/// The session that a step has to see to.
pub open spec fn session_of(step: StepView) -> Option<Seq<char>> {
    match step {
        StepView::Spawn(p) => p.session,
        StepView::Open(p) => p.session,
        StepView::AwaitEndpoint(p) => p.session,
        StepView::Send(p, _) => p.session,
        StepView::ReadLine(p) => p.session,
        StepView::ReadBody(p, _) => p.session,
        StepView::ReadEvent(p) => p.session,
        StepView::Decode(p, _, _) => p.session,
        StepView::DeleteSession(p, _) => p.session,
        StepView::Kill(_) => None,
        StepView::Done { .. } => None,
    }
}

/// A session that the server has opened stays known until the attempt to delete it is over, or
/// until the call ends with the word that it is left.
pub proof fn session_is_not_forgotten(
    call: PreparedView,
    channel: ChannelView,
    events: Seq<EventView>,
    event: EventView,
)
    requires
        session_of(run(start(call, channel), events)) is Some,
    ensures
        ({
            let step = run(start(call, channel), events);
            let next = run(start(call, channel), events.push(event));
            ||| session_of(next) == session_of(step)
            ||| step is DeleteSession && event is SessionDeleted && next is Done
            ||| next is Done && next->session_left
        }),
{
    reveal(run);
    lemma_run(call, channel, events);
    assert(events.push(event).drop_last() =~= events);
}

/// A command that was started is killed before the call is over. Where that fails, so does the
/// call, whatever it had come to.
pub proof fn command_is_killed(call: PreparedView, events: Seq<EventView>, event: EventView)
    requires
        !(run(start(call, ChannelView::Stdio), events) is Done),
        run(start(call, ChannelView::Stdio), events.push(event)) is Done,
    ensures
        ({
            let step = run(start(call, ChannelView::Stdio), events);
            let next = run(start(call, ChannelView::Stdio), events.push(event));
            ||| step is Spawn && event is SpawnFailed
            ||| step matches StepView::Kill(outcome) && event is Killed && next == over(outcome)
            ||| step is Kill && event is KillFailed && next == over(
                Err(
                    plain_failure(
                        McpCallProofErrorCode::ProcessCleanupFailed,
                        CallProofStage::Cleanup,
                        "stdio"@,
                    ),
                ),
            )
        }),
{
    reveal(run);
    lemma_run(call, ChannelView::Stdio, events);
    assert(events.push(event).drop_last() =~= events);
}

/// When the time is up, the call ends with a timeout, at once or once the command has been killed.
pub proof fn timeout_ends_the_call(
    call: PreparedView,
    channel: ChannelView,
    events: Seq<EventView>,
)
    requires
        !(run(start(call, channel), events) is Spawn),
        !(run(start(call, channel), events) is Kill),
        !(run(start(call, channel), events) is Done),
    ensures
        ({
            let error = plain_failure(
                McpCallProofErrorCode::Timeout,
                CallProofStage::ToolsCall,
                channel.label(),
            );
            let next = run(start(call, channel), events.push(EventView::TimedOut));
            if channel is Stdio {
                next == StepView::Kill(Err(error))
            } else {
                next is Done && next->Done_outcome == Err::<ProofView, _>(error)
            }
        }),
{
    reveal(run);
    lemma_run(call, channel, events);
    assert(events.push(EventView::TimedOut).drop_last() =~= events);
}

/// A proof tells no more of a listing than its digest, and no more of a result than its digest, how
/// long it is and how many items of content it has.
pub proof fn proof_is_free_of_payload(
    call: PreparedView,
    version: Seq<char>,
    tools: JsonTree,
    other_tools: JsonTree,
    result: JsonTree,
    other_result: JsonTree,
)
    requires
        sha256_text(json_bytes(tools)) == sha256_text(json_bytes(other_tools)),
        sha256_text(json_bytes(result)) == sha256_text(json_bytes(other_result)),
        json_bytes(result).len() == json_bytes(other_result).len(),
        content_items(result) == content_items(other_result),
    ensures
        proof_of(call, version, tools, result) == proof_of(call, version, other_tools, other_result),
{
}

/// What the digest of a proof is taken over differs wherever anything differs that the proof
/// vouches for.
pub proof fn proof_document_is_binding(
    call: PreparedView,
    version: Seq<char>,
    arguments_sha256: Seq<char>,
    tools_sha256: Seq<char>,
    result_sha256: Seq<char>,
    other_call: PreparedView,
    other_version: Seq<char>,
    other_arguments_sha256: Seq<char>,
    other_tools_sha256: Seq<char>,
    other_result_sha256: Seq<char>,
)
    requires
        proof_document(call, version, arguments_sha256, tools_sha256, result_sha256)
            == proof_document(
            other_call,
            other_version,
            other_arguments_sha256,
            other_tools_sha256,
            other_result_sha256,
        ),
    ensures
        call.server_name == other_call.server_name,
        call.runtime_scope_id == other_call.runtime_scope_id,
        call.tool == other_call.tool,
        call.authenticated_subject_sha256 == other_call.authenticated_subject_sha256,
        version == other_version,
        arguments_sha256 == other_arguments_sha256,
        tools_sha256 == other_tools_sha256,
        result_sha256 == other_result_sha256,
{
    reveal_strlit("protocol_version");
    reveal_strlit("server_name");
    reveal_strlit("runtime_scope_id");
    reveal_strlit("tool");
    reveal_strlit("authenticated_subject_sha256");
    reveal_strlit("arguments_sha256");
    reveal_strlit("tools_sha256");
    reveal_strlit("result_sha256");
    let one = proof_document(call, version, arguments_sha256, tools_sha256, result_sha256);
    assert("protocol_version"@.len() == 16 && "server_name"@.len() == 11
        && "runtime_scope_id"@.len() == 16 && "tool"@.len() == 4
        && "authenticated_subject_sha256"@.len() == 28 && "arguments_sha256"@.len() == 16
        && "tools_sha256"@.len() == 12 && "result_sha256"@.len() == 13);
    assert("protocol_version"@[0] == 'p' && "runtime_scope_id"@[0] == 'r' && "arguments_sha256"@[0]
        == 'a');
    assert(one.member("server_name"@) == Some(JsonTree::Text(call.server_name)));
    assert(one.member("tool"@) == Some(JsonTree::Text(call.tool)));
    assert(one.member("authenticated_subject_sha256"@) == Some(
        JsonTree::Text(call.authenticated_subject_sha256),
    ));
    assert(one.member("protocol_version"@) == Some(JsonTree::Text(version)));
    assert(one.member("arguments_sha256"@) == Some(JsonTree::Text(arguments_sha256)));
    assert(one.member("tools_sha256"@) == Some(JsonTree::Text(tools_sha256)));
    assert(one.member("result_sha256"@) == Some(JsonTree::Text(result_sha256)));
    assert(one.member("runtime_scope_id"@) == Some(text_or_null(call.runtime_scope_id)));
}

/// The details of a failure hold the stage, the transport and the server's error code, and nothing
/// else.
pub proof fn details_hold_nothing_else(error: FailureView, name: Seq<char>)
    requires
        error.details().member(name) is Some,
    ensures
        ({
            ||| name == "stage"@
            ||| name == "transport"@
            ||| name == "rpc_code"@ && error.rpc_code is Some
        }),
{
}

/// The message of an error that the server answers with makes no difference to anything.
pub proof fn error_message_makes_no_difference(one: JsonRpcResponse, other: JsonRpcResponse)
    requires
        one.id == other.id,
        optional_tree(one.result) == optional_tree(other.result),
        one.error is Some,
        other.error is Some,
        one.error->0.code == other.error->0.code,
    ensures
        one@ == other@,
{
}

} // verus!
