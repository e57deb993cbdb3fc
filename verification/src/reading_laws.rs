//! What is taken of what arrives, for every stage and transport, and how failures are told.

use vstd::prelude::*;
use vstd::utf8::encode_utf8;

use crate::answer_laws::{
    failed_with, goes_by, has_form, hints_reading, lemma_filter, only_one, tells_success, tools_of,
};
use crate::checks::{call_result_form, call_result_outcome, listing_outcome, named, read_only};
use crate::failure::{
    code_message, plain_failure, CallProofStage, FailureView, McpCallProofErrorCode,
};
use crate::json::JsonTree;
use crate::lifecycle::{ChannelView, ExchangeView, OutgoingView, StepView};
use crate::pending::PendingView;
use crate::prepared::PreparedView;
use crate::protocol::ResponseView;
use crate::qualification::{admission, context_outcome, ConsumeView};
use crate::receive::{
    answers, body_outcome, endpoint_read_outcome, line_outcome, message_outcome, status_outcome,
    StreamReadView,
};
use crate::service::first_step;
use crate::spawn::{spawn_failure, SpawnErrorKind};
use crate::step_laws::{fresh, reachable, stage_of, word_for};
use crate::text::white_space;
use crate::urls::{endpoint_outcome, joined_url, url_outcome, UrlView};
use crate::verdict::QualificationErrorView;

verus! {

/// White space is one of the 25 characters to which Unicode gives that property.
pub proof fn white_space_is_that_of_unicode(c: char)
    ensures
        white_space(c) <==> {
            let n = c as u32;
            ||| n == 0x09 || n == 0x0a || n == 0x0b || n == 0x0c || n == 0x0d || n == 0x20
            ||| n == 0x85 || n == 0xa0 || n == 0x1680
            ||| n == 0x2000 || n == 0x2001 || n == 0x2002 || n == 0x2003 || n == 0x2004
            ||| n == 0x2005 || n == 0x2006 || n == 0x2007 || n == 0x2008 || n == 0x2009
            ||| n == 0x200a || n == 0x2028 || n == 0x2029 || n == 0x202f || n == 0x205f
            ||| n == 0x3000
        },
{
}

/// A status is accepted exactly if it is that of a success. A redirect is told apart from all else.
pub proof fn status_must_be_a_success(status: u16, stage: CallProofStage, transport: Seq<char>)
    ensures
        ({
            let verdict = status_outcome(status, stage, transport);
            &&& status / 100 == 2 ==> verdict == Ok::<_, FailureView>(())
            &&& status / 100 == 3 ==> verdict == Err::<(), _>(
                failed_with(McpCallProofErrorCode::RedirectRejected, stage, transport),
            )
            &&& status / 100 != 2 && status / 100 != 3 ==> verdict == Err::<(), _>(
                failed_with(McpCallProofErrorCode::HttpError, stage, transport),
            )
        }),
{
}

/// A line is accepted exactly if it is there, has its end and is not too long.
pub proof fn line_must_be_whole(line: Seq<u8>, stage: CallProofStage)
    ensures
        ({
            let verdict = line_outcome(line, stage);
            let whole = line.len() <= 1048576 && line[line.len() - 1] == 10;
            &&& line.len() == 0 ==> verdict == Err::<(), _>(
                failed_with(McpCallProofErrorCode::ProtocolError, stage, "stdio"@),
            )
            &&& line.len() > 0 && !whole ==> verdict == Err::<(), _>(
                failed_with(McpCallProofErrorCode::ResponseTooLarge, stage, "stdio"@),
            )
            &&& line.len() > 0 && whole ==> verdict == Ok::<_, FailureView>(())
        }),
{
}

/// A body with its next piece begins with the body, ends with the piece, and holds nothing else,
/// unless the two together are too long.
pub proof fn body_grows_by_its_pieces(
    body: Seq<u8>,
    piece: Seq<u8>,
    stage: CallProofStage,
    transport: Seq<char>,
)
    ensures
        ({
            let verdict = body_outcome(body, piece, stage, transport);
            let longer = verdict->Ok_0;
            &&& body.len() + piece.len() > 1048576 ==> verdict == Err::<Seq<u8>, _>(
                failed_with(McpCallProofErrorCode::ResponseTooLarge, stage, transport),
            )
            &&& body.len() + piece.len() <= 1048576 ==> {
                &&& verdict is Ok
                &&& longer.len() == body.len() + piece.len()
                &&& forall|i: int| 0 <= i < body.len() ==> longer[i] == #[trigger] body[i]
                &&& forall|i: int|
                    0 <= i < piece.len() ==> longer[body.len() + i] == #[trigger] piece[i]
            }
        }),
{
}

/// Of an event stream only messages are taken, each as it is.
pub proof fn only_messages_are_taken(
    event_type: Seq<char>,
    data: Seq<char>,
    stage: CallProofStage,
    transport: Seq<char>,
)
    ensures
        ({
            let verdict = message_outcome(
                StreamReadView::Event { event_type, data },
                stage,
                transport,
            );
            let short = encode_utf8(data).len() <= 1048576;
            let message = event_type.len() == 0 || event_type == "message"@;
            &&& !short ==> verdict == Err::<Option<Seq<u8>>, _>(
                failed_with(McpCallProofErrorCode::ResponseTooLarge, stage, transport),
            )
            &&& short && message ==> verdict == Ok::<_, FailureView>(Some(encode_utf8(data)))
            &&& short && !message ==> verdict == Ok::<_, FailureView>(None::<Seq<u8>>)
        }),
        message_outcome(StreamReadView::Overflow, stage, transport) == Err::<Option<Seq<u8>>, _>(
            failed_with(McpCallProofErrorCode::ResponseTooLarge, stage, transport),
        ),
        message_outcome(StreamReadView::End, stage, transport) == Err::<Option<Seq<u8>>, _>(
            failed_with(McpCallProofErrorCode::ProtocolError, stage, transport),
        ),
{
}

/// Whether `url` lies where `base` lies and carries no credentials.
pub open spec fn at_home(url: UrlView, base: UrlView) -> bool {
    &&& url.scheme == base.scheme
    &&& url.host == base.host
    &&& url.port == base.port
    &&& url.username.len() == 0
    &&& url.password is None
}

/// An endpoint is accepted exactly if it is a URL that lies where the stream lies and carries no
/// credentials.
pub proof fn endpoint_must_be_at_home(base: UrlView, endpoint: Option<UrlView>)
    ensures
        ({
            let verdict = endpoint_outcome(base, endpoint);
            let stage = CallProofStage::Endpoint;
            match endpoint {
                None => verdict == Err::<Seq<char>, _>(
                    failed_with(McpCallProofErrorCode::ProtocolError, stage, "sse"@),
                ),
                Some(url) => if at_home(url, base) {
                    verdict == Ok::<_, FailureView>(url.text)
                } else {
                    verdict == Err::<Seq<char>, _>(
                        failed_with(McpCallProofErrorCode::RedirectRejected, stage, "sse"@),
                    )
                },
            }
        }),
{
}

/// While the endpoint is awaited only the event that names it counts, and it is read relative to the
/// URL of the stream.
pub proof fn only_the_endpoint_is_taken(
    url: Seq<char>,
    base: UrlView,
    event_type: Seq<char>,
    data: Seq<char>,
)
    ensures
        ({
            let verdict = endpoint_read_outcome(
                url,
                base,
                StreamReadView::Event { event_type, data },
            );
            let stage = CallProofStage::Endpoint;
            let short = encode_utf8(data).len() <= 1048576;
            let named = joined_url(url, data);
            &&& !short ==> verdict == Err::<Option<Seq<char>>, _>(
                failed_with(McpCallProofErrorCode::ResponseTooLarge, stage, "sse"@),
            )
            &&& short && event_type != "endpoint"@ ==> verdict == Ok::<_, FailureView>(
                None::<Seq<char>>,
            )
            &&& short && event_type == "endpoint"@ && named is None ==> verdict == Err::<
                Option<Seq<char>>,
                _,
            >(failed_with(McpCallProofErrorCode::ProtocolError, stage, "sse"@))
            &&& short && event_type == "endpoint"@ && named is Some && !at_home(named->0, base)
                ==> verdict == Err::<Option<Seq<char>>, _>(
                failed_with(McpCallProofErrorCode::RedirectRejected, stage, "sse"@),
            )
            &&& short && event_type == "endpoint"@ && named is Some && at_home(named->0, base)
                ==> verdict == Ok::<_, FailureView>(Some(named->0.text))
        }),
        endpoint_read_outcome(url, base, StreamReadView::Overflow) == Err::<Option<Seq<char>>, _>(
            failed_with(
                McpCallProofErrorCode::ResponseTooLarge,
                CallProofStage::Endpoint,
                "sse"@,
            ),
        ),
        endpoint_read_outcome(url, base, StreamReadView::End) == Err::<Option<Seq<char>>, _>(
            failed_with(McpCallProofErrorCode::ProtocolError, CallProofStage::Endpoint, "sse"@),
        ),
{
}

/// The URL of a server is accepted, and kept as it is, exactly if it is one of HTTP or HTTPS without
/// credentials.
pub proof fn url_must_be_reachable(url: Option<UrlView>, transport: Seq<char>)
    ensures
        reachable(url) ==> url_outcome(url, transport) == Ok::<_, FailureView>(url->0),
        !reachable(url) ==> url_outcome(url, transport) == Err::<UrlView, _>(
            failed_with(
                McpCallProofErrorCode::InvalidRequest,
                CallProofStage::Validate,
                transport,
            ),
        ),
{
}

/// Only a response that names a request answers one.
pub proof fn answer_names_some_request(response: ResponseView)
    ensures
        answers(Some(response)) <==> response.id is Some,
        !answers(None),
{
}

/// A listing is judged by its length and by what it lists.
pub proof fn listing_is_judged_by_what_it_lists(
    listing: JsonTree,
    size: nat,
    tool: Seq<char>,
    transport: Seq<char>,
)
    ensures
        ({
            let stage = CallProofStage::ToolsList;
            let verdict = listing_outcome(listing, size, tool, transport);
            let short = size <= 1048576;
            let tools = tools_of(listing)->0;
            &&& verdict is Ok <==> short && tools_of(listing) is Some && exists|i: int| #[trigger]
                only_one(tools, tool, i) && hints_reading(tools[i])
            &&& !short ==> verdict == Err::<(), _>(
                failed_with(McpCallProofErrorCode::ResponseTooLarge, stage, transport),
            )
            &&& short && tools_of(listing) is None ==> verdict == Err::<(), _>(
                failed_with(McpCallProofErrorCode::ProtocolError, stage, transport),
            )
            &&& short && tools_of(listing) is Some && (forall|i: int|
                0 <= i < tools.len() ==> !goes_by(#[trigger] tools[i], tool)) ==> verdict == Err::<
                (),
                _,
            >(failed_with(McpCallProofErrorCode::ToolNotFound, stage, transport))
            &&& short && tools_of(listing) is Some && (exists|i: int, j: int|
                0 <= i < j < tools.len() && goes_by(#[trigger] tools[i], tool) && goes_by(
                    #[trigger] tools[j],
                    tool,
                )) ==> verdict == Err::<(), _>(
                failed_with(McpCallProofErrorCode::ProtocolError, stage, transport),
            )
            &&& short && tools_of(listing) is Some && (exists|i: int| #[trigger]
                only_one(tools, tool, i) && !hints_reading(tools[i])) ==> verdict == Err::<(), _>(
                failed_with(McpCallProofErrorCode::ToolNotReadOnly, stage, transport),
            )
        }),
        named(tool)(listing) <==> goes_by(listing, tool),
        read_only(listing) <==> hints_reading(listing),
{
    if tools_of(listing) is Some {
        let tools = tools_of(listing)->0;
        lemma_filter(tools, tool);
        let found = tools.filter(named(tool));
        if found.len() == 1 {
            let i = choose|i: int| only_one(tools, tool, i);
            assert(found[0] == tools[i]);
            assert forall|k: int| #[trigger] only_one(tools, tool, k) implies k == i by {}
        }
    }
}

/// A tool's result is judged by its form, by whether it tells of an error, and by its length.
pub proof fn result_is_judged_by_what_it_tells(result: JsonTree, size: nat, transport: Seq<char>)
    ensures
        ({
            let stage = CallProofStage::ToolsCall;
            let verdict = call_result_outcome(result, size, transport);
            &&& verdict is Ok <==> tells_success(result) && size <= 1048576
            &&& !has_form(result) ==> verdict == Err::<(), _>(
                failed_with(McpCallProofErrorCode::ProtocolError, stage, transport),
            )
            &&& has_form(result) && !tells_success(result) ==> verdict == Err::<(), _>(
                failed_with(McpCallProofErrorCode::ToolCallFailed, stage, transport),
            )
            &&& tells_success(result) && size > 1048576 ==> verdict == Err::<(), _>(
                failed_with(McpCallProofErrorCode::ResponseTooLarge, stage, transport),
            )
        }),
        call_result_form(result) <==> has_form(result),
{
}

/// A command that does not start fails in the stage in which it should, for the reason that it has.
pub proof fn command_fails_for_its_reason(kind: SpawnErrorKind)
    ensures
        spawn_failure(kind).stage is Spawn,
        spawn_failure(kind).transport == "stdio"@,
        spawn_failure(kind).rpc_code is None,
        spawn_failure(kind).code is CommandNotFound <==> kind is NotFound,
        spawn_failure(kind).code is CommandPermissionDenied <==> kind is PermissionDenied,
        spawn_failure(kind).code is CommandStartFailed <==> kind is Other,
{
}

/// A failure says what it is told to say, and holds no code of the server's.
pub proof fn failure_says_what_it_is_told(
    code: McpCallProofErrorCode,
    stage: CallProofStage,
    transport: Seq<char>,
)
    ensures
        plain_failure(code, stage, transport).code == code,
        plain_failure(code, stage, transport).stage == stage,
        plain_failure(code, stage, transport).transport == transport,
        plain_failure(code, stage, transport).rpc_code is None,
{
}

/// The names of the channels are those of the transports, and the stages are those of the messages.
pub proof fn channels_and_stages_are_named(channel: ChannelView, exchange: ExchangeView)
    ensures
        channel.label() == word_for(channel),
        exchange.stage() == stage_of(exchange),
{
}

/// Each stage goes by its own name.
pub proof fn stages_go_by_their_names()
    ensures
        CallProofStage::Validate.name() == "validate"@,
        CallProofStage::Spawn.name() == "spawn"@,
        CallProofStage::Connect.name() == "connect"@,
        CallProofStage::Initialize.name() == "initialize"@,
        CallProofStage::Initialized.name() == "initialized"@,
        CallProofStage::ToolsList.name() == "tools_list"@,
        CallProofStage::ToolsCall.name() == "tools_call"@,
        CallProofStage::Endpoint.name() == "endpoint"@,
        CallProofStage::Cleanup.name() == "cleanup"@,
{
}

/// Each code has its own sentence.
pub proof fn codes_have_their_sentences()
    ensures
        code_message(McpCallProofErrorCode::InvalidRequest) == "Invalid MCP call proof request"@,
        code_message(McpCallProofErrorCode::ArgumentsTooLarge)
            == "MCP tool arguments exceed the allowed size"@,
        code_message(McpCallProofErrorCode::ResponseTooLarge)
            == "MCP server response exceeds the allowed size"@,
        code_message(McpCallProofErrorCode::CommandNotFound)
            == "MCP server command was not found"@,
        code_message(McpCallProofErrorCode::CommandPermissionDenied)
            == "MCP server command cannot be executed"@,
        code_message(McpCallProofErrorCode::CommandStartFailed)
            == "MCP server command failed to start"@,
        code_message(McpCallProofErrorCode::ProcessCleanupFailed)
            == "MCP transport cleanup failed"@,
        code_message(McpCallProofErrorCode::ConnectionFailed) == "MCP server connection failed"@,
        code_message(McpCallProofErrorCode::HttpError) == "MCP server returned an HTTP error"@,
        code_message(McpCallProofErrorCode::RedirectRejected)
            == "MCP transport redirect was rejected"@,
        code_message(McpCallProofErrorCode::Timeout) == "MCP call proof timed out"@,
        code_message(McpCallProofErrorCode::RpcError) == "MCP server returned a JSON-RPC error"@,
        code_message(McpCallProofErrorCode::ProtocolError)
            == "MCP server returned an invalid protocol response"@,
        code_message(McpCallProofErrorCode::ToolNotFound)
            == "Requested MCP tool was not advertised"@,
        code_message(McpCallProofErrorCode::ToolNotReadOnly)
            == "Requested MCP tool is not declared read-only"@,
        code_message(McpCallProofErrorCode::ToolCallFailed) == "MCP tool call reported failure"@,
{
}

/// A call that could not be prepared, or has no channel, is over before anything is done, and tells
/// why. Any other begins over its channel with nothing done yet.
pub proof fn call_begins_over_its_channel(
    prepared: Result<PreparedView, FailureView>,
    channel: Result<ChannelView, FailureView>,
)
    ensures
        ({
            let first = first_step(prepared, channel);
            &&& prepared is Err ==> first == (StepView::Done {
                outcome: Err(prepared->Err_0),
                session_left: false,
            })
            &&& prepared is Ok && channel is Err ==> first == (StepView::Done {
                outcome: Err(channel->Err_0),
                session_left: false,
            })
            &&& prepared is Ok && channel is Ok ==> match channel->Ok_0 {
                ChannelView::Stdio => first is Spawn && fresh(
                    first->Spawn_0,
                    prepared->Ok_0,
                    channel->Ok_0,
                ),
                ChannelView::Http => first is Send && fresh(
                    first->Send_0,
                    prepared->Ok_0,
                    channel->Ok_0,
                ) && first->Send_1 == (OutgoingView::Initialize { id: 1 }),
                ChannelView::Sse { .. } => first is Open && fresh(
                    first->Open_0,
                    prepared->Ok_0,
                    channel->Ok_0,
                ),
            }
        }),
{
}

/// A capability that has been taken out is of use to its user, in its conversation and until it
/// expires. Whoever else uses it is told that they have no right to it, even if it has expired.
pub proof fn taken_capability_is_of_use_to_its_user_alone(
    pending: PendingView,
    user_id: Seq<char>,
    conversation_id: Seq<char>,
    t: u64,
    error: QualificationErrorView,
)
    ensures
        ({
            let verdict = context_outcome(pending, user_id, conversation_id, t);
            let step = admission(pending, user_id, conversation_id, Ok(t));
            let own = user_id == pending.user_id && conversation_id == pending.conversation_id;
            let early = t < pending.binding.expires_at_ms;
            &&& own && early ==> verdict == Ok::<_, QualificationErrorView>(()) && step
                == ConsumeView::LookUpOwner(pending)
            &&& !own ==> verdict == Err::<(), _>(QualificationErrorView::Unauthorized) && step
                == ConsumeView::Done(Err(QualificationErrorView::Unauthorized))
            &&& own && !early ==> verdict == Err::<(), _>(QualificationErrorView::Expired) && step
                == ConsumeView::Done(Err(QualificationErrorView::Expired))
        }),
        admission(pending, user_id, conversation_id, Err(error)) == ConsumeView::Done(Err(error)),
{
}

} // verus!
