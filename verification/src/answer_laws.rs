//! What the answers of a server are taken for, and what a proof says of them.

use vstd::prelude::*;
use vstd::utf8::encode_utf8;

use crate::api::{
    MCP_CALL_PROOF_MAX_ARGUMENT_BYTES, MCP_CALL_PROOF_MAX_NAME_BYTES,
    MCP_CALL_PROOF_MAX_RESPONSE_BYTES, ProofView,
};
use crate::checks::{
    id_outcome, initialize_outcome, named, rpc_outcome, tool_call_outcome, tools_list_outcome,
};
use crate::digest::sha256_text;
use crate::evidence::{proof_document, proof_of};
use crate::failure::{CallProofStage, FailureView, McpCallProofErrorCode};
use crate::json::{json_bytes, JsonTree, NumberView};
use crate::laws::{
    answered, messages, proof_is_founded, run, start, tool_is_called_only_when_offered, was_called,
    was_offered,
};
use crate::lifecycle::{
    ChannelView, EventView, StepView, INITIALIZE_REQUEST_ID, TOOLS_LIST_REQUEST_ID,
    TOOL_CALL_REQUEST_ID,
};
use crate::prepared::{prepare, PreparedView};
use crate::protocol::{tools_call_request, ResponseView, PROTOCOL_VERSION};
use crate::value_laws::part;

verus! {

/// The failure with the code `code`, and with no code of the server's.
pub open spec fn failed_with(
    code: McpCallProofErrorCode,
    stage: CallProofStage,
    transport: Seq<char>,
) -> FailureView {
    FailureView { code, stage, transport, rpc_code: None }
}

/// The failure for an error that the server answered with.
pub open spec fn refused_by_server(
    code: i64,
    stage: CallProofStage,
    transport: Seq<char>,
) -> FailureView {
    FailureView {
        code: McpCallProofErrorCode::RpcError,
        stage,
        transport,
        rpc_code: Some(code),
    }
}

/// The numbers that requests go by, the version that is spoken, and what values may take at most.
pub proof fn numbers_are_fixed()
    ensures
        INITIALIZE_REQUEST_ID == 1,
        TOOLS_LIST_REQUEST_ID == 2,
        TOOL_CALL_REQUEST_ID == 3,
        PROTOCOL_VERSION@ == "2024-11-05"@,
        MCP_CALL_PROOF_MAX_NAME_BYTES == 256,
        MCP_CALL_PROOF_MAX_ARGUMENT_BYTES == 65536,
        MCP_CALL_PROOF_MAX_RESPONSE_BYTES == 1048576,
{
}

/// An error of the server's is told by its code, whatever else the response holds, and a response
/// answers a request exactly if it names it.
pub proof fn responses_are_told_apart(
    response: ResponseView,
    expected: u64,
    stage: CallProofStage,
    transport: Seq<char>,
)
    ensures
        rpc_outcome(response, stage, transport) is Ok <==> response.error_code is None,
        response.error_code matches Some(code) ==> rpc_outcome(response, stage, transport) == Err::<
            (),
            _,
        >(refused_by_server(code, stage, transport)),
        id_outcome(response, expected, stage, transport) is Ok <==> response.id == Some(expected),
        response.id != Some(expected) ==> id_outcome(response, expected, stage, transport) == Err::<
            (),
            _,
        >(failed_with(McpCallProofErrorCode::ProtocolError, stage, transport)),
{
}

/// The response to `initialize` is accepted exactly if it carries no error and its result holds the
/// version that is spoken, as a string under its name.
pub proof fn initialize_must_hold_the_version(response: ResponseView, transport: Seq<char>)
    ensures
        ({
            let stage = CallProofStage::Initialize;
            let verdict = initialize_outcome(response, transport);
            let agreed = response.result is Some && part(response.result->0, "protocolVersion"@)
                == Some(JsonTree::Text("2024-11-05"@));
            &&& verdict is Ok <==> response.error_code is None && agreed
            &&& verdict is Ok ==> verdict->Ok_0 == "2024-11-05"@
            &&& response.error_code matches Some(code) ==> verdict == Err::<Seq<char>, _>(
                refused_by_server(code, stage, transport),
            )
            &&& response.error_code is None && !agreed ==> verdict == Err::<Seq<char>, _>(
                failed_with(McpCallProofErrorCode::ProtocolError, stage, transport),
            )
        }),
{
}

/// Whether a listed tool holds the name `tool`.
pub open spec fn goes_by(listed: JsonTree, tool: Seq<char>) -> bool {
    part(listed, "name"@) == Some(JsonTree::Text(tool))
}

/// Whether the tool at `i`, and no other, goes by the name `tool`.
pub open spec fn only_one(tools: Seq<JsonTree>, tool: Seq<char>, i: int) -> bool {
    &&& 0 <= i < tools.len()
    &&& goes_by(tools[i], tool)
    &&& forall|j: int| 0 <= j < tools.len() && j != i ==> !goes_by(#[trigger] tools[j], tool)
}

/// Whether a listed tool holds annotations in which the hint that it only reads is true.
pub open spec fn hints_reading(listed: JsonTree) -> bool {
    part(listed, "annotations"@) is Some && part(
        part(listed, "annotations"@)->0,
        "readOnlyHint"@,
    ) == Some(JsonTree::Bool(true))
}

/// The tools that a listing holds, if it holds an array of them.
pub open spec fn tools_of(listing: JsonTree) -> Option<Seq<JsonTree>> {
    match part(listing, "tools"@) {
        Some(JsonTree::Array(tools)) => Some(tools),
        _ => None,
    }
}

/// Whether a listing of a length that is allowed holds one tool of the name `tool` and no other, and
/// this tool holds the hint that it only reads.
pub open spec fn lists_for_reading(listing: JsonTree, tool: Seq<char>) -> bool {
    &&& json_bytes(listing).len() <= 1048576
    &&& tools_of(listing) is Some
    &&& exists|i: int| #[trigger]
        only_one(tools_of(listing)->0, tool, i) && hints_reading(tools_of(listing)->0[i])
}

pub(crate) proof fn lemma_filter(tools: Seq<JsonTree>, tool: Seq<char>)
    ensures
        tools.filter(named(tool)).len() == 0 <==> forall|i: int|
            0 <= i < tools.len() ==> !goes_by(#[trigger] tools[i], tool),
        forall|i: int| #[trigger]
            only_one(tools, tool, i) ==> tools.filter(named(tool)).len() == 1 && tools.filter(
                named(tool),
            )[0] == tools[i],
        tools.filter(named(tool)).len() == 1 ==> exists|i: int| only_one(tools, tool, i),
    decreases tools.len(),
{
    reveal(Seq::filter);
    let wanted = named(tool);
    if tools.len() > 0 {
        let fewer = tools.drop_last();
        let n = tools.len() - 1;
        lemma_filter(fewer, tool);
        assert(wanted(tools[n]) <==> goes_by(tools[n], tool));
        assert(forall|i: int| 0 <= i < n ==> fewer[i] == tools[i]);
        if goes_by(tools[n], tool) {
            assert(tools.filter(wanted) =~= fewer.filter(wanted).push(tools[n]));
            assert forall|i: int| #[trigger] only_one(tools, tool, i) implies tools.filter(
                wanted,
            ).len() == 1 && tools.filter(wanted)[0] == tools[i] by {
                assert(i == n);
                assert forall|j: int| 0 <= j < fewer.len() implies !goes_by(
                    #[trigger] fewer[j],
                    tool,
                ) by {
                    assert(!goes_by(tools[j], tool));
                }
            }
            if tools.filter(wanted).len() == 1 {
                assert forall|j: int| 0 <= j < tools.len() && j != n implies !goes_by(
                    #[trigger] tools[j],
                    tool,
                ) by {
                    assert(!goes_by(fewer[j], tool));
                }
                assert(only_one(tools, tool, n));
            }
        } else {
            assert(tools.filter(wanted) =~= fewer.filter(wanted));
            assert forall|i: int| #[trigger] only_one(tools, tool, i) implies tools.filter(
                wanted,
            ).len() == 1 && tools.filter(wanted)[0] == tools[i] by {
                assert(i < n);
                assert forall|j: int| 0 <= j < fewer.len() && j != i implies !goes_by(
                    #[trigger] fewer[j],
                    tool,
                ) by {
                    assert(!goes_by(tools[j], tool));
                }
                assert(only_one(fewer, tool, i));
            }
            if tools.filter(wanted).len() == 1 {
                let i = choose|i: int| only_one(fewer, tool, i);
                assert forall|j: int| 0 <= j < tools.len() && j != i implies !goes_by(
                    #[trigger] tools[j],
                    tool,
                ) by {
                    if j < n {
                        assert(!goes_by(fewer[j], tool));
                    }
                }
                assert(only_one(tools, tool, i));
            }
            assert((forall|i: int| 0 <= i < tools.len() ==> !goes_by(#[trigger] tools[i], tool))
                <==> (forall|i: int| 0 <= i < fewer.len() ==> !goes_by(#[trigger] fewer[i], tool)))
                by {
                if forall|i: int| 0 <= i < fewer.len() ==> !goes_by(#[trigger] fewer[i], tool) {
                    assert forall|i: int| 0 <= i < tools.len() implies !goes_by(
                        #[trigger] tools[i],
                        tool,
                    ) by {
                        if i < n {
                            assert(!goes_by(fewer[i], tool));
                        }
                    }
                }
                if forall|i: int| 0 <= i < tools.len() ==> !goes_by(#[trigger] tools[i], tool) {
                    assert forall|i: int| 0 <= i < fewer.len() implies !goes_by(
                        #[trigger] fewer[i],
                        tool,
                    ) by {
                        assert(!goes_by(tools[i], tool));
                    }
                }
            }
        }
    }
}

/// A listing is accepted exactly if it lists the tool once, with the hint that it only reads, and is
/// not too long. No other annotation and no other tool makes up for that. Where it is refused, the
/// failure tells what it lacks.
pub proof fn listing_must_hint_reading(
    response: ResponseView,
    tool: Seq<char>,
    transport: Seq<char>,
)
    ensures
        ({
            let stage = CallProofStage::ToolsList;
            let verdict = tools_list_outcome(response, tool, transport);
            let listing = response.result->0;
            let tools = tools_of(listing)->0;
            let sound = response.error_code is None && response.result is Some;
            let short = json_bytes(listing).len() <= 1048576;
            &&& verdict is Ok <==> sound && lists_for_reading(listing, tool)
            &&& verdict is Ok ==> verdict->Ok_0 == listing
            &&& verdict is Err && verdict->Err_0.rpc_code is None ==> verdict->Err_0.stage == stage
                && verdict->Err_0.transport == transport
            &&& response.error_code matches Some(code) ==> verdict == Err::<JsonTree, _>(
                refused_by_server(code, stage, transport),
            )
            &&& response.error_code is None && response.result is None ==> verdict == Err::<
                JsonTree,
                _,
            >(failed_with(McpCallProofErrorCode::ProtocolError, stage, transport))
            &&& sound && !short ==> verdict == Err::<JsonTree, _>(
                failed_with(McpCallProofErrorCode::ResponseTooLarge, stage, transport),
            )
            &&& sound && short && tools_of(listing) is None ==> verdict == Err::<JsonTree, _>(
                failed_with(McpCallProofErrorCode::ProtocolError, stage, transport),
            )
            &&& sound && short && tools_of(listing) is Some && (forall|i: int|
                0 <= i < tools.len() ==> !goes_by(#[trigger] tools[i], tool)) ==> verdict == Err::<
                JsonTree,
                _,
            >(failed_with(McpCallProofErrorCode::ToolNotFound, stage, transport))
            &&& sound && short && tools_of(listing) is Some && (exists|i: int, j: int|
                0 <= i < j < tools.len() && goes_by(#[trigger] tools[i], tool) && goes_by(
                    #[trigger] tools[j],
                    tool,
                )) ==> verdict == Err::<JsonTree, _>(
                failed_with(McpCallProofErrorCode::ProtocolError, stage, transport),
            )
            &&& sound && short && tools_of(listing) is Some && (exists|i: int| #[trigger]
                only_one(tools, tool, i) && !hints_reading(tools[i])) ==> verdict == Err::<
                JsonTree,
                _,
            >(failed_with(McpCallProofErrorCode::ToolNotReadOnly, stage, transport))
        }),
{
    let listing = response.result->0;
    if response.error_code is None && response.result is Some && tools_of(listing) is Some {
        let tools = tools_of(listing)->0;
        lemma_filter(tools, tool);
        let found = tools.filter(named(tool));
        if found.len() == 1 {
            let i = choose|i: int| only_one(tools, tool, i);
            assert(found[0] == tools[i]);
            assert forall|k: int| #[trigger] only_one(tools, tool, k) implies k == i by {}
        }
    }
}

/// The tool is called only after the server has answered the second request with a listing in which
/// the tool stands once and holds the hint that it only reads.
pub proof fn tool_is_called_only_when_it_hints_reading(
    call: PreparedView,
    channel: ChannelView,
    events: Seq<EventView>,
    n: int,
)
    requires
        0 <= n < messages(start(call, channel), events).len(),
        messages(start(call, channel), events)[n] is ToolsCall,
    ensures
        exists|j: int, listing: JsonTree|
            0 <= j < events.len() && #[trigger] answered(events[j], 2, listing)
                && lists_for_reading(listing, call.tool),
{
    tool_is_called_only_when_offered(call, channel, events, n);
    let tools = choose|tools: JsonTree| was_offered(events, call.tool, tools);
    lemma_offers(tools, call.tool);
    let (i, welcome, j) = choose|i: int, welcome: JsonTree, j: int|
        0 <= i < j < events.len() && #[trigger] answered(events[i], INITIALIZE_REQUEST_ID, welcome)
            && crate::laws::welcomes(welcome) && #[trigger] answered(
            events[j],
            TOOLS_LIST_REQUEST_ID,
            tools,
        );
    assert(answered(events[j], 2, tools));
}

proof fn lemma_offers(listing: JsonTree, tool: Seq<char>)
    ensures
        crate::checks::offers(listing, tool) <==> lists_for_reading(listing, tool),
{
    if tools_of(listing) is Some {
        let tools = tools_of(listing)->0;
        lemma_filter(tools, tool);
        let found = tools.filter(named(tool));
        if found.len() == 1 {
            let i = choose|i: int| only_one(tools, tool, i);
            assert(found[0] == tools[i]);
            assert forall|k: int| #[trigger] only_one(tools, tool, k) implies k == i by {}
        }
    }
}

/// Whether a tool's result is an object that holds one of the four members of a result, an array if
/// it holds content, and a truth value, which is not true, if it tells whether there was an error.
pub open spec fn tells_success(result: JsonTree) -> bool {
    &&& has_form(result)
    &&& part(result, "isError"@) != Some(JsonTree::Bool(true))
}

/// Whether a tool's result is an object that holds one of the four members of a result, an array if
/// it holds content, and a truth value if it tells whether there was an error.
pub open spec fn has_form(result: JsonTree) -> bool {
    &&& result is Object
    &&& !(part(result, "content"@) is None && part(result, "structuredContent"@) is None && part(
        result,
        "isError"@,
    ) is None && part(result, "_meta"@) is None)
    &&& part(result, "content"@) is None || part(result, "content"@)->0 is Array
    &&& part(result, "isError"@) is None || part(result, "isError"@)->0 is Bool
}

/// A tool's result is accepted exactly if it has the form of one, tells of no error and is not too
/// long. Where it is refused, the failure tells why.
pub proof fn result_must_tell_success(response: ResponseView, transport: Seq<char>)
    ensures
        ({
            let stage = CallProofStage::ToolsCall;
            let verdict = tool_call_outcome(response, transport);
            let result = response.result->0;
            let sound = response.error_code is None && response.result is Some;
            let short = json_bytes(result).len() <= 1048576;
            &&& verdict is Ok <==> sound && tells_success(result) && short
            &&& verdict is Ok ==> verdict->Ok_0 == result
            &&& response.error_code matches Some(code) ==> verdict == Err::<JsonTree, _>(
                refused_by_server(code, stage, transport),
            )
            &&& response.error_code is None && response.result is None ==> verdict == Err::<
                JsonTree,
                _,
            >(failed_with(McpCallProofErrorCode::ProtocolError, stage, transport))
            &&& sound && !has_form(result) ==> verdict == Err::<JsonTree, _>(
                failed_with(McpCallProofErrorCode::ProtocolError, stage, transport),
            )
            &&& sound && has_form(result) && !tells_success(result) ==> verdict == Err::<
                JsonTree,
                _,
            >(failed_with(McpCallProofErrorCode::ToolCallFailed, stage, transport))
            &&& sound && tells_success(result) && !short ==> verdict == Err::<JsonTree, _>(
                failed_with(McpCallProofErrorCode::ResponseTooLarge, stage, transport),
            )
        }),
{
}

/// A proof comes out only where the server has, in this order, agreed to the version, listed the tool
/// once with the hint that it only reads, and answered the call with a result that tells success.
/// The proof is over these two.
pub proof fn proof_rests_on_the_answers(
    call: PreparedView,
    channel: ChannelView,
    events: Seq<EventView>,
    proved: ProofView,
    session_left: bool,
)
    requires
        run(start(call, channel), events) == (StepView::Done { outcome: Ok(proved), session_left }),
    ensures
        exists|
            i: int,
            j: int,
            k: int,
            welcome: JsonTree,
            listing: JsonTree,
            result: JsonTree,
        |
            {
                &&& 0 <= i < j < k < events.len()
                &&& #[trigger] answered(events[i], 1, welcome)
                &&& part(welcome, "protocolVersion"@) == Some(JsonTree::Text("2024-11-05"@))
                &&& #[trigger] answered(events[j], 2, listing)
                &&& lists_for_reading(listing, call.tool)
                &&& #[trigger] answered(events[k], 3, result)
                &&& tells_success(result)
                &&& json_bytes(result).len() <= 1048576
                &&& proved == proof_of(call, "2024-11-05"@, listing, result)
            },
{
    proof_is_founded(call, channel, events, proved, session_left);
    let (listing, result) = choose|listing: JsonTree, result: JsonTree|
        was_called(events, call.tool, listing, result) && proved == #[trigger] proof_of(
            call,
            PROTOCOL_VERSION@,
            listing,
            result,
        );
    lemma_offers(listing, call.tool);
    let (i, welcome, j, k) = choose|i: int, welcome: JsonTree, j: int, k: int|
        0 <= i < j < k < events.len() && #[trigger] answered(
            events[i],
            INITIALIZE_REQUEST_ID,
            welcome,
        ) && crate::laws::welcomes(welcome) && #[trigger] answered(
            events[j],
            TOOLS_LIST_REQUEST_ID,
            listing,
        ) && #[trigger] answered(events[k], TOOL_CALL_REQUEST_ID, result);
    assert(answered(events[i], 1, welcome));
    assert(answered(events[j], 2, listing));
    assert(answered(events[k], 3, result));
}

/// An event is an answer to a request exactly if it is a decoded response that names the request,
/// carries no error and holds the result.
pub proof fn answer_names_its_request(event: EventView, id: u64, result: JsonTree)
    ensures
        answered(event, id, result) <==> event == EventView::Decoded(
            Some(ResponseView { id: Some(id), result: Some(result), error_code: None }),
        ),
{
}

/// The request to call a tool holds the tool and its arguments under their names, and nothing else.
pub proof fn call_holds_the_tool_and_its_arguments(
    id: u64,
    tool: Seq<char>,
    arguments: JsonTree,
    name: Seq<char>,
)
    ensures
        ({
            let request = tools_call_request(id, tool, arguments);
            let params = request.params->0;
            &&& request.id == id
            &&& request.jsonrpc == "2.0"@
            &&& request.method == "tools/call"@
            &&& request.params is Some
            &&& params is Object
            &&& part(params, "name"@) == Some(JsonTree::Text(tool))
            &&& part(params, "arguments"@) == Some(arguments)
            &&& part(params, name) is Some ==> name == "name"@ || name == "arguments"@
        }),
{
    reveal_strlit("name");
    reveal_strlit("arguments");
    assert("name"@.len() == 4 && "arguments"@.len() == 9);
}

/// The details of a failure hold its stage and its transport, and its code of the server's exactly
/// if it has one.
pub proof fn details_hold_what_is_known(error: FailureView, name: Seq<char>)
    ensures
        ({
            let details = error.details();
            &&& details is Object
            &&& part(details, "stage"@) == Some(JsonTree::Text(error.stage.name()))
            &&& part(details, "transport"@) == Some(JsonTree::Text(error.transport))
            &&& part(details, "rpc_code"@) is Some <==> error.rpc_code is Some
            &&& error.rpc_code matches Some(code) ==> part(details, "rpc_code"@) == Some(
                JsonTree::Number(NumberView::Integer(code as int)),
            )
            &&& part(details, name) is Some ==> name == "stage"@ || name == "transport"@ || name
                == "rpc_code"@
        }),
{
    reveal_strlit("stage");
    reveal_strlit("transport");
    reveal_strlit("rpc_code");
    assert("stage"@.len() == 5 && "transport"@.len() == 9 && "rpc_code"@.len() == 8);
}

/// The number of content items of a proof is that of the array which the result holds as its content,
/// whatever else the result holds, and none where it holds no such array. Its length is that of the
/// result as JSON text.
pub proof fn proof_counts_the_content(
    call: PreparedView,
    version: Seq<char>,
    tools: JsonTree,
    result: JsonTree,
)
    ensures
        part(result, "content"@) matches Some(JsonTree::Array(items)) ==> proof_of(
            call,
            version,
            tools,
            result,
        ).content_items == items.len(),
        !(part(result, "content"@) is Some && part(result, "content"@)->0 is Array) ==> proof_of(
            call,
            version,
            tools,
            result,
        ).content_items == 0,
        proof_of(call, version, tools, result).result_bytes == json_bytes(result).len(),
{
}

/// A proof names the server, the tool and the scope of the call and the version that was spoken, and
/// holds one digest each of the user, of the arguments, of the listing and of the result.
pub proof fn proof_names_and_digests(
    call: PreparedView,
    version: Seq<char>,
    tools: JsonTree,
    result: JsonTree,
)
    ensures
        ({
            let proved = proof_of(call, version, tools, result);
            &&& proved.protocol_version == version
            &&& proved.server_name == call.server_name
            &&& proved.runtime_scope_id == call.runtime_scope_id
            &&& proved.tool == call.tool
            &&& proved.authenticated_subject_sha256 == call.authenticated_subject_sha256
            &&& proved.arguments_sha256 == sha256_text(call.arguments_bytes)
            &&& proved.tools_sha256 == sha256_text(json_bytes(tools))
            &&& proved.result_sha256 == sha256_text(json_bytes(result))
            &&& proved.qualification is None
        }),
{
}

/// The digest of a proof is taken over an object that holds everything which the proof vouches for,
/// as it stands in the proof, under eight names and no others.
pub proof fn proof_digest_is_over_the_proof(
    call: PreparedView,
    version: Seq<char>,
    tools: JsonTree,
    result: JsonTree,
    name: Seq<char>,
)
    ensures
        ({
            let proved = proof_of(call, version, tools, result);
            let document = proof_document(
                call,
                version,
                proved.arguments_sha256,
                proved.tools_sha256,
                proved.result_sha256,
            );
            &&& proved.proof_sha256 == sha256_text(json_bytes(document))
            &&& document is Object
            &&& part(document, "protocol_version"@) == Some(JsonTree::Text(proved.protocol_version))
            &&& part(document, "server_name"@) == Some(JsonTree::Text(proved.server_name))
            &&& part(document, "runtime_scope_id"@) == Some(
                match proved.runtime_scope_id {
                    Some(scope) => JsonTree::Text(scope),
                    None => JsonTree::Null,
                },
            )
            &&& part(document, "tool"@) == Some(JsonTree::Text(proved.tool))
            &&& part(document, "authenticated_subject_sha256"@) == Some(
                JsonTree::Text(proved.authenticated_subject_sha256),
            )
            &&& part(document, "arguments_sha256"@) == Some(JsonTree::Text(proved.arguments_sha256))
            &&& part(document, "tools_sha256"@) == Some(JsonTree::Text(proved.tools_sha256))
            &&& part(document, "result_sha256"@) == Some(JsonTree::Text(proved.result_sha256))
            &&& part(document, name) is Some ==> {
                ||| name == "protocol_version"@
                ||| name == "server_name"@
                ||| name == "runtime_scope_id"@
                ||| name == "tool"@
                ||| name == "authenticated_subject_sha256"@
                ||| name == "arguments_sha256"@
                ||| name == "tools_sha256"@
                ||| name == "result_sha256"@
            }
        }),
{
    reveal_strlit("protocol_version");
    reveal_strlit("server_name");
    reveal_strlit("runtime_scope_id");
    reveal_strlit("tool");
    reveal_strlit("authenticated_subject_sha256");
    reveal_strlit("arguments_sha256");
    reveal_strlit("tools_sha256");
    reveal_strlit("result_sha256");
    assert("protocol_version"@.len() == 16 && "server_name"@.len() == 11
        && "runtime_scope_id"@.len() == 16 && "tool"@.len() == 4
        && "authenticated_subject_sha256"@.len() == 28 && "arguments_sha256"@.len() == 16
        && "tools_sha256"@.len() == 12 && "result_sha256"@.len() == 13);
    assert("protocol_version"@[0] == 'p' && "runtime_scope_id"@[0] == 'r' && "arguments_sha256"@[0]
        == 'a');
}

/// Whether a name is not empty and takes at most 256 bytes.
pub open spec fn fits(name: Seq<char>) -> bool {
    name.len() > 0 && encode_utf8(name).len() <= 256
}

/// A call is prepared exactly if the three names fit, the arguments are an object, and they are not
/// too long. What was asked for is then what is prepared, and the user stands in it as a digest.
pub proof fn call_is_prepared_as_asked(
    name: Seq<char>,
    tool: Seq<char>,
    arguments: JsonTree,
    arguments_bytes: Seq<u8>,
    user_id: Seq<char>,
    transport: Seq<char>,
)
    ensures
        ({
            let prepared = prepare(name, tool, arguments, arguments_bytes, user_id, transport);
            let stage = CallProofStage::Validate;
            let valid = fits(name) && fits(tool) && fits(user_id) && arguments is Object;
            &&& prepared is Ok <==> valid && arguments_bytes.len() <= 65536
            &&& prepared matches Ok(call) ==> {
                &&& call.server_name == name
                &&& call.tool == tool
                &&& call.arguments == arguments
                &&& call.arguments_bytes == arguments_bytes
                &&& call.authenticated_subject_sha256 == sha256_text(encode_utf8(user_id))
                &&& call.runtime_scope_id is None
            }
            &&& !valid ==> prepared == Err::<PreparedView, _>(
                failed_with(McpCallProofErrorCode::InvalidRequest, stage, transport),
            )
            &&& valid && arguments_bytes.len() > 65536 ==> prepared == Err::<PreparedView, _>(
                failed_with(McpCallProofErrorCode::ArgumentsTooLarge, stage, transport),
            )
        }),
{
}

} // verus!
