//! What the responses of a server must look like.

use vstd::prelude::*;

use crate::api::MCP_CALL_PROOF_MAX_RESPONSE_BYTES;
use crate::failure::{
    failure, plain_failure, CallProofStage, FailureView, McpCallProofErrorCode, McpCallProofFailure,
};
use crate::json::{json_bytes, lemma_trees, trees, Json, JsonTree};
use crate::prepared::outcome;
use crate::protocol::{JsonRpcResponse, ResponseView, PROTOCOL_VERSION};
use crate::text::same_text;

verus! {

/// A failure of the protocol in `stage`.
pub open spec fn protocol_error(stage: CallProofStage, transport: Seq<char>) -> FailureView {
    plain_failure(McpCallProofErrorCode::ProtocolError, stage, transport)
}

/// The failure for an error that the server answered with: its code is kept, its message is not.
pub open spec fn rpc_error(code: i64, stage: CallProofStage, transport: Seq<char>) -> FailureView {
    FailureView {
        code: McpCallProofErrorCode::RpcError,
        stage,
        transport,
        rpc_code: Some(code),
    }
}

/// Whether a response must be refused because it carries an error.
pub open spec fn rpc_outcome(
    response: ResponseView,
    stage: CallProofStage,
    transport: Seq<char>,
) -> Result<(), FailureView> {
    match response.error_code {
        Some(code) => Err(rpc_error(code, stage, transport)),
        None => Ok(()),
    }
}

/// Whether a response answers the request `expected`.
pub open spec fn id_outcome(
    response: ResponseView,
    expected: u64,
    stage: CallProofStage,
    transport: Seq<char>,
) -> Result<(), FailureView> {
    if response.id == Some(expected) {
        Ok(())
    } else {
        Err(protocol_error(stage, transport))
    }
}

/// What the response to `initialize` comes to: the protocol version, which must be the one that
/// is spoken.
pub open spec fn initialize_outcome(response: ResponseView, transport: Seq<char>) -> Result<
    Seq<char>,
    FailureView,
> {
    match response.error_code {
        Some(code) => Err(rpc_error(code, CallProofStage::Initialize, transport)),
        None => if response.result is Some && response.result->0.text_member("protocolVersion"@)
            == Some(PROTOCOL_VERSION@) {
            Ok(PROTOCOL_VERSION@)
        } else {
            Err(protocol_error(CallProofStage::Initialize, transport))
        },
    }
}

/// Whether a listed tool has the name `tool`.
pub open spec fn named(tool: Seq<char>) -> spec_fn(JsonTree) -> bool {
    |listed: JsonTree| listed.text_member("name"@) == Some(tool)
}

/// Whether a listed tool declares that it only reads.
pub open spec fn read_only(listed: JsonTree) -> bool {
    match listed.member("annotations"@) {
        Some(annotations) => annotations.member("readOnlyHint"@) == Some(JsonTree::Bool(true)),
        None => false,
    }
}

/// Whether a listing offers `tool` exactly once, and for reading only.
pub open spec fn offers(listing: JsonTree, tool: Seq<char>) -> bool {
    &&& json_bytes(listing).len() <= MCP_CALL_PROOF_MAX_RESPONSE_BYTES
    &&& listing.member("tools"@) matches Some(JsonTree::Array(tools))
    &&& tools.filter(named(tool)).len() == 1
    &&& read_only(tools.filter(named(tool))[0])
}

/// What a listing that takes `size` bytes as JSON text comes to, if `tool` is asked for.
pub open spec fn listing_outcome(
    listing: JsonTree,
    size: nat,
    tool: Seq<char>,
    transport: Seq<char>,
) -> Result<(), FailureView> {
    let stage = CallProofStage::ToolsList;
    if size > MCP_CALL_PROOF_MAX_RESPONSE_BYTES {
        Err(plain_failure(McpCallProofErrorCode::ResponseTooLarge, stage, transport))
    } else {
        match listing.member("tools"@) {
            Some(JsonTree::Array(tools)) => {
                let found = tools.filter(named(tool));
                if found.len() == 0 {
                    Err(plain_failure(McpCallProofErrorCode::ToolNotFound, stage, transport))
                } else if found.len() != 1 {
                    Err(protocol_error(stage, transport))
                } else if !read_only(found[0]) {
                    Err(plain_failure(McpCallProofErrorCode::ToolNotReadOnly, stage, transport))
                } else {
                    Ok(())
                }
            },
            _ => Err(protocol_error(stage, transport)),
        }
    }
}

/// What the response to `tools/list` comes to: the listing, which must offer `tool`.
pub open spec fn tools_list_outcome(
    response: ResponseView,
    tool: Seq<char>,
    transport: Seq<char>,
) -> Result<JsonTree, FailureView> {
    match (response.error_code, response.result) {
        (Some(code), _) => Err(rpc_error(code, CallProofStage::ToolsList, transport)),
        (None, None) => Err(protocol_error(CallProofStage::ToolsList, transport)),
        (None, Some(listing)) => match listing_outcome(
            listing,
            json_bytes(listing).len(),
            tool,
            transport,
        ) {
            Ok(()) => Ok(listing),
            Err(error) => Err(error),
        },
    }
}

/// Whether `result` has the form of a tool's result.
pub open spec fn call_result_form(result: JsonTree) -> bool {
    &&& result is Object
    &&& {
        ||| result.member("content"@) is Some
        ||| result.member("structuredContent"@) is Some
        ||| result.member("isError"@) is Some
        ||| result.member("_meta"@) is Some
    }
    &&& result.member("content"@) is Some ==> result.member("content"@)->0 is Array
    &&& result.member("isError"@) is Some ==> result.member("isError"@)->0 is Bool
}

/// What a tool's result that takes `size` bytes as JSON text comes to.
pub open spec fn call_result_outcome(result: JsonTree, size: nat, transport: Seq<char>) -> Result<
    (),
    FailureView,
> {
    let stage = CallProofStage::ToolsCall;
    if !call_result_form(result) {
        Err(protocol_error(stage, transport))
    } else if result.member("isError"@) == Some(JsonTree::Bool(true)) {
        Err(plain_failure(McpCallProofErrorCode::ToolCallFailed, stage, transport))
    } else if size > MCP_CALL_PROOF_MAX_RESPONSE_BYTES {
        Err(plain_failure(McpCallProofErrorCode::ResponseTooLarge, stage, transport))
    } else {
        Ok(())
    }
}

/// What the response to `tools/call` comes to: the result of the tool.
pub open spec fn tool_call_outcome(response: ResponseView, transport: Seq<char>) -> Result<
    JsonTree,
    FailureView,
> {
    match (response.error_code, response.result) {
        (Some(code), _) => Err(rpc_error(code, CallProofStage::ToolsCall, transport)),
        (None, None) => Err(protocol_error(CallProofStage::ToolsCall, transport)),
        (None, Some(result)) => match call_result_outcome(
            result,
            json_bytes(result).len(),
            transport,
        ) {
            Ok(()) => Ok(result),
            Err(error) => Err(error),
        },
    }
}

/// Refuses a response that carries an error.
pub fn reject_rpc_error(
    response: &JsonRpcResponse,
    stage: CallProofStage,
    transport: &'static str,
) -> (r: Result<(), McpCallProofFailure>)
    ensures
        outcome(r) == rpc_outcome(response@, stage, transport@),
{
    if let Some(error) = &response.error {
        return Err(
            McpCallProofFailure {
                code: McpCallProofErrorCode::RpcError,
                stage,
                transport,
                rpc_code: Some(error.code),
            },
        );
    }
    Ok(())
}

/// Refuses a response to another request than `expected`.
pub fn expect_response_id(
    response: &JsonRpcResponse,
    expected: u64,
    stage: CallProofStage,
    transport: &'static str,
) -> (r: Result<(), McpCallProofFailure>)
    ensures
        outcome(r) == id_outcome(response@, expected, stage, transport@),
{
    match response.id {
        Some(id) if id == expected => Ok(()),
        _ => Err(failure(McpCallProofErrorCode::ProtocolError, stage, transport)),
    }
}

/// The protocol version in the response to `initialize`.
pub fn validate_initialize(response: &JsonRpcResponse, transport: &'static str) -> (r: Result<
    String,
    McpCallProofFailure,
>)
    ensures
        outcome(r) == initialize_outcome(response@, transport@),
{
    if let Err(error) = reject_rpc_error(response, CallProofStage::Initialize, transport) {
        return Err(error);
    }
    if let Some(result) = &response.result {
        if let Some(member) = result.get("protocolVersion") {
            if let Some(version) = member.as_str() {
                if same_text(version, PROTOCOL_VERSION) {
                    return Ok(version.to_owned());
                }
            }
        }
    }
    Err(failure(McpCallProofErrorCode::ProtocolError, CallProofStage::Initialize, transport))
}

/// Whether `listed` has the name `tool`.
fn is_named(listed: &Json, tool: &str) -> (r: bool)
    ensures
        r == named(tool@)(listed@),
{
    match listed.get("name") {
        Some(member) => match member.as_str() {
            Some(name) => same_text(name, tool),
            None => false,
        },
        None => false,
    }
}

/// Whether `listed` declares that it only reads.
fn is_read_only(listed: &Json) -> (r: bool)
    ensures
        r == read_only(listed@),
{
    match listed.get("annotations") {
        Some(annotations) => match annotations.get("readOnlyHint") {
            Some(hint) => match hint.as_bool() {
                Some(truth) => truth,
                None => false,
            },
            None => false,
        },
        None => false,
    }
}

/// The positions of the tools of the name `tool`.
fn positions_of(tools: &Vec<Json>, tool: &str) -> (found: Vec<usize>)
    ensures
        found@.len() == trees(tools@).filter(named(tool@)).len(),
        forall|k: int|
            0 <= k < found@.len() ==> #[trigger] found@[k] < tools@.len() && tools@[found@[k] as int]@
                == trees(tools@).filter(named(tool@))[k],
{
    let mut found: Vec<usize> = Vec::new();
    let ghost all = trees(tools@);
    let ghost wanted = named(tool@);
    proof {
        lemma_trees(tools@);
        reveal(Seq::filter);
        assert(all.take(0).filter(wanted) =~= Seq::empty());
    }
    let mut i: usize = 0;
    while i < tools.len()
        invariant
            i <= tools.len(),
            all == trees(tools@),
            wanted == named(tool@),
            all.len() == tools@.len(),
            forall|k: int| 0 <= k < tools@.len() ==> #[trigger] all[k] == tools@[k]@,
            found@.len() == all.take(i as int).filter(wanted).len(),
            forall|k: int|
                0 <= k < found@.len() ==> #[trigger] found@[k] < tools@.len()
                    && tools@[found@[k] as int]@ == all.take(i as int).filter(wanted)[k],
        decreases tools.len() - i,
    {
        proof {
            reveal(Seq::filter);
            assert(all.take(i + 1).drop_last() =~= all.take(i as int));
            assert(all.take(i + 1).last() == all[i as int]);
        }
        if is_named(&tools[i], tool) {
            found.push(i);
        }
        i = i + 1;
    }
    assert(all.take(all.len() as int) =~= all);
    found
}

/// Checks a listing that takes `size` bytes as JSON text: it must offer `requested_tool` exactly
/// once and for reading only.
pub fn check_listing(
    listing: &Json,
    size: usize,
    requested_tool: &str,
    transport: &'static str,
) -> (r: Result<(), McpCallProofFailure>)
    ensures
        outcome(r) == listing_outcome(listing@, size as nat, requested_tool@, transport@),
{
    let stage = CallProofStage::ToolsList;
    if size > MCP_CALL_PROOF_MAX_RESPONSE_BYTES {
        return Err(failure(McpCallProofErrorCode::ResponseTooLarge, stage, transport));
    }
    let listed = match listing.get("tools") {
        Some(member) => member.as_array(),
        None => None,
    };
    let tools = match listed {
        Some(tools) => tools,
        None => return Err(failure(McpCallProofErrorCode::ProtocolError, stage, transport)),
    };
    let matches = positions_of(tools, requested_tool);
    if matches.len() == 0 {
        return Err(failure(McpCallProofErrorCode::ToolNotFound, stage, transport));
    }
    if matches.len() != 1 {
        return Err(failure(McpCallProofErrorCode::ProtocolError, stage, transport));
    }
    if !is_read_only(&tools[matches[0]]) {
        return Err(failure(McpCallProofErrorCode::ToolNotReadOnly, stage, transport));
    }
    Ok(())
}

/// The listing in the response to `tools/list`, which must offer `requested_tool` exactly once
/// and for reading only.
pub fn validate_tools_list(
    response: &JsonRpcResponse,
    requested_tool: &str,
    transport: &'static str,
) -> (r: Result<Json, McpCallProofFailure>)
    ensures
        outcome(r) == tools_list_outcome(response@, requested_tool@, transport@),
{
    if let Err(error) = reject_rpc_error(response, CallProofStage::ToolsList, transport) {
        return Err(error);
    }
    let result = match &response.result {
        Some(result) => result,
        None => return Err(
            failure(McpCallProofErrorCode::ProtocolError, CallProofStage::ToolsList, transport),
        ),
    };
    let bytes = result.to_bytes();
    if let Err(error) = check_listing(result, bytes.len(), requested_tool, transport) {
        return Err(error);
    }
    Ok(result.clone())
}

/// Whether `result` has the form of a tool's result.
fn has_call_result_form(result: &Json) -> (r: bool)
    ensures
        r == call_result_form(result@),
{
    if !result.is_object() {
        return false;
    }
    let content = result.get("content");
    let is_error = result.get("isError");
    if content.is_none() && is_error.is_none() && result.get("structuredContent").is_none()
        && result.get("_meta").is_none() {
        return false;
    }
    if let Some(content) = content {
        if content.as_array().is_none() {
            return false;
        }
    }
    if let Some(is_error) = is_error {
        if is_error.as_bool().is_none() {
            return false;
        }
    }
    true
}

/// Checks a tool's result that takes `size` bytes as JSON text.
pub fn check_call_result(result: &Json, size: usize, transport: &'static str) -> (r: Result<
    (),
    McpCallProofFailure,
>)
    ensures
        outcome(r) == call_result_outcome(result@, size as nat, transport@),
{
    let stage = CallProofStage::ToolsCall;
    if !has_call_result_form(result) {
        return Err(failure(McpCallProofErrorCode::ProtocolError, stage, transport));
    }
    if let Some(member) = result.get("isError") {
        if let Some(true) = member.as_bool() {
            return Err(failure(McpCallProofErrorCode::ToolCallFailed, stage, transport));
        }
    }
    if size > MCP_CALL_PROOF_MAX_RESPONSE_BYTES {
        return Err(failure(McpCallProofErrorCode::ResponseTooLarge, stage, transport));
    }
    Ok(())
}

/// The result of the tool in the response to `tools/call`.
pub fn validate_tool_call(response: &JsonRpcResponse, transport: &'static str) -> (r: Result<
    Json,
    McpCallProofFailure,
>)
    ensures
        outcome(r) == tool_call_outcome(response@, transport@),
{
    if let Err(error) = reject_rpc_error(response, CallProofStage::ToolsCall, transport) {
        return Err(error);
    }
    let result = match &response.result {
        Some(result) => result,
        None => return Err(
            failure(McpCallProofErrorCode::ProtocolError, CallProofStage::ToolsCall, transport),
        ),
    };
    let bytes = result.to_bytes();
    if let Err(error) = check_call_result(result, bytes.len(), transport) {
        return Err(error);
    }
    Ok(result.clone())
}

} // verus!
