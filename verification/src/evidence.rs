//! The proof of a call.

use vstd::prelude::*;

use crate::api::{McpCallProofResult, ProofView};
use crate::digest::{sha256, sha256_text};
use crate::failure::McpCallProofFailure;
use crate::json::{json_bytes, lemma_trees, put_member, Json, JsonTree};
use crate::prepared::{PreparedCall, PreparedView};

verus! {

/// A string, or null where there is none.
pub open spec fn text_or_null(text: Option<Seq<char>>) -> JsonTree {
    match text {
        Some(s) => JsonTree::Text(s),
        None => JsonTree::Null,
    }
}

/// What the digest of a proof is taken over: everything that the proof vouches for.
pub open spec fn proof_document(
    call: PreparedView,
    protocol_version: Seq<char>,
    arguments_sha256: Seq<char>,
    tools_sha256: Seq<char>,
    result_sha256: Seq<char>,
) -> JsonTree {
    JsonTree::Object(
        Map::<Seq<char>, JsonTree>::empty()
            .insert("protocol_version"@, JsonTree::Text(protocol_version))
            .insert("server_name"@, JsonTree::Text(call.server_name))
            .insert("runtime_scope_id"@, text_or_null(call.runtime_scope_id))
            .insert("tool"@, JsonTree::Text(call.tool))
            .insert(
                "authenticated_subject_sha256"@,
                JsonTree::Text(call.authenticated_subject_sha256),
            )
            .insert("arguments_sha256"@, JsonTree::Text(arguments_sha256))
            .insert("tools_sha256"@, JsonTree::Text(tools_sha256))
            .insert("result_sha256"@, JsonTree::Text(result_sha256)),
    )
}

/// How many items of content a tool's result has.
pub open spec fn content_items(result: JsonTree) -> nat {
    match result.member("content"@) {
        Some(JsonTree::Array(items)) => items.len(),
        _ => 0,
    }
}

/// The proof of `call`, after a listing and a result.
pub open spec fn proof_of(
    call: PreparedView,
    protocol_version: Seq<char>,
    tools: JsonTree,
    result: JsonTree,
) -> ProofView {
    let arguments_sha256 = sha256_text(call.arguments_bytes);
    let tools_sha256 = sha256_text(json_bytes(tools));
    let result_sha256 = sha256_text(json_bytes(result));
    ProofView {
        protocol_version,
        server_name: call.server_name,
        runtime_scope_id: call.runtime_scope_id,
        tool: call.tool,
        authenticated_subject_sha256: call.authenticated_subject_sha256,
        arguments_sha256,
        tools_sha256,
        result_sha256,
        proof_sha256: sha256_text(
            json_bytes(
                proof_document(
                    call,
                    protocol_version,
                    arguments_sha256,
                    tools_sha256,
                    result_sha256,
                ),
            ),
        ),
        result_bytes: json_bytes(result).len(),
        content_items: content_items(result),
        qualification: None,
    }
}

/// What the digest of a proof is taken over.
pub fn proof_tuple(
    prepared: &PreparedCall,
    protocol_version: &str,
    arguments_sha256: &str,
    tools_sha256: &str,
    result_sha256: &str,
) -> (document: Json)
    ensures
        document@ == proof_document(
            prepared@,
            protocol_version@,
            arguments_sha256@,
            tools_sha256@,
            result_sha256@,
        ),
{
    let mut entries: Vec<(String, Json)> = Vec::new();
    let scope = match &prepared.runtime_scope_id {
        Some(id) => Json::Text(id.clone()),
        None => Json::Null,
    };
    put_member(&mut entries, "protocol_version", Json::Text(protocol_version.to_owned()));
    put_member(&mut entries, "server_name", Json::Text(prepared.server_name.clone()));
    put_member(&mut entries, "runtime_scope_id", scope);
    put_member(&mut entries, "tool", Json::Text(prepared.tool.clone()));
    put_member(
        &mut entries,
        "authenticated_subject_sha256",
        Json::Text(prepared.authenticated_subject_sha256.clone()),
    );
    put_member(&mut entries, "arguments_sha256", Json::Text(arguments_sha256.to_owned()));
    put_member(&mut entries, "tools_sha256", Json::Text(tools_sha256.to_owned()));
    put_member(&mut entries, "result_sha256", Json::Text(result_sha256.to_owned()));
    Json::Object(entries)
}

/// How many items of content `result` has.
pub fn count_content(result: &Json) -> (n: usize)
    ensures
        n == content_items(result@),
{
    match result.get("content") {
        Some(content) => match content.as_array() {
            Some(items) => {
                proof {
                    lemma_trees(items@);
                }
                items.len()
            },
            None => 0,
        },
        None => 0,
    }
}

/// The proof of a call that was made after `tools` was listed and that returned `result`.
pub fn build_proof(
    prepared: &PreparedCall,
    protocol_version: String,
    tools: Json,
    result: Json,
) -> (proof: Result<McpCallProofResult, McpCallProofFailure>)
    ensures
        proof is Ok,
        proof->Ok_0@ == proof_of(prepared@, protocol_version@, tools@, result@),
{
    let tools_bytes = tools.to_bytes();
    let result_bytes = result.to_bytes();
    let arguments_sha256 = sha256(prepared.arguments_bytes.as_slice());
    let tools_sha256 = sha256(tools_bytes.as_slice());
    let result_sha256 = sha256(result_bytes.as_slice());
    let document = proof_tuple(
        prepared,
        protocol_version.as_str(),
        arguments_sha256.as_str(),
        tools_sha256.as_str(),
        result_sha256.as_str(),
    );
    let proof_bytes = document.to_bytes();
    Ok(
        McpCallProofResult {
            protocol_version,
            server_name: prepared.server_name.clone(),
            runtime_scope_id: prepared.runtime_scope_id.clone(),
            tool: prepared.tool.clone(),
            authenticated_subject_sha256: prepared.authenticated_subject_sha256.clone(),
            arguments_sha256,
            tools_sha256,
            result_sha256,
            proof_sha256: sha256(proof_bytes.as_slice()),
            result_bytes: result_bytes.len(),
            content_items: count_content(&result),
            qualification: None,
        },
    )
}

} // verus!
