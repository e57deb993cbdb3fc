//! What a capability is asked for and what it is bound to.

use vstd::prelude::*;
use vstd::utf8::encode_utf8;

use crate::api::{BindingView, McpQualificationBinding, McpQualificationRequest};
use crate::backend::{BackendIdentity, IdentityView};
use crate::digest::{sha256, sha256_text};
use crate::json::{json_bytes, put_member, Json, JsonTree, NumberView};
use crate::text::{blank, byte_len, is_blank, joined, utf8_len};
use crate::verdict::{verdict, QualificationError, QualificationErrorView};

verus! {

/// For how many milliseconds a capability is valid.
pub const CAPABILITY_TTL_MS: u64 = 30_000;

/// How many bytes each text of a request may take.
pub const MAX_BINDING_BYTES: usize = 1024;

/// The version of the binding's layout.
pub const BINDING_SCHEMA_VERSION: u32 = 1;

/// Whether `text` may stand in a request.
pub open spec fn acceptable_text(text: Seq<char>) -> bool {
    !blank(text) && utf8_len(text) <= MAX_BINDING_BYTES
}

/// Whether a capability may be asked for with `request`.
pub open spec fn acceptable_request(request: McpQualificationRequest) -> bool {
    &&& acceptable_text(request.name@)
    &&& acceptable_text(request.tool@)
    &&& acceptable_text(request.run_id@)
    &&& acceptable_text(request.machine_challenge@)
    &&& request.arguments@ is Object
}

/// What checking `request` comes to.
pub open spec fn request_outcome(request: McpQualificationRequest) -> Result<
    (),
    QualificationErrorView,
> {
    if acceptable_request(request) {
        Ok(())
    } else {
        Err(QualificationErrorView::Invalid)
    }
}

fn is_acceptable_text(text: &str) -> (r: bool)
    ensures
        r == acceptable_text(text@),
{
    !is_blank(text) && byte_len(text) <= MAX_BINDING_BYTES
}

/// Checks what a capability is asked for.
pub fn validate_binding_input(request: &McpQualificationRequest) -> (r: Result<
    (),
    QualificationError,
>)
    ensures
        verdict(r) == request_outcome(*request),
{
    if !is_acceptable_text(request.name.as_str()) || !is_acceptable_text(request.tool.as_str())
        || !is_acceptable_text(request.run_id.as_str()) || !is_acceptable_text(
        request.machine_challenge.as_str(),
    ) || !request.arguments.is_object() {
        return Err(QualificationError::Invalid);
    }
    Ok(())
}

/// A whole number as JSON.
pub open spec fn integer_tree(n: int) -> JsonTree {
    JsonTree::Number(NumberView::Integer(n))
}

/// What the digest of a binding is taken over: everything else that stands in the binding.
pub open spec fn binding_document(binding: BindingView) -> JsonTree {
    JsonTree::Object(
        Map::<Seq<char>, JsonTree>::empty()
            .insert("arguments_sha256"@, JsonTree::Text(binding.arguments_sha256))
            .insert(
                "authenticated_subject_sha256"@,
                JsonTree::Text(binding.authenticated_subject_sha256),
            )
            .insert(
                "backend_executable_sha256"@,
                JsonTree::Text(binding.backend_executable_sha256),
            )
            .insert("backend_pid"@, integer_tree(binding.backend_pid as int))
            .insert("backend_start_time"@, integer_tree(binding.backend_start_time as int))
            .insert("capability_sha256"@, JsonTree::Text(binding.capability_sha256))
            .insert("conversation_sha256"@, JsonTree::Text(binding.conversation_sha256))
            .insert("expires_at_ms"@, integer_tree(binding.expires_at_ms as int))
            .insert("issued_at_ms"@, integer_tree(binding.issued_at_ms as int))
            .insert("machine_challenge_sha256"@, JsonTree::Text(binding.machine_challenge_sha256))
            .insert("operation"@, JsonTree::Text(binding.operation))
            .insert("run_id"@, JsonTree::Text(binding.run_id))
            .insert("runtime_id_sha256"@, JsonTree::Text(binding.runtime_id_sha256))
            .insert("schema_version"@, integer_tree(binding.schema_version as int)),
    )
}

/// The digest of `binding`.
pub open spec fn binding_digest(binding: BindingView) -> Seq<char> {
    sha256_text(json_bytes(binding_document(binding)))
}

/// What the digest of `binding` is taken over.
pub fn binding_tuple(binding: &McpQualificationBinding) -> (document: Json)
    ensures
        document@ == binding_document(binding@),
{
    let mut entries: Vec<(String, Json)> = Vec::new();
    put_member(&mut entries, "arguments_sha256", Json::Text(binding.arguments_sha256.clone()));
    put_member(
        &mut entries,
        "authenticated_subject_sha256",
        Json::Text(binding.authenticated_subject_sha256.clone()),
    );
    put_member(
        &mut entries,
        "backend_executable_sha256",
        Json::Text(binding.backend_executable_sha256.clone()),
    );
    put_member(&mut entries, "backend_pid", Json::Unsigned(binding.backend_pid as u64));
    put_member(&mut entries, "backend_start_time", Json::Unsigned(binding.backend_start_time));
    put_member(&mut entries, "capability_sha256", Json::Text(binding.capability_sha256.clone()));
    put_member(
        &mut entries,
        "conversation_sha256",
        Json::Text(binding.conversation_sha256.clone()),
    );
    put_member(&mut entries, "expires_at_ms", Json::Unsigned(binding.expires_at_ms));
    put_member(&mut entries, "issued_at_ms", Json::Unsigned(binding.issued_at_ms));
    put_member(
        &mut entries,
        "machine_challenge_sha256",
        Json::Text(binding.machine_challenge_sha256.clone()),
    );
    put_member(&mut entries, "operation", Json::Text(binding.operation.clone()));
    put_member(&mut entries, "run_id", Json::Text(binding.run_id.clone()));
    put_member(&mut entries, "runtime_id_sha256", Json::Text(binding.runtime_id_sha256.clone()));
    put_member(&mut entries, "schema_version", Json::Unsigned(binding.schema_version as u64));
    Json::Object(entries)
}

/// The digest of `binding`.
pub fn qualification_binding_sha256(binding: &McpQualificationBinding) -> (digest: String)
    ensures
        digest@ == binding_digest(binding@),
{
    let document = binding_tuple(binding);
    sha256(document.to_bytes().as_slice())
}

/// When a capability that is issued at `issued_at_ms` expires.
pub open spec fn expiry(issued_at_ms: u64) -> u64 {
    if issued_at_ms + CAPABILITY_TTL_MS > u64::MAX {
        u64::MAX
    } else {
        (issued_at_ms + CAPABILITY_TTL_MS) as u64
    }
}

/// What `capability` is bound to where `user_id` gets it at `issued_at_ms` from the backend
/// `identity`. The arguments of the request are `arguments_bytes` as JSON text.
pub open spec fn binding_of(
    user_id: Seq<char>,
    conversation_id: Seq<char>,
    request: McpQualificationRequest,
    arguments_bytes: Seq<u8>,
    identity: IdentityView,
    issued_at_ms: u64,
    capability: Seq<char>,
) -> BindingView {
    let undigested = BindingView {
        schema_version: BINDING_SCHEMA_VERSION,
        capability_sha256: sha256_text(encode_utf8(capability)),
        authenticated_subject_sha256: sha256_text(encode_utf8(user_id)),
        conversation_sha256: sha256_text(encode_utf8(conversation_id)),
        runtime_id_sha256: identity.runtime_id_sha256,
        backend_pid: identity.pid,
        backend_start_time: identity.start_time,
        backend_executable_sha256: identity.executable_sha256,
        operation: "tools/call:"@ + request.tool@,
        arguments_sha256: sha256_text(arguments_bytes),
        run_id: request.run_id@,
        machine_challenge_sha256: sha256_text(encode_utf8(request.machine_challenge@)),
        issued_at_ms,
        expires_at_ms: expiry(issued_at_ms),
        binding_sha256: Seq::empty(),
    };
    BindingView { binding_sha256: binding_digest(undigested), ..undigested }
}

/// Binds `capability` to what it is asked for.
pub fn bind(
    user_id: &str,
    conversation_id: &str,
    request: &McpQualificationRequest,
    arguments_bytes: &[u8],
    identity: BackendIdentity,
    issued_at_ms: u64,
    capability: &str,
) -> (binding: McpQualificationBinding)
    ensures
        binding@ == binding_of(
            user_id@,
            conversation_id@,
            *request,
            arguments_bytes@,
            identity@,
            issued_at_ms,
            capability@,
        ),
{
    let mut binding = McpQualificationBinding {
        schema_version: BINDING_SCHEMA_VERSION,
        capability_sha256: sha256(capability.as_bytes()),
        authenticated_subject_sha256: sha256(user_id.as_bytes()),
        conversation_sha256: sha256(conversation_id.as_bytes()),
        runtime_id_sha256: identity.runtime_id_sha256,
        backend_pid: identity.pid,
        backend_start_time: identity.start_time,
        backend_executable_sha256: identity.executable_sha256,
        operation: joined("tools/call:", request.tool.as_str()),
        arguments_sha256: sha256(arguments_bytes),
        run_id: request.run_id.clone(),
        machine_challenge_sha256: sha256(request.machine_challenge.as_str().as_bytes()),
        issued_at_ms,
        expires_at_ms: issued_at_ms.saturating_add(CAPABILITY_TTL_MS),
        binding_sha256: String::new(),
    };
    assert(binding.binding_sha256@ =~= Seq::empty());
    binding.binding_sha256 = qualification_binding_sha256(&binding);
    binding
}

} // verus!
