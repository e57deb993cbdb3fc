//! A call that has passed the checks made before any transport is opened.

use vstd::prelude::*;

use crate::api::{MCP_CALL_PROOF_MAX_ARGUMENT_BYTES, MCP_CALL_PROOF_MAX_NAME_BYTES};
use crate::digest::{sha256, sha256_text};
use crate::failure::{
    failure, plain_failure, CallProofStage, FailureView, McpCallProofErrorCode, McpCallProofFailure,
};
use crate::json::{json_bytes, Json, JsonTree};
use crate::text::{byte_len, optional_text, utf8_len};
use vstd::utf8::encode_utf8;

verus! {

/// A call that may be made.
#[derive(Debug)]
pub struct PreparedCall {
    pub server_name: String,
    pub tool: String,
    pub arguments: Json,
    pub arguments_bytes: Vec<u8>,
    pub authenticated_subject_sha256: String,
    pub runtime_scope_id: Option<String>,
}

/// What a [`PreparedCall`] says.
pub struct PreparedView {
    pub server_name: Seq<char>,
    pub tool: Seq<char>,
    pub arguments: JsonTree,
    pub arguments_bytes: Seq<u8>,
    pub authenticated_subject_sha256: Seq<char>,
    pub runtime_scope_id: Option<Seq<char>>,
}

impl View for PreparedCall {
    type V = PreparedView;

    open spec fn view(&self) -> PreparedView {
        PreparedView {
            server_name: self.server_name@,
            tool: self.tool@,
            arguments: self.arguments@,
            arguments_bytes: self.arguments_bytes@,
            authenticated_subject_sha256: self.authenticated_subject_sha256@,
            runtime_scope_id: optional_text(self.runtime_scope_id),
        }
    }
}

/// What an operation of the call proof came to.
pub open spec fn outcome<T: View>(result: Result<T, McpCallProofFailure>) -> Result<
    T::V,
    FailureView,
> {
    match result {
        Ok(value) => Ok(value@),
        Err(error) => Err(error@),
    }
}

/// Whether `name` may name a server, a tool or a user.
pub open spec fn acceptable_name(name: Seq<char>) -> bool {
    name.len() > 0 && utf8_len(name) <= MCP_CALL_PROOF_MAX_NAME_BYTES
}

/// What preparing a call comes to whose arguments are `arguments_bytes` as JSON text.
pub open spec fn prepare(
    name: Seq<char>,
    tool: Seq<char>,
    arguments: JsonTree,
    arguments_bytes: Seq<u8>,
    authenticated_user_id: Seq<char>,
    transport: Seq<char>,
) -> Result<PreparedView, FailureView> {
    if !(acceptable_name(name) && acceptable_name(tool) && acceptable_name(authenticated_user_id)
        && arguments is Object) {
        Err(
            plain_failure(
                McpCallProofErrorCode::InvalidRequest,
                CallProofStage::Validate,
                transport,
            ),
        )
    } else if arguments_bytes.len() > MCP_CALL_PROOF_MAX_ARGUMENT_BYTES {
        Err(
            plain_failure(
                McpCallProofErrorCode::ArgumentsTooLarge,
                CallProofStage::Validate,
                transport,
            ),
        )
    } else {
        Ok(
            PreparedView {
                server_name: name,
                tool,
                arguments,
                arguments_bytes,
                authenticated_subject_sha256: sha256_text(encode_utf8(authenticated_user_id)),
                runtime_scope_id: None,
            },
        )
    }
}

fn is_acceptable_name(name: &str) -> (r: bool)
    ensures
        r == acceptable_name(name@),
{
    !name.is_empty() && byte_len(name) <= MCP_CALL_PROOF_MAX_NAME_BYTES
}

impl PreparedCall {
    /// Checks the names and the arguments of a call, which belongs to no runtime scope yet.
    pub fn new(
        name: &str,
        tool: &str,
        arguments: Json,
        authenticated_user_id: &str,
        transport: &'static str,
    ) -> (prepared: Result<PreparedCall, McpCallProofFailure>)
        ensures
            outcome(prepared) == prepare(
                name@,
                tool@,
                arguments@,
                json_bytes(arguments@),
                authenticated_user_id@,
                transport@,
            ),
    {
        let arguments_bytes = arguments.to_bytes();
        Self::from_bytes(name, tool, arguments, arguments_bytes, authenticated_user_id, transport)
    }

    /// Checks the names and the arguments of a call whose arguments are `arguments_bytes` as JSON
    /// text.
    pub fn from_bytes(
        name: &str,
        tool: &str,
        arguments: Json,
        arguments_bytes: Vec<u8>,
        authenticated_user_id: &str,
        transport: &'static str,
    ) -> (prepared: Result<PreparedCall, McpCallProofFailure>)
        ensures
            outcome(prepared) == prepare(
                name@,
                tool@,
                arguments@,
                arguments_bytes@,
                authenticated_user_id@,
                transport@,
            ),
    {
        if !is_acceptable_name(name) || !is_acceptable_name(tool) || !is_acceptable_name(
            authenticated_user_id,
        ) || !arguments.is_object() {
            return Err(
                failure(
                    McpCallProofErrorCode::InvalidRequest,
                    CallProofStage::Validate,
                    transport,
                ),
            );
        }
        if arguments_bytes.len() > MCP_CALL_PROOF_MAX_ARGUMENT_BYTES {
            return Err(
                failure(
                    McpCallProofErrorCode::ArgumentsTooLarge,
                    CallProofStage::Validate,
                    transport,
                ),
            );
        }
        Ok(
            PreparedCall {
                server_name: name.to_owned(),
                tool: tool.to_owned(),
                arguments,
                arguments_bytes,
                authenticated_subject_sha256: sha256(authenticated_user_id.as_bytes()),
                runtime_scope_id: None,
            },
        )
    }

    /// The same call within a runtime scope, if there is one.
    pub fn with_runtime_scope(self, runtime_scope_id: Option<&str>) -> (scoped: PreparedCall)
        ensures
            scoped@ == (PreparedView {
                runtime_scope_id: match runtime_scope_id {
                    Some(id) => Some(id@),
                    None => None,
                },
                ..self@
            }),
    {
        let runtime_scope_id = match runtime_scope_id {
            Some(id) => Some(id.to_owned()),
            None => None,
        };
        PreparedCall { runtime_scope_id, ..self }
    }
}

} // verus!
