//! Limits, and the values that callers hand in and get back.

use std::collections::HashMap;

use vstd::prelude::*;

use crate::json::Json;
use crate::text::optional_text;

verus! {

/// How many bytes the arguments of a call may take as JSON text.
pub const MCP_CALL_PROOF_MAX_ARGUMENT_BYTES: usize = 65536;

/// How many bytes the name of a server, of a tool or of a user may take.
pub const MCP_CALL_PROOF_MAX_NAME_BYTES: usize = 256;

/// How many bytes one response of a server may take.
pub const MCP_CALL_PROOF_MAX_RESPONSE_BYTES: usize = 1048576;

/// How a server is reached.
#[derive(Debug)]
pub enum McpServerTransport {
    /// A command, spoken to over its standard streams.
    Stdio { command: String, args: Vec<String>, env: HashMap<String, String> },
    /// A URL, to which each message is posted.
    Http { url: String, headers: HashMap<String, String> },
    /// A URL that streams events and names the endpoint to post to.
    Sse { url: String, headers: HashMap<String, String> },
}

impl McpServerTransport {
    /// The name of the kind of transport.
    pub open spec fn kind_name(self) -> Seq<char> {
        match self {
            McpServerTransport::Stdio { .. } => "stdio"@,
            McpServerTransport::Http { .. } => "http"@,
            McpServerTransport::Sse { .. } => "sse"@,
        }
    }
}

/// The name of the kind of `transport`.
pub fn transport_type(transport: &McpServerTransport) -> (name: &'static str)
    ensures
        name@ == transport.kind_name(),
{
    match transport {
        McpServerTransport::Stdio { .. } => "stdio",
        McpServerTransport::Http { .. } => "http",
        McpServerTransport::Sse { .. } => "sse",
    }
}

/// What a capability is bound to.
#[derive(Debug, PartialEq, Eq)]
pub struct McpQualificationBinding {
    pub schema_version: u32,
    pub capability_sha256: String,
    pub authenticated_subject_sha256: String,
    pub conversation_sha256: String,
    pub runtime_id_sha256: String,
    pub backend_pid: u32,
    pub backend_start_time: u64,
    pub backend_executable_sha256: String,
    pub operation: String,
    pub arguments_sha256: String,
    pub run_id: String,
    pub machine_challenge_sha256: String,
    pub issued_at_ms: u64,
    pub expires_at_ms: u64,
    pub binding_sha256: String,
}

/// What a [`McpQualificationBinding`] says.
pub struct BindingView {
    pub schema_version: u32,
    pub capability_sha256: Seq<char>,
    pub authenticated_subject_sha256: Seq<char>,
    pub conversation_sha256: Seq<char>,
    pub runtime_id_sha256: Seq<char>,
    pub backend_pid: u32,
    pub backend_start_time: u64,
    pub backend_executable_sha256: Seq<char>,
    pub operation: Seq<char>,
    pub arguments_sha256: Seq<char>,
    pub run_id: Seq<char>,
    pub machine_challenge_sha256: Seq<char>,
    pub issued_at_ms: u64,
    pub expires_at_ms: u64,
    pub binding_sha256: Seq<char>,
}

impl View for McpQualificationBinding {
    type V = BindingView;

    open spec fn view(&self) -> BindingView {
        BindingView {
            schema_version: self.schema_version,
            capability_sha256: self.capability_sha256@,
            authenticated_subject_sha256: self.authenticated_subject_sha256@,
            conversation_sha256: self.conversation_sha256@,
            runtime_id_sha256: self.runtime_id_sha256@,
            backend_pid: self.backend_pid,
            backend_start_time: self.backend_start_time,
            backend_executable_sha256: self.backend_executable_sha256@,
            operation: self.operation@,
            arguments_sha256: self.arguments_sha256@,
            run_id: self.run_id@,
            machine_challenge_sha256: self.machine_challenge_sha256@,
            issued_at_ms: self.issued_at_ms,
            expires_at_ms: self.expires_at_ms,
            binding_sha256: self.binding_sha256@,
        }
    }
}

/// The proof that one tool was called: digests and counts, and nothing that the server sent.
#[derive(Debug, PartialEq, Eq)]
pub struct McpCallProofResult {
    pub protocol_version: String,
    pub server_name: String,
    pub runtime_scope_id: Option<String>,
    pub tool: String,
    pub authenticated_subject_sha256: String,
    pub arguments_sha256: String,
    pub tools_sha256: String,
    pub result_sha256: String,
    pub proof_sha256: String,
    pub result_bytes: usize,
    pub content_items: usize,
    pub qualification: Option<McpQualificationBinding>,
}

/// What a [`McpCallProofResult`] says.
pub struct ProofView {
    pub protocol_version: Seq<char>,
    pub server_name: Seq<char>,
    pub runtime_scope_id: Option<Seq<char>>,
    pub tool: Seq<char>,
    pub authenticated_subject_sha256: Seq<char>,
    pub arguments_sha256: Seq<char>,
    pub tools_sha256: Seq<char>,
    pub result_sha256: Seq<char>,
    pub proof_sha256: Seq<char>,
    pub result_bytes: nat,
    pub content_items: nat,
    pub qualification: Option<BindingView>,
}

impl View for McpCallProofResult {
    type V = ProofView;

    open spec fn view(&self) -> ProofView {
        ProofView {
            protocol_version: self.protocol_version@,
            server_name: self.server_name@,
            runtime_scope_id: optional_text(self.runtime_scope_id),
            tool: self.tool@,
            authenticated_subject_sha256: self.authenticated_subject_sha256@,
            arguments_sha256: self.arguments_sha256@,
            tools_sha256: self.tools_sha256@,
            result_sha256: self.result_sha256@,
            proof_sha256: self.proof_sha256@,
            result_bytes: self.result_bytes as nat,
            content_items: self.content_items as nat,
            qualification: match self.qualification {
                Some(binding) => Some(binding@),
                None => None,
            },
        }
    }
}

/// What a capability is asked for: one call of one tool.
#[derive(Debug)]
pub struct McpQualificationRequest {
    pub name: String,
    pub transport: McpServerTransport,
    pub tool: String,
    pub arguments: Json,
    pub run_id: String,
    pub machine_challenge: String,
}

/// A fresh capability.
#[derive(Debug, PartialEq, Eq)]
pub struct McpQualificationCapabilityResult {
    pub capability: String,
    pub expires_at_ms: u64,
}

} // verus!
