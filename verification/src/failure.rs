//! Why a call proof failed. A failure says in which stage and over which transport, never what
//! the server sent.

use vstd::prelude::*;

use crate::json::{put_member, Json, JsonTree, NumberView};

verus! {

/// What went wrong.
#[derive(Debug, Clone, Copy, PartialEq, Eq, Structural)]
pub enum McpCallProofErrorCode {
    InvalidRequest,
    ArgumentsTooLarge,
    ResponseTooLarge,
    CommandNotFound,
    CommandPermissionDenied,
    CommandStartFailed,
    ProcessCleanupFailed,
    ConnectionFailed,
    HttpError,
    RedirectRejected,
    Timeout,
    RpcError,
    ProtocolError,
    ToolNotFound,
    ToolNotReadOnly,
    ToolCallFailed,
}

/// How far the call had come.
#[derive(Debug, Clone, Copy, PartialEq, Eq, Structural)]
pub enum CallProofStage {
    Validate,
    Spawn,
    Connect,
    Initialize,
    Initialized,
    ToolsList,
    ToolsCall,
    Endpoint,
    Cleanup,
}

impl CallProofStage {
    /// The name of a stage.
    pub open spec fn name(self) -> Seq<char> {
        match self {
            CallProofStage::Validate => "validate"@,
            CallProofStage::Spawn => "spawn"@,
            CallProofStage::Connect => "connect"@,
            CallProofStage::Initialize => "initialize"@,
            CallProofStage::Initialized => "initialized"@,
            CallProofStage::ToolsList => "tools_list"@,
            CallProofStage::ToolsCall => "tools_call"@,
            CallProofStage::Endpoint => "endpoint"@,
            CallProofStage::Cleanup => "cleanup"@,
        }
    }

    /// The name of this stage.
    pub fn as_str(self) -> (name: &'static str)
        ensures
            name@ == self.name(),
    {
        match self {
            CallProofStage::Validate => "validate",
            CallProofStage::Spawn => "spawn",
            CallProofStage::Connect => "connect",
            CallProofStage::Initialize => "initialize",
            CallProofStage::Initialized => "initialized",
            CallProofStage::ToolsList => "tools_list",
            CallProofStage::ToolsCall => "tools_call",
            CallProofStage::Endpoint => "endpoint",
            CallProofStage::Cleanup => "cleanup",
        }
    }
}

/// A failed call proof.
#[derive(Debug)]
pub struct McpCallProofFailure {
    pub code: McpCallProofErrorCode,
    pub stage: CallProofStage,
    pub transport: &'static str,
    pub rpc_code: Option<i64>,
}

/// What a failure says.
pub struct FailureView {
    pub code: McpCallProofErrorCode,
    pub stage: CallProofStage,
    pub transport: Seq<char>,
    pub rpc_code: Option<i64>,
}

impl View for McpCallProofFailure {
    type V = FailureView;

    open spec fn view(&self) -> FailureView {
        FailureView {
            code: self.code,
            stage: self.stage,
            transport: self.transport@,
            rpc_code: self.rpc_code,
        }
    }
}

/// The failure with no code of the server in it.
pub open spec fn plain_failure(
    code: McpCallProofErrorCode,
    stage: CallProofStage,
    transport: Seq<char>,
) -> FailureView {
    FailureView { code, stage, transport, rpc_code: None }
}

/// The sentence for a code.
pub open spec fn code_message(code: McpCallProofErrorCode) -> Seq<char> {
    match code {
        McpCallProofErrorCode::InvalidRequest => "Invalid MCP call proof request"@,
        McpCallProofErrorCode::ArgumentsTooLarge => "MCP tool arguments exceed the allowed size"@,
        McpCallProofErrorCode::ResponseTooLarge => "MCP server response exceeds the allowed size"@,
        McpCallProofErrorCode::CommandNotFound => "MCP server command was not found"@,
        McpCallProofErrorCode::CommandPermissionDenied => "MCP server command cannot be executed"@,
        McpCallProofErrorCode::CommandStartFailed => "MCP server command failed to start"@,
        McpCallProofErrorCode::ProcessCleanupFailed => "MCP transport cleanup failed"@,
        McpCallProofErrorCode::ConnectionFailed => "MCP server connection failed"@,
        McpCallProofErrorCode::HttpError => "MCP server returned an HTTP error"@,
        McpCallProofErrorCode::RedirectRejected => "MCP transport redirect was rejected"@,
        McpCallProofErrorCode::Timeout => "MCP call proof timed out"@,
        McpCallProofErrorCode::RpcError => "MCP server returned a JSON-RPC error"@,
        McpCallProofErrorCode::ProtocolError => "MCP server returned an invalid protocol response"@,
        McpCallProofErrorCode::ToolNotFound => "Requested MCP tool was not advertised"@,
        McpCallProofErrorCode::ToolNotReadOnly => "Requested MCP tool is not declared read-only"@,
        McpCallProofErrorCode::ToolCallFailed => "MCP tool call reported failure"@,
    }
}

impl FailureView {
    /// The members of the details: the stage, the transport, and the server's error code where
    /// there is one.
    pub open spec fn details(self) -> JsonTree {
        let named = Map::<Seq<char>, JsonTree>::empty().insert(
            "stage"@,
            JsonTree::Text(self.stage.name()),
        ).insert("transport"@, JsonTree::Text(self.transport));
        JsonTree::Object(
            match self.rpc_code {
                Some(code) => named.insert("rpc_code"@, JsonTree::Number(NumberView::Integer(code as int))),
                None => named,
            },
        )
    }
}

impl McpCallProofFailure {
    /// What went wrong.
    pub fn code(&self) -> (code: McpCallProofErrorCode)
        ensures
            code == self@.code,
    {
        self.code
    }

    /// A sentence that says what went wrong.
    pub fn message(&self) -> (message: &'static str)
        ensures
            message@ == code_message(self@.code),
    {
        match self.code {
            McpCallProofErrorCode::InvalidRequest => "Invalid MCP call proof request",
            McpCallProofErrorCode::ArgumentsTooLarge => "MCP tool arguments exceed the allowed size",
            McpCallProofErrorCode::ResponseTooLarge => "MCP server response exceeds the allowed size",
            McpCallProofErrorCode::CommandNotFound => "MCP server command was not found",
            McpCallProofErrorCode::CommandPermissionDenied => "MCP server command cannot be executed",
            McpCallProofErrorCode::CommandStartFailed => "MCP server command failed to start",
            McpCallProofErrorCode::ProcessCleanupFailed => "MCP transport cleanup failed",
            McpCallProofErrorCode::ConnectionFailed => "MCP server connection failed",
            McpCallProofErrorCode::HttpError => "MCP server returned an HTTP error",
            McpCallProofErrorCode::RedirectRejected => "MCP transport redirect was rejected",
            McpCallProofErrorCode::Timeout => "MCP call proof timed out",
            McpCallProofErrorCode::RpcError => "MCP server returned a JSON-RPC error",
            McpCallProofErrorCode::ProtocolError => "MCP server returned an invalid protocol response",
            McpCallProofErrorCode::ToolNotFound => "Requested MCP tool was not advertised",
            McpCallProofErrorCode::ToolNotReadOnly => "Requested MCP tool is not declared read-only",
            McpCallProofErrorCode::ToolCallFailed => "MCP tool call reported failure",
        }
    }

    /// The details, as a JSON object.
    pub fn details(&self) -> (details: Json)
        ensures
            details@ == self@.details(),
    {
        let mut entries: Vec<(String, Json)> = Vec::new();
        put_member(&mut entries, "stage", Json::Text(self.stage.as_str().to_owned()));
        put_member(&mut entries, "transport", Json::Text(self.transport.to_owned()));
        if let Some(code) = self.rpc_code {
            put_member(&mut entries, "rpc_code", Json::Signed(code));
        }
        Json::Object(entries)
    }
}

/// A failure with no code of the server in it.
pub fn failure(
    code: McpCallProofErrorCode,
    stage: CallProofStage,
    transport: &'static str,
) -> (failure: McpCallProofFailure)
    ensures
        failure@ == plain_failure(code, stage, transport@),
{
    McpCallProofFailure { code, stage, transport, rpc_code: None }
}

} // verus!
