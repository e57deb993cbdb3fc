//! JSON-RPC messages of the protocol.

use vstd::prelude::*;

use crate::json::{optional_tree, put_member, Json, JsonTree};

verus! {

/// The protocol version that is spoken.
pub const PROTOCOL_VERSION: &'static str = "2024-11-05";

/// A request.
#[derive(Debug)]
pub struct JsonRpcRequest {
    pub jsonrpc: &'static str,
    pub id: u64,
    pub method: String,
    pub params: Option<Json>,
}

/// What a [`JsonRpcRequest`] says.
pub struct RequestView {
    pub jsonrpc: Seq<char>,
    pub id: u64,
    pub method: Seq<char>,
    pub params: Option<JsonTree>,
}

impl View for JsonRpcRequest {
    type V = RequestView;

    open spec fn view(&self) -> RequestView {
        RequestView {
            jsonrpc: self.jsonrpc@,
            id: self.id,
            method: self.method@,
            params: optional_tree(self.params),
        }
    }
}

/// The error that a server answered with.
#[derive(Debug)]
pub struct JsonRpcError {
    pub code: i64,
    pub message: String,
}

/// A response.
#[derive(Debug)]
pub struct JsonRpcResponse {
    pub jsonrpc: String,
    pub id: Option<u64>,
    pub result: Option<Json>,
    pub error: Option<JsonRpcError>,
}

/// The part of a response that decisions are taken on. The message of an error is not in it.
pub struct ResponseView {
    pub id: Option<u64>,
    pub result: Option<JsonTree>,
    pub error_code: Option<i64>,
}

impl View for JsonRpcResponse {
    type V = ResponseView;

    open spec fn view(&self) -> ResponseView {
        ResponseView {
            id: self.id,
            result: optional_tree(self.result),
            error_code: match self.error {
                Some(error) => Some(error.code),
                None => None,
            },
        }
    }
}

/// One event of an event stream.
#[derive(Debug)]
pub struct SseEvent {
    pub event_type: String,
    pub data: String,
}

/// The parameters of a call: the tool and its arguments, and nothing else.
pub open spec fn tools_call_params(tool: Seq<char>, arguments: JsonTree) -> JsonTree {
    JsonTree::Object(
        Map::<Seq<char>, JsonTree>::empty().insert("name"@, JsonTree::Text(tool)).insert(
            "arguments"@,
            arguments,
        ),
    )
}

/// The request to call `tool`.
pub open spec fn tools_call_request(id: u64, tool: Seq<char>, arguments: JsonTree) -> RequestView {
    RequestView {
        jsonrpc: "2.0"@,
        id,
        method: "tools/call"@,
        params: Some(tools_call_params(tool, arguments)),
    }
}

/// The request to call `tool` with `arguments`.
pub fn build_tools_call_request(id: u64, tool: &str, arguments: Json) -> (request: JsonRpcRequest)
    ensures
        request@ == tools_call_request(id, tool@, arguments@),
{
    let mut entries: Vec<(String, Json)> = Vec::new();
    put_member(&mut entries, "name", Json::Text(tool.to_owned()));
    put_member(&mut entries, "arguments", arguments);
    JsonRpcRequest {
        jsonrpc: "2.0",
        id,
        method: "tools/call".to_owned(),
        params: Some(Json::Object(entries)),
    }
}

} // verus!
