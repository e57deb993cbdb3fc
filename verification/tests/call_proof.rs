use mcp_call_proof::api::{
    transport_type, McpServerTransport, MCP_CALL_PROOF_MAX_ARGUMENT_BYTES,
    MCP_CALL_PROOF_MAX_NAME_BYTES, MCP_CALL_PROOF_MAX_RESPONSE_BYTES,
};
use mcp_call_proof::checks::{
    check_call_result, check_listing, expect_response_id, reject_rpc_error, validate_initialize,
    validate_tool_call, validate_tools_list,
};
use mcp_call_proof::evidence::{build_proof, count_content, proof_tuple};
use mcp_call_proof::failure::{CallProofStage, McpCallProofErrorCode, McpCallProofFailure};
use mcp_call_proof::json::Json;
use mcp_call_proof::prepared::PreparedCall;
use mcp_call_proof::protocol::{
    build_tools_call_request, JsonRpcError, JsonRpcResponse, SseEvent,
};
use mcp_call_proof::receive::{wait_for_bounded_endpoint, StreamRead};
use mcp_call_proof::spawn::{
    is_bare_name, resolve_stdio_command, runtime_resolution_error, spawn_error, SpawnErrorKind,
};
use mcp_call_proof::urls::validate_transport_url;
use std::collections::HashMap;

fn text(s: &str) -> Json {
    Json::Text(s.to_owned())
}

fn object(members: Vec<(&str, Json)>) -> Json {
    Json::Object(members.into_iter().map(|(name, value)| (name.to_owned(), value)).collect())
}

fn json_text(json: &Json) -> String {
    String::from_utf8(json.to_bytes()).unwrap()
}

fn response(result: Json) -> JsonRpcResponse {
    JsonRpcResponse { jsonrpc: "2.0".to_owned(), id: Some(2), result: Some(result), error: None }
}

fn rpc_error(code: i64, message: &str) -> JsonRpcResponse {
    JsonRpcResponse {
        jsonrpc: "2.0".to_owned(),
        id: Some(3),
        result: None,
        error: Some(JsonRpcError { code, message: message.to_owned() }),
    }
}

fn read_only_listing() -> Json {
    object(vec![(
        "tools",
        Json::Array(vec![object(vec![
            ("name", text("read")),
            ("annotations", object(vec![("readOnlyHint", Json::Bool(true))])),
        ])]),
    )])
}

fn call_result(secret: &str) -> Json {
    object(vec![(
        "content",
        Json::Array(vec![object(vec![("type", text("text")), ("text", text(secret))])]),
    )])
}

fn prepared(server: &str) -> PreparedCall {
    PreparedCall::new(server, "read", object(vec![("id", Json::Unsigned(7))]), "user-1", "http")
        .unwrap()
}

#[test]
fn exact_call_request_contains_only_requested_tool_and_arguments() {
    let request = build_tools_call_request(3, "search", object(vec![("query", text("safe"))]));
    assert_eq!(request.jsonrpc, "2.0");
    assert_eq!(request.id, 3);
    assert_eq!(request.method, "tools/call");
    assert_eq!(
        json_text(&request.params.unwrap()),
        r#"{"arguments":{"query":"safe"},"name":"search"}"#
    );
}

#[test]
fn missing_and_non_read_only_tools_fail_closed() {
    let listed = response(object(vec![(
        "tools",
        Json::Array(vec![
            object(vec![("name", text("write"))]),
            object(vec![("name", text("read")), ("annotations", object(vec![]))]),
        ]),
    )]));
    assert_eq!(
        validate_tools_list(&listed, "absent", "stdio").unwrap_err().code,
        McpCallProofErrorCode::ToolNotFound
    );
    assert_eq!(
        validate_tools_list(&listed, "read", "stdio").unwrap_err().code,
        McpCallProofErrorCode::ToolNotReadOnly
    );
}

#[test]
fn rpc_error_and_tool_error_do_not_expose_payload() {
    let secret = "RPC_SECRET_42";
    let error = validate_tool_call(&rpc_error(-32603, secret), "http").unwrap_err();
    let serialized = json_text(&error.details());
    assert_eq!(error.code, McpCallProofErrorCode::RpcError);
    assert!(!serialized.contains(secret));
    assert_eq!(serialized, r#"{"rpc_code":-32603,"stage":"tools_call","transport":"http"}"#);

    let failed = response(object(vec![
        ("isError", Json::Bool(true)),
        ("content", Json::Array(vec![object(vec![("type", text("text")), ("text", text(secret))])])),
    ]));
    let error = validate_tool_call(&failed, "stdio").unwrap_err();
    assert_eq!(error.code, McpCallProofErrorCode::ToolCallFailed);
    assert!(!json_text(&error.details()).contains(secret));
}

#[test]
fn oversized_arguments_are_rejected_before_transport() {
    let arguments = object(vec![("value", text(&"x".repeat(MCP_CALL_PROOF_MAX_ARGUMENT_BYTES)))]);
    let error = PreparedCall::new("server", "read", arguments, "user-1", "http").unwrap_err();
    assert_eq!(error.code, McpCallProofErrorCode::ArgumentsTooLarge);
    assert_eq!(error.stage.as_str(), "validate");
}

#[test]
fn proof_is_stable_and_contains_no_raw_result() {
    let call = prepared("server");
    let tools = read_only_listing();
    let result = call_result("RESULT_SECRET_42");
    let first =
        build_proof(&call, "2024-11-05".to_owned(), tools.clone(), result.clone()).unwrap();
    let second = build_proof(&call, "2024-11-05".to_owned(), tools, result).unwrap();
    assert_eq!(first, second);
    let serialized = format!("{:?}", first);
    assert!(!serialized.contains("RESULT_SECRET_42"));
    assert_eq!(first.content_items, 1);
}

#[test]
fn unsupported_protocol_version_and_malformed_call_result_fail_closed() {
    let init = JsonRpcResponse {
        jsonrpc: "2.0".to_owned(),
        id: Some(1),
        result: Some(object(vec![("protocolVersion", text("2099-01-01"))])),
        error: None,
    };
    assert_eq!(
        validate_initialize(&init, "http").unwrap_err().code,
        McpCallProofErrorCode::ProtocolError
    );

    let malformed = response(object(vec![("unexpected", Json::Bool(true))]));
    assert_eq!(
        validate_tool_call(&malformed, "http").unwrap_err().code,
        McpCallProofErrorCode::ProtocolError
    );
}

#[test]
fn proof_digest_binds_the_requested_server_name() {
    let tools = read_only_listing();
    let result = object(vec![("content", Json::Array(vec![]))]);
    let first = build_proof(
        &prepared("server-one"),
        "2024-11-05".to_owned(),
        tools.clone(),
        result.clone(),
    )
    .unwrap();
    let second =
        build_proof(&prepared("server-two"), "2024-11-05".to_owned(), tools, result).unwrap();
    assert_ne!(first.proof_sha256, second.proof_sha256);
}

#[test]
fn cross_origin_sse_endpoint_is_rejected() {
    let url = "https://one.example/sse";
    let base = validate_transport_url(url, "sse").unwrap();
    let read = StreamRead::Event(SseEvent {
        event_type: "endpoint".to_owned(),
        data: "https://two.example/messages".to_owned(),
    });
    let error = wait_for_bounded_endpoint(url, &base, &read).unwrap_err();
    assert_eq!(error.code, McpCallProofErrorCode::RedirectRejected);
    assert_eq!(error.stage.as_str(), "endpoint");
}

#[test]
fn digests_of_a_proof_have_exact_values() {
    let call = prepared("server").with_runtime_scope(Some("run-1"));
    let proved = build_proof(
        &call,
        "2024-11-05".to_owned(),
        read_only_listing(),
        call_result("hello"),
    )
    .unwrap();
    assert_eq!(proved.protocol_version, "2024-11-05");
    assert_eq!(proved.server_name, "server");
    assert_eq!(proved.runtime_scope_id, Some("run-1".to_owned()));
    assert_eq!(proved.tool, "read");
    assert_eq!(
        proved.authenticated_subject_sha256,
        "sha256:c6c289e49e9c05b2145860387b73bcb18df43fb09a1e4a4a9713c76c88bb541b"
    );
    assert_eq!(
        proved.arguments_sha256,
        "sha256:a3c90e3b7448d23d9eacebd0ebf15cae100e21f9b2c688f3f9d238edcd26d67f"
    );
    assert_eq!(
        proved.tools_sha256,
        "sha256:35a5328218cc2b51924997e10c6d2ddffc8ed09f8f226a3de943b635448aae85"
    );
    assert_eq!(
        proved.result_sha256,
        "sha256:a65936934e372e490b409b700d80dce1bff3e77639a88153b347ec159b0e7c48"
    );
    assert_eq!(
        proved.proof_sha256,
        "sha256:2b0e335d400ede8a00f3088c19c9f8bc074279e049b03b7be64aa73655f94359"
    );
    assert_eq!(proved.result_bytes, 44);
    assert_eq!(proved.content_items, 1);
    assert!(proved.qualification.is_none());
}

#[test]
fn proof_tells_digests_and_counts_alone() {
    let call = prepared("server");
    let long = build_proof(&call, "v".to_owned(), read_only_listing(), call_result("one")).unwrap();
    let other = build_proof(&call, "v".to_owned(), read_only_listing(), call_result("two")).unwrap();
    assert_ne!(long.result_sha256, other.result_sha256);
    assert_ne!(long.proof_sha256, other.proof_sha256);
    assert_eq!(long.result_bytes, other.result_bytes);
    assert_eq!(long.content_items, other.content_items);
    assert_eq!(long.tools_sha256, other.tools_sha256);
}

#[test]
fn proof_tuple_holds_what_the_proof_vouches_for() {
    let call = prepared("server");
    assert_eq!(
        json_text(&proof_tuple(&call, "v", "a", "t", "r")),
        format!(
            "{{\"arguments_sha256\":\"a\",\"authenticated_subject_sha256\":\"{}\",\
             \"protocol_version\":\"v\",\"result_sha256\":\"r\",\"runtime_scope_id\":null,\
             \"server_name\":\"server\",\"tool\":\"read\",\"tools_sha256\":\"t\"}}",
            call.authenticated_subject_sha256
        )
    );
}

#[test]
fn content_is_counted() {
    assert_eq!(count_content(&object(vec![])), 0);
    assert_eq!(count_content(&object(vec![("content", text("x"))])), 0);
    assert_eq!(
        count_content(&object(vec![("content", Json::Array(vec![Json::Null, Json::Null]))])),
        2
    );
    assert_eq!(count_content(&Json::Null), 0);
}

#[test]
fn names_and_arguments_are_checked() {
    let longest = "n".repeat(MCP_CALL_PROOF_MAX_NAME_BYTES);
    let too_long = "n".repeat(MCP_CALL_PROOF_MAX_NAME_BYTES + 1);
    let wide = "\u{e9}".repeat(MCP_CALL_PROOF_MAX_NAME_BYTES / 2 + 1);
    assert!(PreparedCall::new(&longest, &longest, object(vec![]), &longest, "sse").is_ok());
    for bad in ["", too_long.as_str(), wide.as_str()] {
        for (name, tool, user) in [(bad, "t", "u"), ("n", bad, "u"), ("n", "t", bad)] {
            let error = PreparedCall::new(name, tool, object(vec![]), user, "sse").unwrap_err();
            assert_eq!(error.code(), McpCallProofErrorCode::InvalidRequest);
            assert_eq!(error.stage, CallProofStage::Validate);
            assert_eq!(error.transport, "sse");
            assert_eq!(error.rpc_code, None);
        }
    }
    let error = PreparedCall::new("n", "t", Json::Array(vec![]), "u", "sse").unwrap_err();
    assert_eq!(error.code(), McpCallProofErrorCode::InvalidRequest);
}

#[test]
fn arguments_may_take_the_limit_and_no_more() {
    let at = |bytes: usize| {
        PreparedCall::from_bytes("n", "t", object(vec![]), vec![0; bytes], "u", "http")
    };
    assert!(at(MCP_CALL_PROOF_MAX_ARGUMENT_BYTES).is_ok());
    assert_eq!(
        at(MCP_CALL_PROOF_MAX_ARGUMENT_BYTES + 1).unwrap_err().code(),
        McpCallProofErrorCode::ArgumentsTooLarge
    );
    let exact = object(vec![("v", text(&"x".repeat(MCP_CALL_PROOF_MAX_ARGUMENT_BYTES - 8)))]);
    let call = PreparedCall::new("n", "t", exact, "u", "http").unwrap();
    assert_eq!(call.arguments_bytes.len(), MCP_CALL_PROOF_MAX_ARGUMENT_BYTES);
}

#[test]
fn listing_is_checked_in_full() {
    let tool = |hint: Json| {
        object(vec![
            ("name", text("read")),
            ("annotations", object(vec![("readOnlyHint", hint)])),
        ])
    };
    let listing = |tools: Vec<Json>| object(vec![("tools", Json::Array(tools))]);
    assert!(check_listing(&listing(vec![tool(Json::Bool(true))]), 10, "read", "http").is_ok());
    let code = |listing: &Json, size: usize| {
        check_listing(listing, size, "read", "http").unwrap_err().code()
    };
    let twice = listing(vec![tool(Json::Bool(true)), tool(Json::Bool(true))]);
    assert_eq!(code(&twice, 10), McpCallProofErrorCode::ProtocolError);
    assert_eq!(
        code(&listing(vec![tool(text("true"))]), 10),
        McpCallProofErrorCode::ToolNotReadOnly
    );
    assert_eq!(
        code(&listing(vec![tool(Json::Bool(false))]), 10),
        McpCallProofErrorCode::ToolNotReadOnly
    );
    assert_eq!(code(&listing(vec![Json::Null]), 10), McpCallProofErrorCode::ToolNotFound);
    assert_eq!(code(&object(vec![]), 10), McpCallProofErrorCode::ProtocolError);
    assert_eq!(
        code(&object(vec![("tools", object(vec![]))]), 10),
        McpCallProofErrorCode::ProtocolError
    );
    assert_eq!(
        code(&twice, MCP_CALL_PROOF_MAX_RESPONSE_BYTES + 1),
        McpCallProofErrorCode::ResponseTooLarge
    );
}

#[test]
fn listing_response_is_checked() {
    let listed = response(read_only_listing());
    let listing = validate_tools_list(&listed, "read", "http").unwrap();
    assert_eq!(listing.to_bytes(), read_only_listing().to_bytes());
    let nothing = JsonRpcResponse { jsonrpc: "2.0".to_owned(), id: Some(2), result: None, error: None };
    assert_eq!(
        validate_tools_list(&nothing, "read", "http").unwrap_err().code(),
        McpCallProofErrorCode::ProtocolError
    );
    let error = validate_tools_list(&rpc_error(-1, "x"), "read", "sse").unwrap_err();
    assert_eq!(error.code(), McpCallProofErrorCode::RpcError);
    assert_eq!(error.rpc_code, Some(-1));
    assert_eq!(error.stage, CallProofStage::ToolsList);
    let large = object(vec![
        ("tools", Json::Array(vec![])),
        ("pad", text(&"x".repeat(MCP_CALL_PROOF_MAX_RESPONSE_BYTES))),
    ]);
    assert_eq!(
        validate_tools_list(&response(large), "read", "http").unwrap_err().code(),
        McpCallProofErrorCode::ResponseTooLarge
    );
}

#[test]
fn call_result_is_checked_in_full() {
    let code = |result: &Json, size: usize| {
        check_call_result(result, size, "http").unwrap_err().code()
    };
    for field in ["content", "structuredContent", "isError", "_meta"] {
        let value = match field {
            "content" => Json::Array(vec![]),
            "isError" => Json::Bool(false),
            _ => Json::Null,
        };
        assert!(check_call_result(&object(vec![(field, value)]), 2, "http").is_ok());
    }
    assert_eq!(code(&Json::Array(vec![]), 2), McpCallProofErrorCode::ProtocolError);
    assert_eq!(
        code(&object(vec![("content", text("x"))]), 2),
        McpCallProofErrorCode::ProtocolError
    );
    assert_eq!(
        code(&object(vec![("isError", text("x"))]), 2),
        McpCallProofErrorCode::ProtocolError
    );
    let failed = object(vec![("isError", Json::Bool(true))]);
    assert_eq!(
        code(&failed, MCP_CALL_PROOF_MAX_RESPONSE_BYTES + 1),
        McpCallProofErrorCode::ToolCallFailed
    );
    assert_eq!(
        code(&object(vec![("_meta", Json::Null)]), MCP_CALL_PROOF_MAX_RESPONSE_BYTES + 1),
        McpCallProofErrorCode::ResponseTooLarge
    );
    let large = object(vec![("_meta", text(&"x".repeat(MCP_CALL_PROOF_MAX_RESPONSE_BYTES)))]);
    assert_eq!(
        validate_tool_call(&response(large), "http").unwrap_err().code(),
        McpCallProofErrorCode::ResponseTooLarge
    );
    let nothing = JsonRpcResponse { jsonrpc: "2.0".to_owned(), id: Some(2), result: None, error: None };
    assert_eq!(
        validate_tool_call(&nothing, "http").unwrap_err().code(),
        McpCallProofErrorCode::ProtocolError
    );
    let returned = validate_tool_call(&response(call_result("x")), "http").unwrap();
    assert_eq!(returned.to_bytes(), call_result("x").to_bytes());
}

#[test]
fn initialize_must_agree_to_the_version() {
    let with = |result: Option<Json>| JsonRpcResponse {
        jsonrpc: "2.0".to_owned(),
        id: Some(1),
        result,
        error: None,
    };
    let agreed = with(Some(object(vec![("protocolVersion", text("2024-11-05"))])));
    assert_eq!(validate_initialize(&agreed, "stdio").unwrap(), "2024-11-05");
    for result in [None, Some(object(vec![])), Some(object(vec![("protocolVersion", Json::Null)]))] {
        assert_eq!(
            validate_initialize(&with(result), "stdio").unwrap_err().code(),
            McpCallProofErrorCode::ProtocolError
        );
    }
    assert_eq!(
        validate_initialize(&rpc_error(5, "x"), "stdio").unwrap_err().rpc_code,
        Some(5)
    );
}

#[test]
fn responses_must_name_their_request() {
    let two = response(Json::Null);
    assert!(expect_response_id(&two, 2, CallProofStage::ToolsList, "http").is_ok());
    let error = expect_response_id(&two, 3, CallProofStage::ToolsCall, "http").unwrap_err();
    assert_eq!(error.code(), McpCallProofErrorCode::ProtocolError);
    assert_eq!(error.stage, CallProofStage::ToolsCall);
    let none = JsonRpcResponse { jsonrpc: "2.0".to_owned(), id: None, result: None, error: None };
    assert!(expect_response_id(&none, 3, CallProofStage::ToolsCall, "http").is_err());
}

#[test]
fn error_messages_make_no_difference() {
    let one = reject_rpc_error(&rpc_error(7, "one"), CallProofStage::Initialize, "http").unwrap_err();
    let two = reject_rpc_error(&rpc_error(7, "two"), CallProofStage::Initialize, "http").unwrap_err();
    assert_eq!(format!("{:?}", one), format!("{:?}", two));
    assert!(reject_rpc_error(&response(Json::Null), CallProofStage::Initialize, "http").is_ok());
}

#[test]
fn stages_and_messages_have_their_words() {
    let stages = [
        (CallProofStage::Validate, "validate"),
        (CallProofStage::Spawn, "spawn"),
        (CallProofStage::Connect, "connect"),
        (CallProofStage::Initialize, "initialize"),
        (CallProofStage::Initialized, "initialized"),
        (CallProofStage::ToolsList, "tools_list"),
        (CallProofStage::ToolsCall, "tools_call"),
        (CallProofStage::Endpoint, "endpoint"),
        (CallProofStage::Cleanup, "cleanup"),
    ];
    for (stage, word) in stages {
        assert_eq!(stage.as_str(), word);
    }
    let sentences = [
        (McpCallProofErrorCode::InvalidRequest, "Invalid MCP call proof request"),
        (McpCallProofErrorCode::ArgumentsTooLarge, "MCP tool arguments exceed the allowed size"),
        (McpCallProofErrorCode::ResponseTooLarge, "MCP server response exceeds the allowed size"),
        (McpCallProofErrorCode::CommandNotFound, "MCP server command was not found"),
        (McpCallProofErrorCode::CommandPermissionDenied, "MCP server command cannot be executed"),
        (McpCallProofErrorCode::CommandStartFailed, "MCP server command failed to start"),
        (McpCallProofErrorCode::ProcessCleanupFailed, "MCP transport cleanup failed"),
        (McpCallProofErrorCode::ConnectionFailed, "MCP server connection failed"),
        (McpCallProofErrorCode::HttpError, "MCP server returned an HTTP error"),
        (McpCallProofErrorCode::RedirectRejected, "MCP transport redirect was rejected"),
        (McpCallProofErrorCode::Timeout, "MCP call proof timed out"),
        (McpCallProofErrorCode::RpcError, "MCP server returned a JSON-RPC error"),
        (McpCallProofErrorCode::ProtocolError, "MCP server returned an invalid protocol response"),
        (McpCallProofErrorCode::ToolNotFound, "Requested MCP tool was not advertised"),
        (McpCallProofErrorCode::ToolNotReadOnly, "Requested MCP tool is not declared read-only"),
        (McpCallProofErrorCode::ToolCallFailed, "MCP tool call reported failure"),
    ];
    for (code, sentence) in sentences {
        let error = McpCallProofFailure {
            code,
            stage: CallProofStage::Cleanup,
            transport: "sse",
            rpc_code: None,
        };
        assert_eq!(error.message(), sentence);
        assert_eq!(error.code(), code);
        assert_eq!(json_text(&error.details()), r#"{"stage":"cleanup","transport":"sse"}"#);
    }
}

#[test]
fn transports_have_their_names() {
    let stdio =
        McpServerTransport::Stdio { command: "x".to_owned(), args: vec![], env: HashMap::new() };
    let http = McpServerTransport::Http { url: "x".to_owned(), headers: HashMap::new() };
    let sse = McpServerTransport::Sse { url: "x".to_owned(), headers: HashMap::new() };
    assert_eq!(transport_type(&stdio), "stdio");
    assert_eq!(transport_type(&http), "http");
    assert_eq!(transport_type(&sse), "sse");
}

#[test]
fn commands_that_do_not_start_are_told_apart() {
    for (kind, code) in [
        (SpawnErrorKind::NotFound, McpCallProofErrorCode::CommandNotFound),
        (SpawnErrorKind::PermissionDenied, McpCallProofErrorCode::CommandPermissionDenied),
        (SpawnErrorKind::Other, McpCallProofErrorCode::CommandStartFailed),
    ] {
        let error = spawn_error(kind);
        assert_eq!(error.code(), code);
        assert_eq!(error.stage, CallProofStage::Spawn);
        assert_eq!(error.transport, "stdio");
    }
    for message in ["Node NOT FOUND", "Unsupported os", "is unavailable", "no System Node here"] {
        let error = runtime_resolution_error(message);
        assert_eq!(error.kind, SpawnErrorKind::NotFound);
        assert_eq!(error.reason, "runtime unavailable");
    }
    for message in ["", "notfound", "download failed", "N\u{d6}T FOUND"] {
        let error = runtime_resolution_error(message);
        assert_eq!(error.kind, SpawnErrorKind::Other);
        assert_eq!(error.reason, "runtime preparation failed");
    }
}

#[test]
fn bare_names_are_looked_up() {
    assert!(is_bare_name("node"));
    assert!(!is_bare_name(""));
    assert!(!is_bare_name("bin/node"));
    assert!(!is_bare_name("bin\\node"));
    assert_eq!(resolve_stdio_command("node", Some(1)), Some(1));
    assert_eq!(resolve_stdio_command::<u8>("node", None), None);
    assert_eq!(resolve_stdio_command("/bin/node", Some(1)), None);
}

#[test]
fn proof_digest_covers_all_that_is_vouched_for() {
    let digest = |call: &PreparedCall, version: &str, tools: Json, result: Json| {
        build_proof(call, version.to_owned(), tools, result).unwrap().proof_sha256
    };
    let call = |tool: &str, id: u64, user: &str| {
        PreparedCall::new("server", tool, object(vec![("id", Json::Unsigned(id))]), user, "http")
            .unwrap()
    };
    let base = call("read", 7, "user-1");
    let digests = vec![
        digest(&base, "v", read_only_listing(), call_result("x")),
        digest(&base, "w", read_only_listing(), call_result("x")),
        digest(&base, "v", object(vec![]), call_result("x")),
        digest(&base, "v", read_only_listing(), call_result("y")),
        digest(&call("reads", 7, "user-1"), "v", read_only_listing(), call_result("x")),
        digest(&call("read", 8, "user-1"), "v", read_only_listing(), call_result("x")),
        digest(&call("read", 7, "user-2"), "v", read_only_listing(), call_result("x")),
        digest(
            &call("read", 7, "user-1").with_runtime_scope(Some("run-1")),
            "v",
            read_only_listing(),
            call_result("x"),
        ),
    ];
    for (i, one) in digests.iter().enumerate() {
        for other in &digests[i + 1..] {
            assert_ne!(one, other);
        }
    }
    assert_eq!(
        digests[0],
        digest(&call("read", 7, "user-1"), "v", read_only_listing(), call_result("x"))
    );
}
