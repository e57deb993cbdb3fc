use mcp_call_proof::api::{
    McpCallProofResult, McpQualificationBinding, McpQualificationRequest, McpServerTransport,
};
use mcp_call_proof::backend::{backend_identity, require_same_backend, BackendFacts};
use mcp_call_proof::binding::{
    bind, binding_tuple, qualification_binding_sha256, validate_binding_input, CAPABILITY_TTL_MS,
    MAX_BINDING_BYTES,
};
use mcp_call_proof::capability::{is_acceptable_capability, MAX_CAPABILITY_BYTES};
use mcp_call_proof::clock::{millis_at, now_ms};
use mcp_call_proof::digest::sha256;
use mcp_call_proof::failure::McpCallProofErrorCode;
use mcp_call_proof::json::Json;
use mcp_call_proof::lifecycle::{CallEvent, CallStep};
use mcp_call_proof::pending::{
    insert_pending, take_pending, PendingQualification, PendingStore, MAX_PENDING_CAPABILITIES,
};
use mcp_call_proof::protocol::JsonRpcResponse;
use mcp_call_proof::qualification::{
    accept, require_owner, validate_consume_context, ConsumeEvent, ConsumeStep,
    McpQualificationService, MintOrder, MintStep, OwnerReply,
};
use mcp_call_proof::service::McpConnectionTestService;
use mcp_call_proof::verdict::QualificationError;
use std::collections::HashMap;
use std::time::{Duration, SystemTime};

fn request() -> McpQualificationRequest {
    McpQualificationRequest {
        name: "qualification".to_owned(),
        transport: McpServerTransport::Stdio {
            command: "x".to_owned(),
            args: vec![],
            env: HashMap::new(),
        },
        tool: "read".to_owned(),
        arguments: Json::Object(vec![]),
        run_id: "run-1".to_owned(),
        machine_challenge: "challenge-1".to_owned(),
    }
}

fn pending() -> PendingQualification {
    PendingQualification {
        user_id: "user-1".to_owned(),
        conversation_id: "conv-1".to_owned(),
        request: request(),
        binding: McpQualificationBinding {
            schema_version: 1,
            capability_sha256: sha256(b"cap"),
            authenticated_subject_sha256: sha256(b"user-1"),
            conversation_sha256: sha256(b"conv-1"),
            runtime_id_sha256: sha256(b"runtime"),
            backend_pid: 1,
            backend_start_time: 1,
            backend_executable_sha256: sha256(b"exe"),
            operation: "tools/call:read".to_owned(),
            arguments_sha256: sha256(b"{}"),
            run_id: "run-1".to_owned(),
            machine_challenge_sha256: sha256(b"challenge-1"),
            issued_at_ms: 1,
            expires_at_ms: u64::MAX,
            binding_sha256: sha256(b"binding"),
        },
    }
}

fn facts() -> BackendFacts {
    BackendFacts { pid: 42, start_time: Some(1234567890), executable: Some(b"exe".to_vec()) }
}

fn service() -> McpQualificationService {
    McpQualificationService::new(McpConnectionTestService { timeout_nanos: 1_000 })
}

fn order() -> MintOrder {
    MintOrder {
        user_id: "user-1".to_owned(),
        conversation_id: "conv-1".to_owned(),
        request: request(),
    }
}

fn owner(name: &str) -> OwnerReply {
    OwnerReply::Owner(name.to_owned())
}

fn response(id: u64, result: Json) -> CallEvent {
    CallEvent::Decoded(Some(JsonRpcResponse {
        jsonrpc: "2.0".to_owned(),
        id: Some(id),
        result: Some(result),
        error: None,
    }))
}

fn text(s: &str) -> Json {
    Json::Text(s.to_owned())
}

fn object(members: Vec<(&str, Json)>) -> Json {
    Json::Object(members.into_iter().map(|(name, value)| (name.to_owned(), value)).collect())
}

/// What happens in a call over standard streams that goes well.
fn good_call() -> Vec<CallEvent> {
    vec![
        CallEvent::Spawned,
        CallEvent::Written,
        CallEvent::Line(b"1\n".to_vec()),
        response(1, object(vec![("protocolVersion", text("2024-11-05"))])),
        CallEvent::Written,
        CallEvent::Written,
        CallEvent::Line(b"2\n".to_vec()),
        response(
            2,
            object(vec![(
                "tools",
                Json::Array(vec![object(vec![
                    ("name", text("read")),
                    ("annotations", object(vec![("readOnlyHint", Json::Bool(true))])),
                ])]),
            )]),
        ),
        CallEvent::Written,
        CallEvent::Line(b"3\n".to_vec()),
        response(3, object(vec![("content", Json::Array(vec![]))])),
        CallEvent::Killed,
    ]
}

/// Issues a capability to `user-1`.
fn issue(service: &mut McpQualificationService) -> String {
    let step = service.mint("user-1", "conv-1", request());
    let step = step.owner_found(&owner("user-1"));
    match service.issue(step.backend_found(&facts())) {
        MintStep::Done(Ok(issued)) => issued.capability,
        other => panic!("{:?}", other),
    }
}

/// Takes the use of a capability through a call that goes well.
fn through_the_call(service: &McpQualificationService, step: ConsumeStep) -> ConsumeStep {
    let mut step = step.advance(&service.calls, ConsumeEvent::Owner(owner("user-1")));
    step = step.advance(&service.calls, ConsumeEvent::Backend(facts()));
    for event in good_call() {
        step = step.advance(&service.calls, ConsumeEvent::Call(event));
    }
    step.advance(&service.calls, ConsumeEvent::CallOver)
}

fn answer(step: ConsumeStep) -> Result<McpCallProofResult, QualificationError> {
    match step {
        ConsumeStep::Done(answer) => answer,
        other => panic!("{:?}", other),
    }
}

#[test]
fn capability_consume_is_atomic_and_single_use() {
    let mut store = PendingStore::new();
    assert!(insert_pending(&mut store, "cap".to_owned(), pending(), 0).is_ok());
    let taken = (0..16).filter(|_| take_pending(&mut store, "cap").is_ok()).count();
    assert_eq!(taken, 1);
    assert!(matches!(take_pending(&mut store, "cap"), Err(QualificationError::Unauthorized)));
}

#[test]
fn binding_input_rejects_missing_run_challenge_and_non_object_args() {
    let mut req = request();
    req.run_id.clear();
    assert!(matches!(validate_binding_input(&req), Err(QualificationError::Invalid)));
    let mut req = request();
    req.machine_challenge.clear();
    assert!(matches!(validate_binding_input(&req), Err(QualificationError::Invalid)));
    let mut req = request();
    req.arguments = Json::Array(vec![]);
    assert!(matches!(validate_binding_input(&req), Err(QualificationError::Invalid)));
}

#[test]
fn consume_context_rejects_cross_subject_conversation_and_expiry() {
    let item = pending();
    assert!(matches!(
        validate_consume_context(&item, "other", "conv-1", 2),
        Err(QualificationError::Unauthorized)
    ));
    assert!(matches!(
        validate_consume_context(&item, "user-1", "other", 2),
        Err(QualificationError::Unauthorized)
    ));
    let mut expired = pending();
    expired.binding.expires_at_ms = 10;
    assert!(matches!(
        validate_consume_context(&expired, "user-1", "conv-1", 10),
        Err(QualificationError::Expired)
    ));
}

#[test]
fn pending_store_enforces_capacity_after_exact_expiry_cleanup() {
    let mut store = PendingStore::new();
    let now = 10;
    for index in 0..MAX_PENDING_CAPABILITIES {
        let mut item = pending();
        item.binding.expires_at_ms = now + 1;
        assert!(insert_pending(&mut store, format!("cap-{index}"), item, now).is_ok());
    }
    assert_eq!(store.len(), MAX_PENDING_CAPABILITIES);

    let mut overflow = pending();
    overflow.binding.expires_at_ms = now + 1;
    assert!(matches!(
        insert_pending(&mut store, "cap-overflow".to_owned(), overflow, now),
        Err(QualificationError::Internal)
    ));

    for index in 0..MAX_PENDING_CAPABILITIES {
        let mut item = take_pending(&mut store, &format!("cap-{index}")).unwrap();
        item.binding.expires_at_ms = now;
        assert!(insert_pending(&mut store, format!("cap-{index}"), item, 0).is_ok());
    }
    let mut replacement = pending();
    replacement.binding.expires_at_ms = now + 1;
    assert!(insert_pending(&mut store, "cap-replacement".to_owned(), replacement, now).is_ok());
    assert_eq!(store.len(), 1);
    assert!(store.contains_key("cap-replacement"));
}

#[test]
fn backend_identity_is_stable_for_current_process() {
    let first = backend_identity(&facts()).unwrap();
    let second = backend_identity(&facts()).unwrap();
    assert_eq!(first.pid, second.pid);
    assert_eq!(first.start_time, second.start_time);
    assert_eq!(first.executable_sha256, second.executable_sha256);
    assert_eq!(first.runtime_id_sha256, second.runtime_id_sha256);
}

#[test]
fn backend_identity_has_exact_values() {
    let identity = backend_identity(&facts()).unwrap();
    assert_eq!(identity.pid, 42);
    assert_eq!(identity.start_time, 1234567890);
    assert_eq!(
        identity.executable_sha256,
        "sha256:9095bdb859308b62acf04036ffd4adfe366d7f737d276eb6c46ae434f3816c9b"
    );
    assert_eq!(
        identity.runtime_id_sha256,
        "sha256:9e4a09a2dfafa36ce919168019abb3e93671bf976c819cf63cf6eaa29100d68c"
    );
    let unknown_start = BackendFacts { start_time: None, ..facts() };
    assert!(matches!(backend_identity(&unknown_start), Err(QualificationError::Internal)));
    let unknown_executable = BackendFacts { executable: None, ..facts() };
    assert!(matches!(backend_identity(&unknown_executable), Err(QualificationError::Internal)));
}

#[test]
fn backend_honours_only_its_own_bindings() {
    let identity = backend_identity(&facts()).unwrap();
    let binding = bind("u", "c", &request(), b"{}", identity, 5, "cap");
    assert!(require_same_backend(&binding, &facts()).is_ok());
    let strangers = [
        BackendFacts { pid: 43, ..facts() },
        BackendFacts { start_time: Some(1), ..facts() },
        BackendFacts { executable: Some(b"other".to_vec()), ..facts() },
        BackendFacts { executable: None, ..facts() },
    ];
    for stranger in strangers {
        assert!(matches!(
            require_same_backend(&binding, &stranger),
            Err(QualificationError::Internal)
        ));
    }
    let forged = McpQualificationBinding { runtime_id_sha256: sha256(b"x"), ..binding };
    assert!(matches!(
        require_same_backend(&forged, &facts()),
        Err(QualificationError::Internal)
    ));
}

#[test]
fn binding_holds_what_it_is_bound_to() {
    let identity = backend_identity(&facts()).unwrap();
    let binding = bind("user-1", "conv-1", &request(), b"{}", identity, 5, "cap");
    assert_eq!(binding.schema_version, 1);
    assert_eq!(binding.capability_sha256, sha256(b"cap"));
    assert_eq!(binding.authenticated_subject_sha256, sha256(b"user-1"));
    assert_eq!(binding.conversation_sha256, sha256(b"conv-1"));
    assert_eq!(binding.operation, "tools/call:read");
    assert_eq!(binding.arguments_sha256, sha256(b"{}"));
    assert_eq!(binding.run_id, "run-1");
    assert_eq!(binding.machine_challenge_sha256, sha256(b"challenge-1"));
    assert_eq!(binding.issued_at_ms, 5);
    assert_eq!(binding.expires_at_ms, 30_005);
    assert_eq!(binding.binding_sha256, qualification_binding_sha256(&binding));
    let late = bind(
        "u",
        "c",
        &request(),
        b"{}",
        backend_identity(&facts()).unwrap(),
        u64::MAX - 1,
        "cap",
    );
    assert_eq!(late.expires_at_ms, u64::MAX);
    assert_eq!(CAPABILITY_TTL_MS, 30_000);
}

#[test]
fn binding_digest_has_an_exact_value() {
    let binding = pending().binding;
    assert_eq!(
        String::from_utf8(binding_tuple(&binding).to_bytes()).unwrap(),
        format!(
            "{{\"arguments_sha256\":\"{}\",\"authenticated_subject_sha256\":\"{}\",\
             \"backend_executable_sha256\":\"{}\",\"backend_pid\":1,\"backend_start_time\":1,\
             \"capability_sha256\":\"{}\",\"conversation_sha256\":\"{}\",\
             \"expires_at_ms\":18446744073709551615,\"issued_at_ms\":1,\
             \"machine_challenge_sha256\":\"{}\",\"operation\":\"tools/call:read\",\
             \"run_id\":\"run-1\",\"runtime_id_sha256\":\"{}\",\"schema_version\":1}}",
            sha256(b"{}"),
            sha256(b"user-1"),
            sha256(b"exe"),
            sha256(b"cap"),
            sha256(b"conv-1"),
            sha256(b"challenge-1"),
            sha256(b"runtime")
        )
    );
    assert_eq!(
        qualification_binding_sha256(&binding),
        "sha256:5e9702578b29b2145d17da55e3becc55056d716e5e732f81a05ae1910381127b"
    );
}

#[test]
fn binding_digest_covers_every_field() {
    let digest = qualification_binding_sha256(&pending().binding);
    let mut others: Vec<McpQualificationBinding> = Vec::new();
    for field in 0..14 {
        let mut binding = pending().binding;
        match field {
            0 => binding.schema_version = 2,
            1 => binding.capability_sha256.push('x'),
            2 => binding.authenticated_subject_sha256.push('x'),
            3 => binding.conversation_sha256.push('x'),
            4 => binding.runtime_id_sha256.push('x'),
            5 => binding.backend_pid = 2,
            6 => binding.backend_start_time = 2,
            7 => binding.backend_executable_sha256.push('x'),
            8 => binding.operation.push('x'),
            9 => binding.arguments_sha256.push('x'),
            10 => binding.run_id.push('x'),
            11 => binding.machine_challenge_sha256.push('x'),
            12 => binding.issued_at_ms = 2,
            _ => binding.expires_at_ms = 2,
        }
        others.push(binding);
    }
    for other in &others {
        assert_ne!(qualification_binding_sha256(other), digest);
    }
    let mut same = pending().binding;
    same.binding_sha256.clear();
    assert_eq!(qualification_binding_sha256(&same), digest);
}

#[test]
fn texts_of_a_request_are_bounded() {
    assert!(validate_binding_input(&request()).is_ok());
    for bad in ["", " \t\u{3000}", &"x".repeat(MAX_BINDING_BYTES + 1), &"\u{e9}".repeat(513)] {
        for field in 0..4 {
            let mut req = request();
            match field {
                0 => req.name = bad.to_owned(),
                1 => req.tool = bad.to_owned(),
                2 => req.run_id = bad.to_owned(),
                _ => req.machine_challenge = bad.to_owned(),
            }
            assert!(matches!(validate_binding_input(&req), Err(QualificationError::Invalid)));
        }
    }
    let mut req = request();
    req.name = "x".repeat(MAX_BINDING_BYTES);
    assert!(validate_binding_input(&req).is_ok());
}

#[test]
fn owners_are_told_apart() {
    assert!(require_owner(&owner("user-1"), "user-1").is_ok());
    assert!(matches!(
        require_owner(&owner("user-2"), "user-1"),
        Err(QualificationError::Unauthorized)
    ));
    assert!(matches!(
        require_owner(&OwnerReply::Nobody, "user-1"),
        Err(QualificationError::Unauthorized)
    ));
    assert!(matches!(
        require_owner(&OwnerReply::Failed, "user-1"),
        Err(QualificationError::Internal)
    ));
}

#[test]
fn capabilities_have_a_form() {
    assert!(is_acceptable_capability("x"));
    assert!(is_acceptable_capability(&"x".repeat(MAX_CAPABILITY_BYTES)));
    assert!(!is_acceptable_capability(&"x".repeat(MAX_CAPABILITY_BYTES + 1)));
    assert!(!is_acceptable_capability(&"\u{e9}".repeat(65)));
    assert!(!is_acceptable_capability(""));
    assert!(!is_acceptable_capability(" \n"));
}

#[test]
fn time_is_told_in_milliseconds() {
    let epoch = SystemTime::UNIX_EPOCH;
    assert_eq!(millis_at(&epoch).unwrap(), 0);
    assert_eq!(millis_at(&(epoch + Duration::from_nanos(1_999_999))).unwrap(), 1);
    assert_eq!(millis_at(&(epoch + Duration::from_secs(12))).unwrap(), 12_000);
    assert!(matches!(
        millis_at(&(epoch - Duration::from_nanos(1_000))),
        Err(QualificationError::Internal)
    ));
    assert!(now_ms().unwrap() > 1_600_000_000_000);
}

#[test]
fn issued_capability_is_a_random_uuid() {
    let mut service = service();
    let before = now_ms().unwrap();
    let first = issue(&mut service);
    let second = issue(&mut service);
    assert_ne!(first, second);
    assert_eq!(service.pending.len(), 2);
    for capability in [&first, &second] {
        assert!(is_acceptable_capability(capability));
        assert_eq!(capability.len(), 36);
        for (i, c) in capability.chars().enumerate() {
            match i {
                8 | 13 | 18 | 23 => assert_eq!(c, '-'),
                14 => assert_eq!(c, '4'),
                19 => assert!(['8', '9', 'a', 'b'].contains(&c)),
                _ => assert!(c.is_ascii_digit() || ('a'..='f').contains(&c)),
            }
        }
    }
    let item = take_pending(&mut service.pending, &first).unwrap();
    assert_eq!(item.binding.capability_sha256, sha256(first.as_bytes()));
    assert_eq!(item.binding.expires_at_ms, item.binding.issued_at_ms + 30_000);
    assert!(item.binding.issued_at_ms >= before);
}

#[test]
fn capability_is_issued_to_the_owner_alone() {
    let mut service = service();
    let mut bad = request();
    bad.tool.clear();
    assert!(matches!(
        service.mint("user-1", "conv-1", bad),
        MintStep::Done(Err(QualificationError::Invalid))
    ));
    let step = service.mint("user-1", "conv-1", request());
    assert!(matches!(step, MintStep::LookUpOwner(_)));
    let refused = service.mint("user-1", "conv-1", request()).owner_found(&owner("user-2"));
    assert!(matches!(refused, MintStep::Done(Err(QualificationError::Unauthorized))));
    let unknown = service.mint("user-1", "conv-1", request()).owner_found(&OwnerReply::Failed);
    assert!(matches!(unknown, MintStep::Done(Err(QualificationError::Internal))));
    // The backend comes after the owner.
    let early = service.issue(step.backend_found(&facts()));
    assert!(matches!(early, MintStep::LookUpOwner(_)));
    let unidentified = early.owner_found(&owner("user-1"));
    let nameless = BackendFacts { start_time: None, ..facts() };
    assert!(matches!(
        service.issue(unidentified.backend_found(&nameless)),
        MintStep::Done(Err(QualificationError::Internal))
    ));
    assert_eq!(service.pending.len(), 0);
}

#[test]
fn issuing_at_a_given_time_is_exact() {
    let mut service = service();
    let identity = || backend_identity(&facts()).unwrap();
    let issued = service.issue_at(order(), b"{}", identity(), 100, "cap".to_owned()).unwrap();
    assert_eq!(issued.capability, "cap");
    assert_eq!(issued.expires_at_ms, 30_100);
    // What has expired goes when the next one is issued.
    assert!(service.issue_at(order(), b"{}", identity(), 30_099, "next".to_owned()).is_ok());
    assert!(service.pending.contains_key("cap"));
    assert!(service.issue_at(order(), b"{}", identity(), 30_100, "last".to_owned()).is_ok());
    assert!(!service.pending.contains_key("cap"));
    assert!(service.pending.contains_key("next"));
    assert_eq!(service.pending.len(), 2);
    for index in 2..MAX_PENDING_CAPABILITIES {
        assert!(service.issue_at(order(), b"{}", identity(), 30_100, format!("{index}")).is_ok());
    }
    assert!(matches!(
        service.issue_at(order(), b"{}", identity(), 30_100, "full".to_owned()),
        Err(QualificationError::Internal)
    ));
    assert_eq!(service.pending.len(), MAX_PENDING_CAPABILITIES);
}

#[test]
fn minting_at_a_given_time_is_exact() {
    let mut service = service();
    let identity = || backend_identity(&facts()).unwrap();
    let issued = service.mint_at(order(), identity(), Ok(100), "cap".to_owned()).unwrap();
    assert_eq!(issued.capability, "cap");
    assert_eq!(issued.expires_at_ms, 30_100);
    // Without the time nothing is issued, and nothing goes.
    let timeless = Err(QualificationError::Internal);
    assert!(matches!(
        service.mint_at(order(), identity(), timeless, "other".to_owned()),
        Err(QualificationError::Internal)
    ));
    assert_eq!(service.pending.len(), 1);
    let item = take_pending(&mut service.pending, "cap").unwrap();
    assert_eq!(item.binding.arguments_sha256, sha256(b"{}"));
    assert_eq!(item.binding.issued_at_ms, 100);
}

#[test]
fn use_at_a_given_time_is_exact() {
    let mut service = service();
    let identity = || backend_identity(&facts()).unwrap();
    for (now, user) in [(30_099, "user-1"), (30_100, "user-1"), (30_099, "user-2")] {
        service.mint_at(order(), identity(), Ok(100), "cap".to_owned()).unwrap();
        let step = service.consume_at(user, "conv-1", "cap", Ok(now));
        match (now, user) {
            (30_099, "user-1") => assert!(matches!(step, ConsumeStep::LookUpOwner(_))),
            (30_100, _) => {
                assert!(matches!(step, ConsumeStep::Done(Err(QualificationError::Expired))))
            }
            _ => assert!(matches!(step, ConsumeStep::Done(Err(QualificationError::Unauthorized)))),
        }
        assert_eq!(service.pending.len(), 0);
    }
    // A use burns the capability even where the time cannot be told.
    service.mint_at(order(), identity(), Ok(100), "cap".to_owned()).unwrap();
    let timeless = Err(QualificationError::Internal);
    assert!(matches!(
        service.consume_at("user-1", "conv-1", "cap", timeless),
        ConsumeStep::Done(Err(QualificationError::Internal))
    ));
    assert_eq!(service.pending.len(), 0);
}

#[test]
fn capability_is_valid_until_it_expires() {
    let mut service = service();
    let identity = backend_identity(&facts()).unwrap();
    service.issue_at(order(), b"{}", identity, 100, "cap".to_owned()).unwrap();
    let item = || {
        let mut item = pending();
        item.binding.expires_at_ms = 30_100;
        item
    };
    let issued = take_pending(&mut service.pending, "cap").unwrap();
    assert_eq!(issued.binding.expires_at_ms, item().binding.expires_at_ms);
    assert!(matches!(
        accept(issued, "user-1", "conv-1", Ok(30_099)),
        ConsumeStep::LookUpOwner(_)
    ));
    assert!(matches!(
        accept(item(), "user-1", "conv-1", Ok(30_100)),
        ConsumeStep::Done(Err(QualificationError::Expired))
    ));
    assert!(matches!(
        accept(item(), "user-2", "conv-1", Ok(30_100)),
        ConsumeStep::Done(Err(QualificationError::Unauthorized))
    ));
    assert!(matches!(
        accept(item(), "user-1", "conv-1", Err(QualificationError::Internal)),
        ConsumeStep::Done(Err(QualificationError::Internal))
    ));
}

#[test]
fn used_capability_yields_a_qualified_proof() {
    let mut service = service();
    let capability = issue(&mut service);
    let step = service.consume("user-1", "conv-1", &capability);
    let step = through_the_call(&service, step);
    assert!(matches!(step, ConsumeStep::IdentifyAgain(..)));
    let step = step.advance(&service.calls, ConsumeEvent::Backend(facts()));
    assert!(matches!(step, ConsumeStep::LookUpOwnerAgain(..)));
    let proved = answer(step.advance(&service.calls, ConsumeEvent::Owner(owner("user-1")))).unwrap();
    assert_eq!(proved.server_name, "qualification");
    assert_eq!(proved.tool, "read");
    assert_eq!(proved.runtime_scope_id, Some("run-1".to_owned()));
    let binding = proved.qualification.unwrap();
    assert_eq!(binding.capability_sha256, sha256(capability.as_bytes()));
    assert_eq!(binding.binding_sha256, qualification_binding_sha256(&binding));
    assert_eq!(proved.arguments_sha256, binding.arguments_sha256);
    assert_eq!(proved.authenticated_subject_sha256, binding.authenticated_subject_sha256);
    assert_eq!(proved.arguments_sha256, sha256(b"{}"));

    // It has been used.
    assert!(matches!(
        answer(service.consume("user-1", "conv-1", &capability)),
        Err(QualificationError::Unauthorized)
    ));
}

#[test]
fn failed_use_burns_the_capability_and_no_other() {
    let mut service = service();
    let capability = issue(&mut service);
    let other = issue(&mut service);
    assert!(matches!(
        answer(service.consume("user-1", "conv-1", "")),
        Err(QualificationError::Invalid)
    ));
    assert!(matches!(
        answer(service.consume("user-1", "conv-1", "unknown")),
        Err(QualificationError::Unauthorized)
    ));
    assert_eq!(service.pending.len(), 2);
    assert!(matches!(
        answer(service.consume("user-2", "conv-1", &capability)),
        Err(QualificationError::Unauthorized)
    ));
    assert!(!service.pending.contains_key(&capability));
    assert!(service.pending.contains_key(&other));
    assert!(matches!(
        answer(service.consume("user-1", "conv-1", &capability)),
        Err(QualificationError::Unauthorized)
    ));
}

#[test]
fn owner_and_backend_are_confirmed_before_and_after_the_call() {
    let mut service = service();
    let lost = |service: &mut McpQualificationService| {
        let capability = issue(service);
        service.consume("user-1", "conv-1", &capability)
    };
    let stranger = BackendFacts { pid: 43, ..facts() };

    let step = lost(&mut service);
    assert!(matches!(
        answer(step.advance(&service.calls, ConsumeEvent::Owner(OwnerReply::Nobody))),
        Err(QualificationError::Unauthorized)
    ));

    let step = lost(&mut service);
    let step = step.advance(&service.calls, ConsumeEvent::Owner(owner("user-1")));
    assert!(matches!(
        answer(step.advance(&service.calls, ConsumeEvent::Backend(stranger))),
        Err(QualificationError::Internal)
    ));

    let step = lost(&mut service);
    let step = through_the_call(&service, step);
    let stranger = BackendFacts { start_time: Some(1), ..facts() };
    assert!(matches!(
        answer(step.advance(&service.calls, ConsumeEvent::Backend(stranger))),
        Err(QualificationError::Internal)
    ));

    let step = lost(&mut service);
    let step = through_the_call(&service, step);
    let step = step.advance(&service.calls, ConsumeEvent::Backend(facts()));
    assert!(matches!(
        answer(step.advance(&service.calls, ConsumeEvent::Owner(owner("user-2")))),
        Err(QualificationError::Unauthorized)
    ));
}

#[test]
fn failed_call_is_told() {
    let mut service = service();
    let capability = issue(&mut service);
    let step = service.consume("user-1", "conv-1", &capability);
    let step = step.advance(&service.calls, ConsumeEvent::Owner(owner("user-1")));
    let step = step.advance(&service.calls, ConsumeEvent::Backend(facts()));
    // Nothing is over yet.
    let step = step.advance(&service.calls, ConsumeEvent::CallOver);
    let step = step.advance(&service.calls, ConsumeEvent::Call(CallEvent::Spawned));
    let step = step.advance(&service.calls, ConsumeEvent::Call(CallEvent::TimedOut));
    let step = step.advance(&service.calls, ConsumeEvent::Call(CallEvent::Killed));
    match &step {
        ConsumeStep::Call(admitted, CallStep::Done { session_left, .. }) => {
            assert_eq!(admitted.user_id, "user-1");
            assert!(!session_left);
        }
        other => panic!("{:?}", other),
    }
    match answer(step.advance(&service.calls, ConsumeEvent::CallOver)) {
        Err(QualificationError::Call(error)) => {
            assert_eq!(error.code(), McpCallProofErrorCode::Timeout)
        }
        other => panic!("{:?}", other),
    }
}

#[test]
fn proof_about_something_else_is_turned_down() {
    let mut service = service();
    let identity = backend_identity(&facts()).unwrap();
    // The binding is to other arguments than those of the request.
    let expires = now_ms().unwrap();
    service.issue_at(order(), b"[]", identity, expires, "cap".to_owned()).unwrap();
    let step = service.consume("user-1", "conv-1", "cap");
    let step = through_the_call(&service, step);
    let step = step.advance(&service.calls, ConsumeEvent::Backend(facts()));
    let step = step.advance(&service.calls, ConsumeEvent::Owner(owner("user-1")));
    assert!(matches!(answer(step), Err(QualificationError::Internal)));
}

#[test]
fn answer_is_final() {
    let service = service();
    let step = ConsumeStep::Done(Err(QualificationError::Expired));
    let step = step.advance(&service.calls, ConsumeEvent::Owner(owner("user-1")));
    let step = step.advance(&service.calls, ConsumeEvent::CallOver);
    assert!(matches!(answer(step), Err(QualificationError::Expired)));
}

#[test]
fn used_capability_stays_refused_whatever_comes_in_between() {
    let mut service = service();
    let capability = issue(&mut service);
    let step = service.consume("user-1", "conv-1", &capability);
    assert!(matches!(step, ConsumeStep::LookUpOwner(_)));
    for _ in 0..3 {
        let other = issue(&mut service);
        assert!(matches!(
            answer(service.consume("user-1", "conv-1", &capability)),
            Err(QualificationError::Unauthorized)
        ));
        assert!(matches!(
            service.consume("user-1", "conv-1", &other),
            ConsumeStep::LookUpOwner(_)
        ));
        assert!(matches!(
            answer(service.consume("user-2", "conv-2", &capability)),
            Err(QualificationError::Unauthorized)
        ));
        issue(&mut service);
    }
    assert_eq!(service.pending.len(), 3);
}

#[test]
fn confirmations_count_only_after_the_call() {
    let mut service = service();
    let capability = issue(&mut service);
    let step = service.consume("user-1", "conv-1", &capability);
    let mut step = step.advance(&service.calls, ConsumeEvent::Owner(owner("user-1")));
    step = step.advance(&service.calls, ConsumeEvent::Backend(facts()));
    let calls = good_call();
    let last = calls.len();
    for (i, event) in calls.into_iter().enumerate() {
        // None of these is waited for while the call is on its way.
        step = step.advance(&service.calls, ConsumeEvent::Backend(facts()));
        step = step.advance(&service.calls, ConsumeEvent::Owner(owner("user-1")));
        step = step.advance(&service.calls, ConsumeEvent::CallOver);
        assert!(matches!(step, ConsumeStep::Call(..)), "{i} of {last}");
        step = step.advance(&service.calls, ConsumeEvent::Call(event));
    }
    step = step.advance(&service.calls, ConsumeEvent::Backend(facts()));
    assert!(matches!(step, ConsumeStep::Call(_, CallStep::Done { .. })));
    step = step.advance(&service.calls, ConsumeEvent::CallOver);
    step = step.advance(&service.calls, ConsumeEvent::Owner(owner("user-1")));
    assert!(matches!(step, ConsumeStep::IdentifyAgain(..)));
    step = step.advance(&service.calls, ConsumeEvent::Backend(facts()));
    let proved = answer(step.advance(&service.calls, ConsumeEvent::Owner(owner("user-1")))).unwrap();
    assert!(proved.qualification.is_some());
}
