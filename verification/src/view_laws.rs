//! What values say is what they hold, member by member.

use vstd::prelude::*;

use crate::api::{
    McpCallProofResult, McpQualificationBinding, McpQualificationCapabilityResult,
};
use crate::backend::{BackendFacts, BackendIdentity};
use crate::failure::{FailureView, McpCallProofFailure};
use crate::json::optional_tree;
use crate::lifecycle::{
    CallEvent, CallStep, Channel, ChannelView, EventView, Exchange, ExchangeView, Outgoing,
    OutgoingView, Progress, ReplyHead, StepView,
};
use crate::pending::PendingQualification;
use crate::prepared::{outcome, PreparedCall};
use crate::protocol::{JsonRpcRequest, JsonRpcResponse};
use crate::qualification::{
    Admitted, ConsumeEvent, ConsumeEventView, ConsumeStep, ConsumeView, MintOrder, MintStep,
    MintView, OwnerReply, OwnerView,
};
use crate::receive::{optional_bytes, optional_response, StreamRead, StreamReadView};
use crate::text::optional_text;
use crate::urls::{optional_url, UrlParts};
use crate::verdict::{verdict, QualificationError, QualificationErrorView};

verus! {

/// What may be missing says whether it is there, and what it is.
pub proof fn options_say_what_they_hold(
    text: Option<String>,
    bytes: Option<Vec<u8>>,
    url: Option<UrlParts>,
    response: Option<JsonRpcResponse>,
)
    ensures
        optional_text(text) is Some <==> text is Some,
        text is Some ==> optional_text(text)->0 == text->0@,
        optional_bytes(bytes) is Some <==> bytes is Some,
        bytes is Some ==> optional_bytes(bytes)->0 == bytes->0@,
        optional_url(url) is Some <==> url is Some,
        url is Some ==> optional_url(url)->0 == url->0@,
        optional_response(response) is Some <==> response is Some,
        response is Some ==> optional_response(response)->0 == response->0@,
{
}

/// What an operation came to is the value or the error that it gave.
pub proof fn outcomes_say_what_they_hold<T: View>(
    value: T,
    failure: McpCallProofFailure,
    error: QualificationError,
)
    ensures
        outcome(Ok::<T, McpCallProofFailure>(value)) == Ok::<T::V, FailureView>(value@),
        outcome(Err::<T, McpCallProofFailure>(failure)) == Err::<T::V, FailureView>(failure@),
        verdict(Ok::<T, QualificationError>(value)) == Ok::<T::V, QualificationErrorView>(value@),
        verdict(Err::<T, QualificationError>(error)) == Err::<T::V, QualificationErrorView>(error@),
{
}

/// A failure says its code, its stage, its transport and the server's code.
pub proof fn failure_says_what_it_holds(failure: McpCallProofFailure)
    ensures
        failure@.code == failure.code,
        failure@.stage == failure.stage,
        failure@.transport == failure.transport@,
        failure@.rpc_code == failure.rpc_code,
{
}

/// An error with a capability says its kind, and that of a call says the failure of the call.
pub proof fn error_says_what_it_holds(error: QualificationError)
    ensures
        error@ is Invalid <==> error is Invalid,
        error@ is Unauthorized <==> error is Unauthorized,
        error@ is Expired <==> error is Expired,
        error@ is Internal <==> error is Internal,
        error@ is Call <==> error is Call,
        error is Call ==> error@->Call_0 == error->Call_0@,
{
}

/// A URL says each of its parts.
pub proof fn url_says_what_it_holds(url: UrlParts)
    ensures
        url@.text == url.text@,
        url@.scheme == url.scheme@,
        url@.username == url.username@,
        url@.password == optional_text(url.password),
        url@.host == optional_text(url.host),
        url@.port == url.port,
{
}

/// A request and a response say what stands in them.
pub proof fn messages_say_what_they_hold(request: JsonRpcRequest, response: JsonRpcResponse)
    ensures
        request@.jsonrpc == request.jsonrpc@,
        request@.id == request.id,
        request@.method == request.method@,
        request@.params is Some <==> request.params is Some,
        request.params is Some ==> request@.params->0 == request.params->0@,
        response@.id == response.id,
        response@.result is Some <==> response.result is Some,
        response.result is Some ==> response@.result->0 == response.result->0@,
        response@.error_code is Some <==> response.error is Some,
        response.error is Some ==> response@.error_code->0 == response.error->0.code,
        optional_tree(response.result) == response@.result,
{
}

/// A prepared call says what is to be called, with what, for whom and in which scope.
pub proof fn prepared_call_says_what_it_holds(call: PreparedCall)
    ensures
        call@.server_name == call.server_name@,
        call@.tool == call.tool@,
        call@.arguments == call.arguments@,
        call@.arguments_bytes == call.arguments_bytes@,
        call@.authenticated_subject_sha256 == call.authenticated_subject_sha256@,
        call@.runtime_scope_id == optional_text(call.runtime_scope_id),
{
}

/// A call on its way says how far it has come.
pub proof fn progress_says_what_it_holds(p: Progress, head: ReplyHead)
    ensures
        p@.prepared == p.prepared@,
        p@.channel == p.channel@,
        p@.exchange == p.exchange@,
        p@.offered == optional_text(p.offered),
        p@.session == optional_text(p.session),
        p@.endpoint == optional_text(p.endpoint),
        head@.status == head.status,
        head@.content_type == optional_text(head.content_type),
        head@.session_id == optional_text(head.session_id),
{
}

/// A channel, a message and an exchange say which they are and what they hold.
pub proof fn exchange_says_what_it_holds(
    channel: Channel,
    message: Outgoing,
    exchange: Exchange,
)
    ensures
        match channel {
            Channel::Stdio => channel@ is Stdio,
            Channel::Http => channel@ is Http,
            Channel::Sse { url, base } => channel@ == (ChannelView::Sse { url: url@, base: base@ }),
        },
        match message {
            Outgoing::Initialize { id } => message@ == (OutgoingView::Initialize { id }),
            Outgoing::Initialized => message@ is Initialized,
            Outgoing::ToolsList { id } => message@ == (OutgoingView::ToolsList { id }),
            Outgoing::ToolsCall(request) => message@ == OutgoingView::ToolsCall(request@),
        },
        match exchange {
            Exchange::Initialize => exchange@ is Initialize,
            Exchange::Initialized { version } => exchange@ == (ExchangeView::Initialized {
                version: version@,
            }),
            Exchange::ToolsList { version } => exchange@ == (ExchangeView::ToolsList {
                version: version@,
            }),
            Exchange::ToolsCall { version, tools } => exchange@ == (ExchangeView::ToolsCall {
                version: version@,
                tools: tools@,
            }),
        },
{
}

/// A step of a call says what is to be done.
pub proof fn step_says_what_it_holds(step: CallStep)
    ensures
        match step {
            CallStep::Spawn(p) => step@ == StepView::Spawn(p@),
            CallStep::Open(p) => step@ == StepView::Open(p@),
            CallStep::AwaitEndpoint(p) => step@ == StepView::AwaitEndpoint(p@),
            CallStep::Send(p, message) => step@ == StepView::Send(p@, message@),
            CallStep::ReadLine(p) => step@ == StepView::ReadLine(p@),
            CallStep::ReadBody(p, body) => step@ == StepView::ReadBody(p@, body@),
            CallStep::ReadEvent(p) => step@ == StepView::ReadEvent(p@),
            CallStep::Decode(p, bytes, source) => step@ == StepView::Decode(p@, bytes@, source),
            CallStep::DeleteSession(p, result) => step@ == StepView::DeleteSession(
                p@,
                outcome(result),
            ),
            CallStep::Kill(result) => step@ == StepView::Kill(outcome(result)),
            CallStep::Done { outcome: result, session_left } => step@ == (StepView::Done {
                outcome: outcome(result),
                session_left,
            }),
        },
{
}

/// An event of a call says what came about.
pub proof fn event_says_what_it_holds(event: CallEvent, read: StreamRead)
    ensures
        match event {
            CallEvent::Spawned => event@ is Spawned,
            CallEvent::SpawnFailed(kind) => event@ == EventView::SpawnFailed(kind),
            CallEvent::Written => event@ is Written,
            CallEvent::EncodingFailed => event@ is EncodingFailed,
            CallEvent::SendFailed => event@ is SendFailed,
            CallEvent::Replied(head) => event@ == EventView::Replied(head@),
            CallEvent::Line(bytes) => event@ == EventView::Line(bytes@),
            CallEvent::Piece(bytes) => event@ == EventView::Piece(bytes@),
            CallEvent::BodyEnd => event@ is BodyEnd,
            CallEvent::Stream(read) => event@ == EventView::Stream(read@),
            CallEvent::ReadFailed => event@ is ReadFailed,
            CallEvent::Decoded(response) => event@ == EventView::Decoded(
                optional_response(response),
            ),
            CallEvent::SessionDeleted => event@ is SessionDeleted,
            CallEvent::Killed => event@ is Killed,
            CallEvent::KillFailed => event@ is KillFailed,
            CallEvent::TimedOut => event@ is TimedOut,
        },
        match read {
            StreamRead::Event(event) => read@ == (StreamReadView::Event {
                event_type: event.event_type@,
                data: event.data@,
            }),
            StreamRead::Overflow => read@ is Overflow,
            StreamRead::End => read@ is End,
        },
{
}

/// A proof says what was called, and its digests and counts.
pub proof fn proof_says_what_it_holds(proved: McpCallProofResult)
    ensures
        proved@.protocol_version == proved.protocol_version@,
        proved@.server_name == proved.server_name@,
        proved@.runtime_scope_id == optional_text(proved.runtime_scope_id),
        proved@.tool == proved.tool@,
        proved@.authenticated_subject_sha256 == proved.authenticated_subject_sha256@,
        proved@.arguments_sha256 == proved.arguments_sha256@,
        proved@.tools_sha256 == proved.tools_sha256@,
        proved@.result_sha256 == proved.result_sha256@,
        proved@.proof_sha256 == proved.proof_sha256@,
        proved@.result_bytes == proved.result_bytes,
        proved@.content_items == proved.content_items,
        proved@.qualification is Some <==> proved.qualification is Some,
        proved.qualification is Some ==> proved@.qualification->0 == proved.qualification->0@,
{
}

/// A binding says what it binds to.
pub proof fn binding_says_what_it_holds(binding: McpQualificationBinding)
    ensures
        binding@.schema_version == binding.schema_version,
        binding@.capability_sha256 == binding.capability_sha256@,
        binding@.authenticated_subject_sha256 == binding.authenticated_subject_sha256@,
        binding@.conversation_sha256 == binding.conversation_sha256@,
        binding@.runtime_id_sha256 == binding.runtime_id_sha256@,
        binding@.backend_pid == binding.backend_pid,
        binding@.backend_start_time == binding.backend_start_time,
        binding@.backend_executable_sha256 == binding.backend_executable_sha256@,
        binding@.operation == binding.operation@,
        binding@.arguments_sha256 == binding.arguments_sha256@,
        binding@.run_id == binding.run_id@,
        binding@.machine_challenge_sha256 == binding.machine_challenge_sha256@,
        binding@.issued_at_ms == binding.issued_at_ms,
        binding@.expires_at_ms == binding.expires_at_ms,
        binding@.binding_sha256 == binding.binding_sha256@,
{
}

/// What is known of a backend, and what identifies it, is said as it is.
pub proof fn backend_says_what_it_holds(facts: BackendFacts, identity: BackendIdentity)
    ensures
        facts@.pid == facts.pid,
        facts@.start_time == facts.start_time,
        facts@.executable == optional_bytes(facts.executable),
        identity@.pid == identity.pid,
        identity@.start_time == identity.start_time,
        identity@.executable_sha256 == identity.executable_sha256@,
        identity@.runtime_id_sha256 == identity.runtime_id_sha256@,
{
}

/// What stands behind a capability is said as it is: its user, its conversation, what was asked for
/// and what it is bound to.
pub proof fn capability_says_what_it_holds(
    order: MintOrder,
    pending: PendingQualification,
    admitted: Admitted,
    issued: McpQualificationCapabilityResult,
)
    ensures
        order@.user_id == order.user_id@,
        order@.conversation_id == order.conversation_id@,
        order@.request == order.request,
        pending@.user_id == pending.user_id@,
        pending@.conversation_id == pending.conversation_id@,
        pending@.request == pending.request,
        pending@.binding == pending.binding@,
        admitted@.user_id == admitted.user_id@,
        admitted@.conversation_id == admitted.conversation_id@,
        admitted@.transport == admitted.transport,
        admitted@.binding == admitted.binding@,
        issued@.capability == issued.capability@,
        issued@.expires_at_ms == issued.expires_at_ms,
{
}

/// The steps towards a capability and with it, and what comes of them, say what they are.
pub proof fn qualification_says_what_it_holds(
    reply: OwnerReply,
    mint: MintStep,
    step: ConsumeStep,
    event: ConsumeEvent,
)
    ensures
        match reply {
            OwnerReply::Owner(owner) => reply@ == OwnerView::Owner(owner@),
            OwnerReply::Nobody => reply@ is Nobody,
            OwnerReply::Failed => reply@ is Failed,
        },
        match mint {
            MintStep::LookUpOwner(order) => mint@ == MintView::LookUpOwner(order@),
            MintStep::Identify(order) => mint@ == MintView::Identify(order@),
            MintStep::Issue(order, identity) => mint@ == MintView::Issue(order@, identity@),
            MintStep::Done(result) => mint@ == MintView::Done(verdict(result)),
        },
        match step {
            ConsumeStep::LookUpOwner(pending) => step@ == ConsumeView::LookUpOwner(pending@),
            ConsumeStep::Identify(pending) => step@ == ConsumeView::Identify(pending@),
            ConsumeStep::Call(admitted, call) => step@ == ConsumeView::Call(admitted@, call@),
            ConsumeStep::IdentifyAgain(admitted, proved) => step@ == ConsumeView::IdentifyAgain(
                admitted@,
                proved@,
            ),
            ConsumeStep::LookUpOwnerAgain(admitted, proved) => step@
                == ConsumeView::LookUpOwnerAgain(admitted@, proved@),
            ConsumeStep::Done(result) => step@ == ConsumeView::Done(verdict(result)),
        },
        match event {
            ConsumeEvent::Owner(reply) => event@ == ConsumeEventView::Owner(reply@),
            ConsumeEvent::Backend(facts) => event@ == ConsumeEventView::Backend(facts@),
            ConsumeEvent::Call(event_of_call) => event@ == ConsumeEventView::Call(event_of_call@),
            ConsumeEvent::CallOver => event@ is CallOver,
        },
{
}

} // verus!
