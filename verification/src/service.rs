//! The entry to a call proof.

use vstd::prelude::*;

use crate::api::{transport_type, McpServerTransport};
use crate::failure::{FailureView, McpCallProofFailure};
use crate::json::{json_bytes, Json};
use crate::lifecycle::{
    over, CallStep, Channel, ChannelView, Exchange, ExchangeView, Outgoing, OutgoingView, Progress,
    ProgressView, StepView, INITIALIZE_REQUEST_ID,
};
use crate::prepared::{outcome, prepare, PreparedCall, PreparedView};
use crate::urls::{parsed_url, url_outcome, validate_transport_url, UrlView};

verus! {

/// How long a call proof may take at most.
pub const CALL_PROOF_TIMEOUT_NANOS: u64 = 30_000_000_000;

/// Makes call proofs.
#[derive(Debug)]
pub struct McpConnectionTestService {
    /// How long one test of a connection may take.
    pub timeout_nanos: u128,
}

/// The start of a call over `channel`.
pub open spec fn at_start(prepared: PreparedView, channel: ChannelView) -> ProgressView {
    ProgressView {
        prepared,
        channel,
        exchange: ExchangeView::Initialize,
        offered: None,
        session: None,
        endpoint: None,
    }
}

/// `prepared` within a runtime scope, if there is one.
pub open spec fn in_scope(
    prepared: Result<PreparedView, FailureView>,
    runtime_scope_id: Option<Seq<char>>,
) -> Result<PreparedView, FailureView> {
    match prepared {
        Ok(call) => Ok(PreparedView { runtime_scope_id, ..call }),
        Err(error) => Err(error),
    }
}

/// The URL at which `transport` reaches the server, where it is one.
pub open spec fn transport_url(transport: McpServerTransport) -> Option<UrlView> {
    match transport {
        McpServerTransport::Stdio { .. } => None,
        McpServerTransport::Http { url, .. } => parsed_url(url@),
        McpServerTransport::Sse { url, .. } => parsed_url(url@),
    }
}

/// How `transport` speaks to the server, where its URL was read as `url`.
pub open spec fn channel_outcome(transport: McpServerTransport, url: Option<UrlView>) -> Result<
    ChannelView,
    FailureView,
> {
    match transport {
        McpServerTransport::Stdio { .. } => Ok(ChannelView::Stdio),
        McpServerTransport::Http { .. } => match url_outcome(url, "http"@) {
            Err(error) => Err(error),
            Ok(_) => Ok(ChannelView::Http),
        },
        McpServerTransport::Sse { url: text, .. } => match url_outcome(url, "sse"@) {
            Err(error) => Err(error),
            Ok(base) => Ok(ChannelView::Sse { url: text@, base }),
        },
    }
}

/// The first step of a call.
pub open spec fn first_step(
    prepared: Result<PreparedView, FailureView>,
    channel: Result<ChannelView, FailureView>,
) -> StepView {
    match (prepared, channel) {
        (Err(error), _) => over(Err(error)),
        (_, Err(error)) => over(Err(error)),
        (Ok(call), Ok(channel)) => match channel {
            ChannelView::Stdio => StepView::Spawn(at_start(call, channel)),
            ChannelView::Http => StepView::Send(
                at_start(call, channel),
                OutgoingView::Initialize { id: INITIALIZE_REQUEST_ID },
            ),
            ChannelView::Sse { .. } => StepView::Open(at_start(call, channel)),
        },
    }
}

fn begin(prepared: PreparedCall, channel: Channel) -> (p: Progress)
    ensures
        p@ == at_start(prepared@, channel@),
{
    Progress {
        prepared,
        channel,
        exchange: Exchange::Initialize,
        offered: None,
        session: None,
        endpoint: None,
    }
}

/// Checks the URL of `transport`, if it has one, and tells how the server is spoken to.
pub fn channel_of(transport: &McpServerTransport) -> (r: Result<Channel, McpCallProofFailure>)
    ensures
        outcome(r) == channel_outcome(*transport, transport_url(*transport)),
{
    match transport {
        McpServerTransport::Stdio { .. } => Ok(Channel::Stdio),
        McpServerTransport::Http { url, .. } => match validate_transport_url(url.as_str(), "http") {
            Err(error) => Err(error),
            Ok(_) => Ok(Channel::Http),
        },
        McpServerTransport::Sse { url, .. } => match validate_transport_url(url.as_str(), "sse") {
            Err(error) => Err(error),
            Ok(base) => Ok(Channel::Sse { url: url.clone(), base }),
        },
    }
}

/// The first step of a call.
pub fn start_call(
    prepared: Result<PreparedCall, McpCallProofFailure>,
    channel: Result<Channel, McpCallProofFailure>,
) -> (step: CallStep)
    ensures
        step@ == first_step(outcome(prepared), outcome(channel)),
{
    let call = match prepared {
        Ok(call) => call,
        Err(error) => return CallStep::Done { outcome: Err(error), session_left: false },
    };
    let channel = match channel {
        Ok(channel) => channel,
        Err(error) => return CallStep::Done { outcome: Err(error), session_left: false },
    };
    let p = begin(call, channel);
    match &p.channel {
        Channel::Stdio => CallStep::Spawn(p),
        Channel::Http => CallStep::Send(p, Outgoing::Initialize { id: INITIALIZE_REQUEST_ID }),
        Channel::Sse { .. } => CallStep::Open(p),
    }
}

impl McpConnectionTestService {
    /// How long a call proof may take: as long as a test of a connection, but not longer than call
    /// proofs may take at most.
    pub fn time_limit_nanos(&self) -> (limit: u64)
        ensures
            limit == (if self.timeout_nanos < CALL_PROOF_TIMEOUT_NANOS {
                self.timeout_nanos
            } else {
                CALL_PROOF_TIMEOUT_NANOS as u128
            }),
    {
        if self.timeout_nanos < CALL_PROOF_TIMEOUT_NANOS as u128 {
            self.timeout_nanos as u64
        } else {
            CALL_PROOF_TIMEOUT_NANOS
        }
    }

    /// The first step of a call of `tool` with `arguments` on the server `name`.
    pub fn call_proof(
        &self,
        name: &str,
        transport: &McpServerTransport,
        tool: &str,
        arguments: Json,
        authenticated_user_id: &str,
        runtime_scope_id: Option<&str>,
    ) -> (step: CallStep)
        ensures
            step@ == first_step(
                in_scope(
                    prepare(
                        name@,
                        tool@,
                        arguments@,
                        json_bytes(arguments@),
                        authenticated_user_id@,
                        transport.kind_name(),
                    ),
                    match runtime_scope_id {
                        Some(id) => Some(id@),
                        None => None,
                    },
                ),
                channel_outcome(*transport, transport_url(*transport)),
            ),
    {
        let prepared = match PreparedCall::new(
            name,
            tool,
            arguments,
            authenticated_user_id,
            transport_type(transport),
        ) {
            Ok(call) => Ok(call.with_runtime_scope(runtime_scope_id)),
            Err(error) => Err(error),
        };
        start_call(prepared, channel_of(transport))
    }
}

} // verus!
