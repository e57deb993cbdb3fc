//! Capabilities: each allows one call, once, to the one who asked for it.
//!
//! Asking for a capability and using it both go on in steps. A step is what has to be done next.
//! Whoever does it hands back what came of it, as an event, and gets the step after that.

use vstd::prelude::*;

use crate::api::{
    BindingView, McpCallProofResult, McpQualificationBinding, McpQualificationCapabilityResult,
    McpQualificationRequest, McpServerTransport, ProofView,
};
use crate::backend::{
    backend_identity, identity_of, require_same_backend, same_backend, BackendFacts,
    BackendIdentity, FactsView, IdentityView,
};
use crate::binding::{bind, binding_of, expiry, request_outcome, validate_binding_input};
use crate::capability::{
    acceptable_capability, is_acceptable_capability, new_capability, random_uuid,
};
use crate::clock::{epoch_millis, now_ms};
use crate::failure::FailureView;
use crate::json::json_bytes;
use crate::lifecycle::{next_step, CallEvent, CallStep, ChannelView, EventView, StepView};
use crate::pending::{
    insert_pending, take_pending, unexpired, PendingQualification, PendingStore, PendingView,
    MAX_PENDING_CAPABILITIES,
};
use crate::prepared::{prepare, PreparedView};
use crate::service::{
    channel_outcome, first_step, in_scope, transport_url, McpConnectionTestService,
};
use crate::text::same_text;
use crate::verdict::{verdict, QualificationError, QualificationErrorView};

verus! {

/// What looking up the owner of a conversation brought.
#[derive(Debug)]
pub enum OwnerReply {
    Owner(String),
    /// The conversation has no owner.
    Nobody,
    /// The owner could not be looked up.
    Failed,
}

/// What an [`OwnerReply`] says.
pub enum OwnerView {
    Owner(Seq<char>),
    Nobody,
    Failed,
}

impl View for OwnerReply {
    type V = OwnerView;

    open spec fn view(&self) -> OwnerView {
        match self {
            OwnerReply::Owner(owner) => OwnerView::Owner(owner@),
            OwnerReply::Nobody => OwnerView::Nobody,
            OwnerReply::Failed => OwnerView::Failed,
        }
    }
}

/// What comes of holding `user_id` against the owner of a conversation.
pub open spec fn owner_outcome(reply: OwnerView, user_id: Seq<char>) -> Result<
    (),
    QualificationErrorView,
> {
    match reply {
        OwnerView::Owner(owner) => if owner == user_id {
            Ok(())
        } else {
            Err(QualificationErrorView::Unauthorized)
        },
        OwnerView::Nobody => Err(QualificationErrorView::Unauthorized),
        OwnerView::Failed => Err(QualificationErrorView::Internal),
    }
}

/// Checks that the owner of a conversation is `user_id`.
pub fn require_owner(reply: &OwnerReply, user_id: &str) -> (r: Result<(), QualificationError>)
    ensures
        verdict(r) == owner_outcome(reply@, user_id@),
{
    match reply {
        OwnerReply::Owner(owner) => if same_text(owner.as_str(), user_id) {
            Ok(())
        } else {
            Err(QualificationError::Unauthorized)
        },
        OwnerReply::Nobody => Err(QualificationError::Unauthorized),
        OwnerReply::Failed => Err(QualificationError::Internal),
    }
}

/// What comes of holding a pending capability against who uses it, where and when.
pub open spec fn context_outcome(
    pending: PendingView,
    user_id: Seq<char>,
    conversation_id: Seq<char>,
    now_ms: u64,
) -> Result<(), QualificationErrorView> {
    if pending.user_id != user_id || pending.conversation_id != conversation_id {
        Err(QualificationErrorView::Unauthorized)
    } else if now_ms >= pending.binding.expires_at_ms {
        Err(QualificationErrorView::Expired)
    } else {
        Ok(())
    }
}

/// Checks that `user_id` may use a pending capability in the conversation `conversation_id` at
/// `now_ms`.
pub fn validate_consume_context(
    pending: &PendingQualification,
    user_id: &str,
    conversation_id: &str,
    now_ms: u64,
) -> (r: Result<(), QualificationError>)
    ensures
        verdict(r) == context_outcome(pending@, user_id@, conversation_id@, now_ms),
{
    if !same_text(pending.user_id.as_str(), user_id) || !same_text(
        pending.conversation_id.as_str(),
        conversation_id,
    ) {
        return Err(QualificationError::Unauthorized);
    }
    if now_ms >= pending.binding.expires_at_ms {
        return Err(QualificationError::Expired);
    }
    Ok(())
}

/// A request for a capability that has passed its checks.
#[derive(Debug)]
pub struct MintOrder {
    pub user_id: String,
    pub conversation_id: String,
    pub request: McpQualificationRequest,
}

/// What a [`MintOrder`] says.
pub struct OrderView {
    pub user_id: Seq<char>,
    pub conversation_id: Seq<char>,
    pub request: McpQualificationRequest,
}

impl View for MintOrder {
    type V = OrderView;

    open spec fn view(&self) -> OrderView {
        OrderView {
            user_id: self.user_id@,
            conversation_id: self.conversation_id@,
            request: self.request,
        }
    }
}

/// What has to be done next for a capability to be issued.
#[derive(Debug)]
pub enum MintStep {
    /// Look up the owner of the conversation.
    LookUpOwner(MintOrder),
    /// Find out which backend this is.
    Identify(MintOrder),
    /// Issue the capability.
    Issue(MintOrder, BackendIdentity),
    /// Nothing: there is an answer.
    Done(Result<McpQualificationCapabilityResult, QualificationError>),
}

/// What a capability's receiver is told.
pub struct IssuedView {
    pub capability: Seq<char>,
    pub expires_at_ms: u64,
}

impl View for McpQualificationCapabilityResult {
    type V = IssuedView;

    open spec fn view(&self) -> IssuedView {
        IssuedView { capability: self.capability@, expires_at_ms: self.expires_at_ms }
    }
}

/// What a [`MintStep`] says.
pub enum MintView {
    LookUpOwner(OrderView),
    Identify(OrderView),
    Issue(OrderView, IdentityView),
    Done(Result<IssuedView, QualificationErrorView>),
}

impl View for MintStep {
    type V = MintView;

    open spec fn view(&self) -> MintView {
        match self {
            MintStep::LookUpOwner(order) => MintView::LookUpOwner(order@),
            MintStep::Identify(order) => MintView::Identify(order@),
            MintStep::Issue(order, identity) => MintView::Issue(order@, identity@),
            MintStep::Done(result) => MintView::Done(verdict(*result)),
        }
    }
}

/// The first step towards a capability.
pub open spec fn first_mint_step(order: OrderView) -> MintView {
    match request_outcome(order.request) {
        Ok(_) => MintView::LookUpOwner(order),
        Err(error) => MintView::Done(Err(error)),
    }
}

/// What follows once the owner of the conversation has been looked up.
pub open spec fn after_owner(step: MintView, reply: OwnerView) -> MintView {
    match step {
        MintView::LookUpOwner(order) => match owner_outcome(reply, order.user_id) {
            Ok(_) => MintView::Identify(order),
            Err(error) => MintView::Done(Err(error)),
        },
        _ => step,
    }
}

/// What follows once it is known which backend this is.
pub open spec fn after_backend(step: MintView, facts: FactsView) -> MintView {
    match step {
        MintView::Identify(order) => match identity_of(facts) {
            Ok(identity) => MintView::Issue(order, identity),
            Err(error) => MintView::Done(Err(error)),
        },
        _ => step,
    }
}

/// What is pending once `order` has been carried out with `capability` by the backend `identity`
/// at `now_ms`, and the answer. The arguments of the request are `arguments_bytes` as JSON text.
pub open spec fn issue_outcome(
    pending: Map<Seq<char>, PendingView>,
    order: OrderView,
    arguments_bytes: Seq<u8>,
    identity: IdentityView,
    now_ms: u64,
    capability: Seq<char>,
) -> (Map<Seq<char>, PendingView>, Result<IssuedView, QualificationErrorView>) {
    let live = unexpired(pending, now_ms);
    if live.len() >= MAX_PENDING_CAPABILITIES {
        (live, Err(QualificationErrorView::Internal))
    } else {
        (
            live.insert(
                capability,
                PendingView {
                    user_id: order.user_id,
                    conversation_id: order.conversation_id,
                    request: order.request,
                    binding: binding_of(
                        order.user_id,
                        order.conversation_id,
                        order.request,
                        arguments_bytes,
                        identity,
                        now_ms,
                        capability,
                    ),
                },
            ),
            Ok(IssuedView { capability, expires_at_ms: expiry(now_ms) }),
        )
    }
}

/// What is pending once the backend `identity` has carried out `order`, and the answer, if the clock
/// says `now` and chance has given `capability`.
pub open spec fn mint_outcome(
    pending: Map<Seq<char>, PendingView>,
    order: OrderView,
    identity: IdentityView,
    now: Result<u64, QualificationErrorView>,
    capability: Seq<char>,
) -> (Map<Seq<char>, PendingView>, Result<IssuedView, QualificationErrorView>) {
    match now {
        Err(error) => (pending, Err(error)),
        Ok(now_ms) => issue_outcome(
            pending,
            order,
            json_bytes(order.request.arguments@),
            identity,
            now_ms,
            capability,
        ),
    }
}

/// Whether the backend `identity`, by carrying out `order`, may turn what is pending from `before`
/// into `after` and give `answer`, for some time of day and some random UUID.
pub open spec fn mints(
    before: Map<Seq<char>, PendingView>,
    order: OrderView,
    identity: IdentityView,
    answer: Result<IssuedView, QualificationErrorView>,
    after: Map<Seq<char>, PendingView>,
) -> bool {
    exists|nanos: int, capability: Seq<char>|
        #![trigger epoch_millis(nanos), random_uuid(capability)]
        random_uuid(capability) && (after, answer) == mint_outcome(
            before,
            order,
            identity,
            epoch_millis(nanos),
            capability,
        )
}

impl MintStep {
    /// What follows once the owner of the conversation has been looked up. Where that was not asked
    /// for, nothing changes.
    pub fn owner_found(self, reply: &OwnerReply) -> (step: MintStep)
        ensures
            step@ == after_owner(self@, reply@),
    {
        match self {
            MintStep::LookUpOwner(order) => match require_owner(reply, order.user_id.as_str()) {
                Ok(_) => MintStep::Identify(order),
                Err(error) => MintStep::Done(Err(error)),
            },
            other => other,
        }
    }

    /// What follows once it is known which backend this is. Where that was not asked for, nothing
    /// changes.
    pub fn backend_found(self, facts: &BackendFacts) -> (step: MintStep)
        ensures
            step@ == after_backend(self@, facts@),
    {
        match self {
            MintStep::Identify(order) => match backend_identity(facts) {
                Ok(identity) => MintStep::Issue(order, identity),
                Err(error) => MintStep::Done(Err(error)),
            },
            other => other,
        }
    }
}

/// What a used capability allows while the call is on its way.
#[derive(Debug)]
pub struct Admitted {
    pub user_id: String,
    pub conversation_id: String,
    pub transport: McpServerTransport,
    pub binding: McpQualificationBinding,
}

/// What an [`Admitted`] says.
pub struct AdmittedView {
    pub user_id: Seq<char>,
    pub conversation_id: Seq<char>,
    pub transport: McpServerTransport,
    pub binding: BindingView,
}

impl View for Admitted {
    type V = AdmittedView;

    open spec fn view(&self) -> AdmittedView {
        AdmittedView {
            user_id: self.user_id@,
            conversation_id: self.conversation_id@,
            transport: self.transport,
            binding: self.binding@,
        }
    }
}

/// What has to be done next with a capability that is used.
#[derive(Debug)]
pub enum ConsumeStep {
    /// Look up the owner of the conversation.
    LookUpOwner(PendingQualification),
    /// Find out which backend this is.
    Identify(PendingQualification),
    /// Go on with the call, and tell when it is over.
    Call(Admitted, CallStep),
    /// Find out once more which backend this is.
    IdentifyAgain(Admitted, McpCallProofResult),
    /// Look up the owner of the conversation once more.
    LookUpOwnerAgain(Admitted, McpCallProofResult),
    /// Nothing: there is an answer.
    Done(Result<McpCallProofResult, QualificationError>),
}

/// What a [`ConsumeStep`] says.
pub enum ConsumeView {
    LookUpOwner(PendingView),
    Identify(PendingView),
    Call(AdmittedView, StepView),
    IdentifyAgain(AdmittedView, ProofView),
    LookUpOwnerAgain(AdmittedView, ProofView),
    Done(Result<ProofView, QualificationErrorView>),
}

impl View for ConsumeStep {
    type V = ConsumeView;

    open spec fn view(&self) -> ConsumeView {
        match self {
            ConsumeStep::LookUpOwner(pending) => ConsumeView::LookUpOwner(pending@),
            ConsumeStep::Identify(pending) => ConsumeView::Identify(pending@),
            ConsumeStep::Call(admitted, step) => ConsumeView::Call(admitted@, step@),
            ConsumeStep::IdentifyAgain(admitted, proved) => ConsumeView::IdentifyAgain(
                admitted@,
                proved@,
            ),
            ConsumeStep::LookUpOwnerAgain(admitted, proved) => ConsumeView::LookUpOwnerAgain(
                admitted@,
                proved@,
            ),
            ConsumeStep::Done(result) => ConsumeView::Done(verdict(*result)),
        }
    }
}

/// What came of a step with a capability that is used. An event that the step at hand does not
/// wait for changes nothing.
#[derive(Debug)]
pub enum ConsumeEvent {
    Owner(OwnerReply),
    Backend(BackendFacts),
    /// The call went on.
    Call(CallEvent),
    /// The call is over, and what it left behind has been seen to.
    CallOver,
}

/// What a [`ConsumeEvent`] says.
pub enum ConsumeEventView {
    Owner(OwnerView),
    Backend(FactsView),
    Call(EventView),
    CallOver,
}

impl View for ConsumeEvent {
    type V = ConsumeEventView;

    open spec fn view(&self) -> ConsumeEventView {
        match self {
            ConsumeEvent::Owner(reply) => ConsumeEventView::Owner(reply@),
            ConsumeEvent::Backend(facts) => ConsumeEventView::Backend(facts@),
            ConsumeEvent::Call(event) => ConsumeEventView::Call(event@),
            ConsumeEvent::CallOver => ConsumeEventView::CallOver,
        }
    }
}

/// The first step with a capability that `user_id` uses where the clock says `now`.
pub open spec fn admission(
    pending: PendingView,
    user_id: Seq<char>,
    conversation_id: Seq<char>,
    now: Result<u64, QualificationErrorView>,
) -> ConsumeView {
    match now {
        Err(error) => ConsumeView::Done(Err(error)),
        Ok(now_ms) => match context_outcome(pending, user_id, conversation_id, now_ms) {
            Err(error) => ConsumeView::Done(Err(error)),
            Ok(_) => ConsumeView::LookUpOwner(pending),
        },
    }
}

/// What is pending once `user_id` has used `capability`, and the first step with it, if the clock
/// says `now`.
pub open spec fn consume_outcome(
    pending: Map<Seq<char>, PendingView>,
    user_id: Seq<char>,
    conversation_id: Seq<char>,
    capability: Seq<char>,
    now: Result<u64, QualificationErrorView>,
) -> (Map<Seq<char>, PendingView>, ConsumeView) {
    if !acceptable_capability(capability) {
        (pending, ConsumeView::Done(Err(QualificationErrorView::Invalid)))
    } else if !pending.contains_key(capability) {
        (pending, ConsumeView::Done(Err(QualificationErrorView::Unauthorized)))
    } else {
        (
            pending.remove(capability),
            admission(pending[capability], user_id, conversation_id, now),
        )
    }
}

/// Whether the use of `capability` by `user_id` may turn what is pending from `before` into `after`
/// and give `step`, for some time of day.
pub open spec fn consumes(
    before: Map<Seq<char>, PendingView>,
    user_id: Seq<char>,
    conversation_id: Seq<char>,
    capability: Seq<char>,
    step: ConsumeView,
    after: Map<Seq<char>, PendingView>,
) -> bool {
    exists|nanos: int|
        (after, step) == consume_outcome(
            before,
            user_id,
            conversation_id,
            capability,
            #[trigger] epoch_millis(nanos),
        )
}

/// What preparing the call comes to that a pending capability allows.
pub open spec fn allowed_preparation(pending: PendingView) -> Result<PreparedView, FailureView> {
    in_scope(
        prepare(
            pending.request.name@,
            pending.request.tool@,
            pending.request.arguments@,
            json_bytes(pending.request.arguments@),
            pending.user_id,
            pending.request.transport.kind_name(),
        ),
        Some(pending.request.run_id@),
    )
}

/// How the call that a pending capability allows speaks to the server.
pub open spec fn allowed_channel(pending: PendingView) -> Result<ChannelView, FailureView> {
    channel_outcome(pending.request.transport, transport_url(pending.request.transport))
}

/// The first step of the call that a pending capability allows.
pub open spec fn allowed_call(pending: PendingView) -> StepView {
    first_step(allowed_preparation(pending), allowed_channel(pending))
}

/// What a pending capability allows while the call is on its way.
pub open spec fn admitted_by(pending: PendingView) -> AdmittedView {
    AdmittedView {
        user_id: pending.user_id,
        conversation_id: pending.conversation_id,
        transport: pending.request.transport,
        binding: pending.binding,
    }
}

/// Whether `proved` is about the arguments and the user that `binding` is bound to.
pub open spec fn matches_binding(proved: ProofView, binding: BindingView) -> bool {
    &&& proved.arguments_sha256 == binding.arguments_sha256
    &&& proved.authenticated_subject_sha256 == binding.authenticated_subject_sha256
}

/// The answer once every check has passed: the proof, together with what the capability was bound
/// to.
pub open spec fn qualified(admitted: AdmittedView, proved: ProofView) -> Result<
    ProofView,
    QualificationErrorView,
> {
    if matches_binding(proved, admitted.binding) {
        Ok(ProofView { qualification: Some(admitted.binding), ..proved })
    } else {
        Err(QualificationErrorView::Internal)
    }
}

/// What follows `step` if `event` came of it.
pub open spec fn next_consume(step: ConsumeView, event: ConsumeEventView) -> ConsumeView {
    match (step, event) {
        (ConsumeView::LookUpOwner(pending), ConsumeEventView::Owner(reply)) => match owner_outcome(
            reply,
            pending.user_id,
        ) {
            Err(error) => ConsumeView::Done(Err(error)),
            Ok(_) => ConsumeView::Identify(pending),
        },
        (ConsumeView::Identify(pending), ConsumeEventView::Backend(facts)) => match same_backend(
            pending.binding,
            facts,
        ) {
            Err(error) => ConsumeView::Done(Err(error)),
            Ok(_) => ConsumeView::Call(
                admitted_by(pending),
                allowed_call(pending),
            ),
        },
        (ConsumeView::Call(admitted, call), ConsumeEventView::Call(event)) => ConsumeView::Call(
            admitted,
            next_step(call, event),
        ),
        (
            ConsumeView::Call(admitted, StepView::Done { outcome, .. }),
            ConsumeEventView::CallOver,
        ) => match outcome {
            Err(error) => ConsumeView::Done(Err(QualificationErrorView::Call(error))),
            Ok(proved) => ConsumeView::IdentifyAgain(admitted, proved),
        },
        (
            ConsumeView::IdentifyAgain(admitted, proved),
            ConsumeEventView::Backend(facts),
        ) => match same_backend(admitted.binding, facts) {
            Err(error) => ConsumeView::Done(Err(error)),
            Ok(_) => ConsumeView::LookUpOwnerAgain(admitted, proved),
        },
        (
            ConsumeView::LookUpOwnerAgain(admitted, proved),
            ConsumeEventView::Owner(reply),
        ) => match owner_outcome(reply, admitted.user_id) {
            Err(error) => ConsumeView::Done(Err(error)),
            Ok(_) => ConsumeView::Done(qualified(admitted, proved)),
        },
        _ => step,
    }
}

/// The first step with a capability that `user_id` uses where the clock says `now`.
pub fn accept(
    pending: PendingQualification,
    user_id: &str,
    conversation_id: &str,
    now: Result<u64, QualificationError>,
) -> (step: ConsumeStep)
    ensures
        step@ == admission(pending@, user_id@, conversation_id@, verdict(now)),
{
    let now_ms: u64 = match now {
        Ok(now_ms) => now_ms,
        Err(error) => return ConsumeStep::Done(Err(error)),
    };
    match validate_consume_context(&pending, user_id, conversation_id, now_ms) {
        Err(error) => ConsumeStep::Done(Err(error)),
        Ok(_) => ConsumeStep::LookUpOwner(pending),
    }
}

fn qualify(admitted: Admitted, proved: McpCallProofResult) -> (r: Result<
    McpCallProofResult,
    QualificationError,
>)
    ensures
        verdict(r) == qualified(admitted@, proved@),
{
    if !same_text(
        proved.arguments_sha256.as_str(),
        admitted.binding.arguments_sha256.as_str(),
    ) || !same_text(
        proved.authenticated_subject_sha256.as_str(),
        admitted.binding.authenticated_subject_sha256.as_str(),
    ) {
        return Err(QualificationError::Internal);
    }
    Ok(McpCallProofResult { qualification: Some(admitted.binding), ..proved })
}

/// Issues capabilities and honours them.
#[derive(Debug)]
pub struct McpQualificationService {
    pub pending: PendingStore,
    pub calls: McpConnectionTestService,
}

impl McpQualificationService {
    /// A service with no pending capabilities.
    pub fn new(calls: McpConnectionTestService) -> (service: McpQualificationService)
        ensures
            service.pending@ == Map::<Seq<char>, PendingView>::empty(),
            service.calls == calls,
    {
        McpQualificationService { pending: PendingStore::new(), calls }
    }

    /// The first step towards a capability for `request`.
    pub fn mint(
        &self,
        user_id: &str,
        conversation_id: &str,
        request: McpQualificationRequest,
    ) -> (step: MintStep)
        ensures
            step@ == first_mint_step(
                OrderView { user_id: user_id@, conversation_id: conversation_id@, request },
            ),
    {
        match validate_binding_input(&request) {
            Ok(_) => MintStep::LookUpOwner(
                MintOrder {
                    user_id: user_id.to_owned(),
                    conversation_id: conversation_id.to_owned(),
                    request,
                },
            ),
            Err(error) => MintStep::Done(Err(error)),
        }
    }

    /// Carries out `order` with `capability` at `now_ms`. The arguments of its request are
    /// `arguments_bytes` as JSON text.
    pub fn issue_at(
        &mut self,
        order: MintOrder,
        arguments_bytes: &[u8],
        identity: BackendIdentity,
        now_ms: u64,
        capability: String,
    ) -> (r: Result<McpQualificationCapabilityResult, QualificationError>)
        ensures
            (final(self).pending@, verdict(r)) == issue_outcome(
                old(self).pending@,
                order@,
                arguments_bytes@,
                identity@,
                now_ms,
                capability@,
            ),
            final(self).calls == old(self).calls,
    {
        let MintOrder { user_id, conversation_id, request } = order;
        let binding = bind(
            user_id.as_str(),
            conversation_id.as_str(),
            &request,
            arguments_bytes,
            identity,
            now_ms,
            capability.as_str(),
        );
        let expires_at_ms: u64 = binding.expires_at_ms;
        let item = PendingQualification { user_id, conversation_id, request, binding };
        match insert_pending(&mut self.pending, capability.clone(), item, now_ms) {
            Ok(_) => Ok(McpQualificationCapabilityResult { capability, expires_at_ms }),
            Err(error) => Err(error),
        }
    }

    /// Has the backend `identity` carry out `order`, if the clock says `now` and chance has given
    /// `capability`.
    pub fn mint_at(
        &mut self,
        order: MintOrder,
        identity: BackendIdentity,
        now: Result<u64, QualificationError>,
        capability: String,
    ) -> (r: Result<McpQualificationCapabilityResult, QualificationError>)
        ensures
            (final(self).pending@, verdict(r)) == mint_outcome(
                old(self).pending@,
                order@,
                identity@,
                verdict(now),
                capability@,
            ),
            final(self).calls == old(self).calls,
    {
        let now_ms: u64 = match now {
            Ok(now_ms) => now_ms,
            Err(error) => return Err(error),
        };
        let arguments_bytes = order.request.arguments.to_bytes();
        self.issue_at(order, arguments_bytes.as_slice(), identity, now_ms, capability)
    }

    /// Issues the capability. Where `step` does not ask for that, nothing changes.
    pub fn issue(&mut self, step: MintStep) -> (next: MintStep)
        ensures
            step@ is Issue ==> next@ is Done && mints(
                old(self).pending@,
                step@->Issue_0,
                step@->Issue_1,
                next@->Done_0,
                final(self).pending@,
            ),
            !(step@ is Issue) ==> next@ == step@ && final(self).pending@ == old(self).pending@,
            final(self).calls == old(self).calls,
    {
        match step {
            MintStep::Issue(order, identity) => {
                let now = now_ms();
                let ghost nanos = choose|nanos: int| verdict(now) == #[trigger] epoch_millis(nanos);
                let capability = new_capability();
                assert(random_uuid(capability@) && verdict(now) == epoch_millis(nanos));
                MintStep::Done(self.mint_at(order, identity, now, capability))
            },
            other => other,
        }
    }

    /// Takes a capability out and gives the first step with it, if the clock says `now`.
    pub fn consume_at(
        &mut self,
        user_id: &str,
        conversation_id: &str,
        capability: &str,
        now: Result<u64, QualificationError>,
    ) -> (step: ConsumeStep)
        ensures
            (final(self).pending@, step@) == consume_outcome(
                old(self).pending@,
                user_id@,
                conversation_id@,
                capability@,
                verdict(now),
            ),
            final(self).calls == old(self).calls,
    {
        if !is_acceptable_capability(capability) {
            return ConsumeStep::Done(Err(QualificationError::Invalid));
        }
        match take_pending(&mut self.pending, capability) {
            Ok(pending) => accept(pending, user_id, conversation_id, now),
            Err(error) => ConsumeStep::Done(Err(error)),
        }
    }

    /// Takes a capability out and gives the first step with it. Whatever comes later, it cannot be
    /// used again.
    pub fn consume(&mut self, user_id: &str, conversation_id: &str, capability: &str) -> (step:
        ConsumeStep)
        ensures
            consumes(
                old(self).pending@,
                user_id@,
                conversation_id@,
                capability@,
                step@,
                final(self).pending@,
            ),
            final(self).calls == old(self).calls,
    {
        self.consume_at(user_id, conversation_id, capability, now_ms())
    }
}

impl ConsumeStep {
    /// The step after this one, if `event` came of it. The call is one of `calls`.
    pub fn advance(self, calls: &McpConnectionTestService, event: ConsumeEvent) -> (next:
        ConsumeStep)
        ensures
            next@ == next_consume(self@, event@),
    {
        match (self, event) {
            (ConsumeStep::LookUpOwner(pending), ConsumeEvent::Owner(reply)) => match require_owner(
                &reply,
                pending.user_id.as_str(),
            ) {
                Err(error) => ConsumeStep::Done(Err(error)),
                Ok(_) => ConsumeStep::Identify(pending),
            },
            (
                ConsumeStep::Identify(pending),
                ConsumeEvent::Backend(facts),
            ) => match require_same_backend(&pending.binding, &facts) {
                Err(error) => ConsumeStep::Done(Err(error)),
                Ok(_) => Self::begin_call(calls, pending),
            },
            (ConsumeStep::Call(admitted, call), ConsumeEvent::Call(event)) => ConsumeStep::Call(
                admitted,
                call.advance(event),
            ),
            (
                ConsumeStep::Call(admitted, CallStep::Done { outcome, .. }),
                ConsumeEvent::CallOver,
            ) => match outcome {
                Err(error) => ConsumeStep::Done(Err(QualificationError::Call(error))),
                Ok(proved) => ConsumeStep::IdentifyAgain(admitted, proved),
            },
            (
                ConsumeStep::IdentifyAgain(admitted, proved),
                ConsumeEvent::Backend(facts),
            ) => match require_same_backend(&admitted.binding, &facts) {
                Err(error) => ConsumeStep::Done(Err(error)),
                Ok(_) => ConsumeStep::LookUpOwnerAgain(admitted, proved),
            },
            (
                ConsumeStep::LookUpOwnerAgain(admitted, proved),
                ConsumeEvent::Owner(reply),
            ) => match require_owner(&reply, admitted.user_id.as_str()) {
                Err(error) => ConsumeStep::Done(Err(error)),
                Ok(_) => ConsumeStep::Done(qualify(admitted, proved)),
            },
            (step, _) => step,
        }
    }

    fn begin_call(calls: &McpConnectionTestService, pending: PendingQualification) -> (step: ConsumeStep)
        ensures
            step@ == ConsumeView::Call(admitted_by(pending@), allowed_call(pending@)),
    {
        let PendingQualification { user_id, conversation_id, request, binding } = pending;
        let McpQualificationRequest { name, transport, tool, arguments, run_id, .. } = request;
        let call = calls.call_proof(
            name.as_str(),
            &transport,
            tool.as_str(),
            arguments,
            user_id.as_str(),
            Some(run_id.as_str()),
        );
        ConsumeStep::Call(Admitted { user_id, conversation_id, transport, binding }, call)
    }
}

} // verus!
