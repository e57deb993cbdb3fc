//! What comes of asking for a capability and of using it, for every order, user and time.

use vstd::prelude::*;
use vstd::utf8::encode_utf8;

use crate::api::{BindingView, McpQualificationRequest, ProofView};
use crate::backend::{identity_of, same_backend, FactsView, IdentityView};
use crate::binding::{
    binding_document, binding_of, expiry, request_outcome, BINDING_SCHEMA_VERSION,
    CAPABILITY_TTL_MS, MAX_BINDING_BYTES,
};
use crate::capability::{acceptable_capability, random_uuid, MAX_CAPABILITY_BYTES};
use crate::clock::epoch_millis;
use crate::digest::sha256_text;
use crate::json::{json_bytes, JsonTree, NumberView};
use crate::laws::run;
use crate::lifecycle::{next_step, EventView, StepView};
use crate::pending::{unexpired, PendingView, MAX_PENDING_CAPABILITIES};
use crate::prepared::prepare;
use crate::qualification::{
    after_backend, after_owner, allowed_call, consume_outcome, consumes, first_mint_step,
    issue_outcome, mint_outcome, mints, next_consume, owner_outcome, qualified, AdmittedView,
    ConsumeEventView, ConsumeView, IssuedView, MintView, OrderView, OwnerView,
};
use crate::qualification_laws::{allowed_call_is_founded, ends_with};
use crate::service::{channel_outcome, first_step, in_scope, transport_url};
use crate::text::{decimal, white_space};
use crate::value_laws::part;
use crate::verdict::QualificationErrorView;

verus! {

/// How long and how many capabilities may be, and how long each is valid.
pub proof fn limits_are_fixed()
    ensures
        MAX_PENDING_CAPABILITIES == 256,
        MAX_CAPABILITY_BYTES == 128,
        MAX_BINDING_BYTES == 1024,
        BINDING_SCHEMA_VERSION == 1,
        CAPABILITY_TTL_MS == 30 * 1000,
{
}

/// Whether a text holds more than white space.
pub open spec fn speaks(text: Seq<char>) -> bool {
    exists|i: int| 0 <= i < text.len() && !white_space(#[trigger] text[i])
}

/// Whether a text holds more than white space and takes `limit` bytes at most.
pub open spec fn speaks_within(text: Seq<char>, limit: nat) -> bool {
    speaks(text) && encode_utf8(text).len() <= limit
}

/// A capability can be asked for exactly if each of its four texts says something and none is too
/// long, and the arguments are an object.
pub proof fn request_must_say_something(request: McpQualificationRequest)
    ensures
        ({
            let said = speaks_within(request.name@, 1024) && speaks_within(request.tool@, 1024)
                && speaks_within(request.run_id@, 1024) && speaks_within(
                request.machine_challenge@,
                1024,
            ) && request.arguments@ is Object;
            &&& said ==> request_outcome(request) == Ok::<_, QualificationErrorView>(())
            &&& !said ==> request_outcome(request) == Err::<(), _>(QualificationErrorView::Invalid)
        }),
{
}

/// Only the owner of a conversation passes for its owner, and nobody else is told more than that
/// they are not.
pub proof fn only_the_owner_passes(reply: OwnerView, user_id: Seq<char>)
    ensures
        reply == OwnerView::Owner(user_id) <==> owner_outcome(reply, user_id) is Ok,
        reply is Failed ==> owner_outcome(reply, user_id) == Err::<(), _>(
            QualificationErrorView::Internal,
        ),
        !(reply is Failed) && reply != OwnerView::Owner(user_id) ==> owner_outcome(reply, user_id)
            == Err::<(), _>(QualificationErrorView::Unauthorized),
{
}

/// Whether `identity` is that of the process of which `facts` are known.
pub open spec fn identifies(facts: FactsView, identity: IdentityView) -> bool {
    &&& facts.start_time == Some(identity.start_time)
    &&& facts.executable is Some
    &&& identity.pid == facts.pid
    &&& identity.executable_sha256 == sha256_text(facts.executable->0)
    &&& identity.runtime_id_sha256 == sha256_text(
        encode_utf8(
            decimal(facts.pid as nat) + ":"@ + decimal(facts.start_time->0 as nat) + ":"@
                + sha256_text(facts.executable->0),
        ),
    )
}

/// A backend is identified by its number, the time of its start and the digest of its executable,
/// and by the digest of the three. Where one of them is unknown it has no identity.
pub proof fn backend_is_identified_by_its_process(facts: FactsView)
    ensures
        facts.start_time is Some && facts.executable is Some ==> identity_of(facts) is Ok
            && identifies(facts, identity_of(facts)->Ok_0),
        !(facts.start_time is Some && facts.executable is Some) ==> identity_of(facts) == Err::<
            IdentityView,
            _,
        >(QualificationErrorView::Internal),
{
}

/// Whether `binding` names the backend of which `facts` are known, in all four of its members.
pub open spec fn names_backend(binding: BindingView, facts: FactsView) -> bool {
    identifies(
        facts,
        IdentityView {
            pid: binding.backend_pid,
            start_time: binding.backend_start_time,
            executable_sha256: binding.backend_executable_sha256,
            runtime_id_sha256: binding.runtime_id_sha256,
        },
    )
}

/// A binding holds for the backend that it names and for no other.
pub proof fn binding_holds_for_its_backend_alone(binding: BindingView, facts: FactsView)
    ensures
        names_backend(binding, facts) ==> same_backend(binding, facts) == Ok::<
            _,
            QualificationErrorView,
        >(()),
        !names_backend(binding, facts) ==> same_backend(binding, facts) == Err::<(), _>(
            QualificationErrorView::Internal,
        ),
{
}

/// A capability is issued step by step: the request is checked, the owner is looked up, the backend
/// is identified, and each step is taken for the order as it was given. What was not asked for
/// changes nothing.
pub proof fn order_is_kept_on_its_way(
    order: OrderView,
    reply: OwnerView,
    facts: FactsView,
    identity: IdentityView,
    result: Result<IssuedView, QualificationErrorView>,
)
    ensures
        first_mint_step(order) == match request_outcome(order.request) {
            Ok(_) => MintView::LookUpOwner(order),
            Err(_) => MintView::Done(Err(QualificationErrorView::Invalid)),
        },
        reply == OwnerView::Owner(order.user_id) ==> after_owner(
            MintView::LookUpOwner(order),
            reply,
        ) == MintView::Identify(order),
        reply is Failed ==> after_owner(MintView::LookUpOwner(order), reply) == MintView::Done(
            Err(QualificationErrorView::Internal),
        ),
        !(reply is Failed) && reply != OwnerView::Owner(order.user_id) ==> after_owner(
            MintView::LookUpOwner(order),
            reply,
        ) == MintView::Done(Err(QualificationErrorView::Unauthorized)),
        identifies(facts, identity) ==> after_backend(MintView::Identify(order), facts)
            == MintView::Issue(order, identity),
        facts.start_time is None || facts.executable is None ==> after_backend(
            MintView::Identify(order),
            facts,
        ) == MintView::Done(Err(QualificationErrorView::Internal)),
        after_owner(MintView::Identify(order), reply) == MintView::Identify(order),
        after_owner(MintView::Issue(order, identity), reply) == MintView::Issue(order, identity),
        after_owner(MintView::Done(result), reply) == MintView::Done(result),
        after_backend(MintView::LookUpOwner(order), facts) == MintView::LookUpOwner(order),
        after_backend(MintView::Issue(order, identity), facts) == MintView::Issue(order, identity),
        after_backend(MintView::Done(result), facts) == MintView::Done(result),
{
}

/// The names of what stands in the document of a binding.
pub open spec fn binding_names() -> Set<Seq<char>> {
    set![
        "arguments_sha256"@,
        "authenticated_subject_sha256"@,
        "backend_executable_sha256"@,
        "backend_pid"@,
        "backend_start_time"@,
        "capability_sha256"@,
        "conversation_sha256"@,
        "expires_at_ms"@,
        "issued_at_ms"@,
        "machine_challenge_sha256"@,
        "operation"@,
        "run_id"@,
        "runtime_id_sha256"@,
        "schema_version"@,
    ]
}

/// Whether a document holds a text under a name.
pub open spec fn says(document: JsonTree, name: Seq<char>, text: Seq<char>) -> bool {
    part(document, name) == Some(JsonTree::Text(text))
}

/// Whether a document holds a number under a name.
pub open spec fn counts(document: JsonTree, name: Seq<char>, number: int) -> bool {
    part(document, name) == Some(JsonTree::Number(NumberView::Integer(number)))
}

/// The document of a binding holds each of its members under its own name, except its digest, and
/// nothing else.
pub proof fn binding_document_holds_the_binding(binding: BindingView)
    ensures
        ({
            let document = binding_document(binding);
            &&& says(document, "arguments_sha256"@, binding.arguments_sha256)
            &&& says(
                document,
                "authenticated_subject_sha256"@,
                binding.authenticated_subject_sha256,
            )
            &&& says(document, "backend_executable_sha256"@, binding.backend_executable_sha256)
            &&& counts(document, "backend_pid"@, binding.backend_pid as int)
            &&& counts(document, "backend_start_time"@, binding.backend_start_time as int)
            &&& says(document, "capability_sha256"@, binding.capability_sha256)
            &&& says(document, "conversation_sha256"@, binding.conversation_sha256)
            &&& counts(document, "expires_at_ms"@, binding.expires_at_ms as int)
            &&& counts(document, "issued_at_ms"@, binding.issued_at_ms as int)
            &&& says(document, "machine_challenge_sha256"@, binding.machine_challenge_sha256)
            &&& says(document, "operation"@, binding.operation)
            &&& says(document, "run_id"@, binding.run_id)
            &&& says(document, "runtime_id_sha256"@, binding.runtime_id_sha256)
            &&& counts(document, "schema_version"@, binding.schema_version as int)
            &&& document->Object_0.dom() == binding_names()
        }),
{
    reveal_strlit("arguments_sha256");
    reveal_strlit("authenticated_subject_sha256");
    reveal_strlit("backend_executable_sha256");
    reveal_strlit("backend_pid");
    reveal_strlit("backend_start_time");
    reveal_strlit("capability_sha256");
    reveal_strlit("conversation_sha256");
    reveal_strlit("expires_at_ms");
    reveal_strlit("issued_at_ms");
    reveal_strlit("machine_challenge_sha256");
    reveal_strlit("operation");
    reveal_strlit("run_id");
    reveal_strlit("runtime_id_sha256");
    reveal_strlit("schema_version");
    assert("arguments_sha256"@.len() == 16);
    assert("authenticated_subject_sha256"@.len() == 28);
    assert("backend_executable_sha256"@.len() == 25);
    assert("backend_pid"@.len() == 11);
    assert("backend_start_time"@.len() == 18);
    assert("capability_sha256"@.len() == 17 && "capability_sha256"@[0] == 'c');
    assert("conversation_sha256"@.len() == 19);
    assert("expires_at_ms"@.len() == 13);
    assert("issued_at_ms"@.len() == 12);
    assert("machine_challenge_sha256"@.len() == 24);
    assert("operation"@.len() == 9);
    assert("run_id"@.len() == 6);
    assert("runtime_id_sha256"@.len() == 17 && "runtime_id_sha256"@[0] == 'r');
    assert("schema_version"@.len() == 14);
    assert(binding_document(binding)->Object_0.dom() =~= binding_names());
}

/// When a capability expires that is issued at `issued_at_ms`: thirty seconds later, or at the end
/// of time.
pub open spec fn thirty_seconds_after(issued_at_ms: u64) -> int {
    if issued_at_ms + 30_000 <= u64::MAX {
        issued_at_ms + 30_000
    } else {
        u64::MAX as int
    }
}

/// Whether `binding` binds `capability` to the user, the conversation, the tool and the arguments,
/// the run, the challenge, the backend and the thirty seconds from `issued_at_ms` on.
pub open spec fn binds(
    binding: BindingView,
    user_id: Seq<char>,
    conversation_id: Seq<char>,
    request: McpQualificationRequest,
    arguments_bytes: Seq<u8>,
    identity: IdentityView,
    issued_at_ms: u64,
    capability: Seq<char>,
) -> bool {
    &&& binding.schema_version == 1
    &&& binding.capability_sha256 == sha256_text(encode_utf8(capability))
    &&& binding.authenticated_subject_sha256 == sha256_text(encode_utf8(user_id))
    &&& binding.conversation_sha256 == sha256_text(encode_utf8(conversation_id))
    &&& binding.runtime_id_sha256 == identity.runtime_id_sha256
    &&& binding.backend_pid == identity.pid
    &&& binding.backend_start_time == identity.start_time
    &&& binding.backend_executable_sha256 == identity.executable_sha256
    &&& binding.operation == "tools/call:"@ + request.tool@
    &&& binding.arguments_sha256 == sha256_text(arguments_bytes)
    &&& binding.run_id == request.run_id@
    &&& binding.machine_challenge_sha256 == sha256_text(encode_utf8(request.machine_challenge@))
    &&& binding.issued_at_ms == issued_at_ms
    &&& binding.expires_at_ms == thirty_seconds_after(issued_at_ms)
    &&& binding.binding_sha256 == sha256_text(json_bytes(binding_document(binding)))
}

/// A capability is bound to all that it was asked for, and by whom, where and when.
pub proof fn binding_binds(
    user_id: Seq<char>,
    conversation_id: Seq<char>,
    request: McpQualificationRequest,
    arguments_bytes: Seq<u8>,
    identity: IdentityView,
    issued_at_ms: u64,
    capability: Seq<char>,
)
    ensures
        binds(
            binding_of(
                user_id,
                conversation_id,
                request,
                arguments_bytes,
                identity,
                issued_at_ms,
                capability,
            ),
            user_id,
            conversation_id,
            request,
            arguments_bytes,
            identity,
            issued_at_ms,
            capability,
        ),
        expiry(issued_at_ms) == thirty_seconds_after(issued_at_ms),
{
}

/// The capabilities that are valid beyond `now_ms`.
pub open spec fn valid_beyond(pending: Map<Seq<char>, PendingView>, now_ms: u64) -> Set<Seq<char>> {
    pending.dom().filter(
        |capability: Seq<char>| pending[capability].binding.expires_at_ms > now_ms,
    )
}

/// Whether `after` holds what `before` holds of the capabilities in `kept`, and nothing else.
pub open spec fn keeps(
    before: Map<Seq<char>, PendingView>,
    after: Map<Seq<char>, PendingView>,
    kept: Set<Seq<char>>,
) -> bool {
    forall|other: Seq<char>|
        {
            &&& #[trigger] after.contains_key(other) <==> kept.contains(other)
                && before.contains_key(other)
            &&& after.contains_key(other) ==> after[other] == before[other]
        }
}

/// Whether carrying out `order` at `now_ms` with `capability` turns what is pending from `before`
/// into `after` and gives `answer`. What has expired goes. If there are still too many capabilities
/// nothing comes, and otherwise the new one.
pub open spec fn issued_at(
    before: Map<Seq<char>, PendingView>,
    order: OrderView,
    arguments_bytes: Seq<u8>,
    identity: IdentityView,
    now_ms: u64,
    capability: Seq<char>,
    answer: Result<IssuedView, QualificationErrorView>,
    after: Map<Seq<char>, PendingView>,
) -> bool {
    let valid = valid_beyond(before, now_ms);
    if valid.len() >= 256 {
        &&& answer == Err::<IssuedView, _>(QualificationErrorView::Internal)
        &&& keeps(before, after, valid)
    } else {
        &&& answer is Ok
        &&& answer->Ok_0.capability == capability
        &&& answer->Ok_0.expires_at_ms == thirty_seconds_after(now_ms)
        &&& after.contains_key(capability)
        &&& after[capability].user_id == order.user_id
        &&& after[capability].conversation_id == order.conversation_id
        &&& after[capability].request == order.request
        &&& binds(
            after[capability].binding,
            order.user_id,
            order.conversation_id,
            order.request,
            arguments_bytes,
            identity,
            now_ms,
            capability,
        )
        &&& keeps(before, after.remove(capability), valid.remove(capability))
    }
}

/// What comes of carrying out an order, for every time, every capability and all that is pending.
pub proof fn order_is_carried_out(
    pending: Map<Seq<char>, PendingView>,
    order: OrderView,
    arguments_bytes: Seq<u8>,
    identity: IdentityView,
    now_ms: u64,
    capability: Seq<char>,
)
    ensures
        ({
            let (after, answer) = issue_outcome(
                pending,
                order,
                arguments_bytes,
                identity,
                now_ms,
                capability,
            );
            issued_at(
                pending,
                order,
                arguments_bytes,
                identity,
                now_ms,
                capability,
                answer,
                after,
            )
        }),
{
    let live = unexpired(pending, now_ms);
    assert(live.dom() =~= valid_beyond(pending, now_ms));
    binding_binds(
        order.user_id,
        order.conversation_id,
        order.request,
        arguments_bytes,
        identity,
        now_ms,
        capability,
    );
}

/// What comes of an order where the clock gives `now`: nothing changes where it fails, and otherwise
/// the capability is bound to the digest of the arguments that the order holds.
pub proof fn order_is_bound_to_its_arguments(
    pending: Map<Seq<char>, PendingView>,
    order: OrderView,
    identity: IdentityView,
    now: Result<u64, QualificationErrorView>,
    capability: Seq<char>,
)
    ensures
        ({
            let (after, answer) = mint_outcome(pending, order, identity, now, capability);
            match now {
                Err(error) => after == pending && answer == Err::<IssuedView, _>(error),
                Ok(now_ms) => issued_at(
                    pending,
                    order,
                    json_bytes(order.request.arguments@),
                    identity,
                    now_ms,
                    capability,
                    answer,
                    after,
                ),
            }
        }),
{
    if let Ok(now_ms) = now {
        order_is_carried_out(
            pending,
            order,
            json_bytes(order.request.arguments@),
            identity,
            now_ms,
            capability,
        );
    }
}

/// What the clock says `nanos` nanoseconds after the start of 1970, in milliseconds.
pub open spec fn clock_says(nanos: int) -> Result<u64, QualificationErrorView> {
    if nanos < 0 {
        Err(QualificationErrorView::Internal)
    } else {
        Ok((nanos / 1_000_000) as u64)
    }
}

/// Whether an order that is carried out `nanos` nanoseconds after the start of 1970 with
/// `capability` turns what is pending from `before` into `after` and gives `answer`.
pub open spec fn minted_at(
    nanos: int,
    capability: Seq<char>,
    before: Map<Seq<char>, PendingView>,
    order: OrderView,
    identity: IdentityView,
    answer: Result<IssuedView, QualificationErrorView>,
    after: Map<Seq<char>, PendingView>,
) -> bool {
    match clock_says(nanos) {
        Err(error) => after == before && answer == Err::<IssuedView, _>(error),
        Ok(now_ms) => issued_at(
            before,
            order,
            json_bytes(order.request.arguments@),
            identity,
            now_ms,
            capability,
            answer,
            after,
        ),
    }
}

/// What an order comes to at whatever time it is carried out: there is a time and a random UUID of
/// which all of it follows.
pub proof fn minting_carries_the_order_out(
    before: Map<Seq<char>, PendingView>,
    order: OrderView,
    identity: IdentityView,
    answer: Result<IssuedView, QualificationErrorView>,
    after: Map<Seq<char>, PendingView>,
)
    requires
        mints(before, order, identity, answer, after),
    ensures
        exists|nanos: int, capability: Seq<char>|
            random_uuid(capability) && #[trigger] minted_at(
                nanos,
                capability,
                before,
                order,
                identity,
                answer,
                after,
            ),
{
    let (nanos, capability) = choose|nanos: int, capability: Seq<char>|
        #![trigger epoch_millis(nanos), random_uuid(capability)]
        random_uuid(capability) && (after, answer) == mint_outcome(
            before,
            order,
            identity,
            epoch_millis(nanos),
            capability,
        );
    assert(epoch_millis(nanos) == clock_says(nanos));
    order_is_bound_to_its_arguments(before, order, identity, epoch_millis(nanos), capability);
    assert(minted_at(nanos, capability, before, order, identity, answer, after));
}

/// A capability that was minted allows what was ordered to the one who ordered it, and is bound to
/// the digest of the arguments that were ordered.
pub proof fn minted_capability_is_bound_to_its_order(
    before: Map<Seq<char>, PendingView>,
    order: OrderView,
    identity: IdentityView,
    issued: IssuedView,
    after: Map<Seq<char>, PendingView>,
)
    requires
        mints(before, order, identity, Ok(issued), after),
    ensures
        ({
            let item = after[issued.capability];
            &&& random_uuid(issued.capability)
            &&& after.contains_key(issued.capability)
            &&& item.user_id == order.user_id
            &&& item.conversation_id == order.conversation_id
            &&& item.request == order.request
            &&& item.binding.arguments_sha256 == sha256_text(
                json_bytes(order.request.arguments@),
            )
            &&& item.binding.authenticated_subject_sha256 == sha256_text(
                encode_utf8(order.user_id),
            )
            &&& binds(
                item.binding,
                order.user_id,
                order.conversation_id,
                order.request,
                json_bytes(order.request.arguments@),
                identity,
                item.binding.issued_at_ms,
                issued.capability,
            )
            &&& issued.expires_at_ms == item.binding.expires_at_ms
        }),
{
    let answer: Result<IssuedView, QualificationErrorView> = Ok(issued);
    minting_carries_the_order_out(before, order, identity, answer, after);
    let (nanos, capability) = choose|nanos: int, capability: Seq<char>|
        random_uuid(capability) && #[trigger] minted_at(
            nanos,
            capability,
            before,
            order,
            identity,
            answer,
            after,
        );
    assert(issued.capability == capability);
}

/// The call that a pending capability allows is the one that it was asked for: on the server, of the
/// tool and with the arguments of its request, for its user and in the scope of its run.
pub proof fn allowed_call_is_the_one_that_was_asked_for(pending: PendingView)
    ensures
        allowed_call(pending) == first_step(
            in_scope(
                prepare(
                    pending.request.name@,
                    pending.request.tool@,
                    pending.request.arguments@,
                    json_bytes(pending.request.arguments@),
                    pending.user_id,
                    pending.request.transport.kind_name(),
                ),
                Some(pending.request.run_id@),
            ),
            channel_outcome(pending.request.transport, transport_url(pending.request.transport)),
        ),
{
}

/// The proof that the allowed call comes to always matches the binding of a capability that was
/// minted, so that it is not refused for that.
pub proof fn minted_capability_matches_its_proof(
    before: Map<Seq<char>, PendingView>,
    order: OrderView,
    identity: IdentityView,
    issued: IssuedView,
    after: Map<Seq<char>, PendingView>,
    calls: Seq<EventView>,
    proved: ProofView,
    admitted: AdmittedView,
)
    requires
        mints(before, order, identity, Ok(issued), after),
        ends_with(run(allowed_call(after[issued.capability]), calls), proved),
        admitted.binding == after[issued.capability].binding,
    ensures
        proved.arguments_sha256 == sha256_text(json_bytes(order.request.arguments@)),
        proved.arguments_sha256 == admitted.binding.arguments_sha256,
        proved.authenticated_subject_sha256 == sha256_text(encode_utf8(order.user_id)),
        proved.authenticated_subject_sha256 == admitted.binding.authenticated_subject_sha256,
        qualified(admitted, proved) == Ok::<_, QualificationErrorView>(
            ProofView { qualification: Some(admitted.binding), ..proved },
        ),
{
    minted_capability_is_bound_to_its_order(before, order, identity, issued, after);
    allowed_call_is_founded(after[issued.capability], calls, proved);
}

/// Whether the use of `capability` where the clock gives `now` turns what is pending from `before`
/// into `after` and leads to `step`. What cannot be a capability is invalid, and one that is not
/// pending gives no right. One that is pending is taken out, whoever uses it, and is of use to its
/// user in its conversation alone, until it expires.
pub open spec fn used_at(
    now: Result<u64, QualificationErrorView>,
    before: Map<Seq<char>, PendingView>,
    user_id: Seq<char>,
    conversation_id: Seq<char>,
    capability: Seq<char>,
    step: ConsumeView,
    after: Map<Seq<char>, PendingView>,
) -> bool {
    let item = before[capability];
    if !speaks_within(capability, 128) {
        after == before && step == ConsumeView::Done(Err(QualificationErrorView::Invalid))
    } else if !before.contains_key(capability) {
        after == before && step == ConsumeView::Done(Err(QualificationErrorView::Unauthorized))
    } else {
        &&& keeps(before, after, before.dom().remove(capability))
        &&& match now {
            Err(error) => step == ConsumeView::Done(Err(error)),
            Ok(t) => {
                &&& step == ConsumeView::LookUpOwner(item) <==> user_id == item.user_id
                    && conversation_id == item.conversation_id && t < item.binding.expires_at_ms
                &&& user_id != item.user_id || conversation_id != item.conversation_id ==> step
                    == ConsumeView::Done(Err(QualificationErrorView::Unauthorized))
                &&& user_id == item.user_id && conversation_id == item.conversation_id && t
                    >= item.binding.expires_at_ms ==> step == ConsumeView::Done(
                    Err(QualificationErrorView::Expired),
                )
            },
        }
    }
}

/// What comes of using a capability, for every user, conversation, capability and time.
pub proof fn capability_is_of_use_to_its_user_alone(
    pending: Map<Seq<char>, PendingView>,
    user_id: Seq<char>,
    conversation_id: Seq<char>,
    capability: Seq<char>,
    now: Result<u64, QualificationErrorView>,
)
    ensures
        ({
            let (after, step) = consume_outcome(
                pending,
                user_id,
                conversation_id,
                capability,
                now,
            );
            used_at(now, pending, user_id, conversation_id, capability, step, after)
        }),
        acceptable_capability(capability) == speaks_within(capability, 128),
{
}

/// A use of a pending capability at the time `t` leads on exactly for its user, in its conversation
/// and before it expires. For anyone else, or anywhere else, there is no right to it, and after that
/// it has expired.
pub proof fn pending_capability_leads_on_for_its_user(
    pending: Map<Seq<char>, PendingView>,
    user_id: Seq<char>,
    conversation_id: Seq<char>,
    capability: Seq<char>,
    t: u64,
)
    requires
        pending.contains_key(capability),
        speaks_within(capability, 128),
    ensures
        ({
            let item = pending[capability];
            let step = consume_outcome(
                pending,
                user_id,
                conversation_id,
                capability,
                Ok(t),
            ).1;
            let own = user_id == item.user_id && conversation_id == item.conversation_id;
            &&& step == ConsumeView::LookUpOwner(item) <==> own && t < item.binding.expires_at_ms
            &&& !own ==> step == ConsumeView::Done(Err(QualificationErrorView::Unauthorized))
            &&& own && t >= item.binding.expires_at_ms ==> step == ConsumeView::Done(
                Err(QualificationErrorView::Expired),
            )
        }),
{
    capability_is_of_use_to_its_user_alone(
        pending,
        user_id,
        conversation_id,
        capability,
        Ok(t),
    );
}

/// What the use of a capability comes to at whatever time it is used: there is a time of which all
/// of it follows.
pub proof fn use_follows_from_its_time(
    before: Map<Seq<char>, PendingView>,
    user_id: Seq<char>,
    conversation_id: Seq<char>,
    capability: Seq<char>,
    step: ConsumeView,
    after: Map<Seq<char>, PendingView>,
)
    requires
        consumes(before, user_id, conversation_id, capability, step, after),
    ensures
        exists|nanos: int|
            used_at(
                #[trigger] clock_says(nanos),
                before,
                user_id,
                conversation_id,
                capability,
                step,
                after,
            ),
{
    let nanos = choose|nanos: int|
        (after, step) == consume_outcome(
            before,
            user_id,
            conversation_id,
            capability,
            #[trigger] epoch_millis(nanos),
        );
    assert(epoch_millis(nanos) == clock_says(nanos));
    capability_is_of_use_to_its_user_alone(
        before,
        user_id,
        conversation_id,
        capability,
        clock_says(nanos),
    );
    assert(used_at(
        clock_says(nanos),
        before,
        user_id,
        conversation_id,
        capability,
        step,
        after,
    ));
}

/// A use leads on only for the user of the capability and in its conversation, whenever it is used.
pub proof fn use_leads_on_for_its_user_alone(
    before: Map<Seq<char>, PendingView>,
    user_id: Seq<char>,
    conversation_id: Seq<char>,
    capability: Seq<char>,
    step: ConsumeView,
    after: Map<Seq<char>, PendingView>,
)
    requires
        consumes(before, user_id, conversation_id, capability, step, after),
    ensures
        !after.contains_key(capability) || !speaks_within(capability, 128),
        !(step is Done) ==> {
            &&& before.contains_key(capability)
            &&& step == ConsumeView::LookUpOwner(before[capability])
            &&& user_id == before[capability].user_id
            &&& conversation_id == before[capability].conversation_id
        },
        step is Done ==> step->Done_0 is Err,
{
    use_follows_from_its_time(before, user_id, conversation_id, capability, step, after);
    let nanos = choose|nanos: int|
        used_at(
            #[trigger] clock_says(nanos),
            before,
            user_id,
            conversation_id,
            capability,
            step,
            after,
        );
    if speaks_within(capability, 128) && before.contains_key(capability) {
        assert(!before.dom().remove(capability).contains(capability));
    }
}

/// Before the call the owner is looked up and the backend is identified, and the call is then the
/// one that is allowed. What is refused is refused for what was found.
pub proof fn call_waits_for_owner_and_backend(
    pending: PendingView,
    reply: OwnerView,
    facts: FactsView,
)
    ensures
        ({
            let next = next_consume(
                ConsumeView::LookUpOwner(pending),
                ConsumeEventView::Owner(reply),
            );
            &&& reply == OwnerView::Owner(pending.user_id) ==> next == ConsumeView::Identify(
                pending,
            )
            &&& reply is Failed ==> next == ConsumeView::Done(Err(QualificationErrorView::Internal))
            &&& !(reply is Failed) && reply != OwnerView::Owner(pending.user_id) ==> next
                == ConsumeView::Done(Err(QualificationErrorView::Unauthorized))
        }),
        ({
            let next = next_consume(
                ConsumeView::Identify(pending),
                ConsumeEventView::Backend(facts),
            );
            &&& names_backend(pending.binding, facts) ==> {
                &&& next is Call
                &&& next->Call_1 == allowed_call(pending)
                &&& next->Call_0.user_id == pending.user_id
                &&& next->Call_0.conversation_id == pending.conversation_id
                &&& next->Call_0.transport == pending.request.transport
                &&& next->Call_0.binding == pending.binding
            }
            &&& !names_backend(pending.binding, facts) ==> next == ConsumeView::Done(
                Err(QualificationErrorView::Internal),
            )
        }),
{
}

/// The call goes on as calls do, and what it comes to is kept: a failure is the answer, and a proof
/// is held against the backend and the owner once more.
pub proof fn call_is_carried_through(
    admitted: AdmittedView,
    call: StepView,
    event: EventView,
)
    ensures
        next_consume(ConsumeView::Call(admitted, call), ConsumeEventView::Call(event))
            == ConsumeView::Call(admitted, next_step(call, event)),
        ({
            let next = next_consume(ConsumeView::Call(admitted, call), ConsumeEventView::CallOver);
            match call {
                StepView::Done { outcome: Ok(proved), .. } => next == ConsumeView::IdentifyAgain(
                    admitted,
                    proved,
                ),
                StepView::Done { outcome: Err(error), .. } => next == ConsumeView::Done(
                    Err(QualificationErrorView::Call(error)),
                ),
                _ => next == ConsumeView::Call(admitted, call),
            }
        }),
{
}

/// After the call the backend is identified and the owner is looked up once more. The answer is then
/// the proof with the binding in it, if the two are of the same arguments and the same user.
pub proof fn proof_waits_for_backend_and_owner(
    admitted: AdmittedView,
    proved: ProofView,
    reply: OwnerView,
    facts: FactsView,
)
    ensures
        ({
            let next = next_consume(
                ConsumeView::IdentifyAgain(admitted, proved),
                ConsumeEventView::Backend(facts),
            );
            &&& names_backend(admitted.binding, facts) ==> next == ConsumeView::LookUpOwnerAgain(
                admitted,
                proved,
            )
            &&& !names_backend(admitted.binding, facts) ==> next == ConsumeView::Done(
                Err(QualificationErrorView::Internal),
            )
        }),
        ({
            let next = next_consume(
                ConsumeView::LookUpOwnerAgain(admitted, proved),
                ConsumeEventView::Owner(reply),
            );
            let own = reply == OwnerView::Owner(admitted.user_id);
            let alike = proved.arguments_sha256 == admitted.binding.arguments_sha256
                && proved.authenticated_subject_sha256
                == admitted.binding.authenticated_subject_sha256;
            &&& own && alike ==> next == ConsumeView::Done(
                Ok(ProofView { qualification: Some(admitted.binding), ..proved }),
            )
            &&& own && !alike ==> next == ConsumeView::Done(Err(QualificationErrorView::Internal))
            &&& reply is Failed ==> next == ConsumeView::Done(Err(QualificationErrorView::Internal))
            &&& !own && !(reply is Failed) ==> next == ConsumeView::Done(
                Err(QualificationErrorView::Unauthorized),
            )
        }),
{
}

/// Whether `step` waits for an event such as `event`.
pub open spec fn expected(step: ConsumeView, event: ConsumeEventView) -> bool {
    match step {
        ConsumeView::LookUpOwner(_) => event is Owner,
        ConsumeView::Identify(_) => event is Backend,
        ConsumeView::Call(..) => event is Call || event is CallOver,
        ConsumeView::IdentifyAgain(..) => event is Backend,
        ConsumeView::LookUpOwnerAgain(..) => event is Owner,
        ConsumeView::Done(_) => false,
    }
}

/// What nobody waits for changes nothing about a use.
pub proof fn what_is_not_expected_changes_nothing(step: ConsumeView, event: ConsumeEventView)
    requires
        !expected(step, event),
    ensures
        next_consume(step, event) == step,
{
}

} // verus!
