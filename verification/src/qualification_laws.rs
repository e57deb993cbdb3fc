//! What holds of every capability, from when it is issued to when its call has been made.

use vstd::prelude::*;

use crate::api::{BindingView, McpQualificationRequest, ProofView};
use crate::backend::{bound_to, identity_of, same_backend, FactsView, IdentityView};
use crate::binding::{
    acceptable_request, binding_document, binding_of, expiry, integer_tree, CAPABILITY_TTL_MS,
};
use crate::capability::{acceptable_capability, random_uuid_is_acceptable};
use crate::failure::FailureView;
use crate::json::{json_bytes, JsonTree};
use crate::laws::{founded, messages, proof_is_founded, refused_call_sends_nothing, run, script};
use crate::lifecycle::{next_step, EventView, StepView};
use crate::pending::{unexpired, PendingView, MAX_PENDING_CAPABILITIES};
use crate::qualification::{
    admission, admitted_by, after_backend, after_owner, allowed_call, allowed_channel,
    allowed_preparation, consumes, first_mint_step, issue_outcome, matches_binding, mints, next_consume, qualified,
    AdmittedView, ConsumeEventView, ConsumeView, IssuedView, MintView, OrderView, OwnerView,
};
use crate::verdict::QualificationErrorView;

verus! {

/// Whether what is pending may go from `before` to `after` by the use of any capability, or by the
/// issue of one that is not `capability`.
pub open spec fn moves_on(
    before: Map<Seq<char>, PendingView>,
    after: Map<Seq<char>, PendingView>,
    capability: Seq<char>,
) -> bool {
    ||| exists|
        user_id: Seq<char>,
        conversation_id: Seq<char>,
        used: Seq<char>,
        step: ConsumeView,
    | #[trigger]
        consumes(before, user_id, conversation_id, used, step, after)
    ||| exists|
        order: OrderView,
        identity: IdentityView,
        answer: Result<IssuedView, QualificationErrorView>,
    | #[trigger]
        mints(before, order, identity, answer, after) && !gives(answer, capability)
    ||| exists|
        order: OrderView,
        arguments_bytes: Seq<u8>,
        identity: IdentityView,
        now_ms: u64,
        issued: Seq<char>,
        answer: Result<IssuedView, QualificationErrorView>,
    |
        (after, answer) == #[trigger] issue_outcome(
            before,
            order,
            arguments_bytes,
            identity,
            now_ms,
            issued,
        ) && !#[trigger] gives(answer, capability)
}

/// Whether `answer` hands out `capability`.
pub open spec fn gives(
    answer: Result<IssuedView, QualificationErrorView>,
    capability: Seq<char>,
) -> bool {
    answer matches Ok(issued) && issued.capability == capability
}

/// Whether `states` are what is pending from one moment to the next while capabilities are used and
/// issued, `capability` not among the latter.
pub open spec fn history(
    states: Seq<Map<Seq<char>, PendingView>>,
    capability: Seq<char>,
) -> bool {
    &&& states.len() > 0
    &&& forall|i: int, j: int|
        0 <= i && j == i + 1 && j < states.len() ==> moves_on(
            #[trigger] states[i],
            #[trigger] states[j],
            capability,
        )
}

/// A capability that is not pending does not come to be pending unless it is issued.
proof fn lemma_stays_absent(
    before: Map<Seq<char>, PendingView>,
    after: Map<Seq<char>, PendingView>,
    capability: Seq<char>,
)
    requires
        !before.contains_key(capability),
        moves_on(before, after, capability),
    ensures
        !after.contains_key(capability),
{
}

proof fn lemma_history(states: Seq<Map<Seq<char>, PendingView>>, capability: Seq<char>)
    requires
        history(states, capability),
        !states[0].contains_key(capability),
    ensures
        !states.last().contains_key(capability),
    decreases states.len(),
{
    if states.len() > 1 {
        let fewer = states.drop_last();
        let n = states.len() - 1;
        assert forall|i: int, j: int| 0 <= i && j == i + 1 && j < fewer.len() implies moves_on(
            #[trigger] fewer[i],
            #[trigger] fewer[j],
            capability,
        ) by {
            assert(moves_on(states[i], states[j], capability));
        }
        lemma_history(fewer, capability);
        assert(moves_on(states[n - 1], states[n], capability));
        lemma_stays_absent(states[n - 1], states[n], capability);
    }
}

/// Whoever uses a capability that is not pending is refused, and so is everyone who uses it later,
/// whatever else is used and issued in between.
pub proof fn absent_capability_stays_refused(
    states: Seq<Map<Seq<char>, PendingView>>,
    capability: Seq<char>,
    user_id: Seq<char>,
    conversation_id: Seq<char>,
    step: ConsumeView,
    last: Map<Seq<char>, PendingView>,
)
    requires
        history(states, capability),
        !states[0].contains_key(capability),
        acceptable_capability(capability),
        consumes(states.last(), user_id, conversation_id, capability, step, last),
    ensures
        step == ConsumeView::Done(Err(QualificationErrorView::Unauthorized)),
        last == states.last(),
{
    lemma_history(states, capability);
}

/// A capability can be used once: whoever uses it again is refused, at whatever later time, whatever
/// the first use came to, and whatever else is used and issued in between.
pub proof fn capability_is_used_once(
    before: Map<Seq<char>, PendingView>,
    capability: Seq<char>,
    user_id: Seq<char>,
    conversation_id: Seq<char>,
    step: ConsumeView,
    states: Seq<Map<Seq<char>, PendingView>>,
    later_user_id: Seq<char>,
    later_conversation_id: Seq<char>,
    later_step: ConsumeView,
    last: Map<Seq<char>, PendingView>,
)
    requires
        history(states, capability),
        consumes(before, user_id, conversation_id, capability, step, states[0]),
        consumes(
            states.last(),
            later_user_id,
            later_conversation_id,
            capability,
            later_step,
            last,
        ),
    ensures
        last == states.last(),
        later_step == ConsumeView::Done(
            Err(
                if acceptable_capability(capability) {
                    QualificationErrorView::Unauthorized
                } else {
                    QualificationErrorView::Invalid
                },
            ),
        ),
{
    if acceptable_capability(capability) {
        absent_capability_stays_refused(
            states,
            capability,
            later_user_id,
            later_conversation_id,
            later_step,
            last,
        );
    }
}

/// A use takes nothing but the capability that is used.
pub proof fn other_capabilities_stay(
    before: Map<Seq<char>, PendingView>,
    capability: Seq<char>,
    user_id: Seq<char>,
    conversation_id: Seq<char>,
    step: ConsumeView,
    after: Map<Seq<char>, PendingView>,
    other: Seq<char>,
)
    requires
        consumes(before, user_id, conversation_id, capability, step, after),
        other != capability,
        before.contains_key(other),
    ensures
        after.contains_key(other),
        after[other] == before[other],
{
}

/// A capability is issued only for a request that has passed its checks, to the one who owns the
/// conversation, by a backend that is known.
pub proof fn capability_is_issued_to_the_owner(
    order: OrderView,
    reply: OwnerView,
    facts: FactsView,
)
    requires
        after_backend(after_owner(first_mint_step(order), reply), facts) is Issue,
    ensures
        acceptable_request(order.request),
        reply == OwnerView::Owner(order.user_id),
        identity_of(facts) is Ok,
        after_backend(after_owner(first_mint_step(order), reply), facts) == MintView::Issue(
            order,
            identity_of(facts)->Ok_0,
        ),
{
}

/// A capability that has been issued is pending, its form is one that a use accepts, and the backend
/// that has issued it honours it.
pub proof fn issued_capability_can_be_used(
    before: Map<Seq<char>, PendingView>,
    order: OrderView,
    facts: FactsView,
    issued: IssuedView,
    after: Map<Seq<char>, PendingView>,
)
    requires
        identity_of(facts) is Ok,
        mints(before, order, identity_of(facts)->Ok_0, Ok(issued), after),
    ensures
        acceptable_capability(issued.capability),
        after.contains_key(issued.capability),
        after[issued.capability].user_id == order.user_id,
        after[issued.capability].conversation_id == order.conversation_id,
        after[issued.capability].request == order.request,
        same_backend(after[issued.capability].binding, facts) is Ok,
{
    random_uuid_is_acceptable(issued.capability);
}

/// A capability that has been issued can be used by the one who asked for it, in the conversation
/// it was asked for in, until it expires, and by no one else, nowhere else and at no other time.
pub proof fn issued_capability_is_valid_until_it_expires(
    pending: Map<Seq<char>, PendingView>,
    order: OrderView,
    arguments_bytes: Seq<u8>,
    identity: IdentityView,
    issued_at_ms: u64,
    capability: Seq<char>,
    user_id: Seq<char>,
    conversation_id: Seq<char>,
    now_ms: u64,
)
    requires
        issue_outcome(pending, order, arguments_bytes, identity, issued_at_ms, capability).1 is Ok,
    ensures
        ({
            let (after, answer) = issue_outcome(
                pending,
                order,
                arguments_bytes,
                identity,
                issued_at_ms,
                capability,
            );
            let issued = answer->Ok_0;
            let step = admission(after[capability], user_id, conversation_id, Ok(now_ms));
            &&& issued.capability == capability
            &&& issued.expires_at_ms == expiry(issued_at_ms)
            &&& after.contains_key(capability)
            &&& step == ConsumeView::LookUpOwner(after[capability]) <==> user_id == order.user_id
                && conversation_id == order.conversation_id && now_ms < issued.expires_at_ms
            &&& user_id != order.user_id || conversation_id != order.conversation_id
                ==> step == ConsumeView::Done(Err(QualificationErrorView::Unauthorized))
            &&& user_id == order.user_id && conversation_id == order.conversation_id && now_ms
                >= issued.expires_at_ms ==> step == ConsumeView::Done(
                Err(QualificationErrorView::Expired),
            )
        }),
{
}

/// Whether what is pending may go from `before` to `after` by the use of a capability that is not
/// `capability`, or by an attempt to issue such a one, which comes to nothing or is made at a time
/// at which `capability` has not expired.
pub open spec fn moves_past(
    before: Map<Seq<char>, PendingView>,
    after: Map<Seq<char>, PendingView>,
    capability: Seq<char>,
) -> bool {
    ||| after == before
    ||| exists|
        user_id: Seq<char>,
        conversation_id: Seq<char>,
        used: Seq<char>,
        step: ConsumeView,
    | #[trigger]
        consumes(before, user_id, conversation_id, used, step, after) && used != capability
    ||| exists|
        order: OrderView,
        arguments_bytes: Seq<u8>,
        identity: IdentityView,
        now_ms: u64,
        issued: Seq<char>,
    |
        after == (#[trigger] issue_outcome(
            before,
            order,
            arguments_bytes,
            identity,
            now_ms,
            issued,
        )).0 && issued != capability && now_ms < before[capability].binding.expires_at_ms
}

/// A capability that is pending stays so, as it is, until it is used or has expired, whatever else
/// is used and issued.
pub proof fn pending_capability_stays(
    states: Seq<Map<Seq<char>, PendingView>>,
    capability: Seq<char>,
)
    requires
        states.len() > 0,
        states[0].contains_key(capability),
        forall|i: int, j: int|
            0 <= i && j == i + 1 && j < states.len() ==> moves_past(
                #[trigger] states[i],
                #[trigger] states[j],
                capability,
            ),
    ensures
        states.last().contains_key(capability),
        states.last()[capability] == states[0][capability],
    decreases states.len(),
{
    if states.len() > 1 {
        let fewer = states.drop_last();
        let n = states.len() - 1;
        assert forall|i: int, j: int| 0 <= i && j == i + 1 && j < fewer.len() implies moves_past(
            #[trigger] fewer[i],
            #[trigger] fewer[j],
            capability,
        ) by {
            assert(moves_past(states[i], states[j], capability));
        }
        pending_capability_stays(fewer, capability);
        assert(moves_past(states[n - 1], states[n], capability));
    }
}

/// A capability is valid for thirty seconds, or to the end of time where that comes first.
pub proof fn capability_lives_thirty_seconds(issued_at_ms: u64)
    ensures
        CAPABILITY_TTL_MS == 30 * 1000,
        issued_at_ms <= u64::MAX - CAPABILITY_TTL_MS ==> expiry(issued_at_ms) - issued_at_ms
            == CAPABILITY_TTL_MS,
        issued_at_ms > u64::MAX - CAPABILITY_TTL_MS ==> expiry(issued_at_ms) == u64::MAX,
{
}

/// To issue a capability takes away none that can still be used, and none is left that cannot.
pub proof fn issuing_keeps_what_can_be_used(
    pending: Map<Seq<char>, PendingView>,
    order: OrderView,
    arguments_bytes: Seq<u8>,
    identity: IdentityView,
    now_ms: u64,
    capability: Seq<char>,
    other: Seq<char>,
)
    requires
        other != capability,
    ensures
        ({
            let after = issue_outcome(
                pending,
                order,
                arguments_bytes,
                identity,
                now_ms,
                capability,
            ).0;
            &&& after.contains_key(other) <==> pending.contains_key(other)
                && pending[other].binding.expires_at_ms > now_ms
            &&& after.contains_key(other) ==> after[other] == pending[other]
        }),
{
}

/// Capabilities never come to be pending in greater number than may be.
pub proof fn issuing_keeps_to_the_limit(
    pending: Map<Seq<char>, PendingView>,
    order: OrderView,
    arguments_bytes: Seq<u8>,
    identity: IdentityView,
    now_ms: u64,
    capability: Seq<char>,
)
    requires
        pending.dom().finite(),
        pending.len() <= MAX_PENDING_CAPABILITIES,
    ensures
        ({
            let (after, answer) = issue_outcome(
                pending,
                order,
                arguments_bytes,
                identity,
                now_ms,
                capability,
            );
            &&& after.dom().finite()
            &&& after.len() <= MAX_PENDING_CAPABILITIES
            &&& answer is Err <==> unexpired(pending, now_ms).len() >= MAX_PENDING_CAPABILITIES
        }),
{
    let live = unexpired(pending, now_ms);
    assert(live.dom().subset_of(pending.dom()));
    vstd::set_lib::lemma_len_subset(live.dom(), pending.dom());
    assert(live.dom().finite());
}

/// A backend honours the capabilities that it has issued, and no others.
pub proof fn backend_honours_its_own(
    user_id: Seq<char>,
    conversation_id: Seq<char>,
    request: McpQualificationRequest,
    arguments_bytes: Seq<u8>,
    identity: IdentityView,
    issued_at_ms: u64,
    capability: Seq<char>,
    facts: FactsView,
)
    ensures
        same_backend(
            binding_of(
                user_id,
                conversation_id,
                request,
                arguments_bytes,
                identity,
                issued_at_ms,
                capability,
            ),
            facts,
        ) is Ok <==> identity_of(facts) == Ok::<_, QualificationErrorView>(identity),
{
    let binding = binding_of(
        user_id,
        conversation_id,
        request,
        arguments_bytes,
        identity,
        issued_at_ms,
        capability,
    );
    if let Ok(found) = identity_of(facts) {
        assert(bound_to(binding, found) <==> found == identity);
    }
}

/// What the digest of a binding is taken over differs wherever anything else in the binding does.
pub proof fn binding_document_is_binding(one: BindingView, other: BindingView)
    requires
        binding_document(one) == binding_document(other),
    ensures
        one == (BindingView { binding_sha256: one.binding_sha256, ..other }),
{
    lemma_binding_members(one);
    lemma_binding_members(other);
}

#[verifier::rlimit(40)]
proof fn lemma_binding_members(binding: BindingView)
    ensures
        ({
            let document = binding_document(binding);
            &&& document.member("arguments_sha256"@) == Some(
                JsonTree::Text(binding.arguments_sha256),
            )
            &&& document.member("authenticated_subject_sha256"@) == Some(
                JsonTree::Text(binding.authenticated_subject_sha256),
            )
            &&& document.member("backend_executable_sha256"@) == Some(
                JsonTree::Text(binding.backend_executable_sha256),
            )
            &&& document.member("backend_pid"@) == Some(integer_tree(binding.backend_pid as int))
            &&& document.member("backend_start_time"@) == Some(
                integer_tree(binding.backend_start_time as int),
            )
            &&& document.member("capability_sha256"@) == Some(
                JsonTree::Text(binding.capability_sha256),
            )
            &&& document.member("conversation_sha256"@) == Some(
                JsonTree::Text(binding.conversation_sha256),
            )
            &&& document.member("expires_at_ms"@) == Some(
                integer_tree(binding.expires_at_ms as int),
            )
            &&& document.member("issued_at_ms"@) == Some(integer_tree(binding.issued_at_ms as int))
            &&& document.member("machine_challenge_sha256"@) == Some(
                JsonTree::Text(binding.machine_challenge_sha256),
            )
            &&& document.member("operation"@) == Some(JsonTree::Text(binding.operation))
            &&& document.member("run_id"@) == Some(JsonTree::Text(binding.run_id))
            &&& document.member("runtime_id_sha256"@) == Some(
                JsonTree::Text(binding.runtime_id_sha256),
            )
            &&& document.member("schema_version"@) == Some(
                integer_tree(binding.schema_version as int),
            )
        }),
{
    reveal_strlit("arguments_sha256");
    reveal_strlit("authenticated_subject_sha256");
    reveal_strlit("backend_executable_sha256");
    reveal_strlit("backend_pid");
    reveal_strlit("backend_start_time");
    reveal_strlit("capability_sha256");
    reveal_strlit("conversation_sha256");
    reveal_strlit("expires_at_ms");
    reveal_strlit("issued_at_ms");
    reveal_strlit("machine_challenge_sha256");
    reveal_strlit("operation");
    reveal_strlit("run_id");
    reveal_strlit("runtime_id_sha256");
    reveal_strlit("schema_version");
    assert("arguments_sha256"@.len() == 16);
    assert("authenticated_subject_sha256"@.len() == 28);
    assert("backend_executable_sha256"@.len() == 25);
    assert("backend_pid"@.len() == 11);
    assert("backend_start_time"@.len() == 18);
    assert("capability_sha256"@.len() == 17 && "capability_sha256"@[0] == 'c');
    assert("conversation_sha256"@.len() == 19);
    assert("expires_at_ms"@.len() == 13);
    assert("issued_at_ms"@.len() == 12);
    assert("machine_challenge_sha256"@.len() == 24);
    assert("operation"@.len() == 9);
    assert("run_id"@.len() == 6);
    assert("runtime_id_sha256"@.len() == 17 && "runtime_id_sha256"@[0] == 'r');
    assert("schema_version"@.len() == 14);
}

/// The step that the use of a capability has come to after `events`.
#[verifier::opaque]
pub open spec fn run_consume(first: ConsumeView, events: Seq<ConsumeEventView>) -> ConsumeView
    decreases events.len(),
{
    if events.len() == 0 {
        first
    } else {
        next_consume(run_consume(first, events.drop_last()), events.last())
    }
}

/// Whether `event` tells that the conversation is owned by `user_id`.
pub open spec fn owned_by(event: ConsumeEventView, user_id: Seq<char>) -> bool {
    event == ConsumeEventView::Owner(OwnerView::Owner(user_id))
}

/// Whether `event` tells that the backend is the one that `binding` is bound to.
pub open spec fn backend_matches(event: ConsumeEventView, binding: BindingView) -> bool {
    event matches ConsumeEventView::Backend(facts) && same_backend(binding, facts) is Ok
}

/// Whether a call is over at `step` and has come to the proof `proved`.
pub open spec fn ends_with(step: StepView, proved: ProofView) -> bool {
    step matches StepView::Done { outcome, .. } && outcome == Ok::<_, FailureView>(proved)
}

/// The events of the call among `events`, in their order.
pub open spec fn call_events(events: Seq<ConsumeEventView>) -> Seq<EventView>
    decreases events.len(),
{
    if events.len() == 0 {
        Seq::empty()
    } else {
        match events.last() {
            ConsumeEventView::Call(event) => call_events(events.drop_last()).push(event),
            _ => call_events(events.drop_last()),
        }
    }
}

/// Whether the owner was confirmed by the event at `a` and the backend by the one at `b`.
pub open spec fn confirmed_before(
    pending: PendingView,
    events: Seq<ConsumeEventView>,
    a: int,
    b: int,
) -> bool {
    &&& 0 <= a < b < events.len()
    &&& owned_by(events[a], pending.user_id)
    &&& backend_matches(events[b], pending.binding)
}

/// Whether the owner and the backend were confirmed by the events at `a` and `b`, and the call that
/// `pending` allows then went through the events up to the one at `n`, which told that it was over,
/// and came to the proof `proved`.
pub open spec fn called_between(
    pending: PendingView,
    events: Seq<ConsumeEventView>,
    a: int,
    b: int,
    n: int,
    proved: ProofView,
) -> bool {
    &&& confirmed_before(pending, events, a, b)
    &&& b < n < events.len()
    &&& events[n] == ConsumeEventView::CallOver
    &&& ends_with(run(allowed_call(pending), call_events(events.subrange(b + 1, n))), proved)
}

/// Whether, after all of that, the backend was confirmed once more by the event at `c`.
pub open spec fn confirmed_after(
    pending: PendingView,
    events: Seq<ConsumeEventView>,
    a: int,
    b: int,
    n: int,
    c: int,
    proved: ProofView,
) -> bool {
    &&& called_between(pending, events, a, b, n, proved)
    &&& n < c < events.len()
    &&& backend_matches(events[c], pending.binding)
}

/// Whether, after all of that, the owner was confirmed once more by the event at `d`, and `answer`
/// is the proof of the call together with the binding.
pub open spec fn confirmed_answer(
    pending: PendingView,
    events: Seq<ConsumeEventView>,
    a: int,
    b: int,
    n: int,
    c: int,
    d: int,
    proved: ProofView,
    answer: ProofView,
) -> bool {
    &&& confirmed_after(pending, events, a, b, n, c, proved)
    &&& c < d < events.len()
    &&& owned_by(events[d], pending.user_id)
    &&& matches_binding(proved, pending.binding)
    &&& answer == (ProofView { qualification: Some(pending.binding), ..proved })
}

/// What holds of every step with a capability.
spec fn lawful(pending: PendingView, events: Seq<ConsumeEventView>, step: ConsumeView) -> bool {
    match step {
        ConsumeView::LookUpOwner(item) => item == pending,
        ConsumeView::Identify(item) => item == pending && exists|a: int|
            0 <= a < events.len() && #[trigger] owned_by(events[a], pending.user_id),
        ConsumeView::Call(admitted, call) => admitted == admitted_by(pending) && exists|
            a: int,
            b: int,
        |
            #[trigger] confirmed_before(pending, events, a, b) && call == run(
                allowed_call(pending),
                call_events(events.subrange(b + 1, events.len() as int)),
            ),
        ConsumeView::IdentifyAgain(admitted, proved) => admitted == admitted_by(pending) && exists|
            a: int,
            b: int,
            n: int,
        | #[trigger]
            called_between(pending, events, a, b, n, proved),
        ConsumeView::LookUpOwnerAgain(admitted, proved) => admitted == admitted_by(pending)
            && exists|a: int, b: int, n: int, c: int| #[trigger]
            confirmed_after(pending, events, a, b, n, c, proved),
        ConsumeView::Done(Ok(answer)) => exists|
            a: int,
            b: int,
            n: int,
            c: int,
            d: int,
            proved: ProofView,
        | #[trigger]
            confirmed_answer(pending, events, a, b, n, c, d, proved, answer),
        ConsumeView::Done(Err(_)) => true,
    }
}

/// What was confirmed stays so.
proof fn lemma_confirmed_later(
    pending: PendingView,
    events: Seq<ConsumeEventView>,
    event: ConsumeEventView,
    a: int,
    b: int,
    n: int,
    c: int,
    d: int,
    proved: ProofView,
    answer: ProofView,
)
    ensures
        ({
            let longer = events.push(event);
            &&& confirmed_before(pending, events, a, b) ==> confirmed_before(pending, longer, a, b)
            &&& called_between(pending, events, a, b, n, proved) ==> called_between(
                pending,
                longer,
                a,
                b,
                n,
                proved,
            )
            &&& confirmed_after(pending, events, a, b, n, c, proved) ==> confirmed_after(
                pending,
                longer,
                a,
                b,
                n,
                c,
                proved,
            )
            &&& confirmed_answer(pending, events, a, b, n, c, d, proved, answer)
                ==> confirmed_answer(pending, longer, a, b, n, c, d, proved, answer)
        }),
{
    let longer = events.push(event);
    if 0 <= b < n < events.len() {
        assert(longer.subrange(b + 1, n) =~= events.subrange(b + 1, n));
    }
}

/// What the call has come to after one more event.
proof fn lemma_call_goes_on(
    first: StepView,
    events: Seq<ConsumeEventView>,
    event: ConsumeEventView,
    b: int,
)
    requires
        0 <= b < events.len(),
    ensures
        ({
            let longer = events.push(event);
            let before = run(first, call_events(events.subrange(b + 1, events.len() as int)));
            let after = run(first, call_events(longer.subrange(b + 1, longer.len() as int)));
            match event {
                ConsumeEventView::Call(call_event) => after == next_step(before, call_event),
                _ => after == before,
            }
        }),
{
    reveal(run);
    let longer = events.push(event);
    let fewer = events.subrange(b + 1, events.len() as int);
    let more = longer.subrange(b + 1, longer.len() as int);
    assert(more =~= fewer.push(event));
    assert(more.drop_last() =~= fewer);
    if let ConsumeEventView::Call(call_event) = event {
        assert(call_events(fewer).push(call_event).drop_last() =~= call_events(fewer));
    }
}

/// What holds of a call that is on its way keeps holding.
proof fn lemma_lawful_call(
    pending: PendingView,
    events: Seq<ConsumeEventView>,
    step: ConsumeView,
    event: ConsumeEventView,
)
    requires
        lawful(pending, events, step),
        step is Call,
    ensures
        lawful(pending, events.push(event), next_consume(step, event)),
{
    let longer = events.push(event);
    let last = events.len() as int;
    let admitted = step->Call_0;
    let call = step->Call_1;
    let (a, b) = choose|a: int, b: int|
        #[trigger] confirmed_before(pending, events, a, b) && call == run(
            allowed_call(pending),
            call_events(events.subrange(b + 1, events.len() as int)),
        );
    lemma_call_goes_on(allowed_call(pending), events, event, b);
    assert(confirmed_before(pending, longer, a, b));
    assert(longer.subrange(b + 1, last) =~= events.subrange(b + 1, last));
    if let ConsumeEventView::CallOver = event {
        if let StepView::Done { outcome: Ok(proved), .. } = call {
            assert(longer[last] == event);
            assert(called_between(pending, longer, a, b, last, proved));
        }
    }
}

proof fn lemma_lawful_step(
    pending: PendingView,
    events: Seq<ConsumeEventView>,
    step: ConsumeView,
    event: ConsumeEventView,
)
    requires
        lawful(pending, events, step),
    ensures
        lawful(pending, events.push(event), next_consume(step, event)),
{
    let longer = events.push(event);
    let last = events.len() as int;
    assert(longer[last] == event);
    match step {
        ConsumeView::LookUpOwner(_) => {
            if next_consume(step, event) is Identify {
                assert(owned_by(longer[last], pending.user_id));
            }
        },
        ConsumeView::Identify(_) => {
            let a = choose|a: int|
                0 <= a < events.len() && #[trigger] owned_by(events[a], pending.user_id);
            assert(owned_by(longer[a], pending.user_id));
            if next_consume(step, event) is Call {
                reveal(run);
                assert(confirmed_before(pending, longer, a, last));
                assert(longer.subrange(last + 1, longer.len() as int) =~= Seq::empty());
            }
        },
        ConsumeView::Call(..) => {
            lemma_lawful_call(pending, events, step, event);
        },
        ConsumeView::IdentifyAgain(_, proved) => {
            let (a, b, n) = choose|a: int, b: int, n: int| #[trigger]
                called_between(pending, events, a, b, n, proved);
            lemma_confirmed_later(pending, events, event, a, b, n, 0, 0, proved, proved);
            if next_consume(step, event) is LookUpOwnerAgain {
                assert(confirmed_after(pending, longer, a, b, n, last, proved));
            }
        },
        ConsumeView::LookUpOwnerAgain(admitted, proved) => {
            let (a, b, n, c) = choose|a: int, b: int, n: int, c: int| #[trigger]
                confirmed_after(pending, events, a, b, n, c, proved);
            lemma_confirmed_later(pending, events, event, a, b, n, c, 0, proved, proved);
            if let ConsumeView::Done(Ok(answer)) = next_consume(step, event) {
                assert(confirmed_answer(pending, longer, a, b, n, c, last, proved, answer));
            }
        },
        ConsumeView::Done(Ok(answer)) => {
            let (a, b, n, c, d, proved) = choose|
                a: int,
                b: int,
                n: int,
                c: int,
                d: int,
                proved: ProofView,
            | #[trigger]
                confirmed_answer(pending, events, a, b, n, c, d, proved, answer);
            lemma_confirmed_later(pending, events, event, a, b, n, c, d, proved, answer);
        },
        ConsumeView::Done(Err(_)) => {},
    }
}

proof fn lemma_lawful_run(pending: PendingView, events: Seq<ConsumeEventView>)
    ensures
        lawful(pending, events, run_consume(ConsumeView::LookUpOwner(pending), events)),
    decreases events.len(),
{
    reveal(run_consume);
    if events.len() > 0 {
        let before = events.drop_last();
        lemma_lawful_run(pending, before);
        lemma_lawful_step(
            pending,
            before,
            run_consume(ConsumeView::LookUpOwner(pending), before),
            events.last(),
        );
        assert(before.push(events.last()) =~= events);
    }
}

/// A capability yields a proof only where the conversation was found to be the user's and then the
/// backend to be the one of the binding, where the call was made after that and was over, and where
/// the backend and then the conversation were found to be so once more after that. The proof is the
/// one that this very call came to: it rests on what the server sent in its course, is about the
/// arguments and the user that the capability is bound to, and carries the binding.
pub proof fn answer_is_confirmed(
    pending: PendingView,
    events: Seq<ConsumeEventView>,
    answer: ProofView,
)
    requires
        run_consume(ConsumeView::LookUpOwner(pending), events) == ConsumeView::Done(Ok(answer)),
    ensures
        allowed_preparation(pending) is Ok,
        allowed_channel(pending) is Ok,
        answer.qualification == Some(pending.binding),
        exists|a: int, b: int, n: int, c: int, d: int, proved: ProofView|
            {
                &&& #[trigger] confirmed_answer(pending, events, a, b, n, c, d, proved, answer)
                &&& founded(
                    allowed_preparation(pending)->Ok_0,
                    call_events(events.subrange(b + 1, n)),
                    proved,
                )
            },
{
    lemma_lawful_run(pending, events);
    let (a, b, n, c, d, proved) = choose|
        a: int,
        b: int,
        n: int,
        c: int,
        d: int,
        proved: ProofView,
    | #[trigger]
        confirmed_answer(pending, events, a, b, n, c, d, proved, answer);
    allowed_call_is_founded(pending, call_events(events.subrange(b + 1, n)), proved);
}

/// A proof that the call which a capability allows comes to after `calls` rests on what the server
/// sent in them, and all messages of the call have then gone out.
pub proof fn allowed_call_is_founded(
    pending: PendingView,
    calls: Seq<EventView>,
    proved: ProofView,
)
    requires
        ends_with(run(allowed_call(pending), calls), proved),
    ensures
        allowed_preparation(pending) is Ok,
        allowed_channel(pending) is Ok,
        founded(allowed_preparation(pending)->Ok_0, calls, proved),
        messages(allowed_call(pending), calls) == script(allowed_preparation(pending)->Ok_0),
{
    if allowed_preparation(pending) is Err || allowed_channel(pending) is Err {
        refused_call_sends_nothing(allowed_preparation(pending), allowed_channel(pending), calls);
    } else {
        proof_is_founded(
            allowed_preparation(pending)->Ok_0,
            allowed_channel(pending)->Ok_0,
            calls,
            proved,
            run(allowed_call(pending), calls)->session_left,
        );
    }
}

/// Where a capability was issued for a request, a proof that the call which it allows comes to is
/// about the arguments and the user that it is bound to: such a proof is never turned down for them.
pub proof fn issued_capability_matches_its_proof(
    pending: Map<Seq<char>, PendingView>,
    order: OrderView,
    identity: IdentityView,
    issued_at_ms: u64,
    capability: Seq<char>,
    calls: Seq<EventView>,
    proved: ProofView,
)
    requires
        ({
            let (after, answer) = issue_outcome(
                pending,
                order,
                json_bytes(order.request.arguments@),
                identity,
                issued_at_ms,
                capability,
            );
            answer is Ok && ends_with(run(allowed_call(after[capability]), calls), proved)
        }),
    ensures
        ({
            let item = issue_outcome(
                pending,
                order,
                json_bytes(order.request.arguments@),
                identity,
                issued_at_ms,
                capability,
            ).0[capability];
            &&& matches_binding(proved, item.binding)
            &&& qualified(admitted_by(item), proved) is Ok
        }),
{
    let item = issue_outcome(
        pending,
        order,
        json_bytes(order.request.arguments@),
        identity,
        issued_at_ms,
        capability,
    ).0[capability];
    allowed_call_is_founded(item, calls, proved);
}

/// The events of a call, as they come about while a capability is used.
pub open spec fn of_the_call(calls: Seq<EventView>) -> Seq<ConsumeEventView> {
    calls.map_values(|event: EventView| ConsumeEventView::Call(event))
}

proof fn lemma_run_consume_on(
    first: ConsumeView,
    events: Seq<ConsumeEventView>,
    more: Seq<ConsumeEventView>,
)
    ensures
        run_consume(first, events + more) == run_consume(run_consume(first, events), more),
    decreases more.len(),
{
    reveal(run_consume);
    if more.len() == 0 {
        assert(events + more =~= events);
    } else {
        lemma_run_consume_on(first, events, more.drop_last());
        assert((events + more).drop_last() =~= events + more.drop_last());
    }
}

proof fn lemma_run_consume_one(first: ConsumeView, event: ConsumeEventView)
    ensures
        run_consume(first, seq![event]) == next_consume(first, event),
{
    reveal_with_fuel(run_consume, 2);
    assert(seq![event].drop_last() =~= Seq::empty());
}

proof fn lemma_run_consume_calls(admitted: AdmittedView, call: StepView, calls: Seq<EventView>)
    ensures
        run_consume(ConsumeView::Call(admitted, call), of_the_call(calls)) == ConsumeView::Call(
            admitted,
            run(call, calls),
        ),
    decreases calls.len(),
{
    reveal(run_consume);
    reveal(run);
    if calls.len() > 0 {
        lemma_run_consume_calls(admitted, call, calls.drop_last());
        assert(of_the_call(calls).drop_last() =~= of_the_call(calls.drop_last()));
    }
}

/// What comes of an owner and a backend that are as they should be.
proof fn lemma_confirmed_before(pending: PendingView, facts: FactsView)
    requires
        same_backend(pending.binding, facts) is Ok,
    ensures
        run_consume(
            ConsumeView::LookUpOwner(pending),
            seq![
                ConsumeEventView::Owner(OwnerView::Owner(pending.user_id)),
                ConsumeEventView::Backend(facts),
            ],
        ) == ConsumeView::Call(admitted_by(pending), allowed_call(pending)),
{
    let owner = ConsumeEventView::Owner(OwnerView::Owner(pending.user_id));
    let backend = ConsumeEventView::Backend(facts);
    let first = ConsumeView::LookUpOwner(pending);
    lemma_run_consume_one(first, owner);
    lemma_run_consume_one(ConsumeView::Identify(pending), backend);
    lemma_run_consume_on(first, seq![owner], seq![backend]);
    assert(seq![owner] + seq![backend] =~= seq![owner, backend]);
}

/// What comes of a call that is over, and of a backend and an owner that are as they should be.
proof fn lemma_confirmed_after(
    admitted: AdmittedView,
    facts: FactsView,
    call: StepView,
    proved: ProofView,
)
    requires
        same_backend(admitted.binding, facts) is Ok,
        ends_with(call, proved),
        matches_binding(proved, admitted.binding),
    ensures
        run_consume(
            ConsumeView::Call(admitted, call),
            seq![
                ConsumeEventView::CallOver,
                ConsumeEventView::Backend(facts),
                ConsumeEventView::Owner(OwnerView::Owner(admitted.user_id)),
            ],
        ) == ConsumeView::Done(Ok(ProofView { qualification: Some(admitted.binding), ..proved })),
{
    let owner = ConsumeEventView::Owner(OwnerView::Owner(admitted.user_id));
    let backend = ConsumeEventView::Backend(facts);
    let called = ConsumeView::Call(admitted, call);
    let over = seq![ConsumeEventView::CallOver];
    lemma_run_consume_one(called, ConsumeEventView::CallOver);
    lemma_run_consume_one(ConsumeView::IdentifyAgain(admitted, proved), backend);
    lemma_run_consume_one(ConsumeView::LookUpOwnerAgain(admitted, proved), owner);
    lemma_run_consume_on(called, over, seq![backend]);
    lemma_run_consume_on(called, over + seq![backend], seq![owner]);
    assert(over + seq![backend] + seq![owner] =~= seq![
        ConsumeEventView::CallOver,
        backend,
        owner,
    ]);
}

/// Where the conversation is the user's, the backend is the one of the binding and the call comes to
/// a proof about the arguments and the user that the capability is bound to, the use of the
/// capability is answered with that proof and the binding.
pub proof fn confirmed_use_is_answered(
    pending: PendingView,
    facts: FactsView,
    later_facts: FactsView,
    calls: Seq<EventView>,
    proved: ProofView,
)
    requires
        same_backend(pending.binding, facts) is Ok,
        same_backend(pending.binding, later_facts) is Ok,
        ends_with(run(allowed_call(pending), calls), proved),
        matches_binding(proved, pending.binding),
    ensures
        ({
            let owner = ConsumeEventView::Owner(OwnerView::Owner(pending.user_id));
            let backend = ConsumeEventView::Backend(facts);
            let later_backend = ConsumeEventView::Backend(later_facts);
            run_consume(
                ConsumeView::LookUpOwner(pending),
                seq![owner, backend] + of_the_call(calls) + seq![
                    ConsumeEventView::CallOver,
                    later_backend,
                    owner,
                ],
            ) == ConsumeView::Done(
                Ok(ProofView { qualification: Some(pending.binding), ..proved }),
            )
        }),
{
    let owner = ConsumeEventView::Owner(OwnerView::Owner(pending.user_id));
    let backend = ConsumeEventView::Backend(facts);
    let later_backend = ConsumeEventView::Backend(later_facts);
    let first = ConsumeView::LookUpOwner(pending);
    lemma_confirmed_before(pending, facts);
    lemma_run_consume_calls(admitted_by(pending), allowed_call(pending), calls);
    lemma_confirmed_after(
        admitted_by(pending),
        later_facts,
        run(allowed_call(pending), calls),
        proved,
    );
    lemma_run_consume_on(first, seq![owner, backend], of_the_call(calls));
    lemma_run_consume_on(
        first,
        seq![owner, backend] + of_the_call(calls),
        seq![ConsumeEventView::CallOver, later_backend, owner],
    );
}

/// What the use of a capability has come to does not change any more.
pub proof fn answer_is_final(
    answer: Result<ProofView, QualificationErrorView>,
    events: Seq<ConsumeEventView>,
)
    ensures
        run_consume(ConsumeView::Done(answer), events) == ConsumeView::Done(answer),
    decreases events.len(),
{
    reveal(run_consume);
    if events.len() > 0 {
        answer_is_final(answer, events.drop_last());
    }
}

} // verus!
