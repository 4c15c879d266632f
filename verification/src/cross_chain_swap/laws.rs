//! What holds of the swap engine whatever its state and whatever it is
//! asked, stated over the model and proved from it.

use vstd::prelude::*;
use crate::account::Address;
use crate::cross_chain_swap::model::{creation_valid, EngineView};
use crate::cross_chain_swap::preservation::{respond_keeps_wf, step_keeps_wf};
use crate::cross_chain_swap::records::{Status, Swap, SwapError};
use crate::cross_chain_swap::route::{supported_chain, supported_token};

verus! {

/// A creation request that passes the checks yields a swap that is
/// Initiated, has no confirmed step and carries the next identifier; its
/// status reads as code 0 at once.
pub proof fn created_swap_is_initiated(
    v: EngineView,
    caller: Address,
    now: u64,
    source_token: String,
    target_token: String,
    source_chain: String,
    target_chain: String,
    input_amount: u128,
    expected_output: u128,
    route_steps: u32,
    timeout_hours: u32,
)
    requires
        v.swaps.len() < u32::MAX,
        creation_valid(
            source_token@,
            target_token@,
            source_chain@,
            target_chain@,
            input_amount,
            expected_output,
            route_steps,
            timeout_hours,
        ),
    ensures
        ({
            let w = v.create(
                caller,
                now,
                source_token,
                target_token,
                source_chain,
                target_chain,
                input_amount,
                expected_output,
                route_steps,
                timeout_hours,
            );
            let id = v.swaps.len() as u32;
            &&& w.swaps.len() == v.swaps.len() + 1
            &&& w.has_swap(id)
            &&& w.swap(id).id == id
            &&& w.swap(id).initiator == caller
            &&& w.swap(id).status == Status::Initiated
            &&& w.swap(id).status.spec_code() == 0
            &&& w.swap(id).current_step == 0
            &&& w.swap(id).route_steps == route_steps
            &&& w.swap(id).pending_request is None
            &&& forall|i: int| 0 <= i < v.swaps.len() ==> w.swaps[i] == v.swaps[i]
        }),
{
}

/// A creation request that names an asset or a chain which is not an
/// accepted one is refused and changes nothing, whatever else it holds.
pub proof fn unlisted_names_are_refused(
    v: EngineView,
    caller: Address,
    now: u64,
    source_token: String,
    target_token: String,
    source_chain: String,
    target_chain: String,
    input_amount: u128,
    expected_output: u128,
    route_steps: u32,
    timeout_hours: u32,
)
    requires
        !supported_token(source_token@) || !supported_token(target_token@) || !supported_chain(
            source_chain@,
        ) || !supported_chain(target_chain@),
    ensures
        !creation_valid(
            source_token@,
            target_token@,
            source_chain@,
            target_chain@,
            input_amount,
            expected_output,
            route_steps,
            timeout_hours,
        ),
        v.create(
            caller,
            now,
            source_token,
            target_token,
            source_chain,
            target_chain,
            input_amount,
            expected_output,
            route_steps,
            timeout_hours,
        ) == v,
{
}

/// In every well-formed state, the assets and the chains of every swap are
/// accepted ones.
pub proof fn recorded_names_are_listed(v: EngineView, id: u32)
    requires
        v.wf(),
        v.has_swap(id),
    ensures
        supported_token(v.swap(id).source_token@),
        supported_token(v.swap(id).target_token@),
        supported_chain(v.swap(id).source_chain@),
        supported_chain(v.swap(id).target_chain@),
{
}

/// A creation request that fails a check changes nothing.
pub proof fn refused_creation_changes_nothing(
    v: EngineView,
    caller: Address,
    now: u64,
    source_token: String,
    target_token: String,
    source_chain: String,
    target_chain: String,
    input_amount: u128,
    expected_output: u128,
    route_steps: u32,
    timeout_hours: u32,
)
    requires
        !creation_valid(
            source_token@,
            target_token@,
            source_chain@,
            target_chain@,
            input_amount,
            expected_output,
            route_steps,
            timeout_hours,
        ),
    ensures
        v.create(
            caller,
            now,
            source_token,
            target_token,
            source_chain,
            target_chain,
            input_amount,
            expected_output,
            route_steps,
            timeout_hours,
        ) == v,
{
}

/// In every well-formed state, no swap has more confirmed steps than its
/// route has steps, and a swap is Completed exactly when all steps of its
/// route are confirmed.
pub proof fn progress_stays_within_route(v: EngineView, id: u32)
    requires
        v.wf(),
        v.has_swap(id),
    ensures
        v.swap(id).current_step <= v.swap(id).route_steps,
        v.swap(id).status == Status::Completed <==> v.swap(id).current_step == v.swap(
            id,
        ).route_steps,
{
}

/// In every well-formed state, the table of requests and the swaps'
/// own records of the request in flight are inverse to each other, and a
/// swap with a request in flight is active.
pub proof fn requests_mirror_swaps(v: EngineView, nonce: u64, id: u32)
    requires
        v.wf(),
    ensures
        (v.requests.contains_key(nonce) && v.requests[nonce] == id) <==> (v.has_swap(id)
            && v.swap(id).pending_request == Some(nonce)),
        v.has_swap(id) && v.swap(id).pending_request is Some ==> v.swap(
            id,
        ).status.spec_is_active(),
        v.has_swap(id) && v.swap(id).status.spec_is_terminal() ==> v.swap(id).pending_request
            is None,
{
    if v.has_swap(id) {
        assert(v.swaps[id as int].valid());
    }
    if v.requests.contains_key(nonce) && v.requests[nonce] == id {
        assert(v.has_swap(id));
    }
}

/// A response to a request that is not in flight changes nothing.
pub proof fn unmatched_response_changes_nothing(v: EngineView, nonce: u64, success: bool)
    requires
        !v.requests.contains_key(nonce),
    ensures
        v.respond(nonce, success) == v,
{
}

/// A response consumes its request: the same nonce matches nothing
/// afterwards, so a second delivery changes nothing.
pub proof fn response_consumes_request(v: EngineView, nonce: u64, first: bool, second: bool)
    requires
        v.wf(),
    ensures
        !v.respond(nonce, first).requests.contains_key(nonce),
        v.respond(nonce, first).respond(nonce, second) == v.respond(nonce, first),
{
}

/// A response with a payload to a request in flight confirms one step of
/// its swap, and completes the swap exactly when that was the last step; a
/// response without payload fails the swap. No other swap changes.
pub proof fn matched_response_advances_or_fails(v: EngineView, nonce: u64, success: bool)
    requires
        v.wf(),
        v.requests.contains_key(nonce),
    ensures
        ({
            let id = v.requests[nonce];
            let before = v.swap(id);
            let after = v.respond(nonce, success).swap(id);
            &&& before.status.spec_is_active()
            &&& after.pending_request is None
            &&& success ==> after.current_step == before.current_step + 1
            &&& success ==> (after.status == Status::Completed <==> before.current_step + 1
                == before.route_steps)
            &&& success && before.current_step + 1 < before.route_steps ==> after.status
                == Status::InProgress
            &&& !success ==> after.status == Status::Failed && after.current_step
                == before.current_step
            &&& forall|i: int|
                0 <= i < v.swaps.len() && i != id ==> v.respond(nonce, success).swaps[i]
                    == v.swaps[i]
        }),
{
    let id = v.requests[nonce];
    assert(v.swaps[id as int].valid());
}

/// An advance attempt on a swap that is Completed, Failed or Refunded is
/// answered with no and changes nothing, whatever the time and whatever
/// the transport would have said.
pub proof fn terminal_swap_does_not_advance(v: EngineView, id: u32, now: u64, accepted: bool)
    requires
        v.has_swap(id),
        v.swap(id).status.spec_is_terminal(),
    ensures
        !v.will_dispatch(id, now),
        v.step(id, now, accepted) == v,
        v.prepare(id, now) == v,
        v.complete(id, accepted) == v,
{
}

/// An advance attempt on a swap that does not exist changes nothing.
pub proof fn unknown_swap_does_not_advance(v: EngineView, id: u32, now: u64, accepted: bool)
    requires
        !v.has_swap(id),
    ensures
        !v.will_dispatch(id, now),
        v.step(id, now, accepted) == v,
{
}

/// An advance attempt after the deadline of an active swap is answered
/// with no and fails the swap, whether it was Initiated or InProgress and
/// whatever the transport would have said.
pub proof fn late_advance_fails_swap(v: EngineView, id: u32, now: u64, accepted: bool)
    requires
        v.has_swap(id),
        v.swap(id).status.spec_is_active(),
        now > v.swap(id).timeout,
    ensures
        !v.will_dispatch(id, now),
        v.step(id, now, accepted) == v.fail(id),
        v.step(id, now, accepted).swap(id).status == Status::Failed,
        v.step(id, now, accepted).swap(id).pending_request is None,
        v.step(id, now, accepted).swap(id).current_step == v.swap(id).current_step,
{
}

/// An advance attempt in time on an active swap leaves it InProgress with
/// one request in flight, under the next nonce, where the transport
/// accepts, and Failed with none where it refuses. The confirmed steps do
/// not change either way.
pub proof fn timely_advance_follows_transport(v: EngineView, id: u32, now: u64, accepted: bool)
    requires
        v.wf(),
        v.will_dispatch(id, now),
        v.nonce < u64::MAX,
    ensures
        ({
            let w = v.step(id, now, accepted);
            &&& w.swap(id).current_step == v.swap(id).current_step
            &&& w.nonce == v.nonce + 1
            &&& accepted ==> w.swap(id).status == Status::InProgress && w.swap(
                id,
            ).pending_request == Some(w.nonce) && w.requests.contains_key(w.nonce)
                && w.requests[w.nonce] == id
            &&& !accepted ==> w.swap(id).status == Status::Failed && w.swap(id).pending_request
                is None && !w.requests.contains_key(w.nonce)
            &&& v.swap(id).pending_request matches Some(n) ==> !w.requests.contains_key(n)
        }),
{
    assert(v.swaps[id as int].valid());
    if let Some(n) = v.swap(id).pending_request {
        assert(v.requests.contains_key(n));
    }
}

/// One round for swap `id` at `now`: an advance attempt that the transport
/// accepts, and a response with a payload to the request it made.
pub open spec fn round(v: EngineView, id: u32, now: u64) -> EngineView {
    let sent = v.step(id, now, true);
    sent.respond(sent.nonce, true)
}

/// `n` rounds for swap `id` at `now`, one after the other.
pub open spec fn rounds(v: EngineView, id: u32, now: u64, n: nat) -> EngineView
    decreases n,
{
    if n == 0 {
        v
    } else {
        rounds(round(v, id, now), id, now, (n - 1) as nat)
    }
}

/// One round before the deadline confirms one step of an active swap and
/// leaves no request in flight for it; the swap is Completed when that was
/// its last step, and InProgress otherwise.
pub proof fn round_confirms_one_step(v: EngineView, id: u32, now: u64)
    requires
        v.wf(),
        v.will_dispatch(id, now),
        v.nonce < u64::MAX,
    ensures
        round(v, id, now).wf(),
        round(v, id, now).nonce == v.nonce + 1,
        round(v, id, now).swap(id).current_step == v.swap(id).current_step + 1,
        round(v, id, now).swap(id).pending_request is None,
        same_identity(round(v, id, now).swap(id), v.swap(id)),
        round(v, id, now).swap(id).status == (if v.swap(id).current_step + 1 == v.swap(
            id,
        ).route_steps {
            Status::Completed
        } else {
            Status::InProgress
        }),
{
    assert(v.swaps[id as int].valid());
    step_keeps_wf(v, id, now, true);
    let sent = v.step(id, now, true);
    assert(sent.requests.contains_key(sent.nonce));
    assert(sent.requests[sent.nonce] == id);
    respond_keeps_wf(sent, sent.nonce, true);
}

/// As many rounds before the deadline as the route of an active swap has
/// steps left complete the swap; fewer leave it InProgress, with as many
/// steps confirmed as there were rounds.
pub proof fn rounds_complete_swap(v: EngineView, id: u32, now: u64, n: nat)
    requires
        v.wf(),
        v.will_dispatch(id, now),
        v.nonce + n <= u64::MAX,
        v.swap(id).current_step + n <= v.swap(id).route_steps,
    ensures
        rounds(v, id, now, n).wf(),
        rounds(v, id, now, n).has_swap(id),
        rounds(v, id, now, n).swap(id).current_step == v.swap(id).current_step + n,
        same_identity(rounds(v, id, now, n).swap(id), v.swap(id)),
        v.swap(id).current_step + n == v.swap(id).route_steps ==> rounds(v, id, now, n).swap(
            id,
        ).status == Status::Completed,
        0 < n && v.swap(id).current_step + n < v.swap(id).route_steps ==> rounds(
            v,
            id,
            now,
            n,
        ).swap(id).status == Status::InProgress,
    decreases n,
{
    assert(v.swaps[id as int].valid());
    if n > 0 {
        round_confirms_one_step(v, id, now);
        let next = round(v, id, now);
        if n > 1 {
            rounds_complete_swap(next, id, now, (n - 1) as nat);
        } else {
            assert(rounds(next, id, now, 0) == next);
        }
    }
}

/// A cancellation by anyone but the initiator is answered with no and
/// changes nothing.
pub proof fn stranger_cannot_cancel(v: EngineView, caller: Address, id: u32)
    requires
        v.has_swap(id),
        caller != v.swap(id).initiator,
    ensures
        !v.cancel_allowed(caller, id),
        v.cancel(caller, id) == v,
{
}

/// A cancellation of a Completed swap is answered with no and changes
/// nothing.
pub proof fn completed_swap_cannot_be_cancelled(v: EngineView, caller: Address, id: u32)
    requires
        v.has_swap(id),
        v.swap(id).status == Status::Completed,
    ensures
        !v.cancel_allowed(caller, id),
        v.cancel(caller, id) == v,
{
}

/// A cancellation by the initiator of a swap that is Initiated or
/// InProgress is answered with yes and leaves the swap Refunded, with no
/// request in flight.
pub proof fn initiator_cancels_active_swap(v: EngineView, caller: Address, id: u32)
    requires
        v.has_swap(id),
        caller == v.swap(id).initiator,
        v.swap(id).status == Status::Initiated || v.swap(id).status == Status::InProgress,
    ensures
        v.cancel_allowed(caller, id),
        v.cancel(caller, id).swap(id).status == Status::Refunded,
        v.cancel(caller, id).swap(id).pending_request is None,
{
}

/// No operation changes a swap that is Completed, Failed or Refunded.
pub proof fn terminal_swap_never_changes(
    v: EngineView,
    id: u32,
    caller: Address,
    now: u64,
    other: u32,
    nonce: u64,
    flag: bool,
)
    requires
        v.wf(),
        v.has_swap(id),
        v.swap(id).status.spec_is_terminal(),
    ensures
        v.cancel(caller, other).swap(id) == v.swap(id),
        v.step(other, now, flag).swap(id) == v.swap(id),
        v.prepare(other, now).swap(id) == v.swap(id),
        v.complete(other, flag).swap(id) == v.swap(id),
        v.respond(nonce, flag).swap(id) == v.swap(id),
{
    assert(v.swaps[id as int].valid());
    if v.requests.contains_key(nonce) {
        let hit = v.requests[nonce];
        assert(v.swaps[hit as int].valid());
    }
}

/// No operation changes the identifier, the initiator, the route, the
/// amounts or the deadline of a swap.
pub proof fn identity_of_swap_never_changes(
    v: EngineView,
    id: u32,
    caller: Address,
    now: u64,
    other: u32,
    nonce: u64,
    flag: bool,
)
    requires
        v.wf(),
        v.has_swap(id),
    ensures
        same_identity(v.cancel(caller, other).swap(id), v.swap(id)),
        same_identity(v.step(other, now, flag).swap(id), v.swap(id)),
        same_identity(v.respond(nonce, flag).swap(id), v.swap(id)),
{
}

/// Whether two records agree on all that is fixed when a swap is created.
pub open spec fn same_identity(
    a: Swap,
    b: Swap,
) -> bool {
    &&& a.id == b.id
    &&& a.initiator == b.initiator
    &&& a.source_token == b.source_token
    &&& a.target_token == b.target_token
    &&& a.source_chain == b.source_chain
    &&& a.target_chain == b.target_chain
    &&& a.input_amount == b.input_amount
    &&& a.expected_output == b.expected_output
    &&& a.route_steps == b.route_steps
    &&& a.timeout == b.timeout
}

/// The nonce of a new request was never used before: it matches no
/// request in flight and no swap waits for it.
pub proof fn new_nonce_is_fresh(v: EngineView, id: u32, other: u32)
    requires
        v.wf(),
        v.can_advance(id),
        v.nonce < u64::MAX,
        v.has_swap(other),
    ensures
        v.open_request(id).nonce == v.nonce + 1,
        !v.requests.contains_key(v.open_request(id).nonce),
        v.swap(other).pending_request != Some(v.open_request(id).nonce),
        forall|n: u64| v.requests.contains_key(n) ==> n < v.open_request(id).nonce,
{
    if let Some(n) = v.swap(other).pending_request {
        assert(v.requests.contains_key(n));
    }
}

/// Nothing is ever forgotten but requests: no operation removes a swap, a
/// payment or a merchant, and the nonce never goes back.
pub proof fn records_only_grow(
    v: EngineView,
    caller: Address,
    now: u64,
    id: u32,
    nonce: u64,
    flag: bool,
    merchant: Address,
    first: String,
    second: String,
    amount: u128,
)
    requires
        v.wf(),
        v.nonce < u64::MAX,
    ensures
        grown(v, v.cancel(caller, id)),
        grown(v, v.step(id, now, flag)),
        grown(v, v.prepare(id, now)),
        grown(v, v.complete(id, flag)),
        grown(v, v.respond(nonce, flag)),
        grown(v, v.register(caller, first, second)),
        grown(v, v.pay(caller, now, merchant, first, second, amount)),
        grown(v, v.drained()),
{
}

/// Whether `after` holds every swap, payment and merchant of `before`, and
/// a nonce that is no smaller.
pub open spec fn grown(before: EngineView, after: EngineView) -> bool {
    &&& before.swaps.len() <= after.swaps.len()
    &&& forall|i: int|
        0 <= i < before.swaps.len() ==> same_identity(
            #[trigger] after.swaps[i],
            before.swaps[i],
        )
    &&& before.payments.len() <= after.payments.len()
    &&& forall|j: int|
        0 <= j < before.payments.len() ==> #[trigger] after.payments[j] == before.payments[j]
    &&& forall|m: Address| #[trigger]
        before.merchants.contains_key(m) ==> after.merchants.contains_key(m)
    &&& before.nonce <= after.nonce
}

/// A payment to a merchant that never registered is refused and records
/// neither a payment nor a swap.
pub proof fn payment_to_stranger_changes_nothing(
    v: EngineView,
    caller: Address,
    now: u64,
    merchant: Address,
    customer_token: String,
    customer_chain: String,
    amount: u128,
)
    requires
        !v.merchants.contains_key(merchant),
    ensures
        v.pay_outcome(merchant, customer_token@, customer_chain@, amount) == Err::<
            u32,
            SwapError,
        >(SwapError::MerchantNotFound),
        v.pay(caller, now, merchant, customer_token, customer_chain, amount) == v,
{
}

/// A payment in the merchant's own asset on the merchant's own chain
/// records no swap; any other payment that is taken records exactly one and
/// links it to the payment.
pub proof fn payment_links_at_most_one_swap(
    v: EngineView,
    caller: Address,
    now: u64,
    merchant: Address,
    customer_token: String,
    customer_chain: String,
    amount: u128,
)
    requires
        v.swaps.len() < u32::MAX,
        v.pay_outcome(merchant, customer_token@, customer_chain@, amount) is Ok,
    ensures
        ({
            let w = v.pay(caller, now, merchant, customer_token, customer_chain, amount);
            let direct = v.pays_directly(merchant, customer_token@, customer_chain@);
            &&& w.payments.len() == v.payments.len() + 1
            &&& w.payments.last().customer == caller
            &&& w.payments.last().merchant == merchant
            &&& direct ==> w.swaps == v.swaps && w.payments.last().swap_id is None
            &&& !direct ==> w.swaps.len() == v.swaps.len() + 1 && w.payments.last().swap_id
                == Some(v.swaps.len() as u32) && w.swaps.last().status == Status::Initiated
        }),
{
}

} // verus!
