//! Every operation of the engine keeps what holds of every state.

use vstd::prelude::*;
use crate::account::Address;
use crate::cross_chain_swap::events::Event;
use crate::cross_chain_swap::model::{
    creation_valid,
    multi_hop_outcome,
    register_outcome,
    step_event,
    EngineView,
    HOUR_MS,
};
use crate::cross_chain_swap::records::{Status, Swap};
use crate::cross_chain_swap::route::{quote_in_range, supported_chain, supported_token};

verus! {

/// An accepted asset has a name.
pub proof fn supported_token_is_named(token: Seq<char>)
    requires
        supported_token(token),
    ensures
        token.len() > 0,
{
    reveal_strlit("USDT");
    reveal_strlit("DOT");
    reveal_strlit("USDC");
    reveal_strlit("KSM");
    reveal_strlit("ASTR");
    reveal_strlit("BNC");
    reveal_strlit("HDX");
}

/// An accepted chain has a name.
pub proof fn supported_chain_is_named(chain: Seq<char>)
    requires
        supported_chain(chain),
    ensures
        chain.len() > 0,
{
    reveal_strlit("AssetHub");
    reveal_strlit("Acala");
    reveal_strlit("Hydration");
    reveal_strlit("Moonbeam");
    reveal_strlit("Astar");
    reveal_strlit("Bifrost");
}

/// The state of a new engine is well formed.
pub proof fn empty_is_wf()
    ensures
        EngineView::empty().wf(),
{
}

/// A notification changes nothing else.
pub proof fn emit_keeps_wf(v: EngineView, event: Event)
    requires
        v.wf(),
    ensures
        v.emit(event).wf(),
{
}

/// Taking the notifications changes nothing else.
pub proof fn drained_keeps_wf(v: EngineView)
    requires
        v.wf(),
    ensures
        v.drained().wf(),
{
}

/// Recording a fresh, valid swap keeps the state well formed.
pub proof fn record_keeps_wf(v: EngineView, swap: Swap)
    requires
        v.wf(),
        v.swaps.len() < u32::MAX,
        swap.id == v.swaps.len(),
        swap.valid(),
        swap.pending_request is None,
    ensures
        v.record(swap).wf(),
{
    let w = v.record(swap);
    assert forall|n: u64| #[trigger] w.requests.contains_key(n) implies 1 <= n <= w.nonce
        && w.requests[n] < w.swaps.len() && w.swaps[w.requests[n] as int].pending_request
        == Some(n) by {
        assert(v.requests.contains_key(n));
        assert(w.swaps[v.requests[n] as int] == v.swaps[v.requests[n] as int]);
    }
}

/// Creation keeps the state well formed.
pub proof fn create_keeps_wf(
    v: EngineView,
    caller: Address,
    now: u64,
    source_token: String,
    target_token: String,
    source_chain: String,
    target_chain: String,
    input_amount: u128,
    expected_output: u128,
    route_steps: u32,
    timeout_hours: u32,
)
    requires
        v.wf(),
        creation_valid(
            source_token@,
            target_token@,
            source_chain@,
            target_chain@,
            input_amount,
            expected_output,
            route_steps,
            timeout_hours,
        ) ==> v.swaps.len() < u32::MAX,
    ensures
        v.create(
            caller,
            now,
            source_token,
            target_token,
            source_chain,
            target_chain,
            input_amount,
            expected_output,
            route_steps,
            timeout_hours,
        ).wf(),
{
    if creation_valid(
        source_token@,
        target_token@,
        source_chain@,
        target_chain@,
        input_amount,
        expected_output,
        route_steps,
        timeout_hours,
    ) {
        record_keeps_wf(
            v,
            v.new_swap(
                caller,
                now,
                source_token,
                target_token,
                source_chain,
                target_chain,
                input_amount,
                expected_output,
                route_steps,
                timeout_hours * HOUR_MS,
            ),
        );
    }
}

/// Replacing swap `id` by one that is valid, has the same identifier and
/// has no request in flight, and consuming the request that was in flight
/// for it, keeps the state well formed.
pub proof fn close_keeps_wf(v: EngineView, id: u32, swap: Swap, events: Seq<Event>)
    requires
        v.wf(),
        v.has_swap(id),
        swap.id == id,
        swap.valid(),
        swap.pending_request is None,
    ensures
        (EngineView {
            swaps: v.swaps.update(id as int, swap),
            requests: v.release(v.swap(id).pending_request),
            events,
            ..v
        }).wf(),
{
    let w = EngineView {
        swaps: v.swaps.update(id as int, swap),
        requests: v.release(v.swap(id).pending_request),
        events,
        ..v
    };
    assert forall|i: int| 0 <= i < w.swaps.len() implies ((#[trigger] w.swaps[i]).pending_request
        matches Some(n) ==> w.requests.contains_key(n) && w.requests[n] == i) by {
        if i != id {
            assert(w.swaps[i] == v.swaps[i]);
            if let Some(n) = v.swaps[i].pending_request {
                assert(v.requests.contains_key(n) && v.requests[n] == i);
                if let Some(m) = v.swap(id).pending_request {
                    assert(v.requests[m] == id);
                }
            }
        }
    }
    assert forall|n: u64| #[trigger] w.requests.contains_key(n) implies 1 <= n <= w.nonce
        && w.requests[n] < w.swaps.len() && w.swaps[w.requests[n] as int].pending_request
        == Some(n) by {
        assert(v.requests.contains_key(n));
        let j = v.requests[n];
        if j == id {
            assert(v.swap(id).pending_request == Some(n));
        }
    }
    assert forall|i: int| 0 <= i < w.swaps.len() implies (#[trigger] w.swaps[i]).id == i
        && w.swaps[i].valid() by {
        if i != id {
            assert(w.swaps[i] == v.swaps[i]);
        }
    }
}

/// Cancellation keeps the state well formed.
pub proof fn cancel_keeps_wf(v: EngineView, caller: Address, id: u32)
    requires
        v.wf(),
    ensures
        v.cancel(caller, id).wf(),
{
    if v.cancel_allowed(caller, id) {
        let swap = v.swap(id);
        close_keeps_wf(
            v,
            id,
            Swap { status: Status::Refunded, pending_request: None, ..swap },
            v.cancel(caller, id).events,
        );
    }
}

/// Failing an active swap keeps the state well formed.
pub proof fn fail_keeps_wf(v: EngineView, id: u32)
    requires
        v.wf(),
        v.can_advance(id),
    ensures
        v.fail(id).wf(),
{
    let swap = v.swap(id);
    close_keeps_wf(
        v,
        id,
        Swap { status: Status::Failed, pending_request: None, ..swap },
        v.fail(id).events,
    );
}

/// Putting a request in flight keeps the state well formed, while nonces
/// are left.
pub proof fn open_request_keeps_wf(v: EngineView, id: u32)
    requires
        v.wf(),
        v.can_advance(id),
        v.nonce < u64::MAX,
    ensures
        v.open_request(id).wf(),
        v.open_request(id).awaits_outcome(id),
{
    let swap = v.swap(id);
    let nonce = (v.nonce + 1) as u64;
    let closed = EngineView {
        swaps: v.swaps.update(id as int, Swap { pending_request: None, ..swap }),
        requests: v.release(swap.pending_request),
        events: v.events,
        ..v
    };
    close_keeps_wf(v, id, Swap { pending_request: None, ..swap }, v.events);
    let w = v.open_request(id);
    assert(!closed.requests.contains_key(nonce));
    assert forall|i: int| 0 <= i < w.swaps.len() implies ((#[trigger] w.swaps[i]).pending_request
        matches Some(n) ==> w.requests.contains_key(n) && w.requests[n] == i) by {
        if i != id {
            assert(w.swaps[i] == closed.swaps[i]);
        }
    }
    assert forall|n: u64| #[trigger] w.requests.contains_key(n) implies 1 <= n <= w.nonce
        && w.requests[n] < w.swaps.len() && w.swaps[w.requests[n] as int].pending_request
        == Some(n) by {
        if n != nonce {
            assert(closed.requests.contains_key(n));
            let j = closed.requests[n];
            assert(closed.swaps[j as int].pending_request == Some(n));
        }
    }
    assert forall|i: int| 0 <= i < w.swaps.len() implies (#[trigger] w.swaps[i]).id == i
        && w.swaps[i].valid() by {
        if i != id {
            assert(w.swaps[i] == closed.swaps[i]);
        }
    }
}

/// The transport's word on a request keeps the state well formed.
pub proof fn settle_keeps_wf(v: EngineView, id: u32, accepted: bool)
    requires
        v.wf(),
        v.awaits_outcome(id),
    ensures
        v.settle(id, accepted).wf(),
{
    let swap = v.swap(id);
    if accepted {
        let w = v.settle(id, true);
        assert forall|i: int| 0 <= i < w.swaps.len() implies (#[trigger] w.swaps[i]).id == i
            && w.swaps[i].valid() by {
            if i != id {
                assert(w.swaps[i] == v.swaps[i]);
            }
        }
        assert forall|i: int| 0 <= i < w.swaps.len() implies ((
        #[trigger] w.swaps[i]).pending_request matches Some(n) ==> w.requests.contains_key(n)
            && w.requests[n] == i) by {
            if i != id {
                assert(w.swaps[i] == v.swaps[i]);
            }
        }
        assert forall|n: u64| #[trigger] w.requests.contains_key(n) implies 1 <= n <= w.nonce
            && w.requests[n] < w.swaps.len() && w.swaps[w.requests[n] as int].pending_request
            == Some(n) by {
            let j = v.requests[n];
            assert(v.swaps[j as int].pending_request == Some(n));
        }
    } else {
        let e = v.emit(step_event(swap, false));
        emit_keeps_wf(v, step_event(swap, false));
        fail_keeps_wf(e, id);
    }
}

/// The first half of an advance attempt keeps the state well formed.
pub proof fn prepare_keeps_wf(v: EngineView, id: u32, now: u64)
    requires
        v.wf(),
        v.will_dispatch(id, now) ==> v.nonce < u64::MAX,
    ensures
        v.prepare(id, now).wf(),
{
    if v.can_advance(id) {
        if v.expired(id, now) {
            fail_keeps_wf(v, id);
        } else {
            open_request_keeps_wf(v, id);
        }
    }
}

/// The second half of an advance attempt keeps the state well formed.
pub proof fn complete_keeps_wf(v: EngineView, id: u32, accepted: bool)
    requires
        v.wf(),
    ensures
        v.complete(id, accepted).wf(),
{
    if v.awaits_outcome(id) {
        settle_keeps_wf(v, id, accepted);
    }
}

/// An advance attempt keeps the state well formed.
pub proof fn step_keeps_wf(v: EngineView, id: u32, now: u64, accepted: bool)
    requires
        v.wf(),
        v.will_dispatch(id, now) ==> v.nonce < u64::MAX,
    ensures
        v.step(id, now, accepted).wf(),
{
    if v.will_dispatch(id, now) {
        open_request_keeps_wf(v, id);
        settle_keeps_wf(v.open_request(id), id, accepted);
    } else {
        prepare_keeps_wf(v, id, now);
    }
}

/// A response keeps the state well formed.
pub proof fn respond_keeps_wf(v: EngineView, nonce: u64, success: bool)
    requires
        v.wf(),
    ensures
        v.respond(nonce, success).wf(),
{
    if v.requests.contains_key(nonce) {
        let id = v.requests[nonce];
        let swap = v.swap(id);
        assert(swap.pending_request == Some(nonce));
        assert(swap.valid());
        let w = v.respond(nonce, success);
        close_keeps_wf(v, id, w.swaps[id as int], w.events);
    }
}

/// Registration keeps the state well formed.
pub proof fn register_keeps_wf(
    v: EngineView,
    caller: Address,
    preferred_stablecoin: String,
    settlement_chain: String,
)
    requires
        v.wf(),
    ensures
        v.register(caller, preferred_stablecoin, settlement_chain).wf(),
{
    let w = v.register(caller, preferred_stablecoin, settlement_chain);
    if register_outcome(preferred_stablecoin@, settlement_chain@) is Ok {
        assert forall|m: Address| #[trigger] w.merchants.contains_key(m) implies supported_token(
            w.merchants[m].preferred_stablecoin@,
        ) && supported_chain(w.merchants[m].settlement_chain@) by {
            if m != caller {
                assert(v.merchants.contains_key(m));
            }
        }
    }
}

/// A payment keeps the state well formed, while identifiers are left and
/// the quote and the deadline can be computed.
pub proof fn pay_keeps_wf(
    v: EngineView,
    caller: Address,
    now: u64,
    merchant: Address,
    customer_token: String,
    customer_chain: String,
    amount: u128,
)
    requires
        v.wf(),
        v.payment_admitted(merchant, customer_token@, customer_chain@) ==> {
            &&& v.payments.len() < u32::MAX
            &&& v.swaps.len() < u32::MAX
            &&& quote_in_range(
                customer_token@,
                v.merchants[merchant].preferred_stablecoin@,
                amount as nat,
            )
        },
    ensures
        v.pay(caller, now, merchant, customer_token, customer_chain, amount).wf(),
{
    let w = v.pay(caller, now, merchant, customer_token, customer_chain, amount);
    if v.pay_outcome(merchant, customer_token@, customer_chain@, amount) is Ok {
        let started = v.payment_event(
            caller,
            now,
            merchant,
            customer_token,
            customer_chain,
            amount,
        );
        if v.pays_directly(merchant, customer_token@, customer_chain@) {
            assert forall|j: int| 0 <= j < w.payments.len() implies ((
            #[trigger] w.payments[j]).swap_id matches Some(s) ==> s < w.swaps.len()) by {
                if j < v.payments.len() {
                    assert(w.payments[j] == v.payments[j]);
                }
            }
        } else {
            let swap = v.payment_swap(
                caller,
                now,
                merchant,
                customer_token,
                customer_chain,
                amount,
            );
            let prefs = v.merchants[merchant];
            supported_token_is_named(customer_token@);
            supported_chain_is_named(customer_chain@);
            supported_token_is_named(prefs.preferred_stablecoin@);
            supported_chain_is_named(prefs.settlement_chain@);
            assert(v.payment_quote(merchant, customer_token@, amount) <= u128::MAX);
            emit_keeps_wf(v, started);
            record_keeps_wf(v.emit(started), swap);
            let r = v.emit(started).record(swap);
            assert forall|j: int| 0 <= j < w.payments.len() implies ((
            #[trigger] w.payments[j]).swap_id matches Some(s) ==> s < w.swaps.len()) by {
                if j < v.payments.len() {
                    assert(w.payments[j] == v.payments[j]);
                }
            }
        }
    }
}

/// A route with an intermediate asset that passes the checks gives a valid
/// swap.
pub proof fn multi_hop_swap_is_valid(
    v: EngineView,
    caller: Address,
    now: u64,
    source_token: String,
    target_token: String,
    intermediate_token: String,
    source_chain: String,
    intermediate_chain: String,
    target_chain: String,
    input_amount: u128,
    expected_output: u128,
)
    requires
        multi_hop_outcome(
            source_token@,
            target_token@,
            intermediate_token@,
            source_chain@,
            intermediate_chain@,
            target_chain@,
            input_amount,
            expected_output,
        ) is Ok,
    ensures
        v.new_swap(
            caller,
            now,
            source_token,
            target_token,
            source_chain,
            target_chain,
            input_amount,
            expected_output,
            2,
            HOUR_MS as int,
        ).valid(),
{
    supported_token_is_named(source_token@);
    supported_token_is_named(target_token@);
    supported_chain_is_named(source_chain@);
    supported_chain_is_named(target_chain@);
}

} // verus!
