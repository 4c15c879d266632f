//! The swap engine: the registry of swaps, the table of requests in flight,
//! the per-step driver and the merchant payment overlay.
//!
//! The engine reads no clock and knows no caller: every operation takes the
//! current time and the calling address as arguments. The notifications it
//! produces are kept until they are taken with `take_events`.

use vstd::prelude::*;
use vstd::bytes::u32_from_le_bytes;
use vstd::slice::{slice_subrange, slice_to_vec};
use vstd::utf8::encode_utf8;
use std::collections::HashMap;
use crate::account::Address;
use crate::table::{key_views, Table};
use crate::cross_chain_swap::events::{
    Event,
    MerchantRegistered,
    PaymentInitiated,
    SwapCancelled,
    SwapCompleted,
    SwapInitiated,
    SwapStepExecuted,
};
use crate::cross_chain_swap::model::{
    creation_valid,
    dex_aggregator,
    dex_module,
    multi_hop_outcome,
    parts_admissible,
    register_outcome,
    step_event,
    EngineView,
    HOUR_MS,
    MAX_ROUTE_STEPS,
    MAX_TIMEOUT_HOURS,
    REQUEST_TIMEOUT_MS,
};
use crate::cross_chain_swap::payload::{
    decode_request_action,
    decode_swap_params,
    encode_multi_hop_swap_data,
    parse_action,
    DecodeError,
    RequestAction,
    SwapParams,
    STATUS_QUERY_LEN,
};
use crate::cross_chain_swap::preservation::{
    cancel_keeps_wf,
    drained_keeps_wf,
    emit_keeps_wf,
    fail_keeps_wf,
    multi_hop_swap_is_valid,
    open_request_keeps_wf,
    pay_keeps_wf,
    record_keeps_wf,
    register_keeps_wf,
    respond_keeps_wf,
    settle_keeps_wf,
    supported_chain_is_named,
    supported_token_is_named,
};
use crate::cross_chain_swap::records::{MerchantPrefs, Payment, Status, Swap, SwapError};
use crate::cross_chain_swap::route;
use crate::cross_chain_swap::route::{
    quote_in_range,
    route_supported,
    supported_chain,
    supported_token,
};
use crate::cross_chain_swap::transport::{
    IsmpDispatcher,
    IsmpRequest,
    IsmpResponse,
    RequestView,
    StateMachine,
};

verus! {

/// Whether `accepted` is what the transport `dispatcher` may say of
/// `request`: it is bound by what the dispatcher promises of itself, and by
/// nothing else.
pub open spec fn transport_said<D: IsmpDispatcher>(
    dispatcher: &D,
    request: IsmpRequest,
    accepted: bool,
) -> bool {
    exists|answer: Result<(), String>|
        #[trigger] call_ensures(D::dispatch_request, (dispatcher, request), answer) && accepted
            == (answer is Ok)
}

/// Whether `accepted` is what the transport `dispatcher` may say of a
/// request that reads as `request`.
pub open spec fn transport_said_of<D: IsmpDispatcher>(
    dispatcher: &D,
    request: RequestView,
    accepted: bool,
) -> bool {
    exists|handed: IsmpRequest| #[trigger]
        transport_said(dispatcher, handed, accepted) && handed@ == request
}

/// The swap engine.
pub struct CrossChainSwap {
    swaps: Vec<Swap>,
    request_to_swap: HashMap<u64, u32>,
    ismp_nonce: u64,
    merchants: Table<Address, MerchantPrefs>,
    payments: Vec<Payment>,
    events: Vec<Event>,
}

/// The state of an engine as plain values, to be stored and to be read
/// back.
#[derive(Clone, Debug, PartialEq, Eq)]
pub struct EngineParts {
    /// The swaps, in the order of their identifiers.
    pub swaps: Vec<Swap>,
    /// The nonce that was assigned last.
    pub nonce: u64,
    /// The merchants, in the order of their registration.
    pub merchant_ids: Vec<Address>,
    /// The preferences of each merchant, in the same order.
    pub merchant_prefs: Vec<MerchantPrefs>,
    /// The payments, in the order of their identifiers.
    pub payments: Vec<Payment>,
    /// The notifications that were not yet taken.
    pub events: Vec<Event>,
}

impl EngineParts {
    /// Whether the values describe a state of the engine.
    pub open spec fn admissible(self) -> bool {
        parts_admissible(
            self.swaps@,
            self.nonce,
            self.merchant_ids@,
            self.merchant_prefs@,
            self.payments@,
        )
    }

    /// Whether `view` is the state that the values describe.
    pub open spec fn describes(self, view: EngineView) -> bool {
        &&& view.swaps == self.swaps@
        &&& view.nonce == self.nonce
        &&& view.payments == self.payments@
        &&& view.events == self.events@
        &&& view.merchants.dom() == self.merchant_ids@.to_set()
        &&& forall|k: int|
            0 <= k < self.merchant_ids@.len() ==> view.merchants[#[trigger] self.merchant_ids@[k]]
                == self.merchant_prefs@[k]
    }
}

impl View for CrossChainSwap {
    type V = EngineView;

    closed spec fn view(&self) -> EngineView {
        EngineView {
            swaps: self.swaps@,
            requests: self.request_to_swap@,
            nonce: self.ismp_nonce,
            merchants: self.merchants.map(),
            payments: self.payments@,
            events: self.events@,
        }
    }
}

impl CrossChainSwap {
    /// The engine's own consistency, and what holds of every state.
    pub closed spec fn wf(&self) -> bool {
        &&& self.merchants.wf()
        &&& self@.wf()
    }

    /// What holds of every state holds of the state of a consistent engine.
    pub proof fn wf_view(&self)
        requires
            self.wf(),
        ensures
            self@.wf(),
    {
    }

    /// An engine without swaps, requests, merchants or payments.
    pub fn new() -> (r: Self)
        ensures
            r.wf(),
            r@ == EngineView::empty(),
    {
        let r = CrossChainSwap {
            swaps: Vec::new(),
            request_to_swap: HashMap::new(),
            ismp_nonce: 0,
            merchants: Table::new(),
            payments: Vec::new(),
            events: Vec::new(),
        };
        assert(r@.requests =~= Map::<u64, u32>::empty());
        r
    }

    /// The same as `new`.
    pub fn default() -> (r: Self)
        ensures
            r.wf(),
            r@ == EngineView::empty(),
    {
        Self::new()
    }

    /// The state of the engine as plain values.
    pub fn into_parts(self) -> (parts: EngineParts)
        requires
            self.wf(),
        ensures
            parts.admissible(),
            parts.describes(self@),
    {
        let ghost view = self@;
        let ghost table = self.merchants;
        let (merchant_ids, merchant_prefs) = self.merchants.into_entries();
        let parts = EngineParts {
            swaps: self.swaps,
            nonce: self.ismp_nonce,
            merchant_ids,
            merchant_prefs,
            payments: self.payments,
            events: self.events,
        };
        proof {
            assert(key_views(merchant_ids@) =~= merchant_ids@);
            assert forall|k: int| 0 <= k < merchant_ids@.len() implies table.contains(
                #[trigger] merchant_ids@[k],
            ) && table.get(merchant_ids@[k]) == merchant_prefs@[k] by {
                assert(table.keys()[k] == merchant_ids@[k]);
                assert(table.keys().contains(merchant_ids@[k]));
                let found = table.keys().index_of(merchant_ids@[k]);
                assert(table.keys()[found] == table.keys()[k]);
            }
            assert forall|k: int| 0 <= k < merchant_prefs@.len() implies supported_token(
                (#[trigger] merchant_prefs@[k]).preferred_stablecoin@,
            ) && supported_chain(merchant_prefs@[k].settlement_chain@) by {
                assert(view.merchants.contains_key(merchant_ids@[k]));
                assert(view.merchants[merchant_ids@[k]] == merchant_prefs@[k]);
            }
            assert(view.merchants.dom() =~= merchant_ids@.to_set());
            assert forall|i: int, j: int|
                0 <= i < view.swaps.len() && 0 <= j < view.swaps.len() && i != j && (
                #[trigger] view.swaps[i]).pending_request is Some implies view.swaps[i]
                .pending_request != (#[trigger] view.swaps[j]).pending_request by {
                let n = view.swaps[i].pending_request->0;
                assert(view.requests[n] == i);
            }
        }
        parts
    }

    /// The engine in the state that `parts` describe, where they describe
    /// one.
    pub fn from_parts(parts: EngineParts) -> (r: Option<Self>)
        ensures
            match r {
                Some(engine) => parts.admissible() && engine.wf() && parts.describes(engine@),
                None => !parts.admissible(),
            },
    {
        broadcast use vstd::std_specs::hash::group_hash_axioms;

        if parts.swaps.len() > u32::MAX as usize || parts.payments.len() > u32::MAX as usize {
            return None;
        }
        let mut requests: HashMap<u64, u32> = HashMap::new();
        let mut i: usize = 0;
        while i < parts.swaps.len()
            invariant
                i <= parts.swaps@.len() <= u32::MAX,
                forall|k: int|
                    0 <= k < i ==> (#[trigger] parts.swaps@[k]).id == k && parts.swaps@[k].valid(),
                forall|k: int|
                    0 <= k < i ==> ((#[trigger] parts.swaps@[k]).pending_request matches Some(n)
                        ==> requests@.contains_key(n) && requests@[n] == k),
                forall|n: u64| #[trigger]
                    requests@.contains_key(n) ==> 1 <= n <= parts.nonce && requests@[n] < i
                        && parts.swaps@[requests@[n] as int].pending_request == Some(n),
            decreases parts.swaps@.len() - i,
        {
            let swap = &parts.swaps[i];
            if swap.id as usize != i || !swap.is_valid() {
                return None;
            }
            match swap.pending_request {
                Some(nonce) => {
                    if nonce < 1 || nonce > parts.nonce {
                        return None;
                    }
                    if requests.contains_key(&nonce) {
                        proof {
                            let earlier = requests@[nonce] as int;
                            assert(parts.swaps@[earlier].pending_request == Some(nonce));
                            assert(parts.swaps@[i as int].pending_request == Some(nonce));
                        }
                        return None;
                    }
                    requests.insert(nonce, i as u32);
                },
                None => {},
            }
            i += 1;
        }
        let mut j: usize = 0;
        while j < parts.payments.len()
            invariant
                j <= parts.payments@.len(),
                forall|k: int|
                    0 <= k < j ==> ((#[trigger] parts.payments@[k]).swap_id matches Some(s) ==> s
                        < parts.swaps@.len()),
            decreases parts.payments@.len() - j,
        {
            match parts.payments[j].swap_id {
                Some(swap_id) => {
                    if swap_id as usize >= parts.swaps.len() {
                        return None;
                    }
                },
                None => {},
            }
            j += 1;
        }
        let mut m: usize = 0;
        while m < parts.merchant_prefs.len()
            invariant
                m <= parts.merchant_prefs@.len(),
                forall|k: int|
                    0 <= k < m ==> supported_token(
                        (#[trigger] parts.merchant_prefs@[k]).preferred_stablecoin@,
                    ) && supported_chain(parts.merchant_prefs@[k].settlement_chain@),
            decreases parts.merchant_prefs@.len() - m,
        {
            let prefs = &parts.merchant_prefs[m];
            if !route::is_supported_token(prefs.preferred_stablecoin.as_str())
                || !route::is_supported_chain(prefs.settlement_chain.as_str()) {
                return None;
            }
            m += 1;
        }
        assert(key_views(parts.merchant_ids@) =~= parts.merchant_ids@);
        let merchants = match Table::from_entries(parts.merchant_ids, parts.merchant_prefs) {
            Some(table) => table,
            None => {
                return None;
            },
        };
        let engine = CrossChainSwap {
            swaps: parts.swaps,
            request_to_swap: requests,
            ismp_nonce: parts.nonce,
            merchants,
            payments: parts.payments,
            events: parts.events,
        };
        proof {
            assert forall|k: int| 0 <= k < parts.merchant_ids@.len() implies merchants.contains(
                #[trigger] parts.merchant_ids@[k],
            ) && merchants.get(parts.merchant_ids@[k]) == parts.merchant_prefs@[k] by {
                assert(merchants.keys()[k] == parts.merchant_ids@[k]);
                assert(merchants.keys().contains(parts.merchant_ids@[k]));
                let found = merchants.keys().index_of(parts.merchant_ids@[k]);
                assert(merchants.keys()[found] == merchants.keys()[k]);
            }
            assert(engine@.merchants.dom() =~= parts.merchant_ids@.to_set());
            assert forall|a: Address| #[trigger]
                engine@.merchants.contains_key(a) implies supported_token(
                engine@.merchants[a].preferred_stablecoin@,
            ) && supported_chain(engine@.merchants[a].settlement_chain@) by {
                let found = merchants.keys().index_of(a);
                assert(merchants.keys()[found] == a);
                assert(engine@.merchants[a] == parts.merchant_prefs@[found]);
            }
            assert forall|a: int, b: int|
                0 <= a < parts.swaps@.len() && 0 <= b < parts.swaps@.len() && a != b && (
                #[trigger] parts.swaps@[a]).pending_request is Some implies parts.swaps@[a]
                .pending_request != (#[trigger] parts.swaps@[b]).pending_request by {
                let n = parts.swaps@[a].pending_request->0;
                assert(requests@[n] == a);
            }
        }
        Some(engine)
    }

    /// The number of swaps recorded so far, which is the identifier of the
    /// next one.
    pub fn get_swap_count(&self) -> (n: u32)
        requires
            self.wf(),
        ensures
            n == self@.swaps.len(),
    {
        self.swaps.len() as u32
    }

    /// The nonce that was assigned last; zero while none was assigned.
    pub fn last_nonce(&self) -> (n: u64)
        ensures
            n == self@.nonce,
    {
        self.ismp_nonce
    }

    /// The number of payments started so far.
    pub fn get_payment_count(&self) -> (n: u32)
        requires
            self.wf(),
        ensures
            n == self@.payments.len(),
    {
        self.payments.len() as u32
    }

    /// The status code of swap `swap_id`, if it exists.
    pub fn get_swap_status(&self, swap_id: u32) -> (r: Option<u8>)
        requires
            self.wf(),
        ensures
            r == (if self@.has_swap(swap_id) {
                Some(self@.swap(swap_id).status.spec_code())
            } else {
                None
            }),
    {
        if (swap_id as usize) < self.swaps.len() {
            Some(self.swaps[swap_id as usize].status.code())
        } else {
            None
        }
    }

    /// The confirmed steps, the steps of the route and the status code of
    /// swap `swap_id`, if it exists. Whatever was done to the engine, no
    /// more steps are confirmed than the route has, and the swap reads as
    /// Completed exactly when all of them are.
    pub fn get_swap_progress(&self, swap_id: u32) -> (r: Option<(u32, u32, u8)>)
        requires
            self.wf(),
        ensures
            r == (if self@.has_swap(swap_id) {
                Some(
                    (
                        self@.swap(swap_id).current_step,
                        self@.swap(swap_id).route_steps,
                        self@.swap(swap_id).status.spec_code(),
                    ),
                )
            } else {
                None
            }),
            r matches Some((current_step, route_steps, status)) ==> {
                &&& current_step <= route_steps
                &&& 1 <= route_steps <= MAX_ROUTE_STEPS
                &&& (status == Status::Completed.spec_code() <==> current_step == route_steps)
            },
    {
        if (swap_id as usize) < self.swaps.len() {
            let swap = &self.swaps[swap_id as usize];
            assert(swap.valid());
            Some((swap.current_step, swap.route_steps, swap.status.code()))
        } else {
            None
        }
    }

    /// The route of swap `swap_id`, if it exists: source and target asset,
    /// source and target chain, the two amounts and the number of steps.
    pub fn get_swap_route(&self, swap_id: u32) -> (r: Option<
        (String, String, String, String, u128, u128, u32),
    >)
        requires
            self.wf(),
        ensures
            r == (if self@.has_swap(swap_id) {
                Some(
                    (
                        self@.swap(swap_id).source_token,
                        self@.swap(swap_id).target_token,
                        self@.swap(swap_id).source_chain,
                        self@.swap(swap_id).target_chain,
                        self@.swap(swap_id).input_amount,
                        self@.swap(swap_id).expected_output,
                        self@.swap(swap_id).route_steps,
                    ),
                )
            } else {
                None
            }),
    {
        if (swap_id as usize) < self.swaps.len() {
            let swap = &self.swaps[swap_id as usize];
            Some(
                (
                    swap.source_token.clone(),
                    swap.target_token.clone(),
                    swap.source_chain.clone(),
                    swap.target_chain.clone(),
                    swap.input_amount,
                    swap.expected_output,
                    swap.route_steps,
                ),
            )
        } else {
            None
        }
    }

    /// Whether swap `swap_id` exists and its deadline has passed at `now`.
    pub fn is_swap_timed_out(&self, now: u64, swap_id: u32) -> (r: bool)
        requires
            self.wf(),
        ensures
            r == (self@.has_swap(swap_id) && self@.expired(swap_id, now)),
    {
        if (swap_id as usize) < self.swaps.len() {
            now > self.swaps[swap_id as usize].timeout
        } else {
            false
        }
    }

    /// The route pre-check.
    pub fn is_route_supported(
        &self,
        source_token: String,
        target_token: String,
        source_chain: String,
        target_chain: String,
    ) -> (r: bool)
        ensures
            r == route_supported(source_token@, target_token@, source_chain@, target_chain@),
    {
        route::is_route_supported(
            source_token.as_str(),
            target_token.as_str(),
            source_chain.as_str(),
            target_chain.as_str(),
        )
    }

    /// The notifications produced since they were last taken, oldest
    /// first. Nothing else changes.
    pub fn take_events(&mut self) -> (events: Vec<Event>)
        requires
            old(self).wf(),
        ensures
            final(self).wf(),
            events@ == old(self)@.events,
            final(self)@ == old(self)@.drained(),
    {
        proof {
            drained_keeps_wf(self@);
        }
        let mut taken: Vec<Event> = Vec::new();
        std::mem::swap(&mut self.events, &mut taken);
        taken
    }

    /// Records `swap` as the newest swap and tells of it.
    fn record_swap(&mut self, swap: Swap)
        requires
            old(self).wf(),
            old(self)@.swaps.len() < u32::MAX,
            swap.id == old(self)@.swaps.len(),
            swap.valid(),
            swap.pending_request is None,
        ensures
            final(self).wf(),
            final(self)@ == old(self)@.record(swap),
    {
        proof {
            record_keeps_wf(self@, swap);
        }
        let event = Event::SwapInitiated(
            SwapInitiated {
                swap_id: swap.id,
                initiator: swap.initiator,
                source_token: swap.source_token.clone(),
                target_token: swap.target_token.clone(),
                source_chain: swap.source_chain.clone(),
                target_chain: swap.target_chain.clone(),
                input_amount: swap.input_amount,
                expected_output: swap.expected_output,
                route_steps: swap.route_steps,
                timeout: swap.timeout,
            },
        );
        self.swaps.push(swap);
        self.events.push(event);
    }

    /// Whether a creation request with these values is taken: both assets
    /// and both chains have names and are accepted ones, both amounts are
    /// positive, the route has one to ten steps, and the timeout window is
    /// one to 168 hours.
    pub fn creation_is_valid(
        source_token: &str,
        target_token: &str,
        source_chain: &str,
        target_chain: &str,
        input_amount: u128,
        expected_output: u128,
        route_steps: u32,
        timeout_hours: u32,
    ) -> (r: bool)
        ensures
            r == creation_valid(
                source_token@,
                target_token@,
                source_chain@,
                target_chain@,
                input_amount,
                expected_output,
                route_steps,
                timeout_hours,
            ),
    {
        if source_token.is_empty() || target_token.is_empty() {
            return false;
        }
        if source_chain.is_empty() || target_chain.is_empty() {
            return false;
        }
        if !route::is_supported_token(source_token) || !route::is_supported_token(target_token) {
            return false;
        }
        if !route::is_supported_chain(source_chain) || !route::is_supported_chain(target_chain) {
            return false;
        }
        if input_amount == 0 || expected_output == 0 {
            return false;
        }
        if route_steps == 0 || route_steps > MAX_ROUTE_STEPS {
            return false;
        }
        if timeout_hours == 0 || timeout_hours > MAX_TIMEOUT_HOURS {
            return false;
        }
        true
    }

    /// Records a swap for `caller` and returns its identifier, or refuses
    /// the request and changes nothing.
    ///
    /// The request is refused when an asset or a chain has no name or is
    /// not an accepted one, an amount is zero, the route has no step or
    /// more than ten, or the timeout window is shorter than one hour or
    /// longer than 168. A request that is taken yields a swap that is
    /// Initiated, has no confirmed step and no request in flight, and
    /// carries the next identifier; its deadline is `now` plus the window.
    /// No older swap changes.
    pub fn initiate_multi_hop_swap(
        &mut self,
        caller: Address,
        now: u64,
        source_token: String,
        target_token: String,
        source_chain: String,
        target_chain: String,
        input_amount: u128,
        expected_output: u128,
        route_steps: u32,
        timeout_hours: u32,
    ) -> (r: Option<u32>)
        requires
            old(self).wf(),
            creation_valid(
                source_token@,
                target_token@,
                source_chain@,
                target_chain@,
                input_amount,
                expected_output,
                route_steps,
                timeout_hours,
            ) ==> {
                &&& old(self)@.swaps.len() < u32::MAX
                &&& now + timeout_hours * HOUR_MS <= u64::MAX
            },
        ensures
            final(self).wf(),
            final(self)@ == old(self)@.create(
                caller,
                now,
                source_token,
                target_token,
                source_chain,
                target_chain,
                input_amount,
                expected_output,
                route_steps,
                timeout_hours,
            ),
            r == (if creation_valid(
                source_token@,
                target_token@,
                source_chain@,
                target_chain@,
                input_amount,
                expected_output,
                route_steps,
                timeout_hours,
            ) {
                Some(old(self)@.swaps.len() as u32)
            } else {
                None
            }),
            r matches Some(id) ==> {
                &&& final(self)@.swaps.len() == old(self)@.swaps.len() + 1
                &&& final(self)@.swap(id).id == id
                &&& final(self)@.swap(id).initiator == caller
                &&& final(self)@.swap(id).status == Status::Initiated
                &&& final(self)@.swap(id).current_step == 0
                &&& final(self)@.swap(id).route_steps == route_steps
                &&& final(self)@.swap(id).timeout == now + timeout_hours * HOUR_MS
                &&& final(self)@.swap(id).pending_request is None
                &&& forall|i: int|
                    0 <= i < old(self)@.swaps.len() ==> final(self)@.swaps[i] == old(
                        self,
                    )@.swaps[i]
            },
    {
        if !Self::creation_is_valid(
            source_token.as_str(),
            target_token.as_str(),
            source_chain.as_str(),
            target_chain.as_str(),
            input_amount,
            expected_output,
            route_steps,
            timeout_hours,
        ) {
            return None;
        }
        let swap_id = self.swaps.len() as u32;
        let timeout: u64 = now + (timeout_hours as u64) * HOUR_MS;
        let swap = Swap {
            id: swap_id,
            initiator: caller,
            source_token,
            target_token,
            source_chain,
            target_chain,
            input_amount,
            expected_output,
            route_steps,
            current_step: 0,
            status: Status::Initiated,
            timeout,
            pending_request: None,
        };
        self.record_swap(swap);
        Some(swap_id)
    }

    /// Forgets the request named by `pending`, if any.
    fn release_request(&mut self, pending: Option<u64>)
        ensures
            final(self).request_to_swap@ == old(self)@.release(pending),
            final(self).swaps == old(self).swaps,
            final(self).ismp_nonce == old(self).ismp_nonce,
            final(self).merchants == old(self).merchants,
            final(self).payments == old(self).payments,
            final(self).events == old(self).events,
    {
        broadcast use vstd::std_specs::hash::group_hash_axioms;

        match pending {
            Some(nonce) => {
                self.request_to_swap.remove(&nonce);
            },
            None => {},
        }
    }

    /// Cancels swap `swap_id` for `caller`: the swap becomes Refunded and
    /// the request in flight for it, if any, is forgotten. Returns whether
    /// it did; where it did not, nothing changes.
    ///
    /// Only the initiator may cancel, and only a swap that is Initiated or
    /// InProgress.
    pub fn cancel_swap(&mut self, caller: Address, swap_id: u32) -> (r: bool)
        requires
            old(self).wf(),
        ensures
            final(self).wf(),
            r == old(self)@.cancel_allowed(caller, swap_id),
            final(self)@ == old(self)@.cancel(caller, swap_id),
    {
        if (swap_id as usize) >= self.swaps.len() {
            return false;
        }
        let index = swap_id as usize;
        if !caller.same(&self.swaps[index].initiator) {
            return false;
        }
        if !self.swaps[index].status.is_active() {
            return false;
        }
        proof {
            cancel_keeps_wf(self@, caller, swap_id);
        }
        let pending = self.swaps[index].pending_request;
        self.swaps[index].status = Status::Refunded;
        self.swaps[index].pending_request = None;
        self.release_request(pending);
        self.events.push(Event::SwapCancelled(SwapCancelled { swap_id, initiator: caller }));
        assert(self@.swaps =~= old(self)@.cancel(caller, swap_id).swaps);
        true
    }

    /// Marks the active swap `swap_id` as Failed, forgets the request in
    /// flight for it and tells of the failure.
    fn fail_swap(&mut self, swap_id: u32)
        requires
            old(self).wf(),
            old(self)@.can_advance(swap_id),
        ensures
            final(self).wf(),
            final(self)@ == old(self)@.fail(swap_id),
    {
        proof {
            fail_keeps_wf(self@, swap_id);
        }
        let index = swap_id as usize;
        let pending = self.swaps[index].pending_request;
        let initiator = self.swaps[index].initiator;
        self.swaps[index].status = Status::Failed;
        self.swaps[index].pending_request = None;
        self.release_request(pending);
        self.events.push(
            Event::SwapCompleted(
                SwapCompleted { swap_id, initiator, final_status: Status::Failed.code() },
            ),
        );
        assert(self@.swaps =~= old(self)@.fail(swap_id).swaps);
    }

    /// The checks of an advance attempt. Returns whether a step is to be
    /// handed to the transport; a swap found past its deadline is failed.
    fn check_step(&mut self, now: u64, swap_id: u32) -> (r: bool)
        requires
            old(self).wf(),
        ensures
            final(self).wf(),
            r == old(self)@.will_dispatch(swap_id, now),
            r ==> final(self)@ == old(self)@,
            !r ==> final(self)@ == old(self)@.prepare(swap_id, now),
    {
        if (swap_id as usize) >= self.swaps.len() {
            return false;
        }
        let index = swap_id as usize;
        if !self.swaps[index].status.is_active() {
            return false;
        }
        if now > self.swaps[index].timeout {
            self.fail_swap(swap_id);
            return false;
        }
        true
    }

    /// Puts a request in flight for the current step of the active swap
    /// `swap_id` and returns it. The step converts into `target_token` and
    /// goes to module `to`.
    fn construct_request(
        &mut self,
        now: u64,
        swap_id: u32,
        target_token: &str,
        to: Vec<u8>,
    ) -> (request: IsmpRequest)
        requires
            old(self).wf(),
            old(self)@.can_advance(swap_id),
            old(self)@.nonce < u64::MAX,
            now + REQUEST_TIMEOUT_MS <= u64::MAX,
        ensures
            final(self).wf(),
            final(self)@ == old(self)@.open_request(swap_id),
            request@ == old(self)@.step_request(
                swap_id,
                now,
                encode_utf8(target_token@),
                to@,
            ),
    {
        broadcast use vstd::std_specs::hash::group_hash_axioms;

        proof {
            open_request_keeps_wf(self@, swap_id);
        }
        let index = swap_id as usize;
        let nonce: u64 = self.ismp_nonce + 1;
        let superseded = self.swaps[index].pending_request;
        self.release_request(superseded);
        self.ismp_nonce = nonce;
        self.request_to_swap.insert(nonce, swap_id);
        self.swaps[index].pending_request = Some(nonce);
        assert(self@.swaps =~= old(self)@.open_request(swap_id).swaps);
        let body = encode_multi_hop_swap_data(
            swap_id,
            self.swaps[index].current_step,
            self.swaps[index].source_token.as_str(),
            target_token,
            self.swaps[index].input_amount,
        );
        IsmpRequest {
            source: StateMachine::Polkadot(1000),
            dest: StateMachine::Polkadot(2000),
            nonce,
            from: slice_to_vec("cross_chain_swap".as_bytes()),
            to,
            timeout_timestamp: now + REQUEST_TIMEOUT_MS,
            body,
        }
    }

    /// Puts a request in flight for the current step of the active swap
    /// `swap_id` and returns it. It takes the next nonce; a request that
    /// was in flight for the swap is forgotten.
    pub fn construct_swap_request(&mut self, now: u64, swap_id: u32) -> (request: IsmpRequest)
        requires
            old(self).wf(),
            old(self)@.can_advance(swap_id),
            old(self)@.nonce < u64::MAX,
            now + REQUEST_TIMEOUT_MS <= u64::MAX,
        ensures
            final(self).wf(),
            final(self)@ == old(self)@.open_request(swap_id),
            request@ == old(self)@.next_request(swap_id, now),
    {
        let target_token = self.swaps[swap_id as usize].target_token.clone();
        self.construct_request(
            now,
            swap_id,
            target_token.as_str(),
            slice_to_vec("dex_module".as_bytes()),
        )
    }

    /// As `construct_swap_request`, for the first step of a route through
    /// an intermediate asset: the step converts into `target_token` and
    /// goes to the aggregator.
    pub fn construct_multi_hop_request(
        &mut self,
        now: u64,
        swap_id: u32,
        target_token: &str,
    ) -> (request: IsmpRequest)
        requires
            old(self).wf(),
            old(self)@.can_advance(swap_id),
            old(self)@.nonce < u64::MAX,
            now + REQUEST_TIMEOUT_MS <= u64::MAX,
        ensures
            final(self).wf(),
            final(self)@ == old(self)@.open_request(swap_id),
            request@ == old(self)@.step_request(
                swap_id,
                now,
                encode_utf8(target_token@),
                dex_aggregator(),
            ),
    {
        self.construct_request(
            now,
            swap_id,
            target_token,
            slice_to_vec("dex_aggregator".as_bytes()),
        )
    }

    /// Hands `request` to the transport and returns whether the transport
    /// accepted it. Nothing is known of the answer beforehand.
    pub fn send_ismp_request<D: IsmpDispatcher>(dispatcher: &D, request: IsmpRequest) -> (accepted:
        bool)
        ensures
            transport_said(dispatcher, request, accepted),
    {
        match dispatcher.dispatch_request(request) {
            Ok(()) => true,
            Err(_) => false,
        }
    }

    /// Builds the request for the current step of the active swap
    /// `swap_id`, puts it in flight and hands it to the transport. Returns
    /// the transport's word.
    pub fn execute_ismp_step<D: IsmpDispatcher>(
        &mut self,
        dispatcher: &D,
        now: u64,
        swap_id: u32,
    ) -> (accepted: bool)
        requires
            old(self).wf(),
            old(self)@.can_advance(swap_id),
            old(self)@.nonce < u64::MAX,
            now + REQUEST_TIMEOUT_MS <= u64::MAX,
        ensures
            final(self).wf(),
            final(self)@ == old(self)@.open_request(swap_id),
            transport_said_of(dispatcher, old(self)@.next_request(swap_id, now), accepted),
    {
        let request = self.construct_swap_request(now, swap_id);
        let accepted = Self::send_ismp_request(dispatcher, request);
        assert(transport_said(dispatcher, request, accepted));
        accepted
    }

    /// Applies the transport's word on the request in flight for swap
    /// `swap_id`.
    fn settle_step(&mut self, swap_id: u32, accepted: bool)
        requires
            old(self).wf(),
            old(self)@.awaits_outcome(swap_id),
        ensures
            final(self).wf(),
            final(self)@ == old(self)@.settle(swap_id, accepted),
    {
        proof {
            settle_keeps_wf(self@, swap_id, accepted);
        }
        let index = swap_id as usize;
        let step = self.swaps[index].current_step;
        let total_steps = self.swaps[index].route_steps;
        self.events.push(
            Event::SwapStepExecuted(
                SwapStepExecuted { swap_id, step, total_steps, success: accepted },
            ),
        );
        if accepted {
            self.swaps[index].status = Status::InProgress;
            assert(self@.swaps =~= old(self)@.settle(swap_id, accepted).swaps);
        } else {
            proof {
                emit_keeps_wf(
                    old(self)@,
                    step_event(old(self)@.swap(swap_id), false),
                );
            }
            self.fail_swap(swap_id);
        }
    }

    /// The first half of an advance attempt on swap `swap_id` at `now`.
    ///
    /// Where the swap does not exist or is not active, nothing changes.
    /// Where its deadline has passed, it becomes Failed. Otherwise the
    /// request for its current step is put in flight and returned, for the
    /// caller to hand to the transport and to report the outcome with
    /// `complete_step`.
    pub fn prepare_step(&mut self, now: u64, swap_id: u32) -> (r: Option<IsmpRequest>)
        requires
            old(self).wf(),
            old(self)@.will_dispatch(swap_id, now) ==> old(self)@.nonce < u64::MAX && now
                + REQUEST_TIMEOUT_MS <= u64::MAX,
        ensures
            final(self).wf(),
            final(self)@ == old(self)@.prepare(swap_id, now),
            match r {
                Some(request) => old(self)@.will_dispatch(swap_id, now) && request@ == old(
                    self,
                )@.next_request(swap_id, now),
                None => !old(self)@.will_dispatch(swap_id, now),
            },
    {
        if self.check_step(now, swap_id) {
            Some(self.construct_swap_request(now, swap_id))
        } else {
            None
        }
    }

    /// The second half of an advance attempt: the transport's word on the
    /// request in flight for swap `swap_id`.
    ///
    /// An accepted request leaves the swap InProgress; a refused one fails
    /// it and is forgotten. Where the swap has no request in flight,
    /// nothing changes. Returns whether the swap advanced.
    pub fn complete_step(&mut self, swap_id: u32, accepted: bool) -> (r: bool)
        requires
            old(self).wf(),
        ensures
            final(self).wf(),
            final(self)@ == old(self)@.complete(swap_id, accepted),
            r == (old(self)@.awaits_outcome(swap_id) && accepted),
    {
        if (swap_id as usize) >= self.swaps.len() {
            return false;
        }
        let index = swap_id as usize;
        if !self.swaps[index].status.is_active() {
            return false;
        }
        if self.swaps[index].pending_request.is_none() {
            return false;
        }
        self.settle_step(swap_id, accepted);
        accepted
    }

    /// An advance attempt on swap `swap_id` at `now`.
    ///
    /// Returns false and changes nothing where the swap does not exist or
    /// is not active. Returns false and fails the swap where its deadline
    /// has passed. Otherwise hands the request for the current step to the
    /// transport and returns the transport's word: an accepted request
    /// leaves the swap InProgress with the request in flight, a refused one
    /// fails the swap.
    pub fn execute_next_step<D: IsmpDispatcher>(
        &mut self,
        dispatcher: &D,
        now: u64,
        swap_id: u32,
    ) -> (r: bool)
        requires
            old(self).wf(),
            old(self)@.will_dispatch(swap_id, now) ==> old(self)@.nonce < u64::MAX && now
                + REQUEST_TIMEOUT_MS <= u64::MAX,
        ensures
            final(self).wf(),
            final(self)@ == old(self)@.step(swap_id, now, r),
            r ==> old(self)@.will_dispatch(swap_id, now),
            old(self)@.will_dispatch(swap_id, now) ==> transport_said_of(
                dispatcher,
                old(self)@.next_request(swap_id, now),
                r,
            ),
    {
        if !self.check_step(now, swap_id) {
            return false;
        }
        proof {
            open_request_keeps_wf(self@, swap_id);
        }
        let accepted = self.execute_ismp_step(dispatcher, now, swap_id);
        self.settle_step(swap_id, accepted);
        accepted
    }

    /// Applies a response with a payload to the request `nonce`, which is
    /// in flight: the swap advances by one step and completes where that
    /// was its last.
    fn handle_successful_step_response(&mut self, nonce: u64)
        requires
            old(self).wf(),
            old(self)@.requests.contains_key(nonce),
        ensures
            final(self).wf(),
            final(self)@ == old(self)@.respond(nonce, true),
    {
        broadcast use vstd::std_specs::hash::group_hash_axioms;

        proof {
            respond_keeps_wf(self@, nonce, true);
        }
        let swap_id = match self.request_to_swap.get(&nonce) {
            Some(id) => *id,
            None => {
                return ;
            },
        };
        let index = swap_id as usize;
        let current_step = self.swaps[index].current_step;
        let total_steps = self.swaps[index].route_steps;
        let initiator = self.swaps[index].initiator;
        self.release_request(Some(nonce));
        self.swaps[index].pending_request = None;
        if current_step + 1 >= total_steps {
            self.swaps[index].current_step = total_steps;
            self.swaps[index].status = Status::Completed;
            self.events.push(
                Event::SwapCompleted(
                    SwapCompleted { swap_id, initiator, final_status: Status::Completed.code() },
                ),
            );
        } else {
            self.swaps[index].current_step = current_step + 1;
            self.swaps[index].status = Status::InProgress;
            self.events.push(
                Event::SwapStepExecuted(
                    SwapStepExecuted { swap_id, step: current_step, total_steps, success: true },
                ),
            );
        }
        assert(self@.swaps =~= old(self)@.respond(nonce, true).swaps);
    }

    /// Applies a response without payload to the request `nonce`, which is
    /// in flight: the swap fails.
    fn handle_failed_step_response(&mut self, nonce: u64)
        requires
            old(self).wf(),
            old(self)@.requests.contains_key(nonce),
        ensures
            final(self).wf(),
            final(self)@ == old(self)@.respond(nonce, false),
    {
        broadcast use vstd::std_specs::hash::group_hash_axioms;

        proof {
            respond_keeps_wf(self@, nonce, false);
        }
        let swap_id = match self.request_to_swap.get(&nonce) {
            Some(id) => *id,
            None => {
                return ;
            },
        };
        let index = swap_id as usize;
        let initiator = self.swaps[index].initiator;
        self.release_request(Some(nonce));
        self.swaps[index].pending_request = None;
        self.swaps[index].status = Status::Failed;
        self.events.push(
            Event::SwapCompleted(
                SwapCompleted { swap_id, initiator, final_status: Status::Failed.code() },
            ),
        );
        assert(self@.swaps =~= old(self)@.respond(nonce, false).swaps);
    }

    /// Delivers the response to request `nonce`.
    ///
    /// A response to a request that is not in flight changes nothing.
    /// Otherwise the request is consumed; a response with a payload
    /// advances the swap by one step, and completes it where that was its
    /// last; one without payload fails the swap.
    pub fn on_response(&mut self, nonce: u64, payload: &[u8])
        requires
            old(self).wf(),
        ensures
            final(self).wf(),
            final(self)@ == old(self)@.respond(nonce, payload@.len() > 0),
    {
        broadcast use vstd::std_specs::hash::group_hash_axioms;

        if self.request_to_swap.contains_key(&nonce) {
            let success = payload.len() > 0;
            if success {
                self.handle_successful_step_response(nonce);
            } else {
                self.handle_failed_step_response(nonce);
            }
        }
    }

    /// Delivers a response, which names the request it answers by the
    /// nonce of that request: see `on_response`.
    pub fn handle_ismp_response(&mut self, response: IsmpResponse)
        requires
            old(self).wf(),
        ensures
            final(self).wf(),
            final(self)@ == old(self)@.respond(response.post.nonce, response.response@.len() > 0),
    {
        self.on_response(response.post.nonce, response.response.as_slice());
    }

    /// Stores the preferences of the merchant `caller`, in place of those
    /// it had stored before, if any. An asset or a chain that is not
    /// accepted is refused, and nothing changes.
    pub fn register_merchant(
        &mut self,
        caller: Address,
        preferred_stablecoin: String,
        settlement_chain: String,
    ) -> (r: Result<(), SwapError>)
        requires
            old(self).wf(),
        ensures
            final(self).wf(),
            r == register_outcome(preferred_stablecoin@, settlement_chain@),
            final(self)@ == old(self)@.register(caller, preferred_stablecoin, settlement_chain),
    {
        if !route::is_supported_token(preferred_stablecoin.as_str()) {
            return Err(SwapError::UnsupportedStablecoin);
        }
        if !route::is_supported_chain(settlement_chain.as_str()) {
            return Err(SwapError::UnsupportedSettlementChain);
        }
        proof {
            register_keeps_wf(self@, caller, preferred_stablecoin, settlement_chain);
        }
        let event = Event::MerchantRegistered(
            MerchantRegistered {
                merchant_id: caller,
                preferred_stablecoin: preferred_stablecoin.clone(),
                settlement_chain: settlement_chain.clone(),
            },
        );
        self.merchants.insert(caller, MerchantPrefs { preferred_stablecoin, settlement_chain });
        self.events.push(event);
        Ok(())
    }

    /// The preferred asset and the settlement chain of `merchant`, if it
    /// registered.
    pub fn get_merchant_preferences(&self, merchant: Address) -> (r: Option<(String, String)>)
        requires
            self.wf(),
        ensures
            r == (if self@.merchants.contains_key(merchant) {
                Some(
                    (
                        self@.merchants[merchant].preferred_stablecoin,
                        self@.merchants[merchant].settlement_chain,
                    ),
                )
            } else {
                None
            }),
    {
        match self.merchants.lookup(&merchant) {
            Some(prefs) => Some(
                (prefs.preferred_stablecoin.clone(), prefs.settlement_chain.clone()),
            ),
            None => None,
        }
    }

    /// Whether `address` registered as a merchant.
    pub fn is_registered_merchant(&self, address: Address) -> (r: bool)
        requires
            self.wf(),
        ensures
            r == self@.merchants.contains_key(address),
    {
        self.merchants.contains_key(&address)
    }

    /// The customer, the merchant and the swap, if any, of payment
    /// `payment_id`, if it exists.
    pub fn get_payment_status(
        &self,
        payment_id: u32,
    ) -> (r: Option<(Address, Address, Option<u32>)>)
        requires
            self.wf(),
        ensures
            r == (if (payment_id as int) < self@.payments.len() {
                Some(
                    (
                        self@.payments[payment_id as int].customer,
                        self@.payments[payment_id as int].merchant,
                        self@.payments[payment_id as int].swap_id,
                    ),
                )
            } else {
                None
            }),
    {
        if (payment_id as usize) < self.payments.len() {
            let payment = &self.payments[payment_id as usize];
            Some((payment.customer, payment.merchant, payment.swap_id))
        } else {
            None
        }
    }

    /// Whether `token` is an accepted asset.
    pub fn is_supported_token(&self, token: &str) -> (r: bool)
        ensures
            r == route::supported_token(token@),
    {
        route::is_supported_token(token)
    }

    /// Whether `chain` is an accepted chain.
    pub fn is_supported_chain(&self, chain: &str) -> (r: bool)
        ensures
            r == route::supported_chain(chain@),
    {
        route::is_supported_chain(chain)
    }

    /// The quoted output of converting `input_amount` of `source_token`
    /// into `target_token`.
    pub fn calculate_expected_output(
        &self,
        source_token: &str,
        target_token: &str,
        input_amount: u128,
    ) -> (r: u128)
        requires
            quote_in_range(source_token@, target_token@, input_amount as nat),
        ensures
            r == route::quote(source_token@, target_token@, input_amount as nat),
    {
        route::calculate_expected_output(source_token, target_token, input_amount)
    }

    /// Records the swap that converts a payment of `caller`: one step
    /// where the customer pays on the settlement chain, two otherwise, and
    /// a deadline one hour from `now`. Returns its identifier.
    fn initiate_payment_swap(
        &mut self,
        caller: Address,
        now: u64,
        source_token: String,
        source_chain: String,
        target_token: String,
        target_chain: String,
        input_amount: u128,
        expected_output: u128,
    ) -> (swap_id: u32)
        requires
            old(self).wf(),
            old(self)@.swaps.len() < u32::MAX,
            now + HOUR_MS <= u64::MAX,
            supported_token(source_token@),
            supported_chain(source_chain@),
            supported_token(target_token@),
            supported_chain(target_chain@),
            input_amount > 0,
            expected_output > 0,
        ensures
            final(self).wf(),
            swap_id == old(self)@.swaps.len(),
            final(self)@ == old(self)@.record(
                old(self)@.new_swap(
                    caller,
                    now,
                    source_token,
                    target_token,
                    source_chain,
                    target_chain,
                    input_amount,
                    expected_output,
                    if source_chain@ == target_chain@ {
                        1u32
                    } else {
                        2u32
                    },
                    HOUR_MS as int,
                ),
            ),
    {
        proof {
            supported_token_is_named(source_token@);
            supported_chain_is_named(source_chain@);
            supported_token_is_named(target_token@);
            supported_chain_is_named(target_chain@);
        }
        let swap_id = self.swaps.len() as u32;
        let route_steps: u32 = if route::str_same(source_chain.as_str(), target_chain.as_str()) {
            1
        } else {
            2
        };
        let swap = Swap {
            id: swap_id,
            initiator: caller,
            source_token,
            target_token,
            source_chain,
            target_chain,
            input_amount,
            expected_output,
            route_steps,
            current_step: 0,
            status: Status::Initiated,
            timeout: now + HOUR_MS,
            pending_request: None,
        };
        self.record_swap(swap);
        swap_id
    }

    /// Starts a payment of `input_amount` from `caller` to `merchant` and
    /// returns its identifier, or refuses it and changes nothing.
    ///
    /// The payment is refused where the merchant never registered or the
    /// customer's asset or chain is not accepted. Where the customer pays
    /// in the merchant's asset on the merchant's chain, the payment is
    /// settled as it stands and no swap is recorded. Otherwise a swap from
    /// the customer's asset into the merchant's is recorded for the quoted
    /// output and linked to the payment; the payment is refused where the
    /// amount or the quote is zero.
    pub fn process_payment(
        &mut self,
        caller: Address,
        now: u64,
        merchant: Address,
        customer_token: String,
        customer_chain: String,
        input_amount: u128,
    ) -> (r: Result<u32, SwapError>)
        requires
            old(self).wf(),
            old(self)@.payment_admitted(merchant, customer_token@, customer_chain@) ==> {
                &&& old(self)@.payments.len() < u32::MAX
                &&& old(self)@.swaps.len() < u32::MAX
                &&& now + HOUR_MS <= u64::MAX
                &&& quote_in_range(
                    customer_token@,
                    old(self)@.merchants[merchant].preferred_stablecoin@,
                    input_amount as nat,
                )
            },
        ensures
            final(self).wf(),
            r == old(self)@.pay_outcome(merchant, customer_token@, customer_chain@, input_amount),
            final(self)@ == old(self)@.pay(
                caller,
                now,
                merchant,
                customer_token,
                customer_chain,
                input_amount,
            ),
    {
        let (merchant_stablecoin, settlement_chain) = match self.merchants.lookup(&merchant) {
            Some(prefs) => (prefs.preferred_stablecoin.clone(), prefs.settlement_chain.clone()),
            None => {
                return Err(SwapError::MerchantNotFound);
            },
        };
        if !route::is_supported_token(customer_token.as_str()) {
            return Err(SwapError::UnsupportedCustomerToken);
        }
        if !route::is_supported_chain(customer_chain.as_str()) {
            return Err(SwapError::UnsupportedCustomerChain);
        }
        proof {
            pay_keeps_wf(
                self@,
                caller,
                now,
                merchant,
                customer_token,
                customer_chain,
                input_amount,
            );
        }
        let payment_id = self.payments.len() as u32;
        let expected_output = route::calculate_expected_output(
            customer_token.as_str(),
            merchant_stablecoin.as_str(),
            input_amount,
        );
        let direct = route::str_same(customer_token.as_str(), merchant_stablecoin.as_str())
            && route::str_same(customer_chain.as_str(), settlement_chain.as_str());
        if !direct && (input_amount == 0 || expected_output == 0) {
            return Err(SwapError::UnsupportedRoute);
        }
        self.events.push(
            Event::PaymentInitiated(
                PaymentInitiated {
                    payment_id,
                    customer: caller,
                    merchant,
                    customer_token: customer_token.clone(),
                    customer_chain: customer_chain.clone(),
                    merchant_stablecoin: merchant_stablecoin.clone(),
                    input_amount,
                    expected_output,
                    timeout: now + HOUR_MS,
                },
            ),
        );
        if direct {
            self.payments.push(Payment { customer: caller, merchant, swap_id: None });
            return Ok(payment_id);
        }
        proof {
            emit_keeps_wf(
                old(self)@,
                old(self)@.payment_event(
                    caller,
                    now,
                    merchant,
                    customer_token,
                    customer_chain,
                    input_amount,
                ),
            );
        }
        let swap_id = self.initiate_payment_swap(
            caller,
            now,
            customer_token,
            customer_chain,
            merchant_stablecoin,
            settlement_chain,
            input_amount,
            expected_output,
        );
        self.payments.push(Payment { customer: caller, merchant, swap_id: Some(swap_id) });
        Ok(payment_id)
    }

    /// Records a swap of two steps through an intermediate asset and hands
    /// its first step, into the intermediate asset, to the transport.
    ///
    /// The request is refused, and nothing changes, where one of the three
    /// assets or of the three chains is not accepted or an amount is zero.
    /// Otherwise the swap is recorded with a deadline one hour from `now`.
    /// Where the transport accepts the first step the swap is InProgress
    /// and its identifier is returned; where it refuses, the swap is
    /// Failed and the error says so.
    pub fn execute_multi_hop_ismp_swap<D: IsmpDispatcher>(
        &mut self,
        dispatcher: &D,
        caller: Address,
        now: u64,
        source_token: String,
        target_token: String,
        intermediate_token: String,
        source_chain: String,
        intermediate_chain: String,
        target_chain: String,
        input_amount: u128,
        expected_output: u128,
    ) -> (r: Result<u32, SwapError>)
        requires
            old(self).wf(),
            multi_hop_outcome(
                source_token@,
                target_token@,
                intermediate_token@,
                source_chain@,
                intermediate_chain@,
                target_chain@,
                input_amount,
                expected_output,
            ) is Ok ==> {
                &&& old(self)@.swaps.len() < u32::MAX
                &&& old(self)@.nonce < u64::MAX
                &&& now + HOUR_MS <= u64::MAX
            },
        ensures
            final(self).wf(),
            match multi_hop_outcome(
                source_token@,
                target_token@,
                intermediate_token@,
                source_chain@,
                intermediate_chain@,
                target_chain@,
                input_amount,
                expected_output,
            ) {
                Err(e) => r == Err::<u32, SwapError>(e),
                Ok(_) => r == Ok::<u32, SwapError>(old(self)@.swaps.len() as u32) || r == Err::<
                    u32,
                    SwapError,
                >(SwapError::FirstStepFailed),
            },
            final(self)@ == old(self)@.multi_hop(
                caller,
                now,
                source_token,
                target_token,
                intermediate_token,
                source_chain,
                intermediate_chain,
                target_chain,
                input_amount,
                expected_output,
                r is Ok,
            ),
            multi_hop_outcome(
                source_token@,
                target_token@,
                intermediate_token@,
                source_chain@,
                intermediate_chain@,
                target_chain@,
                input_amount,
                expected_output,
            ) is Ok ==> transport_said_of(
                dispatcher,
                old(self)@.first_hop_request(
                    caller,
                    now,
                    source_token,
                    target_token,
                    intermediate_token,
                    source_chain,
                    target_chain,
                    input_amount,
                    expected_output,
                ),
                r is Ok,
            ),
    {
        if !route::is_supported_token(source_token.as_str()) || !route::is_supported_token(
            intermediate_token.as_str(),
        ) || !route::is_supported_token(target_token.as_str()) {
            return Err(SwapError::UnsupportedTokenInRoute);
        }
        if !route::is_supported_chain(source_chain.as_str()) || !route::is_supported_chain(
            intermediate_chain.as_str(),
        ) || !route::is_supported_chain(target_chain.as_str()) {
            return Err(SwapError::UnsupportedChainInRoute);
        }
        if input_amount == 0 || expected_output == 0 {
            return Err(SwapError::RejectedRoute);
        }
        proof {
            multi_hop_swap_is_valid(
                self@,
                caller,
                now,
                source_token,
                target_token,
                intermediate_token,
                source_chain,
                intermediate_chain,
                target_chain,
                input_amount,
                expected_output,
            );
        }
        let swap_id = self.swaps.len() as u32;
        let swap = Swap {
            id: swap_id,
            initiator: caller,
            source_token,
            target_token,
            source_chain,
            target_chain,
            input_amount,
            expected_output,
            route_steps: 2,
            current_step: 0,
            status: Status::Initiated,
            timeout: now + HOUR_MS,
            pending_request: None,
        };
        self.record_swap(swap);
        proof {
            open_request_keeps_wf(self@, swap_id);
        }
        let first_step_request = self.construct_multi_hop_request(
            now,
            swap_id,
            intermediate_token.as_str(),
        );
        let accepted = Self::send_ismp_request(dispatcher, first_step_request);
        assert(transport_said(dispatcher, first_step_request, accepted));
        self.settle_step(swap_id, accepted);
        if accepted {
            Ok(swap_id)
        } else {
            Err(SwapError::FirstStepFailed)
        }
    }

    /// The exchange on this chain. None is attached: every request that
    /// parses counts as executed.
    fn execute_local_swap(&self, _params: &SwapParams) -> (done: bool)
        ensures
            done,
    {
        true
    }

    /// Answers a request to execute a step on this chain.
    fn handle_swap_execution_request(
        &self,
        request: &IsmpRequest,
    ) -> (r: Result<Vec<u8>, SwapError>)
        requires
            parse_action(request.body@) == Ok::<RequestAction, DecodeError>(
                RequestAction::ExecuteSwap,
            ),
        ensures
            match r {
                Ok(bytes) => self@.reply(request.body@) == Ok::<Seq<u8>, SwapError>(bytes@),
                Err(e) => self@.reply(request.body@) == Err::<Seq<u8>, SwapError>(e),
            },
    {
        match decode_swap_params(request.body.as_slice()) {
            Ok(params) => {
                let done = self.execute_local_swap(&params);
                let mut reply: Vec<u8> = Vec::new();
                reply.push(1);
                assert(reply@ =~= seq![1u8]);
                Ok(reply)
            },
            Err(_) => Err(SwapError::InvalidSwapParams),
        }
    }

    /// Answers a query for the status of a swap with its status code, or
    /// with 0 where there is no such swap. The query names the swap by the
    /// four bytes that follow the action byte.
    fn handle_swap_status_query(&self, request: &IsmpRequest) -> (r: Result<Vec<u8>, SwapError>)
        requires
            self.wf(),
            parse_action(request.body@) == Ok::<RequestAction, DecodeError>(
                RequestAction::QuerySwapStatus,
            ),
        ensures
            match r {
                Ok(bytes) => self@.reply(request.body@) == Ok::<Seq<u8>, SwapError>(bytes@),
                Err(e) => self@.reply(request.body@) == Err::<Seq<u8>, SwapError>(e),
            },
    {
        if request.body.len() < STATUS_QUERY_LEN {
            return Err(SwapError::InvalidStatusQuery);
        }
        let swap_id = u32_from_le_bytes(
            slice_subrange(request.body.as_slice(), 1, STATUS_QUERY_LEN),
        );
        let status: u8 = match self.get_swap_status(swap_id) {
            Some(code) => code,
            None => 0,
        };
        let mut reply: Vec<u8> = Vec::new();
        reply.push(status);
        assert(reply@ =~= seq![status]);
        Ok(reply)
    }

    /// Answers an inbound request.
    ///
    /// A request to execute a step is answered with the byte 1 where its
    /// body parses. A status query is answered with the status code of the
    /// swap it names. A body without a known action byte is refused. The
    /// engine does not change.
    pub fn handle_ismp_request(&self, request: &IsmpRequest) -> (r: Result<Vec<u8>, SwapError>)
        requires
            self.wf(),
        ensures
            match r {
                Ok(bytes) => self@.reply(request.body@) == Ok::<Seq<u8>, SwapError>(bytes@),
                Err(e) => self@.reply(request.body@) == Err::<Seq<u8>, SwapError>(e),
            },
    {
        match decode_request_action(request.body.as_slice()) {
            Ok(RequestAction::ExecuteSwap) => self.handle_swap_execution_request(request),
            Ok(RequestAction::QuerySwapStatus) => self.handle_swap_status_query(request),
            Err(_) => Err(SwapError::UnknownRequestAction),
        }
    }
}

} // verus!
