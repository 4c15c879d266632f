//! The swap engine as a state machine over mathematical values: its state,
//! what holds of every state, and each operation as a function from state to
//! state.

use vstd::prelude::*;
use vstd::utf8::encode_utf8;
use crate::account::Address;
use crate::cross_chain_swap::events::{
    Event,
    MerchantRegistered,
    PaymentInitiated,
    SwapCancelled,
    SwapCompleted,
    SwapInitiated,
    SwapStepExecuted,
};
use vstd::bytes::spec_u32_from_le_bytes;
use crate::cross_chain_swap::payload::{
    multi_hop_swap_data,
    parse_action,
    parse_swap_params,
    RequestAction,
    STATUS_QUERY_LEN,
};
use crate::cross_chain_swap::records::{MerchantPrefs, Payment, Status, Swap, SwapError};
use crate::cross_chain_swap::route::{quote, supported_chain, supported_token};
use crate::cross_chain_swap::transport::{RequestView, StateMachine};

verus! {

/// One hour, in the unit of the clock.
pub const HOUR_MS: u64 = 3_600_000;

/// How long a request stays valid after it was built.
pub const REQUEST_TIMEOUT_MS: u64 = 3_600_000;

/// The largest number of hops of a route.
pub const MAX_ROUTE_STEPS: u32 = 10;

/// The largest timeout window, in hours.
pub const MAX_TIMEOUT_HOURS: u32 = 168;

/// The state machine that requests are sent from.
pub open spec fn request_source() -> StateMachine {
    StateMachine::Polkadot(1000)
}

/// The state machine that requests are sent to.
pub open spec fn request_dest() -> StateMachine {
    StateMachine::Polkadot(2000)
}

/// The module that sends the requests.
pub open spec fn sender_module() -> Seq<u8> {
    encode_utf8("cross_chain_swap"@)
}

/// The module that receives the steps of a registered swap.
pub open spec fn dex_module() -> Seq<u8> {
    encode_utf8("dex_module"@)
}

/// The module that receives the first step of a route with an intermediate
/// asset.
pub open spec fn dex_aggregator() -> Seq<u8> {
    encode_utf8("dex_aggregator"@)
}

/// The notification that records `swap`.
pub open spec fn initiated_event(swap: Swap) -> Event {
    Event::SwapInitiated(
        SwapInitiated {
            swap_id: swap.id,
            initiator: swap.initiator,
            source_token: swap.source_token,
            target_token: swap.target_token,
            source_chain: swap.source_chain,
            target_chain: swap.target_chain,
            input_amount: swap.input_amount,
            expected_output: swap.expected_output,
            route_steps: swap.route_steps,
            timeout: swap.timeout,
        },
    )
}

/// The notification that a step of `swap` was accepted or refused.
pub open spec fn step_event(swap: Swap, success: bool) -> Event {
    Event::SwapStepExecuted(
        SwapStepExecuted {
            swap_id: swap.id,
            step: swap.current_step,
            total_steps: swap.route_steps,
            success,
        },
    )
}

/// The notification that `swap` ended in `status`.
pub open spec fn completed_event(swap: Swap, status: Status) -> Event {
    Event::SwapCompleted(
        SwapCompleted {
            swap_id: swap.id,
            initiator: swap.initiator,
            final_status: status.spec_code(),
        },
    )
}

/// What a creation request must satisfy: both assets and both chains have
/// names and are accepted ones, both amounts are positive, the route has
/// one to ten steps, and the timeout window is one to 168 hours.
pub open spec fn creation_valid(
    source_token: Seq<char>,
    target_token: Seq<char>,
    source_chain: Seq<char>,
    target_chain: Seq<char>,
    input_amount: u128,
    expected_output: u128,
    route_steps: u32,
    timeout_hours: u32,
) -> bool {
    &&& source_token.len() > 0
    &&& target_token.len() > 0
    &&& source_chain.len() > 0
    &&& target_chain.len() > 0
    &&& supported_token(source_token)
    &&& supported_token(target_token)
    &&& supported_chain(source_chain)
    &&& supported_chain(target_chain)
    &&& input_amount != 0
    &&& expected_output != 0
    &&& 1 <= route_steps <= MAX_ROUTE_STEPS
    &&& 1 <= timeout_hours <= MAX_TIMEOUT_HOURS
}

/// How a request to register a merchant is answered.
pub open spec fn register_outcome(preferred_stablecoin: Seq<char>, settlement_chain: Seq<char>)
    -> Result<(), SwapError> {
    if !supported_token(preferred_stablecoin) {
        Err(SwapError::UnsupportedStablecoin)
    } else if !supported_chain(settlement_chain) {
        Err(SwapError::UnsupportedSettlementChain)
    } else {
        Ok(())
    }
}

/// How the route of a swap with an intermediate asset is judged.
pub open spec fn multi_hop_outcome(
    source_token: Seq<char>,
    target_token: Seq<char>,
    intermediate_token: Seq<char>,
    source_chain: Seq<char>,
    intermediate_chain: Seq<char>,
    target_chain: Seq<char>,
    input_amount: u128,
    expected_output: u128,
) -> Result<(), SwapError> {
    if !supported_token(source_token) || !supported_token(intermediate_token) || !supported_token(
        target_token,
    ) {
        Err(SwapError::UnsupportedTokenInRoute)
    } else if !supported_chain(source_chain) || !supported_chain(intermediate_chain)
        || !supported_chain(target_chain) {
        Err(SwapError::UnsupportedChainInRoute)
    } else if input_amount == 0 || expected_output == 0 {
        Err(SwapError::RejectedRoute)
    } else {
        Ok(())
    }
}

/// Whether plain values describe a state of the engine: the swaps in the
/// order of their identifiers, the nonce that was assigned last, the
/// merchants with their preferences, and the payments.
pub open spec fn parts_admissible(
    swaps: Seq<Swap>,
    nonce: u64,
    merchant_ids: Seq<Address>,
    merchant_prefs: Seq<MerchantPrefs>,
    payments: Seq<Payment>,
) -> bool {
    &&& swaps.len() <= u32::MAX
    &&& payments.len() <= u32::MAX
    &&& forall|i: int| 0 <= i < swaps.len() ==> (#[trigger] swaps[i]).id == i && swaps[i].valid()
    &&& forall|i: int|
        0 <= i < swaps.len() ==> ((#[trigger] swaps[i]).pending_request matches Some(n) ==> 1 <= n
            <= nonce)
    &&& forall|i: int, j: int|
        0 <= i < swaps.len() && 0 <= j < swaps.len() && i != j && (
        #[trigger] swaps[i]).pending_request is Some ==> swaps[i].pending_request != (
        #[trigger] swaps[j]).pending_request
    &&& merchant_ids.len() == merchant_prefs.len()
    &&& merchant_ids.no_duplicates()
    &&& forall|k: int|
        0 <= k < merchant_prefs.len() ==> supported_token(
            (#[trigger] merchant_prefs[k]).preferred_stablecoin@,
        ) && supported_chain(merchant_prefs[k].settlement_chain@)
    &&& forall|j: int|
        0 <= j < payments.len() ==> ((#[trigger] payments[j]).swap_id matches Some(s) ==> s
            < swaps.len())
}

/// The state of the engine.
pub struct EngineView {
    /// Every swap ever recorded; a swap's identifier is its position.
    pub swaps: Seq<Swap>,
    /// The requests in flight: nonce to swap identifier.
    pub requests: Map<u64, u32>,
    /// The nonce that was assigned last.
    pub nonce: u64,
    /// The preferences of each registered merchant.
    pub merchants: Map<Address, MerchantPrefs>,
    /// Every payment ever started; a payment's identifier is its position.
    pub payments: Seq<Payment>,
    /// The notifications that were produced and not yet taken.
    pub events: Seq<Event>,
}

impl EngineView {
    /// The state of a new engine.
    pub open spec fn empty() -> EngineView {
        EngineView {
            swaps: Seq::empty(),
            requests: Map::empty(),
            nonce: 0,
            merchants: Map::empty(),
            payments: Seq::empty(),
            events: Seq::empty(),
        }
    }

    /// Whether there is a swap with identifier `id`.
    pub open spec fn has_swap(self, id: u32) -> bool {
        (id as int) < self.swaps.len()
    }

    /// The swap with identifier `id`.
    pub open spec fn swap(self, id: u32) -> Swap {
        self.swaps[id as int]
    }

    /// What holds of every state that the operations reach.
    pub open spec fn wf(self) -> bool {
        &&& self.swaps.len() <= u32::MAX
        &&& self.payments.len() <= u32::MAX
        &&& forall|i: int|
            0 <= i < self.swaps.len() ==> (#[trigger] self.swaps[i]).id == i
                && self.swaps[i].valid()
        &&& forall|i: int|
            0 <= i < self.swaps.len() ==> ((#[trigger] self.swaps[i]).pending_request matches Some(
                n,
            ) ==> self.requests.contains_key(n) && self.requests[n] == i)
        &&& forall|n: u64| #[trigger]
            self.requests.contains_key(n) ==> 1 <= n <= self.nonce && self.requests[n]
                < self.swaps.len() && self.swaps[self.requests[n] as int].pending_request == Some(
                n,
            )
        &&& forall|j: int|
            0 <= j < self.payments.len() ==> ((#[trigger] self.payments[j]).swap_id matches Some(
                s,
            ) ==> s < self.swaps.len())
        &&& forall|m: Address| #[trigger]
            self.merchants.contains_key(m) ==> supported_token(
                self.merchants[m].preferred_stablecoin@,
            ) && supported_chain(self.merchants[m].settlement_chain@)
    }

    /// The requests in flight once the one named by `pending` is consumed.
    pub open spec fn release(self, pending: Option<u64>) -> Map<u64, u32> {
        match pending {
            Some(n) => self.requests.remove(n),
            None => self.requests,
        }
    }

    /// The state with one more notification.
    pub open spec fn emit(self, event: Event) -> EngineView {
        EngineView { events: self.events.push(event), ..self }
    }

    /// The state with `swap` recorded as the newest swap.
    pub open spec fn record(self, swap: Swap) -> EngineView {
        EngineView {
            swaps: self.swaps.push(swap),
            events: self.events.push(initiated_event(swap)),
            ..self
        }
    }

    /// The swap that a creation request describes.
    pub open spec fn new_swap(
        self,
        caller: Address,
        now: u64,
        source_token: String,
        target_token: String,
        source_chain: String,
        target_chain: String,
        input_amount: u128,
        expected_output: u128,
        route_steps: u32,
        window: int,
    ) -> Swap {
        Swap {
            id: self.swaps.len() as u32,
            initiator: caller,
            source_token,
            target_token,
            source_chain,
            target_chain,
            input_amount,
            expected_output,
            route_steps,
            current_step: 0,
            status: Status::Initiated,
            timeout: (now + window) as u64,
            pending_request: None,
        }
    }

    /// The state after a creation request.
    pub open spec fn create(
        self,
        caller: Address,
        now: u64,
        source_token: String,
        target_token: String,
        source_chain: String,
        target_chain: String,
        input_amount: u128,
        expected_output: u128,
        route_steps: u32,
        timeout_hours: u32,
    ) -> EngineView {
        if creation_valid(
            source_token@,
            target_token@,
            source_chain@,
            target_chain@,
            input_amount,
            expected_output,
            route_steps,
            timeout_hours,
        ) {
            self.record(
                self.new_swap(
                    caller,
                    now,
                    source_token,
                    target_token,
                    source_chain,
                    target_chain,
                    input_amount,
                    expected_output,
                    route_steps,
                    timeout_hours * HOUR_MS,
                ),
            )
        } else {
            self
        }
    }

    /// Whether `caller` may cancel swap `id`.
    pub open spec fn cancel_allowed(self, caller: Address, id: u32) -> bool {
        &&& self.has_swap(id)
        &&& self.swap(id).initiator == caller
        &&& self.swap(id).status.spec_is_active()
    }

    /// The state after `caller` asked to cancel swap `id`.
    pub open spec fn cancel(self, caller: Address, id: u32) -> EngineView {
        if self.cancel_allowed(caller, id) {
            let swap = self.swap(id);
            EngineView {
                swaps: self.swaps.update(
                    id as int,
                    Swap { status: Status::Refunded, pending_request: None, ..swap },
                ),
                requests: self.release(swap.pending_request),
                events: self.events.push(
                    Event::SwapCancelled(SwapCancelled { swap_id: id, initiator: caller }),
                ),
                ..self
            }
        } else {
            self
        }
    }

    /// Whether swap `id` exists and may still advance.
    pub open spec fn can_advance(self, id: u32) -> bool {
        self.has_swap(id) && self.swap(id).status.spec_is_active()
    }

    /// Whether the deadline of swap `id` has passed at `now`.
    pub open spec fn expired(self, id: u32, now: u64) -> bool {
        now > self.swap(id).timeout
    }

    /// Whether an advance attempt at `now` hands a step of swap `id` to the
    /// transport.
    pub open spec fn will_dispatch(self, id: u32, now: u64) -> bool {
        self.can_advance(id) && !self.expired(id, now)
    }

    /// The state with swap `id` failed and its request, if any, consumed.
    pub open spec fn fail(self, id: u32) -> EngineView {
        let swap = self.swap(id);
        EngineView {
            swaps: self.swaps.update(
                id as int,
                Swap { status: Status::Failed, pending_request: None, ..swap },
            ),
            requests: self.release(swap.pending_request),
            events: self.events.push(completed_event(swap, Status::Failed)),
            ..self
        }
    }

    /// The state with a new request in flight for swap `id`, in place of
    /// the one that was in flight for it, if any.
    pub open spec fn open_request(self, id: u32) -> EngineView {
        let swap = self.swap(id);
        let nonce = (self.nonce + 1) as u64;
        EngineView {
            swaps: self.swaps.update(id as int, Swap { pending_request: Some(nonce), ..swap }),
            requests: self.release(swap.pending_request).insert(nonce, id),
            nonce,
            ..self
        }
    }

    /// The request that is built at `now` for the current step of swap
    /// `id`, converting into `target_token` and addressed to module `to`.
    pub open spec fn step_request(self, id: u32, now: u64, target_token: Seq<u8>, to: Seq<u8>)
        -> RequestView {
        let swap = self.swap(id);
        RequestView {
            source: request_source(),
            dest: request_dest(),
            nonce: (self.nonce + 1) as u64,
            from: sender_module(),
            to,
            timeout_timestamp: (now + REQUEST_TIMEOUT_MS) as u64,
            body: multi_hop_swap_data(
                id,
                swap.current_step,
                encode_utf8(swap.source_token@),
                target_token,
                swap.input_amount,
            ),
        }
    }

    /// The request that an advance attempt builds at `now` for swap `id`.
    pub open spec fn next_request(self, id: u32, now: u64) -> RequestView {
        self.step_request(id, now, encode_utf8(self.swap(id).target_token@), dex_module())
    }

    /// Whether swap `id` waits for the transport's word on a request.
    pub open spec fn awaits_outcome(self, id: u32) -> bool {
        self.can_advance(id) && self.swap(id).pending_request is Some
    }

    /// The state after the transport accepted or refused the request that
    /// is in flight for swap `id`.
    pub open spec fn settle(self, id: u32, accepted: bool) -> EngineView {
        let swap = self.swap(id);
        if accepted {
            EngineView {
                swaps: self.swaps.update(id as int, Swap { status: Status::InProgress, ..swap }),
                events: self.events.push(step_event(swap, true)),
                ..self
            }
        } else {
            self.emit(step_event(swap, false)).fail(id)
        }
    }

    /// The state after the first half of an advance attempt at `now`: the
    /// checks, and the request put in flight where they pass.
    pub open spec fn prepare(self, id: u32, now: u64) -> EngineView {
        if !self.can_advance(id) {
            self
        } else if self.expired(id, now) {
            self.fail(id)
        } else {
            self.open_request(id)
        }
    }

    /// The state after the second half of an advance attempt.
    pub open spec fn complete(self, id: u32, accepted: bool) -> EngineView {
        if self.awaits_outcome(id) {
            self.settle(id, accepted)
        } else {
            self
        }
    }

    /// The state after an advance attempt at `now` on swap `id`, where
    /// `accepted` is the transport's word on the request, if one was made.
    pub open spec fn step(self, id: u32, now: u64, accepted: bool) -> EngineView {
        if self.will_dispatch(id, now) {
            self.open_request(id).settle(id, accepted)
        } else {
            self.prepare(id, now)
        }
    }

    /// The state after the response to request `nonce` was delivered;
    /// `success` says whether its payload was non-empty.
    pub open spec fn respond(self, nonce: u64, success: bool) -> EngineView {
        if !self.requests.contains_key(nonce) {
            self
        } else {
            let id = self.requests[nonce];
            let swap = self.swap(id);
            let requests = self.requests.remove(nonce);
            if !success {
                EngineView {
                    swaps: self.swaps.update(
                        id as int,
                        Swap { status: Status::Failed, pending_request: None, ..swap },
                    ),
                    requests,
                    events: self.events.push(completed_event(swap, Status::Failed)),
                    ..self
                }
            } else if swap.current_step + 1 == swap.route_steps {
                EngineView {
                    swaps: self.swaps.update(
                        id as int,
                        Swap {
                            current_step: swap.route_steps,
                            status: Status::Completed,
                            pending_request: None,
                            ..swap
                        },
                    ),
                    requests,
                    events: self.events.push(completed_event(swap, Status::Completed)),
                    ..self
                }
            } else {
                EngineView {
                    swaps: self.swaps.update(
                        id as int,
                        Swap {
                            current_step: (swap.current_step + 1) as u32,
                            status: Status::InProgress,
                            pending_request: None,
                            ..swap
                        },
                    ),
                    requests,
                    events: self.events.push(step_event(swap, true)),
                    ..self
                }
            }
        }
    }

    /// The state after `caller` asked to be registered as a merchant.
    pub open spec fn register(
        self,
        caller: Address,
        preferred_stablecoin: String,
        settlement_chain: String,
    ) -> EngineView {
        if register_outcome(preferred_stablecoin@, settlement_chain@) is Ok {
            EngineView {
                merchants: self.merchants.insert(
                    caller,
                    MerchantPrefs { preferred_stablecoin, settlement_chain },
                ),
                events: self.events.push(
                    Event::MerchantRegistered(
                        MerchantRegistered {
                            merchant_id: caller,
                            preferred_stablecoin,
                            settlement_chain,
                        },
                    ),
                ),
                ..self
            }
        } else {
            self
        }
    }

    /// Whether a payment in `customer_token` on `customer_chain` to
    /// `merchant` needs no conversion.
    pub open spec fn pays_directly(
        self,
        merchant: Address,
        customer_token: Seq<char>,
        customer_chain: Seq<char>,
    ) -> bool {
        &&& customer_token == self.merchants[merchant].preferred_stablecoin@
        &&& customer_chain == self.merchants[merchant].settlement_chain@
    }

    /// What the merchant of a payment is to receive.
    pub open spec fn payment_quote(self, merchant: Address, customer_token: Seq<char>, amount: u128)
        -> nat {
        quote(customer_token, self.merchants[merchant].preferred_stablecoin@, amount as nat)
    }

    /// How a payment request is answered.
    pub open spec fn pay_outcome(
        self,
        merchant: Address,
        customer_token: Seq<char>,
        customer_chain: Seq<char>,
        amount: u128,
    ) -> Result<u32, SwapError> {
        if !self.merchants.contains_key(merchant) {
            Err(SwapError::MerchantNotFound)
        } else if !supported_token(customer_token) {
            Err(SwapError::UnsupportedCustomerToken)
        } else if !supported_chain(customer_chain) {
            Err(SwapError::UnsupportedCustomerChain)
        } else if self.pays_directly(merchant, customer_token, customer_chain) {
            Ok(self.payments.len() as u32)
        } else if amount == 0 || self.payment_quote(merchant, customer_token, amount) == 0 {
            Err(SwapError::UnsupportedRoute)
        } else {
            Ok(self.payments.len() as u32)
        }
    }

    /// The notification that a payment started.
    pub open spec fn payment_event(
        self,
        caller: Address,
        now: u64,
        merchant: Address,
        customer_token: String,
        customer_chain: String,
        amount: u128,
    ) -> Event {
        Event::PaymentInitiated(
            PaymentInitiated {
                payment_id: self.payments.len() as u32,
                customer: caller,
                merchant,
                customer_token,
                customer_chain,
                merchant_stablecoin: self.merchants[merchant].preferred_stablecoin,
                input_amount: amount,
                expected_output: self.payment_quote(merchant, customer_token@, amount) as u128,
                timeout: (now + HOUR_MS) as u64,
            },
        )
    }

    /// The swap that converts a payment.
    pub open spec fn payment_swap(
        self,
        caller: Address,
        now: u64,
        merchant: Address,
        customer_token: String,
        customer_chain: String,
        amount: u128,
    ) -> Swap {
        let prefs = self.merchants[merchant];
        self.new_swap(
            caller,
            now,
            customer_token,
            prefs.preferred_stablecoin,
            customer_chain,
            prefs.settlement_chain,
            amount,
            self.payment_quote(merchant, customer_token@, amount) as u128,
            if customer_chain@ == prefs.settlement_chain@ {
                1
            } else {
                2
            },
            HOUR_MS as int,
        )
    }

    /// The state after `caller` asked to pay `merchant`.
    pub open spec fn pay(
        self,
        caller: Address,
        now: u64,
        merchant: Address,
        customer_token: String,
        customer_chain: String,
        amount: u128,
    ) -> EngineView {
        if self.pay_outcome(merchant, customer_token@, customer_chain@, amount) is Err {
            self
        } else {
            let started = self.payment_event(
                caller,
                now,
                merchant,
                customer_token,
                customer_chain,
                amount,
            );
            if self.pays_directly(merchant, customer_token@, customer_chain@) {
                EngineView {
                    payments: self.payments.push(
                        Payment { customer: caller, merchant, swap_id: None },
                    ),
                    events: self.events.push(started),
                    ..self
                }
            } else {
                let swap = self.payment_swap(
                    caller,
                    now,
                    merchant,
                    customer_token,
                    customer_chain,
                    amount,
                );
                EngineView {
                    payments: self.payments.push(
                        Payment { customer: caller, merchant, swap_id: Some(swap.id) },
                    ),
                    ..self.emit(started).record(swap)
                }
            }
        }
    }

    /// Whether a payment request passes the checks on the merchant and on
    /// the customer's asset and chain.
    pub open spec fn payment_admitted(
        self,
        merchant: Address,
        customer_token: Seq<char>,
        customer_chain: Seq<char>,
    ) -> bool {
        &&& self.merchants.contains_key(merchant)
        &&& supported_token(customer_token)
        &&& supported_chain(customer_chain)
    }

    /// The state after a request for a swap through an intermediate asset,
    /// where `accepted` is the transport's word on its first step.
    pub open spec fn multi_hop(
        self,
        caller: Address,
        now: u64,
        source_token: String,
        target_token: String,
        intermediate_token: String,
        source_chain: String,
        intermediate_chain: String,
        target_chain: String,
        input_amount: u128,
        expected_output: u128,
        accepted: bool,
    ) -> EngineView {
        if multi_hop_outcome(
            source_token@,
            target_token@,
            intermediate_token@,
            source_chain@,
            intermediate_chain@,
            target_chain@,
            input_amount,
            expected_output,
        ) is Ok {
            let swap = self.new_swap(
                caller,
                now,
                source_token,
                target_token,
                source_chain,
                target_chain,
                input_amount,
                expected_output,
                2,
                HOUR_MS as int,
            );
            self.record(swap).open_request(swap.id).settle(swap.id, accepted)
        } else {
            self
        }
    }

    /// The request for the first step of a swap through an intermediate
    /// asset: from the source asset into the intermediate one, addressed to
    /// the aggregator.
    pub open spec fn first_hop_request(
        self,
        caller: Address,
        now: u64,
        source_token: String,
        target_token: String,
        intermediate_token: String,
        source_chain: String,
        target_chain: String,
        input_amount: u128,
        expected_output: u128,
    ) -> RequestView {
        let swap = self.new_swap(
            caller,
            now,
            source_token,
            target_token,
            source_chain,
            target_chain,
            input_amount,
            expected_output,
            2,
            HOUR_MS as int,
        );
        self.record(swap).step_request(
            swap.id,
            now,
            encode_utf8(intermediate_token@),
            dex_aggregator(),
        )
    }

    /// The status code that a query for swap `id` is answered with.
    pub open spec fn queried_status(self, id: u32) -> u8 {
        if self.has_swap(id) {
            self.swap(id).status.spec_code()
        } else {
            0
        }
    }

    /// The reply to an inbound request with the given body.
    ///
    /// A request to execute a step is answered with the byte 1 where its
    /// body parses. A status query names the swap by the four bytes that
    /// follow the action byte, the low byte first, and is answered with the
    /// status code of that swap, or with 0 where there is none.
    pub open spec fn reply(self, body: Seq<u8>) -> Result<Seq<u8>, SwapError> {
        match parse_action(body) {
            Err(_) => Err(SwapError::UnknownRequestAction),
            Ok(RequestAction::ExecuteSwap) => if parse_swap_params(body) is Ok {
                Ok(seq![1u8])
            } else {
                Err(SwapError::InvalidSwapParams)
            },
            Ok(RequestAction::QuerySwapStatus) => if body.len() < STATUS_QUERY_LEN {
                Err(SwapError::InvalidStatusQuery)
            } else {
                Ok(
                    seq![
                        self.queried_status(
                            spec_u32_from_le_bytes(body.subrange(1, STATUS_QUERY_LEN as int)),
                        ),
                    ],
                )
            },
        }
    }

    /// The state with the notifications taken.
    pub open spec fn drained(self) -> EngineView {
        EngineView { events: Seq::empty(), ..self }
    }
}

} // verus!
