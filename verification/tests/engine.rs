use nexor::account::Address;
use nexor::cross_chain_swap::engine::CrossChainSwap;
use nexor::cross_chain_swap::events::{
    Event, MerchantRegistered, PaymentInitiated, SwapCancelled, SwapCompleted, SwapInitiated,
    SwapStepExecuted,
};
use nexor::cross_chain_swap::records::SwapError;
use nexor::cross_chain_swap::transport::{
    IsmpDispatcher, IsmpRequest, IsmpResponse, MockIsmpDispatcher, StateMachine,
};
use std::cell::RefCell;

const HOUR: u64 = 3_600_000;

fn alice() -> Address {
    Address::new([1u8; 20])
}

fn bob() -> Address {
    Address::new([2u8; 20])
}

fn s(text: &str) -> String {
    text.to_string()
}

/// A transport that refuses every request.
struct Refusing;

impl IsmpDispatcher for Refusing {
    fn dispatch_request(&self, _request: IsmpRequest) -> Result<(), String> {
        Err(s("refused"))
    }

    fn dispatch_response(&self, _response: IsmpResponse) -> Result<(), String> {
        Err(s("refused"))
    }
}

/// A transport that accepts every request and keeps it.
struct Recording {
    seen: RefCell<Vec<IsmpRequest>>,
}

impl Recording {
    fn new() -> Self {
        Recording { seen: RefCell::new(Vec::new()) }
    }
}

impl IsmpDispatcher for Recording {
    fn dispatch_request(&self, request: IsmpRequest) -> Result<(), String> {
        self.seen.borrow_mut().push(request);
        Ok(())
    }

    fn dispatch_response(&self, _response: IsmpResponse) -> Result<(), String> {
        Ok(())
    }
}

fn response(nonce: u64, payload: Vec<u8>) -> IsmpResponse {
    IsmpResponse {
        post: IsmpRequest {
            source: StateMachine::Polkadot(1000),
            dest: StateMachine::Polkadot(2000),
            nonce,
            from: b"cross_chain_swap".to_vec(),
            to: b"dex_module".to_vec(),
            timeout_timestamp: 0,
            body: Vec::new(),
        },
        response: payload,
        timeout_timestamp: 0,
    }
}

fn two_step_swap(engine: &mut CrossChainSwap, now: u64) -> u32 {
    engine
        .initiate_multi_hop_swap(
            alice(),
            now,
            s("USDT"),
            s("USDC"),
            s("AssetHub"),
            s("Hydration"),
            1000,
            997,
            2,
            1,
        )
        .unwrap()
}

#[test]
fn new_engine_is_empty() {
    let mut engine = CrossChainSwap::new();
    assert_eq!(engine.get_swap_count(), 0);
    assert_eq!(engine.get_payment_count(), 0);
    assert_eq!(engine.last_nonce(), 0);
    assert_eq!(engine.get_swap_status(0), None);
    assert_eq!(engine.get_swap_progress(0), None);
    assert_eq!(engine.get_swap_route(0), None);
    assert_eq!(engine.get_payment_status(0), None);
    assert!(!engine.is_swap_timed_out(u64::MAX, 0));
    assert!(engine.take_events().is_empty());
    let same = CrossChainSwap::default();
    assert_eq!(same.get_swap_count(), 0);
}

#[test]
fn create_yields_initiated_swap() {
    let mut engine = CrossChainSwap::new();
    let id = engine.initiate_multi_hop_swap(
        alice(),
        5_000,
        s("USDT"),
        s("USDC"),
        s("AssetHub"),
        s("Hydration"),
        1000,
        997,
        2,
        1,
    );
    assert_eq!(id, Some(0));
    assert_eq!(engine.get_swap_count(), 1);
    assert_eq!(engine.get_swap_status(0), Some(0));
    assert_eq!(engine.get_swap_progress(0), Some((0, 2, 0)));
    assert_eq!(
        engine.get_swap_route(0),
        Some((s("USDT"), s("USDC"), s("AssetHub"), s("Hydration"), 1000, 997, 2))
    );
    assert_eq!(
        engine.take_events(),
        vec![Event::SwapInitiated(SwapInitiated {
            swap_id: 0,
            initiator: alice(),
            source_token: s("USDT"),
            target_token: s("USDC"),
            source_chain: s("AssetHub"),
            target_chain: s("Hydration"),
            input_amount: 1000,
            expected_output: 997,
            route_steps: 2,
            timeout: 5_000 + HOUR,
        })]
    );
    let second = two_step_swap(&mut engine, 6_000);
    assert_eq!(second, 1);
}

fn create_with(
    engine: &mut CrossChainSwap,
    source_token: &str,
    target_token: &str,
    source_chain: &str,
    target_chain: &str,
    input_amount: u128,
    expected_output: u128,
    route_steps: u32,
    timeout_hours: u32,
) -> Option<u32> {
    engine.initiate_multi_hop_swap(
        alice(),
        0,
        s(source_token),
        s(target_token),
        s(source_chain),
        s(target_chain),
        input_amount,
        expected_output,
        route_steps,
        timeout_hours,
    )
}

#[test]
fn create_rejects_invalid_requests_without_writing() {
    let mut e = CrossChainSwap::new();
    assert_eq!(create_with(&mut e, "", "USDC", "AssetHub", "Hydration", 1, 1, 1, 1), None);
    assert_eq!(create_with(&mut e, "USDT", "", "AssetHub", "Hydration", 1, 1, 1, 1), None);
    assert_eq!(create_with(&mut e, "USDT", "USDC", "", "Hydration", 1, 1, 1, 1), None);
    assert_eq!(create_with(&mut e, "USDT", "USDC", "AssetHub", "", 1, 1, 1, 1), None);
    assert_eq!(create_with(&mut e, "USDT", "USDC", "AssetHub", "Hydration", 0, 1, 1, 1), None);
    assert_eq!(create_with(&mut e, "USDT", "USDC", "AssetHub", "Hydration", 1, 0, 1, 1), None);
    assert_eq!(create_with(&mut e, "USDT", "USDC", "AssetHub", "Hydration", 1, 1, 0, 1), None);
    assert_eq!(create_with(&mut e, "USDT", "USDC", "AssetHub", "Hydration", 1, 1, 11, 1), None);
    assert_eq!(create_with(&mut e, "USDT", "USDC", "AssetHub", "Hydration", 1, 1, 1, 0), None);
    assert_eq!(create_with(&mut e, "USDT", "USDC", "AssetHub", "Hydration", 1, 1, 1, 169), None);
    assert_eq!(e.get_swap_count(), 0);
    assert!(e.take_events().is_empty());
}

#[test]
fn create_rejects_names_that_are_on_no_list() {
    let mut engine = CrossChainSwap::new();
    let r = engine.initiate_multi_hop_swap(
        alice(),
        0,
        s("ETH"),
        s("USDC"),
        s("AssetHub"),
        s("Hydration"),
        1000,
        997,
        2,
        1,
    );
    assert_eq!(r, None);
    assert_eq!(engine.get_swap_count(), 0);
    assert_eq!(engine.get_swap_status(0), None);

    let mut e = CrossChainSwap::new();
    assert_eq!(create_with(&mut e, "USDT", "ETH", "AssetHub", "Hydration", 1, 1, 1, 1), None);
    assert_eq!(create_with(&mut e, "usdt", "USDC", "AssetHub", "Hydration", 1, 1, 1, 1), None);
    assert_eq!(create_with(&mut e, "USDT", "USDC", "Kusama", "Hydration", 1, 1, 1, 1), None);
    assert_eq!(create_with(&mut e, "USDT", "USDC", "AssetHub", "Ethereum", 1, 1, 1, 1), None);
    assert_eq!(create_with(&mut e, "AssetHub", "USDC", "USDT", "Hydration", 1, 1, 1, 1), None);
    assert_eq!(create_with(&mut e, "a", "b", "c", "d", 1, 1, 1, 1), None);
    assert_eq!(e.get_swap_count(), 0);
    assert_eq!(e.get_swap_progress(0), None);
    assert_eq!(e.get_swap_route(0), None);
    assert!(e.take_events().is_empty());
    for token in ["USDT", "DOT", "USDC", "KSM", "ASTR", "BNC", "HDX"] {
        for chain in ["AssetHub", "Acala", "Hydration", "Moonbeam", "Astar", "Bifrost"] {
            let id = e.get_swap_count();
            assert_eq!(create_with(&mut e, token, "USDC", chain, "Hydration", 1, 1, 1, 1), Some(id));
            assert_eq!(create_with(&mut e, "USDT", token, "AssetHub", chain, 1, 1, 1, 1), Some(id + 1));
        }
    }
    assert_eq!(e.get_swap_count(), 84);
}

#[test]
fn creation_check_agrees_with_creation() {
    let ok = |names: [&str; 4], amounts: [u128; 2], steps: u32, hours: u32| {
        CrossChainSwap::creation_is_valid(
            names[0], names[1], names[2], names[3], amounts[0], amounts[1], steps, hours,
        )
    };
    let names = ["USDT", "USDC", "AssetHub", "Hydration"];
    assert!(ok(names, [1, 1], 1, 1));
    assert!(ok(names, [u128::MAX, u128::MAX], 10, 168));
    assert!(!ok(["ETH", "USDC", "AssetHub", "Hydration"], [1, 1], 1, 1));
    assert!(!ok(["USDT", "", "AssetHub", "Hydration"], [1, 1], 1, 1));
    assert!(!ok(["USDT", "USDC", "Kusama", "Hydration"], [1, 1], 1, 1));
    assert!(!ok(["USDT", "USDC", "AssetHub", "Mars"], [1, 1], 1, 1));
    assert!(!ok(names, [0, 1], 1, 1));
    assert!(!ok(names, [1, 0], 1, 1));
    assert!(!ok(names, [1, 1], 0, 1));
    assert!(!ok(names, [1, 1], 11, 1));
    assert!(!ok(names, [1, 1], 1, 0));
    assert!(!ok(names, [1, 1], 1, 169));
}

#[test]
fn refused_creation_needs_no_room() {
    let mut engine = CrossChainSwap::new();
    let r = engine.initiate_multi_hop_swap(
        alice(),
        u64::MAX,
        s(""),
        s("USDC"),
        s("AssetHub"),
        s("Hydration"),
        1000,
        997,
        2,
        1,
    );
    assert_eq!(r, None);
    let r = engine.initiate_multi_hop_swap(
        alice(),
        u64::MAX,
        s("USDT"),
        s("USDC"),
        s("AssetHub"),
        s("Hydration"),
        1000,
        997,
        2,
        169,
    );
    assert_eq!(r, None);
    assert_eq!(engine.get_swap_count(), 0);
    let r = engine.initiate_multi_hop_swap(
        alice(),
        u64::MAX - 168 * HOUR,
        s("USDT"),
        s("USDC"),
        s("AssetHub"),
        s("Hydration"),
        1000,
        997,
        2,
        168,
    );
    assert_eq!(r, Some(0));
    assert!(!engine.is_swap_timed_out(u64::MAX, 0));
}

#[test]
fn create_accepts_the_limits() {
    let mut e = CrossChainSwap::new();
    assert_eq!(create_with(&mut e, "HDX", "BNC", "Bifrost", "Moonbeam", 1, 1, 1, 1), Some(0));
    assert_eq!(create_with(&mut e, "HDX", "BNC", "Bifrost", "Moonbeam", 1, 1, 10, 168), Some(1));
    assert_eq!(e.get_swap_progress(1), Some((0, 10, 0)));
    assert!(!e.is_swap_timed_out(168 * HOUR, 1));
    assert!(e.is_swap_timed_out(168 * HOUR + 1, 1));
}

#[test]
fn two_step_swap_runs_to_completion() {
    let mut engine = CrossChainSwap::new();
    let transport = Recording::new();
    let id = two_step_swap(&mut engine, 0);
    engine.take_events();

    assert!(engine.execute_next_step(&transport, 10, id));
    assert_eq!(engine.get_swap_progress(id), Some((0, 2, 1)));
    assert_eq!(transport.seen.borrow().len(), 1);
    assert_eq!(transport.seen.borrow()[0].nonce, 1);

    engine.handle_ismp_response(response(1, vec![1]));
    assert_eq!(engine.get_swap_progress(id), Some((1, 2, 1)));

    assert!(engine.execute_next_step(&transport, 20, id));
    assert_eq!(engine.get_swap_progress(id), Some((1, 2, 1)));
    assert_eq!(transport.seen.borrow()[1].nonce, 2);

    engine.handle_ismp_response(response(2, vec![7, 7]));
    assert_eq!(engine.get_swap_progress(id), Some((2, 2, 2)));
    assert_eq!(engine.get_swap_status(id), Some(2));

    assert_eq!(
        engine.take_events(),
        vec![
            Event::SwapStepExecuted(SwapStepExecuted {
                swap_id: 0,
                step: 0,
                total_steps: 2,
                success: true
            }),
            Event::SwapStepExecuted(SwapStepExecuted {
                swap_id: 0,
                step: 0,
                total_steps: 2,
                success: true
            }),
            Event::SwapStepExecuted(SwapStepExecuted {
                swap_id: 0,
                step: 1,
                total_steps: 2,
                success: true
            }),
            Event::SwapCompleted(SwapCompleted { swap_id: 0, initiator: alice(), final_status: 2 }),
        ]
    );
}

#[test]
fn step_request_is_self_describing() {
    let mut engine = CrossChainSwap::new();
    let transport = Recording::new();
    let id = two_step_swap(&mut engine, 0);
    assert!(engine.execute_next_step(&transport, 500, id));
    let seen = transport.seen.borrow();
    let request = &seen[0];
    assert_eq!(request.source, StateMachine::Polkadot(1000));
    assert_eq!(request.dest, StateMachine::Polkadot(2000));
    assert_eq!(request.nonce, 1);
    assert_eq!(request.from, b"cross_chain_swap".to_vec());
    assert_eq!(request.to, b"dex_module".to_vec());
    assert_eq!(request.timeout_timestamp, 500 + HOUR);
    let mut body = vec![1u8];
    body.extend_from_slice(&0u32.to_le_bytes());
    body.extend_from_slice(&0u32.to_le_bytes());
    body.extend_from_slice(b"USDT");
    body.push(0);
    body.extend_from_slice(b"USDC");
    body.push(0);
    body.extend_from_slice(&1000u128.to_le_bytes());
    assert_eq!(request.body, body);
}

#[test]
fn prepare_and_complete_are_the_two_halves_of_a_step() {
    let mut engine = CrossChainSwap::new();
    let id = two_step_swap(&mut engine, 0);
    let request = engine.prepare_step(10, id).unwrap();
    assert_eq!(request.nonce, 1);
    assert_eq!(engine.get_swap_progress(id), Some((0, 2, 0)));
    assert!(engine.complete_step(id, true));
    assert_eq!(engine.get_swap_progress(id), Some((0, 2, 1)));
    assert!(!engine.complete_step(7, true));
    engine.handle_ismp_response(response(1, vec![1]));
    assert!(!engine.complete_step(id, true));
    assert_eq!(engine.get_swap_progress(id), Some((1, 2, 1)));
    assert!(engine.prepare_step(10, 9).is_none());
    let request = engine.prepare_step(10, id).unwrap();
    assert_eq!(request.nonce, 2);
    assert!(!engine.complete_step(id, false));
    assert_eq!(engine.get_swap_status(id), Some(3));
    assert!(engine.prepare_step(10, id).is_none());
}

#[test]
fn response_without_pending_request_changes_nothing() {
    let mut engine = CrossChainSwap::new();
    let id = two_step_swap(&mut engine, 0);
    assert!(engine.execute_next_step(&MockIsmpDispatcher, 10, id));
    engine.take_events();
    engine.handle_ismp_response(response(5, vec![1]));
    engine.handle_ismp_response(response(0, Vec::new()));
    assert_eq!(engine.get_swap_progress(id), Some((0, 2, 1)));
    assert!(engine.take_events().is_empty());
    engine.handle_ismp_response(response(1, vec![1]));
    assert_eq!(engine.get_swap_progress(id), Some((1, 2, 1)));
    engine.handle_ismp_response(response(1, vec![1]));
    assert_eq!(engine.get_swap_progress(id), Some((1, 2, 1)));
}

#[test]
fn empty_response_fails_the_swap() {
    let mut engine = CrossChainSwap::new();
    let id = two_step_swap(&mut engine, 0);
    assert!(engine.execute_next_step(&MockIsmpDispatcher, 10, id));
    engine.take_events();
    engine.handle_ismp_response(response(1, Vec::new()));
    assert_eq!(engine.get_swap_progress(id), Some((0, 2, 3)));
    assert_eq!(
        engine.take_events(),
        vec![Event::SwapCompleted(SwapCompleted {
            swap_id: 0,
            initiator: alice(),
            final_status: 3
        })]
    );
    assert!(!engine.execute_next_step(&MockIsmpDispatcher, 11, id));
    assert_eq!(engine.get_swap_status(id), Some(3));
}

#[test]
fn newer_request_supersedes_the_older_one() {
    let mut engine = CrossChainSwap::new();
    let id = two_step_swap(&mut engine, 0);
    assert!(engine.execute_next_step(&MockIsmpDispatcher, 10, id));
    assert_eq!(engine.last_nonce(), 1);
    assert!(engine.execute_next_step(&MockIsmpDispatcher, 11, id));
    assert_eq!(engine.last_nonce(), 2);
    engine.handle_ismp_response(response(1, vec![1]));
    assert_eq!(engine.get_swap_progress(id), Some((0, 2, 1)));
    engine.handle_ismp_response(response(2, vec![1]));
    assert_eq!(engine.get_swap_progress(id), Some((1, 2, 1)));
}

#[test]
fn terminal_swap_does_not_advance() {
    let mut engine = CrossChainSwap::new();
    let transport = Recording::new();
    let completed = engine
        .initiate_multi_hop_swap(alice(), 0, s("DOT"), s("USDT"), s("Acala"), s("Acala"), 5, 5, 1, 1)
        .unwrap();
    assert!(engine.execute_next_step(&transport, 1, completed));
    engine.handle_ismp_response(response(1, vec![1]));
    assert_eq!(engine.get_swap_status(completed), Some(2));

    let failed = two_step_swap(&mut engine, 0);
    assert!(!engine.execute_next_step(&Refusing, 1, failed));
    assert_eq!(engine.get_swap_status(failed), Some(3));

    let refunded = two_step_swap(&mut engine, 0);
    assert!(engine.cancel_swap(alice(), refunded));
    assert_eq!(engine.get_swap_status(refunded), Some(4));

    engine.take_events();
    let sent = transport.seen.borrow().len();
    for (id, code) in [(completed, 2u8), (failed, 3u8), (refunded, 4u8)] {
        assert!(!engine.execute_next_step(&transport, 2, id));
        assert!(!engine.execute_next_step(&transport, 1000 * HOUR, id));
        assert_eq!(engine.get_swap_status(id), Some(code));
    }
    assert!(!engine.execute_next_step(&transport, 2, 99));
    assert_eq!(transport.seen.borrow().len(), sent);
    assert!(engine.take_events().is_empty());
}

#[test]
fn refused_dispatch_fails_the_swap() {
    let mut engine = CrossChainSwap::new();
    let id = two_step_swap(&mut engine, 0);
    engine.take_events();
    assert!(!engine.execute_next_step(&Refusing, 1, id));
    assert_eq!(engine.get_swap_progress(id), Some((0, 2, 3)));
    assert_eq!(
        engine.take_events(),
        vec![
            Event::SwapStepExecuted(SwapStepExecuted {
                swap_id: 0,
                step: 0,
                total_steps: 2,
                success: false
            }),
            Event::SwapCompleted(SwapCompleted { swap_id: 0, initiator: alice(), final_status: 3 }),
        ]
    );
    engine.handle_ismp_response(response(1, vec![1]));
    assert_eq!(engine.get_swap_progress(id), Some((0, 2, 3)));
}

#[test]
fn cancel_is_for_the_initiator_of_an_active_swap() {
    let mut engine = CrossChainSwap::new();
    let id = two_step_swap(&mut engine, 0);
    assert!(!engine.cancel_swap(bob(), id));
    assert!(!engine.cancel_swap(alice(), 3));
    assert_eq!(engine.get_swap_status(id), Some(0));
    engine.take_events();
    assert!(engine.cancel_swap(alice(), id));
    assert_eq!(engine.get_swap_status(id), Some(4));
    assert_eq!(
        engine.take_events(),
        vec![Event::SwapCancelled(SwapCancelled { swap_id: 0, initiator: alice() })]
    );
    assert!(!engine.cancel_swap(alice(), id));

    let running = two_step_swap(&mut engine, 0);
    assert!(engine.execute_next_step(&MockIsmpDispatcher, 1, running));
    assert!(!engine.cancel_swap(bob(), running));
    assert!(engine.cancel_swap(alice(), running));
    assert_eq!(engine.get_swap_progress(running), Some((0, 2, 4)));
    engine.handle_ismp_response(response(1, vec![1]));
    assert_eq!(engine.get_swap_progress(running), Some((0, 2, 4)));

    let done = engine
        .initiate_multi_hop_swap(alice(), 0, s("DOT"), s("USDT"), s("Acala"), s("Acala"), 5, 5, 1, 1)
        .unwrap();
    assert!(engine.execute_next_step(&MockIsmpDispatcher, 1, done));
    engine.handle_ismp_response(response(2, vec![1]));
    assert_eq!(engine.get_swap_status(done), Some(2));
    assert!(!engine.cancel_swap(alice(), done));
    assert_eq!(engine.get_swap_status(done), Some(2));
}

#[test]
fn deadline_breach_fails_the_swap() {
    let mut engine = CrossChainSwap::new();
    let transport = Recording::new();
    let fresh = two_step_swap(&mut engine, 100);
    assert!(!engine.is_swap_timed_out(100 + HOUR, fresh));
    assert!(engine.is_swap_timed_out(100 + HOUR + 1, fresh));
    engine.take_events();
    assert!(!engine.execute_next_step(&transport, 100 + HOUR + 1, fresh));
    assert_eq!(engine.get_swap_progress(fresh), Some((0, 2, 3)));
    assert_eq!(
        engine.take_events(),
        vec![Event::SwapCompleted(SwapCompleted {
            swap_id: 0,
            initiator: alice(),
            final_status: 3
        })]
    );

    let running = two_step_swap(&mut engine, 100);
    assert!(engine.execute_next_step(&transport, 100 + HOUR, running));
    assert_eq!(engine.get_swap_status(running), Some(1));
    assert!(!engine.execute_next_step(&transport, 100 + HOUR + 1, running));
    assert_eq!(engine.get_swap_status(running), Some(3));
    assert_eq!(transport.seen.borrow().len(), 1);
    engine.handle_ismp_response(response(1, vec![1]));
    assert_eq!(engine.get_swap_progress(running), Some((0, 2, 3)));
}

#[test]
fn merchant_registration_checks_asset_and_chain() {
    let mut engine = CrossChainSwap::new();
    assert_eq!(
        engine.register_merchant(bob(), s("EUR"), s("AssetHub")),
        Err(SwapError::UnsupportedStablecoin)
    );
    assert_eq!(
        engine.register_merchant(bob(), s("USDC"), s("Kusama")),
        Err(SwapError::UnsupportedSettlementChain)
    );
    assert!(!engine.is_registered_merchant(bob()));
    assert_eq!(engine.get_merchant_preferences(bob()), None);
    assert!(engine.take_events().is_empty());

    assert_eq!(engine.register_merchant(bob(), s("USDC"), s("Hydration")), Ok(()));
    assert!(engine.is_registered_merchant(bob()));
    assert!(!engine.is_registered_merchant(alice()));
    assert_eq!(engine.get_merchant_preferences(bob()), Some((s("USDC"), s("Hydration"))));
    assert_eq!(
        engine.take_events(),
        vec![Event::MerchantRegistered(MerchantRegistered {
            merchant_id: bob(),
            preferred_stablecoin: s("USDC"),
            settlement_chain: s("Hydration"),
        })]
    );
    assert_eq!(engine.register_merchant(bob(), s("USDT"), s("AssetHub")), Ok(()));
    assert_eq!(engine.get_merchant_preferences(bob()), Some((s("USDT"), s("AssetHub"))));
}

#[test]
fn payment_to_unregistered_merchant_is_refused() {
    let mut engine = CrossChainSwap::new();
    assert_eq!(
        engine.process_payment(alice(), 0, bob(), s("DOT"), s("Acala"), 1_000_000),
        Err(SwapError::MerchantNotFound)
    );
    assert_eq!(engine.get_payment_count(), 0);
    assert_eq!(engine.get_swap_count(), 0);
    assert_eq!(engine.get_payment_status(0), None);
    assert!(engine.take_events().is_empty());
}

#[test]
fn payment_checks_customer_asset_and_chain() {
    let mut engine = CrossChainSwap::new();
    engine.register_merchant(bob(), s("USDC"), s("Hydration")).unwrap();
    engine.take_events();
    assert_eq!(
        engine.process_payment(alice(), 0, bob(), s("BTC"), s("Acala"), 10),
        Err(SwapError::UnsupportedCustomerToken)
    );
    assert_eq!(
        engine.process_payment(alice(), 0, bob(), s("DOT"), s("Mars"), 10),
        Err(SwapError::UnsupportedCustomerChain)
    );
    assert_eq!(
        engine.process_payment(alice(), 0, bob(), s("DOT"), s("Acala"), 0),
        Err(SwapError::UnsupportedRoute)
    );
    assert_eq!(
        engine.process_payment(alice(), 0, bob(), s("ASTR"), s("Astar"), 1),
        Ok(0)
    );
    assert_eq!(engine.get_swap_route(0).unwrap().5, 1);
    let mut engine = CrossChainSwap::new();
    engine.register_merchant(bob(), s("USDT"), s("AssetHub")).unwrap();
    assert_eq!(
        engine.process_payment(alice(), 0, bob(), s("ASTR"), s("Astar"), 1),
        Err(SwapError::UnsupportedRoute)
    );
    assert_eq!(engine.get_payment_count(), 0);
    assert_eq!(engine.get_swap_count(), 0);
}

#[test]
fn direct_payment_needs_no_swap() {
    let mut engine = CrossChainSwap::new();
    engine.register_merchant(bob(), s("USDC"), s("Hydration")).unwrap();
    engine.take_events();
    assert_eq!(
        engine.process_payment(alice(), 7, bob(), s("USDC"), s("Hydration"), 1000),
        Ok(0)
    );
    assert_eq!(engine.get_payment_count(), 1);
    assert_eq!(engine.get_swap_count(), 0);
    assert_eq!(engine.get_payment_status(0), Some((alice(), bob(), None)));
    assert_eq!(
        engine.take_events(),
        vec![Event::PaymentInitiated(PaymentInitiated {
            payment_id: 0,
            customer: alice(),
            merchant: bob(),
            customer_token: s("USDC"),
            customer_chain: s("Hydration"),
            merchant_stablecoin: s("USDC"),
            input_amount: 1000,
            expected_output: 997,
            timeout: 7 + HOUR,
        })]
    );
}

#[test]
fn converting_payment_records_a_linked_swap() {
    let mut engine = CrossChainSwap::new();
    engine.register_merchant(bob(), s("USDT"), s("AssetHub")).unwrap();
    engine.take_events();
    assert_eq!(
        engine.process_payment(alice(), 50, bob(), s("DOT"), s("Acala"), 1_000_000_000),
        Ok(0)
    );
    assert_eq!(engine.get_payment_status(0), Some((alice(), bob(), Some(0))));
    assert_eq!(engine.get_swap_progress(0), Some((0, 2, 0)));
    assert_eq!(
        engine.get_swap_route(0),
        Some((s("DOT"), s("USDT"), s("Acala"), s("AssetHub"), 1_000_000_000, 4_985_000_000, 2))
    );
    assert!(!engine.is_swap_timed_out(50 + HOUR, 0));
    assert!(engine.is_swap_timed_out(51 + HOUR, 0));
    let events = engine.take_events();
    assert_eq!(events.len(), 2);
    assert!(matches!(&events[0], Event::PaymentInitiated(p) if p.expected_output == 4_985_000_000));
    assert!(matches!(&events[1], Event::SwapInitiated(i) if i.swap_id == 0 && i.initiator == alice()));

    assert_eq!(
        engine.process_payment(alice(), 50, bob(), s("DOT"), s("AssetHub"), 1_000_000),
        Ok(1)
    );
    assert_eq!(engine.get_payment_status(1), Some((alice(), bob(), Some(1))));
    assert_eq!(engine.get_swap_progress(1), Some((0, 1, 0)));
    assert!(engine.cancel_swap(alice(), 1));
    assert!(!engine.cancel_swap(bob(), 0));
}

fn multi_hop(
    engine: &mut CrossChainSwap,
    transport: &impl IsmpDispatcher,
    tokens: [&str; 3],
    chains: [&str; 3],
    input_amount: u128,
    expected_output: u128,
) -> Result<u32, SwapError> {
    engine.execute_multi_hop_ismp_swap(
        transport,
        alice(),
        1_000,
        s(tokens[0]),
        s(tokens[2]),
        s(tokens[1]),
        s(chains[0]),
        s(chains[1]),
        s(chains[2]),
        input_amount,
        expected_output,
    )
}

#[test]
fn multi_hop_swap_dispatches_its_first_step() {
    let mut engine = CrossChainSwap::new();
    let transport = Recording::new();
    let tokens = ["USDT", "DOT", "USDC"];
    let chains = ["AssetHub", "Acala", "Hydration"];
    assert_eq!(multi_hop(&mut engine, &transport, tokens, chains, 1000, 990), Ok(0));
    assert_eq!(engine.get_swap_progress(0), Some((0, 2, 1)));
    assert_eq!(
        engine.get_swap_route(0),
        Some((s("USDT"), s("USDC"), s("AssetHub"), s("Hydration"), 1000, 990, 2))
    );
    {
        let seen = transport.seen.borrow();
        assert_eq!(seen.len(), 1);
        assert_eq!(seen[0].nonce, 1);
        assert_eq!(seen[0].to, b"dex_aggregator".to_vec());
        assert_eq!(seen[0].timeout_timestamp, 1_000 + HOUR);
        let mut body = vec![1u8];
        body.extend_from_slice(&0u32.to_le_bytes());
        body.extend_from_slice(&0u32.to_le_bytes());
        body.extend_from_slice(b"USDT");
        body.push(0);
        body.extend_from_slice(b"DOT");
        body.push(0);
        body.extend_from_slice(&1000u128.to_le_bytes());
        assert_eq!(seen[0].body, body);
    }
    engine.handle_ismp_response(response(1, vec![1]));
    assert!(engine.execute_next_step(&transport, 2_000, 0));
    engine.handle_ismp_response(response(2, vec![1]));
    assert_eq!(engine.get_swap_progress(0), Some((2, 2, 2)));
}

#[test]
fn multi_hop_swap_checks_its_route() {
    let mut engine = CrossChainSwap::new();
    let transport = Recording::new();
    let chains = ["AssetHub", "Acala", "Hydration"];
    assert_eq!(
        multi_hop(&mut engine, &transport, ["USDT", "DOGE", "USDC"], chains, 1, 1),
        Err(SwapError::UnsupportedTokenInRoute)
    );
    assert_eq!(
        multi_hop(&mut engine, &transport, ["USDT", "DOT", "USDC"], ["AssetHub", "Acala", "Kusama"], 1, 1),
        Err(SwapError::UnsupportedChainInRoute)
    );
    assert_eq!(
        multi_hop(&mut engine, &transport, ["USDT", "DOT", "USDC"], chains, 0, 1),
        Err(SwapError::RejectedRoute)
    );
    assert_eq!(engine.get_swap_count(), 0);
    assert!(transport.seen.borrow().is_empty());
    assert!(engine.take_events().is_empty());
    assert_eq!(
        multi_hop(&mut engine, &Refusing, ["USDT", "DOT", "USDC"], chains, 5, 4),
        Err(SwapError::FirstStepFailed)
    );
    assert_eq!(engine.get_swap_progress(0), Some((0, 2, 3)));
}

#[test]
fn inbound_requests_are_answered() {
    let mut engine = CrossChainSwap::new();
    let request = |body: Vec<u8>| IsmpRequest {
        source: StateMachine::Kusama(1),
        dest: StateMachine::Polkadot(1000),
        nonce: 9,
        from: Vec::new(),
        to: Vec::new(),
        timeout_timestamp: 0,
        body,
    };
    assert_eq!(engine.handle_ismp_request(&request(Vec::new())), Err(SwapError::UnknownRequestAction));
    assert_eq!(engine.handle_ismp_request(&request(vec![3, 0, 0, 0])), Err(SwapError::UnknownRequestAction));
    assert_eq!(engine.handle_ismp_request(&request(vec![1, 0, 0])), Err(SwapError::InvalidSwapParams));
    assert_eq!(engine.handle_ismp_request(&request(vec![2])), Err(SwapError::InvalidStatusQuery));
    assert_eq!(engine.handle_ismp_request(&request(vec![2, 0, 0, 0])), Err(SwapError::InvalidStatusQuery));
    assert_eq!(engine.handle_ismp_request(&request(vec![2, 0, 0, 0, 0])), Ok(vec![0]));

    let mut body = vec![1u8];
    body.extend_from_slice(&4u32.to_le_bytes());
    body.extend_from_slice(&1u32.to_le_bytes());
    body.extend_from_slice(b"DOT\0USDT\0");
    body.extend_from_slice(&77u128.to_le_bytes());
    assert_eq!(engine.handle_ismp_request(&request(body)), Ok(vec![1]));

    for _ in 0..3 {
        two_step_swap(&mut engine, 0);
    }
    assert!(engine.cancel_swap(alice(), 2));
    assert!(engine.execute_next_step(&MockIsmpDispatcher, 1, 1));
    assert_eq!(engine.handle_ismp_request(&request(vec![2, 0, 0, 0, 0])), Ok(vec![0]));
    assert_eq!(engine.handle_ismp_request(&request(vec![2, 1, 0, 0, 0])), Ok(vec![1]));
    assert_eq!(engine.handle_ismp_request(&request(vec![2, 2, 0, 0, 0])), Ok(vec![4]));
    assert_eq!(engine.handle_ismp_request(&request(vec![2, 2, 0, 0, 0, 9])), Ok(vec![4]));
    assert_eq!(engine.handle_ismp_request(&request(vec![2, 3, 0, 0, 0])), Ok(vec![0]));
    assert_eq!(engine.handle_ismp_request(&request(vec![2, 2, 1, 0, 0])), Ok(vec![0]));
}

#[test]
fn error_messages_read_as_sentences() {
    assert_eq!(SwapError::MerchantNotFound.message(), "Merchant not registered");
    assert_eq!(SwapError::UnsupportedStablecoin.message(), "Unsupported stablecoin");
    assert_eq!(SwapError::UnsupportedSettlementChain.message(), "Unsupported settlement chain");
    assert_eq!(SwapError::UnsupportedCustomerToken.message(), "Unsupported customer token");
    assert_eq!(SwapError::UnsupportedCustomerChain.message(), "Unsupported customer chain");
    assert_eq!(SwapError::UnsupportedTokenInRoute.message(), "Unsupported token in route");
    assert_eq!(SwapError::UnsupportedChainInRoute.message(), "Unsupported chain in route");
    assert_eq!(SwapError::FirstStepFailed.message(), "Failed to initiate first swap step");
    assert_eq!(SwapError::UnknownRequestAction.message(), "Unknown request action");
    assert_eq!(SwapError::InvalidSwapParams.message(), "Invalid swap params data");
    assert_eq!(SwapError::InvalidStatusQuery.message(), "Invalid swap status query body");
    assert_eq!(SwapError::UnsupportedRoute.message(), "Unsupported payment route");
    assert_eq!(SwapError::RejectedRoute.message(), "Invalid route amounts");
}

#[test]
fn response_is_delivered_by_nonce_and_payload() {
    let mut engine = CrossChainSwap::new();
    let id = two_step_swap(&mut engine, 0);
    assert!(engine.execute_next_step(&MockIsmpDispatcher, 10, id));
    engine.on_response(2, &[1]);
    assert_eq!(engine.get_swap_progress(id), Some((0, 2, 1)));
    engine.on_response(1, &[0]);
    assert_eq!(engine.get_swap_progress(id), Some((1, 2, 1)));
    assert!(engine.execute_next_step(&MockIsmpDispatcher, 10, id));
    engine.on_response(2, &[]);
    assert_eq!(engine.get_swap_progress(id), Some((1, 2, 3)));
}

#[test]
fn route_of_ten_steps_takes_ten_rounds() {
    let mut engine = CrossChainSwap::new();
    let id = engine
        .initiate_multi_hop_swap(alice(), 0, s("KSM"), s("HDX"), s("Bifrost"), s("Moonbeam"), 9, 9, 10, 168)
        .unwrap();
    for round in 1..=10u32 {
        assert_eq!(engine.get_swap_status(id), Some(if round == 1 { 0 } else { 1 }));
        assert!(engine.execute_next_step(&MockIsmpDispatcher, 168 * HOUR, id));
        engine.on_response(u64::from(round), &[1]);
        assert_eq!(engine.get_swap_progress(id), Some((round, 10, if round == 10 { 2 } else { 1 })));
    }
    assert!(!engine.execute_next_step(&MockIsmpDispatcher, 0, id));
}
