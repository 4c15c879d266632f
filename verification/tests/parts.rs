use nexor::account::{AccountId, Address};
use nexor::contracts::cross_chain_swap::{CrossChainSwap as HashLockedSwaps, SwapBookParts};
use nexor::contracts::escrow::{Escrow, EscrowBookParts};
use nexor::contracts::index::IdIndex;
use nexor::contracts::key_registry::{KeyBookParts, KeyIndex, KeyRegistry as Keys};
use nexor::contracts::streaming_payments::{StreamBookParts, StreamStatus, StreamingPayments};
use nexor::contracts::vault::{Vault, VaultBookParts};
use nexor::cross_chain_swap::engine::{CrossChainSwap, EngineParts};
use nexor::cross_chain_swap::records::{MerchantPrefs, Payment, Status, Swap};
use nexor::cross_chain_swap::transport::{
    IsmpRequest, IsmpResponse, MockIsmpDispatcher, StateMachine,
};
use nexor::key_registry::KeyRegistry as Tags;
use nexor::table::Table;

fn alice() -> Address {
    Address::new([1u8; 20])
}

fn bob() -> Address {
    Address::new([2u8; 20])
}

fn account(byte: u8) -> AccountId {
    AccountId::new([byte; 32])
}

fn swap(id: u32) -> Swap {
    Swap {
        id,
        initiator: alice(),
        source_token: "USDT".to_string(),
        target_token: "USDC".to_string(),
        source_chain: "AssetHub".to_string(),
        target_chain: "Hydration".to_string(),
        input_amount: 1000,
        expected_output: 997,
        route_steps: 2,
        current_step: 0,
        status: Status::Initiated,
        timeout: 3_600_000,
        pending_request: None,
    }
}

fn empty_parts() -> EngineParts {
    EngineParts {
        swaps: Vec::new(),
        nonce: 0,
        merchant_ids: Vec::new(),
        merchant_prefs: Vec::new(),
        payments: Vec::new(),
        events: Vec::new(),
    }
}

fn answer(nonce: u64) -> IsmpResponse {
    IsmpResponse {
        post: IsmpRequest {
            source: StateMachine::Polkadot(1000),
            dest: StateMachine::Polkadot(2000),
            nonce,
            from: Vec::new(),
            to: Vec::new(),
            timeout_timestamp: 0,
            body: Vec::new(),
        },
        response: vec![1],
        timeout_timestamp: 0,
    }
}

#[test]
fn engine_state_survives_storage() {
    let mut engine = CrossChainSwap::new();
    engine.register_merchant(bob(), "USDT".to_string(), "AssetHub".to_string()).unwrap();
    engine.process_payment(alice(), 0, bob(), "DOT".to_string(), "Acala".to_string(), 1_000_000).unwrap();
    engine.process_payment(alice(), 0, bob(), "USDT".to_string(), "AssetHub".to_string(), 5).unwrap();
    assert!(engine.execute_next_step(&MockIsmpDispatcher, 1, 0));
    let parts = engine.into_parts();
    assert_eq!(parts.swaps.len(), 1);
    assert_eq!(parts.swaps[0].pending_request, Some(1));
    assert_eq!(parts.swaps[0].status, Status::InProgress);
    assert_eq!(parts.nonce, 1);
    assert_eq!(parts.merchant_ids, vec![bob()]);
    assert_eq!(
        parts.merchant_prefs,
        vec![MerchantPrefs {
            preferred_stablecoin: "USDT".to_string(),
            settlement_chain: "AssetHub".to_string()
        }]
    );
    assert_eq!(
        parts.payments,
        vec![
            Payment { customer: alice(), merchant: bob(), swap_id: Some(0) },
            Payment { customer: alice(), merchant: bob(), swap_id: None }
        ]
    );
    assert_eq!(parts.events.len(), 5);

    let mut restored = CrossChainSwap::from_parts(parts.clone()).unwrap();
    assert_eq!(restored.get_swap_progress(0), Some((0, 2, 1)));
    assert_eq!(restored.get_payment_count(), 2);
    assert!(restored.is_registered_merchant(bob()));
    restored.handle_ismp_response(answer(1));
    assert_eq!(restored.get_swap_progress(0), Some((1, 2, 1)));
    assert!(restored.execute_next_step(&MockIsmpDispatcher, 2, 0));
    restored.handle_ismp_response(answer(2));
    assert_eq!(restored.get_swap_progress(0), Some((2, 2, 2)));
    assert_eq!(CrossChainSwap::from_parts(parts.clone()).unwrap().into_parts(), parts);
}

#[test]
fn engine_refuses_values_that_describe_no_state() {
    assert!(CrossChainSwap::from_parts(empty_parts()).is_some());

    let with = |change: &dyn Fn(&mut EngineParts)| {
        let mut parts = empty_parts();
        parts.swaps = vec![swap(0), swap(1)];
        parts.nonce = 5;
        change(&mut parts);
        CrossChainSwap::from_parts(parts).is_some()
    };
    assert!(with(&|_| {}));
    assert!(!with(&|p| p.swaps[1].id = 0));
    assert!(!with(&|p| p.swaps[0].source_token = String::new()));
    assert!(!with(&|p| p.swaps[0].source_token = "ETH".to_string()));
    assert!(!with(&|p| p.swaps[1].target_token = "usdc".to_string()));
    assert!(!with(&|p| p.swaps[0].source_chain = "Kusama".to_string()));
    assert!(!with(&|p| p.swaps[1].target_chain = "Mars".to_string()));
    assert!(with(&|p| p.swaps[1].target_chain = "Bifrost".to_string()));
    assert!(!with(&|p| p.swaps[0].input_amount = 0));
    assert!(!with(&|p| p.swaps[0].route_steps = 11));
    assert!(!with(&|p| p.swaps[0].current_step = 3));
    assert!(!with(&|p| p.swaps[0].current_step = 2));
    assert!(!with(&|p| p.swaps[0].status = Status::Completed));
    assert!(with(&|p| {
        p.swaps[0].status = Status::Completed;
        p.swaps[0].current_step = 2;
    }));
    assert!(with(&|p| p.swaps[0].pending_request = Some(5)));
    assert!(!with(&|p| p.swaps[0].pending_request = Some(6)));
    assert!(!with(&|p| p.swaps[0].pending_request = Some(0)));
    assert!(!with(&|p| {
        p.swaps[0].pending_request = Some(3);
        p.swaps[1].pending_request = Some(3);
    }));
    assert!(with(&|p| {
        p.swaps[0].pending_request = Some(3);
        p.swaps[1].pending_request = Some(4);
    }));
    assert!(!with(&|p| {
        p.swaps[0].pending_request = Some(3);
        p.swaps[0].status = Status::Failed;
    }));
    assert!(!with(&|p| p.payments = vec![Payment { customer: alice(), merchant: bob(), swap_id: Some(2) }]));
    assert!(with(&|p| p.payments = vec![Payment { customer: alice(), merchant: bob(), swap_id: Some(1) }]));
    let prefs = |coin: &str, chain: &str| MerchantPrefs {
        preferred_stablecoin: coin.to_string(),
        settlement_chain: chain.to_string(),
    };
    assert!(!with(&|p| p.merchant_ids = vec![bob()]));
    assert!(!with(&|p| {
        p.merchant_ids = vec![bob(), bob()];
        p.merchant_prefs = vec![prefs("USDT", "Acala"), prefs("USDC", "Acala")];
    }));
    assert!(!with(&|p| {
        p.merchant_ids = vec![bob()];
        p.merchant_prefs = vec![prefs("EUR", "Acala")];
    }));
    assert!(!with(&|p| {
        p.merchant_ids = vec![bob()];
        p.merchant_prefs = vec![prefs("USDT", "Kusama")];
    }));
    assert!(with(&|p| {
        p.merchant_ids = vec![bob(), alice()];
        p.merchant_prefs = vec![prefs("USDT", "Acala"), prefs("USDC", "Acala")];
    }));
    assert!(swap(0).is_valid());
}

#[test]
fn tables_are_built_from_distinct_keys() {
    let table = Table::from_entries(vec!["a".to_string(), "b".to_string()], vec![1u8, 2]).unwrap();
    assert_eq!(table.lookup(&"b".to_string()), Some(&2));
    assert!(table.is_wf());
    assert_eq!(table.into_entries(), (vec!["a".to_string(), "b".to_string()], vec![1u8, 2]));
    assert!(Table::from_entries(vec!["a".to_string(), "a".to_string()], vec![1u8, 2]).is_none());
    assert!(Table::from_entries(vec!["a".to_string()], vec![1u8, 2]).is_none());
    assert!(Table::<String, u8>::distinct(&vec![]));
    assert!(!Table::<Vec<u8>, u8>::distinct(&vec![vec![1], vec![2], vec![1]]));

    let index = IdIndex::from_entries(vec![account(1), account(2)], vec![vec![0, 1], vec![]]).unwrap();
    assert_eq!(index.listed(account(1)), vec![0, 1]);
    assert_eq!(index.into_entries(), (vec![account(1), account(2)], vec![vec![0, 1], vec![]]));
    assert!(IdIndex::from_entries(vec![account(1), account(1)], vec![vec![], vec![]]).is_none());
    assert!(IdIndex::from_entries(vec![account(1)], vec![]).is_none());

    let keys = KeyIndex::from_entries(vec![account(1)], vec![vec![vec![7]]]).unwrap();
    assert_eq!(keys.listed(account(1)), vec![vec![7]]);
    assert_eq!(keys.into_entries(), (vec![account(1)], vec![vec![vec![7u8]]]));
    assert!(KeyIndex::from_entries(vec![account(1), account(1)], vec![vec![], vec![]]).is_none());

    let tags = Tags::from_entries(vec!["x".to_string()], vec![alice()]).unwrap();
    assert_eq!(tags.lookup_address("x".to_string()), Some(alice()));
    assert_eq!(tags.into_entries(), (vec!["x".to_string()], vec![alice()]));
    assert!(Tags::from_entries(vec!["x".to_string(), "x".to_string()], vec![alice(), bob()]).is_none());
    assert!(Tags::from_entries(vec![], vec![alice()]).is_none());
}

#[test]
fn contract_state_survives_storage() {
    let mut swaps = HashLockedSwaps::new();
    swaps.initiate_swap(account(1), 0, account(2), "DOT".to_string(), 1, "KSM".to_string(), 2, "k".to_string(), [3u8; 32], 9);
    let parts = swaps.into_parts();
    assert_eq!(parts.users, vec![account(1), account(2)]);
    assert_eq!(parts.user_swaps, vec![vec![0], vec![0]]);
    let restored = HashLockedSwaps::from_parts(parts.clone()).unwrap();
    assert_eq!(restored.get_user_swaps(account(2)), vec![0]);
    assert!(restored.can_lock(8, 0));
    assert_eq!(restored.into_parts(), parts);
    assert!(HashLockedSwaps::from_parts(SwapBookParts { users: vec![account(1), account(1)], ..parts }).is_none());

    let mut escrow = Escrow::new();
    escrow.create_escrow(account(1), 0, account(1), account(2), 5, "DOT".to_string(), None);
    let parts = escrow.into_parts();
    let restored = Escrow::from_parts(parts.clone()).unwrap();
    assert!(restored.can_refund(account(1), 0));
    assert_eq!(restored.into_parts(), parts);
    assert!(Escrow::from_parts(EscrowBookParts { user_escrows: vec![], ..parts }).is_none());

    let mut streams = StreamingPayments::new();
    streams.create_stream(account(1), 0, account(2), 1000, "DOT".to_string(), 10);
    let parts = streams.into_parts();
    let mut restored = StreamingPayments::from_parts(parts.clone()).unwrap();
    assert_eq!(restored.withdraw(account(2), 5, 0), 500);
    assert_eq!(StreamingPayments::from_parts(parts.clone()).unwrap().into_parts(), parts);
    let broken = |change: &dyn Fn(&mut StreamBookParts)| {
        let mut parts = parts.clone();
        change(&mut parts);
        StreamingPayments::from_parts(parts).is_none()
    };
    assert!(broken(&|p| p.streams[0].total_amount = 0));
    assert!(broken(&|p| p.streams[0].end_time = 0));
    assert!(broken(&|p| p.streams[0].withdrawn_amount = 1001));
    assert!(broken(&|p| p.streams[0].last_withdrawal_time = 10));
    assert!(!broken(&|p| {
        p.streams[0].last_withdrawal_time = 10;
        p.streams[0].status = StreamStatus::Completed;
    }));
    assert!(broken(&|p| p.senders.clear()));
    assert!(broken(&|p| p.received.clear()));

    let mut vault = Vault::new();
    vault.create_vault(account(1), "v".to_string(), vec![account(1)], 1);
    vault.deposit(account(1), 0, "DOT".to_string(), 7);
    let parts = vault.into_parts();
    let restored = Vault::from_parts(parts.clone()).unwrap();
    assert_eq!(restored.get_vault_balance(0, "DOT".to_string()), 7);
    assert_eq!(restored.into_parts(), parts);
    assert!(Vault::from_parts(VaultBookParts { owners: vec![], ..parts }).is_none());

    let mut keys = Keys::new();
    keys.register_key(account(1), 0, vec![1], vec![2], Table::new(), None);
    let parts = keys.into_parts();
    assert_eq!(parts.ids, vec![vec![1u8]]);
    let restored = Keys::from_parts(parts.clone()).unwrap();
    assert!(restored.verify_key(0, vec![1], vec![2]));
    assert_eq!(restored.into_parts(), parts);
    assert!(Keys::from_parts(KeyBookParts { ids: vec![], ..parts.clone() }).is_none());
    let mut twice = parts.clone();
    twice.ids.push(vec![1]);
    twice.infos.push(parts.infos[0].clone());
    assert!(Keys::from_parts(twice).is_none());
}
