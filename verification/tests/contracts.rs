use nexor::account::AccountId;
use nexor::contracts::cross_chain_swap::{
    CrossChainSwap, SwapCompleted, SwapEvent, SwapInitiated, SwapLocked, SwapRefunded, SwapStatus,
};
use nexor::contracts::escrow::{
    Escrow, EscrowCreated, EscrowDisputed, EscrowEvent, EscrowRefunded, EscrowReleased,
    EscrowStatus,
};
use nexor::contracts::key_registry::{
    copy_keys, copy_metadata, KeyEvent, KeyIndex, KeyRegistered, KeyRegistry, KeyRevoked,
    KeyStatus,
};
use nexor::contracts::streaming_payments::{
    StreamCanceled, StreamCompleted, StreamEvent, StreamStatus, StreamWithdrawal,
    StreamingPayments,
};
use nexor::contracts::vault::{copy_accounts, lists_account, Deposit, Vault, VaultEvent, Withdrawal};
use nexor::table::Table;

/// The time by which the clock moves on with each block.
const BLOCK_TIME: u64 = 6;

struct Accounts {
    alice: AccountId,
    bob: AccountId,
    charlie: AccountId,
}

fn default_accounts() -> Accounts {
    Accounts {
        alice: AccountId::new([1u8; 32]),
        bob: AccountId::new([2u8; 32]),
        charlie: AccountId::new([3u8; 32]),
    }
}

fn metadata(entries: &[(&str, &str)]) -> Table<String, String> {
    let mut table = Table::new();
    for (key, value) in entries {
        table.insert(key.to_string(), value.to_string());
    }
    table
}

#[test]
fn swap_flow_works() {
    let mut swap = CrossChainSwap::new();
    let accounts = default_accounts();
    let mut caller = accounts.alice;
    let now = 0;

    let secret = [1u8; 32];
    let hash_lock = secret;

    let swap_id = swap.initiate_swap(
        caller,
        now,
        accounts.bob,
        "DOT".to_string(),
        100,
        "KSM".to_string(),
        200,
        "kusama".to_string(),
        hash_lock,
        3600000,
    );

    assert_eq!(swap_id, 0);

    assert!(swap.can_lock(now, swap_id));
    let result = swap.lock_swap(caller, now, swap_id);
    assert!(result);

    caller = accounts.bob;

    assert!(swap.can_complete(now, swap_id, secret));
    let result = swap.complete_swap(caller, now, swap_id, secret);
    assert!(result);

    let swap_info = swap.get_swap(now, swap_id).unwrap();
    assert_eq!(swap_info.9, SwapStatus::Completed);
    assert_eq!(swap_info.10, Some(secret));
}

#[test]
fn refund_expired_swap_works() {
    let mut swap = CrossChainSwap::new();
    let accounts = default_accounts();
    let caller = accounts.alice;
    let mut now = 0;

    let secret = [1u8; 32];
    let hash_lock = secret;

    let swap_id = swap.initiate_swap(
        caller,
        now,
        accounts.bob,
        "DOT".to_string(),
        100,
        "KSM".to_string(),
        200,
        "kusama".to_string(),
        hash_lock,
        3600000,
    );

    swap.lock_swap(caller, now, swap_id);

    now += BLOCK_TIME;
    let current_time = now;
    now = current_time + 3600001;

    assert!(swap.can_refund(caller, now, swap_id));
    let result = swap.refund_swap(caller, now, swap_id);
    assert!(result);

    let swap_info = swap.get_swap(now, swap_id).unwrap();
    assert_eq!(swap_info.9, SwapStatus::Refunded);
}

#[test]
fn hash_locked_swap_reports_what_it_stores() {
    let mut swap = CrossChainSwap::new();
    let accounts = default_accounts();
    assert_eq!(swap.swap_count(), 0);
    assert_eq!(swap.get_swap(0, 0), None);
    let id = swap.initiate_swap(
        accounts.alice,
        10,
        accounts.bob,
        "DOT".to_string(),
        100,
        "KSM".to_string(),
        200,
        "kusama".to_string(),
        [9u8; 32],
        50,
    );
    assert_eq!(swap.swap_count(), 1);
    assert_eq!(
        swap.get_swap(59, id),
        Some((
            accounts.alice,
            accounts.bob,
            "DOT".to_string(),
            100,
            "KSM".to_string(),
            200,
            "kusama".to_string(),
            [9u8; 32],
            60,
            SwapStatus::Initiated,
            None
        ))
    );
    assert_eq!(swap.get_swap(60, id).unwrap().9, SwapStatus::Expired);
    assert_eq!(swap.get_user_swaps(accounts.alice), vec![0]);
    assert_eq!(swap.get_user_swaps(accounts.bob), vec![0]);
    assert!(swap.get_user_swaps(accounts.charlie).is_empty());
    let own = swap.initiate_swap(
        accounts.alice,
        10,
        accounts.alice,
        "DOT".to_string(),
        1,
        "KSM".to_string(),
        1,
        "k".to_string(),
        [0u8; 32],
        1,
    );
    assert_eq!(swap.get_user_swaps(accounts.alice), vec![0, own, own]);
    assert_eq!(
        swap.take_events()[0],
        SwapEvent::Initiated(SwapInitiated {
            swap_id: 0,
            initiator: accounts.alice,
            recipient: accounts.bob,
            source_token: "DOT".to_string(),
            source_amount: 100,
            target_token: "KSM".to_string(),
            target_amount: 200,
            target_chain: "kusama".to_string(),
            hash_lock: [9u8; 32],
            timeout: 60,
        })
    );
    assert!(swap.take_events().is_empty());
}

#[test]
fn hash_locked_swap_guards_its_transitions() {
    let mut swap = CrossChainSwap::new();
    let accounts = default_accounts();
    let secret = [4u8; 32];
    let id = swap.initiate_swap(
        accounts.alice,
        0,
        accounts.bob,
        "DOT".to_string(),
        100,
        "KSM".to_string(),
        200,
        "kusama".to_string(),
        secret,
        100,
    );
    assert!(!swap.can_lock(0, 1));
    assert!(!swap.can_lock(100, id));
    assert!(!swap.can_complete(0, id, secret));
    assert!(!swap.can_refund(accounts.alice, 99, id));
    assert!(!swap.can_refund(accounts.bob, 100, id));
    assert!(swap.can_refund(accounts.alice, 100, id));
    assert!(swap.can_lock(99, id));
    swap.lock_swap(accounts.charlie, 99, id);
    assert!(!swap.can_lock(99, id));
    assert!(!swap.can_complete(99, id, [5u8; 32]));
    assert!(!swap.can_complete(100, id, secret));
    assert!(!swap.can_complete(99, 3, secret));
    assert!(swap.can_complete(99, id, secret));
    assert!(swap.verify_secret(secret, secret));
    assert!(!swap.verify_secret(secret, [0u8; 32]));
    swap.complete_swap(accounts.bob, 99, id, secret);
    assert!(!swap.can_refund(accounts.alice, 100, id));
    assert!(!swap.can_complete(99, id, secret));
    assert_eq!(swap.get_swap(1000, id).unwrap().9, SwapStatus::Completed);
    let events = swap.take_events();
    assert_eq!(events[1], SwapEvent::Locked(SwapLocked { swap_id: 0, locker: accounts.charlie }));
    assert_eq!(
        events[2],
        SwapEvent::Completed(SwapCompleted { swap_id: 0, claimer: accounts.bob, secret })
    );
    let other = swap.initiate_swap(
        accounts.alice,
        0,
        accounts.bob,
        "DOT".to_string(),
        100,
        "KSM".to_string(),
        200,
        "kusama".to_string(),
        secret,
        100,
    );
    swap.refund_swap(accounts.alice, 100, other);
    assert_eq!(
        swap.take_events()[1],
        SwapEvent::Refunded(SwapRefunded { swap_id: 1, refunder: accounts.alice })
    );
    assert!(!swap.can_refund(accounts.alice, 100, other));
}

#[test]
fn create_escrow_works() {
    let mut escrow = Escrow::new();
    let accounts = default_accounts();
    let caller = accounts.bob;

    let escrow_id =
        escrow.create_escrow(caller, 0, accounts.alice, accounts.bob, 100, "DOT".to_string(), None);

    assert_eq!(escrow_id, 0);

    let escrow_info = escrow.get_escrow(escrow_id).unwrap();
    assert_eq!(escrow_info.0, accounts.alice);
    assert_eq!(escrow_info.1, accounts.bob);
    assert_eq!(escrow_info.2, 100);
    assert_eq!(escrow_info.3, "DOT");
    assert_eq!(escrow_info.4, EscrowStatus::Active);
}

#[test]
fn release_works() {
    let mut escrow = Escrow::new();
    let accounts = default_accounts();
    let caller = accounts.bob;

    let escrow_id =
        escrow.create_escrow(caller, 0, accounts.alice, accounts.bob, 100, "DOT".to_string(), None);

    assert!(escrow.can_release(caller, 0, escrow_id));
    let result = escrow.release(caller, 0, escrow_id);
    assert!(result);

    let escrow_info = escrow.get_escrow(escrow_id).unwrap();
    assert_eq!(escrow_info.4, EscrowStatus::Released);
}

#[test]
fn refund_works() {
    let mut escrow = Escrow::new();
    let accounts = default_accounts();
    let mut caller = accounts.bob;

    let escrow_id =
        escrow.create_escrow(caller, 0, accounts.alice, accounts.bob, 100, "DOT".to_string(), None);

    caller = accounts.alice;

    assert!(escrow.can_refund(caller, escrow_id));
    let result = escrow.refund(caller, escrow_id);
    assert!(result);

    let escrow_info = escrow.get_escrow(escrow_id).unwrap();
    assert_eq!(escrow_info.4, EscrowStatus::Refunded);
}

#[test]
fn escrow_guards_its_transitions() {
    let mut escrow = Escrow::new();
    let accounts = default_accounts();
    assert_eq!(escrow.escrow_count(), 0);
    assert_eq!(escrow.get_escrow(0), None);
    let timed = escrow.create_escrow(
        accounts.alice,
        5,
        accounts.alice,
        accounts.bob,
        100,
        "DOT".to_string(),
        Some(50),
    );
    assert_eq!(
        escrow.get_escrow(timed),
        Some((
            accounts.alice,
            accounts.bob,
            100,
            "DOT".to_string(),
            EscrowStatus::Active,
            Some(50),
            None,
            5
        ))
    );
    assert!(!escrow.can_release(accounts.alice, 49, timed));
    assert!(!escrow.can_release(accounts.charlie, 49, timed));
    assert!(escrow.can_release(accounts.charlie, 50, timed));
    assert!(escrow.can_release(accounts.bob, 0, timed));
    assert!(!escrow.can_release(accounts.bob, 0, 9));
    assert!(!escrow.can_refund(accounts.bob, timed));
    assert!(!escrow.can_refund(accounts.alice, 9));
    assert!(!escrow.can_dispute(accounts.charlie, timed));
    assert!(escrow.can_dispute(accounts.alice, timed));
    assert!(escrow.can_dispute(accounts.bob, timed));
    assert!(escrow.dispute(accounts.bob, timed, "late".to_string()));
    let info = escrow.get_escrow(timed).unwrap();
    assert_eq!(info.4, EscrowStatus::Disputed);
    assert_eq!(info.6, Some("late".to_string()));
    assert!(!escrow.can_release(accounts.bob, 100, timed));
    assert!(!escrow.can_refund(accounts.alice, timed));
    assert!(!escrow.can_dispute(accounts.alice, timed));
    assert_eq!(escrow.get_user_escrows(accounts.alice), vec![0]);
    assert_eq!(escrow.get_user_escrows(accounts.bob), vec![0]);
    assert!(escrow.get_user_escrows(accounts.charlie).is_empty());

    let second = escrow.create_escrow(
        accounts.bob,
        6,
        accounts.alice,
        accounts.bob,
        1,
        "KSM".to_string(),
        None,
    );
    assert!(!escrow.can_release(accounts.charlie, u64::MAX, second));
    escrow.release(accounts.bob, 7, second);
    let third = escrow.create_escrow(
        accounts.alice,
        6,
        accounts.alice,
        accounts.bob,
        1,
        "KSM".to_string(),
        None,
    );
    escrow.refund(accounts.alice, third);
    assert_eq!(escrow.escrow_count(), 3);
    assert_eq!(
        escrow.take_events(),
        vec![
            EscrowEvent::Created(EscrowCreated {
                escrow_id: 0,
                seller: accounts.alice,
                buyer: accounts.bob,
                amount: 100,
                token: "DOT".to_string()
            }),
            EscrowEvent::Disputed(EscrowDisputed {
                escrow_id: 0,
                disputed_by: accounts.bob,
                reason: "late".to_string()
            }),
            EscrowEvent::Created(EscrowCreated {
                escrow_id: 1,
                seller: accounts.alice,
                buyer: accounts.bob,
                amount: 1,
                token: "KSM".to_string()
            }),
            EscrowEvent::Released(EscrowReleased { escrow_id: 1, released_by: accounts.bob }),
            EscrowEvent::Created(EscrowCreated {
                escrow_id: 2,
                seller: accounts.alice,
                buyer: accounts.bob,
                amount: 1,
                token: "KSM".to_string()
            }),
            EscrowEvent::Refunded(EscrowRefunded { escrow_id: 2, refunded_by: accounts.alice }),
        ]
    );
}

#[test]
fn register_key_works() {
    let mut registry = KeyRegistry::new();
    let accounts = default_accounts();
    let caller = accounts.alice;

    let key_id = vec![1, 2, 3, 4];
    let public_key = vec![5, 6, 7, 8];

    let mut metadata = Table::new();
    metadata.insert("name".to_string(), "Alice's Key".to_string());
    metadata.insert("purpose".to_string(), "Authentication".to_string());

    let result = registry.register_key(caller, 0, key_id.clone(), public_key.clone(), metadata, None);

    assert!(result);

    let key_info = registry.get_key(0, key_id).unwrap();
    assert_eq!(key_info.0, accounts.alice);
    assert_eq!(key_info.1, public_key);
    assert_eq!(key_info.5, KeyStatus::Active);
}

#[test]
fn revoke_key_works() {
    let mut registry = KeyRegistry::new();
    let accounts = default_accounts();
    let caller = accounts.alice;

    let key_id = vec![1, 2, 3, 4];
    let public_key = vec![5, 6, 7, 8];

    let mut metadata = Table::new();
    metadata.insert("name".to_string(), "Alice's Key".to_string());

    registry.register_key(caller, 0, key_id.clone(), public_key.clone(), metadata, None);

    assert!(registry.can_revoke(caller, &key_id));
    let result = registry.revoke_key(caller, key_id.clone());
    assert!(result);

    let key_info = registry.get_key(0, key_id).unwrap();
    assert_eq!(key_info.5, KeyStatus::Revoked);
}

#[test]
fn lookup_by_metadata_works() {
    let mut registry = KeyRegistry::new();
    let accounts = default_accounts();
    let mut caller = accounts.alice;

    let key_id1 = vec![1, 2, 3, 4];
    let public_key1 = vec![5, 6, 7, 8];

    let mut metadata1 = Table::new();
    metadata1.insert("name".to_string(), "Alice's Key".to_string());
    metadata1.insert("purpose".to_string(), "Authentication".to_string());

    registry.register_key(caller, 0, key_id1.clone(), public_key1.clone(), metadata1, None);

    let key_id2 = vec![9, 10, 11, 12];
    let public_key2 = vec![13, 14, 15, 16];

    let mut metadata2 = Table::new();
    metadata2.insert("name".to_string(), "Bob's Key".to_string());
    metadata2.insert("purpose".to_string(), "Authentication".to_string());

    caller = accounts.bob;

    registry.register_key(caller, 0, key_id2.clone(), public_key2.clone(), metadata2, None);

    let keys = registry.lookup_by_metadata(0, "purpose".to_string(), "Authentication".to_string());

    assert_eq!(keys.len(), 2);
    assert!(keys.contains(&key_id1));
    assert!(keys.contains(&key_id2));

    let keys = registry.lookup_by_metadata(0, "name".to_string(), "Alice's Key".to_string());

    assert_eq!(keys.len(), 1);
    assert_eq!(keys[0], key_id1);
}

#[test]
fn key_registry_guards_its_operations() {
    let mut registry = KeyRegistry::new();
    let accounts = default_accounts();
    assert!(!registry.can_register(&vec![], &vec![1]));
    assert!(!registry.can_register(&vec![1], &vec![]));
    assert!(registry.can_register(&vec![1], &vec![1]));
    registry.register_key(accounts.alice, 3, vec![1], vec![7], metadata(&[("a", "b")]), Some(10));
    assert!(!registry.can_register(&vec![1], &vec![1]));
    assert!(!registry.can_revoke(accounts.bob, &vec![1]));
    assert!(!registry.can_revoke(accounts.alice, &vec![2]));
    assert!(!registry.can_update(accounts.bob, &vec![1]));
    assert!(!registry.can_update(accounts.alice, &vec![2]));
    assert!(registry.can_update(accounts.alice, &vec![1]));
    assert_eq!(
        registry.get_key(10, vec![1]),
        Some((accounts.alice, vec![7], metadata(&[("a", "b")]), 3, Some(10), KeyStatus::Active))
    );
    assert_eq!(registry.get_key(11, vec![1]).unwrap().5, KeyStatus::Expired);
    assert_eq!(registry.get_key(0, vec![2]), None);
    assert!(registry.can_update(accounts.alice, &vec![1]));
    assert!(registry.update_metadata(accounts.alice, vec![1], metadata(&[("a", "c"), ("x", "y")])));
    assert_eq!(registry.get_key(0, vec![1]).unwrap().2, metadata(&[("a", "c"), ("x", "y")]));
    assert!(registry.lookup_by_metadata(0, "a".to_string(), "b".to_string()).is_empty());
    assert_eq!(registry.lookup_by_metadata(10, "a".to_string(), "c".to_string()), vec![vec![1]]);
    assert!(registry.lookup_by_metadata(11, "a".to_string(), "c".to_string()).is_empty());
    assert!(registry.lookup_by_metadata(0, "c".to_string(), "a".to_string()).is_empty());

    assert!(registry.verify_key(10, vec![1], vec![7]));
    assert!(!registry.verify_key(11, vec![1], vec![7]));
    assert!(!registry.verify_key(0, vec![1], vec![8]));
    assert!(!registry.verify_key(0, vec![2], vec![7]));
    registry.register_key(accounts.alice, 4, vec![2], vec![8], Table::new(), None);
    assert_eq!(registry.get_user_keys(accounts.alice), vec![vec![1], vec![2]]);
    assert!(registry.get_user_keys(accounts.bob).is_empty());
    registry.revoke_key(accounts.alice, vec![1]);
    assert!(!registry.verify_key(0, vec![1], vec![7]));
    assert!(!registry.can_update(accounts.alice, &vec![1]));
    assert!(registry.can_revoke(accounts.alice, &vec![1]));
    assert_eq!(registry.get_key(11, vec![1]).unwrap().5, KeyStatus::Revoked);
    assert!(registry.lookup_by_metadata(0, "a".to_string(), "c".to_string()).is_empty());
    assert!(registry.verify_key(u64::MAX, vec![2], vec![8]));
    let events = registry.take_events();
    assert_eq!(events.len(), 4);
    assert_eq!(events[0], KeyEvent::Registered(KeyRegistered { owner: accounts.alice, key_id: vec![1] }));
    assert_eq!(events[3], KeyEvent::Revoked(KeyRevoked { owner: accounts.alice, key_id: vec![1] }));
    assert!(registry.take_events().is_empty());
}

#[test]
fn key_lists_are_copied_whole() {
    assert_eq!(copy_keys(&vec![vec![1], vec![], vec![2, 3]]), vec![vec![1], vec![], vec![2, 3]]);
    let table = metadata(&[("k", "v"), ("a", "b")]);
    assert_eq!(copy_metadata(&table), table);
    let accounts = default_accounts();
    let mut index = KeyIndex::new();
    index.add(accounts.alice, vec![1]);
    index.add(accounts.alice, vec![2]);
    assert_eq!(index.listed(accounts.alice), vec![vec![1], vec![2]]);
    assert!(index.listed(accounts.bob).is_empty());
}

#[test]
fn create_stream_works() {
    let mut streaming = StreamingPayments::new();
    let accounts = default_accounts();
    let caller = accounts.alice;

    let stream_id = streaming.create_stream(caller, 0, accounts.bob, 1000, "DOT".to_string(), 3600000);

    assert_eq!(stream_id, 0);

    let stream_info = streaming.get_stream(stream_id).unwrap();
    assert_eq!(stream_info.0, accounts.alice);
    assert_eq!(stream_info.1, accounts.bob);
    assert_eq!(stream_info.2, 1000);
    assert_eq!(stream_info.3, "DOT");
    assert_eq!(stream_info.8, StreamStatus::Active);
}

#[test]
fn withdraw_works() {
    let mut streaming = StreamingPayments::new();
    let accounts = default_accounts();
    let mut caller = accounts.alice;
    let mut now = 0;

    let stream_id = streaming.create_stream(caller, now, accounts.bob, 1000, "DOT".to_string(), 3600000);

    now += BLOCK_TIME;
    let current_time = now;
    now = current_time + 1800000;

    caller = accounts.bob;

    let withdrawn = streaming.withdraw(caller, now, stream_id);
    assert_eq!(withdrawn, 500);

    let stream_info = streaming.get_stream(stream_id).unwrap();
    assert_eq!(stream_info.7, 500);
    assert_eq!(stream_info.8, StreamStatus::Active);
}

#[test]
fn cancel_stream_works() {
    let mut streaming = StreamingPayments::new();
    let accounts = default_accounts();
    let caller = accounts.alice;
    let mut now = 0;

    let stream_id = streaming.create_stream(caller, now, accounts.bob, 1000, "DOT".to_string(), 3600000);

    now += BLOCK_TIME;
    let current_time = now;
    now = current_time + 1800000;

    let (available, refunded) = streaming.cancel_stream(caller, now, stream_id);
    assert_eq!(available, 500);
    assert_eq!(refunded, 500);

    let stream_info = streaming.get_stream(stream_id).unwrap();
    assert_eq!(stream_info.8, StreamStatus::Canceled);
}

#[test]
fn stream_pays_in_proportion_to_time() {
    let mut streaming = StreamingPayments::new();
    let accounts = default_accounts();
    assert_eq!(streaming.stream_count(), 0);
    assert_eq!(streaming.get_stream(0), None);
    let id = streaming.create_stream(accounts.alice, 100, accounts.bob, 1000, "DOT".to_string(), 300);
    assert_eq!(
        streaming.get_stream(id),
        Some((accounts.alice, accounts.bob, 1000, "DOT".to_string(), 100, 400, 100, 0, StreamStatus::Active))
    );
    assert_eq!(streaming.get_available_amount(0, id), 0);
    assert_eq!(streaming.get_available_amount(100, id), 0);
    assert_eq!(streaming.get_available_amount(101, id), 3);
    assert_eq!(streaming.get_available_amount(250, id), 500);
    assert_eq!(streaming.get_available_amount(400, id), 1000);
    assert_eq!(streaming.get_available_amount(u64::MAX, id), 1000);
    assert!(streaming.is_computable(u64::MAX, id));

    assert_eq!(streaming.withdraw(accounts.bob, 250, id), 500);
    assert_eq!(streaming.get_available_amount(250, id), 0);
    assert_eq!(streaming.get_available_amount(251, id), 3);
    assert_eq!(streaming.get_available_amount(400, id), 500);
    assert_eq!(streaming.withdraw(accounts.bob, 399, id), 496);
    assert_eq!(streaming.get_stream(id).unwrap().7, 996);
    assert_eq!(streaming.get_stream(id).unwrap().6, 399);
    assert_eq!(streaming.get_available_amount(500, id), 3);
    assert_eq!(streaming.withdraw(accounts.bob, 500, id), 3);
    let info = streaming.get_stream(id).unwrap();
    assert_eq!(info.7, 1000);
    assert_eq!(info.8, StreamStatus::Completed);
    assert_eq!(streaming.get_available_amount(600, id), 0);
    assert_eq!(streaming.get_user_streams_as_sender(accounts.alice), vec![0]);
    assert_eq!(streaming.get_user_streams_as_recipient(accounts.bob), vec![0]);
    assert!(streaming.get_user_streams_as_sender(accounts.bob).is_empty());
    assert!(streaming.get_user_streams_as_recipient(accounts.alice).is_empty());
    let events = streaming.take_events();
    assert_eq!(events.len(), 5);
    assert_eq!(
        events[1],
        StreamEvent::Withdrawal(StreamWithdrawal { stream_id: 0, recipient: accounts.bob, amount: 500 })
    );
    assert_eq!(
        events[3],
        StreamEvent::Completed(StreamCompleted { stream_id: 0, recipient: accounts.bob })
    );
    assert_eq!(
        events[4],
        StreamEvent::Withdrawal(StreamWithdrawal { stream_id: 0, recipient: accounts.bob, amount: 3 })
    );
}

#[test]
fn stream_cancellation_splits_the_rest() {
    let mut streaming = StreamingPayments::new();
    let accounts = default_accounts();
    let id = streaming.create_stream(accounts.alice, 0, accounts.bob, 1000, "DOT".to_string(), 3);
    assert_eq!(streaming.withdraw(accounts.bob, 1, id), 333);
    assert_eq!(streaming.cancel_stream(accounts.bob, 2, id), (333, 334));
    let info = streaming.get_stream(id).unwrap();
    assert_eq!(info.7, 666);
    assert_eq!(info.8, StreamStatus::Canceled);
    assert_eq!(streaming.get_available_amount(3, id), 0);
    assert_eq!(
        streaming.take_events()[2],
        StreamEvent::Canceled(StreamCanceled { stream_id: 0, canceled_by: accounts.bob, refunded_amount: 334 })
    );
    let big = streaming.create_stream(accounts.alice, 0, accounts.bob, u128::MAX, "DOT".to_string(), 10);
    assert!(streaming.is_computable(1, big));
    assert!(!streaming.is_computable(2, big));
    assert!(streaming.is_computable(0, big));
    assert_eq!(streaming.cancel_stream(accounts.alice, 0, big), (0, u128::MAX));
}

#[test]
fn create_vault_works() {
    let mut vault = Vault::new();
    let accounts = default_accounts();
    let caller = accounts.alice;

    let vault_id = vault.create_vault(caller, "Test Vault".to_string(), vec![accounts.alice, accounts.bob], 1);

    assert_eq!(vault_id, 0);

    let vault_info = vault.get_vault(vault_id).unwrap();
    assert_eq!(vault_info.0, "Test Vault");
    assert_eq!(vault_info.1, vec![accounts.alice, accounts.bob]);
    assert_eq!(vault_info.2, 1);
}

#[test]
fn deposit_and_withdraw_works() {
    let mut vault = Vault::new();
    let accounts = default_accounts();
    let mut caller = accounts.alice;

    let vault_id = vault.create_vault(caller, "Test Vault".to_string(), vec![accounts.alice], 1);

    vault.deposit(caller, vault_id, "DOT".to_string(), 100);
    assert_eq!(vault.get_vault_balance(vault_id, "DOT".to_string()), 100);

    caller = accounts.alice;

    assert!(vault.can_withdraw(caller, vault_id, &"DOT".to_string(), 50));
    let result = vault.withdraw(caller, vault_id, "DOT".to_string(), 50, accounts.bob);
    assert!(result);
    assert_eq!(vault.get_vault_balance(vault_id, "DOT".to_string()), 50);
}

#[test]
fn vault_guards_its_balances() {
    let mut vault = Vault::new();
    let accounts = default_accounts();
    assert_eq!(vault.vault_count(), 0);
    assert!(vault.get_vault(0).is_none());
    assert_eq!(vault.get_vault_balance(0, "DOT".to_string()), 0);
    assert!(!vault.can_deposit(0, &"DOT".to_string(), 1));
    let first = vault.create_vault(accounts.alice, "a".to_string(), vec![accounts.bob], 1);
    let second = vault.create_vault(accounts.alice, "b".to_string(), vec![accounts.alice, accounts.bob], 2);
    assert_eq!(vault.get_vault(second).unwrap().3, accounts.alice);
    assert_eq!(vault.get_user_vaults(accounts.alice), vec![0, 1]);
    assert!(vault.get_user_vaults(accounts.bob).is_empty());
    vault.deposit(accounts.charlie, first, "DOT".to_string(), 10);
    vault.deposit(accounts.charlie, first, "KSM".to_string(), 20);
    vault.deposit(accounts.charlie, first, "DOT".to_string(), 5);
    vault.deposit(accounts.charlie, second, "DOT".to_string(), u128::MAX);
    assert_eq!(vault.get_vault_balance(first, "DOT".to_string()), 15);
    assert_eq!(vault.get_vault_balance(first, "KSM".to_string()), 20);
    assert_eq!(vault.get_vault_balance(first, "USDT".to_string()), 0);
    assert_eq!(vault.get_vault_balance(second, "DOT".to_string()), u128::MAX);
    assert!(!vault.can_deposit(second, &"DOT".to_string(), 1));
    assert!(vault.can_deposit(second, &"DOT".to_string(), 0));
    assert!(vault.can_deposit(second, &"KSM".to_string(), u128::MAX));
    assert!(!vault.can_withdraw(accounts.alice, first, &"DOT".to_string(), 1));
    assert!(!vault.can_withdraw(accounts.bob, first, &"DOT".to_string(), 16));
    assert!(!vault.can_withdraw(accounts.bob, 7, &"DOT".to_string(), 0));
    assert!(vault.can_withdraw(accounts.bob, first, &"USDT".to_string(), 0));
    assert!(vault.can_withdraw(accounts.bob, first, &"DOT".to_string(), 15));
    assert!(vault.withdraw(accounts.bob, first, "DOT".to_string(), 15, accounts.charlie));
    assert_eq!(vault.get_vault_balance(first, "DOT".to_string()), 0);
    assert_eq!(vault.get_vault_balance(first, "KSM".to_string()), 20);
    let events = vault.take_events();
    assert_eq!(events.len(), 7);
    assert_eq!(
        events[2],
        VaultEvent::Deposit(Deposit { vault_id: 0, from: accounts.charlie, token: "DOT".to_string(), amount: 10 })
    );
    assert_eq!(
        events[6],
        VaultEvent::Withdrawal(Withdrawal { vault_id: 0, to: accounts.charlie, token: "DOT".to_string(), amount: 15 })
    );
    assert!(lists_account(&vec![accounts.alice, accounts.bob], &accounts.bob));
    assert!(!lists_account(&vec![accounts.alice, accounts.bob], &accounts.charlie));
    assert!(!lists_account(&vec![], &accounts.charlie));
    assert_eq!(copy_accounts(&vec![accounts.bob, accounts.alice]), vec![accounts.bob, accounts.alice]);
}
