use nexor::account::{bytes_equal, AccountId, Address};
use nexor::contracts::index::{copy_ids, IdIndex};
use nexor::key_registry::KeyRegistry;
use nexor::table::{bytes_copy, bytes_same, Table, TableKey};

#[test]
fn identifiers_compare_by_their_bytes() {
    let a = AccountId::new([1u8; 32]);
    let mut bytes = [1u8; 32];
    assert!(a.same(&AccountId::new(bytes)));
    bytes[31] = 2;
    assert!(!a.same(&AccountId::new(bytes)));
    let x = Address::new([0u8; 20]);
    let mut other = [0u8; 20];
    assert!(x.same(&Address::new(other)));
    other[0] = 1;
    assert!(!x.same(&Address::new(other)));
    assert!(bytes_equal(&[1u8, 2, 3], &[1u8, 2, 3]));
    assert!(!bytes_equal(&[1u8, 2, 3], &[1u8, 2, 4]));
    assert!(bytes_equal::<0>(&[], &[]));
    assert!(TableKey::same(&a, &a.duplicate()));
}

#[test]
fn byte_vectors_compare_and_copy() {
    assert!(bytes_same(&vec![], &vec![]));
    assert!(bytes_same(&vec![1, 2], &vec![1, 2]));
    assert!(!bytes_same(&vec![1, 2], &vec![1, 2, 3]));
    assert!(!bytes_same(&vec![1, 2], &vec![2, 1]));
    assert_eq!(bytes_copy(&vec![9, 8, 7]), vec![9, 8, 7]);
    assert_eq!(copy_ids(&vec![3, 1, 2]), vec![3, 1, 2]);
}

#[test]
fn table_keeps_one_value_per_key_in_insertion_order() {
    let mut table: Table<String, u128> = Table::new();
    assert_eq!(table.len(), 0);
    assert_eq!(table.lookup(&"a".to_string()), None);
    table.insert("a".to_string(), 1);
    table.insert("b".to_string(), 2);
    table.insert("a".to_string(), 3);
    assert_eq!(table.len(), 2);
    assert_eq!(table.lookup(&"a".to_string()), Some(&3));
    assert_eq!(table.lookup(&"b".to_string()), Some(&2));
    assert_eq!(table.position(&"b".to_string()), Some(1));
    assert_eq!(table.position(&"c".to_string()), None);
    assert!(table.contains_key(&"a".to_string()));
    assert!(!table.contains_key(&"".to_string()));
    assert_eq!(table.key_at(0), "a");
    assert_eq!(*table.value_at(1), 2);
    *table.value_at_mut(1) = 20;
    assert_eq!(table.lookup(&"b".to_string()), Some(&20));
}

#[test]
fn index_lists_identifiers_per_account() {
    let alice = AccountId::new([1u8; 32]);
    let bob = AccountId::new([2u8; 32]);
    let mut index = IdIndex::new();
    assert!(index.listed(alice).is_empty());
    index.add(alice, 0);
    index.add(bob, 0);
    index.add(alice, 4);
    index.add(alice, 4);
    assert_eq!(index.listed(alice), vec![0, 4, 4]);
    assert_eq!(index.listed(bob), vec![0]);
}

#[test]
fn tag_stays_with_its_first_taker() {
    let alice = Address::new([1u8; 20]);
    let bob = Address::new([2u8; 20]);
    let mut registry = KeyRegistry::new();
    assert_eq!(registry.lookup_address("alice".to_string()), None);
    assert!(registry.register_tag(alice, "alice".to_string()));
    assert!(!registry.register_tag(bob, "alice".to_string()));
    assert!(!registry.register_tag(alice, "alice".to_string()));
    assert_eq!(registry.lookup_address("alice".to_string()), Some(alice));
    assert!(registry.register_tag(alice, "al".to_string()));
    assert!(registry.register_tag(bob, "".to_string()));
    assert_eq!(registry.lookup_address("".to_string()), Some(bob));
    assert_eq!(registry.lookup_address("al".to_string()), Some(alice));
    assert_eq!(registry.lookup_address("bob".to_string()), None);
    let same = KeyRegistry::default();
    assert_eq!(same.lookup_address("alice".to_string()), None);
}
