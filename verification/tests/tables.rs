use token_balance::table::{Key, Table};
use token_balance::AccountId;

fn id(tag: u8) -> AccountId {
    AccountId::from_bytes([tag; 32])
}

#[test]
fn identities_are_equal_when_their_bytes_are() {
    let mut bytes = [7u8; 32];
    let a = AccountId::from_bytes(bytes);
    let b = AccountId::from_bytes([7u8; 32]);
    assert!(a.same(&b));
    assert_eq!(a, b);
    bytes[31] = 8;
    let c = AccountId::from_bytes(bytes);
    assert!(!a.same(&c));
    assert_ne!(a, c);
    bytes[31] = 7;
    bytes[0] = 0;
    let e = AccountId::from_bytes(bytes);
    assert!(!a.same(&e));
}

#[test]
fn identity_gives_back_its_bytes() {
    let mut bytes = [0u8; 32];
    bytes[3] = 200;
    bytes[30] = 1;
    assert_eq!(AccountId::from_bytes(bytes).to_bytes(), bytes);
}

#[test]
fn pairs_are_equal_when_both_parts_are() {
    assert!((id(1), id(2)).same_key(&(id(1), id(2))));
    assert!(!(id(1), id(2)).same_key(&(id(2), id(1))));
    assert!(!(id(1), id(2)).same_key(&(id(1), id(3))));
    assert!(!(id(1), id(2)).same_key(&(id(3), id(2))));
    assert!(id(4).same_key(&id(4)));
    assert!(!id(4).same_key(&id(5)));
}

#[test]
fn empty_table_reads_zero() {
    let table: Table<AccountId> = Table::new();
    assert_eq!(table.get(&id(1)), 0);
}

#[test]
fn table_keeps_the_last_amount_written_under_a_key() {
    let mut table: Table<AccountId> = Table::new();
    table.insert(id(1), 10);
    table.insert(id(2), 20);
    table.insert(id(3), 30);
    assert_eq!(table.get(&id(1)), 10);
    assert_eq!(table.get(&id(2)), 20);
    assert_eq!(table.get(&id(3)), 30);
    table.insert(id(2), 21);
    assert_eq!(table.get(&id(1)), 10);
    assert_eq!(table.get(&id(2)), 21);
    assert_eq!(table.get(&id(3)), 30);
    table.insert(id(1), 0);
    assert_eq!(table.get(&id(1)), 0);
    assert_eq!(table.get(&id(4)), 0);
}

#[test]
fn table_keyed_by_pairs_tells_the_order_of_the_pair() {
    let mut table: Table<(AccountId, AccountId)> = Table::new();
    table.insert((id(1), id(2)), 5);
    assert_eq!(table.get(&(id(1), id(2))), 5);
    assert_eq!(table.get(&(id(2), id(1))), 0);
    table.insert((id(2), id(1)), u128::MAX);
    assert_eq!(table.get(&(id(1), id(2))), 5);
    assert_eq!(table.get(&(id(2), id(1))), u128::MAX);
}
