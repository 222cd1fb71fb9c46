use anchor_nft_staking::state::{Account, Key};
use anchor_nft_staking::table::Table;

fn key(n: u8) -> Key {
    Key { bytes: [n; 32] }
}

fn account(n: u8, data: u32) -> Account<u32> {
    Account { key: key(n), data }
}

#[test]
fn empty_table_holds_nothing() {
    let table: Table<u32> = Table::new();
    assert_eq!(table.len(), 0);
    assert_eq!(table.get(&key(1)), None);
    assert!(!table.contains(&key(1)));
}

#[test]
fn put_then_get() {
    let mut table: Table<u32> = Table::new();
    table.put(key(1), account(11, 100));
    table.put(key(2), account(12, 200));
    assert_eq!(table.len(), 2);
    assert_eq!(table.get(&key(1)), Some(account(11, 100)));
    assert_eq!(table.get(&key(2)), Some(account(12, 200)));
    assert_eq!(table.get(&key(3)), None);
    assert!(table.contains(&key(2)));
}

#[test]
fn put_replaces_the_account_of_an_identity() {
    let mut table: Table<u32> = Table::new();
    table.put(key(1), account(11, 100));
    table.put(key(2), account(12, 200));
    table.put(key(1), account(13, 300));
    assert_eq!(table.len(), 2);
    assert_eq!(table.get(&key(1)), Some(account(13, 300)));
    assert_eq!(table.get(&key(2)), Some(account(12, 200)));
}

#[test]
fn remove_takes_only_the_named_account() {
    let mut table: Table<u32> = Table::new();
    for n in 1..=5u8 {
        table.put(key(n), account(10 + n, n as u32));
    }
    table.remove(&key(3));
    assert_eq!(table.len(), 4);
    assert_eq!(table.get(&key(3)), None);
    for n in [1u8, 2, 4, 5] {
        assert_eq!(table.get(&key(n)), Some(account(10 + n, n as u32)));
    }
    table.remove(&key(3));
    table.remove(&key(9));
    assert_eq!(table.len(), 4);
    table.remove(&key(1));
    table.remove(&key(5));
    assert_eq!(table.len(), 2);
    assert_eq!(table.get(&key(2)), Some(account(12, 2)));
    assert_eq!(table.get(&key(4)), Some(account(14, 4)));
}

#[test]
fn identities_that_differ_in_one_byte_are_kept_apart() {
    let mut a = key(0);
    let mut b = key(0);
    a.bytes[31] = 1;
    b.bytes[0] = 1;
    let mut table: Table<u32> = Table::new();
    table.put(key(0), account(1, 1));
    table.put(a, account(2, 2));
    table.put(b, account(3, 3));
    assert_eq!(table.len(), 3);
    assert_eq!(table.get(&key(0)).unwrap().data, 1);
    assert_eq!(table.get(&a).unwrap().data, 2);
    assert_eq!(table.get(&b).unwrap().data, 3);
}
