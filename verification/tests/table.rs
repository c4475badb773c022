use mercury_escrow::address::Address;
use mercury_escrow::table::Table;

fn slot(n: u8) -> Address {
    Address::new([n; 32])
}

#[test]
fn table_starts_empty() {
    let t: Table<u64> = Table::new();
    assert!(!t.contains(&slot(1)));
    assert_eq!(t.get(&slot(1)), None);
}

#[test]
fn table_put_files_and_replaces() {
    let mut t: Table<u64> = Table::new();
    t.put(slot(1), 10);
    t.put(slot(2), 20);
    assert_eq!(t.get(&slot(1)), Some(10));
    assert_eq!(t.get(&slot(2)), Some(20));
    t.put(slot(1), 11);
    assert_eq!(t.get(&slot(1)), Some(11));
    assert_eq!(t.get(&slot(2)), Some(20));
    assert!(t.contains(&slot(2)));
    assert!(!t.contains(&slot(3)));
}

#[test]
fn table_remove_takes_only_the_key() {
    let mut t: Table<u64> = Table::new();
    t.put(slot(1), 10);
    t.put(slot(2), 20);
    t.put(slot(3), 30);
    t.remove(&slot(2));
    assert_eq!(t.get(&slot(1)), Some(10));
    assert_eq!(t.get(&slot(2)), None);
    assert_eq!(t.get(&slot(3)), Some(30));
    t.remove(&slot(2));
    assert_eq!(t.get(&slot(1)), Some(10));
    t.put(slot(2), 21);
    assert_eq!(t.get(&slot(2)), Some(21));
}

#[test]
fn table_duplicate_is_independent() {
    let mut t: Table<u64> = Table::new();
    t.put(slot(1), 10);
    let mut copy = t.duplicate();
    copy.put(slot(1), 99);
    copy.put(slot(2), 20);
    assert_eq!(t.get(&slot(1)), Some(10));
    assert_eq!(t.get(&slot(2)), None);
    assert_eq!(copy.get(&slot(1)), Some(99));
}
