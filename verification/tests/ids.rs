use dns_proxy::ids::{IdTable, ID_SPACE};

#[test]
fn new_table_is_empty() {
    let table: IdTable<u16> = IdTable::new();
    assert_eq!(table.len(), 0);
    assert!(!table.is_full());
    assert!(!table.contains(0));
    assert_eq!(table.first_free(), Some(0));
}

#[test]
fn claim_takes_a_free_id() {
    let mut table: IdTable<u16> = IdTable::new();
    assert_eq!(table.claim(7, 0x1234), Ok(()));
    assert!(table.contains(7));
    assert_eq!(table.get(7), Some(&0x1234));
    assert_eq!(table.len(), 1);
}

#[test]
fn claim_never_overwrites() {
    let mut table: IdTable<u16> = IdTable::new();
    assert_eq!(table.claim(7, 1), Ok(()));
    assert_eq!(table.claim(7, 2), Err(2));
    assert_eq!(table.get(7), Some(&1));
    assert_eq!(table.len(), 1);
}

#[test]
fn first_free_is_the_lowest_free_id() {
    let mut table: IdTable<u8> = IdTable::new();
    assert_eq!(table.claim(0, 0), Ok(()));
    assert_eq!(table.claim(1, 0), Ok(()));
    assert_eq!(table.claim(3, 0), Ok(()));
    assert_eq!(table.first_free(), Some(2));
}

#[test]
fn assign_hands_out_a_free_id() {
    let mut table: IdTable<u16> = IdTable::new();
    let id = table.assign(0xBEEF).expect("a free id");
    assert_eq!(table.get(id), Some(&0xBEEF));
    assert_eq!(table.len(), 1);
}

#[test]
fn assign_hands_out_distinct_ids() {
    let mut table: IdTable<usize> = IdTable::new();
    let mut ids = Vec::new();
    for n in 0..1000usize {
        ids.push(table.assign(n).expect("a free id"));
    }
    assert_eq!(table.len(), 1000);
    for (n, id) in ids.iter().enumerate() {
        assert_eq!(table.get(*id), Some(&n));
    }
}

#[test]
fn assign_fills_the_whole_id_space_and_then_fails() {
    let mut table: IdTable<u32> = IdTable::new();
    for n in 0..65536u32 {
        let id = table.assign(n).expect("a free id while the table is not full");
        assert_eq!(table.get(id), Some(&n));
    }
    assert_eq!(table.len(), ID_SPACE);
    assert!(table.is_full());
    assert_eq!(table.first_free(), None);
    assert_eq!(table.assign(99), Err(99));
    assert_eq!(table.claim(5, 99), Err(99));
    assert_eq!(table.len(), ID_SPACE);
}

#[test]
fn remove_takes_the_entry_out() {
    let mut table: IdTable<u16> = IdTable::new();
    assert_eq!(table.claim(9, 42), Ok(()));
    assert_eq!(table.remove(9), Some(42));
    assert_eq!(table.remove(9), None);
    assert!(!table.contains(9));
    assert_eq!(table.len(), 0);
}

#[test]
fn clear_forgets_everything() {
    let mut table: IdTable<u16> = IdTable::new();
    assert_eq!(table.claim(1, 1), Ok(()));
    assert_eq!(table.claim(2, 2), Ok(()));
    table.clear();
    assert_eq!(table.len(), 0);
    assert_eq!(table.get(1), None);
}
