use dns_proxy::wire::{set_transaction_id, transaction_id};

#[test]
fn transaction_id_is_big_endian() {
    assert_eq!(transaction_id(&[0x12, 0x34, 0x00]), Some(0x1234));
}

#[test]
fn transaction_id_needs_two_octets() {
    assert_eq!(transaction_id(&[0x12]), None);
    assert_eq!(transaction_id(&[]), None);
}

#[test]
fn set_transaction_id_touches_two_octets() {
    let mut msg = vec![0u8, 0, 7, 8, 9];
    set_transaction_id(&mut msg, 0xBEEF);
    assert_eq!(msg, vec![0xBE, 0xEF, 7, 8, 9]);
}
