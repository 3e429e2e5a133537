use amm_core::Address;

#[test]
fn addresses_compare_by_their_bytes() {
    let a = Address::new_from_array([7; 32]);
    let b = Address::new_from_array([7; 32]);
    let mut bytes = [7u8; 32];
    bytes[31] = 8;
    let c = Address::new_from_array(bytes);
    bytes[31] = 7;
    bytes[0] = 8;
    let d = Address::new_from_array(bytes);
    assert!(a == b);
    assert!(a != c);
    assert!(a != d);
    assert!(c != d);
}

#[test]
fn default_address_is_all_zero() {
    assert_eq!(Address::default().to_bytes(), [0u8; 32]);
    assert!(Address::default() == Address::new_from_array([0; 32]));
}

#[test]
fn address_bytes_come_back() {
    let mut bytes = [0u8; 32];
    for (i, byte) in bytes.iter_mut().enumerate() {
        *byte = i as u8;
    }
    let address = Address::new_from_array(bytes);
    assert_eq!(address.to_bytes(), bytes);
    assert_eq!(address.to_vec(), bytes.to_vec());
}
