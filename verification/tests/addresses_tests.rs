use confidential_token::addresses::Address;

#[test]
fn exactly_thirty_two_bytes_make_an_address() {
    assert!(Address::from_bytes(vec![1u8; 32]).is_some());
    assert!(Address::from_bytes(vec![1u8; 31]).is_none());
    assert!(Address::from_bytes(vec![1u8; 33]).is_none());
    assert!(Address::from_bytes(Vec::new()).is_none());
}

#[test]
fn an_address_keeps_its_bytes() {
    let bytes: Vec<u8> = (0u8..32).collect();
    let address = Address::from_bytes(bytes.clone()).unwrap();
    assert_eq!(address.as_bytes(), &bytes);
    let copy = address.clone();
    assert_eq!(copy.as_bytes(), &bytes);
}
