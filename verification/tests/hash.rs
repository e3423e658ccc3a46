use standalone_wbnb_handler_bench::hash::ContractCode;

#[test]
fn hash_of_empty_code() {
    let c = ContractCode::new(Vec::new());
    assert!(c.code.is_empty());
    assert_eq!(
        c.hash,
        [
            0xc5, 0xd2, 0x46, 0x01, 0x86, 0xf7, 0x23, 0x3c, 0x92, 0x7e, 0x7d, 0xb2, 0xdc, 0xc7,
            0x03, 0xc0, 0xe5, 0x00, 0xb6, 0x53, 0xca, 0x82, 0x27, 0x3b, 0x7b, 0xfa, 0xd8, 0x04,
            0x5d, 0x85, 0xa4, 0x70,
        ]
    );
}

#[test]
fn selectors_are_signature_hash_prefixes() {
    let transfer = ContractCode::new(b"transfer(address,uint256)".to_vec());
    assert_eq!(&transfer.hash[0..4], &[0xa9, 0x05, 0x9c, 0xbb]);
    let deposit = ContractCode::new(b"deposit()".to_vec());
    assert_eq!(&deposit.hash[0..4], &[0xd0, 0xe3, 0x0d, 0xb0]);
    let balance_of = ContractCode::new(b"balanceOf(address)".to_vec());
    assert_eq!(&balance_of.hash[0..4], &[0x70, 0xa0, 0x82, 0x31]);
    assert_eq!(balance_of.code, b"balanceOf(address)".to_vec());
}
