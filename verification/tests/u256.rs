use standalone_wbnb_handler_bench::u256::U256;

#[test]
fn be_bytes_of_limbs() {
    let v = U256 { limbs: [0x0102030405060708, 0x2122232425262728, 0x3132333435363738, 0x4142434445464748] };
    let bytes = v.to_be_bytes();
    let expected: Vec<u8> = vec![
        0x41, 0x42, 0x43, 0x44, 0x45, 0x46, 0x47, 0x48, 0x31, 0x32, 0x33, 0x34, 0x35, 0x36, 0x37,
        0x38, 0x21, 0x22, 0x23, 0x24, 0x25, 0x26, 0x27, 0x28, 0x01, 0x02, 0x03, 0x04, 0x05, 0x06,
        0x07, 0x08,
    ];
    assert_eq!(bytes.to_vec(), expected);
}

#[test]
fn from_be_slice_reads_back_to_be_bytes() {
    let v = U256 { limbs: [1, 2, 3, 4] };
    assert_eq!(U256::from_be_slice(&v.to_be_bytes()).limbs, [1, 2, 3, 4]);
}

#[test]
fn from_u64_and_zero() {
    assert_eq!(U256::from_u64(5).limbs, [5, 0, 0, 0]);
    assert_eq!(U256::zero().limbs, [0, 0, 0, 0]);
    let mut expected = [0u8; 32];
    expected[31] = 5;
    assert_eq!(U256::from_u64(5).to_be_bytes(), expected);
}

#[test]
fn multiplication_carries_into_the_next_limb() {
    let a = U256::from_u64(u64::MAX);
    let r = a.wrapping_mul(&a);
    assert_eq!(r.limbs, [1, 0xffff_ffff_ffff_fffe, 0, 0]);
}

#[test]
fn multiplication_wraps_at_two_to_the_256() {
    let half = U256 { limbs: [0, 0, 0, 1 << 63] };
    assert_eq!(half.wrapping_mul(&U256::from_u64(2)).limbs, [0, 0, 0, 0]);
    assert_eq!(half.wrapping_mul(&U256::from_u64(3)).limbs, [0, 0, 0, 1 << 63]);
}

#[test]
fn small_product() {
    assert_eq!(U256::from_u64(1).wrapping_mul(&U256::from_u64(5100)).limbs, [5100, 0, 0, 0]);
}
