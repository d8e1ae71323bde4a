use even_host::word::U256;

fn word(n: u8) -> U256 {
    let mut be = [0u8; 32];
    be[31] = n;
    U256::from_be_bytes(be)
}

#[test]
fn short_slice_is_padded_on_the_left() {
    assert_eq!(U256::try_from_be_slice(&[4]), Some(word(4)));
    let w = U256::try_from_be_slice(&[0x01, 0x02]).unwrap();
    let mut expected = [0u8; 32];
    expected[30] = 1;
    expected[31] = 2;
    assert_eq!(w.to_be_bytes(), expected);
}

#[test]
fn empty_slice_is_zero() {
    assert_eq!(U256::try_from_be_slice(&[]), Some(word(0)));
}

#[test]
fn full_slice_round_trips() {
    let mut bytes = [0u8; 32];
    for (i, b) in bytes.iter_mut().enumerate() {
        *b = (i as u8) * 7 + 1;
    }
    let w = U256::try_from_be_slice(&bytes).unwrap();
    assert_eq!(w.to_be_bytes(), bytes);
    let outside = alloy_primitives::U256::from_be_slice(&bytes);
    assert_eq!(w.to_be_bytes(), outside.to_be_bytes::<32>());
}

#[test]
fn leading_zeros_do_not_count() {
    let mut bytes = vec![0u8; 40];
    bytes[39] = 9;
    bytes[8] = 0xff;
    let w = U256::try_from_be_slice(&bytes).unwrap();
    let mut expected = [0u8; 32];
    expected[31] = 9;
    expected[0] = 0xff;
    assert_eq!(w.to_be_bytes(), expected);
}

#[test]
fn more_than_256_bits_is_refused() {
    let mut bytes = vec![0u8; 33];
    bytes[0] = 1;
    assert_eq!(U256::try_from_be_slice(&bytes), None);
    let mut longer = vec![0u8; 50];
    longer[10] = 1;
    assert_eq!(U256::try_from_be_slice(&longer), None);
}

#[test]
fn same_compares_numbers() {
    assert!(word(5).same(&word(5)));
    assert!(!word(5).same(&word(4)));
    let mut high = [0u8; 32];
    high[0] = 5;
    assert!(!word(5).same(&U256::from_be_bytes(high)));
}
