use even_host::input::encode_input;
use even_host::word::U256;

#[test]
fn input_is_length_word_then_big_endian_bytes() {
    let mut be = [0u8; 32];
    be[31] = 4;
    let bytes = encode_input(&U256::from_be_bytes(be));
    let mut expected = vec![32u8, 0, 0, 0];
    expected.extend_from_slice(&be);
    assert_eq!(bytes, expected);
}

#[test]
fn input_agrees_with_the_zkvm_serializer() {
    let mut be = [0u8; 32];
    for (i, b) in be.iter_mut().enumerate() {
        *b = 0xf0 - i as u8;
    }
    let number = alloy_primitives::U256::from_be_bytes(be);
    let words = risc0_zkvm::serde::to_vec(&number).unwrap();
    let outside: Vec<u8> = words.iter().flat_map(|w| w.to_le_bytes()).collect();
    assert_eq!(encode_input(&U256::from_be_bytes(be)), outside);
    if 1u32.to_ne_bytes() == 1u32.to_le_bytes() {
        let cast: &[u8] = bytemuck::cast_slice(&words);
        assert_eq!(encode_input(&U256::from_be_bytes(be)), cast.to_vec());
    }
}
