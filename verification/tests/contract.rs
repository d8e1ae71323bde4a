use alloy_sol_types::SolValue;
use even_host::contract::{encode, SET_SELECTOR};
use even_host::seal::{Groth16Seal, Seal};
use even_host::word::U256;

fn word(n: u8) -> U256 {
    let mut be = [0u8; 32];
    be[31] = n;
    U256::from_be_bytes(be)
}

fn digest() -> [u8; 32] {
    let mut d = [0u8; 32];
    d[31] = 0x20;
    d
}

fn outside_calldata(x: u64, seal: &[u8], digest: [u8; 32]) -> Vec<u8> {
    let selector = alloy_primitives::keccak256(b"set(uint256,bytes,bytes32)");
    let mut out = selector[..4].to_vec();
    let params = (
        alloy_primitives::U256::from(x),
        seal.to_vec(),
        alloy_primitives::FixedBytes::<32>::from(digest),
    );
    out.extend_from_slice(&params.abi_encode_params());
    out
}

#[test]
fn selector_is_the_hash_of_the_signature() {
    let hash = alloy_primitives::keccak256(b"set(uint256,bytes,bytes32)");
    assert_eq!(&SET_SELECTOR[..], &hash[..4]);
    assert_eq!(SET_SELECTOR, [0x6c, 0x1b, 0x1c, 0x25]);
}

#[test]
fn exact_layout_of_a_short_seal() {
    let calldata = even_host::contract::set(word(4), vec![0xaa, 0xbb, 0xcc], digest());
    let mut expected = vec![0x6c, 0x1b, 0x1c, 0x25];
    let mut x = [0u8; 32];
    x[31] = 4;
    expected.extend_from_slice(&x);
    let mut offset = [0u8; 32];
    offset[31] = 0x60;
    expected.extend_from_slice(&offset);
    expected.extend_from_slice(&digest());
    let mut len = [0u8; 32];
    len[31] = 3;
    expected.extend_from_slice(&len);
    let mut tail = [0u8; 32];
    tail[0] = 0xaa;
    tail[1] = 0xbb;
    tail[2] = 0xcc;
    expected.extend_from_slice(&tail);
    assert_eq!(calldata, expected);
}

#[test]
fn agrees_with_the_abi_encoder() {
    for len in [0usize, 1, 31, 32, 33, 64, 256, 300] {
        let seal: Vec<u8> = (0..len).map(|i| (i * 3 + 1) as u8).collect();
        assert_eq!(even_host::contract::set(word(4), seal.clone(), digest()), outside_calldata(4, &seal, digest()));
    }
}

#[test]
fn empty_seal_has_no_padding() {
    let calldata = even_host::contract::set(word(0), vec![], digest());
    assert_eq!(calldata.len(), 4 + 4 * 32);
}

#[test]
fn encoding_twice_gives_the_same_bytes() {
    let seal = vec![7u8; 100];
    assert_eq!(even_host::contract::set(word(9), seal.clone(), digest()), even_host::contract::set(word(9), seal, digest()));
}

#[test]
fn encode_wraps_the_encoded_seal() {
    let seal = Seal::try_from(Groth16Seal {
        a: vec![vec![1], vec![2]],
        b: vec![vec![vec![3], vec![4]], vec![vec![5], vec![6]]],
        c: vec![vec![7], vec![8]],
    })
    .unwrap();
    let calldata = encode(word(4), &seal, digest());
    assert_eq!(calldata, even_host::contract::set(word(4), seal.to_abi_bytes(), digest()));
    assert_eq!(calldata, outside_calldata(4, &seal.to_abi_bytes(), digest()));
    assert_eq!(calldata.len(), 4 + 4 * 32 + 256);
    assert_eq!(&calldata[..4], &SET_SELECTOR[..]);
}
