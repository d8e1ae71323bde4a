//! The call data of `set(uint256 x, bytes seal, bytes32 post_state_digest)`.

use vstd::prelude::*;
use crate::seal::{seal_encoding, Seal, SealView};
use crate::word::{
    be_bytes, be_value, lemma_be_bytes_len, lemma_be_value_of_be_bytes, lemma_pow256_monotonic, pow256,
    push_be, push_word, word_limit, U256,
};

verus! {

/// The first four bytes of the Keccak-256 hash of
/// `set(uint256,bytes,bytes32)`, by which the contract finds the function.
pub const SET_SELECTOR: [u8; 4] = [0x6c, 0x1b, 0x1c, 0x25];

/// The number of zero bytes that fill `len` bytes up to a multiple of 32.
pub open spec fn padding(len: nat) -> nat {
    ((32 - len % 32) % 32) as nat
}

/// `n` zero bytes.
pub open spec fn zeros(n: nat) -> Seq<u8> {
    Seq::new(n, |i: int| 0u8)
}

/// The call data of `set`: the selector, then the ABI encoding of the three
/// arguments. The head holds `x`, the offset of the seal from the start of
/// the head (three words, 96 bytes) and the digest; the tail holds the
/// seal's length and its bytes, filled up with zeros to whole words.
pub open spec fn set_calldata(x: nat, seal: Seq<u8>, digest: Seq<u8>) -> Seq<u8> {
    SET_SELECTOR@ + be_bytes(x, 32) + be_bytes(96, 32) + digest + be_bytes(seal.len(), 32) + seal
        + zeros(padding(seal.len()))
}

/// Appends all of `bytes`.
fn push_all(out: &mut Vec<u8>, bytes: &[u8])
    ensures
        final(out)@ == old(out)@ + bytes@,
{
    let n: usize = bytes.len();
    let mut i: usize = 0;
    while i < n
        invariant
            i <= n,
            n == bytes@.len(),
            out@ == old(out)@ + bytes@.take(i as int),
        decreases n - i,
    {
        out.push(bytes[i]);
        assert(bytes@.take(i + 1) =~= bytes@.take(i as int).push(bytes@[i as int]));
        i += 1;
    }
    assert(bytes@.take(n as int) =~= bytes@);
}

/// Appends `n` zero bytes.
fn push_zeros(out: &mut Vec<u8>, n: usize)
    ensures
        final(out)@ == old(out)@ + zeros(n as nat),
{
    let mut i: usize = 0;
    while i < n
        invariant
            i <= n,
            out@ == old(out)@ + zeros(i as nat),
        decreases n - i,
    {
        out.push(0u8);
        assert(zeros((i + 1) as nat) =~= zeros(i as nat).push(0u8));
        i += 1;
    }
}

/// Builds the call data that stores `x` with its proof: `seal` is the encoded
/// seal and `post_state_digest` the digest that the proof was made for.
pub fn set(x: U256, seal: Vec<u8>, post_state_digest: [u8; 32]) -> (calldata: Vec<u8>)
    ensures
        calldata@ == set_calldata(x@, seal@, post_state_digest@),
{
    let mut out: Vec<u8> = Vec::new();
    push_all(&mut out, SET_SELECTOR.as_slice());
    push_word(&mut out, &x);
    push_be(&mut out, 96, 32);
    push_all(&mut out, post_state_digest.as_slice());
    push_be(&mut out, seal.len(), 32);
    push_all(&mut out, seal.as_slice());
    let rest: usize = seal.len() % 32;
    if rest != 0 {
        push_zeros(&mut out, 32 - rest);
    } else {
        assert(zeros(0) =~= Seq::<u8>::empty());
    }
    assert(out@ =~= set_calldata(x@, seal@, post_state_digest@));
    out
}

/// The call data that submits a proof: `set` with the input, the ABI
/// encoding of the transcoded seal, and the digest.
pub open spec fn submission_calldata(input: nat, seal: SealView, digest: Seq<u8>) -> Seq<u8> {
    set_calldata(input, seal_encoding(seal), digest)
}

/// Encodes the call that submits `public_input` with its proof.
pub fn encode(public_input: U256, seal: &Seal, post_state_digest: [u8; 32]) -> (calldata: Vec<u8>)
    ensures
        calldata@ == submission_calldata(public_input@, seal@, post_state_digest@),
{
    set(public_input, seal.to_abi_bytes(), post_state_digest)
}

/// Call data has the selector, four words for the head and the seal's
/// length, and the seal filled up to whole words.
pub proof fn lemma_set_calldata_len(x: nat, seal: Seq<u8>, digest: Seq<u8>)
    requires
        digest.len() == 32,
    ensures
        set_calldata(x, seal, digest).len() == 4 + 4 * 32 + seal.len() + padding(seal.len()),
        (seal.len() + padding(seal.len())) % 32 == 0,
        set_calldata(x, seal, digest).subrange(0, 4) == SET_SELECTOR@,
{
    lemma_be_bytes_len(x, 32);
    lemma_be_bytes_len(96, 32);
    lemma_be_bytes_len(seal.len(), 32);
    assert(set_calldata(x, seal, digest).subrange(0, 4) =~= SET_SELECTOR@);
}

/// The first word after the selector denotes the input, and the second the
/// place of the seal: the call data carries the number that was asked for.
pub proof fn lemma_calldata_carries_input(x: nat, seal: Seq<u8>, digest: Seq<u8>)
    requires
        x < word_limit(),
    ensures
        be_value(set_calldata(x, seal, digest).subrange(4, 36)) == x,
        be_value(set_calldata(x, seal, digest).subrange(36, 68)) == 96,
{
    lemma_be_bytes_len(x, 32);
    lemma_be_bytes_len(96, 32);
    assert(set_calldata(x, seal, digest).subrange(4, 36) =~= be_bytes(x, 32));
    assert(set_calldata(x, seal, digest).subrange(36, 68) =~= be_bytes(96, 32));
    lemma_be_value_of_be_bytes(x, 32);
    lemma_pow256_monotonic(1, 32);
    assert(pow256(1) == 256) by {
        assert(pow256(0) == 1);
    }
    lemma_be_value_of_be_bytes(96, 32);
}

/// Encoding is a function of its three arguments: two payloads made of the
/// same input, seal and digest are the same bytes.
pub proof fn lemma_encoding_is_deterministic(
    first: Seq<u8>,
    second: Seq<u8>,
    x: nat,
    seal: Seq<u8>,
    digest: Seq<u8>,
)
    requires
        first == set_calldata(x, seal, digest),
        second == set_calldata(x, seal, digest),
    ensures
        first == second,
{
}

} // verus!
