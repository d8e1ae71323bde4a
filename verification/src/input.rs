//! The input of the guest program as the proving service takes it.

use vstd::prelude::*;
use crate::word::{be_bytes, push_word, U256};

verus! {

/// The bytes that carry the input to the guest: the length of a 256-bit
/// integer, 32, as a little-endian word of four bytes, then the integer's 32
/// big-endian bytes. The guest reads a byte string of that length back.
pub open spec fn input_encoding(x: nat) -> Seq<u8> {
    seq![32u8, 0u8, 0u8, 0u8] + be_bytes(x, 32)
}

/// Encodes the input for upload.
pub fn encode_input(x: &U256) -> (r: Vec<u8>)
    ensures
        r@ == input_encoding(x@),
{
    let mut out: Vec<u8> = Vec::new();
    out.push(32u8);
    out.push(0u8);
    out.push(0u8);
    out.push(0u8);
    assert(out@ =~= seq![32u8, 0u8, 0u8, 0u8]);
    push_word(&mut out, x);
    out
}

} // verus!
