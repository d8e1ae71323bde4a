//! Big-endian byte strings and the 256-bit unsigned integers they denote.
//!
//! Every contract of this crate that speaks of an integer speaks of a `nat`;
//! `be_value` and `be_bytes` connect such numbers to the bytes that carry them.

use vstd::prelude::*;
use vstd::slice::slice_subrange;

verus! {

/// 256 to the power `n`.
pub open spec fn pow256(n: nat) -> nat
    decreases n,
{
    if n == 0 {
        1
    } else {
        256 * pow256((n - 1) as nat)
    }
}

/// The first number that no longer fits in 256 bits.
pub open spec fn word_limit() -> nat {
    pow256(32)
}

/// The number that `bytes` denotes as a big-endian numeral in base 256.
/// The empty string denotes zero.
pub open spec fn be_value(bytes: Seq<u8>) -> nat
    decreases bytes.len(),
{
    if bytes.len() == 0 {
        0
    } else {
        be_value(bytes.drop_last()) * 256 + bytes.last() as nat
    }
}

/// The big-endian numeral of `n` in exactly `len` bytes. Where `n` needs more
/// than `len` bytes the high digits are cut off.
pub open spec fn be_bytes(n: nat, len: nat) -> Seq<u8>
    decreases len,
{
    if len == 0 {
        Seq::empty()
    } else {
        be_bytes(n / 256, (len - 1) as nat).push((n % 256) as u8)
    }
}

/// A power of 256 is at least one.
pub proof fn lemma_pow256_positive(n: nat)
    ensures
        pow256(n) >= 1,
    decreases n,
{
    if n > 0 {
        lemma_pow256_positive((n - 1) as nat);
    }
}

/// A larger exponent gives no smaller power.
pub proof fn lemma_pow256_monotonic(a: nat, b: nat)
    requires
        a <= b,
    ensures
        pow256(a) <= pow256(b),
    decreases b,
{
    if a < b {
        lemma_pow256_monotonic(a, (b - 1) as nat);
        lemma_pow256_positive((b - 1) as nat);
    }
}

/// A numeral of `n` bytes denotes a number below `256^n`.
pub proof fn lemma_be_value_bound(bytes: Seq<u8>)
    ensures
        be_value(bytes) < pow256(bytes.len()),
    decreases bytes.len(),
{
    if bytes.len() > 0 {
        lemma_be_value_bound(bytes.drop_last());
    }
}

/// Leading zero bytes do not change the number.
pub proof fn lemma_be_value_leading_zeros(bytes: Seq<u8>, k: int)
    requires
        0 <= k <= bytes.len(),
        forall|j: int| 0 <= j < k ==> bytes[j] == 0,
    ensures
        be_value(bytes) == be_value(bytes.skip(k)),
    decreases bytes.len(),
{
    if bytes.len() == 0 {
        assert(bytes.skip(k) =~= bytes);
    } else if k == bytes.len() {
        lemma_be_value_leading_zeros(bytes.drop_last(), k - 1);
        assert(bytes.drop_last().skip(k - 1).len() == 0);
        assert(bytes.skip(k).len() == 0);
    } else {
        lemma_be_value_leading_zeros(bytes.drop_last(), k);
        assert(bytes.drop_last().skip(k) =~= bytes.skip(k).drop_last());
        assert(bytes.skip(k).last() == bytes.last());
    }
}

/// A numeral whose first byte is not zero is as large as its length says.
pub proof fn lemma_be_value_lower_bound(bytes: Seq<u8>)
    requires
        bytes.len() > 0,
        bytes[0] != 0,
    ensures
        be_value(bytes) >= pow256((bytes.len() - 1) as nat),
    decreases bytes.len(),
{
    if bytes.len() == 1 {
        assert(be_value(bytes.drop_last()) == 0);
    } else {
        lemma_be_value_lower_bound(bytes.drop_last());
    }
}

/// The numeral of `len` bytes has `len` bytes.
pub proof fn lemma_be_bytes_len(n: nat, len: nat)
    ensures
        be_bytes(n, len).len() == len,
    decreases len,
{
    if len > 0 {
        lemma_be_bytes_len(n / 256, (len - 1) as nat);
    }
}

/// Writing down the number that a numeral denotes, in as many bytes, gives
/// the numeral back.
pub proof fn lemma_be_bytes_of_be_value(bytes: Seq<u8>)
    ensures
        be_bytes(be_value(bytes), bytes.len()) == bytes,
    decreases bytes.len(),
{
    if bytes.len() > 0 {
        let front = bytes.drop_last();
        lemma_be_bytes_of_be_value(front);
        assert(be_value(bytes) / 256 == be_value(front));
        assert(be_value(bytes) % 256 == bytes.last() as nat);
        assert(be_bytes(be_value(bytes), bytes.len()) =~= bytes);
    } else {
        assert(be_bytes(be_value(bytes), bytes.len()) =~= bytes);
    }
}

/// Reading the `len`-byte numeral of a number that fits gives the number back.
pub proof fn lemma_be_value_of_be_bytes(n: nat, len: nat)
    requires
        n < pow256(len),
    ensures
        be_value(be_bytes(n, len)) == n,
    decreases len,
{
    if len > 0 {
        let front = be_bytes(n / 256, (len - 1) as nat);
        lemma_be_value_of_be_bytes(n / 256, (len - 1) as nat);
        assert(be_bytes(n, len).drop_last() =~= front);
        assert(be_bytes(n, len).last() == (n % 256) as u8);
    }
}

/// Two numerals of one length that denote the same number are the same bytes.
pub proof fn lemma_be_value_injective(a: Seq<u8>, b: Seq<u8>)
    requires
        a.len() == b.len(),
        be_value(a) == be_value(b),
    ensures
        a == b,
{
    lemma_be_bytes_of_be_value(a);
    lemma_be_bytes_of_be_value(b);
}

/// An unsigned integer of 256 bits, kept as its 32 big-endian bytes.
#[derive(Clone, Copy, Debug, PartialEq, Eq)]
pub struct U256 {
    pub be: [u8; 32],
}

impl View for U256 {
    type V = nat;

    open spec fn view(&self) -> nat {
        be_value(self.be@)
    }
}

/// `alloy_primitives::U256::from_be_slice`, with the integer handed back as
/// the array that `to_be_bytes::<32>` gives for it. The outside function
/// refuses a slice of more than 32 bytes by a panic, whatever it holds, so
/// such a slice is left out. Of the others it is claimed that the array
/// denotes the number that the slice denotes.
#[verifier::external_body]
fn uint_from_be_slice(bytes: &[u8]) -> (word: [u8; 32])
    requires
        bytes@.len() <= 32,
    ensures
        be_value(word@) == be_value(bytes@),
{
    alloy_primitives::U256::from_be_slice(bytes).to_be_bytes::<32>()
}

impl U256 {
    /// The integer that a big-endian byte string of any length denotes, if it
    /// fits in 256 bits. Leading zero bytes are not counted against it.
    pub fn try_from_be_slice(bytes: &[u8]) -> (r: Option<U256>)
        ensures
            r is Some <==> be_value(bytes@) < word_limit(),
            r matches Some(w) ==> w@ == be_value(bytes@),
    {
        let n: usize = bytes.len();
        let mut i: usize = 0;
        while i < n && bytes[i] == 0
            invariant
                i <= n,
                n == bytes@.len(),
                forall|j: int| 0 <= j < i ==> bytes@[j] == 0,
            decreases n - i,
        {
            i += 1;
        }
        proof {
            lemma_be_value_leading_zeros(bytes@, i as int);
        }
        let tail = slice_subrange(bytes, i, n);
        assert(tail@ =~= bytes@.skip(i as int));
        if n - i > 32 {
            proof {
                lemma_be_value_lower_bound(tail@);
                lemma_pow256_monotonic(32, (tail@.len() - 1) as nat);
            }
            None
        } else {
            let be = uint_from_be_slice(tail);
            proof {
                lemma_be_value_bound(tail@);
                lemma_pow256_monotonic(tail@.len(), 32);
            }
            Some(U256 { be })
        }
    }

    /// The integer whose 32 big-endian bytes are `bytes`.
    pub fn from_be_bytes(bytes: [u8; 32]) -> (r: U256)
        ensures
            r.be == bytes,
            r@ == be_value(bytes@),
    {
        U256 { be: bytes }
    }

    /// The 32 big-endian bytes of the integer.
    pub fn to_be_bytes(&self) -> (r: [u8; 32])
        ensures
            r == self.be,
            r@ == be_bytes(self@, 32),
    {
        proof {
            lemma_be_bytes_of_be_value(self.be@);
        }
        self.be
    }

    /// Whether two integers are the same number.
    pub fn same(&self, other: &U256) -> (r: bool)
        ensures
            r == (self@ == other@),
    {
        let mut i: usize = 0;
        while i < 32
            invariant
                i <= 32,
                forall|j: int| 0 <= j < i ==> self.be@[j] == other.be@[j],
            decreases 32 - i,
        {
            if self.be[i] != other.be[i] {
                proof {
                    if self@ == other@ {
                        lemma_be_value_injective(self.be@, other.be@);
                    }
                }
                return false;
            }
            i += 1;
        }
        assert(self.be@ =~= other.be@);
        true
    }
}

/// Appends the 32-byte word of `w`.
pub fn push_word(out: &mut Vec<u8>, w: &U256)
    ensures
        final(out)@ == old(out)@ + be_bytes(w@, 32),
{
    let ghost before = out@;
    let mut i: usize = 0;
    while i < 32
        invariant
            i <= 32,
            out@ == before + w.be@.take(i as int),
        decreases 32 - i,
    {
        out.push(w.be[i]);
        assert(w.be@.take(i + 1) =~= w.be@.take(i as int).push(w.be@[i as int]));
        i += 1;
    }
    proof {
        assert(w.be@.take(32) =~= w.be@);
        lemma_be_bytes_of_be_value(w.be@);
    }
}

/// Appends the `len`-byte big-endian numeral of `n`.
pub fn push_be(out: &mut Vec<u8>, n: usize, len: usize)
    ensures
        final(out)@ == old(out)@ + be_bytes(n as nat, len as nat),
    decreases len,
{
    if len > 0 {
        push_be(out, n / 256, len - 1);
        out.push((n % 256) as u8);
        assert(out@ =~= old(out)@ + be_bytes(n as nat, len as nat));
    } else {
        assert(out@ =~= old(out)@ + be_bytes(n as nat, len as nat));
    }
}

} // verus!
