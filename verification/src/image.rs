//! The identity of a guest program: the digest of its memory image, written
//! in hexadecimal as the proving service names it.

use vstd::prelude::*;

verus! {

/// The sixteen digits of lower-case hexadecimal.
pub open spec fn hex_digits() -> Seq<char> {
    seq!['0', '1', '2', '3', '4', '5', '6', '7', '8', '9', 'a', 'b', 'c', 'd', 'e', 'f']
}

/// The lower-case hexadecimal text of `bytes`: two digits for each byte, the
/// high one first.
pub open spec fn hex_lower(bytes: Seq<u8>) -> Seq<char>
    decreases bytes.len(),
{
    if bytes.len() == 0 {
        Seq::empty()
    } else {
        hex_lower(bytes.drop_last()).push(hex_digits()[bytes.last() as int / 16]).push(
            hex_digits()[bytes.last() as int % 16],
        )
    }
}

/// The four bytes of a word, the low one first.
pub open spec fn word_le_bytes(w: u32) -> Seq<u8> {
    seq![
        (w % 256) as u8,
        (w / 256 % 256) as u8,
        (w / 65536 % 256) as u8,
        (w / 16777216) as u8,
    ]
}

/// The bytes of a sequence of words, each word with its low byte first.
pub open spec fn words_le_bytes(words: Seq<u32>) -> Seq<u8>
    decreases words.len(),
{
    if words.len() == 0 {
        Seq::empty()
    } else {
        words_le_bytes(words.drop_last()) + word_le_bytes(words.last())
    }
}

/// The digest, in words, that identifies the memory image of an ELF program,
/// where the program can be loaded as a guest: what
/// `risc0_zkvm::Program::load_elf`, `risc0_zkvm::MemoryImage::new` and
/// `MemoryImage::compute_id` give in turn.
pub uninterp spec fn elf_image_id(elf: Seq<u8>) -> Option<Seq<u32>>;

/// `risc0_zkvm::Program::load_elf` with the largest address a guest may use,
/// `risc0_zkvm::MemoryImage::new` with the zkVM's page size, and
/// `MemoryImage::compute_id`, whose digest is handed back as its words. The
/// three depend on the ELF alone; `None` stands for a program that
/// `load_elf` or `MemoryImage::new` refuses. A digest has eight words. The
/// loader adds offsets of 32 bits that it has read from the file and can
/// only overflow on a file of 4 GiB or more, which is left out.
#[verifier::external_body]
fn image_id_of_elf(elf: &[u8]) -> (r: Option<Vec<u32>>)
    requires
        elf@.len() <= u32::MAX,
    ensures
        match elf_image_id(elf@) {
            Some(digest) => r matches Some(v) && v@ == digest,
            None => r is None,
        },
        r matches Some(v) ==> v@.len() == 8,
{
    let max_mem = risc0_zkvm::GUEST_MAX_MEM as u32;
    let program = risc0_zkvm::Program::load_elf(elf, max_mem).ok()?;
    let image = risc0_zkvm::MemoryImage::new(&program, risc0_zkvm::PAGE_SIZE as u32).ok()?;
    Some(image.compute_id().as_words().to_vec())
}

/// `hex::encode`: every byte as two lower-case hexadecimal digits.
#[verifier::external_body]
fn hex_encode(bytes: &[u8]) -> (r: String)
    ensures
        r@ == hex_lower(bytes@),
{
    hex::encode(bytes)
}

/// The hexadecimal text has two characters for each byte.
pub proof fn lemma_hex_lower_len(bytes: Seq<u8>)
    ensures
        hex_lower(bytes).len() == 2 * bytes.len(),
    decreases bytes.len(),
{
    if bytes.len() > 0 {
        lemma_hex_lower_len(bytes.drop_last());
    }
}

/// A sequence of words has four bytes for each word.
pub proof fn lemma_words_le_bytes_len(words: Seq<u32>)
    ensures
        words_le_bytes(words).len() == 4 * words.len(),
    decreases words.len(),
{
    if words.len() > 0 {
        lemma_words_le_bytes_len(words.drop_last());
    }
}

/// The name of an image: the bytes of its digest, each word with its low
/// byte first, in lower-case hexadecimal.
pub fn image_id_hex(digest: &[u32]) -> (r: String)
    ensures
        r@ == hex_lower(words_le_bytes(digest@)),
        r@.len() == 8 * digest@.len(),
{
    let n: usize = digest.len();
    let mut bytes: Vec<u8> = Vec::new();
    let mut i: usize = 0;
    while i < n
        invariant
            i <= n,
            n == digest@.len(),
            bytes@ == words_le_bytes(digest@.take(i as int)),
        decreases n - i,
    {
        let w: u32 = digest[i];
        bytes.push((w % 256) as u8);
        bytes.push((w / 256 % 256) as u8);
        bytes.push((w / 65536 % 256) as u8);
        bytes.push((w / 16777216) as u8);
        proof {
            assert(digest@.take(i + 1).drop_last() =~= digest@.take(i as int));
            assert(digest@.take(i + 1).last() == w);
            assert(bytes@ =~= words_le_bytes(digest@.take(i as int)) + word_le_bytes(w));
        }
        i += 1;
    }
    proof {
        assert(digest@.take(n as int) =~= digest@);
        lemma_words_le_bytes_len(digest@);
        lemma_hex_lower_len(bytes@);
    }
    hex_encode(bytes.as_slice())
}

/// The name under which the image of an ELF program is uploaded and proved,
/// or `None` where the program cannot be loaded as a guest.
pub fn compute_image_id(elf: &[u8]) -> (r: Option<String>)
    requires
        elf@.len() <= u32::MAX,
    ensures
        match elf_image_id(elf@) {
            Some(digest) => r matches Some(name) && name@ == hex_lower(words_le_bytes(digest)),
            None => r is None,
        },
        r matches Some(name) ==> name@.len() == 64,
{
    match image_id_of_elf(elf) {
        Some(digest) => Some(image_id_hex(digest.as_slice())),
        None => None,
    }
}

} // verus!
