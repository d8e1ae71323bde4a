use even_host::error::Error;
use even_host::receipt::{verify, ReceiptCheck, VerifiedProof};
use even_host::word::U256;

fn word(n: u8) -> U256 {
    let mut be = [0u8; 32];
    be[31] = n;
    U256::from_be_bytes(be)
}

fn journal(n: u8) -> Vec<u8> {
    let mut j = vec![0u8; 32];
    j[31] = n;
    j
}

#[test]
fn accepted_receipt_with_the_input_passes() {
    assert_eq!(
        verify(ReceiptCheck::Accepted { journal: journal(4) }, &word(4)),
        Ok(VerifiedProof { journal: journal(4), committed: word(4) })
    );
}

#[test]
fn short_journal_is_read_as_a_number() {
    let proof = verify(ReceiptCheck::Accepted { journal: vec![4] }, &word(4)).unwrap();
    assert_eq!(proof.committed, word(4));
    assert_eq!(proof.journal, vec![4]);
}

#[test]
fn mismatch_is_refused_though_the_receipt_verifies() {
    assert_eq!(
        verify(ReceiptCheck::Accepted { journal: journal(5) }, &word(4)),
        Err(Error::CommitmentMismatch { expected: word(4), committed: journal(5) })
    );
}

#[test]
fn oversize_journal_is_a_mismatch() {
    let mut big = vec![0u8; 33];
    big[0] = 1;
    big[32] = 4;
    assert_eq!(
        verify(ReceiptCheck::Accepted { journal: big.clone() }, &word(4)),
        Err(Error::CommitmentMismatch { expected: word(4), committed: big })
    );
}

#[test]
fn rejected_and_undecodable_receipts_are_invalid() {
    assert_eq!(verify(ReceiptCheck::Rejected, &word(4)), Err(Error::ProofInvalid));
    assert_eq!(verify(ReceiptCheck::Undecodable, &word(4)), Err(Error::ProofInvalid));
}
