//! Between the two jobs: a receipt counts only if it passed cryptographic
//! verification and commits to the number that was asked for.

use vstd::prelude::*;
use crate::error::{Error, ErrorView};
use crate::word::{be_value, lemma_be_value_bound, U256};

verus! {

/// What the cryptographic check said of the artifact of a finished proof job.
#[derive(Clone, Debug, PartialEq, Eq)]
pub enum ReceiptCheck {
    /// The artifact is no receipt.
    Undecodable,
    /// The receipt does not verify against the program's identity.
    Rejected,
    /// The receipt verifies; `journal` is the output that it commits to.
    Accepted { journal: Vec<u8> },
}

/// A [`ReceiptCheck`] with the journal as a sequence.
pub enum ReceiptCheckView {
    Undecodable,
    Rejected,
    Accepted { journal: Seq<u8> },
}

impl View for ReceiptCheck {
    type V = ReceiptCheckView;

    open spec fn view(&self) -> ReceiptCheckView {
        match *self {
            ReceiptCheck::Undecodable => ReceiptCheckView::Undecodable,
            ReceiptCheck::Rejected => ReceiptCheckView::Rejected,
            ReceiptCheck::Accepted { journal } => ReceiptCheckView::Accepted { journal: journal@ },
        }
    }
}

/// A receipt that passed both checks, with the number it commits to.
#[derive(Clone, Debug, PartialEq, Eq)]
pub struct VerifiedProof {
    pub journal: Vec<u8>,
    pub committed: U256,
}

/// The verdict on a receipt, for the input that was asked for. A receipt
/// that failed the cryptographic check is invalid whatever it commits to.
/// One that passed is held to its journal, read as one big-endian number of
/// any length: it is accepted only if that number is the input.
pub open spec fn verdict(check: ReceiptCheckView, expected: nat) -> Result<Seq<u8>, ErrorView> {
    match check {
        ReceiptCheckView::Undecodable => Err(ErrorView::ProofInvalid),
        ReceiptCheckView::Rejected => Err(ErrorView::ProofInvalid),
        ReceiptCheckView::Accepted { journal } => if be_value(journal) == expected {
            Ok(journal)
        } else {
            Err(ErrorView::CommitmentMismatch { expected, committed: journal })
        },
    }
}

/// Judges a receipt by the outcome of its cryptographic check and by the
/// input that it has to commit to.
pub fn verify(check: ReceiptCheck, expected_input: &U256) -> (r: Result<VerifiedProof, Error>)
    ensures
        match verdict(check@, expected_input@) {
            Ok(journal) => r matches Ok(proof) && proof.journal@ == journal && proof.committed@
                == expected_input@,
            Err(fault) => r matches Err(e) && e@ == fault,
        },
{
    match check {
        ReceiptCheck::Undecodable => Err(Error::ProofInvalid),
        ReceiptCheck::Rejected => Err(Error::ProofInvalid),
        ReceiptCheck::Accepted { journal } => {
            proof {
                lemma_be_value_bound(expected_input.be@);
            }
            match U256::try_from_be_slice(journal.as_slice()) {
                Some(committed) => {
                    if committed.same(expected_input) {
                        Ok(VerifiedProof { journal, committed })
                    } else {
                        Err(Error::CommitmentMismatch { expected: *expected_input, committed: journal })
                    }
                },
                None => Err(Error::CommitmentMismatch { expected: *expected_input, committed: journal }),
            }
        },
    }
}

/// A receipt that commits to another number is refused with
/// `CommitmentMismatch`, also where it passed the cryptographic check.
pub proof fn lemma_mismatch_is_refused(journal: Seq<u8>, expected: nat)
    requires
        be_value(journal) != expected,
    ensures
        verdict(ReceiptCheckView::Accepted { journal }, expected) == Err::<Seq<u8>, ErrorView>(
            ErrorView::CommitmentMismatch { expected, committed: journal },
        ),
{
}

/// A verdict in favour is given only to a receipt that passed the
/// cryptographic check and commits to the input.
pub proof fn lemma_accepted_only_if_checked(check: ReceiptCheckView, expected: nat)
    requires
        verdict(check, expected) is Ok,
    ensures
        check matches ReceiptCheckView::Accepted { journal } && be_value(journal) == expected
            && verdict(check, expected) == Ok::<Seq<u8>, ErrorView>(journal),
{
}

} // verus!
