//! The ways in which a run can fail.

use vstd::prelude::*;
use crate::seal::{SealError, SealFault};
use crate::word::U256;

verus! {

/// A parameter that the transaction sender is made with.
#[derive(Clone, Copy, Debug, PartialEq, Eq)]
pub enum ConfigParameter {
    RpcUrl,
    PrivateKey,
    ContractAddress,
}

/// Why a run ended without its result. No kind is recovered from inside the
/// library: each one ends the run it occurs in.
#[derive(Clone, Debug, PartialEq, Eq)]
pub enum Error {
    /// The proving service or the chain's node could not be reached.
    Transport { message: String },
    /// The proving service reported that a job failed.
    RemoteJobFailed { message: String },
    /// The receipt could not be read or did not pass verification.
    ProofInvalid,
    /// The receipt is valid but commits to another number than was asked for.
    /// `committed` is the committed output as it stands in the receipt.
    CommitmentMismatch { expected: U256, committed: Vec<u8> },
    /// The compressed proof cannot be transcoded.
    Seal(SealError),
    /// A parameter of the transaction sender could not be read.
    Configuration { parameter: ConfigParameter },
    /// The transaction was not sent or not included.
    Submission { message: String },
    /// A job was still running at the last poll that the policy allows.
    DeadlineExceeded,
    /// The service reported success without the artifact that goes with it.
    MissingArtifact,
    /// An event reached the orchestrator that it was not waiting for.
    OutOfTurn,
}

/// An [`Error`] in terms of numbers and sequences.
pub enum ErrorView {
    Transport { message: Seq<char> },
    RemoteJobFailed { message: Seq<char> },
    ProofInvalid,
    CommitmentMismatch { expected: nat, committed: Seq<u8> },
    Seal(SealFault),
    Configuration { parameter: ConfigParameter },
    Submission { message: Seq<char> },
    DeadlineExceeded,
    MissingArtifact,
    OutOfTurn,
}

impl View for Error {
    type V = ErrorView;

    open spec fn view(&self) -> ErrorView {
        match *self {
            Error::Transport { message } => ErrorView::Transport { message: message@ },
            Error::RemoteJobFailed { message } => ErrorView::RemoteJobFailed { message: message@ },
            Error::ProofInvalid => ErrorView::ProofInvalid,
            Error::CommitmentMismatch { expected, committed } => ErrorView::CommitmentMismatch {
                expected: expected@,
                committed: committed@,
            },
            Error::Seal(e) => ErrorView::Seal(e@),
            Error::Configuration { parameter } => ErrorView::Configuration { parameter },
            Error::Submission { message } => ErrorView::Submission { message: message@ },
            Error::DeadlineExceeded => ErrorView::DeadlineExceeded,
            Error::MissingArtifact => ErrorView::MissingArtifact,
            Error::OutOfTurn => ErrorView::OutOfTurn,
        }
    }
}

} // verus!
