//! Driving a remotely computed proof from a public input to the call data of
//! the contract that checks it: the decisions of the two-job session, the
//! check of what the proof commits to, the transcoding of the compressed
//! proof, and the encoding of the call.

pub mod contract;
pub mod error;
pub mod image;
pub mod input;
pub mod orchestrator;
pub mod poller;
pub mod receipt;
pub mod seal;
pub mod tx_sender;
pub mod word;
