//! The sender of the transaction: the parameters it was made with, once they
//! have been read, and the request it makes of a payload.

use vstd::prelude::*;
use crate::error::{ConfigParameter, Error, ErrorView};

verus! {

/// What reading the parameters gave: whether the endpoint is a URL, the
/// address of the key's account if the key could be read, and the contract's
/// address if it could be read.
#[derive(Clone, Copy, Debug, PartialEq, Eq)]
pub struct ParsedConfig {
    pub rpc_url_ok: bool,
    pub signer: Option<[u8; 20]>,
    pub contract: Option<[u8; 20]>,
}

/// A sender that is ready: the chain it signs for, the account it signs
/// with, and the contract it calls.
#[derive(Clone, Copy, Debug, PartialEq, Eq)]
pub struct TxSender {
    pub chain_id: u64,
    pub signer: [u8; 20],
    pub contract: [u8; 20],
}

/// A transaction before it is signed.
#[derive(Clone, Debug, PartialEq, Eq)]
pub struct TransactionRequest {
    pub chain_id: u64,
    pub to: [u8; 20],
    pub from: [u8; 20],
    pub data: Vec<u8>,
}

/// The first parameter that could not be read, in the order endpoint, key,
/// contract.
pub open spec fn first_unread(config: ParsedConfig) -> Option<ConfigParameter> {
    if !config.rpc_url_ok {
        Some(ConfigParameter::RpcUrl)
    } else if config.signer is None {
        Some(ConfigParameter::PrivateKey)
    } else if config.contract is None {
        Some(ConfigParameter::ContractAddress)
    } else {
        None
    }
}

impl TxSender {
    /// Makes the sender, or says which parameter is at fault. Nothing is
    /// sent anywhere for it.
    pub fn new(chain_id: u64, config: ParsedConfig) -> (r: Result<TxSender, Error>)
        ensures
            match first_unread(config) {
                Some(parameter) => r matches Err(e) && e@ == (ErrorView::Configuration {
                    parameter,
                }),
                None => r == Ok::<TxSender, Error>(
                    TxSender {
                        chain_id,
                        signer: config.signer->Some_0,
                        contract: config.contract->Some_0,
                    },
                ),
            },
    {
        if !config.rpc_url_ok {
            return Err(Error::Configuration { parameter: ConfigParameter::RpcUrl });
        }
        let signer = match config.signer {
            Some(a) => a,
            None => {
                return Err(Error::Configuration { parameter: ConfigParameter::PrivateKey });
            },
        };
        let contract = match config.contract {
            Some(a) => a,
            None => {
                return Err(Error::Configuration { parameter: ConfigParameter::ContractAddress });
            },
        };
        Ok(TxSender { chain_id, signer, contract })
    }

    /// The transaction that carries `calldata` to the contract: for the
    /// sender's chain, to the contract, from the sender's account, with the
    /// payload as it was handed in.
    pub fn request(&self, calldata: Vec<u8>) -> (r: TransactionRequest)
        ensures
            r == (TransactionRequest {
                chain_id: self.chain_id,
                to: self.contract,
                from: self.signer,
                data: calldata,
            }),
    {
        TransactionRequest {
            chain_id: self.chain_id,
            to: self.contract,
            from: self.signer,
            data: calldata,
        }
    }
}

/// What the node said of a transaction that was handed to it.
#[derive(Clone, Debug, PartialEq, Eq)]
pub enum SendReport {
    /// The transaction stands in a block. `status` is the status code of its
    /// receipt where the chain gives one: 1 for success, 0 for a revert.
    Included { transaction_hash: [u8; 32], block_number: Option<u64>, status: Option<u64> },
    /// The node lost sight of the transaction before it was included.
    Dropped,
    /// Sending or waiting failed.
    Failed { message: String },
}

pub enum SendReportView {
    Included { transaction_hash: Seq<u8>, block_number: Option<u64>, status: Option<u64> },
    Dropped,
    Failed { message: Seq<char> },
}

impl View for SendReport {
    type V = SendReportView;

    open spec fn view(&self) -> SendReportView {
        match *self {
            SendReport::Included { transaction_hash, block_number, status } => {
                SendReportView::Included {
                    transaction_hash: transaction_hash@,
                    block_number,
                    status,
                }
            },
            SendReport::Dropped => SendReportView::Dropped,
            SendReport::Failed { message } => SendReportView::Failed { message: message@ },
        }
    }
}

/// The proof that a transaction was included.
#[derive(Clone, Copy, Debug, PartialEq, Eq)]
pub struct InclusionReceipt {
    pub transaction_hash: [u8; 32],
    pub block_number: Option<u64>,
}

/// The outcome of a transaction. It counts as included unless its receipt
/// carries the status code of a revert; a failure of the node is handed on
/// with the node's own words.
pub open spec fn outcome_of(report: SendReportView) -> Result<(Seq<u8>, Option<u64>), ErrorView> {
    match report {
        SendReportView::Included { transaction_hash, block_number, status } => if status == Some(
            0u64,
        ) {
            Err(ErrorView::Submission { message: "transaction reverted"@ })
        } else {
            Ok((transaction_hash, block_number))
        },
        SendReportView::Dropped => Err(ErrorView::Submission { message: "transaction dropped"@ }),
        SendReportView::Failed { message } => Err(ErrorView::Submission { message }),
    }
}

/// Judges what the node said of a transaction.
pub fn outcome(report: SendReport) -> (r: Result<InclusionReceipt, Error>)
    ensures
        match outcome_of(report@) {
            Ok((hash, block)) => r matches Ok(receipt) && receipt.transaction_hash@ == hash
                && receipt.block_number == block,
            Err(fault) => r matches Err(e) && e@ == fault,
        },
{
    match report {
        SendReport::Included { transaction_hash, block_number, status } => {
            let reverted = match status {
                Some(code) => code == 0,
                None => false,
            };
            if reverted {
                Err(Error::Submission { message: "transaction reverted".to_owned() })
            } else {
                Ok(InclusionReceipt { transaction_hash, block_number })
            }
        },
        SendReport::Dropped => Err(
            Error::Submission { message: "transaction dropped".to_owned() },
        ),
        SendReport::Failed { message } => Err(Error::Submission { message }),
    }
}

} // verus!
