use even_host::error::{ConfigParameter, Error};
use even_host::tx_sender::{
    outcome, InclusionReceipt, ParsedConfig, SendReport, TransactionRequest, TxSender,
};

fn good() -> ParsedConfig {
    ParsedConfig { rpc_url_ok: true, signer: Some([0x11; 20]), contract: Some([0x22; 20]) }
}

#[test]
fn good_parameters_make_a_sender() {
    assert_eq!(
        TxSender::new(5, good()),
        Ok(TxSender { chain_id: 5, signer: [0x11; 20], contract: [0x22; 20] })
    );
}

#[test]
fn each_parameter_fails_by_its_name() {
    let mut c = good();
    c.rpc_url_ok = false;
    assert_eq!(
        TxSender::new(5, c),
        Err(Error::Configuration { parameter: ConfigParameter::RpcUrl })
    );
    let mut c = good();
    c.signer = None;
    assert_eq!(
        TxSender::new(5, c),
        Err(Error::Configuration { parameter: ConfigParameter::PrivateKey })
    );
    let mut c = good();
    c.contract = None;
    assert_eq!(
        TxSender::new(5, c),
        Err(Error::Configuration { parameter: ConfigParameter::ContractAddress })
    );
}

#[test]
fn the_first_bad_parameter_is_named() {
    let c = ParsedConfig { rpc_url_ok: false, signer: None, contract: None };
    assert_eq!(
        TxSender::new(1, c),
        Err(Error::Configuration { parameter: ConfigParameter::RpcUrl })
    );
    let c = ParsedConfig { rpc_url_ok: true, signer: None, contract: None };
    assert_eq!(
        TxSender::new(1, c),
        Err(Error::Configuration { parameter: ConfigParameter::PrivateKey })
    );
}

#[test]
fn request_carries_the_payload_to_the_contract() {
    let sender = TxSender::new(5, good()).unwrap();
    assert_eq!(
        sender.request(vec![1, 2, 3]),
        TransactionRequest { chain_id: 5, to: [0x22; 20], from: [0x11; 20], data: vec![1, 2, 3] }
    );
}

#[test]
fn included_transaction_gives_its_receipt() {
    let report =
        SendReport::Included { transaction_hash: [7; 32], block_number: Some(12), status: Some(1) };
    assert_eq!(
        outcome(report),
        Ok(InclusionReceipt { transaction_hash: [7; 32], block_number: Some(12) })
    );
    let report =
        SendReport::Included { transaction_hash: [7; 32], block_number: None, status: None };
    assert_eq!(
        outcome(report),
        Ok(InclusionReceipt { transaction_hash: [7; 32], block_number: None })
    );
}

#[test]
fn revert_drop_and_failure_are_submission_errors() {
    let report =
        SendReport::Included { transaction_hash: [7; 32], block_number: Some(12), status: Some(0) };
    assert_eq!(
        outcome(report),
        Err(Error::Submission { message: "transaction reverted".to_string() })
    );
    assert_eq!(
        outcome(SendReport::Dropped),
        Err(Error::Submission { message: "transaction dropped".to_string() })
    );
    assert_eq!(
        outcome(SendReport::Failed { message: "nonce too low".to_string() }),
        Err(Error::Submission { message: "nonce too low".to_string() })
    );
}
