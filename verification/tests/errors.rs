use bitcoin_rpc_provider::error::{
    enc_err_to_manager_err, pass_on, rpc_err_to_manager_err, Error, ManagerError, RpcError,
    RpcResponse,
};
use bitcoincore_rpc::Error as ClientError;

fn failure(text: &str) -> RpcError {
    RpcError {
        response: None,
        source: ClientError::ReturnedError(text.to_string()),
    }
}

#[test]
fn messages() {
    assert_eq!(Error::RpcError(failure("x")).message(), "Bitcoin Rpc Error");
    assert_eq!(
        Error::NotEnoughCoins.message(),
        "Utxo pool did not contain enough coins to reach target."
    );
    assert_eq!(Error::BitcoinError.message(), "Bitcoin related error");
    assert_eq!(
        Error::InvalidState.message(),
        "Unexpected state was encountered"
    );
}

#[test]
fn only_failed_requests_have_a_source() {
    let e = Error::RpcError(failure("broken"));
    match e.source() {
        Some(ClientError::ReturnedError(text)) => assert_eq!(text, "broken"),
        other => panic!("unexpected source {:?}", other),
    }
    assert!(Error::NotEnoughCoins.source().is_none());
    assert!(Error::BitcoinError.source().is_none());
    assert!(Error::InvalidState.source().is_none());
}

#[test]
fn failed_request_becomes_wallet_error() {
    let e = RpcError {
        response: Some(RpcResponse {
            code: -5,
            message: "no".to_string(),
        }),
        source: ClientError::InvalidCookieFile,
    };
    match rpc_err_to_manager_err(e) {
        ManagerError::WalletError(Error::RpcError(e)) => {
            let response = e.response.unwrap();
            assert_eq!(response.code, -5);
            assert_eq!(response.message, "no");
            assert!(matches!(e.source, ClientError::InvalidCookieFile));
        }
        other => panic!("unexpected error {:?}", other),
    }
}

#[test]
fn failed_decoding_becomes_bitcoin_error() {
    let e = bitcoin::consensus::encode::deserialize::<bitcoin::Transaction>(&[1, 2]).unwrap_err();
    assert!(matches!(
        enc_err_to_manager_err(e),
        ManagerError::WalletError(Error::BitcoinError)
    ));
}

#[test]
fn answers_are_passed_on() {
    assert_eq!(pass_on(Ok(812u64)).unwrap(), 812);
    match pass_on::<u64>(Err(failure("down"))) {
        Err(ManagerError::WalletError(Error::RpcError(e))) => {
            assert!(e.response.is_none());
            assert!(matches!(e.source, ClientError::ReturnedError(ref text) if text == "down"));
        }
        other => panic!("unexpected outcome {:?}", other),
    }
}
