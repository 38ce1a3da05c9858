use bitcoin_rpc_provider::error::{Error, ManagerError, RpcError};
use bitcoin_rpc_provider::fees::{ConfirmationTarget, PollState};
use bitcoin_rpc_provider::network::Network;
use bitcoin_rpc_provider::provider::{BitcoinCoreProvider, Endpoint};
use bitcoincore_rpc::{Auth, Client, Error as ClientError};

fn endpoint(host: &str, port: u16, wallet: Option<&str>) -> Endpoint {
    Endpoint::new(
        host.to_string(),
        port,
        wallet.map(|name| name.to_string()),
        "user".to_string(),
        "pass".to_string(),
    )
}

fn failure() -> RpcError {
    RpcError {
        response: None,
        source: ClientError::ReturnedError("down".to_string()),
    }
}

#[test]
fn url_of_a_node() {
    let node = endpoint("localhost", 18443, None);
    assert_eq!(node.url, "http://localhost:18443");
    assert_eq!(node.rpc_user, "user");
    assert_eq!(node.rpc_password, "pass");
}

#[test]
fn url_of_a_wallet() {
    assert_eq!(
        endpoint("127.0.0.1", 8332, Some("alice")).url,
        "http://127.0.0.1:8332/wallet/alice"
    );
    assert_eq!(
        endpoint("127.0.0.1", 8332, Some("")).url,
        "http://127.0.0.1:8332/wallet/"
    );
}

#[test]
fn ports_are_written_in_decimal() {
    for port in [0u16, 7, 9, 10, 80, 99, 100, 1000, 10000, 65535] {
        assert_eq!(endpoint("h", port, None).url, format!("http://h:{}", port));
    }
}

#[test]
fn failed_connection_is_reported() {
    match BitcoinCoreProvider::new(Err(failure())) {
        Err(Error::RpcError(e)) => {
            assert!(matches!(e.source, ClientError::ReturnedError(ref text) if text == "down"))
        }
        _ => panic!("a provider without a connection"),
    }
}

fn unreachable_client() -> Client {
    let node = endpoint("127.0.0.1", 18443, None);
    Client::new(&node.url, Auth::UserPass(node.rpc_user, node.rpc_password)).unwrap()
}

#[test]
fn new_provider_has_the_initial_estimates() {
    let provider = match BitcoinCoreProvider::new(Ok(unreachable_client())) {
        Ok(provider) => provider,
        Err(e) => panic!("{}", e.message()),
    };
    assert_eq!(
        provider.get_est_sat_per_1000_weight(ConfirmationTarget::OnChainSweep),
        5000
    );
    assert_eq!(
        provider.get_est_sat_per_1000_weight(ConfirmationTarget::NonAnchorChannelFee),
        2000
    );
}

#[test]
fn provider_returns_what_polling_stored() {
    let mut provider = BitcoinCoreProvider::new_from_rpc_client(unreachable_client());
    let client = provider.shared_client();
    let mut state = PollState::new();
    for outcome in [Some(300), Some(1000), None, Some(700)] {
        state = provider.poll_for_fee_estimates(state, outcome);
    }
    assert_eq!(state, PollState::Resting);
    let expected = [
        (ConfirmationTarget::OnChainSweep, 700),
        (ConfirmationTarget::MaxAllowedNonAnchorChannelRemoteFee, 7000),
        (ConfirmationTarget::MinAllowedAnchorChannelRemoteFee, 300),
        (ConfirmationTarget::MinAllowedNonAnchorChannelRemoteFee, 750),
        (ConfirmationTarget::AnchorChannelFee, 1000),
        (ConfirmationTarget::NonAnchorChannelFee, 2000),
        (ConfirmationTarget::ChannelCloseMinimum, 1000),
    ];
    for (target, rate) in expected {
        assert_eq!(provider.get_est_sat_per_1000_weight(target), rate);
    }
    assert!(std::sync::Arc::ptr_eq(&client, &provider.shared_client()));
}

#[test]
fn answers_are_handed_on() {
    assert_eq!(BitcoinCoreProvider::new_address(Ok("bcrt1q")).unwrap(), "bcrt1q");
    assert_eq!(BitcoinCoreProvider::new_change_address(Ok("bcrt1p")).unwrap(), "bcrt1p");
    assert!(BitcoinCoreProvider::imported_address(Ok(())).is_ok());
    assert_eq!(BitcoinCoreProvider::block_at_height(Ok(vec![1, 2])).unwrap(), vec![1, 2]);
    let errors = [
        BitcoinCoreProvider::new_address::<()>(Err(failure())),
        BitcoinCoreProvider::new_change_address::<()>(Err(failure())),
        BitcoinCoreProvider::imported_address(Err(failure())),
        BitcoinCoreProvider::block_at_height::<()>(Err(failure())),
    ];
    for r in errors {
        assert!(matches!(
            r,
            Err(ManagerError::WalletError(Error::RpcError(_)))
        ));
    }
}

#[test]
fn chain_names_stand_for_networks() {
    let cases = [
        ("main", Network::Bitcoin),
        ("test", Network::Testnet),
        ("regtest", Network::Regtest),
        ("signet", Network::Signet),
    ];
    for (name, network) in cases {
        assert_eq!(
            BitcoinCoreProvider::get_network(Ok(name.to_string())).unwrap(),
            network
        );
    }
}

#[test]
fn other_chain_names_are_refused() {
    for name in ["", "Main", "mainnet", "testnet4", "bitcoin", "regtest "] {
        match BitcoinCoreProvider::get_network(Ok(name.to_string())) {
            Err(ManagerError::BlockchainError(text)) => {
                assert_eq!(text, "Unknown Bitcoin network")
            }
            other => panic!("unexpected outcome {:?}", other),
        }
    }
}

#[test]
fn network_of_a_silent_node_is_an_error() {
    assert!(matches!(
        BitcoinCoreProvider::get_network(Err(failure())),
        Err(ManagerError::WalletError(Error::RpcError(_)))
    ));
}
