use bitcoin_rpc_provider::error::{Error, ManagerError, RpcError};
use bitcoin_rpc_provider::network::Network;
use bitcoin_rpc_provider::provider::BitcoinCoreProvider;
use bitcoin_rpc_provider::transaction::{OutPoint, TxOut};
use bitcoin_rpc_provider::wallet::{
    fund, spendable_utxos, AddressType, UnspentEntry, Utxo, COST_OF_CHANGE,
};
use bitcoincore_rpc::Error as ClientError;

fn failure() -> RpcError {
    RpcError {
        response: None,
        source: ClientError::ReturnedError("down".to_string()),
    }
}

fn entry(id: u8, amount: u64, spendable: bool) -> UnspentEntry {
    UnspentEntry {
        txid: [id; 32],
        vout: id as u32,
        address: Some(format!("address{}", id)),
        redeem_script: None,
        script_pub_key: vec![0, id],
        amount,
        spendable,
    }
}

fn utxo(id: u8, value: u64) -> Utxo {
    Utxo {
        tx_out: TxOut {
            value,
            script_pubkey: vec![0, id],
        },
        outpoint: OutPoint {
            txid: [id; 32],
            vout: id as u32,
        },
        address: format!("address{}", id),
        redeem_script: vec![],
        reserved: false,
    }
}

#[test]
fn pool_keeps_the_spendable_outputs_in_order() {
    let mut with_script = entry(3, 30, true);
    with_script.redeem_script = Some(vec![7, 8]);
    let list = vec![entry(1, 10, true), entry(2, 20, false), with_script];
    let mut third = utxo(3, 30);
    third.redeem_script = vec![7, 8];
    assert_eq!(spendable_utxos(&list).unwrap(), vec![utxo(1, 10), third]);
}

#[test]
fn spendable_output_without_address_is_an_error() {
    let mut strange = entry(2, 20, true);
    strange.address = None;
    let list = vec![entry(1, 10, true), strange];
    assert!(matches!(spendable_utxos(&list), Err(Error::InvalidState)));
    assert!(matches!(
        BitcoinCoreProvider::get_utxos_for_amount(5, 1, false, Ok(list)),
        Err(ManagerError::WalletError(Error::InvalidState))
    ));
}

#[test]
fn unspendable_output_without_address_is_ignored() {
    let mut strange = entry(2, 20, false);
    strange.address = None;
    let list = vec![strange, entry(1, 10, true)];
    assert_eq!(spendable_utxos(&list).unwrap(), vec![utxo(1, 10)]);
}

#[test]
fn funding_without_a_choice_is_refused() {
    assert!(matches!(
        fund(&vec![utxo(1, 10)], None, true),
        Err(Error::NotEnoughCoins)
    ));
}

#[test]
fn funding_follows_the_choice() {
    let pool = vec![utxo(1, 10), utxo(2, 20), utxo(3, 30)];
    let f = fund(&pool, Some(vec![2, 0]), true).unwrap();
    assert_eq!(f.utxos, vec![utxo(3, 30), utxo(1, 10)]);
    assert_eq!(f.lock, Some(vec![utxo(3, 30).outpoint, utxo(1, 10).outpoint]));
    let f = fund(&pool, Some(vec![1]), false).unwrap();
    assert_eq!(f.utxos, vec![utxo(2, 20)]);
    assert_eq!(f.lock, None);
}

#[test]
fn amount_is_funded_from_spendable_outputs() {
    for _ in 0..20 {
        let list = vec![
            entry(1, 10_000, true),
            entry(2, 1_000_000, false),
            entry(3, 30_000, true),
            entry(4, 50_000, true),
        ];
        let f = BitcoinCoreProvider::get_utxos_for_amount(45_000, 2, true, Ok(list)).unwrap();
        let total: u64 = f.utxos.iter().map(|u| u.tx_out.value).sum();
        assert!(total >= 45_000);
        assert!(f.utxos.iter().all(|u| u.outpoint.vout != 2));
        let outpoints: Vec<_> = f.utxos.iter().map(|u| u.outpoint).collect();
        let mut distinct: Vec<_> = outpoints.iter().map(|o| o.vout).collect();
        distinct.sort();
        distinct.dedup();
        assert_eq!(distinct.len(), outpoints.len());
        assert_eq!(f.lock, Some(outpoints));
    }
}

#[test]
fn amount_without_change_is_preferred() {
    let list = vec![
        entry(1, 100_000, true),
        entry(2, 12_000, true),
        entry(3, 8_000 + COST_OF_CHANGE, true),
    ];
    let f = BitcoinCoreProvider::get_utxos_for_amount(20_000, 2, false, Ok(list)).unwrap();
    let mut places: Vec<_> = f.utxos.iter().map(|u| u.outpoint.vout).collect();
    places.sort();
    assert_eq!(places, vec![2, 3]);
    assert_eq!(f.lock, None);
}

#[test]
fn fee_rate_makes_no_difference() {
    let ask = |fee_rate: u64| {
        let list = vec![entry(1, 100_000, true), entry(2, 12_000, true), entry(3, 8_000, true)];
        let f = BitcoinCoreProvider::get_utxos_for_amount(20_000, fee_rate, true, Ok(list)).unwrap();
        (f.utxos, f.lock)
    };
    for fee_rate in [1, 253, u64::MAX] {
        assert_eq!(ask(fee_rate), ask(0));
    }
}

#[test]
fn unspendable_outputs_do_not_fund() {
    let list = vec![entry(1, 10, true), entry(2, 1_000, false)];
    assert!(matches!(
        BitcoinCoreProvider::get_utxos_for_amount(11, 2, false, Ok(list)),
        Err(ManagerError::WalletError(Error::NotEnoughCoins))
    ));
}

#[test]
fn failed_listing_is_reported() {
    assert!(matches!(
        BitcoinCoreProvider::get_utxos_for_amount(11, 2, false, Err(failure())),
        Err(ManagerError::WalletError(Error::RpcError(_)))
    ));
}

#[test]
fn outputs_are_returned_once_locked() {
    let pool = vec![utxo(1, 10)];
    let f = fund(&pool, Some(vec![0]), true).unwrap();
    assert_eq!(
        BitcoinCoreProvider::utxos_after_lock(f, Some(Ok(true))).unwrap(),
        pool
    );
    let f = fund(&pool, Some(vec![0]), true).unwrap();
    assert_eq!(
        BitcoinCoreProvider::utxos_after_lock(f, Some(Ok(false))).unwrap(),
        pool
    );
    let f = fund(&pool, Some(vec![0]), true).unwrap();
    assert!(matches!(
        BitcoinCoreProvider::utxos_after_lock(f, Some(Err(failure()))),
        Err(ManagerError::WalletError(Error::RpcError(_)))
    ));
    let f = fund(&pool, Some(vec![0]), false).unwrap();
    assert_eq!(BitcoinCoreProvider::utxos_after_lock(f, None).unwrap(), pool);
}

#[test]
fn fixed_requests() {
    let list = BitcoinCoreProvider::list_unspent_request();
    assert_eq!(
        (list.minconf, list.maxconf, list.include_unsafe),
        (None, None, Some(false))
    );
    let address = BitcoinCoreProvider::get_new_address();
    assert_eq!(address.label, None);
    assert_eq!(address.address_type, Some(AddressType::Bech32));
    assert_eq!(BitcoinCoreProvider::get_new_change_address(), address);
    let watch = BitcoinCoreProvider::import_address("bcrt1q".to_string());
    assert_eq!(watch.address, "bcrt1q");
    assert_eq!((watch.label, watch.rescan), (None, Some(false)));
}

#[test]
fn new_secret_keys_are_stored() {
    let make = || BitcoinCoreProvider::get_new_secret_key(Ok("signet".to_string())).unwrap();
    let request = make();
    assert!(request.key.compressed);
    assert_eq!(request.key.network, Network::Signet);
    assert_eq!((&request.label, request.rescan), (&None, Some(false)));
    let sk = request.key.inner;
    assert!(bitcoin::secp256k1::SecretKey::from_slice(&sk).is_ok());
    assert_ne!(make().key.inner, sk);
    assert_eq!(
        BitcoinCoreProvider::stored_secret_key(request, Ok(())).unwrap(),
        sk
    );
}

#[test]
fn secret_key_that_was_not_stored_is_not_returned() {
    let request = BitcoinCoreProvider::import_private_key_request([9; 32], Network::Regtest);
    assert_eq!(request.key.inner, [9; 32]);
    assert_eq!(request.key.network, Network::Regtest);
    assert!(matches!(
        BitcoinCoreProvider::stored_secret_key(request, Err(failure())),
        Err(ManagerError::WalletError(Error::RpcError(_)))
    ));
}

#[test]
fn new_secret_key_needs_a_known_network() {
    assert!(matches!(
        BitcoinCoreProvider::get_new_secret_key(Ok("moon".to_string())),
        Err(ManagerError::BlockchainError(_))
    ));
    assert!(matches!(
        BitcoinCoreProvider::get_new_secret_key(Err(failure())),
        Err(ManagerError::WalletError(Error::RpcError(_)))
    ));
}
