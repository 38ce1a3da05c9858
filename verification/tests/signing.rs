use bitcoin_rpc_provider::error::{Error, ManagerError, RpcError, RpcResponse};
use bitcoin_rpc_provider::keys::PrivateKey;
use bitcoin_rpc_provider::network::Network;
use bitcoin_rpc_provider::provider::BitcoinCoreProvider;
use bitcoin_rpc_provider::signer::{apply_signature, Signing};
use bitcoin_rpc_provider::transaction::{OutPoint, Transaction, TxIn, TxOut, MAX_DECODED};
use bitcoincore_rpc::jsonrpc;
use bitcoincore_rpc::Error as ClientError;

fn failure() -> RpcError {
    RpcError {
        response: None,
        source: ClientError::ReturnedError("down".to_string()),
    }
}

fn answered(code: i32, message: &str) -> RpcError {
    RpcError {
        response: Some(RpcResponse {
            code,
            message: message.to_string(),
        }),
        source: ClientError::JsonRpc(jsonrpc::Error::Rpc(jsonrpc::error::RpcError {
            code,
            message: message.to_string(),
            data: None,
        })),
    }
}

fn unsigned(inputs: u8) -> Transaction {
    Transaction {
        version: 2,
        lock_time: 17,
        input: (0..inputs)
            .map(|i| TxIn {
                previous_output: OutPoint {
                    txid: [i + 1; 32],
                    vout: 10 + i as u32,
                },
                script_sig: vec![],
                sequence: 0xffff_fffe,
                witness: vec![],
            })
            .collect(),
        output: vec![TxOut {
            value: 5_000,
            script_pubkey: vec![0x51],
        }],
    }
}

fn signed(inputs: u8) -> Transaction {
    let mut tx = unsigned(inputs);
    for (i, input) in tx.input.iter_mut().enumerate() {
        input.script_sig = vec![i as u8, 0xaa];
        input.witness = vec![vec![1, 2, i as u8], vec![], vec![0x21]];
    }
    tx
}

fn encode(tx: &Transaction) -> Vec<u8> {
    bitcoin::consensus::serialize(&bitcoin::Transaction {
        version: tx.version,
        lock_time: bitcoin::PackedLockTime(tx.lock_time),
        input: tx
            .input
            .iter()
            .map(|i| bitcoin::TxIn {
                previous_output: bitcoin::OutPoint {
                    txid: bitcoin::hashes::Hash::from_inner(i.previous_output.txid),
                    vout: i.previous_output.vout,
                },
                script_sig: i.script_sig.clone().into(),
                sequence: bitcoin::Sequence(i.sequence),
                witness: bitcoin::Witness::from_vec(i.witness.clone()),
            })
            .collect(),
        output: tx
            .output
            .iter()
            .map(|o| bitcoin::TxOut {
                value: o.value,
                script_pubkey: o.script_pubkey.clone().into(),
            })
            .collect(),
    })
}

#[test]
fn transactions_are_decoded() {
    let tx = signed(3);
    assert_eq!(
        BitcoinCoreProvider::get_transaction(Ok(encode(&tx))).unwrap(),
        tx
    );
    let tx = unsigned(1);
    assert_eq!(
        BitcoinCoreProvider::get_transaction(Ok(encode(&tx))).unwrap(),
        tx
    );
}

#[test]
fn bytes_after_a_transaction_are_not_looked_at() {
    let tx = signed(1);
    let mut bytes = encode(&tx);
    bytes.push(0xff);
    assert_eq!(BitcoinCoreProvider::get_transaction(Ok(bytes)).unwrap(), tx);
}

#[test]
fn sent_transactions_are_read_back() {
    let mut no_outputs = signed(1);
    no_outputs.output.clear();
    for tx in [unsigned(0), unsigned(1), unsigned(2), signed(1), signed(250), no_outputs] {
        let request = BitcoinCoreProvider::send_transaction_request(&tx);
        assert_eq!(request.tx, encode(&tx));
        let mut longer = request.tx.clone();
        longer.extend([0, 1, 0xfd]);
        for bytes in [request.tx, longer] {
            assert_eq!(BitcoinCoreProvider::get_transaction(Ok(bytes)).unwrap(), tx);
        }
    }
}

#[test]
fn encoding_of_a_transaction() {
    let request = BitcoinCoreProvider::send_transaction_request(&unsigned(1));
    let mut expected = vec![2, 0, 0, 0, 1];
    expected.extend([1; 32]);
    expected.extend([10, 0, 0, 0, 0, 0xfe, 0xff, 0xff, 0xff]);
    expected.extend([1, 0x88, 0x13, 0, 0, 0, 0, 0, 0, 1, 0x51]);
    expected.extend([17, 0, 0, 0]);
    assert_eq!(request.tx, expected);
}

#[test]
fn transactions_are_decoded_up_to_a_length() {
    let mut tx = unsigned(1);
    tx.output[0].script_pubkey = Vec::new();
    let bare = encode(&tx).len();
    // The length of a longer script takes four bytes more than that of an empty one.
    tx.output[0].script_pubkey = vec![0; MAX_DECODED - bare - 4];
    let request = BitcoinCoreProvider::send_transaction_request(&tx);
    assert_eq!(request.tx.len(), MAX_DECODED);
    assert_eq!(
        BitcoinCoreProvider::get_transaction(Ok(request.tx)).unwrap(),
        tx
    );
    tx.output[0].script_pubkey.push(0);
    let request = BitcoinCoreProvider::send_transaction_request(&tx);
    assert!(matches!(
        BitcoinCoreProvider::get_transaction(Ok(request.tx)),
        Err(ManagerError::WalletError(Error::BitcoinError))
    ));
}

#[test]
fn malformed_transactions_are_refused() {
    let bytes = encode(&signed(2));
    for cut in [0, 1, 4, 40, bytes.len() - 1] {
        assert!(matches!(
            BitcoinCoreProvider::get_transaction(Ok(bytes[..cut].to_vec())),
            Err(ManagerError::WalletError(Error::BitcoinError))
        ));
    }
}

#[test]
fn failed_transaction_request_is_reported() {
    assert!(matches!(
        BitcoinCoreProvider::get_transaction(Err(failure())),
        Err(ManagerError::WalletError(Error::RpcError(_)))
    ));
}

#[test]
fn signing_request_describes_the_spent_output() {
    let tx_out = TxOut {
        value: 4_321,
        script_pubkey: vec![0, 20],
    };
    let request =
        BitcoinCoreProvider::sign_tx_input_request(&unsigned(3), 2, &tx_out, Some(vec![6]));
    assert_eq!(request.tx, encode(&unsigned(3)));
    assert_eq!(request.utxo.txid, [3; 32]);
    assert_eq!(request.utxo.vout, 12);
    assert_eq!(request.utxo.script_pub_key, vec![0, 20]);
    assert_eq!(request.utxo.redeem_script, Some(vec![6]));
    assert_eq!(request.utxo.amount, Some(4_321));
    let request = BitcoinCoreProvider::sign_tx_input_request(&unsigned(3), 0, &tx_out, None);
    assert_eq!((request.utxo.txid, request.utxo.redeem_script), ([1; 32], None));
}

#[test]
fn signature_of_one_input_is_copied() {
    let mut tx = unsigned(3);
    let reply = Ok(encode(&signed(3)));
    assert_eq!(
        BitcoinCoreProvider::sign_tx_input(&mut tx, 1, reply).unwrap(),
        Signing::Applied
    );
    let mut expected = unsigned(3);
    expected.input[1].script_sig = vec![1, 0xaa];
    expected.input[1].witness = vec![vec![1, 2, 1], vec![], vec![0x21]];
    assert_eq!(tx, expected);
}

#[test]
fn nothing_but_the_signature_is_copied() {
    let mut other = signed(1);
    other.version = 1;
    other.lock_time = 0;
    other.input[0].sequence = 5;
    other.input[0].previous_output.vout = 99;
    other.output.clear();
    let mut tx = unsigned(1);
    apply_signature(&mut tx, 0, &other);
    assert_eq!(tx, signed(1));
}

#[test]
fn signatures_can_be_applied_in_any_order() {
    let all = signed(3);
    let mut tx = unsigned(3);
    for i in [2, 0, 1, 0] {
        apply_signature(&mut tx, i, &all);
    }
    assert_eq!(tx, all);
}

#[test]
fn missing_input_leaves_the_transaction_alone() {
    let mut tx = unsigned(3);
    let reply = Ok(encode(&signed(2)));
    assert_eq!(
        BitcoinCoreProvider::sign_tx_input(&mut tx, 2, reply).unwrap(),
        Signing::InputMissing
    );
    assert_eq!(tx, unsigned(3));
}

#[test]
fn failed_signing_leaves_the_transaction_alone() {
    let mut tx = unsigned(2);
    assert!(matches!(
        BitcoinCoreProvider::sign_tx_input(&mut tx, 0, Err(failure())),
        Err(ManagerError::WalletError(Error::RpcError(_)))
    ));
    assert!(matches!(
        BitcoinCoreProvider::sign_tx_input(&mut tx, 0, Ok(vec![1, 2, 3])),
        Err(ManagerError::WalletError(Error::BitcoinError))
    ));
    assert_eq!(tx, unsigned(2));
}

const GENERATOR: [u8; 33] = [
    0x02, 0x79, 0xbe, 0x66, 0x7e, 0xf9, 0xdc, 0xbb, 0xac, 0x55, 0xa0, 0x62, 0x95, 0xce, 0x87, 0x0b,
    0x07, 0x02, 0x9b, 0xfc, 0xdb, 0x2d, 0xce, 0x28, 0xd9, 0x59, 0xf2, 0x81, 0x5b, 0x16, 0xf8, 0x17,
    0x98,
];

#[test]
fn secret_keys_are_asked_for_by_address() {
    let ask = |chain: &str| {
        BitcoinCoreProvider::get_secret_key_for_pubkey(&GENERATOR, Ok(chain.to_string()))
            .unwrap()
            .address
    };
    assert_eq!(ask("main"), "bc1qw508d6qejxtdg4y5r3zarvary0c5xw7kv8f3t4");
    assert_eq!(ask("test"), "tb1qw508d6qejxtdg4y5r3zarvary0c5xw7kxpjzsx");
    assert_eq!(ask("signet"), "tb1qw508d6qejxtdg4y5r3zarvary0c5xw7kxpjzsx");
    assert!(ask("regtest").starts_with("bcrt1q"));
}

#[test]
fn secret_key_needs_a_public_key() {
    let mut key = GENERATOR;
    key[0] = 4;
    for bad in [key, [0; 33], [0xff; 33]] {
        assert!(matches!(
            BitcoinCoreProvider::get_secret_key_for_pubkey(&bad, Ok("main".to_string())),
            Err(ManagerError::WalletError(Error::BitcoinError))
        ));
    }
}

#[test]
fn keys_off_the_curve_have_no_address() {
    // The first coordinates 1, 2, 3, 4 and 6 belong to points of the curve, 0 and 5 do not.
    for (x, on_curve) in [(0, false), (1, true), (2, true), (3, true), (4, true), (5, false), (6, true)] {
        for sign in [2, 3] {
            let mut key = [0; 33];
            key[0] = sign;
            key[32] = x;
            let r = BitcoinCoreProvider::get_secret_key_for_pubkey(&key, Ok("main".to_string()));
            assert_eq!(r.is_ok(), on_curve);
        }
    }
}

#[test]
fn coordinates_are_below_the_field_prime() {
    // The field prime, which would stand for zero, and the field prime plus one, which would stand
    // for one.
    for last in [0x2f, 0x30] {
        let mut key = [0xff; 33];
        key[0] = 2;
        key[28] = 0xfe;
        key[31] = 0xfc;
        key[32] = last;
        assert!(matches!(
            BitcoinCoreProvider::get_secret_key_for_pubkey(&key, Ok("main".to_string())),
            Err(ManagerError::WalletError(Error::BitcoinError))
        ));
    }
}

#[test]
fn every_public_key_has_an_address() {
    let secp = bitcoin::secp256k1::Secp256k1::new();
    for n in 1..=50 {
        let sk = bitcoin::secp256k1::SecretKey::from_slice(&[n; 32]).unwrap();
        let pk = bitcoin::secp256k1::PublicKey::from_secret_key(&secp, &sk).serialize();
        for chain in ["main", "test", "signet", "regtest"] {
            assert!(
                BitcoinCoreProvider::get_secret_key_for_pubkey(&pk, Ok(chain.to_string())).is_ok()
            );
        }
    }
}

#[test]
fn secret_key_needs_a_known_network() {
    assert!(matches!(
        BitcoinCoreProvider::get_secret_key_for_pubkey(&GENERATOR, Ok("none".to_string())),
        Err(ManagerError::BlockchainError(_))
    ));
    assert!(matches!(
        BitcoinCoreProvider::get_secret_key_for_pubkey(&GENERATOR, Err(failure())),
        Err(ManagerError::WalletError(Error::RpcError(_)))
    ));
}

#[test]
fn request_for_a_key_without_an_address_is_refused() {
    assert!(matches!(
        BitcoinCoreProvider::dump_private_key_request(None),
        Err(ManagerError::WalletError(Error::BitcoinError))
    ));
    assert_eq!(
        BitcoinCoreProvider::dump_private_key_request(Some("a".to_string()))
            .unwrap()
            .address,
        "a"
    );
}

#[test]
fn dumped_keys_are_unpacked() {
    let key = PrivateKey {
        compressed: true,
        network: Network::Testnet,
        inner: [5; 32],
    };
    assert_eq!(
        BitcoinCoreProvider::dumped_secret_key(Ok(key)).unwrap(),
        [5; 32]
    );
    assert!(matches!(
        BitcoinCoreProvider::dumped_secret_key(Err(failure())),
        Err(ManagerError::WalletError(Error::RpcError(_)))
    ));
}

#[test]
fn confirmations() {
    let ask = |n: i32| BitcoinCoreProvider::get_transaction_confirmations(Ok(n)).unwrap();
    assert_eq!(ask(0), 0);
    assert_eq!(ask(6), 6);
    assert_eq!(ask(i32::MAX), 2_147_483_647);
    assert_eq!(ask(-1), 4_294_967_295);
    assert_eq!(ask(i32::MIN), 2_147_483_648);
}

#[test]
fn unknown_transactions_have_no_confirmations() {
    let e = answered(-5, "Invalid or non-wallet transaction id");
    assert_eq!(
        BitcoinCoreProvider::get_transaction_confirmations(Err(e)).unwrap(),
        0
    );
}

#[test]
fn other_answers_are_errors() {
    for e in [
        answered(-5, "Invalid address"),
        answered(-6, "Invalid or non-wallet transaction id"),
        failure(),
    ] {
        assert!(matches!(
            BitcoinCoreProvider::get_transaction_confirmations(Err(e)),
            Err(ManagerError::WalletError(Error::RpcError(_)))
        ));
    }
}

#[test]
fn broadcasting() {
    assert!(BitcoinCoreProvider::send_transaction(Ok([3; 32])).is_ok());
    assert!(matches!(
        BitcoinCoreProvider::send_transaction(Err(failure())),
        Err(ManagerError::WalletError(Error::RpcError(_)))
    ));
}

#[test]
fn blocks_are_asked_for_by_hash() {
    assert_eq!(BitcoinCoreProvider::get_blockchain_height(Ok(7)).unwrap(), 7);
    assert_eq!(
        BitcoinCoreProvider::get_block_at_height(Ok([8; 32]))
            .unwrap()
            .hash,
        [8; 32]
    );
    assert!(matches!(
        BitcoinCoreProvider::get_block_at_height(Err(failure())),
        Err(ManagerError::WalletError(Error::RpcError(_)))
    ));
    assert!(BitcoinCoreProvider::get_blockchain_height(Err(failure())).is_err());
}
