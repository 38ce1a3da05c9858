//! Signing with the keys of the node's wallet.
use crate::error::{
    enc_err_to_manager_err, rpc_err_to_manager_err, rpc_failure, Error, ManagerError, RpcError,
};
use crate::keys::{is_public_key, p2wpkh, p2wpkh_address, PrivateKey};
use crate::network::{is_unknown_network, law_networks_by_name, network_of, Network};
use crate::provider::BitcoinCoreProvider;
use crate::transaction::{
    consensus_decode, consensus_encode, copy_bytes, decoded_transaction, encoded_transaction,
    starts_with_encoding, witness_view, OutPointView, Transaction, TransactionView, TxInView, TxOut,
    TxOutView,
};
use vstd::prelude::*;

verus! {

/// The request for the secret key of an address (`dumpprivkey`).
#[derive(Debug, PartialEq, Eq)]
pub struct DumpPrivateKeyRequest {
    /// The address.
    pub address: String,
}

/// What a node is told of the output that an input spends when it is asked to sign the input.
#[derive(Debug, PartialEq, Eq)]
pub struct SignRawTransactionInput {
    /// The id of the transaction that holds the output.
    pub txid: [u8; 32],
    /// The index of the output.
    pub vout: u32,
    /// The script of the output.
    pub script_pub_key: Vec<u8>,
    /// The redeem script, if the output pays to one.
    pub redeem_script: Option<Vec<u8>>,
    /// The value of the output in satoshis.
    pub amount: Option<u64>,
}

/// The request to sign a transaction (`signrawtransactionwithwallet`).
#[derive(Debug, PartialEq, Eq)]
pub struct SignRawTransactionRequest {
    /// The consensus encoding of the transaction.
    pub tx: Vec<u8>,
    /// The output that the input to be signed spends.
    pub utxo: SignRawTransactionInput,
}

/// What came of a request to sign an input.
#[derive(Clone, Copy, Debug, PartialEq, Eq, Structural)]
pub enum Signing {
    /// The signature was copied into the transaction.
    Applied,
    /// The transaction that the node returned has no such input.
    InputMissing,
}

/// A transaction in which one input has the signature script and the witness that it has in
/// another transaction.
pub open spec fn with_signature(
    tx: TransactionView,
    index: int,
    signed: TransactionView,
) -> TransactionView {
    TransactionView {
        input: tx.input.update(
            index,
            TxInView {
                script_sig: signed.input[index].script_sig,
                witness: signed.input[index].witness,
                ..tx.input[index]
            },
        ),
        ..tx
    }
}

/// Copies a witness.
fn copy_witness(witness: &Vec<Vec<u8>>) -> (copy: Vec<Vec<u8>>)
    ensures
        witness_view(copy@) == witness_view(witness@),
{
    let mut copy: Vec<Vec<u8>> = Vec::new();
    for i in 0..witness.len()
        invariant
            copy.len() == i,
            forall|k: int| 0 <= k < i ==> (#[trigger] copy[k])@ == witness[k]@,
    {
        copy.push(copy_bytes(&witness[i]));
    }
    assert(witness_view(copy@) =~= witness_view(witness@));
    copy
}

/// Copies the signature script and the witness of an input from a signed transaction.
pub fn apply_signature(tx: &mut Transaction, input_index: usize, signed_tx: &Transaction)
    requires
        input_index < old(tx).input.len(),
        input_index < signed_tx.input.len(),
    ensures
        final(tx)@ == with_signature(old(tx)@, input_index as int, signed_tx@),
        final(tx).input.len() == old(tx).input.len(),
        final(tx).input[input_index as int].script_sig@
            == signed_tx.input[input_index as int].script_sig@,
        witness_view(final(tx).input[input_index as int].witness@) == witness_view(
            signed_tx.input[input_index as int].witness@,
        ),
{
    let script_sig = copy_bytes(&signed_tx.input[input_index].script_sig);
    let witness = copy_witness(&signed_tx.input[input_index].witness);
    tx.input[input_index].script_sig = script_sig;
    tx.input[input_index].witness = witness;
    assert(tx@.input =~= with_signature(old(tx)@, input_index as int, signed_tx@).input);
    assert(tx@.output =~= old(tx)@.output);
}

/// What a signature can change of a transaction: nothing but the signature script and the witness
/// of the input that is signed.
pub proof fn law_signature_touches_one_input(
    tx: TransactionView,
    index: int,
    signed: TransactionView,
)
    requires
        0 <= index < tx.input.len(),
    ensures
        ({
            let after = with_signature(tx, index, signed);
            &&& after.version == tx.version
            &&& after.lock_time == tx.lock_time
            &&& after.output == tx.output
            &&& after.input.len() == tx.input.len()
            &&& after.input[index].previous_output == tx.input[index].previous_output
            &&& after.input[index].sequence == tx.input[index].sequence
            &&& forall|j: int|
                0 <= j < tx.input.len() && j != index ==> #[trigger] after.input[j] == tx.input[j]
        }),
{
}

/// What a signature brings: the signature script and the witness that the input has in the signed
/// transaction, whatever they were before.
pub proof fn law_signature_is_taken_over(tx: TransactionView, index: int, signed: TransactionView)
    requires
        0 <= index < tx.input.len(),
    ensures
        with_signature(tx, index, signed).input[index].script_sig == signed.input[index].script_sig,
        with_signature(tx, index, signed).input[index].witness == signed.input[index].witness,
{
}

/// Signatures of different inputs can be applied in either order.
pub proof fn law_signatures_commute(
    tx: TransactionView,
    i: int,
    j: int,
    signed_i: TransactionView,
    signed_j: TransactionView,
)
    requires
        0 <= i < tx.input.len(),
        0 <= j < tx.input.len(),
        i != j,
    ensures
        with_signature(with_signature(tx, i, signed_i), j, signed_j) == with_signature(
            with_signature(tx, j, signed_j),
            i,
            signed_i,
        ),
{
    assert(with_signature(with_signature(tx, i, signed_i), j, signed_j).input =~= with_signature(
        with_signature(tx, j, signed_j),
        i,
        signed_i,
    ).input);
}

/// A later signature of an input replaces an earlier one.
pub proof fn law_last_signature_counts(
    tx: TransactionView,
    index: int,
    earlier: TransactionView,
    later: TransactionView,
)
    requires
        0 <= index < tx.input.len(),
    ensures
        with_signature(with_signature(tx, index, earlier), index, later) == with_signature(
            tx,
            index,
            later,
        ),
{
    assert(with_signature(with_signature(tx, index, earlier), index, later).input
        =~= with_signature(tx, index, later).input);
}

/// The transaction after its first inputs were signed, one after the other.
pub open spec fn signed_up_to(
    tx: TransactionView,
    signed: TransactionView,
    n: nat,
) -> TransactionView
    decreases n,
{
    if n == 0 {
        tx
    } else {
        with_signature(signed_up_to(tx, signed, (n - 1) as nat), n - 1, signed)
    }
}

/// Two transactions that differ at most in signature scripts and witnesses.
pub open spec fn same_but_for_signatures(a: TransactionView, b: TransactionView) -> bool {
    &&& a.version == b.version
    &&& a.lock_time == b.lock_time
    &&& a.output == b.output
    &&& a.input.len() == b.input.len()
    &&& forall|i: int|
        0 <= i < a.input.len() ==> (#[trigger] a.input[i]).previous_output
            == b.input[i].previous_output && a.input[i].sequence == b.input[i].sequence
}

/// The inputs that were signed are those of the signed transaction, the others are untouched.
proof fn lemma_signed_up_to(tx: TransactionView, signed: TransactionView, n: nat)
    requires
        same_but_for_signatures(tx, signed),
        n <= tx.input.len(),
    ensures
        ({
            let after = signed_up_to(tx, signed, n);
            &&& after.version == tx.version
            &&& after.lock_time == tx.lock_time
            &&& after.output == tx.output
            &&& after.input.len() == tx.input.len()
            &&& forall|i: int| 0 <= i < n ==> #[trigger] after.input[i] == signed.input[i]
            &&& forall|i: int|
                n <= i < tx.input.len() ==> #[trigger] after.input[i] == tx.input[i]
        }),
    decreases n,
{
    if n > 0 {
        lemma_signed_up_to(tx, signed, (n - 1) as nat);
        assert(tx.input[n - 1].previous_output == signed.input[n - 1].previous_output);
    }
}

/// Signing every input of a transaction from one signed version of it gives that version.
pub proof fn law_signing_every_input(tx: TransactionView, signed: TransactionView)
    requires
        same_but_for_signatures(tx, signed),
    ensures
        signed_up_to(tx, signed, tx.input.len()) == signed,
{
    lemma_signed_up_to(tx, signed, tx.input.len());
    assert(signed_up_to(tx, signed, tx.input.len()).input =~= signed.input);
}

/// What comes of asking for the secret key of a public key, from the node's answer to the question for
/// its chain.
pub open spec fn key_request_answer(
    pubkey: Seq<u8>,
    chain: Result<String, RpcError>,
    r: Result<DumpPrivateKeyRequest, ManagerError>,
) -> bool {
    match chain {
        Err(e) => r == Err::<DumpPrivateKeyRequest, ManagerError>(rpc_failure(e)),
        Ok(name) => match network_of(name@) {
            None => r matches Err(e) && is_unknown_network(e),
            Some(network) => if is_public_key(pubkey) {
                r matches Ok(request) && p2wpkh_address(pubkey, network) == Some(request.address@)
            } else {
                r == Err::<DumpPrivateKeyRequest, ManagerError>(
                    ManagerError::WalletError(Error::BitcoinError),
                )
            },
        },
    }
}

/// The key is asked for by its address on the network that the node follows. There is no request
/// without a public key and the name of a known network.
pub proof fn law_key_is_asked_for_on_the_network_of_the_node(
    pubkey: Seq<u8>,
    name: String,
    r: Result<DumpPrivateKeyRequest, ManagerError>,
)
    requires
        key_request_answer(pubkey, Ok(name), r),
    ensures
        r is Ok <==> is_public_key(pubkey) && (name@ == "main"@ || name@ == "test"@ || name@
            == "signet"@ || name@ == "regtest"@),
        r matches Ok(request) ==> {
            let address = Some(request.address@);
            &&& name@ == "main"@ ==> p2wpkh_address(pubkey, Network::Bitcoin) == address
            &&& name@ == "test"@ ==> p2wpkh_address(pubkey, Network::Testnet) == address
            &&& name@ == "signet"@ ==> p2wpkh_address(pubkey, Network::Signet) == address
            &&& name@ == "regtest"@ ==> p2wpkh_address(pubkey, Network::Regtest) == address
        },
{
    law_networks_by_name(name@);
}

/// A node that does not tell its chain is not asked for a key, and its failure reaches the manager
/// whole. Bytes that are no public key are an error on every network.
pub proof fn law_key_requests_that_fail(
    pubkey: Seq<u8>,
    chain: Result<String, RpcError>,
    r: Result<DumpPrivateKeyRequest, ManagerError>,
)
    requires
        key_request_answer(pubkey, chain, r),
    ensures
        chain matches Err(e) ==> r == Err::<DumpPrivateKeyRequest, ManagerError>(
            ManagerError::WalletError(Error::RpcError(e)),
        ),
        chain matches Ok(name) ==> (r matches Err(e) ==> e == ManagerError::WalletError(
            Error::BitcoinError,
        ) || (e matches ManagerError::BlockchainError(text) && text@ == "Unknown Bitcoin network"@)),
{
}

/// The secret key of an answer of the node.
pub open spec fn dumped_key(reply: Result<PrivateKey, RpcError>) -> Result<[u8; 32], ManagerError> {
    match reply {
        Ok(key) => Ok(key.inner),
        Err(e) => Err(rpc_failure(e)),
    }
}

/// The secret key is the one that the node returned, on whichever network and in whichever form, and a
/// failure reaches the manager whole.
pub proof fn law_dumped_key_is_returned(reply: Result<PrivateKey, RpcError>)
    ensures
        reply matches Ok(key) ==> dumped_key(reply) == Ok::<[u8; 32], ManagerError>(key.inner),
        reply matches Err(e) ==> dumped_key(reply) == Err::<[u8; 32], ManagerError>(
            ManagerError::WalletError(Error::RpcError(e)),
        ),
{
}

/// A request to sign an input of a transaction that spends the given output.
pub open spec fn asks_to_sign(
    request: SignRawTransactionRequest,
    tx: TransactionView,
    index: int,
    tx_out: TxOutView,
    redeem_script: Option<Vec<u8>>,
) -> bool {
    &&& request.tx@ == encoded_transaction(tx)
    &&& (OutPointView { txid: request.utxo.txid@, vout: request.utxo.vout })
        == tx.input[index].previous_output
    &&& request.utxo.script_pub_key@ == tx_out.script_pubkey
    &&& request.utxo.redeem_script == redeem_script
    &&& request.utxo.amount == Some(tx_out.value)
}

/// A request to sign names the output that the input spends, with the script, the value and the
/// redeem script that were given for it, and holds the whole transaction.
pub proof fn law_signing_names_the_spent_output(
    request: SignRawTransactionRequest,
    tx: TransactionView,
    index: int,
    tx_out: TxOutView,
    redeem_script: Option<Vec<u8>>,
)
    requires
        asks_to_sign(request, tx, index, tx_out, redeem_script),
    ensures
        request.tx@ == encoded_transaction(tx),
        request.utxo.txid@ == tx.input[index].previous_output.txid,
        request.utxo.vout == tx.input[index].previous_output.vout,
        request.utxo.script_pub_key@ == tx_out.script_pubkey,
        request.utxo.redeem_script == redeem_script,
        request.utxo.amount == Some(tx_out.value),
{
}

/// What comes of signing an input, from the node's answer: the result, and the transaction before and
/// after.
pub open spec fn signing_answer(
    before: TransactionView,
    index: int,
    reply: Result<Vec<u8>, RpcError>,
    r: Result<Signing, ManagerError>,
    after: TransactionView,
) -> bool {
    match reply {
        Err(e) => r == Err::<Signing, ManagerError>(rpc_failure(e)) && after == before,
        Ok(bytes) => match decoded_transaction(bytes@) {
            None => r == Err::<Signing, ManagerError>(
                ManagerError::WalletError(Error::BitcoinError),
            ) && after == before,
            Some(signed) => if index < signed.input.len() {
                r == Ok::<Signing, ManagerError>(Signing::Applied) && after == with_signature(
                    before,
                    index,
                    signed,
                )
            } else {
                r == Ok::<Signing, ManagerError>(Signing::InputMissing) && after == before
            },
        },
    }
}

/// An input is signed exactly if the node's bytes stand for a transaction that has the input: it then
/// has the signature script and the witness from there, and everything else is as it was. In every
/// other case the whole transaction is as it was.
pub proof fn law_signing_answers(
    before: TransactionView,
    index: int,
    reply: Result<Vec<u8>, RpcError>,
    r: Result<Signing, ManagerError>,
    after: TransactionView,
)
    requires
        signing_answer(before, index, reply, r, after),
        0 <= index < before.input.len(),
    ensures
        r != Ok::<Signing, ManagerError>(Signing::Applied) ==> after == before,
        reply matches Err(e) ==> r == Err::<Signing, ManagerError>(
            ManagerError::WalletError(Error::RpcError(e)),
        ),
        reply matches Ok(bytes) ==> {
            let decoded = decoded_transaction(bytes@);
            &&& decoded is None ==> r == Err::<Signing, ManagerError>(
                ManagerError::WalletError(Error::BitcoinError),
            )
            &&& decoded matches Some(signed) ==> (index >= signed.input.len() ==> r == Ok::<
                Signing,
                ManagerError,
            >(Signing::InputMissing))
            &&& decoded matches Some(signed) ==> (index < signed.input.len() ==> {
                &&& r == Ok::<Signing, ManagerError>(Signing::Applied)
                &&& after.input[index].script_sig == signed.input[index].script_sig
                &&& after.input[index].witness == signed.input[index].witness
            })
        },
        after.version == before.version,
        after.lock_time == before.lock_time,
        after.output == before.output,
        after.input.len() == before.input.len(),
        after.input[index].previous_output == before.input[index].previous_output,
        after.input[index].sequence == before.input[index].sequence,
        forall|j: int|
            0 <= j < before.input.len() && j != index ==> #[trigger] after.input[j]
                == before.input[j],
{
}

impl BitcoinCoreProvider {
    /// The request for the secret key of a public key, given how the node answered the question for
    /// its chain. The key is asked for by the address that pays to it, which every public key has.
    pub fn get_secret_key_for_pubkey(pubkey: &[u8; 33], chain: Result<String, RpcError>) -> (r:
        Result<DumpPrivateKeyRequest, ManagerError>)
        ensures
            key_request_answer(pubkey@, chain, r),
            match chain {
                Err(e) => r == Err::<DumpPrivateKeyRequest, ManagerError>(rpc_failure(e)),
                Ok(name) => match network_of(name@) {
                    None => r matches Err(e) && is_unknown_network(e),
                    Some(network) => if is_public_key(pubkey@) {
                        r matches Ok(request) && p2wpkh_address(pubkey@, network) == Some(
                            request.address@,
                        )
                    } else {
                        r == Err::<DumpPrivateKeyRequest, ManagerError>(
                            ManagerError::WalletError(Error::BitcoinError),
                        )
                    },
                },
            },
    {
        let network = match BitcoinCoreProvider::get_network(chain) {
            Ok(network) => network,
            Err(e) => {
                return Err(e);
            },
        };
        BitcoinCoreProvider::dump_private_key_request(p2wpkh(pubkey, network))
    }

    /// The request for the secret key of an address. Without an address the public key was not one.
    pub fn dump_private_key_request(address: Option<String>) -> (r: Result<
        DumpPrivateKeyRequest,
        ManagerError,
    >)
        ensures
            r == match address {
                Some(address) => Ok(DumpPrivateKeyRequest { address }),
                None => Err(ManagerError::WalletError(Error::BitcoinError)),
            },
    {
        match address {
            Some(address) => Ok(DumpPrivateKeyRequest { address }),
            None => Err(ManagerError::from(Error::BitcoinError)),
        }
    }

    /// The secret key that the node returned.
    pub fn dumped_secret_key(reply: Result<PrivateKey, RpcError>) -> (r: Result<
        [u8; 32],
        ManagerError,
    >)
        ensures
            r == dumped_key(reply),
            r == match reply {
                Ok(key) => Ok(key.inner),
                Err(e) => Err(rpc_failure(e)),
            },
    {
        match reply {
            Ok(key) => Ok(key.inner),
            Err(e) => Err(rpc_err_to_manager_err(e)),
        }
    }

    /// The request to sign an input of a transaction: the transaction, and what a node has to be told
    /// of the output that the input spends.
    pub fn sign_tx_input_request(
        tx: &Transaction,
        input_index: usize,
        tx_out: &TxOut,
        redeem_script: Option<Vec<u8>>,
    ) -> (request: SignRawTransactionRequest)
        requires
            input_index < tx.input.len(),
        ensures
            asks_to_sign(request, tx@, input_index as int, tx_out@, redeem_script),
            request.tx@ == encoded_transaction(tx@),
            (OutPointView { txid: request.utxo.txid@, vout: request.utxo.vout })
                == tx@.input[input_index as int].previous_output,
            request.utxo.script_pub_key@ == tx_out@.script_pubkey,
            request.utxo.redeem_script == redeem_script,
            request.utxo.amount == Some(tx_out@.value),
    {
        let outpoint = tx.input[input_index].previous_output;
        let utxo = SignRawTransactionInput {
            txid: outpoint.txid,
            vout: outpoint.vout,
            script_pub_key: copy_bytes(&tx_out.script_pubkey),
            redeem_script,
            amount: Some(tx_out.value),
        };
        SignRawTransactionRequest { tx: consensus_encode(tx), utxo }
    }

    /// Copies the signature of an input from the node's answer: the consensus encoding of the signed
    /// transaction.
    pub fn sign_tx_input(
        tx: &mut Transaction,
        input_index: usize,
        reply: Result<Vec<u8>, RpcError>,
    ) -> (r: Result<Signing, ManagerError>)
        requires
            input_index < old(tx).input.len(),
        ensures
            signing_answer(old(tx)@, input_index as int, reply, r, final(tx)@),
            match reply {
                Err(e) => r == Err::<Signing, ManagerError>(rpc_failure(e)) && final(tx)@ == old(
                    tx,
                )@,
                Ok(bytes) => match decoded_transaction(bytes@) {
                    None => r == Err::<Signing, ManagerError>(
                        ManagerError::WalletError(Error::BitcoinError),
                    ) && final(tx)@ == old(tx)@,
                    Some(signed) => if input_index < signed.input.len() {
                        r == Ok::<Signing, ManagerError>(Signing::Applied) && final(tx)@
                            == with_signature(old(tx)@, input_index as int, signed)
                    } else {
                        r == Ok::<Signing, ManagerError>(Signing::InputMissing) && final(tx)@
                            == old(tx)@
                    },
                },
            },
            reply matches Ok(bytes) ==> forall|signed: TransactionView| #[trigger]
                starts_with_encoding(bytes@, signed) && input_index < signed.input.len() ==> r == Ok::<
                    Signing,
                    ManagerError,
                >(Signing::Applied) && final(tx)@ == with_signature(
                    old(tx)@,
                    input_index as int,
                    signed,
                ),
    {
        let bytes = match reply {
            Ok(bytes) => bytes,
            Err(e) => {
                return Err(rpc_err_to_manager_err(e));
            },
        };
        let signed_tx = match consensus_decode(&bytes) {
            Ok(signed_tx) => signed_tx,
            Err(e) => {
                return Err(enc_err_to_manager_err(e));
            },
        };
        if input_index < signed_tx.input.len() {
            apply_signature(tx, input_index, &signed_tx);
            Ok(Signing::Applied)
        } else {
            Ok(Signing::InputMissing)
        }
    }
}

} // verus!
