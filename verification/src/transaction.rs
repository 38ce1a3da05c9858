//! Transactions, and their consensus encoding.
use bitcoin::consensus::encode::Error as EncodeError;
use vstd::prelude::*;

verus! {

/// A reference to an output of a transaction.
#[derive(Clone, Copy, Debug, PartialEq, Eq)]
pub struct OutPoint {
    /// The id of the transaction, in the byte order in which it is hashed.
    pub txid: [u8; 32],
    /// The index of the output.
    pub vout: u32,
}

/// The model of an [`OutPoint`].
pub struct OutPointView {
    pub txid: Seq<u8>,
    pub vout: u32,
}

impl View for OutPoint {
    type V = OutPointView;

    open spec fn view(&self) -> OutPointView {
        OutPointView { txid: self.txid@, vout: self.vout }
    }
}

/// An output of a transaction.
#[derive(Debug, PartialEq, Eq)]
pub struct TxOut {
    /// The value in satoshis.
    pub value: u64,
    /// The script that has to be satisfied to spend the output.
    pub script_pubkey: Vec<u8>,
}

/// The model of a [`TxOut`].
pub struct TxOutView {
    pub value: u64,
    pub script_pubkey: Seq<u8>,
}

impl View for TxOut {
    type V = TxOutView;

    open spec fn view(&self) -> TxOutView {
        TxOutView { value: self.value, script_pubkey: self.script_pubkey@ }
    }
}

/// An input of a transaction.
#[derive(Debug, PartialEq, Eq)]
pub struct TxIn {
    /// The output that is spent.
    pub previous_output: OutPoint,
    /// The script that satisfies the script of the spent output.
    pub script_sig: Vec<u8>,
    /// The sequence number.
    pub sequence: u32,
    /// The stack of witness elements.
    pub witness: Vec<Vec<u8>>,
}

/// The model of a [`TxIn`].
pub struct TxInView {
    pub previous_output: OutPointView,
    pub script_sig: Seq<u8>,
    pub sequence: u32,
    pub witness: Seq<Seq<u8>>,
}

/// The elements of a witness as byte sequences.
pub open spec fn witness_view(witness: Seq<Vec<u8>>) -> Seq<Seq<u8>> {
    Seq::new(witness.len(), |i: int| witness[i]@)
}

impl View for TxIn {
    type V = TxInView;

    open spec fn view(&self) -> TxInView {
        TxInView {
            previous_output: self.previous_output@,
            script_sig: self.script_sig@,
            sequence: self.sequence,
            witness: witness_view(self.witness@),
        }
    }
}

/// A transaction.
#[derive(Debug, PartialEq, Eq)]
pub struct Transaction {
    /// The version of the transaction.
    pub version: i32,
    /// The height or time before which the transaction cannot be mined.
    pub lock_time: u32,
    /// The inputs.
    pub input: Vec<TxIn>,
    /// The outputs.
    pub output: Vec<TxOut>,
}

/// The model of a [`Transaction`].
pub struct TransactionView {
    pub version: i32,
    pub lock_time: u32,
    pub input: Seq<TxInView>,
    pub output: Seq<TxOutView>,
}

impl View for Transaction {
    type V = TransactionView;

    open spec fn view(&self) -> TransactionView {
        TransactionView {
            version: self.version,
            lock_time: self.lock_time,
            input: Seq::new(self.input@.len(), |i: int| self.input@[i]@),
            output: Seq::new(self.output@.len(), |i: int| self.output@[i]@),
        }
    }
}

/// Copies a byte vector.
pub(crate) fn copy_bytes(bytes: &Vec<u8>) -> (copy: Vec<u8>)
    ensures
        copy@ == bytes@,
{
    let copy = bytes.clone();
    assert(copy@ =~= bytes@);
    copy
}

/// The consensus encoding of a transaction: what `bitcoin::consensus::serialize` writes of it.
pub uninterp spec fn encoded_transaction(tx: TransactionView) -> Seq<u8>;

/// Calls `bitcoin::consensus::serialize`. The contract claims that the outcome is a function of the
/// transaction; see [`consensus_decode`] for what is read from it. How a transaction is encoded is
/// left to that crate.
#[verifier::external_body]
pub(crate) fn consensus_encode(tx: &Transaction) -> (r: Vec<u8>)
    ensures
        r@ == encoded_transaction(tx@),
{
    let input = tx.input.iter().map(|i| bitcoin::TxIn {
        previous_output: bitcoin::OutPoint {
            txid: bitcoin::hashes::Hash::from_inner(i.previous_output.txid),
            vout: i.previous_output.vout,
        },
        script_sig: i.script_sig.clone().into(),
        sequence: bitcoin::Sequence(i.sequence),
        witness: bitcoin::Witness::from_vec(i.witness.clone()),
    }).collect();
    let output = tx.output.iter().map(
        |o| bitcoin::TxOut { value: o.value, script_pubkey: o.script_pubkey.clone().into() },
    ).collect();
    let lock_time = bitcoin::PackedLockTime(tx.lock_time);
    bitcoin::consensus::serialize(&bitcoin::Transaction { version: tx.version, lock_time, input, output })
}

/// The transaction that the consensus encoding at the start of some bytes stands for, or `None` if
/// there is none: what `bitcoin::Transaction::consensus_decode` reads from them.
pub uninterp spec fn decoded_transaction(bytes: Seq<u8>) -> Option<TransactionView>;

/// The number of bytes up to which a transaction is decoded.
pub const MAX_DECODED: usize = 4_000_000;

/// Every id in the inputs of a transaction has its 32 bytes.
pub open spec fn complete_ids(tx: TransactionView) -> bool {
    forall|i: int|
        0 <= i < tx.input.len() ==> (#[trigger] tx.input[i]).previous_output.txid.len() == 32
}

/// The ids in a transaction are complete.
pub(crate) proof fn lemma_ids_are_complete(tx: &Transaction)
    ensures
        complete_ids(tx@),
{
    assert forall|i: int| 0 <= i < tx@.input.len() implies (
    #[trigger] tx@.input[i]).previous_output.txid.len() == 32 by {
        assert(tx@.input[i] == tx.input@[i]@);
    }
}

/// Some bytes start with the consensus encoding of a transaction that is not too long to be decoded.
pub open spec fn starts_with_encoding(bytes: Seq<u8>, tx: TransactionView) -> bool {
    &&& complete_ids(tx)
    &&& encoded_transaction(tx).len() <= MAX_DECODED
    &&& encoded_transaction(tx).is_prefix_of(bytes)
}

/// An encoding may be followed by anything.
pub proof fn law_encoding_may_be_followed_by_anything(
    bytes: Seq<u8>,
    tx: TransactionView,
    rest: Seq<u8>,
)
    requires
        starts_with_encoding(bytes, tx),
    ensures
        starts_with_encoding(bytes + rest, tx),
{
    assert(encoded_transaction(tx) =~= (bytes + rest).take(encoded_transaction(tx).len() as int));
}

/// Calls `bitcoin::Transaction::consensus_decode`. The contract claims that the outcome is a function
/// of the bytes; that bytes added after those that stand for a transaction make no difference; and
/// that decoding undoes `bitcoin::consensus::serialize`: from bytes that start with the encoding of a
/// transaction, if that has at most [`MAX_DECODED`] bytes, it reads that transaction. What is read
/// from other bytes is left to that crate.
#[verifier::external_body]
pub(crate) fn consensus_decode(bytes: &Vec<u8>) -> (r: Result<Transaction, EncodeError>)
    ensures
        match r {
            Ok(tx) => decoded_transaction(bytes@) == Some(tx@),
            Err(_) => decoded_transaction(bytes@) is None,
        },
        r matches Ok(tx) ==> forall|rest: Seq<u8>| #[trigger]
            decoded_transaction(bytes@ + rest) == Some(tx@),
        match r {
            Ok(tx) => forall|t: TransactionView| #[trigger]
                starts_with_encoding(bytes@, t) ==> tx@ == t,
            Err(_) => forall|t: TransactionView| !#[trigger] starts_with_encoding(bytes@, t),
        },
{
    let mut reader = bytes.as_slice();
    let tx: bitcoin::Transaction = bitcoin::consensus::Decodable::consensus_decode(&mut reader)?;
    let input = tx.input.into_iter().map(|i| TxIn {
        previous_output: OutPoint {
            txid: bitcoin::hashes::Hash::into_inner(i.previous_output.txid),
            vout: i.previous_output.vout,
        },
        script_sig: i.script_sig.into_bytes(),
        sequence: i.sequence.0,
        witness: i.witness.to_vec(),
    }).collect();
    let output = tx.output.into_iter().map(
        |o| TxOut { value: o.value, script_pubkey: o.script_pubkey.into_bytes() },
    ).collect();
    Ok(Transaction { version: tx.version, lock_time: tx.lock_time.0, input, output })
}

/// The model of a transaction has everything that the transaction has: its version and lock time, and
/// every field of each of its inputs and outputs, in their order.
pub proof fn law_model_keeps_the_transaction(tx: &Transaction)
    ensures
        tx@.version == tx.version,
        tx@.lock_time == tx.lock_time,
        tx@.input.len() == tx.input.len(),
        forall|i: int|
            0 <= i < tx.input.len() ==> {
                &&& (#[trigger] tx@.input[i]).previous_output.txid == tx.input[i].previous_output.txid@
                &&& tx@.input[i].previous_output.vout == tx.input[i].previous_output.vout
                &&& tx@.input[i].script_sig == tx.input[i].script_sig@
                &&& tx@.input[i].sequence == tx.input[i].sequence
                &&& tx@.input[i].witness.len() == tx.input[i].witness.len()
                &&& forall|k: int|
                    0 <= k < tx.input[i].witness.len() ==> #[trigger] tx@.input[i].witness[k]
                        == tx.input[i].witness[k]@
            },
        tx@.output.len() == tx.output.len(),
        forall|i: int|
            0 <= i < tx.output.len() ==> (#[trigger] tx@.output[i]).value == tx.output[i].value
                && tx@.output[i].script_pubkey == tx.output[i].script_pubkey@,
{
}

/// The models of an input, an output and a reference have every field of what they model.
pub proof fn law_models_keep_every_field(input: &TxIn, output: &TxOut, outpoint: &OutPoint)
    ensures
        input@.previous_output.txid == input.previous_output.txid@,
        input@.previous_output.vout == input.previous_output.vout,
        input@.script_sig == input.script_sig@,
        input@.sequence == input.sequence,
        input@.witness.len() == input.witness.len(),
        forall|k: int|
            0 <= k < input.witness.len() ==> #[trigger] input@.witness[k] == input.witness[k]@,
        output@.value == output.value,
        output@.script_pubkey == output.script_pubkey@,
        outpoint@.txid == outpoint.txid@,
        outpoint@.vout == outpoint.vout,
{
}

/// The model of a witness has its elements in their order.
pub proof fn law_witness_model(witness: Seq<Vec<u8>>, k: int)
    ensures
        witness_view(witness).len() == witness.len(),
        0 <= k < witness.len() ==> witness_view(witness)[k] == witness[k]@,
{
}

/// Bytes start with the encoding of a transaction exactly if they are that encoding and what follows.
pub proof fn law_encoding_comes_first(bytes: Seq<u8>, tx: TransactionView)
    requires
        forall|i: int|
            0 <= i < tx.input.len() ==> (#[trigger] tx.input[i]).previous_output.txid.len() == 32,
        encoded_transaction(tx).len() <= 4_000_000,
    ensures
        starts_with_encoding(bytes, tx) <==> encoded_transaction(tx).len() <= bytes.len()
            && bytes.take(encoded_transaction(tx).len() as int) == encoded_transaction(tx),
{
}

} // verus!
