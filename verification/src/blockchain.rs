//! What the node knows of the block chain.
use crate::error::{
    pass_on, passed_on, rpc_err_to_manager_err, rpc_failure, Error, ManagerError, RpcError,
};
use crate::provider::BitcoinCoreProvider;
use crate::transaction::{
    consensus_decode, consensus_encode, decoded_transaction, encoded_transaction,
    lemma_ids_are_complete, starts_with_encoding, Transaction, TransactionView, MAX_DECODED,
};
use vstd::prelude::*;

verus! {

/// The code with which the node answers a question for a transaction that its wallet does not know.
pub const UNKNOWN_TRANSACTION_CODE: i32 = -5;

/// The request to broadcast a transaction (`sendrawtransaction`).
#[derive(Debug, PartialEq, Eq)]
pub struct SendRawTransactionRequest {
    /// The consensus encoding of the transaction.
    pub tx: Vec<u8>,
}

/// The request for a block (`getblock`).
#[derive(Clone, Copy, Debug, PartialEq, Eq)]
pub struct GetBlockRequest {
    /// The hash of the block, in the byte order in which it is computed.
    pub hash: [u8; 32],
}

/// The node answered that its wallet does not know the transaction.
pub open spec fn is_unknown_transaction(e: RpcError) -> bool {
    e.response matches Some(response) && response.code == UNKNOWN_TRANSACTION_CODE
        && response.message@ == "Invalid or non-wallet transaction id"@
}

/// Whether the node answered that its wallet does not know the transaction.
fn unknown_transaction(e: &RpcError) -> (r: bool)
    ensures
        r == is_unknown_transaction(*e),
{
    match &e.response {
        Some(response) => {
            response.code == UNKNOWN_TRANSACTION_CODE && response.message
                == "Invalid or non-wallet transaction id".to_owned()
        },
        None => false,
    }
}

/// The number of confirmations as an unsigned number. The node counts down from zero for a
/// transaction that conflicts with one that is confirmed; such counts wrap around.
pub open spec fn unsigned_confirmations(confirmations: i32) -> int {
    if confirmations >= 0 {
        confirmations as int
    } else {
        confirmations + 0x1_0000_0000
    }
}

/// A count from zero up is the count that is reported, and every count agrees with the one that is
/// reported in its lowest 32 bits.
pub proof fn law_confirmations_are_reported(confirmations: i32)
    ensures
        confirmations >= 0 ==> unsigned_confirmations(confirmations) == confirmations,
        0 <= unsigned_confirmations(confirmations) < 0x1_0000_0000,
        (unsigned_confirmations(confirmations) - confirmations) % 0x1_0000_0000 == 0,
{
}

/// Different counts are reported as different numbers, and among counts from zero up more as more.
pub proof fn law_confirmations_are_told_apart(a: i32, b: i32)
    ensures
        unsigned_confirmations(a) == unsigned_confirmations(b) <==> a == b,
        0 <= a < b ==> unsigned_confirmations(a) < unsigned_confirmations(b),
{
}

/// A transaction is unknown exactly if the node answered with code -5 and the text for it. A failure
/// to get an answer does not say so.
pub proof fn law_unknown_transactions(e: RpcError)
    ensures
        is_unknown_transaction(e) <==> (e.response is Some && e.response->0.code == -5
            && e.response->0.message@ == "Invalid or non-wallet transaction id"@),
{
}

/// What came of broadcasting, from the node's answer.
pub open spec fn sent(reply: Result<[u8; 32], RpcError>) -> Result<(), ManagerError> {
    match reply {
        Ok(_) => Ok(()),
        Err(e) => Err(rpc_failure(e)),
    }
}

/// The request for the block with a hash, from the node's answer to the question for the hash.
pub open spec fn block_request(hash: Result<[u8; 32], RpcError>) -> Result<
    GetBlockRequest,
    ManagerError,
> {
    match hash {
        Ok(hash) => Ok(GetBlockRequest { hash }),
        Err(e) => Err(rpc_failure(e)),
    }
}

/// What is taken for the transaction of an answer of the node.
pub open spec fn transaction_answer(
    reply: Result<Vec<u8>, RpcError>,
    r: Result<Transaction, ManagerError>,
) -> bool {
    match reply {
        Err(e) => r == Err::<Transaction, ManagerError>(rpc_failure(e)),
        Ok(bytes) => match decoded_transaction(bytes@) {
            Some(tx) => r matches Ok(transaction) && transaction@ == tx,
            None => r == Err::<Transaction, ManagerError>(
                ManagerError::WalletError(Error::BitcoinError),
            ),
        },
    }
}

/// What is taken for the number of confirmations of an answer of the node.
pub open spec fn confirmations_answer(
    reply: Result<i32, RpcError>,
    r: Result<u32, ManagerError>,
) -> bool {
    match reply {
        Ok(confirmations) => r matches Ok(n) && n == unsigned_confirmations(confirmations),
        Err(e) => if is_unknown_transaction(e) {
            r == Ok::<u32, ManagerError>(0)
        } else {
            r == Err::<u32, ManagerError>(rpc_failure(e))
        },
    }
}

/// Broadcasting succeeds exactly if the node answered with an id, whatever the id. A failure reaches
/// the manager whole.
pub proof fn law_sent_if_answered(reply: Result<[u8; 32], RpcError>)
    ensures
        sent(reply) is Ok <==> reply is Ok,
        reply matches Err(e) ==> sent(reply) == Err::<(), ManagerError>(
            ManagerError::WalletError(Error::RpcError(e)),
        ),
{
}

/// The block that is asked for is the one with the hash that the node gave.
pub proof fn law_block_of_the_given_hash(reply: Result<[u8; 32], RpcError>)
    ensures
        reply matches Ok(hash) ==> (block_request(reply) matches Ok(request) && request.hash == hash),
        reply matches Err(e) ==> block_request(reply) == Err::<GetBlockRequest, ManagerError>(
            ManagerError::WalletError(Error::RpcError(e)),
        ),
{
}

/// The transaction is the one that the node's bytes stand for, the bytes are at fault exactly if they
/// stand for none, and a failure reaches the manager whole.
pub proof fn law_transaction_answers(
    reply: Result<Vec<u8>, RpcError>,
    r: Result<Transaction, ManagerError>,
)
    requires
        transaction_answer(reply, r),
    ensures
        r matches Ok(tx) ==> (reply matches Ok(bytes) && decoded_transaction(bytes@) == Some(tx@)),
        reply matches Ok(bytes) ==> (r matches Err(e) ==> decoded_transaction(bytes@) is None && e
            == ManagerError::WalletError(Error::BitcoinError)),
        reply matches Err(e) ==> r == Err::<Transaction, ManagerError>(
            ManagerError::WalletError(Error::RpcError(e)),
        ),
{
}

/// A count that the node reports from zero up is the result. A transaction that the wallet does not
/// know has none, and every other failure reaches the manager whole.
pub proof fn law_confirmation_answers(reply: Result<i32, RpcError>, r: Result<u32, ManagerError>)
    requires
        confirmations_answer(reply, r),
    ensures
        reply matches Ok(c) ==> (r matches Ok(n) && (n - c) % 0x1_0000_0000 == 0),
        reply matches Ok(c) ==> (c >= 0 ==> (r matches Ok(n) && n == c)),
        reply matches Err(e) ==> (r matches Ok(n) ==> n == 0 && e.response is Some
            && e.response->0.code == -5 && e.response->0.message@
            == "Invalid or non-wallet transaction id"@),
        reply matches Err(e) ==> (r matches Err(d) ==> d == ManagerError::WalletError(
            Error::RpcError(e),
        ) && !(e.response is Some && e.response->0.code == -5 && e.response->0.message@
            == "Invalid or non-wallet transaction id"@)),
{
}

impl BitcoinCoreProvider {
    /// The request to broadcast a transaction. Unless the transaction is too long to be decoded,
    /// [`BitcoinCoreProvider::get_transaction`] reads it back from the bytes that are sent.
    pub fn send_transaction_request(transaction: &Transaction) -> (request:
        SendRawTransactionRequest)
        ensures
            request.tx@ == encoded_transaction(transaction@),
            request.tx.len() <= MAX_DECODED ==> starts_with_encoding(request.tx@, transaction@),
    {
        let tx = consensus_encode(transaction);
        proof {
            lemma_ids_are_complete(transaction);
        }
        SendRawTransactionRequest { tx }
    }

    /// What came of broadcasting a transaction (`sendrawtransaction`). The node answers with the id
    /// of the transaction, which is dropped.
    pub fn send_transaction(reply: Result<[u8; 32], RpcError>) -> (r: Result<(), ManagerError>)
        ensures
            r == sent(reply),
            r == match reply {
                Ok(_) => Ok(()),
                Err(e) => Err(rpc_failure(e)),
            },
    {
        match reply {
            Ok(_) => Ok(()),
            Err(e) => Err(rpc_err_to_manager_err(e)),
        }
    }

    /// The height of the block chain, from the node's answer to the question for it
    /// (`getblockcount`).
    pub fn get_blockchain_height(reply: Result<u64, RpcError>) -> (r: Result<u64, ManagerError>)
        ensures
            r == passed_on(reply),
    {
        pass_on(reply)
    }

    /// The request for the block at a height, given how the node answered the question for the
    /// hash of that block (`getblockhash`).
    pub fn get_block_at_height(hash: Result<[u8; 32], RpcError>) -> (r: Result<
        GetBlockRequest,
        ManagerError,
    >)
        ensures
            r == block_request(hash),
            r == match hash {
                Ok(hash) => Ok(GetBlockRequest { hash }),
                Err(e) => Err(rpc_failure(e)),
            },
    {
        match hash {
            Ok(hash) => Ok(GetBlockRequest { hash }),
            Err(e) => Err(rpc_err_to_manager_err(e)),
        }
    }

    /// The block at a height, from the node's answer to the request for it.
    pub fn block_at_height<B>(reply: Result<B, RpcError>) -> (r: Result<B, ManagerError>)
        ensures
            r == passed_on(reply),
    {
        pass_on(reply)
    }

    /// The transaction that the node returned (`gettransaction`), from its consensus encoding. What
    /// follows the encoding is not looked at.
    pub fn get_transaction(reply: Result<Vec<u8>, RpcError>) -> (r: Result<
        Transaction,
        ManagerError,
    >)
        ensures
            transaction_answer(reply, r),
            match reply {
                Err(e) => r == Err::<Transaction, ManagerError>(rpc_failure(e)),
                Ok(bytes) => match decoded_transaction(bytes@) {
                    Some(tx) => r matches Ok(transaction) && transaction@ == tx,
                    None => r == Err::<Transaction, ManagerError>(
                        ManagerError::WalletError(Error::BitcoinError),
                    ),
                },
            },
            reply matches Ok(bytes) ==> forall|t: TransactionView| #[trigger]
                starts_with_encoding(bytes@, t) ==> (r matches Ok(tx) && tx@ == t),
            reply matches Ok(bytes) ==> (r matches Ok(tx) ==> forall|rest: Seq<u8>| #[trigger]
                decoded_transaction(bytes@ + rest) == Some(tx@)),
    {
        match reply {
            Ok(bytes) => match consensus_decode(&bytes) {
                Ok(tx) => Ok(tx),
                Err(_) => Err(ManagerError::from(Error::BitcoinError)),
            },
            Err(e) => Err(rpc_err_to_manager_err(e)),
        }
    }

    /// The number of confirmations of a transaction, given how the node answered the question for
    /// it (`gettransaction`). A transaction that the wallet does not know has none.
    pub fn get_transaction_confirmations(reply: Result<i32, RpcError>) -> (r: Result<
        u32,
        ManagerError,
    >)
        ensures
            confirmations_answer(reply, r),
            match reply {
                Ok(confirmations) => r matches Ok(n) && n == unsigned_confirmations(confirmations),
                Err(e) => if is_unknown_transaction(e) {
                    r == Ok::<u32, ManagerError>(0)
                } else {
                    r == Err::<u32, ManagerError>(rpc_failure(e))
                },
            },
            reply matches Ok(c) ==> (c >= 0 ==> (r matches Ok(n) && n == c)),
            reply matches Ok(c) ==> (c < 0 ==> (r matches Ok(n) && n == c + 0x1_0000_0000)),
            reply matches Err(e) ==> (r is Ok <==> (e.response matches Some(answer) && answer.code
                == -5 && answer.message@ == "Invalid or non-wallet transaction id"@)),
            reply matches Err(e) ==> (r matches Ok(n) ==> n == 0),
            reply matches Err(e) ==> (r matches Err(d) ==> d == ManagerError::WalletError(
                Error::RpcError(e),
            )),
    {
        match reply {
            Ok(confirmations) => {
                assert(confirmations < 0 ==> #[verifier::truncate] (confirmations as u32)
                    == confirmations + 0x1_0000_0000) by (bit_vector);
                Ok(#[verifier::truncate] (confirmations as u32))
            },
            Err(e) => {
                if unknown_transaction(&e) {
                    return Ok(0);
                }
                Err(rpc_err_to_manager_err(e))
            },
        }
    }
}

} // verus!
