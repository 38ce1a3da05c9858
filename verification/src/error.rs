//! The errors of the provider, and how they are handed to a DLC manager.
use bitcoin::consensus::encode::Error as EncodeError;
use bitcoincore_rpc::Error as ClientError;
use vstd::prelude::*;
use vstd::std_specs::convert::FromSpec;

verus! {

/// `bitcoincore_rpc::Error`, the failure that the RPC client reports. Only carried, never read.
#[verifier::external_type_specification]
#[verifier::external_body]
pub struct ExClientError(ClientError);

/// `bitcoin::consensus::encode::Error`, the failure of a consensus decoding. Only carried, never
/// read.
#[verifier::external_type_specification]
#[verifier::external_body]
pub struct ExEncodeError(EncodeError);

/// The error object with which the node answered a request.
#[derive(Debug)]
pub struct RpcResponse {
    /// The code of the JSON-RPC error object.
    pub code: i32,
    /// The message of the JSON-RPC error object.
    pub message: String,
}

/// A failed request to the node.
#[derive(Debug)]
pub struct RpcError {
    /// What the node answered, if the request failed because the node answered with an error.
    /// `None` for every other failure (transport, malformed answer, ...).
    pub response: Option<RpcResponse>,
    /// The failure as the RPC client reported it.
    pub source: ClientError,
}

/// What can go wrong in the provider.
#[derive(Debug)]
pub enum Error {
    /// A request to the node failed.
    RpcError(RpcError),
    /// The wallet does not hold enough spendable coins.
    NotEnoughCoins,
    /// A key, an address or a transaction is malformed.
    BitcoinError,
    /// The node reported something that should not occur.
    InvalidState,
}

/// What a DLC manager gets to see of a failure.
#[derive(Debug)]
pub enum ManagerError {
    /// An error of this provider.
    WalletError(Error),
    /// The block chain that the node follows is not usable.
    BlockchainError(String),
}

/// The text shown for an error.
pub open spec fn error_message(e: Error) -> Seq<char> {
    match e {
        Error::RpcError(_) => "Bitcoin Rpc Error"@,
        Error::NotEnoughCoins => "Utxo pool did not contain enough coins to reach target."@,
        Error::BitcoinError => "Bitcoin related error"@,
        Error::InvalidState => "Unexpected state was encountered"@,
    }
}

/// The failure of the RPC client that caused an error, if one did.
pub open spec fn cause_of(e: Error) -> Option<ClientError> {
    match e {
        Error::RpcError(failure) => Some(failure.source),
        _ => None,
    }
}

/// A failed request is caused by what the RPC client reported, whatever the node answered, and no
/// other error has a cause.
pub proof fn law_causes(e: Error)
    ensures
        e is RpcError <==> cause_of(e) is Some,
        e matches Error::RpcError(failure) ==> cause_of(e) == Some(failure.source),
{
}

impl Error {
    /// The text shown for this error.
    pub fn message(&self) -> (text: String)
        ensures
            text@ == error_message(*self),
            *self is RpcError ==> text@ == "Bitcoin Rpc Error"@,
            *self is NotEnoughCoins ==> text@
                == "Utxo pool did not contain enough coins to reach target."@,
            *self is BitcoinError ==> text@ == "Bitcoin related error"@,
            *self is InvalidState ==> text@ == "Unexpected state was encountered"@,
    {
        match self {
            Error::RpcError(_) => "Bitcoin Rpc Error".to_owned(),
            Error::NotEnoughCoins => {
                "Utxo pool did not contain enough coins to reach target.".to_owned()
            },
            Error::BitcoinError => "Bitcoin related error".to_owned(),
            Error::InvalidState => "Unexpected state was encountered".to_owned(),
        }
    }

    /// The failure that caused this error: that of the RPC client for [`Error::RpcError`], none
    /// for the others.
    pub fn source(&self) -> (cause: Option<&ClientError>)
        ensures
            cause is Some <==> cause_of(*self) is Some,
            cause matches Some(source) ==> cause_of(*self) == Some(*source),
            cause == match *self {
                Error::RpcError(e) => Some(&e.source),
                _ => None,
            },
    {
        match self {
            Error::RpcError(e) => Some(&e.source),
            _ => None,
        }
    }
}

impl From<RpcError> for Error {
    fn from(e: RpcError) -> (r: Error) {
        Error::RpcError(e)
    }
}

impl vstd::std_specs::convert::FromSpecImpl<RpcError> for Error {
    open spec fn obeys_from_spec() -> bool {
        true
    }

    open spec fn from_spec(e: RpcError) -> Error {
        Error::RpcError(e)
    }
}

impl From<EncodeError> for Error {
    fn from(_e: EncodeError) -> (r: Error) {
        Error::BitcoinError
    }
}

impl vstd::std_specs::convert::FromSpecImpl<EncodeError> for Error {
    open spec fn obeys_from_spec() -> bool {
        true
    }

    open spec fn from_spec(_e: EncodeError) -> Error {
        Error::BitcoinError
    }
}

impl From<Error> for ManagerError {
    fn from(e: Error) -> (r: ManagerError) {
        ManagerError::WalletError(e)
    }
}

impl vstd::std_specs::convert::FromSpecImpl<Error> for ManagerError {
    open spec fn obeys_from_spec() -> bool {
        true
    }

    open spec fn from_spec(e: Error) -> ManagerError {
        ManagerError::WalletError(e)
    }
}

/// The manager's error for a failed request.
pub open spec fn rpc_failure(e: RpcError) -> ManagerError {
    ManagerError::WalletError(Error::RpcError(e))
}

/// Hands a failed request to the manager.
pub fn rpc_err_to_manager_err(e: RpcError) -> (r: ManagerError)
    ensures
        r == rpc_failure(e),
        r == ManagerError::WalletError(Error::RpcError(e)),
{
    ManagerError::from(Error::from(e))
}

/// Hands a failed decoding to the manager.
pub fn enc_err_to_manager_err(e: EncodeError) -> (r: ManagerError)
    ensures
        r == ManagerError::WalletError(Error::BitcoinError),
{
    ManagerError::from(Error::from(e))
}

/// What the manager gets for the outcome of a request whose answer is passed on as it is.
pub open spec fn passed_on<T>(reply: Result<T, RpcError>) -> Result<T, ManagerError> {
    match reply {
        Ok(value) => Ok(value),
        Err(e) => Err(rpc_failure(e)),
    }
}

/// Passes the answer to a request on to the manager, or its failure as a wallet error.
pub fn pass_on<T>(reply: Result<T, RpcError>) -> (r: Result<T, ManagerError>)
    ensures
        r == passed_on(reply),
        reply matches Ok(value) ==> r == Ok::<T, ManagerError>(value),
        reply matches Err(e) ==> r == Err::<T, ManagerError>(
            ManagerError::WalletError(Error::RpcError(e)),
        ),
{
    match reply {
        Ok(value) => Ok(value),
        Err(e) => Err(rpc_err_to_manager_err(e)),
    }
}

/// The manager gets a failed request whole, as a wallet error, and an answer as it came.
pub proof fn law_failures_reach_the_manager_whole<T>(e: RpcError, value: T)
    ensures
        rpc_failure(e) == ManagerError::WalletError(Error::RpcError(e)),
        passed_on::<T>(Err(e)) == Err::<T, ManagerError>(
            ManagerError::WalletError(Error::RpcError(e)),
        ),
        passed_on::<T>(Ok(value)) == Ok::<T, ManagerError>(value),
{
}

/// Two failed requests that the manager cannot tell apart are the same.
pub proof fn law_failures_are_told_apart<T>(a: RpcError, b: RpcError)
    requires
        rpc_failure(a) == rpc_failure(b) || passed_on::<T>(Err(a)) == passed_on::<T>(Err(b)),
    ensures
        a == b,
{
}

/// A failed request becomes the error that carries it, a failed decoding the error without a cause,
/// and every error of the provider a wallet error of the manager.
pub proof fn law_conversions(e: RpcError, d: EncodeError, w: Error)
    ensures
        <Error as FromSpec<RpcError>>::from_spec(e) == Error::RpcError(e),
        <Error as FromSpec<EncodeError>>::from_spec(d) == Error::BitcoinError,
        <ManagerError as FromSpec<Error>>::from_spec(w) == ManagerError::WalletError(w),
{
}

/// Each kind of error has its own text, whatever the error carries.
pub proof fn law_error_messages(e: Error)
    ensures
        e is RpcError <==> error_message(e) == "Bitcoin Rpc Error"@,
        e is NotEnoughCoins <==> error_message(e)
            == "Utxo pool did not contain enough coins to reach target."@,
        e is BitcoinError <==> error_message(e) == "Bitcoin related error"@,
        e is InvalidState <==> error_message(e) == "Unexpected state was encountered"@,
{
    reveal_strlit("Bitcoin Rpc Error");
    reveal_strlit("Utxo pool did not contain enough coins to reach target.");
    reveal_strlit("Bitcoin related error");
    reveal_strlit("Unexpected state was encountered");
    assert("Bitcoin Rpc Error"@.len() != "Bitcoin related error"@.len());
    assert("Unexpected state was encountered"@.len() != "Bitcoin related error"@.len());
    assert("Unexpected state was encountered"@.len() != "Bitcoin Rpc Error"@.len());
    assert("Utxo pool did not contain enough coins to reach target."@.len() > 40);
}

} // verus!
