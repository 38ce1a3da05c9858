//! The Bitcoin networks, and the chain names by which a node reports them.
use crate::error::{rpc_err_to_manager_err, rpc_failure, Error, ManagerError, RpcError};
use crate::provider::BitcoinCoreProvider;
use vstd::prelude::*;

verus! {

/// A Bitcoin network.
#[derive(Clone, Copy, Debug, PartialEq, Eq, Structural)]
pub enum Network {
    /// The main network.
    Bitcoin,
    /// The public test network.
    Testnet,
    /// A test network with signed blocks.
    Signet,
    /// A local test network.
    Regtest,
}

/// The name by which a node reports that it follows a network.
pub open spec fn chain_name(network: Network) -> Seq<char> {
    match network {
        Network::Bitcoin => "main"@,
        Network::Testnet => "test"@,
        Network::Signet => "signet"@,
        Network::Regtest => "regtest"@,
    }
}

/// The network that a chain name stands for, if it stands for one.
pub open spec fn network_of(chain: Seq<char>) -> Option<Network> {
    if chain == "main"@ {
        Some(Network::Bitcoin)
    } else if chain == "test"@ {
        Some(Network::Testnet)
    } else if chain == "regtest"@ {
        Some(Network::Regtest)
    } else if chain == "signet"@ {
        Some(Network::Signet)
    } else {
        None
    }
}

/// The error for a chain name that stands for no known network.
pub open spec fn is_unknown_network(e: ManagerError) -> bool {
    e matches ManagerError::BlockchainError(text) && text@ == "Unknown Bitcoin network"@
}

/// What asking a node for its network yields, given how it answered the question for its chain.
pub open spec fn network_answer(
    chain: Result<String, RpcError>,
    r: Result<Network, ManagerError>,
) -> bool {
    match chain {
        Err(e) => r == Err::<Network, ManagerError>(rpc_failure(e)),
        Ok(name) => match network_of(name@) {
            Some(network) => r == Ok::<Network, ManagerError>(network),
            None => r is Err && is_unknown_network(r->Err_0),
        },
    }
}

/// The names of the networks are different texts.
proof fn lemma_names_differ()
    ensures
        "main"@ != "test"@,
        "main"@ != "signet"@,
        "main"@ != "regtest"@,
        "test"@ != "signet"@,
        "test"@ != "regtest"@,
        "signet"@ != "regtest"@,
{
    reveal_strlit("main");
    reveal_strlit("test");
    reveal_strlit("signet");
    reveal_strlit("regtest");
    assert("main"@[0] != "test"@[0]);
    assert("signet"@.len() != "regtest"@.len());
    assert("signet"@.len() != "main"@.len() && "regtest"@.len() != "main"@.len());
    assert("signet"@.len() != "test"@.len() && "regtest"@.len() != "test"@.len());
}

/// Every network is the one that its chain name stands for, and no other name stands for it.
pub proof fn law_chain_names(network: Network, chain: Seq<char>)
    ensures
        network_of(chain) == Some(network) <==> chain == chain_name(network),
{
    lemma_names_differ();
}

/// The four names that stand for a network, and the network of each. No other name stands for one.
pub proof fn law_networks_by_name(chain: Seq<char>)
    ensures
        network_of(chain) == Some(Network::Bitcoin) <==> chain == "main"@,
        network_of(chain) == Some(Network::Testnet) <==> chain == "test"@,
        network_of(chain) == Some(Network::Signet) <==> chain == "signet"@,
        network_of(chain) == Some(Network::Regtest) <==> chain == "regtest"@,
        chain_name(Network::Bitcoin) == "main"@,
        chain_name(Network::Testnet) == "test"@,
        chain_name(Network::Signet) == "signet"@,
        chain_name(Network::Regtest) == "regtest"@,
{
    lemma_names_differ();
}

/// The error for an unknown network is a block chain error that says so, and no other error is.
pub proof fn law_unknown_network_is_a_blockchain_error(e: ManagerError)
    ensures
        is_unknown_network(e) <==> (e matches ManagerError::BlockchainError(text) && text@
            == "Unknown Bitcoin network"@),
{
}

/// What a node's answer is taken for: a failure as it came, a known name as its network, and any
/// other name as the error for an unknown network.
pub proof fn law_network_answers(chain: Result<String, RpcError>, r: Result<Network, ManagerError>)
    requires
        network_answer(chain, r),
    ensures
        chain matches Err(e) ==> r == Err::<Network, ManagerError>(
            ManagerError::WalletError(Error::RpcError(e)),
        ),
        chain matches Ok(name) ==> (r matches Ok(network) ==> name@ == chain_name(network)),
        chain matches Ok(name) ==> (r matches Err(e) ==> e is BlockchainError && forall|n: Network|
            name@ != #[trigger] chain_name(n)),
{
    lemma_names_differ();
}

impl BitcoinCoreProvider {
    /// The network that the node follows, from its answer to `getblockchaininfo`: the chain name.
    pub fn get_network(chain: Result<String, RpcError>) -> (r: Result<Network, ManagerError>)
        ensures
            network_answer(chain, r),
            chain matches Err(e) ==> r == Err::<Network, ManagerError>(
                ManagerError::WalletError(Error::RpcError(e)),
            ),
            chain matches Ok(name) ==> {
                &&& name@ == "main"@ <==> r == Ok::<Network, ManagerError>(Network::Bitcoin)
                &&& name@ == "test"@ <==> r == Ok::<Network, ManagerError>(Network::Testnet)
                &&& name@ == "signet"@ <==> r == Ok::<Network, ManagerError>(Network::Signet)
                &&& name@ == "regtest"@ <==> r == Ok::<Network, ManagerError>(Network::Regtest)
                &&& r matches Err(e) ==> (e matches ManagerError::BlockchainError(text) && text@
                    == "Unknown Bitcoin network"@)
            },
    {
        proof {
            lemma_names_differ();
        }
        let chain = match chain {
            Ok(chain) => chain,
            Err(e) => {
                return Err(rpc_err_to_manager_err(e));
            },
        };
        if chain == "main".to_owned() {
            Ok(Network::Bitcoin)
        } else if chain == "test".to_owned() {
            Ok(Network::Testnet)
        } else if chain == "regtest".to_owned() {
            Ok(Network::Regtest)
        } else if chain == "signet".to_owned() {
            Ok(Network::Signet)
        } else {
            Err(ManagerError::BlockchainError("Unknown Bitcoin network".to_owned()))
        }
    }
}

} // verus!
