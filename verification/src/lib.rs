//! A provider of wallet, block chain and fee services on top of a Bitcoin Core node.
//!
//! The library decides what the node is asked and what its answers mean; it does not talk to the
//! node itself. A function that makes a request returns its parameters, a function that takes a
//! `Result<_, RpcError>` takes the node's answer to a request, or the failure to get one.
pub mod blockchain;
pub mod coins;
pub mod error;
pub mod fees;
pub mod keys;
pub mod network;
pub mod provider;
pub mod signer;
pub mod transaction;
pub mod wallet;
