# Bitcoin rpc provider

Serves a DLC manager and a Lightning node from a Bitcoin Core node: wallet, signing, block chain
and fee rate estimates.

- `src/` is a library verified with Verus. It holds what the provider decides: which requests go to
  the node and with which parameters, what the answers mean, which coins fund an amount, how a
  signature gets into a transaction, and how the fee rate estimates follow from the node's
  estimates.
  - `error`: the errors, and how they are handed to a DLC manager
  - `provider`: where the node is reached, and what a provider holds
  - `network`: the networks and their chain names
  - `fees`: the estimates, and the polling that keeps them up to date
  - `transaction`, `keys`: transactions and keys, with the calls into the `bitcoin` crate
  - `coins`: choosing coins, with the call into the `bitcoin-coin-selection` crate
  - `signer`, `wallet`, `blockchain`: the services
- `app/` connects the library to the RPC client, and implements the traits of `dlc-manager` and
  `lightning`.
- `tests/` runs the library.

The library trusts what the doc comments of the functions marked `external_body` and of the
`assume_specification` items claim of the outside crates.
