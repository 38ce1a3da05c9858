//! The wallet of the node: addresses, keys, and the coins that fund an amount.
use crate::coins::{
    law_choice_within_pool, law_nothing_selected_means_too_few_coins,
    any_usable, changeless_found, chosen_sum, funds, is_selection, select_coins, selection_view,
    usable_sum, MAX_COIN_VALUE, MAX_MONEY,
};
use crate::error::{
    pass_on, passed_on, rpc_err_to_manager_err, rpc_failure, Error, ManagerError, RpcError,
};
use crate::keys::{is_secret_key, new_secret_key, PrivateKey};
use crate::network::{is_unknown_network, law_networks_by_name, network_of, Network};
use crate::provider::BitcoinCoreProvider;
use crate::transaction::{copy_bytes, OutPoint, OutPointView, TxOut, TxOutView};
use vstd::prelude::*;

verus! {

/// The cost of change that is assumed when coins are chosen, in satoshis.
pub const COST_OF_CHANGE: u64 = 20;

/// An unspent output as the node lists it (`listunspent`).
#[derive(Debug)]
pub struct UnspentEntry {
    /// The id of the transaction that holds the output.
    pub txid: [u8; 32],
    /// The index of the output.
    pub vout: u32,
    /// The address of the output, if it has one.
    pub address: Option<String>,
    /// The redeem script, if the output pays to one that the wallet knows.
    pub redeem_script: Option<Vec<u8>>,
    /// The script of the output.
    pub script_pub_key: Vec<u8>,
    /// The value in satoshis.
    pub amount: u64,
    /// Whether the wallet has the keys to spend the output.
    pub spendable: bool,
}

/// The model of an [`UnspentEntry`].
pub struct UnspentView {
    pub outpoint: OutPointView,
    pub address: Option<Seq<char>>,
    pub redeem_script: Option<Seq<u8>>,
    pub script_pub_key: Seq<u8>,
    pub amount: u64,
    pub spendable: bool,
}

impl View for UnspentEntry {
    type V = UnspentView;

    open spec fn view(&self) -> UnspentView {
        UnspentView {
            outpoint: OutPointView { txid: self.txid@, vout: self.vout },
            address: match self.address {
                Some(address) => Some(address@),
                None => None,
            },
            redeem_script: match self.redeem_script {
                Some(script) => Some(script@),
                None => None,
            },
            script_pub_key: self.script_pub_key@,
            amount: self.amount,
            spendable: self.spendable,
        }
    }
}

/// An unspent output with which a contract can be funded.
#[derive(Debug, PartialEq, Eq)]
pub struct Utxo {
    /// The output.
    pub tx_out: TxOut,
    /// Where the output is.
    pub outpoint: OutPoint,
    /// The address of the output.
    pub address: String,
    /// The redeem script of the output, empty if it has none.
    pub redeem_script: Vec<u8>,
    /// Whether the output is set aside for another contract.
    pub reserved: bool,
}

/// The model of a [`Utxo`].
pub struct UtxoView {
    pub tx_out: TxOutView,
    pub outpoint: OutPointView,
    pub address: Seq<char>,
    pub redeem_script: Seq<u8>,
    pub reserved: bool,
}

impl View for Utxo {
    type V = UtxoView;

    open spec fn view(&self) -> UtxoView {
        UtxoView {
            tx_out: self.tx_out@,
            outpoint: self.outpoint@,
            address: self.address@,
            redeem_script: self.redeem_script@,
            reserved: self.reserved,
        }
    }
}

/// The request for the unspent outputs of the wallet (`listunspent`), of all addresses and with no
/// further conditions.
#[derive(Clone, Copy, Debug, PartialEq, Eq)]
pub struct ListUnspentRequest {
    /// The least number of confirmations.
    pub minconf: Option<usize>,
    /// The largest number of confirmations.
    pub maxconf: Option<usize>,
    /// Whether to list outputs that are not safe to spend.
    pub include_unsafe: Option<bool>,
}

/// The kinds of addresses.
#[derive(Clone, Copy, Debug, PartialEq, Eq, Structural)]
pub enum AddressType {
    /// An address of a public key hash.
    Legacy,
    /// A witness address inside a script hash.
    P2shSegwit,
    /// A native witness address.
    Bech32,
}

/// The request for a new address (`getnewaddress`).
#[derive(Debug, PartialEq, Eq)]
pub struct NewAddressRequest {
    /// The label of the address.
    pub label: Option<String>,
    /// The kind of the address.
    pub address_type: Option<AddressType>,
}

/// The request to watch an address (`importaddress`).
#[derive(Debug, PartialEq, Eq)]
pub struct ImportAddressRequest {
    /// The address.
    pub address: String,
    /// The label of the address.
    pub label: Option<String>,
    /// Whether to look for past transactions of the address.
    pub rescan: Option<bool>,
}

/// The request to store a secret key (`importprivkey`).
#[derive(Debug, PartialEq, Eq)]
pub struct ImportPrivateKeyRequest {
    /// The key.
    pub key: PrivateKey,
    /// The label of the key.
    pub label: Option<String>,
    /// Whether to look for past transactions of the key.
    pub rescan: Option<bool>,
}

/// A request to store a secret key for use with its compressed public key on a network, without a
/// label, and without looking for past transactions.
pub open spec fn imports(request: ImportPrivateKeyRequest, sk: [u8; 32], network: Network) -> bool {
    &&& request.key == (PrivateKey { compressed: true, network, inner: sk })
    &&& request.label is None
    &&& request.rescan == Some(false)
}

/// What comes of making a new secret key, from the node's answer to the question for its chain.
pub open spec fn new_key_answer(
    chain: Result<String, RpcError>,
    r: Result<ImportPrivateKeyRequest, ManagerError>,
) -> bool {
    match chain {
        Err(e) => r == Err::<ImportPrivateKeyRequest, ManagerError>(rpc_failure(e)),
        Ok(name) => match network_of(name@) {
            None => r matches Err(e) && is_unknown_network(e),
            Some(network) => r matches Ok(request) && is_secret_key(request.key.inner@) && imports(
                request,
                request.key.inner,
                network,
            ),
        },
    }
}

/// The secret key that was to be stored, from the node's answer to the request.
pub open spec fn stored_key(
    request: ImportPrivateKeyRequest,
    reply: Result<(), RpcError>,
) -> Result<[u8; 32], ManagerError> {
    match reply {
        Ok(_) => Ok(request.key.inner),
        Err(e) => Err(rpc_failure(e)),
    }
}

/// The request to watch an address, without a label, and without looking for past transactions.
pub open spec fn watches(request: ImportAddressRequest, address: Seq<char>) -> bool {
    &&& request.address@ == address
    &&& request.label is None
    &&& request.rescan == Some(false)
}

/// The models of listed outputs.
pub open spec fn unspent_views(entries: Seq<UnspentEntry>) -> Seq<UnspentView> {
    Seq::new(entries.len(), |i: int| entries[i]@)
}

/// The models of unspent outputs.
pub open spec fn utxo_views(utxos: Seq<Utxo>) -> Seq<UtxoView> {
    Seq::new(utxos.len(), |i: int| utxos[i]@)
}

/// The models of references to outputs.
pub open spec fn outpoint_views(outpoints: Seq<OutPoint>) -> Seq<OutPointView> {
    Seq::new(outpoints.len(), |i: int| outpoints[i]@)
}

/// The unspent output that a listed output with an address stands for.
pub open spec fn utxo_of(entry: UnspentView) -> UtxoView {
    UtxoView {
        tx_out: TxOutView { value: entry.amount, script_pubkey: entry.script_pub_key },
        outpoint: entry.outpoint,
        address: entry.address->0,
        redeem_script: match entry.redeem_script {
            Some(script) => script,
            None => Seq::empty(),
        },
        reserved: false,
    }
}

/// The listed outputs that the wallet can spend, in the order of the list.
pub open spec fn spendable_entries(entries: Seq<UnspentView>) -> Seq<UnspentView> {
    entries.filter(|entry: UnspentView| entry.spendable)
}

/// Every listed output that the wallet can spend has an address.
pub open spec fn all_addressed(entries: Seq<UnspentView>) -> bool {
    forall|i: int|
        0 <= i < entries.len() && (#[trigger] entries[i]).spendable ==> entries[i].address is Some
}

/// The unspent outputs from which coins are chosen: those that the wallet can spend.
pub open spec fn spendable_pool(entries: Seq<UnspentView>) -> Seq<UtxoView> {
    spendable_entries(entries).map_values(|entry: UnspentView| utxo_of(entry))
}

/// The values of unspent outputs.
pub open spec fn utxo_values(utxos: Seq<UtxoView>) -> Seq<u64> {
    Seq::new(utxos.len(), |i: int| utxos[i].tx_out.value)
}

/// What unspent outputs are worth together.
pub open spec fn total_value(utxos: Seq<UtxoView>) -> nat
    decreases utxos.len(),
{
    if utxos.len() == 0 {
        0
    } else {
        total_value(utxos.drop_last()) + utxos.last().tx_out.value as nat
    }
}

/// What the listed outputs that the wallet can spend are worth together, by the amounts that the node
/// listed. Amounts above 2^63 - 1, which no output has, are passed over.
pub open spec fn listed_worth(entries: Seq<UnspentView>) -> nat
    decreases entries.len(),
{
    if entries.len() == 0 {
        0
    } else {
        let last = entries.last();
        listed_worth(entries.drop_last()) + if last.spendable && last.amount <= MAX_COIN_VALUE {
            last.amount as nat
        } else {
            0
        }
    }
}

/// The unspent outputs at the chosen places of a pool.
pub open spec fn picked(pool: Seq<UtxoView>, chosen: Seq<usize>) -> Seq<UtxoView> {
    Seq::new(chosen.len(), |k: int| pool[chosen[k] as int])
}

/// Where unspent outputs are.
pub open spec fn outpoints_of(utxos: Seq<UtxoView>) -> Seq<OutPointView> {
    Seq::new(utxos.len(), |i: int| utxos[i].outpoint)
}

impl Clone for Utxo {
    fn clone(&self) -> (copy: Utxo)
        ensures
            copy@ == self@,
    {
        Utxo {
            tx_out: TxOut {
                value: self.tx_out.value,
                script_pubkey: copy_bytes(&self.tx_out.script_pubkey),
            },
            outpoint: self.outpoint,
            address: self.address.clone(),
            redeem_script: copy_bytes(&self.redeem_script),
            reserved: self.reserved,
        }
    }
}

/// The unspent output that a listed output stands for.
fn utxo_from_entry(entry: &UnspentEntry) -> (r: Result<Utxo, Error>)
    ensures
        match r {
            Ok(utxo) => entry.address is Some && utxo@ == utxo_of(entry@),
            Err(e) => entry.address is None && e == Error::InvalidState,
        },
{
    let address = match &entry.address {
        Some(address) => address.clone(),
        None => {
            return Err(Error::InvalidState);
        },
    };
    let redeem_script = match &entry.redeem_script {
        Some(script) => copy_bytes(script),
        None => Vec::new(),
    };
    let utxo = Utxo {
        tx_out: TxOut {
            value: entry.amount,
            script_pubkey: copy_bytes(&entry.script_pub_key),
        },
        outpoint: OutPoint { txid: entry.txid, vout: entry.vout },
        address,
        redeem_script,
        reserved: false,
    };
    assert(utxo@.redeem_script =~= utxo_of(entry@).redeem_script);
    Ok(utxo)
}

/// The pool of a list is that of the list without its last entry, and the last entry if it can be
/// spent.
proof fn lemma_pool_push(entries: Seq<UnspentView>, i: int)
    requires
        0 <= i < entries.len(),
    ensures
        spendable_pool(entries.take(i + 1)) == if entries[i].spendable {
            spendable_pool(entries.take(i)).push(utxo_of(entries[i]))
        } else {
            spendable_pool(entries.take(i))
        },
{
    reveal(Seq::filter);
    let longer = entries.take(i + 1);
    assert(longer.drop_last() =~= entries.take(i));
    assert(longer.last() == entries[i]);
    if entries[i].spendable {
        assert(spendable_pool(longer) =~= spendable_pool(entries.take(i)).push(
            utxo_of(entries[i]),
        ));
    }
}

/// The unspent outputs that the wallet can spend, in the order in which they are listed. One of
/// them without an address is an error.
pub fn spendable_utxos(entries: &Vec<UnspentEntry>) -> (r: Result<Vec<Utxo>, Error>)
    ensures
        match r {
            Ok(pool) => all_addressed(unspent_views(entries@)) && utxo_views(pool@)
                == spendable_pool(unspent_views(entries@)),
            Err(e) => !all_addressed(unspent_views(entries@)) && e == Error::InvalidState,
        },
{
    let ghost list = unspent_views(entries@);
    let mut pool: Vec<Utxo> = Vec::new();
    proof {
        reveal(Seq::filter);
        assert(utxo_views(pool@) =~= spendable_pool(list.take(0)));
    }
    for i in 0..entries.len()
        invariant
            list == unspent_views(entries@),
            forall|k: int|
                0 <= k < i && (#[trigger] list[k]).spendable ==> list[k].address is Some,
            utxo_views(pool@) == spendable_pool(list.take(i as int)),
            pool.len() <= i,
    {
        proof {
            lemma_pool_push(list, i as int);
            assert(list[i as int] == entries[i as int]@);
        }
        if entries[i].spendable {
            let ghost before = pool@;
            match utxo_from_entry(&entries[i]) {
                Ok(utxo) => {
                    pool.push(utxo);
                    assert(utxo_views(pool@) =~= utxo_views(before).push(utxo@));
                },
                Err(e) => {
                    return Err(e);
                },
            }
        }
    }
    assert(list.take(entries.len() as int) =~= list);
    Ok(pool)
}

/// Picking coins at chosen places adds up their values.
proof fn lemma_picked_value(pool: Seq<UtxoView>, chosen: Seq<usize>)
    requires
        forall|k: int| 0 <= k < chosen.len() ==> (#[trigger] chosen[k]) < pool.len(),
    ensures
        total_value(picked(pool, chosen)) == chosen_sum(utxo_values(pool), chosen),
    decreases chosen.len(),
{
    if chosen.len() > 0 {
        let rest = chosen.drop_last();
        assert forall|k: int| 0 <= k < rest.len() implies (#[trigger] rest[k]) < pool.len() by {
            assert(rest[k] == chosen[k]);
        }
        lemma_picked_value(pool, rest);
        assert(picked(pool, chosen).drop_last() =~= picked(pool, rest));
        assert(chosen[chosen.len() - 1] < pool.len());
    }
}

/// Where the entries that are kept of a list are in the list.
proof fn lemma_kept_places(list: Seq<UnspentView>, pred: spec_fn(UnspentView) -> bool) -> (places:
    Seq<int>)
    ensures
        places.len() == list.filter(pred).len(),
        places.no_duplicates(),
        forall|k: int|
            0 <= k < places.len() ==> 0 <= #[trigger] places[k] < list.len() && list[places[k]]
                == list.filter(pred)[k] && pred(list[places[k]]),
    decreases list.len(),
{
    reveal(Seq::filter);
    if list.len() == 0 {
        Seq::empty()
    } else {
        let front = lemma_kept_places(list.drop_last(), pred);
        if pred(list.last()) {
            front.push(list.len() - 1)
        } else {
            front
        }
    }
}

/// Where coins at chosen places of the pool are in the list.
proof fn lemma_listed_places(
    list: Seq<UnspentView>,
    pool: Seq<UtxoView>,
    chosen: Seq<usize>,
    utxos: Seq<UtxoView>,
) -> (places: Seq<int>)
    requires
        pool == spendable_pool(list),
        utxos == picked(pool, chosen),
        chosen.no_duplicates(),
        forall|k: int| 0 <= k < chosen.len() ==> (#[trigger] chosen[k]) < pool.len(),
    ensures
        places.len() == utxos.len(),
        places.no_duplicates(),
        forall|k: int|
            0 <= k < places.len() ==> 0 <= #[trigger] places[k] < list.len()
                && list[places[k]].spendable && utxos[k] == utxo_of(list[places[k]]),
{
    let kept = lemma_kept_places(list, |e: UnspentView| e.spendable);
    let places = Seq::new(chosen.len(), |k: int| kept[chosen[k] as int]);
    assert forall|k: int| 0 <= k < places.len() implies 0 <= #[trigger] places[k] < list.len()
        && list[places[k]].spendable && utxos[k] == utxo_of(list[places[k]]) by {
        assert(chosen[k] < pool.len());
        assert(places[k] == kept[chosen[k] as int]);
    }
    assert forall|i: int, j: int|
        0 <= i < places.len() && 0 <= j < places.len() && i != j implies places[i]
        != places[j] by {
        assert(chosen[i] != chosen[j]);
        assert(chosen[i] < pool.len() && chosen[j] < pool.len());
    }
    places
}

/// The pool is worth what the node listed.
proof fn lemma_listed_worth(list: Seq<UnspentView>)
    ensures
        usable_sum(utxo_values(spendable_pool(list))) == listed_worth(list),
    decreases list.len(),
{
    reveal(Seq::filter);
    let values = utxo_values(spendable_pool(list));
    if list.len() > 0 {
        let front = list.drop_last();
        lemma_listed_worth(front);
        lemma_pool_push(list, list.len() - 1);
        assert(list.take(list.len() as int) =~= list);
        assert(list.take(list.len() - 1) =~= front);
        if list.last().spendable {
            assert(values.drop_last() =~= utxo_values(spendable_pool(front)));
            assert(values.last() == list.last().amount);
        }
    }
}

/// The coins that fund an amount, and what is left to be done with them.
#[derive(Debug)]
pub struct Funding {
    /// The coins.
    pub utxos: Vec<Utxo>,
    /// The outputs that the node still has to lock (`lockunspent`), if it has to.
    pub lock: Option<Vec<OutPoint>>,
}

/// The coins of a funding, from the node's answer to the request to lock them, if it was asked.
pub open spec fn after_lock(funding: Funding, locked: Option<Result<bool, RpcError>>) -> Result<
    Vec<Utxo>,
    ManagerError,
> {
    match locked {
        Some(Err(e)) => Err(rpc_failure(e)),
        _ => Ok(funding.utxos),
    }
}

/// A funding that consists of the given coins, to be locked or not.
pub open spec fn funding_of(f: Funding, utxos: Seq<UtxoView>, lock_utxos: bool) -> bool {
    &&& utxo_views(f.utxos@) == utxos
    &&& match f.lock {
        Some(outpoints) => lock_utxos && outpoint_views(outpoints@) == outpoints_of(utxos),
        None => !lock_utxos,
    }
}

/// A funding has its coins one by one, and the reference of each to be locked exactly if they are to be
/// locked.
pub proof fn law_funding_coin_by_coin(f: Funding, utxos: Seq<UtxoView>, lock_utxos: bool)
    requires
        funding_of(f, utxos, lock_utxos),
    ensures
        f.utxos.len() == utxos.len(),
        forall|k: int| 0 <= k < utxos.len() ==> (#[trigger] f.utxos[k])@ == utxos[k],
        f.lock is Some <==> lock_utxos,
        f.lock matches Some(outpoints) ==> outpoints.len() == utxos.len() && forall|k: int|
            0 <= k < utxos.len() ==> (#[trigger] outpoints[k])@ == f.utxos[k].outpoint@,
{
    assert(utxo_views(f.utxos@).len() == f.utxos.len());
    assert forall|k: int| 0 <= k < utxos.len() implies (#[trigger] f.utxos[k])@ == utxos[k] by {
        assert(utxo_views(f.utxos@)[k] == f.utxos[k]@);
    }
    if f.lock is Some {
        let outpoints = f.lock->0;
        assert(outpoint_views(outpoints@).len() == outpoints.len());
        assert forall|k: int| 0 <= k < utxos.len() implies (#[trigger] outpoints[k])@
            == f.utxos[k].outpoint@ by {
            assert(outpoint_views(outpoints@)[k] == outpoints[k]@);
            assert(f.utxos[k]@ == utxos[k]);
        }
    }
}

/// The coins of a pool at the chosen places, and the request to lock them if they are to be locked.
/// Without a choice there are not enough coins.
pub fn fund(pool: &Vec<Utxo>, chosen: Option<Vec<usize>>, lock_utxos: bool) -> (r: Result<
    Funding,
    Error,
>)
    requires
        chosen matches Some(places) ==> forall|k: int|
            0 <= k < places.len() ==> (#[trigger] places[k]) < pool.len(),
    ensures
        match chosen {
            Some(places) => r matches Ok(f) && funding_of(
                f,
                picked(utxo_views(pool@), places@),
                lock_utxos,
            ),
            None => r == Err::<Funding, Error>(Error::NotEnoughCoins),
        },
{
    let places = match chosen {
        Some(places) => places,
        None => {
            return Err(Error::NotEnoughCoins);
        },
    };
    let ghost wanted = picked(utxo_views(pool@), places@);
    let mut utxos: Vec<Utxo> = Vec::new();
    let mut outpoints: Vec<OutPoint> = Vec::new();
    for k in 0..places.len()
        invariant
            wanted == picked(utxo_views(pool@), places@),
            forall|j: int| 0 <= j < places.len() ==> (#[trigger] places[j]) < pool.len(),
            utxos.len() == k,
            outpoints.len() == k,
            forall|j: int| 0 <= j < k ==> (#[trigger] utxos[j])@ == wanted[j],
            forall|j: int| 0 <= j < k ==> (#[trigger] outpoints[j])@ == wanted[j].outpoint,
    {
        let utxo = pool[places[k]].clone();
        outpoints.push(utxo.outpoint);
        utxos.push(utxo);
    }
    assert(utxo_views(utxos@) =~= wanted);
    assert(outpoint_views(outpoints@) =~= outpoints_of(wanted));
    let lock = if lock_utxos {
        Some(outpoints)
    } else {
        None
    };
    Ok(Funding { utxos, lock })
}

/// Coins that can fund an amount from a pool, whichever of them chance picks: coins at distinct
/// places of the pool that together reach the amount, without one too many.
pub open spec fn can_fund(pool: Seq<UtxoView>, amount: u64, utxos: Seq<UtxoView>) -> bool {
    exists|chosen: Seq<usize>| #[trigger]
        funds(utxo_values(pool), amount, chosen) && utxos == picked(pool, chosen)
}

/// What comes of choosing coins that fund an amount, for a selection from the values of the coins:
/// the coins at the selected places, to be locked or not. The fee rate is part of the question.
pub open spec fn funded(
    amount: u64,
    fee_rate: u64,
    lock_utxos: bool,
    unspent: Result<Vec<UnspentEntry>, RpcError>,
    selection: Option<Seq<usize>>,
    r: Result<Funding, ManagerError>,
) -> bool {
    match unspent {
        Err(e) => r == Err::<Funding, ManagerError>(rpc_failure(e)),
        Ok(entries) => {
            let list = unspent_views(entries@);
            let pool = spendable_pool(list);
            if !all_addressed(list) {
                r == Err::<Funding, ManagerError>(ManagerError::WalletError(Error::InvalidState))
            } else {
                &&& is_selection(utxo_values(pool), amount, COST_OF_CHANGE, selection)
                &&& match selection {
                    Some(chosen) => r matches Ok(f) && funding_of(
                        f,
                        picked(pool, chosen),
                        lock_utxos,
                    ),
                    None => r == Err::<Funding, ManagerError>(
                        ManagerError::WalletError(Error::NotEnoughCoins),
                    ),
                }
            }
        },
    }
}

/// Two outcomes that are the same: the same coins and the same request to the node, or the same
/// error.
pub open spec fn same_funding(
    a: Result<Funding, ManagerError>,
    b: Result<Funding, ManagerError>,
) -> bool {
    match (a, b) {
        (Ok(f), Ok(g)) => {
            &&& utxo_views(f.utxos@) == utxo_views(g.utxos@)
            &&& match (f.lock, g.lock) {
                (Some(x), Some(y)) => outpoint_views(x@) == outpoint_views(y@),
                (None, None) => true,
                _ => false,
            }
        },
        (Err(e), Err(d)) => e == d,
        _ => false,
    }
}

/// The fee rate has no influence: two questions that differ in nothing else, put to a node that
/// gives the same answer, have the same outcome where chance selects the same coins.
pub proof fn law_fee_rate_has_no_influence(
    amount: u64,
    fee_rate_a: u64,
    fee_rate_b: u64,
    lock_utxos: bool,
    unspent: Result<Vec<UnspentEntry>, RpcError>,
    selection: Option<Seq<usize>>,
    a: Result<Funding, ManagerError>,
    b: Result<Funding, ManagerError>,
)
    requires
        funded(amount, fee_rate_a, lock_utxos, unspent, selection, a),
        funded(amount, fee_rate_b, lock_utxos, unspent, selection, b),
    ensures
        same_funding(a, b),
{
}

impl BitcoinCoreProvider {
    /// Chooses unspent outputs that fund an amount, given how the node answered the question for
    /// the unspent outputs. Which of those that can fund the amount are chosen rests on chance; a
    /// choice that needs no change is preferred where the pool is small. The fee rate plays no part.
    /// The outputs still have to be locked if the result says so; see
    /// [`BitcoinCoreProvider::utxos_after_lock`].
    pub fn get_utxos_for_amount(
        amount: u64,
        _fee_rate: u64,
        lock_utxos: bool,
        unspent: Result<Vec<UnspentEntry>, RpcError>,
    ) -> (r: Result<Funding, ManagerError>)
        requires
            unspent matches Ok(entries) ==> entries.len() <= u32::MAX,
        ensures
            exists|selection: Option<Seq<usize>>| #[trigger]
                funded(amount, _fee_rate, lock_utxos, unspent, selection, r),
            match unspent {
                Err(e) => r == Err::<Funding, ManagerError>(rpc_failure(e)),
                Ok(entries) => {
                    let list = unspent_views(entries@);
                    let pool = spendable_pool(list);
                    let values = utxo_values(pool);
                    if !all_addressed(list) {
                        r == Err::<Funding, ManagerError>(
                            ManagerError::WalletError(Error::InvalidState),
                        )
                    } else {
                        match r {
                            Ok(f) => {
                                &&& can_fund(pool, amount, utxo_views(f.utxos@))
                                &&& funding_of(f, utxo_views(f.utxos@), lock_utxos)
                                &&& total_value(utxo_views(f.utxos@)) >= amount
                                &&& usable_sum(values) >= amount
                                &&& listed_worth(list) >= amount
                                &&& any_usable(values)
                                &&& changeless_found(values, amount, COST_OF_CHANGE) || amount
                                    > MAX_MONEY ==> total_value(utxo_views(f.utxos@)) <= amount
                                    + COST_OF_CHANGE
                            },
                            Err(e) => {
                                &&& e == ManagerError::WalletError(Error::NotEnoughCoins)
                                &&& 0 < amount <= 2_100_000_000_000_000 ==> listed_worth(list)
                                    < amount
                                &&& 0 < amount <= MAX_MONEY ==> usable_sum(values) < amount
                                &&& amount <= MAX_MONEY && any_usable(values) ==> usable_sum(values)
                                    < amount
                                &&& !changeless_found(values, amount, COST_OF_CHANGE)
                            },
                        }
                    }
                },
            },
            unspent matches Err(e) ==> r == Err::<Funding, ManagerError>(
                ManagerError::WalletError(Error::RpcError(e)),
            ),
            r matches Ok(f) ==> (unspent matches Ok(entries) && exists|places: Seq<int>| {
                &&& #[trigger] places.no_duplicates()
                &&& places.len() == f.utxos.len()
                &&& forall|k: int|
                    0 <= k < places.len() ==> {
                        &&& 0 <= #[trigger] places[k] < entries.len()
                        &&& entries[places[k]].spendable
                        &&& f.utxos[k].tx_out.value == entries[places[k]].amount
                        &&& f.utxos[k].tx_out.script_pubkey@ == entries[places[k]].script_pub_key@
                        &&& f.utxos[k].outpoint.txid@ == entries[places[k]].txid@
                        &&& f.utxos[k].outpoint.vout == entries[places[k]].vout
                        &&& entries[places[k]].address matches Some(address)
                            && f.utxos[k].address@ == address@
                        &&& entries[places[k]].redeem_script matches Some(script)
                            ==> f.utxos[k].redeem_script@ == script@
                        &&& entries[places[k]].redeem_script is None
                            ==> f.utxos[k].redeem_script.len() == 0
                        &&& !f.utxos[k].reserved
                    }
            }),
            r matches Ok(f) ==> (f.lock is Some <==> lock_utxos),
            r matches Ok(f) ==> (f.lock matches Some(outpoints) ==> outpoints.len() == f.utxos.len()
                && forall|k: int|
                0 <= k < outpoints.len() ==> (#[trigger] outpoints[k]).txid@
                    == f.utxos[k].outpoint.txid@ && outpoints[k].vout == f.utxos[k].outpoint.vout),
    {
        let ghost asked = unspent;
        let entries = match unspent {
            Ok(entries) => entries,
            Err(e) => {
                let r = Err(rpc_err_to_manager_err(e));
                assert(funded(amount, _fee_rate, lock_utxos, asked, None, r));
                return r;
            },
        };
        let ghost list = unspent_views(entries@);
        let utxo_pool = match spendable_utxos(&entries) {
            Ok(utxo_pool) => utxo_pool,
            Err(e) => {
                let r = Err(ManagerError::from(e));
                assert(funded(amount, _fee_rate, lock_utxos, asked, None, r));
                return r;
            },
        };
        let ghost pool = spendable_pool(list);
        proof {
            list.lemma_filter_len(|entry: UnspentView| entry.spendable);
            assert(utxo_views(utxo_pool@).len() == pool.len());
        }
        let mut values: Vec<u64> = Vec::new();
        for i in 0..utxo_pool.len()
            invariant
                values.len() == i,
                forall|k: int|
                    0 <= k < i ==> (#[trigger] values[k]) == utxo_views(
                        utxo_pool@,
                    )[k].tx_out.value,
        {
            values.push(utxo_pool[i].tx_out.value);
        }
        assert(values@ =~= utxo_values(pool));
        let selection = select_coins(amount, COST_OF_CHANGE, &values);
        let ghost places = selection_view(selection);
        proof {
            if selection is Some {
                let chosen = selection->0@;
                lemma_picked_value(pool, chosen);
                assert(funds(utxo_values(pool), amount, chosen));
            }
        }
        let r = match fund(&utxo_pool, selection, lock_utxos) {
            Ok(funding) => Ok(funding),
            Err(e) => Err(ManagerError::from(e)),
        };
        assert(funded(amount, _fee_rate, lock_utxos, asked, places, r));
        proof {
            lemma_listed_worth(list);
            if r is Ok {
                let f = r->Ok_0;
                let listed = lemma_listed_places(list, pool, places->0, utxo_views(f.utxos@));
                law_funding_coin_by_coin(f, utxo_views(f.utxos@), lock_utxos);
                assert(listed.no_duplicates());
                assert forall|k: int| 0 <= k < listed.len() implies {
                    &&& 0 <= #[trigger] listed[k] < entries.len()
                    &&& f.utxos[k]@ == utxo_of(entries[listed[k]]@)
                    &&& entries[listed[k]].spendable
                    &&& entries[listed[k]].address is Some
                } by {
                    assert(f.utxos[k]@ == utxo_views(f.utxos@)[k]);
                    assert(list[listed[k]] == entries[listed[k]]@);
                }
                if f.lock is Some {
                    let outpoints = f.lock->0;
                    assert forall|k: int| 0 <= k < outpoints.len() implies (
                    #[trigger] outpoints[k]).txid@ == f.utxos[k].outpoint.txid@
                        && outpoints[k].vout == f.utxos[k].outpoint.vout by {
                        assert(outpoints[k]@ == f.utxos[k].outpoint@);
                    }
                }
            }
        }
        r
    }

    /// The coins that fund an amount, given what came of locking them: the answer of the node if it
    /// was asked to lock them, and `None` if it was not. The node's answer is not looked at, only
    /// whether there is one.
    pub fn utxos_after_lock(funding: Funding, locked: Option<Result<bool, RpcError>>) -> (r: Result<
        Vec<Utxo>,
        ManagerError,
    >)
        requires
            locked is Some <==> funding.lock is Some,
        ensures
            r == after_lock(funding, locked),
            r == match locked {
                Some(Err(e)) => Err(rpc_failure(e)),
                _ => Ok(funding.utxos),
            },
    {
        match locked {
            Some(Err(e)) => Err(rpc_err_to_manager_err(e)),
            _ => Ok(funding.utxos),
        }
    }

    /// The request for the unspent outputs of the wallet.
    pub fn list_unspent_request() -> (request: ListUnspentRequest)
        ensures
            request.minconf is None,
            request.maxconf is None,
            request.include_unsafe == Some(false),
    {
        ListUnspentRequest { minconf: None, maxconf: None, include_unsafe: Some(false) }
    }

    /// The request for a new address.
    pub fn get_new_address() -> (request: NewAddressRequest)
        ensures
            request.label is None,
            request.address_type == Some(AddressType::Bech32),
    {
        NewAddressRequest { label: None, address_type: Some(AddressType::Bech32) }
    }

    /// The new address, from the node's answer to the request for it.
    pub fn new_address<A>(reply: Result<A, RpcError>) -> (r: Result<A, ManagerError>)
        ensures
            r == passed_on(reply),
    {
        pass_on(reply)
    }

    /// The request for a new change address: one for a new address.
    pub fn get_new_change_address() -> (request: NewAddressRequest)
        ensures
            request.label is None,
            request.address_type == Some(AddressType::Bech32),
    {
        BitcoinCoreProvider::get_new_address()
    }

    /// The new change address, from the node's answer to the request for it.
    pub fn new_change_address<A>(reply: Result<A, RpcError>) -> (r: Result<A, ManagerError>)
        ensures
            r == passed_on(reply),
    {
        BitcoinCoreProvider::new_address(reply)
    }

    /// The request to watch an address.
    pub fn import_address(address: String) -> (request: ImportAddressRequest)
        ensures
            watches(request, address@),
            request.address == address,
            request.label is None,
            request.rescan == Some(false),
    {
        ImportAddressRequest { address, label: None, rescan: Some(false) }
    }

    /// What came of the request to watch an address.
    pub fn imported_address(reply: Result<(), RpcError>) -> (r: Result<(), ManagerError>)
        ensures
            r == passed_on(reply),
    {
        pass_on(reply)
    }

    /// Makes a new secret key, and the request to store it in the wallet, given how the node
    /// answered the question for its chain. Which key rests on chance.
    pub fn get_new_secret_key(chain: Result<String, RpcError>) -> (r: Result<
        ImportPrivateKeyRequest,
        ManagerError,
    >)
        ensures
            new_key_answer(chain, r),
            match chain {
                Err(e) => r == Err::<ImportPrivateKeyRequest, ManagerError>(rpc_failure(e)),
                Ok(name) => match network_of(name@) {
                    None => r matches Err(e) && is_unknown_network(e),
                    Some(network) => r matches Ok(request) && is_secret_key(request.key.inner@)
                        && imports(request, request.key.inner, network),
                },
            },
            r matches Ok(request) ==> {
                &&& request.key.compressed
                &&& request.label is None
                &&& request.rescan == Some(false)
            },
            chain matches Ok(name) ==> {
                &&& name@ == "main"@ <==> (r matches Ok(request) && request.key.network
                    == Network::Bitcoin)
                &&& name@ == "test"@ <==> (r matches Ok(request) && request.key.network
                    == Network::Testnet)
                &&& name@ == "signet"@ <==> (r matches Ok(request) && request.key.network
                    == Network::Signet)
                &&& name@ == "regtest"@ <==> (r matches Ok(request) && request.key.network
                    == Network::Regtest)
            },
    {
        let sk = new_secret_key();
        match BitcoinCoreProvider::get_network(chain) {
            Ok(network) => Ok(BitcoinCoreProvider::import_private_key_request(sk, network)),
            Err(e) => Err(e),
        }
    }

    /// The request to store a secret key in the wallet.
    pub fn import_private_key_request(sk: [u8; 32], network: Network) -> (request:
        ImportPrivateKeyRequest)
        ensures
            imports(request, sk, network),
            request.key.compressed,
            request.key.network == network,
            request.key.inner == sk,
            request.label is None,
            request.rescan == Some(false),
    {
        ImportPrivateKeyRequest {
            key: PrivateKey { compressed: true, network, inner: sk },
            label: None,
            rescan: Some(false),
        }
    }

    /// The secret key that was to be stored, if the node stored it.
    pub fn stored_secret_key(request: ImportPrivateKeyRequest, reply: Result<(), RpcError>) -> (r:
        Result<[u8; 32], ManagerError>)
        ensures
            r == stored_key(request, reply),
            r == match reply {
                Ok(_) => Ok(request.key.inner),
                Err(e) => Err(rpc_failure(e)),
            },
    {
        match reply {
            Ok(_) => Ok(request.key.inner),
            Err(e) => Err(rpc_err_to_manager_err(e)),
        }
    }
}

/// An output that the wallet cannot spend makes no difference to the pool, wherever it is listed
/// and whether or not it has an address.
pub proof fn law_unspendable_outputs_are_ignored(
    before: Seq<UnspentView>,
    entry: UnspentView,
    after: Seq<UnspentView>,
)
    requires
        !entry.spendable,
    ensures
        spendable_pool(before + seq![entry] + after) == spendable_pool(before + after),
        all_addressed(before + seq![entry] + after) <==> all_addressed(before + after),
{
    let pred = |e: UnspentView| e.spendable;
    let with = before + seq![entry] + after;
    let without = before + after;
    Seq::filter_distributes_over_add(before + seq![entry], after, pred);
    Seq::filter_distributes_over_add(before, seq![entry], pred);
    Seq::filter_distributes_over_add(before, after, pred);
    assert(seq![entry].filter(pred) =~= Seq::<UnspentView>::empty()) by {
        reveal_with_fuel(Seq::filter, 2);
    }
    assert(before.filter(pred) + Seq::<UnspentView>::empty() =~= before.filter(pred));
    assert(spendable_entries(with) == spendable_entries(without));
    assert forall|i: int|
        0 <= i < without.len() && (#[trigger] without[i]).spendable && all_addressed(
            with,
        ) implies without[i].address is Some by {
        if i < before.len() {
            assert(with[i] == without[i]);
        } else {
            assert(with[i + 1] == without[i]);
        }
    }
    assert forall|i: int|
        0 <= i < with.len() && (#[trigger] with[i]).spendable && all_addressed(
            without,
        ) implies with[i].address is Some by {
        if i < before.len() {
            assert(with[i] == without[i]);
        } else {
            assert(with[i] == without[i - 1]);
        }
    }
}

/// The coins that fund an amount are unspent outputs that the node listed as spendable, with the
/// values and addresses that it listed.
pub proof fn law_funding_comes_from_the_list(
    list: Seq<UnspentView>,
    amount: u64,
    utxos: Seq<UtxoView>,
    k: int,
)
    requires
        can_fund(spendable_pool(list), amount, utxos),
        0 <= k < utxos.len(),
    ensures
        exists|i: int|
            0 <= i < list.len() && (#[trigger] list[i]).spendable && utxos[k] == utxo_of(list[i]),
{
    let pool = spendable_pool(list);
    let chosen = choose|chosen: Seq<usize>| #[trigger]
        funds(utxo_values(pool), amount, chosen) && utxos == picked(pool, chosen);
    let pred = |e: UnspentView| e.spendable;
    let kept = list.filter(pred);
    let place = chosen[k] as int;
    assert(place < utxo_values(pool).len());
    list.lemma_filter_pred(pred, place);
    lemma_kept_is_listed(list, pred, place);
}

/// What is kept of a list is in the list.
proof fn lemma_kept_is_listed(
    list: Seq<UnspentView>,
    pred: spec_fn(UnspentView) -> bool,
    place: int,
)
    requires
        0 <= place < list.filter(pred).len(),
    ensures
        exists|i: int| 0 <= i < list.len() && #[trigger] list[i] == list.filter(pred)[place],
    decreases list.len(),
{
    reveal(Seq::filter);
    let front = list.drop_last();
    if place < front.filter(pred).len() {
        lemma_kept_is_listed(front, pred, place);
        let i = choose|i: int|
            0 <= i < front.len() && #[trigger] front[i] == front.filter(pred)[place];
        assert(list[i] == list.filter(pred)[place]);
    } else {
        assert(list[list.len() - 1] == list.filter(pred)[place]);
    }
}

/// No output is used twice to fund an amount, if none is listed twice.
pub proof fn law_no_output_is_used_twice(pool: Seq<UtxoView>, amount: u64, utxos: Seq<UtxoView>)
    requires
        can_fund(pool, amount, utxos),
        outpoints_of(pool).no_duplicates(),
    ensures
        outpoints_of(utxos).no_duplicates(),
{
    let chosen = choose|chosen: Seq<usize>| #[trigger]
        funds(utxo_values(pool), amount, chosen) && utxos == picked(pool, chosen);
    assert forall|i: int, j: int|
        0 <= i < utxos.len() && 0 <= j < utxos.len() && i != j implies outpoints_of(utxos)[i]
        != outpoints_of(utxos)[j] by {
        assert(chosen[i] != chosen[j]);
        assert(chosen[i] < utxo_values(pool).len() && chosen[j] < utxo_values(pool).len());
        assert(outpoints_of(pool)[chosen[i] as int] == outpoints_of(utxos)[i]);
        assert(outpoints_of(pool)[chosen[j] as int] == outpoints_of(utxos)[j]);
    }
}

/// The coins that fund an amount above zero reach it, and do not reach it without the last of them.
pub proof fn law_no_coin_too_many(pool: Seq<UtxoView>, amount: u64, utxos: Seq<UtxoView>)
    requires
        can_fund(pool, amount, utxos),
    ensures
        utxos.len() > 0,
        total_value(utxos) >= amount,
        amount > 0 ==> total_value(utxos.drop_last()) < amount,
{
    let chosen = choose|chosen: Seq<usize>| #[trigger]
        funds(utxo_values(pool), amount, chosen) && utxos == picked(pool, chosen);
    let rest = chosen.drop_last();
    lemma_picked_value(pool, chosen);
    assert forall|k: int| 0 <= k < rest.len() implies (#[trigger] rest[k]) < pool.len() by {
        assert(rest[k] == chosen[k]);
    }
    lemma_picked_value(pool, rest);
    assert(utxos.drop_last() =~= picked(pool, rest));
}

/// An output of the pool is what the node listed, field by field: the listed amount as its value, the
/// listed script, reference and address, and the listed redeem script or an empty one. It is not
/// reserved.
pub proof fn law_outputs_are_what_is_listed(entry: UnspentView)
    ensures
        utxo_of(entry).tx_out.value == entry.amount,
        utxo_of(entry).tx_out.script_pubkey == entry.script_pub_key,
        utxo_of(entry).outpoint == entry.outpoint,
        entry.address is Some ==> Some(utxo_of(entry).address) == entry.address,
        entry.redeem_script is Some ==> Some(utxo_of(entry).redeem_script) == entry.redeem_script,
        entry.redeem_script is None ==> utxo_of(entry).redeem_script.len() == 0,
        !utxo_of(entry).reserved,
{
}

/// The pool is made entry by entry, in the order of the list: an entry that the wallet can spend adds
/// one output with the listed fields, an entry that it cannot spend adds none.
pub proof fn law_pool_is_made_entry_by_entry(
    a: Seq<UnspentView>,
    b: Seq<UnspentView>,
    entry: UnspentView,
)
    ensures
        spendable_pool(Seq::empty()).len() == 0,
        spendable_pool(a + b) == spendable_pool(a) + spendable_pool(b),
        !entry.spendable ==> spendable_pool(seq![entry]).len() == 0,
        entry.spendable ==> ({
            let one = spendable_pool(seq![entry]);
            &&& one.len() == 1
            &&& one[0].tx_out.value == entry.amount
            &&& one[0].tx_out.script_pubkey == entry.script_pub_key
            &&& one[0].outpoint == entry.outpoint
            &&& entry.address is Some ==> Some(one[0].address) == entry.address
            &&& entry.redeem_script is Some ==> Some(one[0].redeem_script) == entry.redeem_script
            &&& entry.redeem_script is None ==> one[0].redeem_script.len() == 0
            &&& !one[0].reserved
        }),
{
    let pred = |e: UnspentView| e.spendable;
    Seq::filter_distributes_over_add(a, b, pred);
    assert(spendable_pool(a + b) =~= spendable_pool(a) + spendable_pool(b));
    reveal_with_fuel(Seq::filter, 2);
    assert(seq![entry].drop_last() =~= Seq::<UnspentView>::empty());
    law_outputs_are_what_is_listed(entry);
}

/// What a list is worth is what its entries are worth: an entry that the wallet can spend its listed
/// amount, an entry that it cannot spend nothing, and two lists together the sum of both.
pub proof fn law_listed_worth_adds_up(
    a: Seq<UnspentView>,
    b: Seq<UnspentView>,
    entry: UnspentView,
)
    ensures
        listed_worth(Seq::empty()) == 0,
        entry.spendable && entry.amount <= 0x7fff_ffff_ffff_ffff ==> listed_worth(seq![entry])
            == entry.amount,
        !entry.spendable ==> listed_worth(seq![entry]) == 0,
        listed_worth(a + b) == listed_worth(a) + listed_worth(b),
    decreases b.len(),
{
    reveal_with_fuel(listed_worth, 2);
    assert(seq![entry].drop_last() =~= Seq::<UnspentView>::empty());
    if b.len() == 0 {
        assert(a + b =~= a);
    } else {
        law_listed_worth_adds_up(a, b.drop_last(), entry);
        assert((a + b).drop_last() =~= a + b.drop_last());
        assert((a + b).last() == b.last());
    }
}

/// The values from which coins are selected are worth together what the node listed.
pub proof fn law_pool_is_worth_what_is_listed(list: Seq<UnspentView>)
    ensures
        usable_sum(utxo_values(spendable_pool(list))) == listed_worth(list),
{
    lemma_listed_worth(list);
}

/// The coins that fund an amount are different entries of the list that the wallet can spend, each
/// with the amount, the script, the reference, the address and the redeem script that are listed for
/// it.
pub proof fn law_funding_is_what_is_listed(
    list: Seq<UnspentView>,
    amount: u64,
    utxos: Seq<UtxoView>,
)
    requires
        can_fund(spendable_pool(list), amount, utxos),
        all_addressed(list),
    ensures
        exists|places: Seq<int>| {
            &&& #[trigger] places.no_duplicates()
            &&& places.len() == utxos.len()
            &&& forall|k: int|
                0 <= k < places.len() ==> {
                    &&& 0 <= #[trigger] places[k] < list.len()
                    &&& list[places[k]].spendable
                    &&& utxos[k].tx_out.value == list[places[k]].amount
                    &&& utxos[k].tx_out.script_pubkey == list[places[k]].script_pub_key
                    &&& utxos[k].outpoint == list[places[k]].outpoint
                    &&& Some(utxos[k].address) == list[places[k]].address
                    &&& list[places[k]].redeem_script is Some ==> Some(utxos[k].redeem_script)
                        == list[places[k]].redeem_script
                    &&& list[places[k]].redeem_script is None ==> utxos[k].redeem_script.len() == 0
                    &&& !utxos[k].reserved
                }
        },
{
    let pool = spendable_pool(list);
    let chosen = choose|chosen: Seq<usize>| #[trigger]
        funds(utxo_values(pool), amount, chosen) && utxos == picked(pool, chosen);
    assert forall|k: int| 0 <= k < chosen.len() implies (#[trigger] chosen[k]) < pool.len() by {
        assert(chosen[k] < utxo_values(pool).len());
    }
    let places = lemma_listed_places(list, pool, chosen, utxos);
    assert(places.no_duplicates());
    assert forall|k: int| 0 <= k < places.len() implies list[
        #[trigger] places[k]
    ].address is Some by {
    }
}

/// There are not enough coins for an amount above zero, and up to the money that can exist, exactly if
/// the spendable amounts that the node listed fall short of it.
pub proof fn law_not_enough_coins(
    amount: u64,
    fee_rate: u64,
    lock_utxos: bool,
    entries: Vec<UnspentEntry>,
    selection: Option<Seq<usize>>,
    r: Result<Funding, ManagerError>,
)
    requires
        funded(amount, fee_rate, lock_utxos, Ok(entries), selection, r),
        all_addressed(unspent_views(entries@)),
        0 < amount <= 2_100_000_000_000_000,
    ensures
        r is Err <==> listed_worth(unspent_views(entries@)) < amount,
        r matches Err(e) ==> e == ManagerError::WalletError(Error::NotEnoughCoins),
{
    let list = unspent_views(entries@);
    let values = utxo_values(spendable_pool(list));
    lemma_listed_worth(list);
    match selection {
        Some(chosen) => {
            law_choice_within_pool(values, chosen);
        },
        None => {
            law_nothing_selected_means_too_few_coins(values, amount, COST_OF_CHANGE);
        },
    }
}

/// What comes of funding for a selection: the node's failure as it came; an error if an entry that
/// the wallet can spend has no address; else the pool's outputs at the selected places, in that order,
/// and their references to be locked exactly if they are to be locked.
pub proof fn law_funding_follows_the_selection(
    amount: u64,
    fee_rate: u64,
    lock_utxos: bool,
    unspent: Result<Vec<UnspentEntry>, RpcError>,
    selection: Option<Seq<usize>>,
    r: Result<Funding, ManagerError>,
)
    requires
        funded(amount, fee_rate, lock_utxos, unspent, selection, r),
    ensures
        unspent matches Err(e) ==> r == Err::<Funding, ManagerError>(
            ManagerError::WalletError(Error::RpcError(e)),
        ),
        unspent matches Ok(entries) ==> (!all_addressed(unspent_views(entries@)) ==> r == Err::<
            Funding,
            ManagerError,
        >(ManagerError::WalletError(Error::InvalidState))),
        unspent matches Ok(entries) ==> (r matches Ok(f) ==> {
            let pool = spendable_pool(unspent_views(entries@));
            &&& selection matches Some(chosen) && f.utxos.len() == chosen.len() && forall|k: int|
                0 <= k < chosen.len() ==> (#[trigger] f.utxos[k])@ == pool[chosen[k] as int]
            &&& f.lock is Some <==> lock_utxos
            &&& f.lock matches Some(outpoints) ==> outpoints.len() == f.utxos.len() && forall|k: int|
                0 <= k < outpoints.len() ==> (#[trigger] outpoints[k])@ == f.utxos[k].outpoint@
        }),
{
    if r is Ok && unspent is Ok && selection is Some {
        let pool = spendable_pool(unspent_views(unspent->Ok_0@));
        law_funding_coin_by_coin(r->Ok_0, picked(pool, selection->0), lock_utxos);
    }
}

/// Every entry that the wallet can spend has an address exactly if none lacks one.
pub proof fn law_all_addressed(list: Seq<UnspentView>)
    ensures
        !all_addressed(list) <==> exists|i: int|
            0 <= i < list.len() && (#[trigger] list[i]).spendable && list[i].address is None,
{
}

/// What coins are worth together adds up: nothing is worth nothing, one coin its value, and two
/// groups of coins the sum of both.
pub proof fn law_values_add_up(a: Seq<UtxoView>, b: Seq<UtxoView>, utxo: UtxoView)
    ensures
        total_value(Seq::empty()) == 0,
        total_value(seq![utxo]) == utxo.tx_out.value,
        total_value(a + b) == total_value(a) + total_value(b),
    decreases b.len(),
{
    reveal_with_fuel(total_value, 2);
    assert(seq![utxo].drop_last() =~= Seq::<UtxoView>::empty());
    if b.len() == 0 {
        assert(a + b =~= a);
    } else {
        law_values_add_up(a, b.drop_last(), utxo);
        assert((a + b).drop_last() =~= a + b.drop_last());
        assert((a + b).last() == b.last());
    }
}

/// The values and the references of coins are those of each, in their order, and so is what is picked
/// at chosen places.
pub proof fn law_coins_in_order(utxos: Seq<UtxoView>, chosen: Seq<usize>, i: int)
    ensures
        utxo_values(utxos).len() == utxos.len(),
        outpoints_of(utxos).len() == utxos.len(),
        picked(utxos, chosen).len() == chosen.len(),
        0 <= i < utxos.len() ==> utxo_values(utxos)[i] == utxos[i].tx_out.value
            && outpoints_of(utxos)[i] == utxos[i].outpoint,
        0 <= i < chosen.len() ==> picked(utxos, chosen)[i] == utxos[chosen[i] as int],
{
}

/// The model of a listed output has every field of it.
pub proof fn law_model_keeps_the_listed_output(entry: &UnspentEntry)
    ensures
        entry@.outpoint.txid == entry.txid@,
        entry@.outpoint.vout == entry.vout,
        entry@.address is Some <==> entry.address is Some,
        entry.address matches Some(address) ==> entry@.address == Some(address@),
        entry@.redeem_script is Some <==> entry.redeem_script is Some,
        entry.redeem_script matches Some(script) ==> entry@.redeem_script == Some(script@),
        entry@.script_pub_key == entry.script_pub_key@,
        entry@.amount == entry.amount,
        entry@.spendable == entry.spendable,
{
}

/// The model of an unspent output has every field of it.
pub proof fn law_model_keeps_the_unspent_output(utxo: &Utxo)
    ensures
        utxo@.tx_out.value == utxo.tx_out.value,
        utxo@.tx_out.script_pubkey == utxo.tx_out.script_pubkey@,
        utxo@.outpoint.txid == utxo.outpoint.txid@,
        utxo@.outpoint.vout == utxo.outpoint.vout,
        utxo@.address == utxo.address@,
        utxo@.redeem_script == utxo.redeem_script@,
        utxo@.reserved == utxo.reserved,
{
}

/// The models of lists have the model of each element, in their order.
pub proof fn law_models_of_lists(
    entries: Seq<UnspentEntry>,
    utxos: Seq<Utxo>,
    outpoints: Seq<OutPoint>,
    i: int,
)
    ensures
        unspent_views(entries).len() == entries.len(),
        utxo_views(utxos).len() == utxos.len(),
        outpoint_views(outpoints).len() == outpoints.len(),
        0 <= i < entries.len() ==> unspent_views(entries)[i] == entries[i]@,
        0 <= i < utxos.len() ==> utxo_views(utxos)[i] == utxos[i]@,
        0 <= i < outpoints.len() ==> outpoint_views(outpoints)[i] == outpoints[i]@,
{
}

/// The request to store a key is for that key, for the network that it is asked for, and for use with
/// the compressed public key. It has no label, and looks for no past transactions.
pub proof fn law_key_is_stored_for_its_network(
    request: ImportPrivateKeyRequest,
    sk: [u8; 32],
    network: Network,
)
    ensures
        imports(request, sk, network) <==> {
            &&& request.key.inner == sk
            &&& request.key.network == network
            &&& request.key.compressed
            &&& request.label is None
            &&& request.rescan == Some(false)
        },
{
}

/// The cost of change is 20 satoshis.
pub proof fn law_cost_of_change()
    ensures
        COST_OF_CHANGE == 20,
{
}

/// A new key is made exactly if the node names a known network, and the request is to store it for that
/// network: a key in 32 bytes, with its compressed public key, without a label, and without looking
/// for past transactions.
pub proof fn law_new_key_is_for_the_network_of_the_node(
    name: String,
    r: Result<ImportPrivateKeyRequest, ManagerError>,
)
    requires
        new_key_answer(Ok(name), r),
    ensures
        r is Ok <==> name@ == "main"@ || name@ == "test"@ || name@ == "signet"@ || name@
            == "regtest"@,
        r matches Ok(request) ==> {
            &&& name@ == "main"@ <==> request.key.network == Network::Bitcoin
            &&& name@ == "test"@ <==> request.key.network == Network::Testnet
            &&& name@ == "signet"@ <==> request.key.network == Network::Signet
            &&& name@ == "regtest"@ <==> request.key.network == Network::Regtest
            &&& is_secret_key(request.key.inner@)
            &&& request.key.compressed
            &&& request.label is None
            &&& request.rescan == Some(false)
        },
        r matches Err(e) ==> (e matches ManagerError::BlockchainError(text) && text@
            == "Unknown Bitcoin network"@),
{
    law_networks_by_name(name@);
}

/// No key is made for a node that does not tell its chain, and its failure reaches the manager whole.
pub proof fn law_new_key_needs_a_chain(e: RpcError, r: Result<ImportPrivateKeyRequest, ManagerError>)
    requires
        new_key_answer(Err(e), r),
    ensures
        r == Err::<ImportPrivateKeyRequest, ManagerError>(
            ManagerError::WalletError(Error::RpcError(e)),
        ),
{
}

/// The key that is returned is the one that was stored, and none is returned that was not stored.
pub proof fn law_stored_key_is_returned(request: ImportPrivateKeyRequest, reply: Result<(), RpcError>)
    ensures
        reply is Ok ==> stored_key(request, reply) == Ok::<[u8; 32], ManagerError>(
            request.key.inner,
        ),
        reply matches Err(e) ==> stored_key(request, reply) == Err::<[u8; 32], ManagerError>(
            ManagerError::WalletError(Error::RpcError(e)),
        ),
{
}

/// The address that is watched is the one that was given, without a label, and without looking for
/// past transactions.
pub proof fn law_given_address_is_watched(request: ImportAddressRequest, address: Seq<char>)
    ensures
        watches(request, address) <==> request.address@ == address && request.label is None
            && request.rescan == Some(false),
{
}

/// All coins of a funding are returned unless locking them failed, whatever the node's answer to the
/// request to lock them says. A failure reaches the manager whole.
pub proof fn law_coins_are_returned_unless_locking_fails(
    funding: Funding,
    locked: Option<Result<bool, RpcError>>,
)
    ensures
        locked is None || locked->0 is Ok ==> after_lock(funding, locked) == Ok::<
            Vec<Utxo>,
            ManagerError,
        >(funding.utxos),
        locked matches Some(Err(e)) ==> after_lock(funding, locked) == Err::<
            Vec<Utxo>,
            ManagerError,
        >(ManagerError::WalletError(Error::RpcError(e))),
{
}

} // verus!
