//! The provider itself: how it reaches the node, and what it holds.
use crate::error::{Error, RpcError};
use crate::fees::{
    initial_fees, least_rate, poll_accepts, poll_next, poll_update, polled, sound_fees,
    ConfirmationTarget, FeeTable, PollState,
};
use bitcoincore_rpc::Client;
use std::sync::Arc;
use vstd::prelude::*;
use vstd::string::*;

verus! {

/// `bitcoincore_rpc::Client`, the connection to a node. Only carried.
#[verifier::external_type_specification]
#[verifier::external_body]
pub struct ExClient(Client);

/// A decimal digit.
pub open spec fn digit(d: nat) -> char {
    (48 + d) as char
}

/// The decimal representation of a number.
pub open spec fn decimal(n: nat) -> Seq<char>
    decreases n,
{
    if n < 10 {
        seq![digit(n)]
    } else {
        decimal(n / 10).push(digit(n % 10))
    }
}

/// The number that decimal digits stand for.
pub open spec fn decimal_value(digits: Seq<char>) -> nat
    decreases digits.len(),
{
    if digits.len() == 0 {
        0
    } else {
        decimal_value(digits.drop_last()) * 10 + (digits.last() as nat - 48) as nat
    }
}

/// The decimal representation of a number stands for the number.
pub proof fn law_decimal_stands_for_number(n: nat)
    ensures
        decimal_value(decimal(n)) == n,
    decreases n,
{
    if n < 10 {
        reveal_with_fuel(decimal_value, 2);
        assert(decimal(n).drop_last() =~= Seq::<char>::empty());
    } else {
        law_decimal_stands_for_number(n / 10);
        assert(decimal(n).drop_last() =~= decimal(n / 10));
    }
}

/// Appending a digit multiplies the number that digits stand for by ten and adds the digit. No digits
/// stand for zero.
pub proof fn law_digits_count_in_tens(digits: Seq<char>, c: char)
    requires
        48 <= c as int <= 57,
    ensures
        decimal_value(Seq::empty()) == 0,
        decimal_value(digits.push(c)) == decimal_value(digits) * 10 + (c as int - 48),
{
    assert(digits.push(c).drop_last() =~= digits);
}

/// The decimal representation of a number consists of digits, and starts with zero only for zero.
pub proof fn law_decimal_is_digits(n: nat)
    ensures
        decimal(n).len() > 0,
        forall|i: int| 0 <= i < decimal(n).len() ==> 48 <= (#[trigger] decimal(n)[i]) as int <= 57,
        n > 0 ==> decimal(n)[0] as int != 48,
        n < 10 ==> decimal(n).len() == 1,
    decreases n,
{
    if n >= 10 {
        law_decimal_is_digits(n / 10);
    }
}

/// Where the requests to a node go: its own address, or that of one of its wallets.
pub open spec fn rpc_url(host: Seq<char>, port: u16, wallet: Option<Seq<char>>) -> Seq<char> {
    let base = "http://"@ + host + ":"@ + decimal(port as nat);
    match wallet {
        Some(name) => base + "/wallet/"@ + name,
        None => base,
    }
}

/// The text of an optional string.
pub open spec fn text_view(text: Option<String>) -> Option<Seq<char>> {
    match text {
        Some(text) => Some(text@),
        None => None,
    }
}

/// The text of a decimal digit.
fn digit_text(d: u16) -> (text: &'static str)
    requires
        d < 10,
    ensures
        text@ == seq![digit(d as nat)],
{
    proof {
        reveal_strlit("0");
        reveal_strlit("1");
        reveal_strlit("2");
        reveal_strlit("3");
        reveal_strlit("4");
        reveal_strlit("5");
        reveal_strlit("6");
        reveal_strlit("7");
        reveal_strlit("8");
        reveal_strlit("9");
    }
    let text = match d {
        0 => "0",
        1 => "1",
        2 => "2",
        3 => "3",
        4 => "4",
        5 => "5",
        6 => "6",
        7 => "7",
        8 => "8",
        _ => "9",
    };
    assert(text@ =~= seq![digit(d as nat)]);
    text
}

/// The decimal representation of a port number.
fn decimal_text(n: u16) -> (text: String)
    ensures
        text@ == decimal(n as nat),
    decreases n,
{
    if n < 10 {
        digit_text(n).to_owned()
    } else {
        let mut text = decimal_text(n / 10);
        text.append(digit_text(n % 10));
        assert(text@ =~= decimal(n as nat));
        text
    }
}

/// What it takes to connect to a node.
#[derive(Debug, PartialEq, Eq)]
pub struct Endpoint {
    /// Where the requests go.
    pub url: String,
    /// The name to log in with.
    pub rpc_user: String,
    /// The password to log in with.
    pub rpc_password: String,
}

impl Endpoint {
    /// The endpoint of a node, or of one of its wallets.
    pub fn new(
        host: String,
        port: u16,
        wallet: Option<String>,
        rpc_user: String,
        rpc_password: String,
    ) -> (endpoint: Endpoint)
        ensures
            endpoint.url@ == rpc_url(host@, port, text_view(wallet)),
            wallet is None ==> endpoint.url@ == "http://"@ + host@ + ":"@ + decimal(port as nat),
            wallet matches Some(name) ==> endpoint.url@ == "http://"@ + host@ + ":"@ + decimal(
                port as nat,
            ) + "/wallet/"@ + name@,
            endpoint.rpc_user == rpc_user,
            endpoint.rpc_password == rpc_password,
    {
        let mut url = "http://".to_owned();
        url.append(host.as_str());
        url.append(":");
        url.append(decimal_text(port).as_str());
        if let Some(wallet_name) = wallet {
            url.append("/wallet/");
            url.append(wallet_name.as_str());
        }
        Endpoint { url, rpc_user, rpc_password }
    }
}

/// The address of a wallet is that of its node, followed by the path of the wallet.
pub proof fn law_wallet_url_extends_node_url(host: Seq<char>, port: u16, wallet: Seq<char>)
    ensures
        rpc_url(host, port, Some(wallet)) == rpc_url(host, port, None) + "/wallet/"@ + wallet,
{
}

/// The parts of an address, one after the other: the protocol, the host as it was given, a colon, the
/// port in decimal, and for a wallet its path and its name as it was given.
pub proof fn law_url_parts(host: Seq<char>, port: u16, wallet: Option<Seq<char>>)
    ensures
        ({
            let url = rpc_url(host, port, wallet);
            let n = host.len() as int;
            let digits = decimal(port as nat).len() as int;
            &&& url.len() >= 8 + n + digits
            &&& url.take(7) == "http://"@
            &&& url.subrange(7, 7 + n) == host
            &&& url[7 + n] == ':'
            &&& decimal_value(url.subrange(8 + n, 8 + n + digits)) == port
            &&& forall|i: int|
                8 + n <= i < 8 + n + digits ==> 48 <= (#[trigger] url[i]) as int <= 57
            &&& wallet is None ==> url.len() == 8 + n + digits
            &&& wallet matches Some(name) ==> url.skip(8 + n + digits) == "/wallet/"@ + name
        }),
{
    reveal_strlit("http://");
    reveal_strlit(":");
    let url = rpc_url(host, port, wallet);
    let n = host.len() as int;
    let text = decimal(port as nat);
    let digits = text.len() as int;
    law_decimal_stands_for_number(port as nat);
    law_decimal_is_digits(port as nat);
    assert(url.take(7) =~= "http://"@);
    assert(url.subrange(7, 7 + n) =~= host);
    assert(url.subrange(8 + n, 8 + n + digits) =~= text);
    assert forall|i: int| 8 + n <= i < 8 + n + digits implies 48 <= (#[trigger] url[i]) as int
        <= 57 by {
        assert(url[i] == text[i - (8 + n)]);
    }
    if let Some(name) = wallet {
        assert(url.skip(8 + n + digits) =~= "/wallet/"@ + name);
    }
}

/// Different hosts have different addresses.
pub proof fn law_urls_tell_hosts_apart(
    a: Seq<char>,
    b: Seq<char>,
    port: u16,
    wallet: Option<Seq<char>>,
)
    requires
        rpc_url(a, port, wallet) == rpc_url(b, port, wallet),
    ensures
        a == b,
{
    law_url_parts(a, port, wallet);
    law_url_parts(b, port, wallet);
    assert(a.len() == b.len());
}

/// Different wallets of a node have different addresses, and none has that of the node.
pub proof fn law_urls_tell_wallets_apart(host: Seq<char>, port: u16, a: Seq<char>, b: Seq<char>)
    ensures
        rpc_url(host, port, Some(a)) == rpc_url(host, port, Some(b)) <==> a == b,
        rpc_url(host, port, Some(a)) != rpc_url(host, port, None),
{
    reveal_strlit("/wallet/");
    law_url_parts(host, port, Some(a));
    law_url_parts(host, port, Some(b));
    law_url_parts(host, port, None);
    assert(("/wallet/"@ + a).skip(8) =~= a);
    assert(("/wallet/"@ + b).skip(8) =~= b);
}

/// The text of an optional string is that of the string, if there is one.
pub proof fn law_optional_text(text: Option<String>)
    ensures
        text is None <==> text_view(text) is None,
        text matches Some(t) ==> text_view(text) == Some(t@),
{
}

/// Different ports of a host have different addresses.
pub proof fn law_urls_tell_ports_apart(host: Seq<char>, p: u16, q: u16)
    requires
        rpc_url(host, p, None) == rpc_url(host, q, None),
    ensures
        p == q,
{
    let front = "http://"@ + host + ":"@;
    let n = front.len() as int;
    let url = rpc_url(host, p, None);
    assert(url.skip(n) =~= decimal(p as nat));
    assert(url.skip(n) =~= decimal(q as nat));
    law_decimal_stands_for_number(p as nat);
    law_decimal_stands_for_number(q as nat);
}

/// A provider of wallet, block chain and fee services: a connection to a node, which it shares with
/// those who send its requests, and the fee rates that the node estimated.
pub struct BitcoinCoreProvider {
    client: Arc<Client>,
    fees: FeeTable,
}

impl BitcoinCoreProvider {
    /// The connection to the node.
    pub closed spec fn client(self) -> Client {
        *self.client
    }

    /// The current estimate for every confirmation target.
    pub closed spec fn fees(self) -> Map<ConfirmationTarget, u32> {
        self.fees@
    }

    /// A provider on the connection to an [`Endpoint`], given what came of connecting to it.
    pub fn new(connected: Result<Client, RpcError>) -> (r: Result<BitcoinCoreProvider, Error>)
        ensures
            match connected {
                Ok(client) => r matches Ok(provider) && provider.client() == client
                    && provider.fees() == initial_fees(),
                Err(e) => r == Err::<BitcoinCoreProvider, Error>(Error::RpcError(e)),
            },
    {
        match connected {
            Ok(client) => Ok(BitcoinCoreProvider::new_from_rpc_client(client)),
            Err(e) => Err(Error::from(e)),
        }
    }

    /// A provider on a connection, before the node has estimated a fee rate.
    pub fn new_from_rpc_client(rpc_client: Client) -> (provider: BitcoinCoreProvider)
        ensures
            provider.client() == rpc_client,
            provider.fees() == initial_fees(),
    {
        BitcoinCoreProvider { client: Arc::new(rpc_client), fees: FeeTable::new() }
    }

    /// The connection, to be shared with those who send the requests of the provider.
    pub fn shared_client(&self) -> (client: Arc<Client>)
        ensures
            *client == self.client(),
    {
        self.client.clone()
    }

    /// Takes the polling of the node one step further: stores what follows from the outcome of the
    /// action of the state in the estimates of the provider, and returns the state that comes next.
    pub fn poll_for_fee_estimates(&mut self, state: PollState, outcome: Option<u32>) -> (next:
        PollState)
        requires
            poll_accepts(outcome),
        ensures
            final(self).fees() == poll_update(state, outcome, old(self).fees()),
            final(self).client() == old(self).client(),
            sound_fees(final(self).fees()),
            next == poll_next(state),
    {
        crate::fees::poll_for_fee_estimates(state, outcome, &mut self.fees)
    }

    /// The current estimate for a confirmation target, in satoshis per 1000 weight units.
    pub fn get_est_sat_per_1000_weight(&self, confirmation_target: ConfirmationTarget) -> (rate:
        u32)
        ensures
            self.fees().dom().contains(confirmation_target),
            rate == self.fees()[confirmation_target],
            rate >= least_rate(confirmation_target),
            sound_fees(self.fees()),
    {
        self.fees.get_est_sat_per_1000_weight(confirmation_target)
    }
}

/// A provider from the moment it is made, while polling goes through some outcomes: the provider and
/// the state of the polling before the first step and after each.
pub open spec fn is_polled(
    providers: Seq<BitcoinCoreProvider>,
    states: Seq<PollState>,
    outcomes: Seq<Option<u32>>,
) -> bool {
    &&& providers.len() == outcomes.len() + 1
    &&& states.len() == outcomes.len() + 1
    &&& providers[0].fees() == initial_fees()
    &&& states[0] == polled(Seq::empty()).0
    &&& forall|i: int|
        0 <= i < outcomes.len() ==> {
            &&& providers[i + 1].fees() == poll_update(
                states[i],
                #[trigger] outcomes[i],
                providers[i].fees(),
            )
            &&& providers[i + 1].client() == providers[i].client()
            &&& states[i + 1] == poll_next(states[i])
        }
}

/// What polling stored is what the provider later returns: at any time its estimates are those that
/// follow from all the outcomes so far. Its connection stays the one that it was made with.
pub proof fn law_provider_returns_what_polling_stored(
    providers: Seq<BitcoinCoreProvider>,
    states: Seq<PollState>,
    outcomes: Seq<Option<u32>>,
)
    requires
        is_polled(providers, states, outcomes),
    ensures
        providers.last().fees() == polled(outcomes).1,
        states.last() == polled(outcomes).0,
        providers.last().client() == providers[0].client(),
    decreases outcomes.len(),
{
    if outcomes.len() == 0 {
        assert(outcomes =~= Seq::empty());
    } else {
        let front = outcomes.drop_last();
        let n = front.len() as int;
        assert forall|i: int| 0 <= i < front.len() implies {
            &&& providers.drop_last()[i + 1].fees() == poll_update(
                states.drop_last()[i],
                #[trigger] front[i],
                providers.drop_last()[i].fees(),
            )
            &&& providers.drop_last()[i + 1].client() == providers.drop_last()[i].client()
            &&& states.drop_last()[i + 1] == poll_next(states.drop_last()[i])
        } by {
            assert(front[i] == outcomes[i]);
        }
        law_provider_returns_what_polling_stored(providers.drop_last(), states.drop_last(), front);
        assert(outcomes[n] == outcomes.last());
    }
}

} // verus!
