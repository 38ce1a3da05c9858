//! Choosing the coins that fund an amount.
use bitcoin_units::{Amount, FeeRate, Weight};
use vstd::prelude::*;

verus! {

/// `bitcoin_units::Amount`.
#[verifier::external_type_specification]
#[verifier::external_body]
pub struct ExAmount(Amount);

/// `bitcoin_units::Weight`.
#[verifier::external_type_specification]
#[verifier::external_body]
pub struct ExWeight(Weight);

/// The number of satoshis of an amount.
pub uninterp spec fn sats(amount: Amount) -> u64;

/// The number of weight units of a weight.
pub uninterp spec fn weight_units(weight: Weight) -> u64;

/// `bitcoin_units::Amount::from_sat` makes the amount of the given number of satoshis.
pub assume_specification[ bitcoin_units::Amount::from_sat ](satoshi: u64) -> (r: Amount)
    ensures
        sats(r) == satoshi,
;

/// `bitcoin_units::Weight::from_wu` makes the weight of the given number of weight units.
pub assume_specification[ bitcoin_units::Weight::from_wu ](wu: u64) -> (r: Weight)
    ensures
        weight_units(r) == wu,
;

/// A coin that may be spent: its place in the pool that it comes from, and its value.
#[derive(Clone, Copy, Debug)]
pub struct Coin {
    /// The place of the coin in its pool.
    pub index: usize,
    /// The value in satoshis.
    pub value: u64,
}

impl bitcoin_coin_selection::WeightedUtxo for Coin {
    fn satisfaction_weight(&self) -> (r: Weight)
        ensures
            weight_units(r) == 0,
    {
        Weight::from_wu(0)
    }

    fn value(&self) -> (r: Amount)
        ensures
            sats(r) == self.value,
    {
        Amount::from_sat(self.value)
    }
}

/// The largest value, in satoshis, that coin selection takes into account.
pub const MAX_COIN_VALUE: u64 = 0x7fff_ffff_ffff_ffff;

/// The number of satoshis that can ever exist.
pub const MAX_MONEY: u64 = 2_100_000_000_000_000;

/// The size up to which a pool is searched exhaustively for a selection that needs no change.
pub const SEARCHED_POOL: usize = 15;

/// The values of the coins of a pool.
pub open spec fn coin_values(coins: Seq<Coin>) -> Seq<u64> {
    Seq::new(coins.len(), |i: int| coins[i].value)
}

/// The sum of the values at the chosen places.
pub open spec fn chosen_sum(values: Seq<u64>, chosen: Seq<usize>) -> nat
    decreases chosen.len(),
{
    if chosen.len() == 0 {
        0
    } else {
        chosen_sum(values, chosen.drop_last()) + values[chosen.last() as int] as nat
    }
}

/// The sum of the values that selection takes into account.
pub open spec fn usable_sum(values: Seq<u64>) -> nat
    decreases values.len(),
{
    if values.len() == 0 {
        0
    } else {
        usable_sum(values.drop_last()) + if values.last() <= MAX_COIN_VALUE {
            values.last() as nat
        } else {
            0
        }
    }
}

/// Some value is taken into account by selection.
pub open spec fn any_usable(values: Seq<u64>) -> bool {
    exists|i: int| 0 <= i < values.len() && #[trigger] values[i] <= MAX_COIN_VALUE
}

/// Distinct places of usable values.
pub open spec fn is_choice(values: Seq<u64>, chosen: Seq<usize>) -> bool {
    &&& forall|k: int|
        0 <= k < chosen.len() ==> (#[trigger] chosen[k]) < values.len()
            && values[chosen[k] as int] <= MAX_COIN_VALUE
    &&& chosen.no_duplicates()
}

/// Some choice of coins reaches the target and exceeds it by no more than the cost of change.
pub open spec fn changeless_exists(values: Seq<u64>, target: u64, cost_of_change: u64) -> bool {
    exists|c: Seq<usize>|
        #[trigger] is_choice(values, c) && target <= chosen_sum(values, c) <= target
            + cost_of_change
}

/// A choice without change exists, and is certain to be found: the target is above zero, the pool has
/// at most [`SEARCHED_POOL`] coins, and no amount exceeds [`MAX_MONEY`].
pub open spec fn changeless_found(values: Seq<u64>, target: u64, cost_of_change: u64) -> bool {
    &&& 0 < target
    &&& cost_of_change <= MAX_MONEY
    &&& values.len() <= SEARCHED_POOL
    &&& forall|i: int| 0 <= i < values.len() ==> #[trigger] values[i] <= MAX_MONEY
    &&& changeless_exists(values, target, cost_of_change)
}

/// What every selection for a target satisfies: it is a choice of coins that reaches the target,
/// and it does not reach a target above zero without its last coin.
pub open spec fn funds(values: Seq<u64>, target: u64, chosen: Seq<usize>) -> bool {
    &&& is_choice(values, chosen)
    &&& chosen.len() > 0
    &&& chosen_sum(values, chosen) >= target
    &&& target > 0 ==> chosen_sum(values, chosen.drop_last()) < target
}

/// What may come of a selection, whatever chance draws. What is selected funds the target, and needs
/// no change where a choice without change is certain to be found or the target is above
/// [`MAX_MONEY`]. Nothing is selected only where no such choice is certain to be found and, for a
/// target of at most [`MAX_MONEY`], where there is no usable coin or the usable coins do not reach the
/// target.
pub open spec fn is_selection(
    values: Seq<u64>,
    target: u64,
    cost_of_change: u64,
    selection: Option<Seq<usize>>,
) -> bool {
    match selection {
        Some(chosen) => {
            &&& funds(values, target, chosen)
            &&& changeless_found(values, target, cost_of_change) || target > MAX_MONEY
                ==> chosen_sum(values, chosen) <= target + cost_of_change
        },
        None => {
            &&& target <= MAX_MONEY && any_usable(values) ==> usable_sum(values) < target
            &&& !changeless_found(values, target, cost_of_change)
        },
    }
}

/// The places of a selection as a sequence.
pub open spec fn selection_view(selection: Option<Vec<usize>>) -> Option<Seq<usize>> {
    match selection {
        Some(chosen) => Some(chosen@),
        None => None,
    }
}

/// Calls `bitcoin_coin_selection::select_coins` with fee rates of zero, under which the effective
/// value of a coin is its value: a branch and bound search for a selection that exceeds the target
/// by at most the cost of change and, where that finds none, a random draw. Coins above
/// [`MAX_COIN_VALUE`] are passed over, and nothing is drawn for a target above [`MAX_MONEY`]. The
/// contract claims that whatever is selected funds the target; that something is selected where there
/// are usable coins that reach the target and the target is at most [`MAX_MONEY`]; that only a
/// selection without change is made for a target above that; and that a selection without change is
/// made, whatever the target, where there is one and the pool has at most [`SEARCHED_POOL`] coins,
/// which the search goes through within its limit of iterations. Which coins are drawn, and in which
/// order, rests on chance and is left open, and so is what the search finds in a larger pool.
#[verifier::external_body]
fn select(target: u64, cost_of_change: u64, coins: &Vec<Coin>) -> (r: Option<Vec<usize>>)
    requires
        coins.len() <= u32::MAX,
        forall|i: int| 0 <= i < coins.len() ==> (#[trigger] coins[i]).index == i,
    ensures
        is_selection(coin_values(coins@), target, cost_of_change, selection_view(r)),
{
    let selected = bitcoin_coin_selection::select_coins(
        Amount::from_sat(target),
        Amount::from_sat(cost_of_change),
        FeeRate::ZERO,
        FeeRate::ZERO,
        coins.as_slice(),
    );
    selected.map(|(_, picked)| picked.into_iter().map(|coin| coin.index).collect())
}

/// Taking one place out of a choice takes its value out of the sum.
proof fn lemma_sum_without(values: Seq<u64>, chosen: Seq<usize>, k: int)
    requires
        0 <= k < chosen.len(),
    ensures
        chosen_sum(values, chosen) == chosen_sum(values, chosen.remove(k))
            + values[chosen[k] as int] as nat,
    decreases chosen.len(),
{
    if k == chosen.len() - 1 {
        assert(chosen.remove(k) =~= chosen.drop_last());
    } else {
        lemma_sum_without(values, chosen.drop_last(), k);
        assert(chosen.remove(k).drop_last() =~= chosen.drop_last().remove(k));
    }
}

/// The sum at some places depends only on the values there.
proof fn lemma_sum_prefix(values: Seq<u64>, chosen: Seq<usize>)
    requires
        values.len() > 0,
        forall|k: int| 0 <= k < chosen.len() ==> (#[trigger] chosen[k]) < values.len() - 1,
    ensures
        chosen_sum(values, chosen) == chosen_sum(values.drop_last(), chosen),
    decreases chosen.len(),
{
    if chosen.len() > 0 {
        let rest = chosen.drop_last();
        assert forall|k: int| 0 <= k < rest.len() implies (#[trigger] rest[k]) < values.len()
            - 1 by {
            assert(rest[k] == chosen[k]);
        }
        lemma_sum_prefix(values, rest);
        assert(chosen.last() == chosen[chosen.len() - 1]);
    }
}

/// No choice of coins is worth more than all usable coins together.
pub proof fn law_choice_within_pool(values: Seq<u64>, chosen: Seq<usize>)
    requires
        is_choice(values, chosen),
    ensures
        chosen_sum(values, chosen) <= usable_sum(values),
    decreases values.len(),
{
    if values.len() == 0 {
        if chosen.len() > 0 {
            assert(chosen[0] < values.len());
        }
    } else {
        let front = values.drop_last();
        let last = values.len() - 1;
        if exists|k: int| 0 <= k < chosen.len() && chosen[k] == last {
            let k = choose|k: int| 0 <= k < chosen.len() && chosen[k] == last;
            let rest = chosen.remove(k);
            lemma_sum_without(values, chosen, k);
            assert forall|j: int| 0 <= j < rest.len() implies (#[trigger] rest[j]) < front.len()
                && front[rest[j] as int] <= MAX_COIN_VALUE by {
                let i = if j < k {
                    j
                } else {
                    j + 1
                };
                assert(rest[j] == chosen[i] && chosen[i] != chosen[k]);
            }
            assert(rest.no_duplicates());
            lemma_sum_prefix(values, rest);
            law_choice_within_pool(front, rest);
        } else {
            assert forall|j: int| 0 <= j < chosen.len() implies (#[trigger] chosen[j])
                < front.len() && front[chosen[j] as int] <= MAX_COIN_VALUE by {
                assert(chosen[j] != last);
            }
            lemma_sum_prefix(values, chosen);
            law_choice_within_pool(front, chosen);
        }
    }
}

/// For a target above [`MAX_MONEY`] something is selected from a small pool of coins that can exist
/// exactly if the target can be reached without change.
pub proof fn law_large_targets_need_no_change(
    values: Seq<u64>,
    target: u64,
    cost_of_change: u64,
    selection: Option<Seq<usize>>,
)
    requires
        is_selection(values, target, cost_of_change, selection),
        target > MAX_MONEY,
        cost_of_change <= MAX_MONEY,
        values.len() <= SEARCHED_POOL,
        forall|i: int| 0 <= i < values.len() ==> #[trigger] values[i] <= MAX_MONEY,
    ensures
        selection is Some <==> changeless_exists(values, target, cost_of_change),
{
    if selection is Some {
        assert(is_choice(values, selection->0));
    }
}

/// Without a usable value, the usable values are worth nothing.
proof fn lemma_nothing_usable(values: Seq<u64>)
    requires
        !any_usable(values),
    ensures
        usable_sum(values) == 0,
    decreases values.len(),
{
    if values.len() > 0 {
        let front = values.drop_last();
        assert forall|i: int| 0 <= i < front.len() implies #[trigger] front[i]
            > MAX_COIN_VALUE by {
            assert(front[i] == values[i]);
        }
        lemma_nothing_usable(front);
        assert(values[values.len() - 1] > MAX_COIN_VALUE);
    }
}

/// Chooses coins, given by their values, that reach a target. For a target above zero and up to
/// [`MAX_MONEY`], `None` means that the coins are not worth enough. It is also the answer to a target
/// of zero where there is no usable coin, and it can come for a target above [`MAX_MONEY`] that the
/// coins reach: such a target is only reached without change, which is certain to be found in a small
/// pool. Which coins are chosen rests on chance.
pub fn select_coins(target: u64, cost_of_change: u64, values: &Vec<u64>) -> (r: Option<Vec<usize>>)
    requires
        values.len() <= u32::MAX,
    ensures
        is_selection(values@, target, cost_of_change, selection_view(r)),
        r matches Some(chosen) ==> {
            &&& chosen.len() > 0
            &&& chosen@.no_duplicates()
            &&& forall|k: int| 0 <= k < chosen.len() ==> (#[trigger] chosen[k]) < values.len()
            &&& chosen_sum(values@, chosen@) >= target
        },
        r is Some ==> any_usable(values@) && usable_sum(values@) >= target,
        0 < target <= MAX_MONEY ==> (r is Some <==> usable_sum(values@) >= target),
{
    let mut coins: Vec<Coin> = Vec::new();
    for i in 0..values.len()
        invariant
            coins.len() == i,
            forall|k: int|
                0 <= k < i ==> (#[trigger] coins[k]).index == k && coins[k].value == values[k],
    {
        coins.push(Coin { index: i, value: values[i] });
    }
    assert(coin_values(coins@) =~= values@);
    let r = select(target, cost_of_change, &coins);
    proof {
        if r is Some {
            let chosen = r->0;
            law_choice_within_pool(values@, chosen@);
            assert(values@[chosen@[0] as int] <= MAX_COIN_VALUE);
        }
        if !any_usable(values@) {
            lemma_nothing_usable(values@);
        }
    }
    r
}

/// The values that selection works on are those of the coins, in their order.
pub proof fn law_values_of_coins(coins: Seq<Coin>, i: int)
    ensures
        coin_values(coins).len() == coins.len(),
        0 <= i < coins.len() ==> coin_values(coins)[i] == coins[i].value,
{
}

/// What is chosen is worth what its coins are worth: nothing is worth nothing, one coin its value, and
/// two choices together the sum of both.
pub proof fn law_choices_add_up(values: Seq<u64>, a: Seq<usize>, b: Seq<usize>, i: usize)
    ensures
        chosen_sum(values, Seq::empty()) == 0,
        chosen_sum(values, seq![i]) == values[i as int],
        chosen_sum(values, a + b) == chosen_sum(values, a) + chosen_sum(values, b),
    decreases b.len(),
{
    reveal_with_fuel(chosen_sum, 2);
    assert(seq![i].drop_last() =~= Seq::<usize>::empty());
    if b.len() == 0 {
        assert(a + b =~= a);
    } else {
        law_choices_add_up(values, a, b.drop_last(), i);
        assert((a + b).drop_last() =~= a + b.drop_last());
        assert((a + b).last() == b.last());
    }
}

/// What a pool is worth is what its coins are worth: an empty pool is worth nothing, one coin its
/// value, unless it is above 2^63 - 1 and passed over, and two pools together the sum of both.
pub proof fn law_pools_add_up(a: Seq<u64>, b: Seq<u64>, value: u64)
    ensures
        usable_sum(Seq::empty()) == 0,
        value <= 0x7fff_ffff_ffff_ffff ==> usable_sum(seq![value]) == value,
        value > 0x7fff_ffff_ffff_ffff ==> usable_sum(seq![value]) == 0,
        usable_sum(a + b) == usable_sum(a) + usable_sum(b),
    decreases b.len(),
{
    reveal_with_fuel(usable_sum, 2);
    assert(seq![value].drop_last() =~= Seq::<u64>::empty());
    if b.len() == 0 {
        assert(a + b =~= a);
    } else {
        law_pools_add_up(a, b.drop_last(), value);
        assert((a + b).drop_last() =~= a + b.drop_last());
        assert((a + b).last() == b.last());
    }
}

/// A pool has a usable coin exactly if one of its coins is at most 2^63 - 1.
pub proof fn law_usable_coins(values: Seq<u64>)
    ensures
        any_usable(values) <==> exists|i: int|
            0 <= i < values.len() && #[trigger] values[i] <= 0x7fff_ffff_ffff_ffff,
{
}

/// A choice is of places of the pool, of usable coins, and of none twice.
pub proof fn law_choices(values: Seq<u64>, chosen: Seq<usize>)
    ensures
        is_choice(values, chosen) <==> chosen.no_duplicates() && (forall|k: int|
            0 <= k < chosen.len() ==> (#[trigger] chosen[k]) < values.len()
                && values[chosen[k] as int] <= 0x7fff_ffff_ffff_ffff),
{
}

/// What is selected: coins at different places of the pool, at least one, that together reach the
/// target, and do not reach a target above zero without the last of them.
pub proof fn law_selected_coins_fund_the_target(
    values: Seq<u64>,
    target: u64,
    cost_of_change: u64,
    chosen: Seq<usize>,
)
    requires
        is_selection(values, target, cost_of_change, Some(chosen)) || funds(values, target, chosen),
    ensures
        chosen.len() > 0,
        chosen.no_duplicates(),
        forall|k: int| 0 <= k < chosen.len() ==> (#[trigger] chosen[k]) < values.len(),
        chosen_sum(values, chosen) >= target,
        target > 0 ==> chosen_sum(values, chosen.drop_last()) < target,
{
}

/// Nothing is selected for a target above zero and up to the money that can exist only if the coins
/// do not reach it.
pub proof fn law_nothing_selected_means_too_few_coins(
    values: Seq<u64>,
    target: u64,
    cost_of_change: u64,
)
    requires
        is_selection(values, target, cost_of_change, None),
        0 < target <= 2_100_000_000_000_000,
    ensures
        usable_sum(values) < target,
{
    if !any_usable(values) {
        lemma_nothing_usable(values);
    }
}

/// Where a choice exceeds the target by at most the cost of change, in a pool of at most 15 coins that
/// can exist, something is selected, and it exceeds the target by no more than that either.
pub proof fn law_change_is_avoided(
    values: Seq<u64>,
    target: u64,
    cost_of_change: u64,
    selection: Option<Seq<usize>>,
    choice: Seq<usize>,
)
    requires
        is_selection(values, target, cost_of_change, selection),
        0 < target,
        cost_of_change <= 2_100_000_000_000_000,
        values.len() <= 15,
        forall|i: int| 0 <= i < values.len() ==> #[trigger] values[i] <= 2_100_000_000_000_000,
        choice.no_duplicates(),
        forall|k: int| 0 <= k < choice.len() ==> (#[trigger] choice[k]) < values.len(),
        target <= chosen_sum(values, choice) <= target + cost_of_change,
    ensures
        selection is Some,
        target <= chosen_sum(values, selection->0) <= target + cost_of_change,
{
    assert(is_choice(values, choice));
}

/// The places of a selection are those of the vector, if something is selected.
pub proof fn law_places_of_a_selection(selection: Option<Vec<usize>>)
    ensures
        selection is None <==> selection_view(selection) is None,
        selection matches Some(chosen) ==> selection_view(selection) == Some(chosen@),
{
}

} // verus!
