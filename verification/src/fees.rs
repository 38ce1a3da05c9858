//! Fee rate estimates, and the polling that keeps them up to date.
use crate::error::RpcError;
use vstd::prelude::*;

verus! {

/// The minimum fee rate, in satoshis per 1000 weight units, that may be used.
pub const MIN_FEERATE: u32 = 253;

/// What a fee rate is meant for.
#[derive(Clone, Copy, Debug, PartialEq, Eq, Structural)]
pub enum ConfirmationTarget {
    /// Spending funds on chain before they can be taken.
    OnChainSweep,
    /// The highest fee rate that the peer may use in a channel without anchors.
    MaxAllowedNonAnchorChannelRemoteFee,
    /// The lowest fee rate that the peer may use in a channel with anchors.
    MinAllowedAnchorChannelRemoteFee,
    /// The lowest fee rate that the peer may use in a channel without anchors.
    MinAllowedNonAnchorChannelRemoteFee,
    /// Closing a channel with anchors.
    AnchorChannelFee,
    /// Closing a channel without anchors.
    NonAnchorChannelFee,
    /// The lowest fee rate for closing a channel cooperatively.
    ChannelCloseMinimum,
}

/// How cautiously a node estimates.
#[derive(Clone, Copy, Debug, PartialEq, Eq, Structural)]
pub enum EstimateMode {
    /// Follow short term drops of the fee rates.
    Economical,
    /// Do not.
    Conservative,
}

/// The current estimate for every confirmation target, in satoshis per 1000 weight units.
#[derive(Clone, Copy, Debug, PartialEq, Eq)]
pub struct FeeTable {
    on_chain_sweep: u32,
    max_allowed_non_anchor: u32,
    min_allowed_anchor: u32,
    min_allowed_non_anchor: u32,
    anchor_channel: u32,
    non_anchor_channel: u32,
    channel_close_minimum: u32,
}

impl View for FeeTable {
    type V = Map<ConfirmationTarget, u32>;

    closed spec fn view(&self) -> Map<ConfirmationTarget, u32> {
        Map::new(
            |target: ConfirmationTarget| true,
            |target: ConfirmationTarget|
                match target {
                    ConfirmationTarget::OnChainSweep => self.on_chain_sweep,
                    ConfirmationTarget::MaxAllowedNonAnchorChannelRemoteFee =>
                        self.max_allowed_non_anchor,
                    ConfirmationTarget::MinAllowedAnchorChannelRemoteFee => self.min_allowed_anchor,
                    ConfirmationTarget::MinAllowedNonAnchorChannelRemoteFee =>
                        self.min_allowed_non_anchor,
                    ConfirmationTarget::AnchorChannelFee => self.anchor_channel,
                    ConfirmationTarget::NonAnchorChannelFee => self.non_anchor_channel,
                    ConfirmationTarget::ChannelCloseMinimum => self.channel_close_minimum,
                },
        )
    }
}

/// The estimates before the node has answered a single query.
pub open spec fn initial_fees() -> Map<ConfirmationTarget, u32> {
    map![
        ConfirmationTarget::OnChainSweep => 5000u32,
        ConfirmationTarget::MaxAllowedNonAnchorChannelRemoteFee => 6250u32,
        ConfirmationTarget::MinAllowedAnchorChannelRemoteFee => MIN_FEERATE,
        ConfirmationTarget::MinAllowedNonAnchorChannelRemoteFee => MIN_FEERATE,
        ConfirmationTarget::AnchorChannelFee => MIN_FEERATE,
        ConfirmationTarget::NonAnchorChannelFee => 2000u32,
        ConfirmationTarget::ChannelCloseMinimum => MIN_FEERATE,
    ]
}

impl FeeTable {
    /// The estimates before the node has answered a single query.
    pub fn new() -> (fees: FeeTable)
        ensures
            fees@ == initial_fees(),
            sound_fees(fees@),
    {
        let fees = FeeTable {
            on_chain_sweep: 5000,
            max_allowed_non_anchor: 25 * 250,
            min_allowed_anchor: MIN_FEERATE,
            min_allowed_non_anchor: MIN_FEERATE,
            anchor_channel: MIN_FEERATE,
            non_anchor_channel: 2000,
            channel_close_minimum: MIN_FEERATE,
        };
        assert(fees@ =~= initial_fees());
        proof {
            fees.lemma_sound();
        }
        fees
    }

    /// The estimates that a table can hold: those that are sound.
    #[verifier::type_invariant]
    spec fn well_formed(self) -> bool {
        &&& self.on_chain_sweep >= MIN_FEERATE
        &&& self.max_allowed_non_anchor >= 25 * 250
        &&& self.min_allowed_anchor >= MIN_FEERATE
        &&& self.min_allowed_non_anchor >= MIN_FEERATE - 250
        &&& self.min_allowed_non_anchor <= self.anchor_channel
        &&& self.anchor_channel >= MIN_FEERATE
        &&& self.non_anchor_channel >= MIN_FEERATE
        &&& self.channel_close_minimum == self.anchor_channel
    }

    /// A table holds sound estimates.
    proof fn lemma_sound(self)
        requires
            self.well_formed(),
        ensures
            sound_fees(self@),
    {
    }

    /// There is an estimate for every confirmation target.
    pub proof fn law_every_target_estimated(&self, target: ConfirmationTarget)
        ensures
            self@.dom().contains(target),
    {
    }

    /// The current estimate for a confirmation target. It never falls below the least rate of the
    /// target.
    pub fn get_est_sat_per_1000_weight(&self, confirmation_target: ConfirmationTarget) -> (rate:
        u32)
        ensures
            self@.dom().contains(confirmation_target),
            rate == self@[confirmation_target],
            rate >= least_rate(confirmation_target),
            sound_fees(self@),
    {
        proof {
            use_type_invariant(self);
            self.lemma_sound();
        }
        match confirmation_target {
            ConfirmationTarget::OnChainSweep => self.on_chain_sweep,
            ConfirmationTarget::MaxAllowedNonAnchorChannelRemoteFee => self.max_allowed_non_anchor,
            ConfirmationTarget::MinAllowedAnchorChannelRemoteFee => self.min_allowed_anchor,
            ConfirmationTarget::MinAllowedNonAnchorChannelRemoteFee => self.min_allowed_non_anchor,
            ConfirmationTarget::AnchorChannelFee => self.anchor_channel,
            ConfirmationTarget::NonAnchorChannelFee => self.non_anchor_channel,
            ConfirmationTarget::ChannelCloseMinimum => self.channel_close_minimum,
        }
    }
}

/// Where the polling for estimates stands: the query that is to be made next, or the rest between
/// two rounds of queries.
#[derive(Clone, Copy, Debug, PartialEq, Eq, Structural)]
pub enum PollState {
    /// What it takes to enter the memory pool.
    MempoolMinimum,
    /// Confirmation within a day.
    Background,
    /// Confirmation within hours.
    Normal,
    /// Confirmation within the hour.
    HighPriority,
    /// Between two rounds.
    Resting,
}

/// What is to be done in a [`PollState`].
#[derive(Clone, Copy, Debug, PartialEq, Eq, Structural)]
pub enum PollAction {
    /// Ask the node (`estimatesmartfee`) for the fee rate that confirms within some blocks.
    Estimate {
        /// The number of blocks.
        conf_target: u16,
        /// How cautiously to estimate.
        estimate_mode: EstimateMode,
    },
    /// Wait.
    Sleep {
        /// For how long.
        seconds: u64,
    },
}

/// What is to be done in a state of the polling.
pub open spec fn poll_action(state: PollState) -> PollAction {
    match state {
        PollState::MempoolMinimum => PollAction::Estimate {
            conf_target: 1008,
            estimate_mode: EstimateMode::Economical,
        },
        PollState::Background => PollAction::Estimate {
            conf_target: 144,
            estimate_mode: EstimateMode::Economical,
        },
        PollState::Normal => PollAction::Estimate {
            conf_target: 18,
            estimate_mode: EstimateMode::Conservative,
        },
        PollState::HighPriority => PollAction::Estimate {
            conf_target: 6,
            estimate_mode: EstimateMode::Conservative,
        },
        PollState::Resting => PollAction::Sleep { seconds: 60 },
    }
}

/// The state of the polling after the action of the given state, however that went.
pub open spec fn poll_next(state: PollState) -> PollState {
    match state {
        PollState::MempoolMinimum => PollState::Background,
        PollState::Background => PollState::Normal,
        PollState::Normal => PollState::HighPriority,
        PollState::HighPriority => PollState::Resting,
        PollState::Resting => PollState::MempoolMinimum,
    }
}

/// The larger of two fee rates.
pub open spec fn max_rate(a: int, b: int) -> int {
    if a >= b {
        a
    } else {
        b
    }
}

/// The highest rate allowed to a peer at a high priority fee rate: ten times that rate, in the
/// arithmetic of fee rates, which wraps around, and never less than 25 satoshis per virtual byte.
pub open spec fn tenfold_cap(rate: u32) -> u32 {
    max_rate(6250, (rate * 10) % 0x1_0000_0000) as u32
}

/// The estimates after the action of a state: `outcome` is the fee rate that was obtained, and
/// `None` if the query failed or there was none.
pub open spec fn poll_update(
    state: PollState,
    outcome: Option<u32>,
    fees: Map<ConfirmationTarget, u32>,
) -> Map<ConfirmationTarget, u32> {
    match (state, outcome) {
        (PollState::MempoolMinimum, Some(rate)) => fees.insert(
            ConfirmationTarget::MinAllowedAnchorChannelRemoteFee,
            rate,
        ),
        (PollState::Background, Some(rate)) => fees.insert(
            ConfirmationTarget::AnchorChannelFee,
            rate,
        ).insert(ConfirmationTarget::ChannelCloseMinimum, rate).insert(
            ConfirmationTarget::MinAllowedNonAnchorChannelRemoteFee,
            (rate - 250) as u32,
        ),
        (PollState::Normal, Some(rate)) => fees.insert(
            ConfirmationTarget::NonAnchorChannelFee,
            rate,
        ),
        (PollState::HighPriority, Some(rate)) => fees.insert(
            ConfirmationTarget::OnChainSweep,
            rate,
        ).insert(
            ConfirmationTarget::MaxAllowedNonAnchorChannelRemoteFee,
            tenfold_cap(rate),
        ),
        _ => fees,
    }
}

/// The outcomes that the polling can take: a fee rate is at least [`MIN_FEERATE`].
pub open spec fn poll_accepts(outcome: Option<u32>) -> bool {
    outcome matches Some(rate) ==> MIN_FEERATE <= rate
}

impl PollState {
    /// The state in which the polling begins.
    pub fn new() -> (state: PollState)
        ensures
            state == polled(Seq::empty()).0,
            state == PollState::MempoolMinimum,
    {
        PollState::MempoolMinimum
    }

    /// What is to be done in this state.
    pub fn action(&self) -> (action: PollAction)
        ensures
            action == poll_action(*self),
    {
        match self {
            PollState::MempoolMinimum => PollAction::Estimate {
                conf_target: 1008,
                estimate_mode: EstimateMode::Economical,
            },
            PollState::Background => PollAction::Estimate {
                conf_target: 144,
                estimate_mode: EstimateMode::Economical,
            },
            PollState::Normal => PollAction::Estimate {
                conf_target: 18,
                estimate_mode: EstimateMode::Conservative,
            },
            PollState::HighPriority => PollAction::Estimate {
                conf_target: 6,
                estimate_mode: EstimateMode::Conservative,
            },
            PollState::Resting => PollAction::Sleep { seconds: 60 },
        }
    }
}

/// The fee rate that an answer to `estimatesmartfee` stands for.
pub open spec fn estimate_answer(reply: Result<Option<u32>, RpcError>) -> Result<u32, RpcError> {
    match reply {
        Ok(Some(rate)) => Ok(max_rate(rate as int, MIN_FEERATE as int) as u32),
        Ok(None) => Ok(MIN_FEERATE),
        Err(e) => Err(e),
    }
}

/// The fee rate that the answer to a query stands for, and [`MIN_FEERATE`] if it is lower or the
/// node has no estimate. The answer holds the node's estimate in satoshis per 1000 weight units.
pub fn query_fee_estimate(reply: Result<Option<u32>, RpcError>) -> (r: Result<u32, RpcError>)
    ensures
        r == estimate_answer(reply),
        reply matches Ok(Some(rate)) ==> (rate >= 253 ==> r == Ok::<u32, RpcError>(rate)),
        reply matches Ok(Some(rate)) ==> (rate < 253 ==> r == Ok::<u32, RpcError>(253)),
        reply matches Ok(None) ==> r == Ok::<u32, RpcError>(253),
        reply matches Err(e) ==> r == Err::<u32, RpcError>(e),
{
    match reply {
        Ok(Some(rate)) => {
            if rate >= MIN_FEERATE {
                Ok(rate)
            } else {
                Ok(MIN_FEERATE)
            }
        },
        Ok(None) => Ok(MIN_FEERATE),
        Err(e) => Err(e),
    }
}

/// The outcome of a query for the polling: the fee rate that the node's answer stands for, and `None`
/// if the query failed.
pub open spec fn outcome_of(reply: Result<Option<u32>, RpcError>) -> Option<u32> {
    match estimate_answer(reply) {
        Ok(rate) => Some(rate),
        Err(_) => None,
    }
}

/// Whatever the node answers, the polling can take the outcome. Only a query that failed has none.
pub proof fn law_answers_are_accepted(reply: Result<Option<u32>, RpcError>)
    ensures
        poll_accepts(outcome_of(reply)),
        outcome_of(reply) is None <==> reply is Err,
{
}

/// An estimate of at least 253 stands for exactly itself, a lower one and the lack of one for 253, and
/// a failed query for the failure. What the polling gets is that rate, and nothing of a failure.
pub proof fn law_estimates_stand_for_themselves(rate: u32, e: RpcError)
    ensures
        rate >= 253 ==> estimate_answer(Ok(Some(rate))) == Ok::<u32, RpcError>(rate),
        rate < 253 ==> estimate_answer(Ok(Some(rate))) == Ok::<u32, RpcError>(253),
        estimate_answer(Ok(None)) == Ok::<u32, RpcError>(253),
        estimate_answer(Err(e)) == Err::<u32, RpcError>(e),
        rate >= 253 ==> outcome_of(Ok(Some(rate))) == Some(rate),
        rate < 253 ==> outcome_of(Ok(Some(rate))) == Some(253u32),
        outcome_of(Ok(None)) == Some(253u32),
        outcome_of(Err(e)) is None,
{
}

/// Different estimates of at least 253 stand for different fee rates.
pub proof fn law_estimates_are_told_apart(a: u32, b: u32)
    requires
        a >= 253,
        b >= 253,
        estimate_answer(Ok(Some(a))) == estimate_answer(Ok(Some(b))),
    ensures
        a == b,
{
}

/// The polling can take a fee rate exactly if it is at least 253, and a failure always.
pub proof fn law_accepted_outcomes(outcome: Option<u32>)
    ensures
        poll_accepts(outcome) <==> (outcome is None || outcome->0 >= 253),
        MIN_FEERATE == 253,
{
}

/// The larger of two rates is one of them, and neither is larger.
pub proof fn law_larger_rate(a: int, b: int)
    ensures
        max_rate(a, b) >= a,
        max_rate(a, b) >= b,
        max_rate(a, b) == a || max_rate(a, b) == b,
{
}

/// The highest rate allowed to a peer is ten times the high priority rate, but at least 6250. Only
/// where ten times the rate is no longer a 32 bit number is it cut to its lowest 32 bits.
pub proof fn law_cap_is_tenfold(rate: u32)
    ensures
        tenfold_cap(rate) >= 6250,
        625 <= rate <= 429_496_729 ==> tenfold_cap(rate) == 10 * rate,
        rate <= 625 ==> tenfold_cap(rate) == 6250,
        tenfold_cap(rate) == 6250 || (10 * rate - tenfold_cap(rate)) % 0x1_0000_0000 == 0,
        (10 * rate) % 0x1_0000_0000 <= tenfold_cap(rate),
{
}

/// What is asked in each state of the polling, and what comes next: four queries and a minute's wait,
/// over and over.
pub proof fn law_queries_in_order()
    ensures
        poll_action(PollState::MempoolMinimum) == (PollAction::Estimate {
            conf_target: 1008,
            estimate_mode: EstimateMode::Economical,
        }),
        poll_action(PollState::Background) == (PollAction::Estimate {
            conf_target: 144,
            estimate_mode: EstimateMode::Economical,
        }),
        poll_action(PollState::Normal) == (PollAction::Estimate {
            conf_target: 18,
            estimate_mode: EstimateMode::Conservative,
        }),
        poll_action(PollState::HighPriority) == (PollAction::Estimate {
            conf_target: 6,
            estimate_mode: EstimateMode::Conservative,
        }),
        poll_action(PollState::Resting) == (PollAction::Sleep { seconds: 60 }),
        poll_next(PollState::MempoolMinimum) == PollState::Background,
        poll_next(PollState::Background) == PollState::Normal,
        poll_next(PollState::Normal) == PollState::HighPriority,
        poll_next(PollState::HighPriority) == PollState::Resting,
        poll_next(PollState::Resting) == PollState::MempoolMinimum,
{
}

/// The estimates before the node has answered.
pub proof fn law_initial_estimates()
    ensures
        initial_fees()[ConfirmationTarget::OnChainSweep] == 5000,
        initial_fees()[ConfirmationTarget::MaxAllowedNonAnchorChannelRemoteFee] == 6250,
        initial_fees()[ConfirmationTarget::MinAllowedAnchorChannelRemoteFee] == 253,
        initial_fees()[ConfirmationTarget::MinAllowedNonAnchorChannelRemoteFee] == 253,
        initial_fees()[ConfirmationTarget::AnchorChannelFee] == 253,
        initial_fees()[ConfirmationTarget::NonAnchorChannelFee] == 2000,
        initial_fees()[ConfirmationTarget::ChannelCloseMinimum] == 253,
{
}

/// What a step of the polling stores: the rate that was obtained, as it is, for the targets that the
/// query feeds; 250 less for the lowest rate allowed to a peer in a channel without anchors; ten times
/// it, but at least 6250, for the highest. Every other estimate stays as it was, and so do all of them
/// where nothing was obtained.
pub proof fn law_step_stores_the_rate(
    state: PollState,
    outcome: Option<u32>,
    fees: Map<ConfirmationTarget, u32>,
    target: ConfirmationTarget,
)
    requires
        forall|t: ConfirmationTarget| #[trigger] fees.dom().contains(t),
        outcome matches Some(rate) ==> rate >= 253,
    ensures
        ({
            let after = poll_update(state, outcome, fees);
            &&& after.dom().contains(target)
            &&& outcome is None ==> after[target] == fees[target]
            &&& state is Resting ==> after[target] == fees[target]
            &&& outcome matches Some(rate) ==> match target {
                ConfirmationTarget::MinAllowedAnchorChannelRemoteFee => after[target] == if state
                    is MempoolMinimum {
                    rate
                } else {
                    fees[target]
                },
                ConfirmationTarget::AnchorChannelFee => after[target] == if state is Background {
                    rate
                } else {
                    fees[target]
                },
                ConfirmationTarget::ChannelCloseMinimum => after[target] == if state is Background {
                    rate
                } else {
                    fees[target]
                },
                ConfirmationTarget::MinAllowedNonAnchorChannelRemoteFee => if state is Background {
                    after[target] + 250 == rate
                } else {
                    after[target] == fees[target]
                },
                ConfirmationTarget::NonAnchorChannelFee => after[target] == if state is Normal {
                    rate
                } else {
                    fees[target]
                },
                ConfirmationTarget::OnChainSweep => after[target] == if state is HighPriority {
                    rate
                } else {
                    fees[target]
                },
                ConfirmationTarget::MaxAllowedNonAnchorChannelRemoteFee => if state is HighPriority {
                    &&& after[target] >= 6250
                    &&& 625 <= rate <= 429_496_729 ==> after[target] == 10 * rate
                    &&& rate <= 625 ==> after[target] == 6250
                    &&& after[target] == 6250 || (10 * rate - after[target]) % 0x1_0000_0000 == 0
                    &&& (10 * rate) % 0x1_0000_0000 <= after[target]
                } else {
                    after[target] == fees[target]
                },
            }
        }),
{
}

/// A higher answer never stands for a lower fee rate, and the highest fee rate stands for itself.
pub proof fn law_answers_are_monotone(lower: u32, higher: u32)
    requires
        lower <= higher,
    ensures
        estimate_answer(Ok(Some(lower))) matches Ok(a) && estimate_answer(Ok(Some(higher))) matches Ok(
            b,
        ) && estimate_answer(Ok(None)) matches Ok(least) && least <= a <= b,
        estimate_answer(Ok(Some(u32::MAX))) == Ok::<u32, RpcError>(u32::MAX),
{
}

/// Takes the polling one step further: stores what follows from the outcome of the action of the
/// state, and returns the state that comes next.
pub fn poll_for_fee_estimates(state: PollState, outcome: Option<u32>, fees: &mut FeeTable) -> (next:
    PollState)
    requires
        poll_accepts(outcome),
    ensures
        final(fees)@ == poll_update(state, outcome, old(fees)@),
        sound_fees(final(fees)@),
        next == poll_next(state),
{
    proof {
        use_type_invariant(&*fees);
    }
    let next = match state {
        PollState::MempoolMinimum => {
            if let Some(rate) = outcome {
                *fees = FeeTable { min_allowed_anchor: rate, ..*fees };
            }
            PollState::Background
        },
        PollState::Background => {
            if let Some(rate) = outcome {
                *fees = FeeTable {
                    anchor_channel: rate,
                    channel_close_minimum: rate,
                    min_allowed_non_anchor: rate - 250,
                    ..*fees
                };
            }
            PollState::Normal
        },
        PollState::Normal => {
            if let Some(rate) = outcome {
                *fees = FeeTable { non_anchor_channel: rate, ..*fees };
            }
            PollState::HighPriority
        },
        PollState::HighPriority => {
            if let Some(rate) = outcome {
                let tenfold: u32 = rate.wrapping_mul(10);
                let cap: u32 = if 25 * 250 >= tenfold {
                    25 * 250
                } else {
                    tenfold
                };
                *fees = FeeTable { on_chain_sweep: rate, max_allowed_non_anchor: cap, ..*fees };
            }
            PollState::Resting
        },
        PollState::Resting => PollState::MempoolMinimum,
    };
    assert(fees@ =~= poll_update(state, outcome, old(fees)@));
    proof {
        use_type_invariant(&*fees);
        fees.lemma_sound();
    }
    next
}

/// The state and the estimates after the polling went through the given outcomes, starting before
/// the first query.
pub open spec fn polled(outcomes: Seq<Option<u32>>) -> (PollState, Map<ConfirmationTarget, u32>)
    decreases outcomes.len(),
{
    if outcomes.len() == 0 {
        (PollState::MempoolMinimum, initial_fees())
    } else {
        let (state, fees) = polled(outcomes.drop_last());
        (poll_next(state), poll_update(state, outcomes.last(), fees))
    }
}

/// Every one of the outcomes is one that the polling can take.
pub open spec fn accepted(outcomes: Seq<Option<u32>>) -> bool {
    forall|i: int| 0 <= i < outcomes.len() ==> poll_accepts(#[trigger] outcomes[i])
}

/// The rate below which the estimate for a confirmation target never falls: [`MIN_FEERATE`], except
/// that the lowest rate allowed to a peer in a channel without anchors may be 250 lower, and that
/// the highest rate allowed to a peer is at least 25 satoshis per virtual byte.
pub open spec fn least_rate(target: ConfirmationTarget) -> u32 {
    match target {
        ConfirmationTarget::OnChainSweep => 253,
        ConfirmationTarget::MaxAllowedNonAnchorChannelRemoteFee => 6250,
        ConfirmationTarget::MinAllowedAnchorChannelRemoteFee => 253,
        ConfirmationTarget::MinAllowedNonAnchorChannelRemoteFee => 3,
        ConfirmationTarget::AnchorChannelFee => 253,
        ConfirmationTarget::NonAnchorChannelFee => 253,
        ConfirmationTarget::ChannelCloseMinimum => 253,
    }
}

/// What holds of the estimates at any time: there is one for every confirmation target, none is
/// below the least rate of its target, the minimum for closing is the rate for closing a channel with
/// anchors, and the lowest rate allowed to a peer in a channel without anchors is no higher than that.
pub open spec fn sound_fees(fees: Map<ConfirmationTarget, u32>) -> bool {
    &&& forall|target: ConfirmationTarget| #[trigger] fees.dom().contains(target)
    &&& forall|target: ConfirmationTarget| #[trigger] fees[target] >= least_rate(target)
    &&& fees[ConfirmationTarget::ChannelCloseMinimum] == fees[ConfirmationTarget::AnchorChannelFee]
    &&& fees[ConfirmationTarget::MinAllowedNonAnchorChannelRemoteFee]
        <= fees[ConfirmationTarget::AnchorChannelFee]
}

/// The estimates are sound before the node has answered a single query.
pub proof fn law_initial_fees_sound()
    ensures
        sound_fees(initial_fees()),
{
    assert forall|target: ConfirmationTarget| #[trigger] initial_fees().dom().contains(target) by {
        match target {
            ConfirmationTarget::OnChainSweep => {},
            ConfirmationTarget::MaxAllowedNonAnchorChannelRemoteFee => {},
            ConfirmationTarget::MinAllowedAnchorChannelRemoteFee => {},
            ConfirmationTarget::MinAllowedNonAnchorChannelRemoteFee => {},
            ConfirmationTarget::AnchorChannelFee => {},
            ConfirmationTarget::NonAnchorChannelFee => {},
            ConfirmationTarget::ChannelCloseMinimum => {},
        }
    }
}

/// A step of the polling keeps the estimates sound.
pub proof fn law_poll_keeps_fees_sound(
    state: PollState,
    outcome: Option<u32>,
    fees: Map<ConfirmationTarget, u32>,
)
    requires
        sound_fees(fees),
        poll_accepts(outcome),
    ensures
        sound_fees(poll_update(state, outcome, fees)),
{
}

/// The estimates are sound after any number of steps of the polling.
pub proof fn law_fees_always_sound(outcomes: Seq<Option<u32>>)
    requires
        accepted(outcomes),
    ensures
        sound_fees(polled(outcomes).1),
    decreases outcomes.len(),
{
    if outcomes.len() > 0 {
        let front = outcomes.drop_last();
        assert forall|i: int| 0 <= i < front.len() implies poll_accepts(#[trigger] front[i]) by {
            assert(front[i] == outcomes[i]);
        }
        law_fees_always_sound(front);
        assert(poll_accepts(outcomes[outcomes.len() - 1]));
        law_poll_keeps_fees_sound(polled(front).0, outcomes.last(), polled(front).1);
    } else {
        law_initial_fees_sound();
    }
}

/// However long the polling has gone on, whatever the node answered and however often it failed,
/// there is an estimate for every confirmation target, and none is below the least rate of its
/// target.
pub proof fn law_estimates_whatever_the_node_answers(
    replies: Seq<Result<Option<u32>, RpcError>>,
    target: ConfirmationTarget,
)
    ensures
        ({
            let outcomes = replies.map_values(|reply: Result<Option<u32>, RpcError>| outcome_of(reply));
            let fees = polled(outcomes).1;
            &&& sound_fees(fees)
            &&& fees.dom().contains(target)
            &&& fees[target] >= least_rate(target)
        }),
{
    let outcomes = replies.map_values(|reply: Result<Option<u32>, RpcError>| outcome_of(reply));
    assert forall|i: int| 0 <= i < outcomes.len() implies poll_accepts(#[trigger] outcomes[i]) by {
        law_answers_are_accepted(replies[i]);
    }
    law_fees_always_sound(outcomes);
}

/// A query that fails changes no estimate, and the polling goes on with the next query.
pub proof fn law_failed_query_changes_nothing(
    state: PollState,
    fees: Map<ConfirmationTarget, u32>,
)
    ensures
        poll_update(state, None, fees) == fees,
        poll_next(state) != state,
{
}

/// What the polling does after a number of steps: the four queries of a round, from the most distant
/// to the nearest confirmation, and then a wait of a minute.
pub open spec fn scheduled_action(steps: nat) -> PollAction {
    if steps % 5 == 0 {
        PollAction::Estimate { conf_target: 1008, estimate_mode: EstimateMode::Economical }
    } else if steps % 5 == 1 {
        PollAction::Estimate { conf_target: 144, estimate_mode: EstimateMode::Economical }
    } else if steps % 5 == 2 {
        PollAction::Estimate { conf_target: 18, estimate_mode: EstimateMode::Conservative }
    } else if steps % 5 == 3 {
        PollAction::Estimate { conf_target: 6, estimate_mode: EstimateMode::Conservative }
    } else {
        PollAction::Sleep { seconds: 60 }
    }
}

/// The polling follows its schedule without end, whatever came of the steps so far: each round makes
/// the same four queries in the same order, then waits, and the next round begins.
pub proof fn law_polling_follows_schedule(outcomes: Seq<Option<u32>>)
    ensures
        poll_action(polled(outcomes).0) == scheduled_action(outcomes.len()),
    decreases outcomes.len(),
{
    if outcomes.len() > 0 {
        law_polling_follows_schedule(outcomes.drop_last());
    }
}

/// The estimates after a round of queries with the given outcomes.
pub open spec fn round(
    fees: Map<ConfirmationTarget, u32>,
    minimum: Option<u32>,
    background: Option<u32>,
    normal: Option<u32>,
    high: Option<u32>,
) -> Map<ConfirmationTarget, u32> {
    let fees = poll_update(PollState::MempoolMinimum, minimum, fees);
    let fees = poll_update(PollState::Background, background, fees);
    let fees = poll_update(PollState::Normal, normal, fees);
    let fees = poll_update(PollState::HighPriority, high, fees);
    poll_update(PollState::Resting, None, fees)
}

/// In a round, whichever of the four queries fail, each query that is answered determines the
/// estimates that it feeds, and the estimates that a failed query feeds keep their values.
pub proof fn law_round_determines_estimates(
    fees: Map<ConfirmationTarget, u32>,
    minimum: Option<u32>,
    background: Option<u32>,
    normal: Option<u32>,
    high: Option<u32>,
)
    requires
        forall|target: ConfirmationTarget| #[trigger] fees.dom().contains(target),
        poll_accepts(background),
    ensures
        ({
            let after = round(fees, minimum, background, normal, high);
            &&& forall|target: ConfirmationTarget| #[trigger] after.dom().contains(target)
            &&& after[ConfirmationTarget::MinAllowedAnchorChannelRemoteFee] == match minimum {
                Some(rate) => rate,
                None => fees[ConfirmationTarget::MinAllowedAnchorChannelRemoteFee],
            }
            &&& after[ConfirmationTarget::AnchorChannelFee] == match background {
                Some(rate) => rate,
                None => fees[ConfirmationTarget::AnchorChannelFee],
            }
            &&& after[ConfirmationTarget::ChannelCloseMinimum] == match background {
                Some(rate) => rate,
                None => fees[ConfirmationTarget::ChannelCloseMinimum],
            }
            &&& after[ConfirmationTarget::MinAllowedNonAnchorChannelRemoteFee] == match background {
                Some(rate) => rate - 250,
                None => fees[ConfirmationTarget::MinAllowedNonAnchorChannelRemoteFee] as int,
            }
            &&& after[ConfirmationTarget::NonAnchorChannelFee] == match normal {
                Some(rate) => rate,
                None => fees[ConfirmationTarget::NonAnchorChannelFee],
            }
            &&& after[ConfirmationTarget::OnChainSweep] == match high {
                Some(rate) => rate,
                None => fees[ConfirmationTarget::OnChainSweep],
            }
            &&& after[ConfirmationTarget::MaxAllowedNonAnchorChannelRemoteFee] == match high {
                Some(rate) => tenfold_cap(rate),
                None => fees[ConfirmationTarget::MaxAllowedNonAnchorChannelRemoteFee],
            }
        }),
{
}

/// Where five steps begin with a round, they are that round.
pub proof fn law_five_steps_are_a_round(
    outcomes: Seq<Option<u32>>,
    minimum: Option<u32>,
    background: Option<u32>,
    normal: Option<u32>,
    high: Option<u32>,
)
    requires
        outcomes.len() % 5 == 0,
    ensures
        polled(outcomes + seq![minimum, background, normal, high, None::<u32>]) == (
            PollState::MempoolMinimum,
            round(polled(outcomes).1, minimum, background, normal, high),
        ),
{
    law_polling_follows_schedule(outcomes);
    let one = outcomes.push(minimum);
    let two = one.push(background);
    let three = two.push(normal);
    let four = three.push(high);
    let five = four.push(None);
    assert(one.drop_last() =~= outcomes);
    assert(polled(one).0 == PollState::Background);
    assert(two.drop_last() =~= one);
    assert(polled(two).0 == PollState::Normal);
    assert(three.drop_last() =~= two);
    assert(polled(three).0 == PollState::HighPriority);
    assert(four.drop_last() =~= three);
    assert(polled(four).0 == PollState::Resting);
    assert(five.drop_last() =~= four);
    assert(five =~= outcomes + seq![minimum, background, normal, high, None::<u32>]);
}

} // verus!
