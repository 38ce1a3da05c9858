use bitcoin_rpc_provider::error::RpcError;
use bitcoin_rpc_provider::fees::{
    poll_for_fee_estimates, query_fee_estimate, ConfirmationTarget, EstimateMode, FeeTable,
    PollAction, PollState, MIN_FEERATE,
};
use bitcoincore_rpc::Error as ClientError;

const TARGETS: [ConfirmationTarget; 7] = [
    ConfirmationTarget::OnChainSweep,
    ConfirmationTarget::MaxAllowedNonAnchorChannelRemoteFee,
    ConfirmationTarget::MinAllowedAnchorChannelRemoteFee,
    ConfirmationTarget::MinAllowedNonAnchorChannelRemoteFee,
    ConfirmationTarget::AnchorChannelFee,
    ConfirmationTarget::NonAnchorChannelFee,
    ConfirmationTarget::ChannelCloseMinimum,
];

fn rates(fees: &FeeTable) -> Vec<u32> {
    TARGETS
        .iter()
        .map(|target| fees.get_est_sat_per_1000_weight(*target))
        .collect()
}

#[test]
fn initial_estimates() {
    assert_eq!(
        rates(&FeeTable::new()),
        vec![5000, 6250, 253, 253, 253, 2000, 253]
    );
}

#[test]
fn polling_order() {
    let mut fees = FeeTable::new();
    let mut state = PollState::new();
    let mut actions = Vec::new();
    for _ in 0..6 {
        actions.push(state.action());
        state = poll_for_fee_estimates(state, None, &mut fees);
    }
    let query = |conf_target, estimate_mode| PollAction::Estimate {
        conf_target,
        estimate_mode,
    };
    assert_eq!(
        actions,
        vec![
            query(1008, EstimateMode::Economical),
            query(144, EstimateMode::Economical),
            query(18, EstimateMode::Conservative),
            query(6, EstimateMode::Conservative),
            PollAction::Sleep { seconds: 60 },
            query(1008, EstimateMode::Economical),
        ]
    );
    assert_eq!(fees, FeeTable::new());
}

#[test]
fn each_query_stores_its_estimates() {
    let mut fees = FeeTable::new();
    poll_for_fee_estimates(PollState::MempoolMinimum, Some(300), &mut fees);
    assert_eq!(rates(&fees), vec![5000, 6250, 300, 253, 253, 2000, 253]);
    poll_for_fee_estimates(PollState::Background, Some(253), &mut fees);
    assert_eq!(rates(&fees), vec![5000, 6250, 300, 3, 253, 2000, 253]);
    poll_for_fee_estimates(PollState::Background, Some(1000), &mut fees);
    assert_eq!(rates(&fees), vec![5000, 6250, 300, 750, 1000, 2000, 1000]);
    poll_for_fee_estimates(PollState::Normal, Some(4000), &mut fees);
    assert_eq!(rates(&fees), vec![5000, 6250, 300, 750, 1000, 4000, 1000]);
    poll_for_fee_estimates(PollState::HighPriority, Some(600), &mut fees);
    assert_eq!(rates(&fees), vec![600, 6250, 300, 750, 1000, 4000, 1000]);
    poll_for_fee_estimates(PollState::HighPriority, Some(626), &mut fees);
    assert_eq!(rates(&fees), vec![626, 6260, 300, 750, 1000, 4000, 1000]);
    poll_for_fee_estimates(PollState::HighPriority, Some(429_496_729), &mut fees);
    assert_eq!(fees.get_est_sat_per_1000_weight(TARGETS[1]), 4_294_967_290);
    poll_for_fee_estimates(PollState::HighPriority, Some(429_496_730), &mut fees);
    assert_eq!(rates(&fees)[..2], [429_496_730, 6250]);
    poll_for_fee_estimates(PollState::HighPriority, Some(429_500_000), &mut fees);
    assert_eq!(rates(&fees)[..2], [429_500_000, 32_704]);
    poll_for_fee_estimates(PollState::HighPriority, Some(u32::MAX), &mut fees);
    assert_eq!(rates(&fees)[..2], [u32::MAX, 4_294_967_286]);
}

#[test]
fn queries_that_fail_leave_their_estimates() {
    let outcomes = [300, 1000, 4000, 700];
    for mask in 0..16 {
        let mut fees = FeeTable::new();
        let mut state = PollState::new();
        let answered = |query: usize| mask >> query & 1 == 1;
        for (query, rate) in outcomes.iter().enumerate() {
            let outcome = if answered(query) { Some(*rate) } else { None };
            state = poll_for_fee_estimates(state, outcome, &mut fees);
        }
        assert_eq!(state, PollState::Resting);
        state = poll_for_fee_estimates(state, None, &mut fees);
        assert_eq!(state, PollState::new());
        let pick = |query: usize, new: u32, old: u32| if answered(query) { new } else { old };
        assert_eq!(
            rates(&fees),
            vec![
                pick(3, 700, 5000),
                pick(3, 7000, 6250),
                pick(0, 300, 253),
                pick(1, 750, 253),
                pick(1, 1000, 253),
                pick(2, 4000, 2000),
                pick(1, 1000, 253),
            ]
        );
    }
}

#[test]
fn failed_queries_change_nothing() {
    let mut fees = FeeTable::new();
    poll_for_fee_estimates(PollState::Background, Some(777), &mut fees);
    let before = fees;
    let mut state = PollState::new();
    for _ in 0..5 {
        state = poll_for_fee_estimates(state, None, &mut fees);
    }
    assert_eq!(fees, before);
    assert_eq!(state, PollState::new());
}

#[test]
fn full_round_determines_every_estimate() {
    let mut a = FeeTable::new();
    let mut b = FeeTable::new();
    poll_for_fee_estimates(PollState::Normal, Some(99_999), &mut b);
    poll_for_fee_estimates(PollState::HighPriority, Some(88_888), &mut b);
    for fees in [&mut a, &mut b] {
        let mut state = PollState::new();
        for rate in [260, 500, 1500, 2500] {
            state = poll_for_fee_estimates(state, Some(rate), fees);
        }
        assert_eq!(state, PollState::Resting);
    }
    assert_eq!(a, b);
    assert_eq!(rates(&a), vec![2500, 25000, 260, 250, 500, 1500, 500]);
}

#[test]
fn estimates_stay_sound() {
    let mut fees = FeeTable::new();
    let mut state = PollState::new();
    for step in 0..200u32 {
        let outcome = if step % 3 == 0 {
            None
        } else {
            Some(MIN_FEERATE + (step * 7919) % 100_000)
        };
        state = poll_for_fee_estimates(state, outcome, &mut fees);
        let r = rates(&fees);
        for i in [0, 2, 4, 5, 6] {
            assert!(r[i] >= MIN_FEERATE);
        }
        assert!(r[1] >= 6250);
        assert!(r[3] >= 3);
        assert_eq!(r[4], r[6]);
        assert!(r[3] <= r[4]);
    }
}

#[test]
fn higher_answers_stand_for_no_lower_rates() {
    let answers = [0, 1, 252, 253, 254, 5_000, 429_496_730, u32::MAX - 1, u32::MAX];
    for pair in answers.windows(2) {
        let lower = query_fee_estimate(Ok(Some(pair[0]))).unwrap();
        let higher = query_fee_estimate(Ok(Some(pair[1]))).unwrap();
        assert!(lower <= higher);
    }
}

#[test]
fn estimates_are_raised_to_the_minimum() {
    assert_eq!(query_fee_estimate(Ok(None)).unwrap(), 253);
    assert_eq!(query_fee_estimate(Ok(Some(0))).unwrap(), 253);
    assert_eq!(query_fee_estimate(Ok(Some(252))).unwrap(), 253);
    assert_eq!(query_fee_estimate(Ok(Some(253))).unwrap(), 253);
    assert_eq!(query_fee_estimate(Ok(Some(254))).unwrap(), 254);
    assert_eq!(query_fee_estimate(Ok(Some(u32::MAX))).unwrap(), u32::MAX);
}

#[test]
fn failed_estimates_are_reported() {
    let e = RpcError {
        response: None,
        source: ClientError::UnexpectedStructure,
    };
    let e = query_fee_estimate(Err(e)).unwrap_err();
    assert!(matches!(e.source, ClientError::UnexpectedStructure));
}
