use rust_decimal::prelude::FromPrimitive;
use rust_decimal::Decimal;
use switchboard_v2::{
    AggregatorAccountData, AggregatorRound, SwitchboardDecimal, SwitchboardError,
};

fn from_f64(v: f64) -> SwitchboardDecimal {
    SwitchboardDecimal::from_rust_decimal(Decimal::from_f64(v).unwrap())
}

fn create_aggregator(
    current_round: AggregatorRound,
    last_round: AggregatorRound,
) -> AggregatorAccountData {
    let mut aggregator = AggregatorAccountData::default();
    aggregator.min_update_delay_seconds = 10;
    aggregator.latest_confirmed_round = last_round;
    aggregator.current_round = current_round;
    aggregator.min_job_results = 10;
    aggregator.min_oracle_results = 10;
    return aggregator;
}

fn create_round(num_success: u32, num_error: u32, v: f64) -> AggregatorRound {
    let mut result = AggregatorRound::default();
    result.num_success = num_success;
    result.num_error = num_error;
    result.result = from_f64(v);
    return result;
}

#[test]
fn test_reject_current_on_sucess_count() {
    let current_round = create_round(2, 5, 97.5);
    let last_round = create_round(30, 0, 100.0);

    let aggregator = create_aggregator(current_round.clone(), last_round.clone());
    assert_eq!(aggregator.get_result().unwrap(), last_round.clone());
}

#[test]
fn test_accept_current_on_sucess_count() {
    let current_round = create_round(20, 5, 97.5);
    let last_round = create_round(30, 0, 100.0);

    let aggregator = create_aggregator(current_round.clone(), last_round.clone());
    assert_eq!(aggregator.get_result().unwrap(), current_round.clone());
}

#[test]
fn test_no_valid_aggregator_result() {
    let current_round = create_round(1, 5, 97.5);
    let last_round = create_round(1, 5, 100.0);

    let aggregator = create_aggregator(current_round.clone(), last_round.clone());
    assert_eq!(
        aggregator.get_result(),
        Err(SwitchboardError::InvalidAggregatorRound)
    );
}

#[test]
fn resolved_round_carries_its_own_result() {
    let current_round = create_round(2, 5, 97.5);
    let last_round = create_round(30, 0, 100.0);
    let aggregator = create_aggregator(current_round, last_round);
    let picked = aggregator.get_result().unwrap();
    assert_eq!(picked.num_success, 30);
    assert_eq!(picked.num_error, 0);
    assert_eq!(picked.result.compare(&SwitchboardDecimal::new(100, 0)), Ok(core::cmp::Ordering::Equal));

    let current_round = create_round(20, 5, 97.5);
    let aggregator = create_aggregator(current_round, last_round);
    let picked = aggregator.get_result().unwrap();
    assert_eq!(picked.num_success, 20);
    assert_eq!(picked.num_error, 5);
    assert_eq!(picked.result.mantissa, 975);
    assert_eq!(picked.result.scale, 1);
}

#[test]
fn quorum_is_met_at_exactly_the_threshold() {
    let round = create_round(10, 0, 1.0);
    assert!(round.is_round_valid(10));
    assert!(!round.is_round_valid(11));
    assert!(round.is_round_valid(0));
    let short = create_round(9, 0, 1.0);
    assert!(!short.is_round_valid(10));

    let aggregator = create_aggregator(short, round);
    assert_eq!(aggregator.get_result().unwrap().num_success, 10);
    let aggregator = create_aggregator(round, short);
    assert_eq!(aggregator.get_result().unwrap().num_success, 10);
    let aggregator = create_aggregator(short, short);
    assert_eq!(
        aggregator.get_result(),
        Err(SwitchboardError::InvalidAggregatorRound)
    );
}

#[test]
fn default_state_is_all_zero() {
    let data = AggregatorAccountData::default();
    assert_eq!(data.min_oracle_results, 0);
    assert_eq!(data.name, [0u8; 32]);
    assert_eq!(data.metadata, [0u8; 128]);
    assert_eq!(data._ebuf, [0u8; 224]);
    assert!(!data.is_locked);
    assert_eq!(data.current_round, AggregatorRound::default());
    assert_eq!(data.job_hashes[15].data, [0u8; 32]);
    let round = AggregatorRound::default();
    assert_eq!(round.num_success, 0);
    assert_eq!(round.result.mantissa, 0);
    assert_eq!(round.medians_data[15].scale, 0);
    assert_eq!(round.oracle_pubkeys_data[15], [0u8; 32]);
    assert_eq!(round.current_payout, [0i64; 16]);
    assert_eq!(round.medians_fulfilled, [false; 16]);
    // with a quorum of zero an untouched feed hands out its current round
    assert_eq!(data.get_result(), Ok(round));
}
