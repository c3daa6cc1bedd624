//! The state of a data feed and the choice of the round whose result counts.
//!
//! A feed holds two rounds: the one in progress and the last one that was
//! confirmed. The value of the feed is the result of the current round once
//! enough oracles have answered in it, and else that of the confirmed round, if
//! enough had answered there.

use vstd::prelude::*;
use crate::decimal::SwitchboardDecimal;
use crate::error::SwitchboardError;

verus! {

/// One aggregation cycle: how many oracles answered, and what came of it.
#[derive(Clone, Copy, Debug, PartialEq, Eq)]
pub struct AggregatorRound {
    /// The number of successful responses received from oracles.
    pub num_success: u32,
    pub num_error: u32,
    pub is_closed: bool,
    /// The slot at which the round was opened.
    pub round_open_slot: u64,
    /// The time, in seconds, at which the round was opened.
    pub round_open_timestamp: i64,
    /// The median of all successful responses of the round.
    pub result: SwitchboardDecimal,
    /// The standard deviation of the accepted results.
    pub std_deviation: SwitchboardDecimal,
    pub min_response: SwitchboardDecimal,
    pub max_response: SwitchboardDecimal,
    /// The keys of the oracles that serve this round.
    pub oracle_pubkeys_data: [[u8; 32]; 16],
    /// The successful responses, one slot for each oracle.
    pub medians_data: [SwitchboardDecimal; 16],
    /// What each oracle has earned or lost in this round.
    pub current_payout: [i64; 16],
    pub medians_fulfilled: [bool; 16],
    pub errors_fulfilled: [bool; 16],
}

impl AggregatorRound {
    /// A round counts once at least `min_oracle_results` oracles have answered.
    pub open spec fn is_round_valid_spec(&self, min_oracle_results: u32) -> bool {
        self.num_success >= min_oracle_results
    }

    /// Every number is zero, every flag unset.
    pub open spec fn is_zeroed(&self) -> bool {
        &&& self.num_success == 0
        &&& self.num_error == 0
        &&& !self.is_closed
        &&& self.round_open_slot == 0
        &&& self.round_open_timestamp == 0
        &&& self.result.mantissa == 0 && self.result.scale == 0
        &&& self.std_deviation.mantissa == 0 && self.std_deviation.scale == 0
        &&& self.min_response.mantissa == 0 && self.min_response.scale == 0
        &&& self.max_response.mantissa == 0 && self.max_response.scale == 0
        &&& forall|i: int, j: int|
            0 <= i < 16 && 0 <= j < 32 ==> self.oracle_pubkeys_data[i][j] == 0
        &&& forall|i: int|
            0 <= i < 16 ==> (#[trigger] self.medians_data[i]).mantissa == 0
                && self.medians_data[i].scale == 0
        &&& forall|i: int| 0 <= i < 16 ==> self.current_payout[i] == 0
        &&& forall|i: int| 0 <= i < 16 ==> !self.medians_fulfilled[i]
        &&& forall|i: int| 0 <= i < 16 ==> !self.errors_fulfilled[i]
    }

    /// Whether enough oracles have answered in this round.
    pub fn is_round_valid(&self, min_oracle_results: u32) -> (valid: bool)
        ensures
            valid == self.is_round_valid_spec(min_oracle_results),
    {
        if self.num_success >= min_oracle_results {
            return true;
        }
        false
    }
}

impl Default for AggregatorRound {
    fn default() -> (round: AggregatorRound)
        ensures
            round.is_zeroed(),
    {
        let zero = SwitchboardDecimal { mantissa: 0, scale: 0 };
        let medians = [
            zero,
            zero,
            zero,
            zero,
            zero,
            zero,
            zero,
            zero,
            zero,
            zero,
            zero,
            zero,
            zero,
            zero,
            zero,
            zero,
        ];
        AggregatorRound {
            num_success: 0,
            num_error: 0,
            is_closed: false,
            round_open_slot: 0,
            round_open_timestamp: 0,
            result: zero,
            std_deviation: zero,
            min_response: zero,
            max_response: zero,
            oracle_pubkeys_data: [[0u8; 32]; 16],
            medians_data: medians,
            current_payout: [0i64; 16],
            medians_fulfilled: [false; 16],
            errors_fulfilled: [false; 16],
        }
    }
}

/// The state of a feed as its account holds it.
#[derive(Clone, Copy, Debug, PartialEq)]
pub struct AggregatorAccountData {
    pub name: [u8; 32],
    pub metadata: [u8; 128],
    pub author_wallet: [u8; 32],
    pub queue_pubkey: [u8; 32],
    pub oracle_request_batch_size: u32,
    /// The quorum: how many oracles must answer for a round to count.
    pub min_oracle_results: u32,
    pub min_job_results: u32,
    pub min_update_delay_seconds: u32,
    /// The time from which the feed is updated.
    pub start_after: i64,
    pub variance_threshold: SwitchboardDecimal,
    /// The period after which oracles report even without a change.
    pub force_report_period: i64,
    pub expiration: i64,
    pub consecutive_failure_count: u64,
    pub next_allowed_update_time: i64,
    pub is_locked: bool,
    pub _schedule: [u8; 32],
    pub latest_confirmed_round: AggregatorRound,
    pub current_round: AggregatorRound,
    pub job_pubkeys_data: [[u8; 32]; 16],
    pub job_hashes: [crate::common::Hash; 16],
    pub job_pubkeys_size: u32,
    /// The checksum by which oracles confirm the jobs they answer.
    pub jobs_checksum: [u8; 32],
    pub authority: [u8; 32],
    pub _ebuf: [u8; 224],
}

impl AggregatorAccountData {
    /// Every number is zero, every flag unset.
    pub open spec fn is_zeroed(&self) -> bool {
        &&& forall|i: int| 0 <= i < 32 ==> self.name[i] == 0
        &&& forall|i: int| 0 <= i < 128 ==> self.metadata[i] == 0
        &&& forall|i: int| 0 <= i < 32 ==> self.author_wallet[i] == 0
        &&& forall|i: int| 0 <= i < 32 ==> self.queue_pubkey[i] == 0
        &&& self.oracle_request_batch_size == 0
        &&& self.min_oracle_results == 0
        &&& self.min_job_results == 0
        &&& self.min_update_delay_seconds == 0
        &&& self.start_after == 0
        &&& self.variance_threshold.mantissa == 0 && self.variance_threshold.scale == 0
        &&& self.force_report_period == 0
        &&& self.expiration == 0
        &&& self.consecutive_failure_count == 0
        &&& self.next_allowed_update_time == 0
        &&& !self.is_locked
        &&& forall|i: int| 0 <= i < 32 ==> self._schedule[i] == 0
        &&& self.latest_confirmed_round.is_zeroed()
        &&& self.current_round.is_zeroed()
        &&& forall|i: int, j: int| 0 <= i < 16 && 0 <= j < 32 ==> self.job_pubkeys_data[i][j] == 0
        &&& forall|i: int| 0 <= i < 16 ==> (#[trigger] self.job_hashes[i]).is_zeroed()
        &&& self.job_pubkeys_size == 0
        &&& forall|i: int| 0 <= i < 32 ==> self.jobs_checksum[i] == 0
        &&& forall|i: int| 0 <= i < 32 ==> self.authority[i] == 0
        &&& forall|i: int| 0 <= i < 224 ==> self._ebuf[i] == 0
    }

    /// The round whose result counts: the current round if it has reached the
    /// quorum, else the confirmed round if that has, else none.
    pub open spec fn get_result_spec(&self) -> Result<AggregatorRound, SwitchboardError> {
        if self.current_round.is_round_valid_spec(self.min_oracle_results) {
            Ok(self.current_round)
        } else if self.latest_confirmed_round.is_round_valid_spec(self.min_oracle_results) {
            Ok(self.latest_confirmed_round)
        } else {
            Err(SwitchboardError::InvalidAggregatorRound)
        }
    }

    /// Picks the round whose result is the feed's value. The freshest round is
    /// preferred, but no round is handed out that fell short of the quorum;
    /// where both did, the call fails with `InvalidAggregatorRound`.
    pub fn get_result(&self) -> (r: Result<AggregatorRound, SwitchboardError>)
        ensures
            r == self.get_result_spec(),
    {
        if self.current_round.is_round_valid(self.min_oracle_results) {
            Ok(self.current_round)
        } else if self.latest_confirmed_round.is_round_valid(self.min_oracle_results) {
            Ok(self.latest_confirmed_round)
        } else {
            Err(SwitchboardError::InvalidAggregatorRound)
        }
    }
}

impl Default for AggregatorAccountData {
    fn default() -> (data: AggregatorAccountData)
        ensures
            data.is_zeroed(),
    {
        let h = crate::common::Hash { data: [0u8; 32] };
        AggregatorAccountData {
            name: [0u8; 32],
            metadata: [0u8; 128],
            author_wallet: [0u8; 32],
            queue_pubkey: [0u8; 32],
            oracle_request_batch_size: 0,
            min_oracle_results: 0,
            min_job_results: 0,
            min_update_delay_seconds: 0,
            start_after: 0,
            variance_threshold: SwitchboardDecimal { mantissa: 0, scale: 0 },
            force_report_period: 0,
            expiration: 0,
            consecutive_failure_count: 0,
            next_allowed_update_time: 0,
            is_locked: false,
            _schedule: [0u8; 32],
            latest_confirmed_round: AggregatorRound::default(),
            current_round: AggregatorRound::default(),
            job_pubkeys_data: [[0u8; 32]; 16],
            job_hashes: [h, h, h, h, h, h, h, h, h, h, h, h, h, h, h, h],
            job_pubkeys_size: 0,
            jobs_checksum: [0u8; 32],
            authority: [0u8; 32],
            _ebuf: [0u8; 224],
        }
    }
}

} // verus!
