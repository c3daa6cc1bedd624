//! Read-side correctness layer for oracle data-feed accounts: an exact
//! fixed-point decimal, quorum-based round resolution, and point-in-time
//! lookup over a circular history buffer.

pub mod account_type;
pub mod aggregator;
pub mod common;
pub mod decimal;
pub mod decimal_order;
pub mod error;
pub mod history_buffer;
pub mod layout;
pub mod math;
pub mod vrf;
pub mod vrf_points;

pub use account_type::SwitchboardAccountType;
pub use aggregator::{AggregatorAccountData, AggregatorRound};
pub use decimal::{BorshDecimal, SwitchboardDecimal};
pub use error::SwitchboardError;
pub use history_buffer::{AggregatorHistoryBuffer, AggregatorHistoryRow};
pub use vrf::{VrfAccountData, VrfRequestRandomness};
