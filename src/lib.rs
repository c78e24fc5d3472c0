//! A collateral-backed synthetic-asset vault: a TTL price cache over oracle
//! feeds, a deposit and mint pipeline, a daily-release vesting ledger, a
//! time-windowed redemption engine and the pause gate shared by all of them.
//!
//! Every operation works on plain records handed in by the caller (the record
//! store, the clock and the token ledger live outside) and either returns the
//! new state together with what the caller has to carry out, or an error and
//! no change at all.
//!
//! Times are whole seconds of a monotonic clock. Feed values are kept as the
//! feeds report them, 18-decimal fixed-point integers; prices are their
//! integer part. Vesting follows one model: a lock's length may be sized with
//! the APY-based `calculate_lock_period`, and once created it releases a fixed
//! amount per elapsed day.

pub mod access_control;
pub mod address;
pub mod asset_manager;
pub mod error;
pub mod hedging_strategy;
pub mod lock_manager;
pub mod price_oracle;
pub mod redemption_manager;
pub mod xxusd_token;
