//! Session state engine of a farming companion: map-transition tracking with
//! de-duplication, drop counting, a price cache with staleness and league
//! fallback, derived statistics, and the bookkeeping around snapshots and the
//! session-history log.
//!
//! Money is held as fixed-point integers: one unit of the base currency is
//! `ONE_UNIT` (one million) micro-units. Timestamps are Unix seconds.

pub mod types;
pub mod session;
pub mod prices;
pub mod stats;
pub mod state;
pub mod history;
mod outside;
pub mod paths;
pub mod search;
pub mod commands;
