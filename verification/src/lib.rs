//! Policy resolution and scoring engine for Rhodium Standard Repository
//! (RSR) compliance checking.
//!
//! The engine is a pure function of (policy configuration, check-existence
//! answers, repository metadata) to a scored compliance report.  All network
//! transport stays outside the library: callers query an existence oracle,
//! hand the answers in as plain values, and get the report back.

pub mod model;
pub mod registry;
pub mod report;
pub mod evaluate;
pub mod signature;
pub mod props;
