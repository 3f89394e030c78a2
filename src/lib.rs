//! Turns a weather request for a city into the query for a weather-lookup
//! service, checks what the service answers, and reshapes its first record
//! into a compact report.
pub mod error;
pub mod laws;
pub mod query;
pub mod report;
pub mod units;
