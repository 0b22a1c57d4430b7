//! Weather-station telemetry: fixed-point samples, a bounded history of them,
//! the synthetic generator that feeds it and the state behind the dashboard.
//!
//! Every reading is an `i64` counting thousandths of its unit, so that all
//! arithmetic is exact; instants are whole milliseconds since the Unix epoch.

pub mod data;
pub mod fixed;
pub mod history;
mod sources;
pub mod stats;
pub mod telemetry;
pub mod ui;
