//! The state behind the dashboard: what is selected and what is shown.
//! Drawing it is the caller's business.

pub mod dashboard;
pub mod widgets;

pub use dashboard::DashboardUI;
