//! The parts the dashboard is made of.

pub mod weather;

pub use weather::WeatherWidget;
