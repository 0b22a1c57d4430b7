//! The dashboard: the time range in force, the chart panel, and the words
//! in the header.

use vstd::prelude::*;
use crate::data::WeatherData;
use crate::ui::widgets::weather::WeatherWidget;

verus! {

/// The stretches of time the charts can cover.
#[derive(Debug, Clone, Copy, PartialEq, Eq, Structural)]
pub enum TimeRange {
    LastHour,
    Last6Hours,
    Last24Hours,
    Last7Days,
}

impl TimeRange {
    /// The length of the range in hours.
    pub open spec fn hours(self) -> u32 {
        match self {
            TimeRange::LastHour => 1,
            TimeRange::Last6Hours => 6,
            TimeRange::Last24Hours => 24,
            TimeRange::Last7Days => 168,
        }
    }

    /// The words the range goes by.
    pub open spec fn name(self) -> Seq<char> {
        match self {
            TimeRange::LastHour => "Last Hour"@,
            TimeRange::Last6Hours => "Last 6 Hours"@,
            TimeRange::Last24Hours => "Last 24 Hours"@,
            TimeRange::Last7Days => "Last 7 Days"@,
        }
    }

    /// The length of the range in hours.
    pub fn to_hours(&self) -> (r: u32)
        ensures
            r == self.hours(),
    {
        match self {
            TimeRange::LastHour => 1,
            TimeRange::Last6Hours => 6,
            TimeRange::Last24Hours => 24,
            TimeRange::Last7Days => 168,
        }
    }

    /// The words the range goes by.
    pub fn label(&self) -> (r: &'static str)
        ensures
            r@ == self.name(),
    {
        match self {
            TimeRange::LastHour => "Last Hour",
            TimeRange::Last6Hours => "Last 6 Hours",
            TimeRange::Last24Hours => "Last 24 Hours",
            TimeRange::Last7Days => "Last 7 Days",
        }
    }
}

/// How a temperature, in thousandths of a degree, is called: each name
/// holds from its own threshold up to the next.
pub open spec fn condition_name(temperature: i64) -> Seq<char> {
    if temperature < 0 {
        "Freezing"@
    } else if temperature < 10_000 {
        "Cold"@
    } else if temperature < 20_000 {
        "Cool"@
    } else if temperature < 25_000 {
        "Pleasant"@
    } else if temperature < 30_000 {
        "Warm"@
    } else {
        "Hot"@
    }
}

/// What the dashboard remembers between two frames.
#[derive(Debug, Clone, Copy, PartialEq, Eq, Structural)]
pub struct DashboardUI {
    pub weather_widget: WeatherWidget,
    pub selected_time_range: TimeRange,
}

impl DashboardUI {
    /// The dashboard as it opens: the last six hours, the widget as new.
    pub fn new() -> (d: Self)
        ensures
            d.selected_time_range == TimeRange::Last6Hours,
            d.weather_widget == (WeatherWidget {
                show_temperature_chart: true,
                show_humidity_chart: true,
                show_pressure_chart: false,
                show_wind_chart: false,
                show_all_charts: false,
            }),
    {
        Self { weather_widget: WeatherWidget::new(), selected_time_range: TimeRange::Last6Hours }
    }

    /// How the header calls a temperature given in thousandths of a degree.
    pub fn get_weather_condition(&self, temperature: i64) -> (r: &'static str)
        ensures
            r@ == condition_name(temperature),
    {
        if temperature < 0 {
            "Freezing"
        } else if temperature < 10_000 {
            "Cold"
        } else if temperature < 20_000 {
            "Cool"
        } else if temperature < 25_000 {
            "Pleasant"
        } else if temperature < 30_000 {
            "Warm"
        } else {
            "Hot"
        }
    }

    /// The header's word for the station: online once a sample is there.
    pub fn status(&self, current_weather: Option<&WeatherData>) -> (r: &'static str)
        ensures
            r@ == (if current_weather is Some {
                "Online"@
            } else {
                "Offline"@
            }),
    {
        match current_weather {
            Some(_) => "Online",
            None => "Offline",
        }
    }
}

} // verus!
