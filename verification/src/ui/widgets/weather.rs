//! The chart panel: which charts are switched on, and the figures shown
//! above a chart.

use vstd::prelude::*;
use crate::data::{samples_since, Field, WeatherData};
use crate::history::{cutoff, newer_than, pointees};
use crate::sources::current_millis;
use crate::stats::{average, is_greatest, is_least, min_max, total, values_of};

verus! {

/// The charts the panel can show.
#[derive(Debug, Clone, Copy, PartialEq, Eq, Structural)]
pub enum Chart {
    Temperature,
    Humidity,
    Pressure,
    Wind,
}

impl Chart {
    /// The field a chart plots.
    pub open spec fn plotted(self) -> Field {
        match self {
            Chart::Temperature => Field::Temperature,
            Chart::Humidity => Field::Humidity,
            Chart::Pressure => Field::Pressure,
            Chart::Wind => Field::WindSpeed,
        }
    }

    /// The field a chart plots.
    pub fn field(&self) -> (r: Field)
        ensures
            r == self.plotted(),
    {
        match self {
            Chart::Temperature => Field::Temperature,
            Chart::Humidity => Field::Humidity,
            Chart::Pressure => Field::Pressure,
            Chart::Wind => Field::WindSpeed,
        }
    }
}

/// What the panel shows.
#[derive(Debug, Clone, Copy, PartialEq, Eq, Structural)]
pub enum Panel {
    /// There is no history at all: a notice instead of charts.
    NoData,
    /// All four charts, two by two.
    Grid,
    /// One chart over the whole panel.
    Single { chart: Chart },
    /// No chart is switched on.
    Blank,
}

/// The figures above a chart, in thousandths.
#[derive(Debug, Clone, Copy, PartialEq, Eq, Structural)]
pub struct ChartStats {
    pub min: i64,
    pub max: i64,
    pub avg: i64,
    pub latest: i64,
}

/// Whether `r` is the answer to "the figures of `field` over `s`": nothing
/// for no samples, else the least, the greatest, the mean rounded down and
/// the last value.
pub open spec fn is_stats_of(r: Option<ChartStats>, s: Seq<WeatherData>, field: Field) -> bool {
    match r {
        None => s.len() == 0,
        Some(stats) => {
            &&& s.len() > 0
            &&& is_least(values_of(s, field), stats.min as int)
            &&& is_greatest(values_of(s, field), stats.max as int)
            &&& stats.avg == total(values_of(s, field)) / (s.len() as int)
            &&& stats.latest == s.last().reading(field)
        },
    }
}

/// Which charts are switched on.
#[derive(Debug, Clone, Copy, PartialEq, Eq, Structural)]
pub struct WeatherWidget {
    pub show_temperature_chart: bool,
    pub show_humidity_chart: bool,
    pub show_pressure_chart: bool,
    pub show_wind_chart: bool,
    pub show_all_charts: bool,
}

impl WeatherWidget {
    /// Whether the switch of `chart` is on.
    pub open spec fn shows(self, chart: Chart) -> bool {
        match chart {
            Chart::Temperature => self.show_temperature_chart,
            Chart::Humidity => self.show_humidity_chart,
            Chart::Pressure => self.show_pressure_chart,
            Chart::Wind => self.show_wind_chart,
        }
    }

    /// The first chart, in the order temperature, humidity, pressure, wind,
    /// whose switch is on.
    pub open spec fn first_shown(self) -> Option<Chart> {
        if self.show_temperature_chart {
            Some(Chart::Temperature)
        } else if self.show_humidity_chart {
            Some(Chart::Humidity)
        } else if self.show_pressure_chart {
            Some(Chart::Pressure)
        } else if self.show_wind_chart {
            Some(Chart::Wind)
        } else {
            None
        }
    }

    /// The widget with the switch of `chart` on and every other off.
    pub open spec fn only(chart: Chart) -> WeatherWidget {
        WeatherWidget {
            show_temperature_chart: chart == Chart::Temperature,
            show_humidity_chart: chart == Chart::Humidity,
            show_pressure_chart: chart == Chart::Pressure,
            show_wind_chart: chart == Chart::Wind,
            show_all_charts: false,
        }
    }

    /// The widget with the grid flipped and the switches as they are.
    pub open spec fn flipped(self) -> WeatherWidget {
        WeatherWidget { show_all_charts: !self.show_all_charts, ..self }
    }

    /// What the panel shows for a history of `history_len` samples.
    pub open spec fn panel_for(self, history_len: nat) -> Panel {
        if history_len == 0 {
            Panel::NoData
        } else if self.show_all_charts {
            Panel::Grid
        } else {
            match self.first_shown() {
                Some(chart) => Panel::Single { chart },
                None => Panel::Blank,
            }
        }
    }

    /// Temperature and humidity switched on, the grid off.
    pub fn new() -> (w: Self)
        ensures
            w == (WeatherWidget {
                show_temperature_chart: true,
                show_humidity_chart: true,
                show_pressure_chart: false,
                show_wind_chart: false,
                show_all_charts: false,
            }),
    {
        Self {
            show_temperature_chart: true,
            show_humidity_chart: true,
            show_pressure_chart: false,
            show_wind_chart: false,
            show_all_charts: false,
        }
    }

    /// Whether the button of `chart` is lit: its switch is on and the grid
    /// is off.
    pub fn is_highlighted(&self, chart: Chart) -> (r: bool)
        ensures
            r == (self.shows(chart) && !self.show_all_charts),
    {
        let on = match chart {
            Chart::Temperature => self.show_temperature_chart,
            Chart::Humidity => self.show_humidity_chart,
            Chart::Pressure => self.show_pressure_chart,
            Chart::Wind => self.show_wind_chart,
        };
        on && !self.show_all_charts
    }

    /// A click on the button of `chart`: that chart alone, the grid off.
    pub fn select(&mut self, chart: Chart)
        ensures
            *final(self) == Self::only(chart),
    {
        self.show_all_charts = false;
        self.show_temperature_chart = matches!(chart, Chart::Temperature);
        self.show_humidity_chart = matches!(chart, Chart::Humidity);
        self.show_pressure_chart = matches!(chart, Chart::Pressure);
        self.show_wind_chart = matches!(chart, Chart::Wind);
    }

    /// A click on the grid button: the grid flips, the switches stay.
    pub fn toggle_all(&mut self)
        ensures
            *final(self) == old(self).flipped(),
    {
        self.show_all_charts = !self.show_all_charts;
    }

    /// The chart shown alone when the grid is off.
    pub fn selected_chart(&self) -> (r: Option<Chart>)
        ensures
            r == self.first_shown(),
    {
        if self.show_temperature_chart {
            Some(Chart::Temperature)
        } else if self.show_humidity_chart {
            Some(Chart::Humidity)
        } else if self.show_pressure_chart {
            Some(Chart::Pressure)
        } else if self.show_wind_chart {
            Some(Chart::Wind)
        } else {
            None
        }
    }

    /// What to show for a history of `history_len` samples.
    pub fn panel(&self, history_len: usize) -> (r: Panel)
        ensures
            r == self.panel_for(history_len as nat),
    {
        if history_len == 0 {
            Panel::NoData
        } else if self.show_all_charts {
            Panel::Grid
        } else {
            match self.selected_chart() {
                Some(chart) => Panel::Single { chart },
                None => Panel::Blank,
            }
        }
    }

    /// The samples of `history` that the charts plot: those stamped within
    /// the last `hours` hours by the clock at the time of the call.
    pub fn filter_by_time_range<'a>(&self, history: &'a [WeatherData], hours: u32) -> (r: Vec<
        &'a WeatherData,
    >)
        ensures
            exists|now: i64| pointees(r@) == #[trigger] newer_than(history@, cutoff(now, hours)),
    {
        let now = current_millis();
        let r = samples_since(history, now, hours);
        assert(pointees(r@) == newer_than(history@, cutoff(now, hours)));
        r
    }

    /// The figures above the chart of `chart` for the plotted samples, or
    /// `None` where there are none to plot.
    pub fn chart_stats(&self, history: &[&WeatherData], chart: Chart) -> (r: Option<ChartStats>)
        ensures
            is_stats_of(r, pointees(history@), chart.plotted()),
    {
        let field = chart.field();
        match (min_max(history, field), average(history, field)) {
            (Some((min, max)), Some(avg)) => {
                let latest = history[history.len() - 1].value(field);
                Some(ChartStats { min, max, avg, latest })
            },
            _ => None,
        }
    }
}

/// A click on a chart's button switches that chart on and no other, and
/// with any history at all the panel then shows that chart alone.
pub proof fn lemma_select_shows_one(chart: Chart, history_len: nat)
    requires
        history_len > 0,
    ensures
        WeatherWidget::only(chart).first_shown() == Some(chart),
        WeatherWidget::only(chart).panel_for(history_len) == (Panel::Single { chart }),
        forall|other: Chart| #[trigger] WeatherWidget::only(chart).shows(other) <==> other == chart,
{
}

/// The grid button undoes itself: two clicks leave the widget as it was.
pub proof fn lemma_grid_button_undoes_itself(w: WeatherWidget)
    ensures
        w.flipped().flipped() == w,
        forall|chart: Chart| #[trigger] w.flipped().shows(chart) == w.shows(chart),
{
}

} // verus!
