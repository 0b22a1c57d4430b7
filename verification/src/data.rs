//! Samples and the bounded history that keeps the most recent of them.

use vstd::prelude::*;
use crate::fixed::MILLIS_PER_HOUR;
use crate::history::{cutoff, is_latest_of, newer_than, pointees, HistoryModel};
use crate::sources::{current_millis, is_random_uuid, random_id};
use crate::stats::{average, is_mean_of, is_min_max_of, min_max};

verus! {

/// The scalar readings a sample carries.
#[derive(Debug, Clone, Copy, PartialEq, Eq, Structural)]
pub enum Field {
    Temperature,
    Humidity,
    Pressure,
    WindSpeed,
    WindDirection,
    RainRate,
    UvIndex,
    SolarRadiation,
}

/// One telemetry reading.
///
/// `id` is a UUID packed big-endian into an integer, `timestamp` counts
/// milliseconds since the Unix epoch (UTC), and each reading counts
/// thousandths of its unit: 21.5 degrees is `21_500`.
#[derive(Debug, Clone, Copy, PartialEq, Eq, Structural)]
pub struct WeatherData {
    pub id: u128,
    pub timestamp: i64,
    pub temperature: i64,
    pub humidity: i64,
    pub pressure: i64,
    pub wind_speed: i64,
    pub wind_direction: i64,
    pub rain_rate: i64,
    pub uv_index: i64,
    pub solar_radiation: i64,
}

impl WeatherData {
    /// The reading of `field`.
    pub open spec fn reading(self, field: Field) -> i64 {
        match field {
            Field::Temperature => self.temperature,
            Field::Humidity => self.humidity,
            Field::Pressure => self.pressure,
            Field::WindSpeed => self.wind_speed,
            Field::WindDirection => self.wind_direction,
            Field::RainRate => self.rain_rate,
            Field::UvIndex => self.uv_index,
            Field::SolarRadiation => self.solar_radiation,
        }
    }

    /// Whether the eight readings are exactly the given ones.
    pub open spec fn has_readings(
        self,
        temperature: i64,
        humidity: i64,
        pressure: i64,
        wind_speed: i64,
        wind_direction: i64,
        rain_rate: i64,
        uv_index: i64,
        solar_radiation: i64,
    ) -> bool {
        &&& self.temperature == temperature
        &&& self.humidity == humidity
        &&& self.pressure == pressure
        &&& self.wind_speed == wind_speed
        &&& self.wind_direction == wind_direction
        &&& self.rain_rate == rain_rate
        &&& self.uv_index == uv_index
        &&& self.solar_radiation == solar_radiation
    }

    /// A sample with the given identity, instant and readings.
    pub fn from_parts(
        id: u128,
        timestamp: i64,
        temperature: i64,
        humidity: i64,
        pressure: i64,
        wind_speed: i64,
        wind_direction: i64,
        rain_rate: i64,
        uv_index: i64,
        solar_radiation: i64,
    ) -> (r: Self)
        ensures
            r.id == id,
            r.timestamp == timestamp,
            r.has_readings(
                temperature,
                humidity,
                pressure,
                wind_speed,
                wind_direction,
                rain_rate,
                uv_index,
                solar_radiation,
            ),
    {
        WeatherData {
            id,
            timestamp,
            temperature,
            humidity,
            pressure,
            wind_speed,
            wind_direction,
            rain_rate,
            uv_index,
            solar_radiation,
        }
    }

    /// A sample of the given readings, stamped with the current instant and
    /// a fresh random identifier.
    pub fn new(
        temperature: i64,
        humidity: i64,
        pressure: i64,
        wind_speed: i64,
        wind_direction: i64,
        rain_rate: i64,
        uv_index: i64,
        solar_radiation: i64,
    ) -> (r: Self)
        ensures
            is_random_uuid(r.id),
            r.has_readings(
                temperature,
                humidity,
                pressure,
                wind_speed,
                wind_direction,
                rain_rate,
                uv_index,
                solar_radiation,
            ),
    {
        Self::from_parts(
            random_id(),
            current_millis(),
            temperature,
            humidity,
            pressure,
            wind_speed,
            wind_direction,
            rain_rate,
            uv_index,
            solar_radiation,
        )
    }

    /// The reading of `field`.
    pub fn value(&self, field: Field) -> (r: i64)
        ensures
            r == self.reading(field),
    {
        match field {
            Field::Temperature => self.temperature,
            Field::Humidity => self.humidity,
            Field::Pressure => self.pressure,
            Field::WindSpeed => self.wind_speed,
            Field::WindDirection => self.wind_direction,
            Field::RainRate => self.rain_rate,
            Field::UvIndex => self.uv_index,
            Field::SolarRadiation => self.solar_radiation,
        }
    }
}

/// How many samples a new history keeps.
pub const DEFAULT_HISTORY_SIZE: usize = 1000;

/// The samples of `history` stamped within the `hours` before `now`, in
/// their order. The instant `hours` before `now` itself is left out.
pub fn samples_since<'a>(history: &'a [WeatherData], now: i64, hours: u32) -> (r: Vec<
    &'a WeatherData,
>)
    ensures
        pointees(r@) == newer_than(history@, cutoff(now, hours)),
{
    assert(MILLIS_PER_HOUR == 3_600_000);
    let limit: i128 = now as i128 - hours as i128 * 3_600_000;
    let mut kept: Vec<&'a WeatherData> = Vec::new();
    let mut i: usize = 0;
    proof {
        reveal(Seq::filter);
        assert(history@.take(0) =~= Seq::<WeatherData>::empty());
        assert(pointees(kept@) =~= Seq::<WeatherData>::empty());
    }
    while i < history.len()
        invariant
            i <= history.len(),
            limit == cutoff(now, hours),
            pointees(kept@) == newer_than(history@.take(i as int), limit as int),
        decreases history.len() - i,
    {
        let data = &history[i];
        let ghost before = kept@;
        proof {
            reveal(Seq::filter);
            assert(history@.take(i as int + 1).drop_last() =~= history@.take(i as int));
        }
        if data.timestamp as i128 > limit {
            kept.push(data);
            assert(pointees(kept@) =~= pointees(before).push(*data));
        }
        i += 1;
    }
    proof {
        assert(history@.take(i as int) =~= history@);
    }
    kept
}

/// The bounded history of samples: oldest first, never longer than
/// `max_history_size` once it has been within it.
#[derive(Debug, Clone)]
pub struct TelemetrySystem {
    pub weather_history: Vec<WeatherData>,
    pub max_history_size: usize,
}

impl View for TelemetrySystem {
    type V = HistoryModel;

    open spec fn view(&self) -> HistoryModel {
        HistoryModel {
            samples: self.weather_history@,
            capacity: self.max_history_size as nat,
        }
    }
}

impl TelemetrySystem {
    /// An empty history that keeps `DEFAULT_HISTORY_SIZE` samples.
    pub fn new() -> (s: Self)
        ensures
            s@.samples == Seq::<WeatherData>::empty(),
            s@.capacity == DEFAULT_HISTORY_SIZE,
    {
        Self { weather_history: Vec::new(), max_history_size: DEFAULT_HISTORY_SIZE }
    }

    /// Appends `data`; where the history then exceeds its capacity, the
    /// oldest sample is dropped.
    pub fn add_weather_data(&mut self, data: WeatherData)
        ensures
            final(self)@ == old(self)@.record(data),
    {
        self.weather_history.push(data);
        if self.weather_history.len() > self.max_history_size {
            self.weather_history.remove(0);
            proof {
                let appended = old(self)@.samples.push(data);
                assert(appended.remove(0) =~= appended.drop_first());
            }
        }
    }

    /// The most recently appended sample, or `None` for an empty history.
    pub fn get_latest_weather(&self) -> (r: Option<&WeatherData>)
        ensures
            is_latest_of(r, self@),
    {
        self.weather_history.last()
    }

    /// What a reader takes away in one go: a copy of the latest sample and
    /// a copy of the whole history, oldest first.
    pub fn snapshot(&self) -> (r: (Option<WeatherData>, Vec<WeatherData>))
        ensures
            r.0 == self@.latest(),
            r.1@ == self@.samples,
    {
        let latest = match self.get_latest_weather() {
            Some(data) => Some(*data),
            None => None,
        };
        (latest, self.weather_history.clone())
    }

    /// The samples stamped within the `hours` before `now`, oldest first.
    pub fn weather_range_at(&self, now: i64, hours: u32) -> (r: Vec<&WeatherData>)
        ensures
            pointees(r@) == self@.range_at(now, hours),
    {
        samples_since(self.weather_history.as_slice(), now, hours)
    }

    /// The samples stamped within the last `hours` hours, oldest first, by
    /// the clock at the time of the call.
    pub fn get_weather_range(&self, hours: u32) -> (r: Vec<&WeatherData>)
        ensures
            exists|now: i64| pointees(r@) == #[trigger] self@.range_at(now, hours),
    {
        let now = current_millis();
        let r = self.weather_range_at(now, hours);
        assert(pointees(r@) == self@.range_at(now, hours));
        r
    }

    /// The mean of `field` over the last `hours` hours, or `None` where no
    /// sample falls within them.
    pub fn get_average(&self, field: Field, hours: u32) -> (r: Option<i64>)
        ensures
            exists|now: i64| is_mean_of(r, #[trigger] self@.range_at(now, hours), field),
    {
        let data = self.get_weather_range(hours);
        average(data.as_slice(), field)
    }

    /// The least and greatest `field` over the last `hours` hours, or `None`
    /// where no sample falls within them.
    pub fn get_min_max(&self, field: Field, hours: u32) -> (r: Option<(i64, i64)>)
        ensures
            exists|now: i64| is_min_max_of(r, #[trigger] self@.range_at(now, hours), field),
    {
        let data = self.get_weather_range(hours);
        min_max(data.as_slice(), field)
    }

    /// The mean temperature over the last `hours` hours, or `None` where
    /// no sample falls within them.
    pub fn get_average_temperature(&self, hours: u32) -> (r: Option<i64>)
        ensures
            exists|now: i64|
                is_mean_of(r, #[trigger] self@.range_at(now, hours), Field::Temperature),
    {
        self.get_average(Field::Temperature, hours)
    }

    /// The mean humidity over the last `hours` hours, or `None` where no
    /// sample falls within them.
    pub fn get_average_humidity(&self, hours: u32) -> (r: Option<i64>)
        ensures
            exists|now: i64|
                is_mean_of(r, #[trigger] self@.range_at(now, hours), Field::Humidity),
    {
        self.get_average(Field::Humidity, hours)
    }

    /// The least and greatest temperature over the last `hours` hours, or
    /// `None` where no sample falls within them.
    pub fn get_min_max_temperature(&self, hours: u32) -> (r: Option<(i64, i64)>)
        ensures
            exists|now: i64|
                is_min_max_of(r, #[trigger] self@.range_at(now, hours), Field::Temperature),
    {
        self.get_min_max(Field::Temperature, hours)
    }
}

} // verus!
