//! The synthetic weather generator: three base values that wander a little
//! at every tick, and the sample drawn around them.
//!
//! The generator decides; its caller does the waiting and the sending. One
//! tick is `emit`, a send, then `proceed` with whether the send arrived.

use vstd::prelude::*;
use crate::data::WeatherData;
use crate::fixed::{
    centred, clamp_i64, fraction, lemma_fraction_range, offset, saturating_sum, scale,
};
use crate::sources::{is_random_uuid, random_draw};

verus! {

/// Seconds between two samples.
pub const TICK_SECONDS: u64 = 5;

/// Base temperature of a new generator: 20 degrees.
pub const INITIAL_TEMPERATURE: i64 = 20_000;

/// Base humidity of a new generator: 60 percent.
pub const INITIAL_HUMIDITY: i64 = 60_000;

/// Base pressure of a new generator: 1013.25 hPa.
pub const INITIAL_PRESSURE: i64 = 1_013_250;

/// Width of the band around the base temperature that samples fall in.
pub const TEMPERATURE_SPREAD: u32 = 10_000;

/// Width of the band around the base humidity that samples fall in.
pub const HUMIDITY_SPREAD: u32 = 20_000;

/// Width of the band around the base pressure that samples fall in.
pub const PRESSURE_SPREAD: u32 = 50_000;

/// Wind speeds are drawn below this.
pub const WIND_SPEED_LIMIT: u32 = 15_000;

/// Wind directions are drawn below this.
pub const WIND_DIRECTION_LIMIT: u32 = 360_000;

/// Rain rates are drawn below this.
pub const RAIN_RATE_LIMIT: u32 = 5_000;

/// UV indices are drawn below this.
pub const UV_INDEX_LIMIT: u32 = 10_000;

/// Solar radiation is drawn below this.
pub const SOLAR_RADIATION_LIMIT: u32 = 1_000_000;

/// Width of the band one tick can move the base temperature in.
pub const TEMPERATURE_STEP: u32 = 500;

/// Width of the band one tick can move the base humidity in.
pub const HUMIDITY_STEP: u32 = 2_000;

/// Width of the band one tick can move the base pressure in.
pub const PRESSURE_STEP: u32 = 1_000;

/// The uniform draws that one sample is made of, one per reading.
#[derive(Debug, Clone, Copy, PartialEq, Eq, Structural)]
pub struct SampleDraws {
    pub temperature: u32,
    pub humidity: u32,
    pub pressure: u32,
    pub wind_speed: u32,
    pub wind_direction: u32,
    pub rain_rate: u32,
    pub uv_index: u32,
    pub solar_radiation: u32,
}

/// The uniform draws that move the base values by one tick.
#[derive(Debug, Clone, Copy, PartialEq, Eq, Structural)]
pub struct WalkDraws {
    pub temperature: u32,
    pub humidity: u32,
    pub pressure: u32,
}

/// What the caller does after a send.
#[derive(Debug, Clone, Copy, PartialEq, Eq, Structural)]
pub enum Action {
    /// Wait this many seconds, then emit the next sample.
    Wait { seconds: u64 },
    /// Nobody is listening any more: stop for good.
    Stop,
}

/// The base values around which samples are drawn.
#[derive(Debug, Clone, Copy, PartialEq, Eq, Structural)]
pub struct WeatherGenerator {
    pub base_temperature: i64,
    pub base_humidity: i64,
    pub base_pressure: i64,
}

impl WeatherGenerator {
    /// The sample that `draws` give around the base values, with the given
    /// identity and instant.
    pub open spec fn sampled(self, draws: SampleDraws, id: u128, timestamp: i64) -> WeatherData {
        WeatherData {
            id,
            timestamp,
            temperature: clamp_i64(
                self.base_temperature + centred(draws.temperature, TEMPERATURE_SPREAD as int),
            ) as i64,
            humidity: clamp_i64(
                self.base_humidity + centred(draws.humidity, HUMIDITY_SPREAD as int),
            ) as i64,
            pressure: clamp_i64(
                self.base_pressure + centred(draws.pressure, PRESSURE_SPREAD as int),
            ) as i64,
            wind_speed: fraction(draws.wind_speed, WIND_SPEED_LIMIT as int) as i64,
            wind_direction: fraction(draws.wind_direction, WIND_DIRECTION_LIMIT as int) as i64,
            rain_rate: fraction(draws.rain_rate, RAIN_RATE_LIMIT as int) as i64,
            uv_index: fraction(draws.uv_index, UV_INDEX_LIMIT as int) as i64,
            solar_radiation: fraction(draws.solar_radiation, SOLAR_RADIATION_LIMIT as int) as i64,
        }
    }

    /// The base values one tick later, moved as `draws` say.
    pub open spec fn walked(self, draws: WalkDraws) -> WeatherGenerator {
        WeatherGenerator {
            base_temperature: clamp_i64(
                self.base_temperature + centred(draws.temperature, TEMPERATURE_STEP as int),
            ) as i64,
            base_humidity: clamp_i64(
                self.base_humidity + centred(draws.humidity, HUMIDITY_STEP as int),
            ) as i64,
            base_pressure: clamp_i64(
                self.base_pressure + centred(draws.pressure, PRESSURE_STEP as int),
            ) as i64,
        }
    }

    /// A generator at its starting point.
    pub fn new() -> (g: Self)
        ensures
            g.base_temperature == INITIAL_TEMPERATURE,
            g.base_humidity == INITIAL_HUMIDITY,
            g.base_pressure == INITIAL_PRESSURE,
    {
        WeatherGenerator {
            base_temperature: INITIAL_TEMPERATURE,
            base_humidity: INITIAL_HUMIDITY,
            base_pressure: INITIAL_PRESSURE,
        }
    }

    /// The sample that `draws` give, stamped with the current instant and a
    /// fresh identifier.
    pub fn sample(&self, draws: &SampleDraws) -> (r: WeatherData)
        ensures
            r == self.sampled(*draws, r.id, r.timestamp),
            is_random_uuid(r.id),
    {
        WeatherData::new(
            saturating_sum(self.base_temperature, offset(draws.temperature, TEMPERATURE_SPREAD)),
            saturating_sum(self.base_humidity, offset(draws.humidity, HUMIDITY_SPREAD)),
            saturating_sum(self.base_pressure, offset(draws.pressure, PRESSURE_SPREAD)),
            scale(draws.wind_speed, WIND_SPEED_LIMIT),
            scale(draws.wind_direction, WIND_DIRECTION_LIMIT),
            scale(draws.rain_rate, RAIN_RATE_LIMIT),
            scale(draws.uv_index, UV_INDEX_LIMIT),
            scale(draws.solar_radiation, SOLAR_RADIATION_LIMIT),
        )
    }

    /// What follows a send. A sample that arrived moves the base values as
    /// `draws` say and asks for the usual wait; one that did not leaves the
    /// generator as it is and ends the run.
    pub fn step(&mut self, delivered: bool, draws: &WalkDraws) -> (next: Action)
        ensures
            delivered ==> *final(self) == old(self).walked(*draws) && next == (Action::Wait {
                seconds: TICK_SECONDS,
            }),
            !delivered ==> *final(self) == *old(self) && next == Action::Stop,
    {
        if !delivered {
            return Action::Stop;
        }
        self.base_temperature = saturating_sum(
            self.base_temperature,
            offset(draws.temperature, TEMPERATURE_STEP),
        );
        self.base_humidity = saturating_sum(
            self.base_humidity,
            offset(draws.humidity, HUMIDITY_STEP),
        );
        self.base_pressure = saturating_sum(
            self.base_pressure,
            offset(draws.pressure, PRESSURE_STEP),
        );
        Action::Wait { seconds: TICK_SECONDS }
    }

    /// One sample around the base values, from fresh random draws.
    pub fn emit(&self) -> (r: WeatherData)
        ensures
            exists|draws: SampleDraws| r == #[trigger] self.sampled(draws, r.id, r.timestamp),
            is_random_uuid(r.id),
    {
        let draws = SampleDraws {
            temperature: random_draw(),
            humidity: random_draw(),
            pressure: random_draw(),
            wind_speed: random_draw(),
            wind_direction: random_draw(),
            rain_rate: random_draw(),
            uv_index: random_draw(),
            solar_radiation: random_draw(),
        };
        let r = self.sample(&draws);
        assert(r == self.sampled(draws, r.id, r.timestamp));
        r
    }

    /// What follows a send, with fresh random draws for the walk.
    pub fn proceed(&mut self, delivered: bool) -> (next: Action)
        ensures
            delivered ==> next == (Action::Wait { seconds: TICK_SECONDS }) && exists|
                draws: WalkDraws,
            |
                *final(self) == #[trigger] old(self).walked(draws),
            !delivered ==> *final(self) == *old(self) && next == Action::Stop,
    {
        if !delivered {
            return Action::Stop;
        }
        let draws = WalkDraws {
            temperature: random_draw(),
            humidity: random_draw(),
            pressure: random_draw(),
        };
        let next = self.step(true, &draws);
        assert(*self == old(self).walked(draws));
        next
    }
}

/// Every sample keeps to the generator's policy, whatever the draws:
/// temperature, humidity and pressure lie within half their spread of the
/// base value (as far as `i64` reaches), and the other readings lie from
/// zero up to, but not at, their limit.
pub proof fn lemma_sample_keeps_to_policy(
    g: WeatherGenerator,
    draws: SampleDraws,
    id: u128,
    timestamp: i64,
)
    ensures
        ({
            let d = g.sampled(draws, id, timestamp);
            &&& d.id == id
            &&& d.timestamp == timestamp
            &&& clamp_i64(g.base_temperature - 5_000) <= d.temperature <= clamp_i64(
                g.base_temperature + 4_999,
            )
            &&& clamp_i64(g.base_humidity - 10_000) <= d.humidity <= clamp_i64(
                g.base_humidity + 9_999,
            )
            &&& clamp_i64(g.base_pressure - 25_000) <= d.pressure <= clamp_i64(
                g.base_pressure + 24_999,
            )
            &&& 0 <= d.wind_speed < 15_000
            &&& 0 <= d.wind_direction < 360_000
            &&& 0 <= d.rain_rate < 5_000
            &&& 0 <= d.uv_index < 10_000
            &&& 0 <= d.solar_radiation < 1_000_000
        }),
{
    lemma_fraction_range(draws.temperature, TEMPERATURE_SPREAD as int);
    lemma_fraction_range(draws.humidity, HUMIDITY_SPREAD as int);
    lemma_fraction_range(draws.pressure, PRESSURE_SPREAD as int);
    lemma_fraction_range(draws.wind_speed, WIND_SPEED_LIMIT as int);
    lemma_fraction_range(draws.wind_direction, WIND_DIRECTION_LIMIT as int);
    lemma_fraction_range(draws.rain_rate, RAIN_RATE_LIMIT as int);
    lemma_fraction_range(draws.uv_index, UV_INDEX_LIMIT as int);
    lemma_fraction_range(draws.solar_radiation, SOLAR_RADIATION_LIMIT as int);
}

/// One tick moves each base value by less than half its step, whatever the
/// draws (as far as `i64` reaches).
pub proof fn lemma_walk_is_small(g: WeatherGenerator, draws: WalkDraws)
    ensures
        ({
            let w = g.walked(draws);
            &&& clamp_i64(g.base_temperature - 250) <= w.base_temperature <= clamp_i64(
                g.base_temperature + 249,
            )
            &&& clamp_i64(g.base_humidity - 1_000) <= w.base_humidity <= clamp_i64(
                g.base_humidity + 999,
            )
            &&& clamp_i64(g.base_pressure - 500) <= w.base_pressure <= clamp_i64(
                g.base_pressure + 499,
            )
        }),
{
    lemma_fraction_range(draws.temperature, TEMPERATURE_STEP as int);
    lemma_fraction_range(draws.humidity, HUMIDITY_STEP as int);
    lemma_fraction_range(draws.pressure, PRESSURE_STEP as int);
}

} // verus!
