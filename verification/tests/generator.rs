use weather_telemetry::telemetry::{
    Action, SampleDraws, WalkDraws, WeatherGenerator, INITIAL_HUMIDITY, INITIAL_PRESSURE,
    INITIAL_TEMPERATURE, TICK_SECONDS,
};

const HALF: u32 = 0x8000_0000;

fn all_draws(draw: u32) -> SampleDraws {
    SampleDraws {
        temperature: draw,
        humidity: draw,
        pressure: draw,
        wind_speed: draw,
        wind_direction: draw,
        rain_rate: draw,
        uv_index: draw,
        solar_radiation: draw,
    }
}

fn walk(draw: u32) -> WalkDraws {
    WalkDraws { temperature: draw, humidity: draw, pressure: draw }
}

#[test]
fn new_generator_starts_at_the_base_values() {
    let g = WeatherGenerator::new();
    assert_eq!(g.base_temperature, 20_000);
    assert_eq!(g.base_humidity, 60_000);
    assert_eq!(g.base_pressure, 1_013_250);
    assert_eq!(
        (INITIAL_TEMPERATURE, INITIAL_HUMIDITY, INITIAL_PRESSURE),
        (20_000, 60_000, 1_013_250)
    );
    assert_eq!(TICK_SECONDS, 5);
}

#[test]
fn lowest_draws_give_the_bottom_of_every_band() {
    let d = WeatherGenerator::new().sample(&all_draws(0));
    assert_eq!(d.temperature, 15_000);
    assert_eq!(d.humidity, 50_000);
    assert_eq!(d.pressure, 988_250);
    assert_eq!(d.wind_speed, 0);
    assert_eq!(d.wind_direction, 0);
    assert_eq!(d.rain_rate, 0);
    assert_eq!(d.uv_index, 0);
    assert_eq!(d.solar_radiation, 0);
}

#[test]
fn middle_draws_give_the_middle_of_every_band() {
    let d = WeatherGenerator::new().sample(&all_draws(HALF));
    assert_eq!(d.temperature, 20_000);
    assert_eq!(d.humidity, 60_000);
    assert_eq!(d.pressure, 1_013_250);
    assert_eq!(d.wind_speed, 7_500);
    assert_eq!(d.wind_direction, 180_000);
    assert_eq!(d.rain_rate, 2_500);
    assert_eq!(d.uv_index, 5_000);
    assert_eq!(d.solar_radiation, 500_000);
}

#[test]
fn highest_draws_stay_below_the_top_of_every_band() {
    let d = WeatherGenerator::new().sample(&all_draws(u32::MAX));
    assert_eq!(d.temperature, 24_999);
    assert_eq!(d.humidity, 69_999);
    assert_eq!(d.pressure, 1_038_249);
    assert_eq!(d.wind_speed, 14_999);
    assert_eq!(d.wind_direction, 359_999);
    assert_eq!(d.rain_rate, 4_999);
    assert_eq!(d.uv_index, 9_999);
    assert_eq!(d.solar_radiation, 999_999);
}

#[test]
fn each_draw_moves_only_its_own_reading() {
    let mut draws = all_draws(HALF);
    draws.wind_speed = 0x4000_0000;
    draws.temperature = 0xC000_0000;
    let d = WeatherGenerator::new().sample(&draws);
    assert_eq!(d.wind_speed, 3_750);
    assert_eq!(d.temperature, 22_500);
    assert_eq!(d.humidity, 60_000);
    assert_eq!(d.uv_index, 5_000);
}

#[test]
fn delivered_sample_walks_the_base_values_and_waits() {
    let mut g = WeatherGenerator::new();
    assert_eq!(g.step(true, &walk(0)), Action::Wait { seconds: 5 });
    assert_eq!((g.base_temperature, g.base_humidity, g.base_pressure), (19_750, 59_000, 1_012_750));
    assert_eq!(g.step(true, &walk(u32::MAX)), Action::Wait { seconds: 5 });
    assert_eq!((g.base_temperature, g.base_humidity, g.base_pressure), (19_999, 59_999, 1_013_249));
    assert_eq!(g.step(true, &walk(HALF)), Action::Wait { seconds: 5 });
    assert_eq!((g.base_temperature, g.base_humidity, g.base_pressure), (19_999, 59_999, 1_013_249));
}

#[test]
fn undelivered_sample_stops_and_changes_nothing() {
    let mut g = WeatherGenerator::new();
    assert_eq!(g.step(false, &walk(0)), Action::Stop);
    assert_eq!(g, WeatherGenerator::new());
    assert_eq!(g.proceed(false), Action::Stop);
    assert_eq!(g, WeatherGenerator::new());
}

#[test]
fn base_values_saturate_at_the_ends_of_the_range() {
    let mut g = WeatherGenerator {
        base_temperature: i64::MAX,
        base_humidity: i64::MIN,
        base_pressure: i64::MAX - 100,
    };
    let d = g.sample(&all_draws(u32::MAX));
    assert_eq!(d.temperature, i64::MAX);
    assert_eq!(d.humidity, i64::MIN + 9_999);
    assert_eq!(d.pressure, i64::MAX);
    let d = g.sample(&all_draws(0));
    assert_eq!(d.temperature, i64::MAX - 5_000);
    assert_eq!(d.humidity, i64::MIN);
    g.step(true, &walk(0));
    assert_eq!(g.base_humidity, i64::MIN);
    assert_eq!(g.base_temperature, i64::MAX - 250);
    g.step(true, &walk(u32::MAX));
    assert_eq!(g.base_temperature, i64::MAX - 1);
    assert_eq!(g.base_pressure, i64::MAX - 100 - 500 + 499);
}

#[test]
fn emitted_samples_keep_to_the_policy() {
    let g = WeatherGenerator::new();
    let mut ids = Vec::new();
    let mut temperatures = Vec::new();
    for _ in 0..500 {
        let d = g.emit();
        assert!(15_000 <= d.temperature && d.temperature < 25_000);
        assert!(50_000 <= d.humidity && d.humidity < 70_000);
        assert!(988_250 <= d.pressure && d.pressure < 1_038_250);
        assert!(0 <= d.wind_speed && d.wind_speed < 15_000);
        assert!(0 <= d.wind_direction && d.wind_direction < 360_000);
        assert!(0 <= d.rain_rate && d.rain_rate < 5_000);
        assert!(0 <= d.uv_index && d.uv_index < 10_000);
        assert!(0 <= d.solar_radiation && d.solar_radiation < 1_000_000);
        assert_eq!((d.id >> 76) & 0xf, 4);
        ids.push(d.id);
        temperatures.push(d.temperature);
    }
    ids.sort();
    ids.dedup();
    assert_eq!(ids.len(), 500);
    temperatures.sort();
    temperatures.dedup();
    assert!(temperatures.len() > 100);
}

#[test]
fn random_walk_moves_each_base_value_by_less_than_half_a_step() {
    let mut g = WeatherGenerator::new();
    let mut moved = false;
    for _ in 0..500 {
        let before = g;
        assert_eq!(g.proceed(true), Action::Wait { seconds: 5 });
        let dt = g.base_temperature - before.base_temperature;
        let dh = g.base_humidity - before.base_humidity;
        let dp = g.base_pressure - before.base_pressure;
        assert!(-250 <= dt && dt < 250);
        assert!(-1_000 <= dh && dh < 1_000);
        assert!(-500 <= dp && dp < 500);
        moved = moved || dt != 0 || dh != 0 || dp != 0;
    }
    assert!(moved);
}
