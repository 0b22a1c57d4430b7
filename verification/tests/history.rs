use weather_telemetry::data::{
    samples_since, Field, TelemetrySystem, WeatherData, DEFAULT_HISTORY_SIZE,
};
use weather_telemetry::fixed::MILLIS_PER_HOUR;

const NOW: i64 = 1_700_000_000_000;

fn reading(id: u128, timestamp: i64, temperature: i64) -> WeatherData {
    WeatherData::from_parts(id, timestamp, temperature, 50_000, 1_000_000, 0, 0, 0, 0, 0)
}

fn history_of(capacity: usize) -> TelemetrySystem {
    TelemetrySystem { weather_history: Vec::new(), max_history_size: capacity }
}

fn temperatures(system: &TelemetrySystem) -> Vec<i64> {
    system.weather_history.iter().map(|d| d.temperature).collect()
}

#[test]
fn new_history_is_empty_with_default_capacity() {
    let system = TelemetrySystem::new();
    assert!(system.weather_history.is_empty());
    assert_eq!(system.max_history_size, 1000);
    assert_eq!(DEFAULT_HISTORY_SIZE, 1000);
}

#[test]
fn fourth_insert_into_capacity_three_evicts_the_oldest() {
    let mut system = history_of(3);
    for (i, t) in [10_000, 11_000, 12_000, 13_000].into_iter().enumerate() {
        system.add_weather_data(reading(i as u128, NOW + i as i64, t));
    }
    assert_eq!(temperatures(&system), vec![11_000, 12_000, 13_000]);
    assert_eq!(system.get_latest_weather().map(|d| d.temperature), Some(13_000));
}

#[test]
fn empty_history_has_no_latest_and_no_average() {
    let system = TelemetrySystem::new();
    assert!(system.get_latest_weather().is_none());
    assert_eq!(system.get_average_temperature(24), None);
    assert_eq!(system.get_average_humidity(24), None);
    assert_eq!(system.get_min_max_temperature(24), None);
    assert!(system.get_weather_range(24).is_empty());
}

#[test]
fn range_keeps_what_is_strictly_newer_than_the_cutoff() {
    let mut system = history_of(10);
    let hours_ago = [10, 6, 5, 2, 1, 0];
    for (i, h) in hours_ago.into_iter().enumerate() {
        system.add_weather_data(reading(i as u128, NOW - h * MILLIS_PER_HOUR, 20_000 + i as i64));
    }
    let range = system.weather_range_at(NOW, 6);
    let ids: Vec<u128> = range.iter().map(|d| d.id).collect();
    assert_eq!(ids, vec![2, 3, 4, 5]);
}

#[test]
fn range_cutoff_is_exclusive_to_the_millisecond() {
    let cutoff = NOW - 6 * MILLIS_PER_HOUR;
    let history = vec![
        reading(0, cutoff - 1, 1),
        reading(1, cutoff, 2),
        reading(2, cutoff + 1, 3),
        reading(3, NOW, 4),
    ];
    let kept = samples_since(&history, NOW, 6);
    let ids: Vec<u128> = kept.iter().map(|d| d.id).collect();
    assert_eq!(ids, vec![2, 3]);
}

#[test]
fn range_of_zero_hours_keeps_only_the_future() {
    let history = vec![reading(0, NOW - 1, 1), reading(1, NOW, 2), reading(2, NOW + 1, 3)];
    let kept = samples_since(&history, NOW, 0);
    assert_eq!(kept.len(), 1);
    assert_eq!(kept[0].id, 2);
}

#[test]
fn range_does_not_overflow_at_the_ends_of_time() {
    let history = vec![reading(0, i64::MIN, 1), reading(1, 0, 2), reading(2, i64::MAX, 3)];
    assert_eq!(samples_since(&history, i64::MIN, u32::MAX).len(), 3);
    assert_eq!(samples_since(&history, i64::MAX, 0).len(), 0);
    assert_eq!(samples_since(&history, i64::MAX, u32::MAX).len(), 1);
}

#[test]
fn overfull_history_holds_the_last_inserts_in_order() {
    let mut system = history_of(4);
    for i in 0..10 {
        system.add_weather_data(reading(i as u128, NOW + i, i));
    }
    assert_eq!(system.weather_history.len(), 4);
    assert_eq!(temperatures(&system), vec![6, 7, 8, 9]);
}

#[test]
fn default_capacity_drops_the_first_of_a_thousand_and_one() {
    let mut system = TelemetrySystem::new();
    for i in 0..1001 {
        system.add_weather_data(reading(i as u128, NOW + i, i));
    }
    assert_eq!(system.weather_history.len(), 1000);
    assert_eq!(system.weather_history[0].temperature, 1);
    assert_eq!(system.get_latest_weather().map(|d| d.temperature), Some(1000));
}

#[test]
fn history_of_no_capacity_keeps_nothing() {
    let mut system = history_of(0);
    system.add_weather_data(reading(1, NOW, 5));
    assert!(system.weather_history.is_empty());
    assert!(system.get_latest_weather().is_none());
}

#[test]
fn history_under_capacity_only_grows() {
    let mut system = history_of(3);
    system.add_weather_data(reading(1, NOW, 5));
    system.add_weather_data(reading(2, NOW + 1, 6));
    assert_eq!(temperatures(&system), vec![5, 6]);
}

#[test]
fn range_is_in_order_and_exact() {
    let mut system = history_of(100);
    for i in 0..50i64 {
        system.add_weather_data(reading(i as u128, NOW - (49 - i) * MILLIS_PER_HOUR / 4, i));
    }
    let range = system.weather_range_at(NOW, 3);
    let cutoff = NOW - 3 * MILLIS_PER_HOUR;
    assert!(range.windows(2).all(|w| w[0].timestamp <= w[1].timestamp));
    assert!(range.iter().all(|d| d.timestamp > cutoff));
    let expected: Vec<u128> =
        system.weather_history.iter().filter(|d| d.timestamp > cutoff).map(|d| d.id).collect();
    let got: Vec<u128> = range.iter().map(|d| d.id).collect();
    assert_eq!(got, expected);
    assert_eq!(got.len(), 12);
}

#[test]
fn latest_twice_gives_the_same_sample() {
    let mut system = history_of(3);
    system.add_weather_data(reading(7, NOW, 21_000));
    let first = system.get_latest_weather().copied();
    let second = system.get_latest_weather().copied();
    assert_eq!(first, second);
    assert_eq!(first, Some(reading(7, NOW, 21_000)));
}

#[test]
fn snapshot_copies_latest_and_history() {
    let mut system = history_of(2);
    assert_eq!(system.snapshot(), (None, Vec::new()));
    system.add_weather_data(reading(1, NOW, 1));
    system.add_weather_data(reading(2, NOW + 1, 2));
    system.add_weather_data(reading(3, NOW + 2, 3));
    let (latest, history) = system.snapshot();
    assert_eq!(latest, Some(reading(3, NOW + 2, 3)));
    assert_eq!(history, vec![reading(2, NOW + 1, 2), reading(3, NOW + 2, 3)]);
}

#[test]
fn clock_queries_see_fresh_samples_and_not_ancient_ones() {
    let mut system = TelemetrySystem::new();
    system.add_weather_data(reading(0, 0, 99_000));
    system.add_weather_data(WeatherData::new(20_000, 40_000, 0, 0, 0, 0, 0, 0));
    system.add_weather_data(WeatherData::new(25_001, 45_001, 0, 0, 0, 0, 0, 0));
    let range = system.get_weather_range(1);
    let seen: Vec<i64> = range.iter().map(|d| d.temperature).collect();
    assert_eq!(seen, vec![20_000, 25_001]);
    assert_eq!(system.get_average_temperature(1), Some(22_500));
    assert_eq!(system.get_average_humidity(1), Some(42_500));
    assert_eq!(system.get_min_max_temperature(1), Some((20_000, 25_001)));
}

#[test]
fn new_sample_is_stamped_now_with_a_random_uuid() {
    let before = chrono::Utc::now().timestamp_millis();
    let a = WeatherData::new(1, 2, 3, 4, 5, 6, 7, 8);
    let b = WeatherData::new(1, 2, 3, 4, 5, 6, 7, 8);
    let after = chrono::Utc::now().timestamp_millis();
    assert!(before <= a.timestamp && a.timestamp <= b.timestamp && b.timestamp <= after);
    assert_ne!(a.id, b.id);
    for id in [a.id, b.id] {
        assert_eq!((id >> 76) & 0xf, 4);
        assert_eq!((id >> 62) & 0x3, 2);
        assert_eq!(uuid::Uuid::from_u128(id).get_version_num(), 4);
    }
    assert_eq!(
        (a.temperature, a.humidity, a.pressure, a.wind_speed),
        (1, 2, 3, 4)
    );
    assert_eq!(
        (a.wind_direction, a.rain_rate, a.uv_index, a.solar_radiation),
        (5, 6, 7, 8)
    );
}

#[test]
fn value_reads_each_field() {
    let d = WeatherData::from_parts(9, 8, 1, 2, 3, 4, 5, 6, 7, 10);
    assert_eq!(d.id, 9);
    assert_eq!(d.timestamp, 8);
    assert_eq!(d.value(Field::Temperature), 1);
    assert_eq!(d.value(Field::Humidity), 2);
    assert_eq!(d.value(Field::Pressure), 3);
    assert_eq!(d.value(Field::WindSpeed), 4);
    assert_eq!(d.value(Field::WindDirection), 5);
    assert_eq!(d.value(Field::RainRate), 6);
    assert_eq!(d.value(Field::UvIndex), 7);
    assert_eq!(d.value(Field::SolarRadiation), 10);
}

#[test]
fn six_hour_range_of_five_samples_keeps_the_last_four() {
    let mut system = history_of(10);
    for (i, h) in [10, 5, 2, 1, 0].into_iter().enumerate() {
        system.add_weather_data(reading(i as u128, NOW - h * MILLIS_PER_HOUR, 20_000));
    }
    let stamps: Vec<i64> = system.weather_range_at(NOW, 6).iter().map(|d| d.timestamp).collect();
    assert_eq!(
        stamps,
        vec![
            NOW - 5 * MILLIS_PER_HOUR,
            NOW - 2 * MILLIS_PER_HOUR,
            NOW - MILLIS_PER_HOUR,
            NOW
        ]
    );
    let at_cutoff: Vec<i64> =
        system.weather_range_at(NOW, 5).iter().map(|d| d.timestamp).collect();
    assert_eq!(at_cutoff, vec![NOW - 2 * MILLIS_PER_HOUR, NOW - MILLIS_PER_HOUR, NOW]);
}

#[test]
fn field_queries_follow_the_named_field() {
    let mut system = TelemetrySystem::new();
    system.add_weather_data(WeatherData::new(1, 2, 30, 4, 5, 6, 7, 8));
    system.add_weather_data(WeatherData::new(3, 2, 10, 4, 5, 6, 7, 9));
    assert_eq!(system.get_average(Field::Pressure, 1), Some(20));
    assert_eq!(system.get_min_max(Field::Pressure, 1), Some((10, 30)));
    assert_eq!(system.get_average(Field::SolarRadiation, 1), Some(8));
    assert_eq!(system.get_min_max(Field::Temperature, 1), system.get_min_max_temperature(1));
    assert_eq!(system.get_average(Field::Humidity, 0), None);
}
