use chrono::{TimeZone, Utc};
use metrocast::error::PreprocessError;
use metrocast::normalize::{normalize, normalize_features};
use metrocast::preprocess::{preprocess_sequence, SEQ_LEN};
use metrocast::record::WeatherRecord;
use metrocast::scalar::Operation;
use metrocast::statistics::Statistics;
use metrocast::time::{TimeEncoding, Timestamp};
use std::f32::consts::PI;

fn evaluate(op: Operation) -> u32 {
    let two_pi = 2.0 * PI;
    let value: f32 = match op {
        Operation::Sine { numerator, period } => (two_pi * numerator as f32 / period as f32).sin(),
        Operation::Cosine { numerator, period } => {
            (two_pi * numerator as f32 / period as f32).cos()
        }
        Operation::Standardize { value, mean, std } => {
            (f32::from_bits(value) - f32::from_bits(mean)) / f32::from_bits(std)
        }
        Operation::Restore { value, mean, std } => {
            f32::from_bits(value) * f32::from_bits(std) + f32::from_bits(mean)
        }
    };
    value.to_bits()
}

fn bits(value: f32) -> u32 {
    value.to_bits()
}

fn float(pattern: u32) -> f32 {
    f32::from_bits(pattern)
}

fn at(year: i32, month: u32, day: u32, hour: u32) -> Timestamp {
    let instant = Utc.with_ymd_and_hms(year, month, day, hour, 0, 0).unwrap();
    Timestamp::from_unix_seconds(instant.timestamp()).unwrap()
}

fn record(timestamp: Timestamp, weather_code: f32) -> WeatherRecord {
    WeatherRecord {
        timestamp,
        temperature_2m: bits(10.0),
        relative_humidity_2m: bits(80.0),
        dew_point_2m: bits(7.0),
        surface_pressure: bits(1013.0),
        precipitation: bits(0.0),
        cloud_cover: bits(50.0),
        shortwave_radiation: bits(100.0),
        wind_speed_10m: bits(15.0),
        wind_direction_10m: bits(180.0),
        soil_temperature_0_to_7cm: bits(8.0),
        weather_code: bits(weather_code),
    }
}

fn unit_statistics(count: usize) -> Statistics {
    Statistics::new(
        vec![bits(0.0); count],
        vec![bits(1.0); count],
        vec!["test".to_string(); count],
    )
    .unwrap()
}

#[test]
fn test_time_encoding_midnight() {
    // 2024-01-01 00:00:00 UTC
    let dt = at(2024, 1, 1, 0);
    let enc = TimeEncoding::from_datetime(&dt, &evaluate);

    assert!((float(enc.hour_sin) - 0.0).abs() < 1e-6);
    assert!((float(enc.hour_cos) - 1.0).abs() < 1e-6);

    let expected_day_sin = (2.0 * PI * 1.0 / 365.0).sin();
    let expected_day_cos = (2.0 * PI * 1.0 / 365.0).cos();
    assert!((float(enc.day_sin) - expected_day_sin).abs() < 1e-6);
    assert!((float(enc.day_cos) - expected_day_cos).abs() < 1e-6);

    assert!((float(enc.month_sin) - 0.0).abs() < 1e-6);
    assert!((float(enc.month_cos) - 1.0).abs() < 1e-6);
}

#[test]
fn test_time_encoding_noon() {
    // 2024-07-15 12:00:00 UTC
    let dt = at(2024, 7, 15, 12);
    let enc = TimeEncoding::from_datetime(&dt, &evaluate);

    assert!((float(enc.hour_sin) - 0.0).abs() < 1e-6);
    assert!((float(enc.hour_cos) - (-1.0)).abs() < 1e-6);

    assert!((float(enc.month_sin) - 0.0).abs() < 1e-6);
    assert!((float(enc.month_cos) - (-1.0)).abs() < 1e-6);
}

#[test]
fn test_normalization() {
    let mean = 15.0;
    let std = 5.0;
    let value = 20.0;

    let normalized = float(normalize(bits(value), bits(mean), bits(std), &evaluate));
    assert!((normalized - 1.0).abs() < 1e-6); // (20-15)/5 = 1
}

#[test]
fn test_weather_record_features() {
    let dt = at(2024, 1, 1, 0);
    let record = WeatherRecord {
        timestamp: dt,
        temperature_2m: bits(10.0),
        relative_humidity_2m: bits(80.0),
        dew_point_2m: bits(7.0),
        surface_pressure: bits(1013.0),
        precipitation: bits(0.0),
        cloud_cover: bits(50.0),
        shortwave_radiation: bits(100.0),
        wind_speed_10m: bits(15.0),
        wind_direction_10m: bits(180.0),
        soil_temperature_0_to_7cm: bits(8.0),
        weather_code: bits(3.0), // Cloudy
    };

    let features = record.weather_features();
    assert_eq!(features.len(), 10);
    assert!((float(features[0]) - 10.0).abs() < 1e-6); // temperature_2m
}

#[test]
fn test_preprocess_sequence_shape() {
    let stats = Statistics::new(
        vec![bits(0.0); 16],
        vec![bits(1.0); 16],
        vec!["test".to_string(); 16],
    )
    .unwrap();

    // Create 24 dummy records
    let records: Vec<WeatherRecord> = (0..24)
        .map(|h| {
            let dt = at(2024, 1, 1, h as u32);
            WeatherRecord {
                timestamp: dt,
                temperature_2m: bits(10.0),
                relative_humidity_2m: bits(80.0),
                dew_point_2m: bits(7.0),
                surface_pressure: bits(1013.0),
                precipitation: bits(0.0),
                cloud_cover: bits(50.0),
                shortwave_radiation: bits(100.0),
                wind_speed_10m: bits(15.0),
                wind_direction_10m: bits(180.0),
                soil_temperature_0_to_7cm: bits(8.0),
                weather_code: bits(0.0), // Sunny
            }
        })
        .collect();

    let tensor = preprocess_sequence(&records, &stats, &evaluate).unwrap();
    let (shape, _) = tensor.into_parts();
    assert_eq!(shape, vec![1, 24, 17]); // 16 normalized + 1 weather_code
}

#[test]
fn test_invalid_sequence_length() {
    let stats = Statistics::new(
        vec![bits(0.0); 16],
        vec![bits(1.0); 16],
        vec!["test".to_string(); 16],
    )
    .unwrap();

    let records: Vec<WeatherRecord> = vec![]; // Empty

    let result = preprocess_sequence(&records, &stats, &evaluate);
    assert!(result.is_err());
}

#[test]
fn time_encoding_is_exact_at_the_origin() {
    let enc = TimeEncoding::from_datetime(&at(2024, 1, 9, 0), &evaluate);
    assert_eq!(float(enc.hour_sin), 0.0);
    assert_eq!(float(enc.hour_cos), 1.0);
    assert_eq!(float(enc.month_sin), 0.0);
    assert_eq!(float(enc.month_cos), 1.0);
    assert_eq!(enc.to_array(), [
        enc.hour_sin,
        enc.hour_cos,
        enc.day_sin,
        enc.day_cos,
        enc.month_sin,
        enc.month_cos,
    ]);
}

#[test]
fn time_encoding_stays_on_the_unit_interval() {
    for month in 1..=12 {
        for day in 1..=31 {
            for hour in 0..24 {
                let dt = Timestamp::new(hour, day, month).unwrap();
                let enc = TimeEncoding::from_datetime(&dt, &evaluate);
                assert!(enc.within_unit_interval());
                for value in enc.to_array() {
                    assert!((-1.0..=1.0).contains(&float(value)));
                }
            }
        }
    }
}

#[test]
fn time_encoding_outside_the_unit_interval_is_noticed() {
    let mut enc = TimeEncoding::from_datetime(&at(2024, 7, 15, 12), &evaluate);
    assert!(enc.within_unit_interval());
    enc.day_cos = bits(1.0000001);
    assert!(!enc.within_unit_interval());
    enc.day_cos = bits(-1.0);
    assert!(enc.within_unit_interval());
    enc.month_sin = bits(f32::NAN);
    assert!(!enc.within_unit_interval());
}

#[test]
fn time_encoding_asks_for_day_of_month_over_a_year() {
    let asked = std::cell::RefCell::new(Vec::new());
    let spy = |op: Operation| {
        asked.borrow_mut().push(op);
        0u32
    };
    let dt = Timestamp::new(13, 31, 12).unwrap();
    TimeEncoding::from_datetime(&dt, &spy);
    assert_eq!(
        asked.into_inner(),
        vec![
            Operation::Sine { numerator: 13, period: 24 },
            Operation::Cosine { numerator: 13, period: 24 },
            Operation::Sine { numerator: 31, period: 365 },
            Operation::Cosine { numerator: 31, period: 365 },
            Operation::Sine { numerator: 11, period: 12 },
            Operation::Cosine { numerator: 11, period: 12 },
        ]
    );
}

#[test]
fn timestamp_rejects_fields_out_of_range() {
    assert!(Timestamp::new(0, 1, 1).is_some());
    assert!(Timestamp::new(23, 31, 12).is_some());
    assert!(Timestamp::new(24, 1, 1).is_none());
    assert!(Timestamp::new(0, 0, 1).is_none());
    assert!(Timestamp::new(0, 32, 1).is_none());
    assert!(Timestamp::new(0, 1, 0).is_none());
    assert!(Timestamp::new(0, 1, 13).is_none());
}

#[test]
fn timestamp_reads_utc_fields_of_an_instant() {
    let dt = Timestamp::from_unix_seconds(1_721_044_800).unwrap(); // 2024-07-15 12:00:00 UTC
    assert_eq!((dt.hour(), dt.day(), dt.month()), (12, 15, 7));
    let eve = Timestamp::from_unix_seconds(-1).unwrap(); // 1969-12-31 23:59:59 UTC
    assert_eq!((eve.hour(), eve.day(), eve.month()), (23, 31, 12));
    assert_eq!(Timestamp::from_unix_seconds(1_721_044_800), Timestamp::new(12, 15, 7));
    assert!(Timestamp::from_unix_seconds(i64::MAX).is_none());
    assert!(Timestamp::from_unix_seconds(i64::MIN).is_none());
}

#[test]
fn all_features_keeps_the_fixed_order() {
    let dt = at(2024, 7, 15, 12);
    let features = record(dt, 3.0).all_features(&evaluate);
    let expected = [10.0, 80.0, 7.0, 1013.0, 0.0, 50.0, 100.0, 15.0, 180.0, 8.0];
    for (i, value) in expected.iter().enumerate() {
        assert_eq!(float(features[i]), *value);
    }
    assert_eq!(features[10..16], TimeEncoding::from_datetime(&dt, &evaluate).to_array());
    assert_eq!(float(features[16]), 3.0);
}

#[test]
fn normalization_round_trips() {
    let stats = Statistics::new(
        vec![bits(15.0); 16],
        vec![bits(5.0); 16],
        vec!["test".to_string(); 16],
    )
    .unwrap();
    for x in [20.0f32, -3.5, 0.0, 1013.25, 1e-3] {
        let scaled = normalize(bits(x), bits(15.0), bits(5.0), &evaluate);
        let back = metrocast::normalize::denormalize(&vec![scaled], &stats, &evaluate).unwrap();
        assert!((float(back[0]) - x).abs() <= 1e-4 * x.abs().max(1.0));
    }
}

#[test]
fn normalize_features_scales_sixteen_and_keeps_the_code() {
    let mut features = [0u32; 17];
    for (i, slot) in features.iter_mut().enumerate() {
        *slot = bits(i as f32 * 2.0 + 1.0);
    }
    let stats = Statistics::new(
        (0..16).map(|i| bits(i as f32)).collect(),
        (0..16).map(|i| bits(i as f32 + 2.0)).collect(),
        vec!["test".to_string(); 16],
    )
    .unwrap();
    let scaled = normalize_features(&features, &stats, &evaluate).unwrap();
    for i in 0..16 {
        let expected = ((i as f32 * 2.0 + 1.0) - i as f32) / (i as f32 + 2.0);
        assert_eq!(float(scaled[i]), expected);
    }
    assert_eq!(scaled[16], features[16]);
}

#[test]
fn weather_code_survives_any_statistics() {
    let mut features = [bits(1.0); 17];
    features[16] = bits(42.0);
    for (mean, std) in [(f32::NAN, 1.0), (0.0, f32::INFINITY), (1e38, 1e-38), (-7.0, f32::NAN)] {
        let stats =
            Statistics::new(vec![bits(mean); 16], vec![bits(std); 16], vec![String::new(); 16])
                .unwrap();
        let scaled = normalize_features(&features, &stats, &evaluate).unwrap();
        assert_eq!(scaled[16], bits(42.0));
    }
}

#[test]
fn normalizer_rejects_wrong_feature_count() {
    let features = [bits(1.0); 17];
    for count in [0usize, 1, 15, 17, 32] {
        assert_eq!(
            normalize_features(&features, &unit_statistics(count), &evaluate),
            Err(PreprocessError::InvalidFeatureCount { expected: 16, got: count })
        );
    }
}

#[test]
fn tensor_builder_rejects_wrong_feature_count() {
    let records = vec![record(at(2024, 1, 1, 0), 3.0); SEQ_LEN];
    for count in [0usize, 15, 17] {
        let made = preprocess_sequence(&records, &unit_statistics(count), &evaluate);
        assert_eq!(
            made.err(),
            Some(PreprocessError::InvalidFeatureCount { expected: 16, got: count })
        );
    }
}

#[test]
fn tensor_builder_rejects_every_other_length() {
    for length in [0usize, 1, 23, 25, 168] {
        let records = vec![record(at(2024, 1, 1, 0), 3.0); length];
        for count in [16usize, 3] {
            let made = preprocess_sequence(&records, &unit_statistics(count), &evaluate);
            assert_eq!(
                made.err(),
                Some(PreprocessError::InvalidSequenceLength { expected: 24, got: length })
            );
        }
    }
}

#[test]
fn identical_records_pass_through_unit_statistics() {
    let dt = at(2024, 3, 9, 5);
    let records = vec![record(dt, 3.0); SEQ_LEN];
    let tensor = preprocess_sequence(&records, &unit_statistics(16), &evaluate).unwrap();
    let (shape, data) = tensor.into_parts();
    assert_eq!(shape, vec![1, SEQ_LEN, 17]);
    assert_eq!(data.len(), SEQ_LEN * 17);
    let raw = [10.0, 80.0, 7.0, 1013.0, 0.0, 50.0, 100.0, 15.0, 180.0, 8.0];
    let time = TimeEncoding::from_datetime(&dt, &evaluate).to_array();
    for t in 0..SEQ_LEN {
        for f in 0..10 {
            assert_eq!(float(data[t * 17 + f]), raw[f]);
        }
        for k in 0..6 {
            assert_eq!(float(data[t * 17 + 10 + k]), float(time[k]));
        }
        assert_eq!(float(data[t * 17 + 16]), 3.0);
    }
}

#[test]
fn tensor_rows_follow_the_window_in_row_major_order() {
    let records: Vec<WeatherRecord> = (0..24u32)
        .map(|h| {
            let mut one = record(at(2024, 1, 1, h), h as f32);
            one.temperature_2m = bits(100.0 + h as f32);
            one
        })
        .collect();
    let stats = Statistics::new(
        vec![bits(100.0); 16],
        vec![bits(2.0); 16],
        vec!["test".to_string(); 16],
    )
    .unwrap();
    let (_, data) = preprocess_sequence(&records, &stats, &evaluate).unwrap().into_parts();
    for t in 0..24 {
        assert_eq!(float(data[t * 17]), t as f32 / 2.0);
        assert_eq!(float(data[t * 17 + 1]), (80.0 - 100.0) / 2.0);
        let hour_sin = (2.0 * PI * t as f32 / 24.0).sin();
        assert_eq!(float(data[t * 17 + 10]), (hour_sin - 100.0) / 2.0);
        assert_eq!(float(data[t * 17 + 16]), t as f32);
    }
}
