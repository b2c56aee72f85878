//! One hourly observation and its fixed-order feature vector.

use vstd::prelude::*;
use crate::scalar::{total, Operation};
use crate::time::{encodes, TimeEncoding, Timestamp};

verus! {

/// Measured quantities per observation.
pub const WEATHER_FEATURES: usize = 10;

/// Length of a feature vector: ten measurements, six cyclic time values and
/// the weather code.
pub const NUM_FEATURES: usize = 17;

/// Position of the weather code in a feature vector.
pub const CODE_POSITION: usize = 16;

/// A single hourly weather observation. Every quantity is a binary32 bit
/// pattern in physical units.
#[derive(Debug, Clone, Copy)]
pub struct WeatherRecord {
    pub timestamp: Timestamp,
    pub temperature_2m: u32,
    pub relative_humidity_2m: u32,
    pub dew_point_2m: u32,
    pub surface_pressure: u32,
    pub precipitation: u32,
    pub cloud_cover: u32,
    pub shortwave_radiation: u32,
    pub wind_speed_10m: u32,
    pub wind_direction_10m: u32,
    pub soil_temperature_0_to_7cm: u32,
    /// WMO weather code, 0 to 99. It feeds an embedding and is never scaled.
    pub weather_code: u32,
}

/// `features` is a feature vector of `record`: the measurements in their
/// order, then a time encoding of its timestamp, then its weather code.
pub open spec fn assembled<E: Fn(Operation) -> u32>(
    eval: &E,
    record: WeatherRecord,
    features: Seq<u32>,
) -> bool {
    &&& features.len() == NUM_FEATURES
    &&& features.subrange(0, WEATHER_FEATURES as int) == record.measurements()
    &&& encodes(
        eval,
        record.timestamp@,
        features.subrange(WEATHER_FEATURES as int, CODE_POSITION as int),
    )
    &&& features[CODE_POSITION as int] == record.weather_code
}

impl WeatherRecord {
    /// The ten measurements in the order in which the statistics list them.
    pub open spec fn measurements(&self) -> Seq<u32> {
        seq![
            self.temperature_2m,
            self.relative_humidity_2m,
            self.dew_point_2m,
            self.surface_pressure,
            self.precipitation,
            self.cloud_cover,
            self.shortwave_radiation,
            self.wind_speed_10m,
            self.wind_direction_10m,
            self.soil_temperature_0_to_7cm,
        ]
    }

    /// The ten measurements, in order.
    pub fn weather_features(&self) -> (features: [u32; 10])
        ensures
            features@ == self.measurements(),
    {
        let features = [
            self.temperature_2m,
            self.relative_humidity_2m,
            self.dew_point_2m,
            self.surface_pressure,
            self.precipitation,
            self.cloud_cover,
            self.shortwave_radiation,
            self.wind_speed_10m,
            self.wind_direction_10m,
            self.soil_temperature_0_to_7cm,
        ];
        features
    }

    /// All seventeen features in order. The weather code comes last and is
    /// copied as it is.
    pub fn all_features<E: Fn(Operation) -> u32>(&self, eval: &E) -> (features: [u32; 17])
        requires
            total(eval),
        ensures
            assembled(eval, *self, features@),
            features[CODE_POSITION as int] == self.weather_code,
    {
        let weather = self.weather_features();
        let encoding = TimeEncoding::from_datetime(&self.timestamp, eval);
        let time = encoding.to_array();
        let features = [
            weather[0],
            weather[1],
            weather[2],
            weather[3],
            weather[4],
            weather[5],
            weather[6],
            weather[7],
            weather[8],
            weather[9],
            time[0],
            time[1],
            time[2],
            time[3],
            time[4],
            time[5],
            self.weather_code,
        ];
        assert(features@.subrange(0, 10) =~= self.measurements());
        features
    }
}

} // verus!
