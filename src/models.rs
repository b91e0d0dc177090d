use vstd::prelude::*;

verus! {

/// A number reported by the weather provider, carried through unchanged as the
/// IEEE 754 binary64 bit pattern of the value. The library never computes with
/// it; it only moves it from the provider's schema into its own.
#[derive(Clone, Copy, Debug, PartialEq, Eq, Structural)]
pub struct Reading {
    pub bits: u64,
}

/// The bit pattern of positive zero, used where the provider leaves out the elevation.
pub const ZERO_BITS: u64 = 0;

impl Reading {
    /// The reading that stands for `0.0`.
    pub fn zero() -> (r: Reading)
        ensures
            r.bits == ZERO_BITS,
    {
        Reading { bits: ZERO_BITS }
    }
}

/// An instant in UTC: whole seconds since 1970-01-01T00:00:00Z and the
/// nanoseconds past that second (beyond 999,999,999 only within a leap second).
#[derive(Clone, Copy, Debug, PartialEq, Eq, Structural)]
pub struct Timestamp {
    pub secs: i64,
    pub nanos: u32,
}

/// Where the observation was made, as the provider resolved it.
#[derive(Clone, Debug)]
pub struct Location {
    pub latitude: Reading,
    pub longitude: Reading,
    pub elevation: Reading,
    pub timezone: String,
}

/// One observation: provider units are passed through (Celsius, percent, mm,
/// km/h, degrees), and `time` is the observation time in UTC.
#[derive(Clone, Debug)]
pub struct CurrentWeather {
    pub temperature: Reading,
    pub humidity: Reading,
    pub rain: Reading,
    pub wind_speed: Reading,
    pub wind_direction: Reading,
    pub wind_gusts: Reading,
    pub time: Timestamp,
}

/// The normalized answer handed to callers.
#[derive(Clone, Debug)]
pub struct WeatherResponse {
    pub location: Location,
    pub current: CurrentWeather,
}

/// The provider's answer, under the provider's own field names.
#[derive(Clone, Debug)]
pub struct OpenMeteoResponse {
    pub latitude: Reading,
    pub longitude: Reading,
    pub elevation: Option<Reading>,
    pub timezone: String,
    pub current: OpenMeteoCurrent,
}

/// The `current` block of the provider's answer; `time` is the raw timestamp text.
#[derive(Clone, Debug)]
pub struct OpenMeteoCurrent {
    pub time: String,
    pub temperature_2m: Reading,
    pub relative_humidity_2m: Reading,
    pub rain: Reading,
    pub wind_speed_10m: Reading,
    pub wind_direction_10m: Reading,
    pub wind_gusts_10m: Reading,
}

} // verus!
