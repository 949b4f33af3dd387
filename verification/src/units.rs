//! Physical units. Both scales are linear in the raw ticks and divide by
//! [`FULL_SCALE`], so every value is an exact fraction over that
//! denominator: the numerators are what the contracts speak of.

use vstd::prelude::*;
use crate::reading::Reading;

verus! {

/// Temperature in degrees Celsius times `FULL_SCALE`:
/// the temperature is `-45 + 175 * ticks / 65535`.
pub open spec fn celsius_numerator(ticks: u16) -> int {
    175 * ticks - 45 * 65535
}

/// Relative humidity in percent times `FULL_SCALE`:
/// the humidity is `100 * ticks / 65535`. Nothing is clamped.
pub open spec fn humidity_numerator(ticks: u16) -> int {
    100 * ticks
}

/// The integer nearest to `1000 * numerator / 65535`. The denominator is
/// odd, so no value lies halfway between two integers.
pub open spec fn rounded_thousandths(numerator: int) -> int {
    (2000 * numerator + 65535) / 131070
}

impl Reading {
    /// The temperature in degrees Celsius as an exact fraction over
    /// `FULL_SCALE`.
    pub fn celsius_numerator(&self) -> (n: i32)
        ensures
            n == celsius_numerator(self.temperature_ticks),
    {
        let t: i32 = self.temperature_ticks as i32;
        175 * t - 2949075
    }

    /// The relative humidity in percent as an exact fraction over
    /// `FULL_SCALE`.
    pub fn humidity_numerator(&self) -> (n: u32)
        ensures
            n == humidity_numerator(self.humidity_ticks),
    {
        let h: u32 = self.humidity_ticks as u32;
        100 * h
    }

    /// The temperature in thousandths of a degree Celsius, rounded to the
    /// nearest.
    pub fn millidegrees(&self) -> (m: i32)
        ensures
            m == rounded_thousandths(celsius_numerator(self.temperature_ticks)),
    {
        let t: u64 = self.temperature_ticks as u64;
        let above_floor: u64 = (175000 * t + 32767) / 65535;
        (above_floor as i32) - 45000
    }

    /// The relative humidity in thousandths of a percent, rounded to the
    /// nearest.
    pub fn millipercent(&self) -> (m: u32)
        ensures
            m == rounded_thousandths(humidity_numerator(self.humidity_ticks)),
    {
        let h: u64 = self.humidity_ticks as u64;
        ((100000 * h + 32767) / 65535) as u32
    }
}

/// Rounding to thousandths moves a value by less than half a thousandth.
pub proof fn lemma_rounding_is_nearest(numerator: int)
    ensures
        -32767 <= 65535 * rounded_thousandths(numerator) - 1000 * numerator <= 32767,
{
}

/// The temperature is strictly increasing in the raw ticks, and so is its
/// rounding to thousandths of a degree.
pub proof fn lemma_temperature_strictly_increasing(a: u16, b: u16)
    requires
        a < b,
    ensures
        celsius_numerator(a) < celsius_numerator(b),
        rounded_thousandths(celsius_numerator(a)) < rounded_thousandths(celsius_numerator(b)),
{
}

/// The temperature runs from exactly -45 degrees at zero ticks to exactly
/// 130 degrees at full scale, and never leaves that range.
pub proof fn lemma_temperature_range(ticks: u16)
    ensures
        celsius_numerator(0) == -45 * 65535,
        celsius_numerator(65535) == 130 * 65535,
        -45 * 65535 <= celsius_numerator(ticks) <= 130 * 65535,
        rounded_thousandths(celsius_numerator(0)) == -45000,
        rounded_thousandths(celsius_numerator(65535)) == 130000,
        -45000 <= rounded_thousandths(celsius_numerator(ticks)) <= 130000,
{
}

/// The humidity is strictly increasing in the raw ticks, and so is its
/// rounding to thousandths of a percent.
pub proof fn lemma_humidity_strictly_increasing(a: u16, b: u16)
    requires
        a < b,
    ensures
        humidity_numerator(a) < humidity_numerator(b),
        rounded_thousandths(humidity_numerator(a)) < rounded_thousandths(humidity_numerator(b)),
{
}

/// The humidity runs from exactly 0 percent at zero ticks to exactly 100
/// percent at full scale. Raw ticks cannot exceed full scale, so the linear
/// formula stays in that range without any clamping.
pub proof fn lemma_humidity_range(ticks: u16)
    ensures
        humidity_numerator(0) == 0,
        humidity_numerator(65535) == 100 * 65535,
        0 <= humidity_numerator(ticks) <= 100 * 65535,
        rounded_thousandths(humidity_numerator(0)) == 0,
        rounded_thousandths(humidity_numerator(65535)) == 100000,
        0 <= rounded_thousandths(humidity_numerator(ticks)) <= 100000,
{
}

} // verus!
