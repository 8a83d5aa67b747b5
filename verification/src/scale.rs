//! Conversion of user-facing quantities to the units of the wire format.
//!
//! Callers hand in whatever the user typed; both conversions clamp first, so
//! every input has a result and nothing out of range reaches the encoder.

use vstd::prelude::*;

verus! {

/// Largest brightness percentage; anything above counts as this.
pub const MAX_PERCENT: i64 = 100;

/// Longest cycle duration handed to the firmware, in milliseconds.
pub const MAX_SPEED_MILLIS: i64 = 10_000;

/// The intensity byte that stands for `percent`: the percentage is clamped
/// to `0..=100` and then rescaled linearly to `0..=255`, rounding down.
pub open spec fn spec_brightness(percent: int) -> int {
    if percent <= 0 {
        0
    } else if percent >= 100 {
        255
    } else {
        percent * 255 / 100
    }
}

/// The cycle duration that stands for `millis`: clamped to `0..=10_000`.
pub open spec fn spec_speed(millis: int) -> int {
    if millis <= 0 {
        0
    } else if millis >= 10_000 {
        10_000
    } else {
        millis
    }
}

/// Rescales a brightness percentage to an intensity byte.
pub fn brightness_from_percent(percent: i64) -> (level: u8)
    ensures
        level == spec_brightness(percent as int),
{
    if percent <= 0 {
        0
    } else if percent >= MAX_PERCENT {
        255
    } else {
        (percent * 255 / 100) as u8
    }
}

/// Clamps a cycle duration in milliseconds to what the firmware accepts.
pub fn speed_from_millis(millis: i64) -> (speed: u16)
    ensures
        speed == spec_speed(millis as int),
{
    if millis <= 0 {
        0
    } else if millis >= MAX_SPEED_MILLIS {
        10_000
    } else {
        millis as u16
    }
}

/// Brightness saturates: every percentage of 100 or more gives the byte of
/// 100, every percentage of 0 or less gives the byte of 0, and between the
/// two a larger percentage never gives a smaller byte.
pub proof fn lemma_brightness_saturates(a: int, b: int)
    ensures
        0 <= spec_brightness(a) <= 255,
        a >= 100 ==> spec_brightness(a) == spec_brightness(100) == 255,
        a <= 0 ==> spec_brightness(a) == spec_brightness(0) == 0,
        a <= b ==> spec_brightness(a) <= spec_brightness(b),
{
}

/// Speed saturates: every duration of ten seconds or more gives ten seconds,
/// every negative duration gives zero, and durations in range are kept.
pub proof fn lemma_speed_saturates(millis: int)
    ensures
        0 <= spec_speed(millis) <= 10_000,
        millis >= 10_000 ==> spec_speed(millis) == spec_speed(10_000) == 10_000,
        millis <= 0 ==> spec_speed(millis) == spec_speed(0) == 0,
        0 <= millis <= 10_000 ==> spec_speed(millis) == millis,
{
}

} // verus!
