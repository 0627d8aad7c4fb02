//! Icons for weather condition codes.

use vstd::prelude::*;

verus! {

/// The icon shown for a weather condition code, by day or by night.
///
/// Codes are grouped by their hundreds: thunderstorm, drizzle, rain, snow and
/// atmosphere each have one icon; a clear sky (800) and clouds (801 to 804)
/// have a day and a night variant; every other code gets the cloud icon.
pub open spec fn weather_icon(condition_id: u32, is_day: bool) -> Seq<char> {
    if 200 <= condition_id <= 299 {
        "\u{F0593}"@
    } else if 300 <= condition_id <= 399 || 500 <= condition_id <= 599 {
        "\u{F0596}"@
    } else if 600 <= condition_id <= 699 {
        "\u{F0598}"@
    } else if 700 <= condition_id <= 799 {
        "\u{F0591}"@
    } else if condition_id == 800 {
        if is_day {
            "\u{F0599}"@
        } else {
            "\u{F0594}"@
        }
    } else if 801 <= condition_id <= 804 {
        if is_day {
            "\u{F0590}"@
        } else {
            "\u{F0591}"@
        }
    } else {
        "\u{F0590}"@
    }
}

/// Maps a weather condition code to its icon.
pub fn get_weather_icon(condition_id: u32, is_day: bool) -> (icon: &'static str)
    ensures
        icon@ == weather_icon(condition_id, is_day),
{
    if condition_id >= 200 && condition_id <= 299 {
        "\u{F0593}"
    } else if condition_id >= 300 && condition_id <= 399 {
        "\u{F0596}"
    } else if condition_id >= 500 && condition_id <= 599 {
        "\u{F0596}"
    } else if condition_id >= 600 && condition_id <= 699 {
        "\u{F0598}"
    } else if condition_id >= 700 && condition_id <= 799 {
        "\u{F0591}"
    } else if condition_id == 800 {
        if is_day {
            "\u{F0599}"
        } else {
            "\u{F0594}"
        }
    } else if condition_id >= 801 && condition_id <= 804 {
        if is_day {
            "\u{F0590}"
        } else {
            "\u{F0591}"
        }
    } else {
        "\u{F0590}"
    }
}

} // verus!
