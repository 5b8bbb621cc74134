//! Colour choices of the dashboard, as thresholds on the readings.
use vstd::prelude::*;

verus! {

/// The colours the dashboard paints with.
#[derive(Clone, Copy, Debug, PartialEq, Eq, Structural)]
pub enum Tone {
    Red,
    Yellow,
    Green,
    Cyan,
    White,
    DarkGray,
}

/// How alarming a warning colour is: calm cyan, then green, yellow, red.
pub open spec fn alarm_rank(t: Tone) -> int {
    match t {
        Tone::Cyan => 0,
        Tone::Green => 1,
        Tone::Yellow => 2,
        Tone::Red => 3,
        Tone::White => 0,
        Tone::DarkGray => 0,
    }
}

/// Colour of a load percentage (utilisation, power): red above 90, yellow above 70.
pub open spec fn load_tone_of(percent: int) -> Tone {
    if percent > 90 {
        Tone::Red
    } else if percent > 70 {
        Tone::Yellow
    } else {
        Tone::Green
    }
}

/// Colour of a fan speed percentage: red above 80, yellow above 50, cyan otherwise.
pub open spec fn fan_tone_of(fan: int) -> Tone {
    if fan > 80 {
        Tone::Red
    } else if fan > 50 {
        Tone::Yellow
    } else {
        Tone::Cyan
    }
}

/// Colour of a temperature in degrees Fahrenheit: red from 185 (danger),
/// yellow from 158 (concern), green from 120 (acceptable), cyan below (cold).
pub open spec fn temp_tone_of(temp_f: int) -> Tone {
    if temp_f >= 185 {
        Tone::Red
    } else if temp_f >= 158 {
        Tone::Yellow
    } else if temp_f >= 120 {
        Tone::Green
    } else {
        Tone::Cyan
    }
}

/// Colour of a load percentage.
pub fn load_tone(percent: u32) -> (t: Tone)
    ensures
        t == load_tone_of(percent as int),
{
    if percent > 90 {
        Tone::Red
    } else if percent > 70 {
        Tone::Yellow
    } else {
        Tone::Green
    }
}

/// Colour of a fan speed percentage.
pub fn fan_tone(fan: u32) -> (t: Tone)
    ensures
        t == fan_tone_of(fan as int),
{
    if fan > 80 {
        Tone::Red
    } else if fan > 50 {
        Tone::Yellow
    } else {
        Tone::Cyan
    }
}

/// Colour of a temperature in degrees Fahrenheit.
pub fn temp_tone(temp_f: u32) -> (t: Tone)
    ensures
        t == temp_tone_of(temp_f as int),
{
    if temp_f >= 185 {
        Tone::Red
    } else if temp_f >= 158 {
        Tone::Yellow
    } else if temp_f >= 120 {
        Tone::Green
    } else {
        Tone::Cyan
    }
}

/// A hotter reading never gets a calmer colour.
pub proof fn law_temp_tone_monotone(a: int, b: int)
    requires
        a <= b,
    ensures
        alarm_rank(temp_tone_of(a)) <= alarm_rank(temp_tone_of(b)),
{
}

/// A higher load never gets a calmer colour.
pub proof fn law_load_tone_monotone(a: int, b: int)
    requires
        a <= b,
    ensures
        alarm_rank(load_tone_of(a)) <= alarm_rank(load_tone_of(b)),
{
}

/// A faster fan never gets a calmer colour.
pub proof fn law_fan_tone_monotone(a: int, b: int)
    requires
        a <= b,
    ensures
        alarm_rank(fan_tone_of(a)) <= alarm_rank(fan_tone_of(b)),
{
}

/// The load colours by threshold: red exactly above 90, yellow exactly above 70
/// up to 90, green exactly at 70 or below.
pub proof fn law_load_tone_thresholds(percent: int)
    ensures
        (load_tone_of(percent) == Tone::Red) == (percent > 90),
        (load_tone_of(percent) == Tone::Yellow) == (70 < percent <= 90),
        (load_tone_of(percent) == Tone::Green) == (percent <= 70),
{
}

/// The fan colours by threshold: red exactly above 80, yellow exactly above 50 up
/// to 80, cyan exactly at 50 or below.
pub proof fn law_fan_tone_thresholds(fan: int)
    ensures
        (fan_tone_of(fan) == Tone::Red) == (fan > 80),
        (fan_tone_of(fan) == Tone::Yellow) == (50 < fan <= 80),
        (fan_tone_of(fan) == Tone::Cyan) == (fan <= 50),
{
}

/// The temperature colours by threshold (°F): red exactly from 185, yellow exactly
/// from 158 below 185, green exactly from 120 below 158, cyan exactly below 120.
pub proof fn law_temp_tone_thresholds(temp_f: int)
    ensures
        (temp_tone_of(temp_f) == Tone::Red) == (temp_f >= 185),
        (temp_tone_of(temp_f) == Tone::Yellow) == (158 <= temp_f < 185),
        (temp_tone_of(temp_f) == Tone::Green) == (120 <= temp_f < 158),
        (temp_tone_of(temp_f) == Tone::Cyan) == (temp_f < 120),
{
}

} // verus!
