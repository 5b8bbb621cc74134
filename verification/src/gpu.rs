//! One reading of the GPU's state.
use vstd::prelude::*;

verus! {

/// Number of streaming multiprocessors the grid shows: an 8 × 3 grid.
pub const GRID_SM_COUNT: u32 = 24;

/// What the dashboard knows about the GPU at one moment.
#[derive(Debug)]
pub struct GpuData {
    pub name: String,
    /// Bytes.
    pub memory_used: u64,
    /// Bytes.
    pub memory_total: u64,
    /// Percent.
    pub utilization: u32,
    /// Degrees Celsius.
    pub temperature: u32,
    /// Percent.
    pub fan_speed: u32,
    /// Milliwatts.
    pub power_draw: u32,
    /// Milliwatts.
    pub power_limit: u32,
    /// MHz.
    pub clock_speed: u32,
    pub sm_count: u32,
}

/// A reading that the driver could not give counts as zero.
pub open spec fn or_zero(v: Option<u32>) -> u32 {
    match v {
        Some(x) => x,
        None => 0,
    }
}

impl GpuData {
    /// Assembles a reading from what the driver answered: a name it could not give
    /// reads "Unknown GPU", other missing figures read 0, and the grid shows 24 SMs.
    pub fn from_readings(
        name: Option<String>,
        memory_used: u64,
        memory_total: u64,
        utilization: Option<u32>,
        temperature: Option<u32>,
        fan_speed: Option<u32>,
        power_draw: Option<u32>,
        power_limit: Option<u32>,
        clock_speed: Option<u32>,
    ) -> (g: GpuData)
        ensures
            g.name@ == (match name {
                Some(n) => n@,
                None => "Unknown GPU"@,
            }),
            g.memory_used == memory_used,
            g.memory_total == memory_total,
            g.utilization == or_zero(utilization),
            g.temperature == or_zero(temperature),
            g.fan_speed == or_zero(fan_speed),
            g.power_draw == or_zero(power_draw),
            g.power_limit == or_zero(power_limit),
            g.clock_speed == or_zero(clock_speed),
            g.sm_count == GRID_SM_COUNT,
    {
        let name = match name {
            Some(n) => n,
            None => String::from_str("Unknown GPU"),
        };
        GpuData {
            name,
            memory_used,
            memory_total,
            utilization: zero_if_missing(utilization),
            temperature: zero_if_missing(temperature),
            fan_speed: zero_if_missing(fan_speed),
            power_draw: zero_if_missing(power_draw),
            power_limit: zero_if_missing(power_limit),
            clock_speed: zero_if_missing(clock_speed),
            sm_count: GRID_SM_COUNT,
        }
    }

}

fn zero_if_missing(v: Option<u32>) -> (x: u32)
    ensures
        x == or_zero(v),
{
    match v {
        Some(x) => x,
        None => 0,
    }
}

} // verus!
