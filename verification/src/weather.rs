//! Classified weather readings.
//!
//! A reading is a small discrete severity triple: cloud, rain and snow levels,
//! where 0 means the condition is absent and higher values are more severe.

use vstd::prelude::*;

verus! {

/// A classified weather observation. Higher level = more severe; 0 = absent.
#[derive(Clone, Copy, Debug, PartialEq, Eq, Structural)]
pub struct Weather {
    pub cloud: u32,
    pub raining: u32,
    pub snowing: u32,
}

impl Weather {
    /// The zero reading: no cloud, rain or snow signal. Resolution falls back
    /// to this reading whenever no live weather source is available.
    pub fn zero() -> (w: Weather)
        ensures
            w == (Weather { cloud: 0, raining: 0, snowing: 0 }),
    {
        Weather { cloud: 0, raining: 0, snowing: 0 }
    }
}

/// The reading resolution works with when the upstream weather source may
/// have failed: the classified reading when one came, else the zero reading.
/// An unavailable source never stops sample selection.
pub fn reading_or_zero(r: Option<Weather>) -> (w: Weather)
    ensures
        w == (match r {
            Some(x) => x,
            None => Weather { cloud: 0, raining: 0, snowing: 0 },
        }),
{
    match r {
        Some(x) => x,
        None => Weather::zero(),
    }
}

impl Default for Weather {
    /// The default reading is the zero reading.
    fn default() -> (w: Weather)
        ensures
            w == (Weather { cloud: 0, raining: 0, snowing: 0 }),
    {
        Weather::zero()
    }
}

/// Rain severity for a raw weather condition code.
pub open spec fn spec_rain_level(code: u32) -> u32 {
    if code == 500 || code == 511 || code == 300 || code == 301 || code == 302 || code == 310
        || code == 311 || code == 313 || code == 200 || code == 230 {
        1
    } else if code == 501 || code == 520 || code == 531 || code == 521 || code == 201
        || code == 231 || code == 232 || code == 314 || code == 321 {
        2
    } else if code == 502 || code == 503 || code == 522 || code == 202 {
        3
    } else {
        0
    }
}

/// Snow severity for a raw weather condition code.
pub open spec fn spec_snow_level(code: u32) -> u32 {
    if code == 612 || code == 615 || code == 616 {
        1
    } else if code == 621 || code == 601 {
        2
    } else if code == 602 || code == 622 {
        3
    } else {
        0
    }
}

/// Cloud severity for a raw weather condition code: a base level from a fixed
/// code set, overridden to 2 for whole code families (2xx, 3xx, 6xx).
pub open spec fn spec_cloud_level(code: u32) -> u32 {
    if code / 100 == 6 || code / 100 == 3 || code / 100 == 2 {
        2
    } else if code == 804 || code == 500 || code == 511 || code == 520 || code == 521
        || code == 522 || code == 531 {
        2
    } else {
        1
    }
}

/// Converts a raw observation's condition code into a classified reading.
pub fn classify_weather_code(code: u32) -> (w: Weather)
    ensures
        w.raining == spec_rain_level(code),
        w.snowing == spec_snow_level(code),
        w.cloud == spec_cloud_level(code),
{
    let raining: u32 = match code {
        500 | 511 | 300 | 301 | 302 | 310 | 311 | 313 | 200 | 230 => 1,
        501 | 520 | 531 | 521 | 201 | 231 | 232 | 314 | 321 => 2,
        502 | 503 | 522 | 202 => 3,
        _ => 0,
    };
    let snowing: u32 = match code {
        612 | 615 | 616 => 1,
        621 | 601 => 2,
        602 | 622 => 3,
        _ => 0,
    };
    let base_cloud: u32 = match code {
        804 | 500 | 511 | 520 | 521 | 522 | 531 => 2,
        _ => 1,
    };
    let cloud: u32 = match code / 100 {
        6 | 3 | 2 => 2,
        _ => base_cloud,
    };
    Weather { cloud, raining, snowing }
}

} // verus!
