//! Unit conversion: from a raw energy delta and an interval to
//! instantaneous power.
//!
//! Power is carried as a signed integer count of microwatts. A delta of
//! `e` nanojoules over `t` milliseconds is exactly `e / t` microwatts, so
//! the conversion is: scale the value to nanojoules by its unit tag,
//! divide by the interval in milliseconds (truncating toward zero), and
//! clamp to the 64-bit range. A unit tag outside `nJ`/`uJ`/`mJ` is a
//! platform contract violation and fails fatally rather than defaulting.

use vstd::prelude::*;

use crate::record::IOReportChannel;
use crate::strutil::str_eq;
use crate::FatalError;

verus! {

/// The unit tags the platform contract allows.
pub open spec fn known_unit(u: Seq<char>) -> bool {
    u == "nJ"@ || u == "uJ"@ || u == "mJ"@
}

/// Nanojoules per one count of the given unit tag.
pub open spec fn unit_scale_nj(u: Seq<char>) -> int
    recommends
        known_unit(u),
{
    if u == "nJ"@ {
        1
    } else if u == "uJ"@ {
        1000
    } else {
        1000000
    }
}

/// Division truncating toward zero, for positive divisors.
pub open spec fn div_trunc(a: int, b: int) -> int
    recommends
        b > 0,
{
    if a >= 0 {
        a / b
    } else {
        -((-a) / b)
    }
}

/// Clamp to the i64 range.
pub open spec fn clip_i64(x: int) -> int {
    if x > i64::MAX {
        i64::MAX as int
    } else if x < i64::MIN {
        i64::MIN as int
    } else {
        x
    }
}

/// Instantaneous power in microwatts of an energy delta over an interval:
/// the delta in nanojoules divided by the interval in milliseconds,
/// truncated toward zero and clamped to the i64 range.
pub open spec fn spec_power_uw(value: int, unit: Seq<char>, interval_ms: int) -> int
    recommends
        known_unit(unit),
        interval_ms > 0,
{
    clip_i64(div_trunc(value * unit_scale_nj(unit), interval_ms))
}

impl IOReportChannel {
    /// Convert this record's energy delta into microwatts of power over
    /// the given interval; an unrecognized unit tag is the fatal
    /// conversion error.
    pub fn as_power(&self, interval_ms: u64) -> (r: Result<i64, FatalError>)
        requires
            1 <= interval_ms,
        ensures
            known_unit(self.unit@) ==> r == Ok::<i64, FatalError>(
                spec_power_uw(self.value as int, self.unit@, interval_ms as int) as i64,
            ),
            !known_unit(self.unit@) ==> r == Err::<i64, FatalError>(FatalError::UnsupportedUnit),
    {
        let scale: u64 = if str_eq(self.unit.as_str(), "nJ") {
            1
        } else if str_eq(self.unit.as_str(), "uJ") {
            1000
        } else if str_eq(self.unit.as_str(), "mJ") {
            1000000
        } else {
            return Err(FatalError::UnsupportedUnit);
        };
        let neg = self.value < 0;
        let mag: u128 = if neg {
            (-(self.value as i128)) as u128
        } else {
            self.value as u128
        };
        proof {
            assert(mag * scale <= 0x8000000000000000u128 * 1000000) by (nonlinear_arith)
                requires
                    mag <= 0x8000000000000000u128,
                    scale <= 1000000,
            ;
        }
        let energy_nj: u128 = mag * (scale as u128);
        let q: u128 = energy_nj / (interval_ms as u128);
        let p: i64 = if neg {
            if q > i64::MAX as u128 {
                i64::MIN
            } else {
                -(q as i64)
            }
        } else {
            if q > i64::MAX as u128 {
                i64::MAX
            } else {
                q as i64
            }
        };
        Ok(p)
    }
}

} // verus!
