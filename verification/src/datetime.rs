//! The Hotline date-time encoding: a year, a count of seconds since the
//! start of that year, and a millisecond remainder.

use vstd::prelude::*;

verus! {

/// Seconds from the start of the year to the start of each month, in a
/// common (non-leap) year.
pub open spec fn month_secs_seq() -> Seq<u32> {
    seq![
        0u32, 2678400, 5097600, 7776000, 10368000, 13046400, 15638400, 18316800, 20995200,
        23587200, 26265600, 28857600,
    ]
}

/// The encoded second count for a civil time: the month offset, one extra
/// day past February in a year divisible by four, and the seconds of the
/// day and of the month so far.
pub open spec fn spec_hl_secs(
    year: u16,
    month0: u32,
    day0: u32,
    hour: u32,
    minute: u32,
    second: u32,
) -> int {
    month_secs_seq()[month0 as int] + (if year % 4 == 0 && month0 > 1 {
        86400int
    } else {
        0int
    }) + second + 60 * minute + 3600 * hour + 86400 * day0
}

/// Hotline format date-time structure.
#[derive(Clone, Copy, Debug, PartialEq, Eq, Structural)]
pub struct HLDateTime {
    pub year: u16,
    pub msecs: u16,
    pub secs: u32,
}

impl HLDateTime {
    /// Encode a civil date and time. `month0` and `day0` count from zero;
    /// the caller supplies the milliseconds of the current second
    /// unchanged.
    pub fn from_civil(
        year: u16,
        month0: u32,
        day0: u32,
        hour: u32,
        minute: u32,
        second: u32,
        msecs: u16,
    ) -> (r: HLDateTime)
        requires
            month0 < 12,
            day0 < 31,
            hour < 24,
            minute < 60,
            second < 60,
        ensures
            r.year == year,
            r.msecs == msecs,
            r.secs == spec_hl_secs(year, month0, day0, hour, minute, second),
    {
        let table: [u32; 12] = [
            0, 2678400, 5097600, 7776000, 10368000, 13046400, 15638400, 18316800, 20995200,
            23587200, 26265600, 28857600,
        ];
        assert(table@ =~= month_secs_seq());
        let leap_secs: u32 = if year % 4 == 0 && month0 > 1 {
            86400
        } else {
            0
        };
        assert(forall|m: int| 0 <= m < 12 ==> month_secs_seq()[m] <= 28857600) by {
            assert(table@ =~= month_secs_seq());
        }
        let secs = table[month0 as usize] + leap_secs + second + 60 * minute + 3600 * hour + 86400
            * day0;
        HLDateTime { year, msecs, secs }
    }
}

} // verus!
