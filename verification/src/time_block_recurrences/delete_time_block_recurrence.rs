use vstd::prelude::*;

use crate::dates::{at_local_offset, calendar_date_exists, local_datetime_to_instant, local_today, CalendarDateTime, ClockTime, Instant};
use crate::time_block_recurrences::stop_time_block_recurrence::midnight_of;

verus! {

/// The instant from which the blocks of a deleted recurrence count as future ones: the
/// start of today in the machine's time zone; `None` when that midnight is skipped or
/// repeated there. Which instant it is depends on the clock and the time zone.
pub fn today_start() -> (r: Option<Instant>)
    ensures
        r matches Some(i) ==> exists|today: (int, int, int)|
            calendar_date_exists(today) && #[trigger] at_local_offset(i, midnight_of(today)),
{
    let today = local_today();
    let midnight = CalendarDateTime { date: today, time: ClockTime { hour: 0, minute: 0, second: 0 } };
    assert(midnight == midnight_of(today.ymd()));
    let r = local_datetime_to_instant(&midnight);
    proof {
        if r is Some {
            assert(at_local_offset(r->0, midnight_of(today.ymd())));
        }
    }
    r
}

} // verus!
