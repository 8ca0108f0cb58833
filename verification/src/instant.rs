use vstd::prelude::*;

verus! {

/// Whether `year` is a leap year of the proleptic Gregorian calendar.
pub open spec fn is_leap_year(year: int) -> bool {
    year % 4 == 0 && (year % 100 != 0 || year % 400 == 0)
}

/// The number of days of `month` in `year`; 0 where `month` is not 1 to 12.
pub open spec fn days_in_month(year: int, month: int) -> int {
    if month == 2 {
        if is_leap_year(year) { 29 } else { 28 }
    } else if month == 4 || month == 6 || month == 9 || month == 11 {
        30
    } else if 1 <= month <= 12 {
        31
    } else {
        0
    }
}

/// Whether the six components name a local date and time that the canonical
/// text can hold: a four-digit year, a day that the month has, and a time of
/// day. Second 60 stands for a leap second.
pub open spec fn valid_components(
    year: int,
    month: int,
    day: int,
    hour: int,
    minute: int,
    second: int,
) -> bool {
    &&& 0 <= year <= 9999
    &&& 1 <= month <= 12
    &&& 1 <= day <= days_in_month(year, month)
    &&& 0 <= hour <= 23
    &&& 0 <= minute <= 59
    &&& 0 <= second <= 60
}

/// A point in time as the components of its local date and time, together with
/// the offset of that local time from UTC in seconds.
#[derive(Clone, Copy, Debug, PartialEq, Eq, Structural)]
pub struct Instant {
    pub year: u16,
    pub month: u8,
    pub day: u8,
    pub hour: u8,
    pub minute: u8,
    pub second: u8,
    pub utc_offset_seconds: i32,
}

impl Instant {
    /// The invariant of an instant: its components are valid and its offset is
    /// less than a day either way.
    pub open spec fn wf(self) -> bool {
        &&& valid_components(
            self.year as int,
            self.month as int,
            self.day as int,
            self.hour as int,
            self.minute as int,
            self.second as int,
        )
        &&& -86_400 < self.utc_offset_seconds < 86_400
    }

    /// Builds an instant from its components, or `None` where they name no
    /// valid local date and time.
    pub fn new(
        year: u16,
        month: u8,
        day: u8,
        hour: u8,
        minute: u8,
        second: u8,
        utc_offset_seconds: i32,
    ) -> (r: Option<Instant>)
        ensures
            r is Some <==> (valid_components(
                year as int,
                month as int,
                day as int,
                hour as int,
                minute as int,
                second as int,
            ) && -86_400 < utc_offset_seconds < 86_400),
            r is Some ==> r.unwrap() == (Instant {
                year,
                month,
                day,
                hour,
                minute,
                second,
                utc_offset_seconds,
            }) && r.unwrap().wf(),
    {
        if year > 9999 || month < 1 || month > 12 || day < 1 {
            return None;
        }
        let leap: bool = year % 4 == 0 && (year % 100 != 0 || year % 400 == 0);
        let last: u8 = if month == 2 {
            if leap { 29 } else { 28 }
        } else if month == 4 || month == 6 || month == 9 || month == 11 {
            30
        } else {
            31
        };
        if day > last || hour > 23 || minute > 59 || second > 60 {
            return None;
        }
        if utc_offset_seconds <= -86_400 || utc_offset_seconds >= 86_400 {
            return None;
        }
        Some(Instant { year, month, day, hour, minute, second, utc_offset_seconds })
    }
}

} // verus!
