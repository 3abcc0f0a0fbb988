use vstd::prelude::*;
use crate::digits::{decimal, two_digits};

verus! {

/// The earliest year of the calendar's range.
pub const MIN_YEAR: i32 = -262143;

/// The latest year of the calendar's range.
pub const MAX_YEAR: i32 = 262142;

/// A local time near either end of the range may fall one day outside it,
/// so local dates reach one year further each way.
pub const MIN_LOCAL_YEAR: i32 = -262144;

pub const MAX_LOCAL_YEAR: i32 = 262143;

/// A day of the proleptic Gregorian calendar.
#[derive(Clone, Copy, Debug, PartialEq, Eq, Structural)]
pub struct CivilDate {
    pub year: i32,
    pub month: u32,
    pub day: u32,
}

/// A wall-clock time in the local time zone, to the minute.
#[derive(Clone, Copy, Debug, PartialEq, Eq, Structural)]
pub struct LocalTime {
    pub date: CivilDate,
    pub hour: u32,
    pub minute: u32,
}

pub open spec fn is_leap_year(y: int) -> bool {
    y % 4 == 0 && (y % 100 != 0 || y % 400 == 0)
}

pub open spec fn days_in_month(y: int, m: int) -> int {
    if m == 2 {
        if is_leap_year(y) {
            29
        } else {
            28
        }
    } else if m == 4 || m == 6 || m == 9 || m == 11 {
        30
    } else {
        31
    }
}

impl CivilDate {
    /// The year lies within the calendar's range.
    pub open spec fn in_range(self) -> bool {
        MIN_YEAR <= self.year <= MAX_YEAR
    }

    /// The date exists and its year lies within the local range.
    pub open spec fn wf(self) -> bool {
        &&& MIN_LOCAL_YEAR <= self.year <= MAX_LOCAL_YEAR
        &&& 1 <= self.month <= 12
        &&& 1 <= self.day <= days_in_month(self.year as int, self.month as int)
    }
}

impl LocalTime {
    pub open spec fn wf(self) -> bool {
        &&& self.date.wf()
        &&& self.hour < 24
        &&& self.minute < 60
    }
}

/// The day before `d`, where both lie within the calendar's range.
pub open spec fn previous_day(d: CivilDate) -> Option<CivilDate> {
    if d.year < MIN_YEAR || d.year > MAX_YEAR {
        None
    } else if d.day > 1 {
        Some(CivilDate { year: d.year, month: d.month, day: (d.day - 1) as u32 })
    } else if d.month > 1 {
        Some(
            CivilDate {
                year: d.year,
                month: (d.month - 1) as u32,
                day: days_in_month(d.year as int, d.month - 1) as u32,
            },
        )
    } else if d.year > MIN_YEAR {
        Some(CivilDate { year: (d.year - 1) as i32, month: 12, day: 31 })
    } else {
        None
    }
}

/// At least four digits, zeros in front.
pub open spec fn four_digits(n: nat) -> Seq<char> {
    if n < 10 {
        seq!['0', '0', '0'] + decimal(n)
    } else if n < 100 {
        seq!['0', '0'] + decimal(n)
    } else if n < 1000 {
        seq!['0'] + decimal(n)
    } else {
        decimal(n)
    }
}

/// A year: four digits from 0 to 9999, else a sign and at least four digits.
pub open spec fn year_text(y: int) -> Seq<char> {
    if 0 <= y < 10000 {
        four_digits(y as nat)
    } else if y < 0 {
        seq!['-'] + four_digits((-y) as nat)
    } else {
        seq!['+'] + four_digits(y as nat)
    }
}

/// `HH:MM`.
pub open spec fn clock_text(t: LocalTime) -> Seq<char> {
    two_digits(t.hour as nat) + seq![':'] + two_digits(t.minute as nat)
}

/// `DD/MM/YYYY`.
pub open spec fn date_text(d: CivilDate) -> Seq<char> {
    two_digits(d.day as nat) + seq!['/'] + two_digits(d.month as nat) + seq!['/'] + year_text(
        d.year as int,
    )
}

/// The day before `today`, where today is known and has one.
pub open spec fn yesterday_of(today: Option<CivilDate>) -> Option<CivilDate> {
    match today {
        Some(d) => previous_day(d),
        None => None,
    }
}

/// How a modification time reads, seen from the day `today` (where it is
/// known) whose previous day is `yesterday`.
pub open spec fn modified_text(t: LocalTime, today: Option<CivilDate>, yesterday: Option<CivilDate>) -> Seq<
    char,
> {
    if today == Some(t.date) {
        seq!['T', 'o', 'd', 'a', 'y', ' ', 'a', 't', ' '] + clock_text(t)
    } else if yesterday == Some(t.date) {
        seq!['Y', 'e', 's', 't', 'e', 'r', 'd', 'a', 'y', ' ', 'a', 't', ' '] + clock_text(t)
    } else {
        date_text(t.date) + seq![' ', 'a', 't', ' '] + clock_text(t)
    }
}

} // verus!
