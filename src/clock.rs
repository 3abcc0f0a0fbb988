use vstd::prelude::*;
use chrono::{Datelike, TimeZone, Timelike};
use crate::civil::{
    clock_text, date_text, modified_text, previous_day, yesterday_of, CivilDate, LocalTime,
    MAX_YEAR, MIN_YEAR,
};

verus! {

/// A point in time as seconds since the Unix epoch (negative before it)
/// and the nanoseconds past that second.
#[derive(Clone, Copy, Debug, PartialEq, Eq, Structural)]
pub struct Timestamp {
    pub secs: i64,
    pub nanos: u32,
}

/// A timestamp whose local time always lies within the calendar's range:
/// within about 250,000 years of 1970, with fewer than a second of
/// nanoseconds.
pub open spec fn timestamp_in_range(ts: Timestamp) -> bool {
    &&& ts.nanos < 1_000_000_000
    &&& -8_000_000_000_000 <= ts.secs <= 8_000_000_000_000
}

pub open spec fn unknown_text() -> Seq<char> {
    seq!['U', 'n', 'k', 'n', 'o', 'w', 'n']
}

/// `r` is the label of some valid local time of the calendar's range, seen
/// from some valid day `today`, which is known where `today_known` holds.
pub open spec fn local_time_label(r: Seq<char>, today_known: bool) -> bool {
    exists|t: LocalTime, today: Option<CivilDate>|
        t.wf() && t.date.in_range() && (today matches Some(d) ==> d.wf()) && (today_known
            ==> today is Some) && r == #[trigger] modified_text(t, today, yesterday_of(today))
}

/// Relies on chrono's `TimeZone::timestamp_opt` for `Local` (with
/// `LocalResult::single`): the local wall-clock time of a Unix timestamp,
/// read through the `Datelike` and `Timelike` getters. It is none exactly
/// where `DateTime::from_timestamp` fails, which it does not for fewer than a
/// second of nanoseconds and a time within chrono's range; the local date
/// then differs from the UTC one by at most a day. The time zone comes from
/// the machine, so of the fields only their validity is stated.
#[verifier::external_body]
fn local_time_at(secs: i64, nanos: u32) -> (r: Option<LocalTime>)
    ensures
        r matches Some(t) ==> t.wf(),
        nanos < 1_000_000_000 && -8_000_000_000_000 <= secs <= 8_000_000_000_000 ==> r is Some
            && r->0.date.in_range(),
{
    match chrono::Local.timestamp_opt(secs, nanos).single() {
        Some(t) => Some(
            LocalTime {
                date: CivilDate { year: t.year(), month: t.month(), day: t.day() },
                hour: t.hour(),
                minute: t.minute(),
            },
        ),
        None => None,
    }
}

/// Relies on chrono::NaiveDate::pred_opt (after `NaiveDate::from_ymd_opt`,
/// which accepts exactly the valid dates of chrono's range): the previous
/// day, none outside the range or before its first day.
#[verifier::external_body]
fn day_before(d: CivilDate) -> (r: Option<CivilDate>)
    requires
        d.wf(),
    ensures
        r == previous_day(d),
{
    let prev = match chrono::NaiveDate::from_ymd_opt(d.year, d.month, d.day) {
        Some(n) => n.pred_opt(),
        None => None,
    };
    match prev {
        Some(p) => Some(CivilDate { year: p.year(), month: p.month(), day: p.day() }),
        None => None,
    }
}

/// Relies on chrono::NaiveDateTime::format (after `NaiveDate::from_ymd_opt`
/// and `NaiveDate::and_hms_opt`, which accept every valid date of chrono's
/// range, hour and minute): `%H`, `%M`, `%d` and `%m` give two digits, and
/// `%Y` four digits for the years 0 to 9999, else a sign and at least four
/// digits; other characters stand as they are.
#[verifier::external_body]
fn format_local(t: LocalTime, pattern: &str) -> (r: String)
    requires
        t.wf(),
        t.date.in_range(),
        pattern@ == "%H:%M"@ || pattern@ == "%d/%m/%Y at %H:%M"@,
    ensures
        pattern@ == "%H:%M"@ ==> r@ == clock_text(t),
        pattern@ == "%d/%m/%Y at %H:%M"@ ==> r@ == date_text(t.date) + seq![' ', 'a', 't', ' ']
            + clock_text(t),
{
    let date = chrono::NaiveDate::from_ymd_opt(t.date.year, t.date.month, t.date.day).unwrap();
    date.and_hms_opt(t.hour, t.minute, 0).unwrap().format(pattern).to_string()
}

/// The label of a modification time `t`, where `today` is the local date now
/// (if known) and `yesterday` the day before it.
pub fn modified_label(t: LocalTime, today: Option<CivilDate>, yesterday: Option<CivilDate>) -> (r: String)
    requires
        t.wf(),
        t.date.in_range(),
    ensures
        r@ == modified_text(t, today, yesterday),
{
    proof {
        reveal_strlit("%H:%M");
        reveal_strlit("%d/%m/%Y at %H:%M");
        reveal_strlit("Today at ");
        reveal_strlit("Yesterday at ");
    }
    let is_today: bool = match today {
        Some(d) => d == t.date,
        None => false,
    };
    let is_yesterday: bool = match yesterday {
        Some(d) => d == t.date,
        None => false,
    };
    if is_today {
        let mut s = String::from_str("Today at ");
        s.append(format_local(t, "%H:%M").as_str());
        s
    } else if is_yesterday {
        let mut s = String::from_str("Yesterday at ");
        s.append(format_local(t, "%H:%M").as_str());
        s
    } else {
        format_local(t, "%d/%m/%Y at %H:%M")
    }
}

/// The label of a modification time, seen from the time `now`: "Unknown"
/// where none is known or it lies outside the calendar's range, else the
/// local time as `modified_label` writes it, today being the local date of
/// `now` where that lies within the range.
pub fn describe_modified(modified: Option<Timestamp>, now: Timestamp) -> (r: String)
    ensures
        modified is None ==> r@ == unknown_text(),
        r@ == unknown_text() || local_time_label(r@, false),
        modified matches Some(ts) && timestamp_in_range(ts) ==> local_time_label(
            r@,
            timestamp_in_range(now),
        ),
{
    proof {
        reveal_strlit("Unknown");
    }
    match modified {
        None => String::from_str("Unknown"),
        Some(ts) => match local_time_at(ts.secs, ts.nanos) {
            None => String::from_str("Unknown"),
            Some(t) => {
                if t.date.year < MIN_YEAR || t.date.year > MAX_YEAR {
                    String::from_str("Unknown")
                } else {
                    let today: Option<CivilDate> = match local_time_at(now.secs, now.nanos) {
                        Some(n) => Some(n.date),
                        None => None,
                    };
                    let yesterday: Option<CivilDate> = match today {
                        Some(d) => day_before(d),
                        None => None,
                    };
                    let r = modified_label(t, today, yesterday);
                    proof {
                        assert(yesterday == yesterday_of(today));
                        assert(today matches Some(d) ==> d.wf());
                        assert(timestamp_in_range(now) ==> today is Some);
                        assert(r@ == modified_text(t, today, yesterday_of(today)));
                        assert(local_time_label(r@, timestamp_in_range(now)));
                        assert(local_time_label(r@, false));
                    }
                    r
                }
            },
        },
    }
}

} // verus!
