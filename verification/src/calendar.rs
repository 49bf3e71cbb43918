//! Local calendar arithmetic: the "last Monday, 09:00" boundary of the weekly report.

use chrono::Datelike;
use vstd::prelude::*;

verus! {

/// Day number of the earliest date chrono can hold (days since 0001-01-01, which is day 1).
pub const MIN_DAY: i32 = -95746129;

/// Day number of the latest date chrono can hold.
pub const MAX_DAY: i32 = 95745399;

/// A wall-clock date and time in the local time zone.
///
/// The date is the number of days from the common era as chrono counts them:
/// January 1 of year 1 is day 1, and it is a Monday.
#[derive(Clone, Copy, Debug, PartialEq, Eq)]
pub struct LocalDateTime {
    pub day: i32,
    pub hour: u32,
    pub minute: u32,
    pub second: u32,
    pub nanosecond: u32,
}

impl LocalDateTime {
    /// The fields describe a time of day and a date in chrono's range.
    pub open spec fn wf(self) -> bool {
        &&& MIN_DAY <= self.day <= MAX_DAY
        &&& self.hour < 24
        &&& self.minute < 60
        &&& self.second < 60
        &&& self.nanosecond < 2_000_000_000
    }

    /// Nanoseconds since midnight (a leap second counts past the end of its second).
    pub open spec fn nanos_of_day(self) -> int {
        ((self.hour * 60 + self.minute) * 60 + self.second) * 1_000_000_000 + self.nanosecond
    }

    /// Position on the local time line, in nanoseconds from the start of day 0.
    pub open spec fn instant(self) -> int {
        self.day * 86_400_000_000_000 + self.nanos_of_day()
    }
}

/// Days since the last Monday: 0 on a Monday, 6 on a Sunday.
pub open spec fn weekday_from_monday(day: int) -> int {
    (day - 1) % 7
}

/// How many days lie between `now` and the Monday whose 09:00 is the latest one not after `now`.
pub open spec fn days_back_to_monday(now: LocalDateTime) -> int {
    let w = weekday_from_monday(now.day as int);
    if w == 0 && now.hour < 9 { 7 } else { w }
}

/// 09:00:00 of the given day.
pub open spec fn nine_oclock(day: int) -> LocalDateTime {
    LocalDateTime { day: day as i32, hour: 9, minute: 0, second: 0, nanosecond: 0 }
}

/// The largest difference, in seconds, between two UTC offsets that chrono can hold.
pub const MAX_OFFSET_CHANGE: i32 = 172_798;

/// Seconds since midnight, leaving out the fraction of a second.
pub open spec fn seconds_of_day(at: LocalDateTime) -> int {
    (at.hour * 60 + at.minute) * 60 + at.second
}

/// The local date of the instant `days_back_to_monday(now)` days before `now`, when the zone's
/// UTC offset at that instant exceeds its offset at `now` by `offset_change` seconds: whole
/// days move the date back, and the change of offset moves the clock, which can cross
/// midnight.
pub open spec fn boundary_day(now: LocalDateTime, offset_change: int) -> int {
    now.day - days_back_to_monday(now) + (seconds_of_day(now) + offset_change) / 86_400
}

/// The report boundary that [`get_last_monday_date`] returns for `now`.
pub open spec fn last_monday_nine(now: LocalDateTime, offset_change: int) -> LocalDateTime {
    nine_oclock(boundary_day(now, offset_change))
}

/// Days since the Monday of the week of `day` (chrono `NaiveDate::from_num_days_from_ce_opt`,
/// `Datelike::weekday`, `Weekday::num_days_from_monday`).
///
/// Claims that chrono numbers days so that day 1 (0001-01-01 of the proleptic Gregorian
/// calendar) is a Monday, as its documentation states.
#[verifier::external_body]
fn day_weekday_from_monday(day: i32) -> (w: u32)
    requires
        MIN_DAY <= day <= MAX_DAY,
    ensures
        w as int == weekday_from_monday(day as int),
{
    chrono::NaiveDate::from_num_days_from_ce_opt(day).unwrap().weekday().num_days_from_monday()
}

/// How many days to go back from `now` to reach the Monday of the report week: the days
/// since Monday, or a whole week on a Monday before 09:00.
pub fn days_back_to_last_monday(now: LocalDateTime) -> (days: u32)
    requires
        now.wf(),
    ensures
        days == days_back_to_monday(now),
        days <= 7,
{
    let days_since_monday = day_weekday_from_monday(now.day);
    if days_since_monday == 0 && now.hour < 9 {
        7
    } else {
        days_since_monday
    }
}

/// The start of the current report week: 09:00 of the local date reached by going back
/// from `now` to the last Monday (a whole week on a Monday before 09:00).
///
/// The days are counted on the time line, so a daylight-saving change in between moves the
/// clock: `offset_change` is how many seconds the zone's UTC offset at that earlier instant
/// exceeds its offset at `now` (0 when no change lies in between).
pub fn get_last_monday_date(now: LocalDateTime, offset_change: i32) -> (monday: LocalDateTime)
    requires
        now.wf(),
        -MAX_OFFSET_CHANGE <= offset_change <= MAX_OFFSET_CHANGE,
        MIN_DAY <= boundary_day(now, offset_change as int) <= MAX_DAY,
    ensures
        monday == last_monday_nine(now, offset_change as int),
{
    let days_back = days_back_to_last_monday(now);
    let clock: i64 = ((now.hour as i64) * 60 + now.minute as i64) * 60 + now.second as i64
        + offset_change as i64;
    let day_shift: i64 = if clock >= 0 {
        clock / 86_400
    } else {
        -((-clock + 86_399) / 86_400)
    };
    assert(day_shift == (seconds_of_day(now) + offset_change) / 86_400) by {
        if clock < 0 {
            let q = (-clock + 86_399) / 86_400;
            assert(86_400 * q <= -clock + 86_399 < 86_400 * q + 86_400);
            assert(86_400 * (-q) <= clock < 86_400 * (-q) + 86_400);
            vstd::arithmetic::div_mod::lemma_fundamental_div_mod(clock as int, 86_400);
        }
    }
    LocalDateTime {
        day: (now.day as i64 - days_back as i64 + day_shift) as i32,
        hour: 9,
        minute: 0,
        second: 0,
        nanosecond: 0,
    }
}

/// Law: when the UTC offset is the same at both ends, the boundary is a Monday at 09:00:00,
/// it is not later than `now`, and the next Monday 09:00 after it is later than `now`; so it
/// is the latest Monday 09:00 not after `now`. (A leap second just before 09:00 on a Monday is
/// left out: it ends past the boundary.)
pub proof fn lemma_last_monday_is_latest_boundary(now: LocalDateTime)
    requires
        now.wf(),
        now.nanosecond < 1_000_000_000,
        MIN_DAY <= now.day - days_back_to_monday(now),
    ensures
        weekday_from_monday(last_monday_nine(now, 0).day as int) == 0,
        last_monday_nine(now, 0).hour == 9,
        last_monday_nine(now, 0).minute == 0,
        last_monday_nine(now, 0).second == 0,
        last_monday_nine(now, 0).nanosecond == 0,
        last_monday_nine(now, 0).instant() <= now.instant(),
        now.instant() < last_monday_nine(now, 0).instant() + 7 * 86_400_000_000_000,
{
    let k = days_back_to_monday(now);
    let d = now.day as int;
    assert(0 <= k <= 7);
    assert(0 <= seconds_of_day(now) < 86_400);
    assert(seconds_of_day(now) / 86_400 == 0);
    assert(last_monday_nine(now, 0).day == d - k);
    assert((d - k - 1) % 7 == 0) by {
        vstd::arithmetic::div_mod::lemma_fundamental_div_mod(d - 1, 7);
        vstd::arithmetic::div_mod::lemma_mod_multiples_basic((d - 1) / 7 - (if k == 7 { 1int } else { 0int }), 7);
    }
    assert(0 <= now.nanos_of_day() < 86_400_000_000_000);
}
proof fn lemma_mondays_a_week_apart(a: int, b: int)
    requires
        weekday_from_monday(a) == 0,
        weekday_from_monday(b) == 0,
        a > b,
    ensures
        a - b >= 7,
{
    vstd::arithmetic::div_mod::lemma_fundamental_div_mod(a - 1, 7);
    vstd::arithmetic::div_mod::lemma_fundamental_div_mod(b - 1, 7);
    let qa = (a - 1) / 7;
    let qb = (b - 1) / 7;
    assert(a - b == 7 * (qa - qb));
}

/// Law: at a fixed UTC offset, the boundary of a boundary is itself: a Monday 09:00:00 is the
/// start of its own report week.
pub proof fn lemma_last_monday_of_boundary_is_itself(now: LocalDateTime)
    requires
        now.wf(),
        now.nanosecond < 1_000_000_000,
        MIN_DAY <= now.day - days_back_to_monday(now),
    ensures
        last_monday_nine(now, 0).wf(),
        last_monday_nine(last_monday_nine(now, 0), 0) == last_monday_nine(now, 0),
{
    lemma_last_monday_is_latest_boundary(now);
    let m = last_monday_nine(now, 0);
    assert(days_back_to_monday(m) == 0);
    assert(seconds_of_day(m) == 32_400);
    assert((seconds_of_day(m) + 0) / 86_400 == 0);
}

/// Law: at a fixed UTC offset, the boundary never moves backwards as time moves forwards, and
/// it moves only when a Monday 09:00:00 is passed: when the boundaries of `now1` and `now2`
/// differ, the later one lies after `now1` (and, being a boundary, not after `now2`).
pub proof fn lemma_last_monday_is_monotone(now1: LocalDateTime, now2: LocalDateTime)
    requires
        now1.wf(),
        now2.wf(),
        now1.nanosecond < 1_000_000_000,
        now2.nanosecond < 1_000_000_000,
        MIN_DAY <= now1.day - days_back_to_monday(now1),
        MIN_DAY <= now2.day - days_back_to_monday(now2),
        now1.instant() <= now2.instant(),
    ensures
        last_monday_nine(now1, 0).instant() <= last_monday_nine(now2, 0).instant(),
        last_monday_nine(now1, 0) != last_monday_nine(now2, 0) ==> now1.instant()
            < last_monday_nine(now2, 0).instant() <= now2.instant(),
{
    lemma_last_monday_is_latest_boundary(now1);
    lemma_last_monday_is_latest_boundary(now2);
    let m1 = last_monday_nine(now1, 0);
    let m2 = last_monday_nine(now2, 0);
    let d1 = m1.day as int;
    let d2 = m2.day as int;
    if d1 > d2 {
        lemma_mondays_a_week_apart(d1, d2);
        assert(false);
    }
    if d1 < d2 {
        lemma_mondays_a_week_apart(d2, d1);
    }
}

} // verus!
