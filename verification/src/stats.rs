//! Splitting recorded seconds into hours, minutes and seconds, and the per-language
//! statistics built from them.

use crate::resources::{
    stats_views, Language, LanguageStats, LanguageStatsView, LanguageView, PingResponse,
};
use vstd::prelude::*;

verus! {

/// The largest number of seconds a chrono `TimeDelta` holds (`i64::MAX` milliseconds).
pub const MAX_DELTA_SECONDS: i64 = 9_223_372_036_854_775;

/// Integer division rounding toward zero, as Rust's `/` on signed integers.
pub open spec fn trunc_div(a: int, b: int) -> int
    recommends
        b > 0,
{
    if a >= 0 {
        a / b
    } else {
        -((-a) / b)
    }
}

/// Remainder of [`trunc_div`], as Rust's `%` on signed integers: it has the sign of `a`.
pub open spec fn trunc_rem(a: int, b: int) -> int
    recommends
        b > 0,
{
    a - b * trunc_div(a, b)
}

/// A number of seconds that a chrono `TimeDelta` can hold.
pub open spec fn delta_seconds_in_range(total: int) -> bool {
    -MAX_DELTA_SECONDS <= total <= MAX_DELTA_SECONDS
}

/// Whole hours, then minutes and seconds past the hour and minute, of `total` seconds.
pub open spec fn duration_parts(total: int) -> (int, int, int) {
    (trunc_div(total, 3600), trunc_rem(trunc_div(total, 60), 60), trunc_rem(total, 60))
}

/// chrono `TimeDelta::seconds`, then `num_hours`, `num_minutes` and `num_seconds` of it.
///
/// Claims what chrono's source shows: a delta made of whole seconds reports that many
/// seconds, and whole hours and minutes are the seconds divided by 3600 and by 60, rounding
/// toward zero. `TimeDelta::seconds` panics outside the range that `requires` admits.
#[verifier::external_body]
fn delta_whole_units(total: i64) -> (units: (i64, i64, i64))
    requires
        delta_seconds_in_range(total as int),
    ensures
        units.0 == trunc_div(total as int, 3600),
        units.1 == trunc_div(total as int, 60),
        units.2 == total,
{
    let delta = chrono::Duration::seconds(total);
    (delta.num_hours(), delta.num_minutes(), delta.num_seconds())
}

/// `a % 60` with the sign of `a`, written with non-negative operands only.
fn rem_sixty(a: i64) -> (r: i64)
    requires
        a > i64::MIN,
    ensures
        r == trunc_rem(a as int, 60),
{
    if a >= 0 {
        a % 60
    } else {
        -((-a) % 60)
    }
}

/// Hours, minutes past the hour and seconds past the minute of `total` seconds.
pub fn duration_hms(total: i64) -> (hms: (i64, i64, i64))
    requires
        delta_seconds_in_range(total as int),
    ensures
        (hms.0 as int, hms.1 as int, hms.2 as int) == duration_parts(total as int),
        hms.0 * 3600 + hms.1 * 60 + hms.2 == total,
        -60 < hms.1 < 60,
        -60 < hms.2 < 60,
        total >= 0 ==> hms.0 >= 0 && hms.1 >= 0 && hms.2 >= 0,
        total <= 0 ==> hms.0 <= 0 && hms.1 <= 0 && hms.2 <= 0,
{
    let (hours, minutes, seconds) = delta_whole_units(total);
    proof {
        lemma_duration_parts_recombine(total as int);
    }
    (hours, rem_sixty(minutes), rem_sixty(seconds))
}

/// Law: the three parts add back up to the total, minutes and seconds stay below 60 in
/// size, and every part has the sign of the total.
pub proof fn lemma_duration_parts_recombine(total: int)
    ensures
        duration_parts(total).0 * 3600 + duration_parts(total).1 * 60 + duration_parts(total).2
            == total,
        -60 < duration_parts(total).1 < 60,
        -60 < duration_parts(total).2 < 60,
        total >= 0 ==> duration_parts(total).0 >= 0 && duration_parts(total).1 >= 0
            && duration_parts(total).2 >= 0,
        total <= 0 ==> duration_parts(total).0 <= 0 && duration_parts(total).1 <= 0
            && duration_parts(total).2 <= 0,
{
    let a = if total >= 0 { total } else { -total };
    assert(a / 60 / 60 == a / 3600) by {
        vstd::arithmetic::div_mod::lemma_div_denominator(a, 60, 60);
    }
    assert(a == 60 * (a / 60) + a % 60) by {
        vstd::arithmetic::div_mod::lemma_fundamental_div_mod(a, 60);
    }
    assert(a / 60 == 60 * (a / 60 / 60) + (a / 60) % 60) by {
        vstd::arithmetic::div_mod::lemma_fundamental_div_mod(a / 60, 60);
    }
    assert(a / 60 >= 0 && a / 3600 >= 0) by {
        vstd::arithmetic::div_mod::lemma_div_pos_is_pos(a, 60);
        vstd::arithmetic::div_mod::lemma_div_pos_is_pos(a, 3600);
    }
}

/// The statistics line for `seconds` spent on `language`.
pub open spec fn stats_of(language: LanguageView, seconds: int) -> LanguageStatsView {
    LanguageStatsView {
        language_id: language.id,
        language_name: language.name,
        language_extension: language.extension,
        hours: duration_parts(seconds).0 as i64,
        minutes: duration_parts(seconds).1 as i64,
        seconds: duration_parts(seconds).2 as i64,
    }
}

/// Builds the statistics line for `seconds` spent on `language`.
pub fn language_stats(language: &Language, seconds: i64) -> (stats: LanguageStats)
    requires
        delta_seconds_in_range(seconds as int),
    ensures
        stats@ == stats_of(language@, seconds as int),
        stats.hours * 3600 + stats.minutes * 60 + stats.seconds == seconds,
        -60 < stats.minutes < 60,
        -60 < stats.seconds < 60,
        seconds >= 0 ==> stats.hours >= 0 && stats.minutes >= 0 && stats.seconds >= 0,
        seconds <= 0 ==> stats.hours <= 0 && stats.minutes <= 0 && stats.seconds <= 0,
{
    let (hours, minutes, secs) = duration_hms(seconds);
    LanguageStats {
        language_id: language.id,
        language_name: language.name.clone(),
        language_extension: language.extension.clone(),
        hours,
        minutes,
        seconds: secs,
    }
}

/// Law: a statistics line reports the language it was made for, and its hours, minutes and
/// seconds add back up to the recorded seconds, with minutes and seconds below 60 in size
/// and every part of the sign of the recorded time; so the hours count every whole hour.
pub proof fn lemma_stats_line_adds_up(language: LanguageView, seconds: int)
    ensures
        stats_of(language, seconds).language_id == language.id,
        stats_of(language, seconds).language_name == language.name,
        stats_of(language, seconds).language_extension == language.extension,
        delta_seconds_in_range(seconds) ==> stats_of(language, seconds).hours * 3600
            + stats_of(language, seconds).minutes * 60 + stats_of(language, seconds).seconds
            == seconds,
        delta_seconds_in_range(seconds) ==> -60 < stats_of(language, seconds).minutes < 60,
        delta_seconds_in_range(seconds) ==> -60 < stats_of(language, seconds).seconds < 60,
        delta_seconds_in_range(seconds) && seconds >= 0 ==> stats_of(language, seconds).hours
            >= 0 && stats_of(language, seconds).minutes >= 0 && stats_of(language, seconds).seconds
            >= 0,
        delta_seconds_in_range(seconds) && seconds <= 0 ==> stats_of(language, seconds).hours
            <= 0 && stats_of(language, seconds).minutes <= 0 && stats_of(language, seconds).seconds
            <= 0,
{
    lemma_duration_parts_recombine(seconds);
    if delta_seconds_in_range(seconds) {
        let a = if seconds >= 0 { seconds } else { -seconds };
        vstd::arithmetic::div_mod::lemma_div_is_ordered(a, 9_223_372_036_854_775, 3600);
        vstd::arithmetic::div_mod::lemma_div_pos_is_pos(a, 3600);
    }
}

/// Law: the statistics of the rows are the rows' lines one for one, in the same order.
pub proof fn lemma_stats_rows_one_for_one(rows: Seq<(Language, i64)>)
    ensures
        stats_of_rows(rows).len() == rows.len(),
        forall|k: int| 0 <= k < rows.len() ==> #[trigger] stats_of_rows(rows)[k] == stats_of(
            rows[k].0@,
            rows[k].1 as int,
        ),
{
}

/// Every recorded time in `rows` fits a chrono `TimeDelta`.
pub open spec fn rows_in_range(rows: Seq<(Language, i64)>) -> bool {
    forall|i: int| 0 <= i < rows.len() ==> delta_seconds_in_range(#[trigger] rows[i].1 as int)
}

/// The statistics lines of `rows`, in the same order.
pub open spec fn stats_of_rows(rows: Seq<(Language, i64)>) -> Seq<LanguageStatsView> {
    rows.map_values(|r: (Language, i64)| stats_of(r.0@, r.1 as int))
}

/// Statistics for each (language, seconds) row, in the order of the rows.
pub fn stats_for_rows(rows: &Vec<(Language, i64)>) -> (stats: Vec<LanguageStats>)
    requires
        rows_in_range(rows@),
    ensures
        stats_views(stats@) == stats_of_rows(rows@),
{
    let mut stats: Vec<LanguageStats> = Vec::new();
    let mut i: usize = 0;
    while i < rows.len()
        invariant
            i <= rows.len(),
            rows_in_range(rows@),
            stats@.len() == i,
            stats_views(stats@) == stats_of_rows(rows@).take(i as int),
        decreases rows.len() - i,
    {
        let line = language_stats(&rows[i].0, rows[i].1);
        let ghost before = stats@;
        stats.push(line);
        proof {
            assert(stats@ == before.push(line));
            assert(stats_of_rows(rows@)[i as int] == stats_of(rows@[i as int].0@, rows@[i as int].1 as int));
            assert forall|j: int| 0 <= j < i + 1 implies #[trigger] stats_views(stats@)[j]
                == stats_of_rows(rows@).take(i + 1)[j] by {
                if j < i {
                    assert(stats_views(before)[j] == stats_of_rows(rows@).take(i as int)[j]);
                }
            }
            assert(stats_views(stats@) =~= stats_of_rows(rows@).take(i + 1));
        }
        i += 1;
    }
    proof {
        assert(stats_of_rows(rows@).take(rows.len() as int) =~= stats_of_rows(rows@));
    }
    stats
}

/// The weekly statistics of a user: `None` when no time was recorded in the week, else one
/// line per recorded row, in the order of the rows.
pub fn get_weekly_stats(rows: &Vec<(Language, i64)>) -> (stats: Option<Vec<LanguageStats>>)
    requires
        rows_in_range(rows@),
    ensures
        rows@.len() == 0 <==> stats is None,
        stats matches Some(v) ==> stats_views(v@) == stats_of_rows(rows@),
{
    if rows.len() == 0 {
        return None;
    }
    Some(stats_for_rows(rows))
}

/// The answer to a ping for `user_id` on `language`, reporting `seconds` recorded so far.
pub fn ping_response(user_id: i32, language: &Language, seconds: i64) -> (response: PingResponse)
    requires
        delta_seconds_in_range(seconds as int),
    ensures
        response.user_id == user_id,
        response.language_id == language.id,
        response.language_name@ == language.name@,
        response.language_extension@ == language.extension@,
        response.hours == duration_parts(seconds as int).0,
        response.minutes == duration_parts(seconds as int).1,
        response.seconds == duration_parts(seconds as int).2,
        response.hours * 3600 + response.minutes * 60 + response.seconds == seconds,
        -60 < response.minutes < 60,
        -60 < response.seconds < 60,
        seconds >= 0 ==> response.hours >= 0 && response.minutes >= 0 && response.seconds >= 0,
        seconds <= 0 ==> response.hours <= 0 && response.minutes <= 0 && response.seconds <= 0,
{
    let (hours, minutes, secs) = duration_hms(seconds);
    PingResponse {
        user_id,
        language_id: language.id,
        language_name: language.name.clone(),
        language_extension: language.extension.clone(),
        hours,
        minutes,
        seconds: secs,
    }
}

} // verus!
