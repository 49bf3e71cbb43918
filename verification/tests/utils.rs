use chrono::{DateTime, Datelike, FixedOffset, NaiveDateTime, TimeZone, Timelike};
use langkeeper::calendar::{days_back_to_last_monday, get_last_monday_date, LocalDateTime, MAX_DAY, MIN_DAY};
use langkeeper::report::weekly_report_window;

fn local(dt: NaiveDateTime) -> LocalDateTime {
    LocalDateTime {
        day: dt.date().num_days_from_ce(),
        hour: dt.hour(),
        minute: dt.minute(),
        second: dt.second(),
        nanosecond: dt.nanosecond(),
    }
}

fn wall_clock(rfc3339: &str) -> NaiveDateTime {
    DateTime::parse_from_rfc3339(rfc3339).unwrap().naive_local()
}

#[test]
fn test_get_last_monday_date_on_monday_at_nine() {
    let mock_date = wall_clock("2021-01-04T09:00:00+01:00");
    let last_monday = get_last_monday_date(local(mock_date), 0);

    assert_eq!(last_monday, local(mock_date));
}

#[test]
fn test_get_last_monday_date_on_monday_at_nine_and_one() {
    let mock_date = wall_clock("2021-01-04T09:00:01+01:00");
    let last_monday = get_last_monday_date(local(mock_date), 0);

    let expected_date = mock_date.date().and_hms_opt(9, 0, 0).unwrap();

    assert_eq!(last_monday, local(expected_date));
}

#[test]
fn test_get_last_monday_date_on_monday_at_eight() {
    let mock_date = wall_clock("2021-01-04T08:00:00+01:00");
    let last_monday = get_last_monday_date(local(mock_date), 0);

    let expected_date = wall_clock("2020-12-28T09:00:00+01:00");

    assert_eq!(last_monday, local(expected_date));
}

#[test]
fn last_monday_from_a_sunday_evening() {
    let now = wall_clock("2021-01-10T23:59:59+00:00");
    assert_eq!(get_last_monday_date(local(now), 0), local(wall_clock("2021-01-04T09:00:00+00:00")));
}

#[test]
fn last_monday_from_a_wednesday_morning() {
    let now = wall_clock("2021-01-06T02:00:00+00:00");
    assert_eq!(get_last_monday_date(local(now), 0), local(wall_clock("2021-01-04T09:00:00+00:00")));
}

#[test]
fn last_monday_is_a_monday_at_nine_and_not_later_than_now() {
    let mut now = wall_clock("2023-02-25T17:31:12+00:00");
    let mut previous = get_last_monday_date(local(now), 0);
    for _ in 0..200 {
        let monday = get_last_monday_date(local(now), 0);
        assert_eq!(get_last_monday_date(monday, 0), monday);
        assert!(monday.day >= previous.day);
        previous = monday;
        let as_naive = chrono::NaiveDate::from_num_days_from_ce_opt(monday.day)
            .unwrap()
            .and_hms_opt(monday.hour, monday.minute, monday.second)
            .unwrap();
        assert_eq!(as_naive.weekday(), chrono::Weekday::Mon);
        assert_eq!((monday.hour, monday.minute, monday.second, monday.nanosecond), (9, 0, 0, 0));
        assert!(as_naive <= now);
        assert!(now < as_naive + chrono::Duration::days(7));
        now = now + chrono::Duration::minutes(97);
    }
}

#[test]
fn day_range_matches_chrono() {
    assert_eq!(chrono::NaiveDate::MIN.num_days_from_ce(), MIN_DAY);
    assert_eq!(chrono::NaiveDate::MAX.num_days_from_ce(), MAX_DAY);
}

#[test]
fn report_window_spans_seven_days() {
    let monday = local(wall_clock("2021-01-04T09:00:00+00:00"));
    let (start, end) = weekly_report_window(monday);
    assert_eq!(start, monday);
    assert_eq!(end, local(wall_clock("2021-01-11T09:00:00+00:00")));
}

#[test]
fn days_back_by_weekday() {
    assert_eq!(days_back_to_last_monday(local(wall_clock("2021-01-04T08:59:59+00:00"))), 7);
    assert_eq!(days_back_to_last_monday(local(wall_clock("2021-01-04T09:00:00+00:00"))), 0);
    assert_eq!(days_back_to_last_monday(local(wall_clock("2021-01-05T00:00:00+00:00"))), 1);
    assert_eq!(days_back_to_last_monday(local(wall_clock("2021-01-10T12:00:00+00:00"))), 6);
}

#[test]
fn daylight_saving_change_moves_the_boundary_date() {
    // Monday 00:30 in summer time; a week earlier the zone was an hour behind, so going back
    // seven days on the time line lands on Sunday 23:30 local time.
    let now = local(wall_clock("2021-04-05T00:30:00+02:00"));
    assert_eq!(get_last_monday_date(now, -3600), local(wall_clock("2021-03-28T09:00:00+00:00")));
    // Later in the day the same change keeps the date.
    let now = local(wall_clock("2021-04-05T10:30:00+02:00"));
    assert_eq!(get_last_monday_date(now, -3600), local(wall_clock("2021-04-05T09:00:00+00:00")));
    // Going back over the autumn change moves the clock forward past midnight.
    let now = local(wall_clock("2021-11-01T08:30:00+01:00"));
    assert_eq!(get_last_monday_date(now, 3600), local(wall_clock("2021-10-25T09:00:00+00:00")));
    let now = local(wall_clock("2021-11-07T23:30:00+01:00"));
    assert_eq!(get_last_monday_date(now, 3600), local(wall_clock("2021-11-02T09:00:00+00:00")));
}

#[test]
fn boundary_matches_chrono_local_arithmetic() {
    // Time line arithmetic in a zone whose offset is fixed gives the wall-clock answer.
    let zone = FixedOffset::east_opt(3600).unwrap();
    let now = zone.with_ymd_and_hms(2021, 1, 4, 8, 0, 0).unwrap();
    let days = days_back_to_last_monday(local(now.naive_local()));
    let earlier = now - chrono::Duration::days(days.into());
    let expected = earlier.date_naive().and_hms_opt(9, 0, 0).unwrap();
    assert_eq!(get_last_monday_date(local(now.naive_local()), 0), local(expected));
}
