use langkeeper::ping::{language_to_create, ping_update, PingUpdate};
use langkeeper::resources::Language;
use langkeeper::stats::{duration_hms, get_weekly_stats, language_stats, ping_response, stats_for_rows};

fn lang(id: i32, name: &str, extension: &str) -> Language {
    Language { id, name: name.to_string(), extension: extension.to_string() }
}

#[test]
fn duration_splits_into_hours_minutes_seconds() {
    assert_eq!(duration_hms(0), (0, 0, 0));
    assert_eq!(duration_hms(59), (0, 0, 59));
    assert_eq!(duration_hms(3661), (1, 1, 1));
    assert_eq!(duration_hms(90061), (25, 1, 1));
    assert_eq!(duration_hms(-3661), (-1, -1, -1));
    assert_eq!(duration_hms(9_223_372_036_854_775), (2_562_047_788_015, 12, 55));
}

#[test]
fn language_stats_line() {
    let stats = language_stats(&lang(3, "Rust", "rs"), 7384);
    assert_eq!(stats.language_id, 3);
    assert_eq!(stats.language_name, "Rust");
    assert_eq!(stats.language_extension, "rs");
    assert_eq!((stats.hours, stats.minutes, stats.seconds), (2, 3, 4));
}

#[test]
fn weekly_stats_empty_is_none() {
    assert!(get_weekly_stats(&Vec::new()).is_none());
}

#[test]
fn weekly_stats_keep_row_order() {
    let rows = vec![(lang(1, "Rust", "rs"), 7200), (lang(2, "Go", "go"), 61)];
    let stats = get_weekly_stats(&rows).unwrap();
    assert_eq!(stats.len(), 2);
    assert_eq!(stats[0].language_name, "Rust");
    assert_eq!((stats[0].hours, stats[0].minutes, stats[0].seconds), (2, 0, 0));
    assert_eq!(stats[1].language_name, "Go");
    assert_eq!((stats[1].hours, stats[1].minutes, stats[1].seconds), (0, 1, 1));
    assert_eq!(stats_for_rows(&rows).len(), 2);
}

#[test]
fn ping_response_reports_recorded_time() {
    let response = ping_response(9, &lang(4, "Rust", "rs"), 3725);
    assert_eq!(response.user_id, 9);
    assert_eq!(response.language_id, 4);
    assert_eq!(response.language_name, "Rust");
    assert_eq!(response.language_extension, "rs");
    assert_eq!((response.hours, response.minutes, response.seconds), (1, 2, 5));
}

#[test]
fn ping_update_by_gap() {
    assert_eq!(ping_update(-5, 100), PingUpdate::Unchanged);
    assert_eq!(ping_update(0, 100), PingUpdate::Unchanged);
    assert_eq!(ping_update(1, 100), PingUpdate::Accumulate { seconds: 101 });
    assert_eq!(ping_update(900, 100), PingUpdate::Accumulate { seconds: 1000 });
    assert_eq!(ping_update(901, 100), PingUpdate::Touch);
    assert_eq!(ping_update(i64::MAX, 100), PingUpdate::Touch);
}

#[test]
fn unknown_extension_creates_language_named_after_it() {
    assert!(language_to_create("").is_none());
    let created = language_to_create("zig").unwrap();
    assert_eq!(created.name, "zig");
    assert_eq!(created.extension, "zig");
}
