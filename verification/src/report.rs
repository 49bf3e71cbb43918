//! The emails the service sends: the weekly report and the account verification.

use crate::calendar::{LocalDateTime, MAX_DAY};
use crate::render::{
    render_verification_email, render_weekly_report, verification_email_html, weekly_report_html,
};
use crate::resources::Language;
use crate::stats::{get_weekly_stats, rows_in_range, stats_of_rows};
use vstd::prelude::*;

verus! {

/// When the weekly report job runs (cron syntax with seconds): Tuesdays at 09:00.
pub const WEEKLY_REPORT_SCHEDULE: &'static str = "0 0 9 * * 2 *";

/// The subject of the weekly report email.
pub const WEEKLY_REPORT_SUBJECT: &'static str = "Your weekly Langkeeper report";

/// The subject of the account verification email.
pub const VERIFICATION_SUBJECT: &'static str = "Verify your account at Langkeeper";

/// The report week that starts at `last_monday`: a record counts when it was made strictly
/// after the start and strictly before the end, seven days later.
pub fn weekly_report_window(last_monday: LocalDateTime) -> (window: (LocalDateTime, LocalDateTime))
    requires
        last_monday.wf(),
        last_monday.day + 7 <= MAX_DAY,
    ensures
        window.0 == last_monday,
        window.1 == (LocalDateTime { day: (last_monday.day + 7) as i32, ..last_monday }),
        window.1.instant() == last_monday.instant() + 7 * 86_400_000_000_000,
{
    (last_monday, LocalDateTime { day: last_monday.day + 7, ..last_monday })
}

/// The weekly report email of the user named `user_name`, from the (language, seconds) rows
/// recorded in the week: nothing is sent when there are no rows.
pub fn weekly_report_email(user_name: &str, rows: &Vec<(Language, i64)>) -> (email: Option<String>)
    requires
        rows_in_range(rows@),
    ensures
        rows@.len() == 0 <==> email is None,
        email matches Some(html) ==> html@ == weekly_report_html(user_name@, stats_of_rows(rows@)),
{
    match get_weekly_stats(rows) {
        Some(stats) => Some(render_weekly_report(user_name, &stats)),
        None => None,
    }
}

/// The account verification email: a greeting and a link to `app_url/users/verify/token`.
pub fn verification_email(user_name: &str, app_url: &str, token: &str) -> (html: String)
    ensures
        html@ == verification_email_html(user_name@, app_url@ + "/users/verify/"@ + token@),
{
    let url = crate::render::verification_url(app_url, token);
    render_verification_email(user_name, url.as_str())
}

} // verus!
