//! The HTML the service produces: the statistics table rows, the weekly report email and the
//! account verification email, with text escaped as maud escapes it.

use crate::resources::{stats_views, LanguageStats, LanguageStatsView};
use vstd::prelude::*;

verus! {

/// HTML escaping of one character, as maud escapes text.
pub open spec fn escape_char(c: char) -> Seq<char> {
    if c == '&' {
        seq!['&', 'a', 'm', 'p', ';']
    } else if c == '<' {
        seq!['&', 'l', 't', ';']
    } else if c == '>' {
        seq!['&', 'g', 't', ';']
    } else if c == '"' {
        seq!['&', 'q', 'u', 'o', 't', ';']
    } else {
        seq![c]
    }
}

/// HTML escaping of a text: `&`, `<`, `>` and `"` become entities, all else is kept.
pub open spec fn html_escape(s: Seq<char>) -> Seq<char>
    decreases s.len(),
{
    if s.len() == 0 {
        Seq::empty()
    } else {
        html_escape(s.drop_last()) + escape_char(s.last())
    }
}

/// Law: escaped text holds no `<`, `>` or `"`, so text put into a page can neither open nor
/// close an element nor end an attribute value.
pub proof fn lemma_escaped_text_has_no_markup(s: Seq<char>)
    ensures
        forall|i: int| 0 <= i < html_escape(s).len() ==> {
            let c = #[trigger] html_escape(s)[i];
            c != '<' && c != '>' && c != '"'
        },
    decreases s.len(),
{
    if s.len() > 0 {
        lemma_escaped_text_has_no_markup(s.drop_last());
        let head = html_escape(s.drop_last());
        let tail = escape_char(s.last());
        assert forall|i: int| 0 <= i < html_escape(s).len() implies {
            let c = #[trigger] html_escape(s)[i];
            c != '<' && c != '>' && c != '"'
        } by {
            if i < head.len() {
                assert(html_escape(s)[i] == head[i]);
            } else {
                assert(html_escape(s)[i] == tail[i - head.len()]);
            }
        }
    }
}

/// The decimal digit for `d` in `0..10`.
pub open spec fn digit_char(d: int) -> char {
    if d == 0 { '0' } else if d == 1 { '1' } else if d == 2 { '2' } else if d == 3 { '3' }
    else if d == 4 { '4' } else if d == 5 { '5' } else if d == 6 { '6' } else if d == 7 { '7' }
    else if d == 8 { '8' } else { '9' }
}

/// The decimal digits of a natural number, without leading zeros ("0" for zero).
pub open spec fn decimal_digits(n: nat) -> Seq<char>
    decreases n,
{
    if n < 10 {
        seq![digit_char(n as int)]
    } else {
        decimal_digits(n / 10) + seq![digit_char((n % 10) as int)]
    }
}

/// The decimal text of an integer, with a leading `-` when it is negative.
pub open spec fn decimal(n: int) -> Seq<char> {
    if n < 0 {
        seq!['-'] + decimal_digits((-n) as nat)
    } else {
        decimal_digits(n as nat)
    }
}

/// maud's `Render` for text: appends the text HTML-escaped.
#[verifier::external_body]
fn render_text(buffer: &mut String, text: &str)
    ensures
        final(buffer)@ == old(buffer)@ + html_escape(text@),
{
    maud::Render::render_to(text, buffer)
}

/// maud's `Render` for `i64`: appends its decimal text.
#[verifier::external_body]
fn render_i64(buffer: &mut String, n: i64)
    ensures
        final(buffer)@ == old(buffer)@ + decimal(n as int),
{
    maud::Render::render_to(&n, buffer)
}

/// "`h`h `m`m `s`s": hours, minutes and seconds of a statistics line.
pub open spec fn hms_html(s: LanguageStatsView) -> Seq<char> {
    decimal(s.hours as int) + "h "@ + decimal(s.minutes as int) + "m "@ + decimal(s.seconds as int)
        + "s"@
}

/// Appends the time of a statistics line.
fn push_hms(buffer: &mut String, stat: &LanguageStats)
    ensures
        final(buffer)@ == old(buffer)@ + hms_html(stat@),
{
    render_i64(buffer, stat.hours);
    buffer.append("h ");
    render_i64(buffer, stat.minutes);
    buffer.append("m ");
    render_i64(buffer, stat.seconds);
    buffer.append("s");
}

/// One row of the statistics table: name, extension and time in three cells.
pub open spec fn stats_row_html(s: LanguageStatsView) -> Seq<char> {
    "<tr><td>"@ + html_escape(s.language_name) + "</td><td>"@ + html_escape(s.language_extension)
        + "</td><td>"@ + hms_html(s) + "</td></tr>"@
}

/// One row of the weekly report: "name (.extension)" and the time.
pub open spec fn report_row_html(s: LanguageStatsView) -> Seq<char> {
    "<tr><td>"@ + html_escape(s.language_name) + " (."@ + html_escape(s.language_extension)
        + ")</td><td>"@ + hms_html(s) + "</td></tr>"@
}

/// The rows of the statistics table, one per line, in order.
pub open spec fn stats_rows_html(stats: Seq<LanguageStatsView>) -> Seq<char>
    decreases stats.len(),
{
    if stats.len() == 0 {
        Seq::empty()
    } else {
        stats_rows_html(stats.drop_last()) + stats_row_html(stats.last())
    }
}

/// The rows of the weekly report table, one per line, in order.
pub open spec fn report_rows_html(stats: Seq<LanguageStatsView>) -> Seq<char>
    decreases stats.len(),
{
    if stats.len() == 0 {
        Seq::empty()
    } else {
        report_rows_html(stats.drop_last()) + report_row_html(stats.last())
    }
}

/// Law: the rows of two lists one after the other are the rows of the first list followed by
/// the rows of the second.
pub proof fn lemma_report_rows_concat(a: Seq<LanguageStatsView>, b: Seq<LanguageStatsView>)
    ensures
        report_rows_html(a + b) == report_rows_html(a) + report_rows_html(b),
    decreases b.len(),
{
    if b.len() == 0 {
        assert(a + b =~= a);
    } else {
        lemma_report_rows_concat(a, b.drop_last());
        assert((a + b).drop_last() =~= a + b.drop_last());
        assert((a + b).last() == b.last());
    }
}

/// Law: a single line gives exactly its own row.
pub proof fn lemma_report_rows_single(line: LanguageStatsView)
    ensures
        report_rows_html(seq![line]) == report_row_html(line),
{
    let one = seq![line];
    assert(one.len() == 1);
    assert(one.drop_last() =~= Seq::<LanguageStatsView>::empty());
    assert(one.last() == line);
    assert(report_rows_html(Seq::<LanguageStatsView>::empty()) == Seq::<char>::empty());
    assert(report_rows_html(one) == report_rows_html(one.drop_last()) + report_row_html(one.last()));
    assert(Seq::<char>::empty() + report_row_html(line) =~= report_row_html(line));
}

/// Law: the k-th row of the report table is rendered from the k-th statistics line: the
/// rows are those of the lines before it, its own row, then those of the lines after it.
pub proof fn lemma_report_row_k(stats: Seq<LanguageStatsView>, k: int)
    requires
        0 <= k < stats.len(),
    ensures
        report_rows_html(stats) == report_rows_html(stats.take(k)) + report_row_html(stats[k])
            + report_rows_html(stats.skip(k + 1)),
{
    let rest = stats.skip(k);
    assert(stats =~= stats.take(k) + rest);
    lemma_report_rows_concat(stats.take(k), rest);
    assert(rest =~= seq![stats[k]] + stats.skip(k + 1));
    lemma_report_rows_concat(seq![stats[k]], stats.skip(k + 1));
    lemma_report_rows_single(stats[k]);
}

/// Law: the rows of two lists one after the other are the rows of the first list followed by
/// the rows of the second.
pub proof fn lemma_stats_rows_concat(a: Seq<LanguageStatsView>, b: Seq<LanguageStatsView>)
    ensures
        stats_rows_html(a + b) == stats_rows_html(a) + stats_rows_html(b),
    decreases b.len(),
{
    if b.len() == 0 {
        assert(a + b =~= a);
    } else {
        lemma_stats_rows_concat(a, b.drop_last());
        assert((a + b).drop_last() =~= a + b.drop_last());
        assert((a + b).last() == b.last());
    }
}

/// Law: a single line gives exactly its own row.
pub proof fn lemma_stats_rows_single(line: LanguageStatsView)
    ensures
        stats_rows_html(seq![line]) == stats_row_html(line),
{
    let one = seq![line];
    assert(one.len() == 1);
    assert(one.drop_last() =~= Seq::<LanguageStatsView>::empty());
    assert(one.last() == line);
    assert(stats_rows_html(Seq::<LanguageStatsView>::empty()) == Seq::<char>::empty());
    assert(stats_rows_html(one) == stats_rows_html(one.drop_last()) + stats_row_html(one.last()));
    assert(Seq::<char>::empty() + stats_row_html(line) =~= stats_row_html(line));
}

/// Law: the k-th row of the statistics table is rendered from the k-th statistics line.
pub proof fn lemma_stats_row_k(stats: Seq<LanguageStatsView>, k: int)
    requires
        0 <= k < stats.len(),
    ensures
        stats_rows_html(stats) == stats_rows_html(stats.take(k)) + stats_row_html(stats[k])
            + stats_rows_html(stats.skip(k + 1)),
{
    let rest = stats.skip(k);
    assert(stats =~= stats.take(k) + rest);
    lemma_stats_rows_concat(stats.take(k), rest);
    assert(rest =~= seq![stats[k]] + stats.skip(k + 1));
    lemma_stats_rows_concat(seq![stats[k]], stats.skip(k + 1));
    lemma_stats_rows_single(stats[k]);
}

/// The body of the statistics table that the htmx page swaps in.
pub open spec fn stats_table_html(stats: Seq<LanguageStatsView>) -> Seq<char> {
    "<tbody>"@ + stats_rows_html(stats) + "</tbody>"@
}

/// Renders the body of the statistics table: one row per statistics line, in order.
pub fn render_stats_table(stats: &Vec<LanguageStats>) -> (html: String)
    ensures
        html@ == stats_table_html(stats_views(stats@)),
{
    let mut html = String::from_str("<tbody>");
    let mut i: usize = 0;
    while i < stats.len()
        invariant
            i <= stats.len(),
            html@ == "<tbody>"@ + stats_rows_html(stats_views(stats@.take(i as int))),
        decreases stats.len() - i,
    {
        let stat = &stats[i];
        let ghost prev = html@;
        html.append("<tr><td>");
        render_text(&mut html, stat.language_name.as_str());
        html.append("</td><td>");
        render_text(&mut html, stat.language_extension.as_str());
        html.append("</td><td>");
        push_hms(&mut html, stat);
        html.append("</td></tr>");
        proof {
            let before = stats_views(stats@.take(i as int));
            let after = stats_views(stats@.take(i + 1));
            assert(after.drop_last() =~= before);
            assert(after.last() == stat@);
            assert(html@ =~= prev + stats_row_html(stat@));
            assert(stats_rows_html(after) == stats_rows_html(before) + stats_row_html(stat@));
        }
        i += 1;
    }
    html.append("</tbody>");
    proof {
        assert(stats@.take(stats.len() as int) =~= stats@);
    }
    html
}

/// The weekly report email for the user named `user_name`.
pub open spec fn weekly_report_html(user_name: Seq<char>, stats: Seq<LanguageStatsView>) -> Seq<char> {
    "<h1>Hello, "@ + html_escape(user_name) + "!</h1><p>Here is your weekly language report:</p>"@
        + "<table style=\"border-spacing: 15px;\"><tr><th>Language</th><th>Time spent</th></tr>"@
        + report_rows_html(stats) + "</table>"@
}

/// Renders the weekly report email: a greeting and a table with one row per line, in order.
pub fn render_weekly_report(user_name: &str, stats: &Vec<LanguageStats>) -> (html: String)
    ensures
        html@ == weekly_report_html(user_name@, stats_views(stats@)),
{
    let mut html = String::from_str("<h1>Hello, ");
    render_text(&mut html, user_name);
    html.append("!</h1><p>Here is your weekly language report:</p>");
    html.append("<table style=\"border-spacing: 15px;\"><tr><th>Language</th><th>Time spent</th></tr>");
    let ghost head = html@;
    let mut i: usize = 0;
    while i < stats.len()
        invariant
            i <= stats.len(),
            html@ == head + report_rows_html(stats_views(stats@.take(i as int))),
        decreases stats.len() - i,
    {
        let stat = &stats[i];
        let ghost prev = html@;
        html.append("<tr><td>");
        render_text(&mut html, stat.language_name.as_str());
        html.append(" (.");
        render_text(&mut html, stat.language_extension.as_str());
        html.append(")</td><td>");
        push_hms(&mut html, stat);
        html.append("</td></tr>");
        proof {
            let before = stats_views(stats@.take(i as int));
            let after = stats_views(stats@.take(i + 1));
            assert(after.drop_last() =~= before);
            assert(after.last() == stat@);
            assert(html@ =~= prev + report_row_html(stat@));
            assert(report_rows_html(after) == report_rows_html(before) + report_row_html(stat@));
        }
        i += 1;
    }
    html.append("</table>");
    proof {
        assert(stats@.take(stats.len() as int) =~= stats@);
    }
    html
}

/// The link that verifies an account: the application's address, `/users/verify/` and the
/// token.
pub fn verification_url(app_url: &str, token: &str) -> (url: String)
    ensures
        url@ == app_url@ + "/users/verify/"@ + token@,
{
    let mut url = String::from_str(app_url);
    url.append("/users/verify/");
    url.append(token);
    url
}

/// The account verification email for the user named `user_name`, linking to `url`.
pub open spec fn verification_email_html(user_name: Seq<char>, url: Seq<char>) -> Seq<char> {
    "<p>Hi "@ + html_escape(user_name) + "!</p>"@
        + "<p>Please verify your email by clicking on the following link: <a href=\""@
        + html_escape(url) + "\">Verify!</a></p>"@
}

/// Renders the account verification email.
pub fn render_verification_email(user_name: &str, url: &str) -> (html: String)
    ensures
        html@ == verification_email_html(user_name@, url@),
{
    let mut html = String::from_str("<p>Hi ");
    render_text(&mut html, user_name);
    html.append("!</p>");
    html.append("<p>Please verify your email by clicking on the following link: <a href=\"");
    render_text(&mut html, url);
    html.append("\">Verify!</a></p>");
    html
}

} // verus!
