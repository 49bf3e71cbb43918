use langkeeper::calendar::LocalDateTime;
use langkeeper::logger::{log_file_line, needs_rotation, rotated_file_name, LogLevel};
use langkeeper::render::{render_stats_table, render_verification_email, render_weekly_report, verification_url};
use langkeeper::report::{verification_email, weekly_report_email, VERIFICATION_SUBJECT, WEEKLY_REPORT_SCHEDULE, WEEKLY_REPORT_SUBJECT};
use langkeeper::resources::{Language, LanguageStats};
use langkeeper::seeders::seed;

fn stat(name: &str, extension: &str, hours: i64, minutes: i64, seconds: i64) -> LanguageStats {
    LanguageStats {
        language_id: 1,
        language_name: name.to_string(),
        language_extension: extension.to_string(),
        hours,
        minutes,
        seconds,
    }
}

#[test]
fn stats_table_rows() {
    assert_eq!(render_stats_table(&Vec::new()), "<tbody></tbody>");
    let stats = vec![stat("Rust", "rs", 1, 2, 3), stat("C++ <&\">", "cpp", 0, -4, 59)];
    assert_eq!(
        render_stats_table(&stats),
        "<tbody><tr><td>Rust</td><td>rs</td><td>1h 2m 3s</td></tr>\
         <tr><td>C++ &lt;&amp;&quot;&gt;</td><td>cpp</td><td>0h -4m 59s</td></tr></tbody>"
    );
}

#[test]
fn weekly_report_body() {
    let stats = vec![stat("Rust", "rs", 12, 0, 7)];
    assert_eq!(
        render_weekly_report("Ann & Bob", &stats),
        "<h1>Hello, Ann &amp; Bob!</h1><p>Here is your weekly language report:</p>\
         <table style=\"border-spacing: 15px;\"><tr><th>Language</th><th>Time spent</th></tr>\
         <tr><td>Rust (.rs)</td><td>12h 0m 7s</td></tr></table>"
    );
}

#[test]
fn weekly_report_email_only_with_rows() {
    assert!(weekly_report_email("Ann", &Vec::new()).is_none());
    let rows = vec![(Language { id: 1, name: "Go".to_string(), extension: "go".to_string() }, 3600)];
    assert_eq!(
        weekly_report_email("Ann", &rows).unwrap(),
        "<h1>Hello, Ann!</h1><p>Here is your weekly language report:</p>\
         <table style=\"border-spacing: 15px;\"><tr><th>Language</th><th>Time spent</th></tr>\
         <tr><td>Go (.go)</td><td>1h 0m 0s</td></tr></table>"
    );
    assert_eq!(WEEKLY_REPORT_SUBJECT, "Your weekly Langkeeper report");
    assert_eq!(WEEKLY_REPORT_SCHEDULE, "0 0 9 * * 2 *");
}

#[test]
fn verification_email_body() {
    assert_eq!(verification_url("https://x.io", "tok"), "https://x.io/users/verify/tok");
    assert_eq!(
        render_verification_email("Ann", "https://x.io/a?b=\"c\""),
        "<p>Hi Ann!</p><p>Please verify your email by clicking on the following link: \
         <a href=\"https://x.io/a?b=&quot;c&quot;\">Verify!</a></p>"
    );
    assert_eq!(
        verification_email("Ann", "https://x.io", "t.k"),
        "<p>Hi Ann!</p><p>Please verify your email by clicking on the following link: \
         <a href=\"https://x.io/users/verify/t.k\">Verify!</a></p>"
    );
    assert_eq!(VERIFICATION_SUBJECT, "Verify your account at Langkeeper");
}

#[test]
fn log_headers_and_rotation() {
    assert_eq!(LogLevel::Info.header(), "[INFO]");
    assert_eq!(LogLevel::Warn.header(), "[WARN]");
    assert_eq!(LogLevel::Error.header(), "[ERROR]");
    assert_eq!(LogLevel::Debug.header(), "[DEBUG]");
    assert!(!needs_rotation(1_000_000));
    assert!(needs_rotation(1_000_001));
    assert_eq!(rotated_file_name("app.log"), "app.log.1");
}

#[test]
fn log_file_line_format() {
    let at = LocalDateTime { day: 737794, hour: 9, minute: 5, second: 7, nanosecond: 123 };
    assert_eq!(
        log_file_line(&at, LogLevel::Warn, "disk almost full"),
        "[2021-01-04 09:05:07] [WARN]: disk almost full"
    );
}

#[test]
fn seeded_languages() {
    let languages = seed();
    let pairs: Vec<(String, String)> =
        languages.into_iter().map(|l| (l.name, l.extension)).collect();
    let expected = [
        ("Rust", "rs"),
        ("JavaScript", "js"),
        ("TypeScript", "ts"),
        ("Python", "py"),
        ("Java", "java"),
        ("C#", "cs"),
        ("C++", "cpp"),
        ("C", "c"),
        ("Go", "go"),
        ("PHP", "php"),
        ("Ruby", "rb"),
        ("Swift", "swift"),
        ("Kotlin", "kt"),
        ("Dart", "dart"),
        ("Vue", "vue"),
        ("React", "jsx"),
        ("Json", "json"),
        ("Html", "html"),
        ("Css", "css"),
        ("Sass", "sass"),
        ("Scss", "scss"),
        ("Sh", "sh"),
        ("Sql", "sql"),
        ("Yaml", "yaml"),
        ("Toml", "toml"),
        ("Xml", "xml"),
        ("Markdown", "md"),
    ];
    assert_eq!(pairs.len(), expected.len());
    for (got, want) in pairs.iter().zip(expected.iter()) {
        assert_eq!((got.0.as_str(), got.1.as_str()), *want);
    }
    for (i, a) in pairs.iter().enumerate() {
        for b in &pairs[i + 1..] {
            assert_ne!(a.1, b.1);
        }
    }
}
