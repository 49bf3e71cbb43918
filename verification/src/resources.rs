//! The records that the service stores and answers with.

use vstd::prelude::*;

verus! {

/// A language as the service knows it.
#[derive(Clone, Debug)]
pub struct Language {
    pub id: i32,
    pub name: String,
    pub extension: String,
}

/// Abstract value of a [`Language`].
pub struct LanguageView {
    pub id: i32,
    pub name: Seq<char>,
    pub extension: Seq<char>,
}

impl View for Language {
    type V = LanguageView;

    open spec fn view(&self) -> LanguageView {
        LanguageView { id: self.id, name: self.name@, extension: self.extension@ }
    }
}

/// A language to be inserted.
#[derive(Clone, Debug)]
pub struct NewLanguage {
    pub name: String,
    pub extension: String,
}

/// The body of a ping: the extension of the file being edited.
#[derive(Clone, Debug)]
pub struct PingRequest {
    pub extension: String,
}

/// The answer to a ping: the language and the time recorded for it, split into
/// hours, minutes and seconds.
#[derive(Clone, Debug)]
pub struct PingResponse {
    pub user_id: i32,
    pub language_id: i32,
    pub language_name: String,
    pub language_extension: String,
    pub hours: i64,
    pub minutes: i64,
    pub seconds: i64,
}

/// Time spent on one language, split into hours, minutes and seconds.
#[derive(Clone, Debug)]
pub struct LanguageStats {
    pub language_id: i32,
    pub language_name: String,
    pub language_extension: String,
    pub hours: i64,
    pub minutes: i64,
    pub seconds: i64,
}

/// Abstract value of a [`LanguageStats`].
pub struct LanguageStatsView {
    pub language_id: i32,
    pub language_name: Seq<char>,
    pub language_extension: Seq<char>,
    pub hours: i64,
    pub minutes: i64,
    pub seconds: i64,
}

impl View for LanguageStats {
    type V = LanguageStatsView;

    open spec fn view(&self) -> LanguageStatsView {
        LanguageStatsView {
            language_id: self.language_id,
            language_name: self.language_name@,
            language_extension: self.language_extension@,
            hours: self.hours,
            minutes: self.minutes,
            seconds: self.seconds,
        }
    }
}

/// The views of a sequence of statistics.
pub open spec fn stats_views(stats: Seq<LanguageStats>) -> Seq<LanguageStatsView> {
    stats.map_values(|s: LanguageStats| s@)
}

/// A registration request.
#[derive(Clone, Debug)]
pub struct NewUser {
    pub name: String,
    pub email: String,
    pub password: String,
}

/// A login request.
#[derive(Clone, Debug)]
pub struct LoginUser {
    pub email: String,
    pub password: String,
}

/// A stored user, with the fields the service reads.
#[derive(Clone, Debug)]
pub struct User {
    pub id: i32,
    pub name: String,
    pub email: String,
    pub password: String,
    pub verified: i32,
}

} // verus!
