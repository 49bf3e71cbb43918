//! The decisions of a ping: which language the ping counts for, and how the time recorded
//! for the user and that language changes.

use crate::resources::NewLanguage;
use vstd::prelude::*;

verus! {

/// The longest gap between two pings, in seconds, that still counts as continuous work
/// (15 minutes).
pub const MAX_PING_GAP_SECONDS: i64 = 900;

/// What a ping does to the record of a user's time on a language.
#[derive(Clone, Copy, Debug, PartialEq, Eq)]
pub enum PingUpdate {
    /// The last update is not in the past: nothing changes.
    Unchanged,
    /// The gap counts as work: the recorded time becomes `seconds` and the record is stamped
    /// with the time of the ping.
    Accumulate { seconds: i64 },
    /// The gap is too long to count: only the stamp moves to the time of the ping.
    Touch,
}

/// The change a ping makes, `elapsed` seconds after the record's last update, to a record
/// holding `stored_seconds`.
pub open spec fn ping_effect(elapsed: int, stored_seconds: int) -> PingUpdate {
    if elapsed <= 0 {
        PingUpdate::Unchanged
    } else if elapsed <= MAX_PING_GAP_SECONDS {
        PingUpdate::Accumulate { seconds: (stored_seconds + elapsed) as i64 }
    } else {
        PingUpdate::Touch
    }
}

/// The seconds a record holds after `update`.
pub open spec fn seconds_after(stored_seconds: int, update: PingUpdate) -> int {
    match update {
        PingUpdate::Accumulate { seconds } => seconds as int,
        _ => stored_seconds,
    }
}

/// Decides how a ping changes the record, `elapsed` seconds after its last update.
pub fn ping_update(elapsed: i64, stored_seconds: i64) -> (update: PingUpdate)
    requires
        1 <= elapsed <= MAX_PING_GAP_SECONDS ==> stored_seconds + elapsed <= i64::MAX,
    ensures
        update == ping_effect(elapsed as int, stored_seconds as int),
        (update == PingUpdate::Unchanged) <==> elapsed <= 0,
        elapsed > MAX_PING_GAP_SECONDS ==> update == PingUpdate::Touch,
        1 <= elapsed <= MAX_PING_GAP_SECONDS ==> update == (PingUpdate::Accumulate {
            seconds: (stored_seconds + elapsed) as i64,
        }),
{
    if elapsed <= 0 {
        PingUpdate::Unchanged
    } else if elapsed <= MAX_PING_GAP_SECONDS {
        PingUpdate::Accumulate { seconds: stored_seconds + elapsed }
    } else {
        PingUpdate::Touch
    }
}

/// Law: a ping never takes recorded time away, and adds at most the length of the
/// longest gap that counts.
pub proof fn lemma_ping_adds_at_most_one_gap(elapsed: int, stored_seconds: int)
    requires
        1 <= elapsed <= MAX_PING_GAP_SECONDS ==> stored_seconds + elapsed <= i64::MAX,
        i64::MIN <= stored_seconds,
    ensures
        stored_seconds <= seconds_after(stored_seconds, ping_effect(elapsed, stored_seconds)),
        seconds_after(stored_seconds, ping_effect(elapsed, stored_seconds)) <= stored_seconds
            + MAX_PING_GAP_SECONDS,
        seconds_after(stored_seconds, ping_effect(elapsed, stored_seconds)) == stored_seconds
            + if 1 <= elapsed <= MAX_PING_GAP_SECONDS { elapsed } else { 0 },
{
}

/// Law: a ping whose gap is zero or negative changes nothing; a gap of one second up to
/// fifteen minutes is added to the recorded time and moves the stamp; any longer gap moves
/// the stamp without adding time. So the stamp stays put exactly when the gap is not
/// positive, and every ping after a long pause starts a new run of counted time.
pub proof fn lemma_ping_update_by_gap(elapsed: int, stored_seconds: int)
    requires
        1 <= elapsed <= MAX_PING_GAP_SECONDS ==> stored_seconds + elapsed <= i64::MAX,
        i64::MIN <= stored_seconds,
    ensures
        (ping_effect(elapsed, stored_seconds) == PingUpdate::Unchanged) <==> elapsed <= 0,
        elapsed > MAX_PING_GAP_SECONDS ==> ping_effect(elapsed, stored_seconds) == PingUpdate::Touch,
        1 <= elapsed <= MAX_PING_GAP_SECONDS ==> ping_effect(elapsed, stored_seconds)
            == (PingUpdate::Accumulate { seconds: (stored_seconds + elapsed) as i64 }),
        1 <= elapsed <= MAX_PING_GAP_SECONDS ==> (stored_seconds + elapsed) as i64
            == stored_seconds + elapsed,
{
}

/// The language to create for a ping whose extension is unknown: `None` for an empty
/// extension (the ping is answered "no content"), else a language named after its extension.
pub fn language_to_create(extension: &str) -> (created: Option<NewLanguage>)
    ensures
        extension@.len() == 0 <==> created is None,
        created matches Some(l) ==> l.name@ == extension@ && l.extension@ == extension@,
{
    if extension.is_empty() {
        None
    } else {
        Some(NewLanguage { name: String::from_str(extension), extension: String::from_str(extension) })
    }
}

} // verus!
