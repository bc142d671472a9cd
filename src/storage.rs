//! The decisions of the file-backed store: what loading yields when nothing
//! was saved, and how the log keeps only its most recent entries. Reading
//! and writing the files is left to the caller.
use crate::models::{AppSettings, ChatMessage};
use vstd::prelude::*;

verus! {

#[verifier::external_type_specification]
#[verifier::external_body]
pub struct ExJsonValue(serde_json::Value);

/// How many entries the log keeps.
pub const MAX_LOG_ENTRIES: usize = 1000;

/// The length of an entry id: a hyphenated UUID.
pub const LOG_ID_LENGTH: usize = 36;

/// One entry of the application log.
pub struct LogEntry {
    pub id: String,
    /// Milliseconds since the Unix epoch, UTC.
    pub timestamp_millis: i64,
    pub type_: String,
    pub message: String,
    pub details: Option<serde_json::Value>,
}

/// The last `n` items of `s` (all of them when there are fewer).
pub open spec fn last_n<T>(s: Seq<T>, n: nat) -> Seq<T> {
    if s.len() > n {
        s.subrange(s.len() - n, s.len() as int)
    } else {
        s
    }
}

/// Relies on uuid's `Uuid::new_v4` for a fresh random id, and on its
/// `Display`, which writes the hyphenated form of 36 characters. (It panics
/// only when the system has no random source.)
#[verifier::external_body]
fn new_log_id() -> (r: String)
    ensures
        r@.len() == LOG_ID_LENGTH,
{
    uuid::Uuid::new_v4().to_string()
}

/// Relies on chrono's `Utc::now`, read as milliseconds since the Unix epoch.
/// (It panics only when the system clock is set before the epoch.)
#[verifier::external_body]
fn now_millis() -> (r: i64) {
    chrono::Utc::now().timestamp_millis()
}

pub struct FileStorage;

impl FileStorage {
    /// The settings to use: those stored, or the defaults when there are
    /// none.
    pub fn load_settings(stored: Option<AppSettings>) -> (r: AppSettings)
        ensures
            stored is Some ==> r == stored->0,
            stored is None ==> r.tts_params.is_default() && !r.tts_enabled,
    {
        match stored {
            Some(s) => s,
            None => AppSettings::default_settings(),
        }
    }

    /// The chat history to show: the stored one, or an empty one.
    pub fn load_chat_history(stored: Option<Vec<ChatMessage>>) -> (r: Vec<ChatMessage>)
        ensures
            stored is Some ==> r == stored->0,
            stored is None ==> r@.len() == 0,
    {
        match stored {
            Some(m) => m,
            None => Vec::new(),
        }
    }

    /// Appends a new entry, stamped with a fresh id and the current time, to
    /// the stored log and keeps the most recent `MAX_LOG_ENTRIES` of them.
    pub fn add_log_entry(
        logs: Vec<LogEntry>,
        type_: String,
        message: String,
        details: Option<serde_json::Value>,
    ) -> (r: Vec<LogEntry>)
        ensures
            r@.len() > 0,
            r@ == last_n(logs@.push(r@.last()), MAX_LOG_ENTRIES as nat),
            r@.last().type_ == type_,
            r@.last().message == message,
            r@.last().details == details,
            r@.last().id@.len() == LOG_ID_LENGTH,
    {
        let entry = LogEntry {
            id: new_log_id(),
            timestamp_millis: now_millis(),
            type_,
            message,
            details,
        };
        let ghost before = logs@;
        let mut logs = logs;
        logs.push(entry);
        let ghost all = logs@;
        assert(all == before.push(all.last()));
        let n = logs.len();
        if n > MAX_LOG_ENTRIES {
            let kept = logs.split_off(n - MAX_LOG_ENTRIES);
            assert(kept@.last() == all.last());
            kept
        } else {
            logs
        }
    }
}

} // verus!
