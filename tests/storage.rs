use lily_ui::models::{AppSettings, ChatMessage, TTSParameters};
use lily_ui::storage::{FileStorage, LogEntry};

fn entry(n: usize) -> LogEntry {
    LogEntry {
        id: format!("id-{}", n),
        timestamp_millis: n as i64,
        type_: "info".to_string(),
        message: format!("message {}", n),
        details: None,
    }
}

#[test]
fn missing_settings_load_as_defaults() {
    let s = FileStorage::load_settings(None);
    assert_eq!(s.tts_params.speaker, 0);
    assert_eq!(s.tts_params.sample_rate, 24000);
    assert_eq!(s.tts_params.model, "edge");
    assert_eq!(s.tts_params.lang, "en-US");
    assert!(!s.tts_enabled);
}

#[test]
fn stored_settings_load_unchanged() {
    let stored = AppSettings {
        tts_params: TTSParameters { speaker: 3, sample_rate: 16000, model: "m".to_string(), lang: "de-DE".to_string() },
        tts_enabled: true,
    };
    assert_eq!(FileStorage::load_settings(Some(stored.clone())), stored);
}

#[test]
fn missing_chat_history_loads_empty() {
    assert!(FileStorage::load_chat_history(None).is_empty());
    let m = ChatMessage { role: "user".to_string(), content: "hi".to_string(), timestamp: "t".to_string() };
    assert_eq!(FileStorage::load_chat_history(Some(vec![m.clone()])), vec![m]);
}

#[test]
fn log_entry_is_appended_with_a_fresh_id() {
    let logs = FileStorage::add_log_entry(vec![entry(0)], "error".to_string(), "boom".to_string(), None);
    assert_eq!(logs.len(), 2);
    assert_eq!(logs[0].id, "id-0");
    let last = &logs[1];
    assert_eq!(last.type_, "error");
    assert_eq!(last.message, "boom");
    assert_eq!(last.id.len(), 36);
    assert_eq!(last.id.matches('-').count(), 4);
    assert!(last.timestamp_millis > 0);
}

#[test]
fn log_keeps_the_last_thousand_entries() {
    let logs: Vec<LogEntry> = (0..1000).map(entry).collect();
    let logs = FileStorage::add_log_entry(logs, "info".to_string(), "newest".to_string(), None);
    assert_eq!(logs.len(), 1000);
    assert_eq!(logs[0].id, "id-1");
    assert_eq!(logs[998].id, "id-999");
    assert_eq!(logs[999].message, "newest");
}

#[test]
fn log_ids_differ() {
    let logs = FileStorage::add_log_entry(Vec::new(), "a".to_string(), "1".to_string(), None);
    let logs = FileStorage::add_log_entry(logs, "a".to_string(), "2".to_string(), None);
    assert_ne!(logs[0].id, logs[1].id);
}
