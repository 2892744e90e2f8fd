use clip_translator::clock::UtcTime;
use clip_translator::error::TranslateError;
use clip_translator::history::{history_window, records_from_rows, select_matches, StoredRow, TranslationRecord};
use clip_translator::lang::Lang;

fn rec(id: &str, source: &str, translated: &str) -> TranslationRecord {
    TranslationRecord {
        id: id.to_string(),
        source_text: source.to_string(),
        translated_text: translated.to_string(),
        source_lang: "en".to_string(),
        target_lang: "zh".to_string(),
        created_at: UtcTime { secs: 0, nanos: 0 },
    }
}

fn row(created_at: &str) -> StoredRow {
    StoredRow {
        id: "1".to_string(),
        source_text: "a".to_string(),
        translated_text: "b".to_string(),
        source_lang: "en".to_string(),
        target_lang: "ja".to_string(),
        created_at: created_at.to_string(),
    }
}

#[test]
fn window_defaults() {
    assert_eq!(history_window(None, None), (50, 0));
    assert_eq!(history_window(Some(1), Some(5)), (1, 5));
}

#[test]
fn created_record_fields() {
    let r = TranslationRecord::create("hello", "你好", Lang::En, Lang::Zh);
    assert_eq!(r.source_text, "hello");
    assert_eq!(r.translated_text, "你好");
    assert_eq!(r.source_lang, "en");
    assert_eq!(r.target_lang, "zh");
    assert_eq!(r.id.len(), 36);
    assert_eq!(&r.id[14..15], "4");
    assert!(r.created_at.secs > 1_600_000_000);
}

#[test]
fn fresh_ids_differ() {
    let a = TranslationRecord::create("x", "y", Lang::En, Lang::Ja);
    let b = TranslationRecord::create("x", "y", Lang::En, Lang::Ja);
    assert_ne!(a.id, b.id);
}

#[test]
fn row_round_trip() {
    let mut r = rec("id-1", "s", "t");
    r.created_at = UtcTime { secs: 1_431_648_000, nanos: 0 };
    let stored = r.to_row().unwrap();
    assert_eq!(stored.created_at, "2015-05-15T00:00:00+00:00");
    assert_eq!(stored.id, "id-1");
    let back = TranslationRecord::from_row(stored).unwrap();
    assert_eq!(back.created_at, r.created_at);
    assert_eq!(back.source_text, "s");
}

#[test]
fn row_with_offset_reads_as_utc() {
    let back = TranslationRecord::from_row(row("1996-12-19T16:39:57-08:00")).unwrap();
    assert_eq!(back.created_at, UtcTime { secs: 851_042_397, nanos: 0 });
    assert_eq!(back.target_lang, "ja");
}

#[test]
fn out_of_range_time_is_persistence_error() {
    let mut r = rec("id", "s", "t");
    r.created_at = UtcTime { secs: i64::MAX, nanos: 0 };
    assert!(matches!(r.to_row(), Err(TranslateError::Persistence(_))));
}

#[test]
fn bad_stored_time_is_persistence_error() {
    assert!(matches!(TranslationRecord::from_row(row("yesterday")), Err(TranslateError::Persistence(_))));
    let rows = vec![row("2024-01-01T00:00:00Z"), row("not a time")];
    assert!(matches!(records_from_rows(rows), Err(TranslateError::Persistence(_))));
}

#[test]
fn rows_map_in_order() {
    let mut second = row("2024-01-01T00:00:00.5Z");
    second.id = "2".to_string();
    let recs = records_from_rows(vec![row("2024-01-02T00:00:00Z"), second]).unwrap();
    assert_eq!(recs.len(), 2);
    assert_eq!(recs[0].id, "1");
    assert_eq!(recs[1].id, "2");
    assert_eq!(recs[1].created_at.nanos, 500_000_000);
    assert!(records_from_rows(vec![]).unwrap().is_empty());
}

#[test]
fn search_is_case_sensitive_substring() {
    let candidates = vec![rec("1", "Hello world", "你好"), rec("2", "hello", "x"), rec("3", "abc", "say hello")];
    let found = select_matches(candidates, "hello", None);
    let ids: Vec<&str> = found.iter().map(|r| r.id.as_str()).collect();
    assert_eq!(ids, vec!["2", "3"]);
}

#[test]
fn search_respects_limit() {
    let candidates = vec![rec("1", "ab", ""), rec("2", "ab", ""), rec("3", "ab", "")];
    assert_eq!(select_matches(candidates.clone(), "ab", Some(2)).len(), 2);
    assert_eq!(select_matches(candidates.clone(), "ab", Some(0)).len(), 0);
    assert_eq!(select_matches(candidates.clone(), "ab", Some(-1)).len(), 3);
    let top = select_matches(candidates, "ab", Some(1));
    assert_eq!(top[0].id, "1");
}

#[test]
fn search_default_limit_is_fifty() {
    let candidates: Vec<TranslationRecord> = (0..60).map(|i| rec(&i.to_string(), "q", "")).collect();
    assert_eq!(select_matches(candidates, "q", None).len(), 50);
}
