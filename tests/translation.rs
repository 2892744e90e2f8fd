use clip_translator::config::{AppConfig, PlatformType};
use clip_translator::error::TranslateError;
use clip_translator::json::JsonValue;
use clip_translator::lang::Lang;
use clip_translator::request::RequestPayload;
use clip_translator::translation::{Delivery, TranslationJob};

fn local_body(content: &str) -> JsonValue {
    JsonValue::Object(vec![(
        "message".to_string(),
        JsonValue::Object(vec![("content".to_string(), JsonValue::Str(content.to_string()))]),
    )])
}

fn job() -> TranslationJob {
    let config = AppConfig { api_key: "secret".to_string(), ..AppConfig::default() };
    TranslationJob::start(&config, "これは本です", Lang::Zh, Lang::Ja).0
}

#[test]
fn start_builds_request() {
    let config = AppConfig { api_key: "secret".to_string(), ..AppConfig::default() };
    let (job, out) = TranslationJob::start(&config, "これは本です", Lang::Zh, Lang::Ja);
    assert_eq!(out.url, "http://localhost:11434/api/chat");
    assert_eq!(out.authorization, "Bearer secret");
    assert_eq!(job.model, "qwen3:1.7b");
    assert!(matches!(out.payload, RequestPayload::Chat(_)));
}

#[test]
fn success_yields_one_matching_row() {
    let j = job();
    let pending = j
        .on_delivery(Delivery::Replied { status: 200, body: Some(local_body("<think>\n\n</think>\n\n这是一本书")) })
        .unwrap();
    assert_eq!(pending.translation, "这是一本书");
    assert_eq!(pending.row.source_text, "これは本です");
    assert_eq!(pending.row.translated_text, "这是一本书");
    assert_eq!(pending.row.source_lang, "ja");
    assert_eq!(pending.row.target_lang, "zh");
    assert_eq!(pending.row.id.len(), 36);
    assert!(pending.row.created_at.ends_with("+00:00"));
    assert_eq!(j.on_saved(pending, Ok(())).unwrap(), "这是一本书");
}

#[test]
fn transport_failure_yields_no_row() {
    let j = job();
    match j.on_delivery(Delivery::Failed("connection refused".to_string())) {
        Err(TranslateError::Transport(msg)) => assert_eq!(msg, "connection refused"),
        _ => panic!("expected a transport error"),
    }
    assert!(matches!(
        j.on_delivery(Delivery::Replied { status: 500, body: Some(local_body("x")) }),
        Err(TranslateError::HttpStatus(500))
    ));
    assert!(matches!(
        j.on_delivery(Delivery::Replied { status: 199, body: None }),
        Err(TranslateError::HttpStatus(199))
    ));
}

#[test]
fn undecodable_or_wrong_shape_is_parse_error() {
    let j = job();
    assert!(matches!(
        j.on_delivery(Delivery::Replied { status: 200, body: None }),
        Err(TranslateError::Parse(PlatformType::OLLama))
    ));
    let wrong = JsonValue::Object(vec![("result".to_string(), JsonValue::Str("x".to_string()))]);
    assert!(matches!(
        j.on_delivery(Delivery::Replied { status: 299, body: Some(wrong) }),
        Err(TranslateError::Parse(PlatformType::OLLama))
    ));
}

#[test]
fn failed_save_is_reported() {
    let j = job();
    let pending = j.on_delivery(Delivery::Replied { status: 201, body: Some(local_body("ok")) }).unwrap();
    match j.on_saved(pending, Err("database is locked".to_string())) {
        Err(TranslateError::Persistence(msg)) => assert_eq!(msg, "database is locked"),
        _ => panic!("expected a persistence error"),
    }
}
