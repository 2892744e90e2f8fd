use clip_translator::config::{AppConfig, PlatformType};
use clip_translator::lang::Lang;
use clip_translator::request::{build_request, build_user_prompt, RequestPayload};

fn config(platform: PlatformType, model: &str) -> AppConfig {
    AppConfig {
        platform,
        model_name: model.to_string(),
        prompt: "To {{to}}: {{text}}".to_string(),
        system_prompt: "Input is in {{to}}.".to_string(),
        ..AppConfig::default()
    }
}

#[test]
fn system_prompt_names_the_source_language() {
    let c = config(PlatformType::OLLama, "llama3");
    match build_request("hello", Lang::Zh, Lang::En, &c) {
        RequestPayload::Chat(chat) => {
            assert_eq!(chat.model, "llama3");
            assert_eq!(chat.stream, Some(false));
            assert_eq!(chat.messages.len(), 2);
            assert_eq!(chat.messages[0].role, "system");
            assert_eq!(chat.messages[0].content, "Input is in english.");
            assert_eq!(chat.messages[1].role, "user");
            assert_eq!(chat.messages[1].content, "To chinese: hello");
        }
        RequestPayload::MTran(_) => panic!("expected a chat request"),
    }
}

#[test]
fn thinking_model_gets_directive() {
    let c = config(PlatformType::ChatGPT, "qwen3:8b");
    match build_request("hi", Lang::Ja, Lang::Auto, &c) {
        RequestPayload::Chat(chat) => {
            assert_eq!(chat.messages[1].content, "To japanese: hi /no_think");
            assert_eq!(chat.messages[0].content, "Input is in auto.");
        }
        RequestPayload::MTran(_) => panic!("expected a chat request"),
    }
}

#[test]
fn other_model_prompt_unmodified() {
    assert_eq!(build_user_prompt("{{text}} -> {{to}}", "x", Lang::Ko, "gpt-4o"), "x -> korean");
    assert_eq!(build_user_prompt("{{text}} -> {{to}}", "x", Lang::Ko, "qwen3"), "x -> korean /no_think");
}

#[test]
fn server_payload_carries_raw_text() {
    let c = config(PlatformType::MTranServer, "qwen3");
    let text = "{{to}} stays {{text}} as typed";
    match build_request(text, Lang::Zh, Lang::Ja, &c) {
        RequestPayload::MTran(m) => {
            assert_eq!(m.text, text);
            assert_eq!(m.from, "ja");
            assert_eq!(m.to, "zh");
        }
        RequestPayload::Chat(_) => panic!("expected a translation-server request"),
    }
}

#[test]
fn default_config_builds_local_chat_request() {
    let c = AppConfig::default();
    assert_eq!(c.api_url, "http://localhost:11434/api/chat");
    assert_eq!(c.model_name, "qwen3:1.7b");
    match build_request("text", Lang::En, Lang::Zh, &c) {
        RequestPayload::Chat(chat) => {
            assert_eq!(
                chat.messages[1].content,
                "Translate to english (output translation only):\n\ntext /no_think"
            );
            assert!(chat.messages[0].content.starts_with("You are a professional chinese native translator who needs to fluently translate text into chinese."));
        }
        RequestPayload::MTran(_) => panic!("expected a chat request"),
    }
}
