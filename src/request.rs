use vstd::prelude::*;
use crate::config::{AppConfig, PlatformType};
use crate::lang::{code_of, full_name_of, Lang};
use crate::text::{contains, occurs_in, replace, replace_all};

verus! {

/// Placeholder for a language's display name in the prompt templates.
pub const TO_PLACEHOLDER: &'static str = "{{to}}";

/// Placeholder for the text to translate in the user prompt template.
pub const TEXT_PLACEHOLDER: &'static str = "{{text}}";

/// A model id holding this belongs to a family that reasons before it
/// answers unless told not to.
pub const THINKING_MARKER: &'static str = "qwen3";

/// Appended to the user prompt of a thinking model to switch reasoning off.
pub const NO_THINK_DIRECTIVE: &'static str = " /no_think";

/// One role-tagged message of a chat-completion request.
#[derive(Clone, Debug)]
pub struct ChatMessage {
    pub role: String,
    pub content: String,
}

/// The body of a chat-completion request.
#[derive(Clone, Debug)]
pub struct ChatRequest {
    pub model: String,
    pub messages: Vec<ChatMessage>,
    pub stream: Option<bool>,
}

/// The body of a request to a dedicated translation server: two language
/// codes and the text as it was given.
#[derive(Clone, Debug)]
pub struct MTranServerRequest {
    pub from: String,
    pub to: String,
    pub text: String,
}

/// The body sent to the backend; its shape follows the platform.
#[derive(Clone, Debug)]
pub enum RequestPayload {
    Chat(ChatRequest),
    MTran(MTranServerRequest),
}

/// The model id names a thinking model.
pub open spec fn is_thinking_model(model: Seq<char>) -> bool {
    occurs_in(model, THINKING_MARKER@)
}

/// The system prompt: `{{to}}` stands for the display name of the source
/// language, the language the input is written in.
pub open spec fn system_prompt_of(template: Seq<char>, source: Lang) -> Seq<char> {
    replace_all(template, TO_PLACEHOLDER@, full_name_of(source))
}

/// The user prompt template with `{{text}}` and then `{{to}}` filled in,
/// the latter with the display name of the target language.
pub open spec fn filled_prompt_of(template: Seq<char>, text: Seq<char>, target: Lang) -> Seq<
    char,
> {
    replace_all(replace_all(template, TEXT_PLACEHOLDER@, text), TO_PLACEHOLDER@, full_name_of(target))
}

/// The user prompt: the filled template, followed by the no-reasoning
/// directive for a thinking model.
pub open spec fn user_prompt_of(template: Seq<char>, text: Seq<char>, target: Lang, model: Seq<
    char,
>) -> Seq<char> {
    if is_thinking_model(model) {
        filled_prompt_of(template, text, target) + NO_THINK_DIRECTIVE@
    } else {
        filled_prompt_of(template, text, target)
    }
}

/// `p` is the request that `config` calls for, to translate `text` from
/// `source` into `target`.
pub open spec fn is_request_for(
    p: RequestPayload,
    config: AppConfig,
    text: Seq<char>,
    target: Lang,
    source: Lang,
) -> bool {
    match p {
        RequestPayload::Chat(c) => {
            &&& config.platform != PlatformType::MTranServer
            &&& c.model@ == config.model_name@
            &&& c.stream == Some(false)
            &&& c.messages@.len() == 2
            &&& c.messages@[0].role@ == "system"@
            &&& c.messages@[0].content@ == system_prompt_of(config.system_prompt@, source)
            &&& c.messages@[1].role@ == "user"@
            &&& c.messages@[1].content@ == user_prompt_of(
                config.prompt@,
                text,
                target,
                config.model_name@,
            )
        },
        RequestPayload::MTran(m) => {
            &&& config.platform == PlatformType::MTranServer
            &&& m.from@ == code_of(source)
            &&& m.to@ == code_of(target)
            &&& m.text@ == text
        },
    }
}

/// Whether `model` names a thinking model.
pub fn thinking_model(model: &str) -> (r: bool)
    ensures
        r == is_thinking_model(model@),
{
    contains(model, THINKING_MARKER)
}

/// The system prompt for input written in `source`.
pub fn build_system_prompt(template: &str, source: Lang) -> (r: String)
    ensures
        r@ == system_prompt_of(template@, source),
{
    replace(template, TO_PLACEHOLDER, source.to_full_name())
}

/// The user prompt asking for `text` in `target`, with the no-reasoning
/// directive appended for a thinking `model`.
pub fn build_user_prompt(template: &str, text: &str, target: Lang, model: &str) -> (r: String)
    ensures
        r@ == user_prompt_of(template@, text@, target, model@),
{
    let with_text = replace(template, TEXT_PLACEHOLDER, text);
    let mut prompt = replace(with_text.as_str(), TO_PLACEHOLDER, target.to_full_name());
    if thinking_model(model) {
        prompt.append(NO_THINK_DIRECTIVE);
    }
    prompt
}

/// The request that `config` calls for, to translate `text` from `source`
/// into `target`. A chat-completion platform gets the model id, a system and
/// a user message, and streaming switched off; the translation server gets
/// the two language codes and the text untouched by any template.
pub fn build_request(text: &str, target: Lang, source: Lang, config: &AppConfig) -> (r:
    RequestPayload)
    ensures
        is_request_for(r, *config, text@, target, source),
{
    match config.platform {
        PlatformType::MTranServer => RequestPayload::MTran(
            MTranServerRequest {
                from: String::from_str(source.code()),
                to: String::from_str(target.code()),
                text: String::from_str(text),
            },
        ),
        _ => {
            let system = build_system_prompt(config.system_prompt.as_str(), source);
            let user = build_user_prompt(
                config.prompt.as_str(),
                text,
                target,
                config.model_name.as_str(),
            );
            let mut messages: Vec<ChatMessage> = Vec::new();
            messages.push(ChatMessage { role: String::from_str("system"), content: system });
            messages.push(ChatMessage { role: String::from_str("user"), content: user });
            RequestPayload::Chat(
                ChatRequest {
                    model: config.model_name.clone(),
                    messages,
                    stream: Some(false),
                },
            )
        },
    }
}

/// On the local-model-server platform, the system message fills `{{to}}`
/// with the source language's display name, and the user message fills it
/// with the target language's.
pub proof fn system_prompt_names_source(
    p: RequestPayload,
    config: AppConfig,
    text: Seq<char>,
    target: Lang,
    source: Lang,
)
    requires
        config.platform == PlatformType::OLLama,
        is_request_for(p, config, text, target, source),
    ensures
        p is Chat,
        p->Chat_0.messages@[0].content@ == replace_all(
            config.system_prompt@,
            TO_PLACEHOLDER@,
            full_name_of(source),
        ),
        p->Chat_0.messages@[1].content@ == user_prompt_of(
            config.prompt@,
            text,
            target,
            config.model_name@,
        ),
        filled_prompt_of(config.prompt@, text, target) == replace_all(
            replace_all(config.prompt@, TEXT_PLACEHOLDER@, text),
            TO_PLACEHOLDER@,
            full_name_of(target),
        ),
{
}

/// On a chat-completion platform, the user message is the filled template
/// followed by the no-reasoning directive when the model id holds the
/// thinking marker, and the filled template alone when it does not.
pub proof fn user_prompt_directive(
    p: RequestPayload,
    config: AppConfig,
    text: Seq<char>,
    target: Lang,
    source: Lang,
)
    requires
        config.platform != PlatformType::MTranServer,
        is_request_for(p, config, text, target, source),
    ensures
        p is Chat,
        ({
            let content = p->Chat_0.messages@[1].content@;
            let filled = filled_prompt_of(config.prompt@, text, target);
            &&& occurs_in(config.model_name@, THINKING_MARKER@) ==> content.len() == filled.len()
                + NO_THINK_DIRECTIVE@.len() && content.subrange(0, filled.len() as int) == filled
                && content.subrange(filled.len() as int, content.len() as int)
                == NO_THINK_DIRECTIVE@
            &&& !occurs_in(config.model_name@, THINKING_MARKER@) ==> content == filled
        }),
{
    let content = p->Chat_0.messages@[1].content@;
    let filled = filled_prompt_of(config.prompt@, text, target);
    if occurs_in(config.model_name@, THINKING_MARKER@) {
        assert(content.subrange(0, filled.len() as int) =~= filled);
        assert(content.subrange(filled.len() as int, content.len() as int) =~= NO_THINK_DIRECTIVE@);
    }
}

/// On the translation-server platform, the request carries the input text
/// exactly as given, whatever the prompt templates hold.
pub proof fn server_text_verbatim(
    p: RequestPayload,
    config: AppConfig,
    text: Seq<char>,
    target: Lang,
    source: Lang,
)
    requires
        config.platform == PlatformType::MTranServer,
        is_request_for(p, config, text, target, source),
    ensures
        p is MTran,
        p->MTran_0.text@ == text,
        p->MTran_0.from@ == code_of(source),
        p->MTran_0.to@ == code_of(target),
{
}

} // verus!
