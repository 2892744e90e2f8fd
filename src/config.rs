use vstd::prelude::*;
use crate::error::TranslateError;

verus! {

/// The colour scheme of the window.
#[derive(Clone, Copy, Debug, PartialEq, Eq, Structural)]
pub enum ThemeType {
    Dark,
    Light,
}

/// The kind of backend that translations are sent to. `OLLama`, `DeepSeek`
/// and `ChatGPT` take chat-completion requests; `MTranServer` is a dedicated
/// translation server.
#[derive(Clone, Copy, Debug, PartialEq, Eq, Structural)]
pub enum PlatformType {
    OLLama,
    DeepSeek,
    ChatGPT,
    MTranServer,
}

/// The backend configuration. `prompt` holds the placeholders `{{text}}` and
/// `{{to}}`; `system_prompt` holds `{{to}}`.
#[derive(Clone, Debug)]
pub struct AppConfig {
    pub api_key: String,
    pub api_url: String,
    pub platform: PlatformType,
    pub model_name: String,
    pub theme: ThemeType,
    pub prompt: String,
    pub system_prompt: String,
}

pub const DEFAULT_API_KEY: &'static str = "key";

pub const DEFAULT_API_URL: &'static str = "http://localhost:11434/api/chat";

pub const DEFAULT_MODEL_NAME: &'static str = "qwen3:1.7b";

pub const DEFAULT_PROMPT: &'static str = "Translate to {{to}} (output translation only):\n\n{{text}}";

pub const DEFAULT_SYSTEM_PROMPT: &'static str = "You are a professional {{to}} native translator who needs to fluently translate text into {{to}}.\n\n## Translation Rules\n1. Output only the translated content, without explanations or additional content (such as \"Here's the translation:\" or \"Translation as follows:\")\n2. The returned translation must maintain exactly the same number of paragraphs and format as the original text\n3. For content that should not be translated (such as proper nouns, code, etc.), keep the original text.\n";

/// `c` is the configuration used when none has been stored yet.
pub open spec fn is_default_config(c: AppConfig) -> bool {
    &&& c.api_key@ == DEFAULT_API_KEY@
    &&& c.api_url@ == DEFAULT_API_URL@
    &&& c.platform == PlatformType::OLLama
    &&& c.model_name@ == DEFAULT_MODEL_NAME@
    &&& c.theme == ThemeType::Dark
    &&& c.prompt@ == DEFAULT_PROMPT@
    &&& c.system_prompt@ == DEFAULT_SYSTEM_PROMPT@
}

impl Default for AppConfig {
    fn default() -> (r: AppConfig)
        ensures
            is_default_config(r),
    {
        AppConfig {
            api_key: String::from_str(DEFAULT_API_KEY),
            api_url: String::from_str(DEFAULT_API_URL),
            platform: PlatformType::OLLama,
            model_name: String::from_str(DEFAULT_MODEL_NAME),
            theme: ThemeType::Dark,
            prompt: String::from_str(DEFAULT_PROMPT),
            system_prompt: String::from_str(DEFAULT_SYSTEM_PROMPT),
        }
    }
}

/// The one live configuration of a running application. Readers take a
/// copy with `get_config`; `replace` swaps in a new value once it has been
/// written to storage. Sharing it between threads takes a lock around it,
/// which gives readers whole values only.
pub struct ConfigStore {
    current: AppConfig,
}

impl View for ConfigStore {
    type V = AppConfig;

    closed spec fn view(&self) -> AppConfig {
        self.current
    }
}

impl ConfigStore {
    /// The store at startup: the stored configuration, or the default one
    /// when none was stored. The flag says that the default must now be
    /// written to storage.
    pub fn from_stored(stored: Option<AppConfig>) -> (r: (ConfigStore, bool))
        ensures
            stored is Some ==> r.0@ == stored->Some_0 && !r.1,
            stored is None ==> is_default_config(r.0@) && r.1,
    {
        match stored {
            Some(c) => (ConfigStore { current: c }, false),
            None => (ConfigStore { current: AppConfig::default() }, true),
        }
    }

    /// Swaps in `new_config` when writing it to storage succeeded, as
    /// `written` reports; otherwise the live value stays as it was and the
    /// write error is returned.
    pub fn replace(&mut self, new_config: AppConfig, written: Result<(), String>) -> (r: Result<
        (),
        TranslateError,
    >)
        ensures
            written is Ok ==> r is Ok && final(self)@ == new_config,
            written matches Err(e) ==> r == Err::<(), TranslateError>(TranslateError::ConfigIo(e))
                && final(self)@ == old(self)@,
    {
        match written {
            Ok(()) => {
                self.current = new_config;
                Ok(())
            },
            Err(e) => Err(TranslateError::ConfigIo(e)),
        }
    }
}

/// A copy of the live configuration, taken whole.
pub fn get_config(store: &ConfigStore) -> (r: AppConfig)
    ensures
        r == store@,
{
    let c = &store.current;
    AppConfig {
        api_key: c.api_key.clone(),
        api_url: c.api_url.clone(),
        platform: c.platform,
        model_name: c.model_name.clone(),
        theme: c.theme,
        prompt: c.prompt.clone(),
        system_prompt: c.system_prompt.clone(),
    }
}

} // verus!
