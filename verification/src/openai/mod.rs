//! OpenAI, which speaks the Responses API.

use vstd::prelude::*;

use crate::error::{Error, ErrorView};
use crate::http::ConfigView;

pub mod adapter;
pub mod sse;

pub use crate::responses::wire;
pub use adapter::Adapter;

verus! {

/// Where requests go unless another base URL is set.
pub const DEFAULT_BASE_URL: &'static str = "https://api.openai.com";

/// Connection settings for OpenAI.
#[derive(Debug, Clone)]
pub struct OpenAiConfig {
    pub api_key: String,
    pub base_url: String,
}

impl View for OpenAiConfig {
    type V = ConfigView;

    open spec fn view(&self) -> ConfigView {
        ConfigView { api_key: self.api_key@, base_url: self.base_url@ }
    }
}

impl OpenAiConfig {
    /// Settings with this key and the default base URL.
    pub fn new(api_key: &str) -> (r: Self)
        ensures
            r@ == (ConfigView { api_key: api_key@, base_url: "https://api.openai.com"@ }),
    {
        OpenAiConfig { api_key: api_key.to_owned(), base_url: DEFAULT_BASE_URL.to_owned() }
    }

    /// Settings with the key that the environment variable `OPENAI_API_KEY`
    /// holds; an error where it holds none.
    pub fn from_env(value: Option<&str>) -> (r: Result<Self, Error>)
        ensures
            match value {
                Some(key) => r matches Ok(cfg) && cfg@ == (ConfigView {
                    api_key: key@,
                    base_url: "https://api.openai.com"@,
                }),
                None => r matches Err(e) && e@ == ErrorView::Auth,
            },
    {
        match value {
            Some(key) => Ok(OpenAiConfig::new(key)),
            None => Err(Error::Auth),
        }
    }

    /// The settings with another base URL.
    pub fn with_base_url(self, base_url: &str) -> (r: Self)
        ensures
            r@ == (ConfigView { base_url: base_url@, ..self@ }),
    {
        OpenAiConfig { api_key: self.api_key, base_url: base_url.to_owned() }
    }
}

/// Settings hold the key they were made with, whichever way they were made, and
/// the provider's own address until another one is set, which leaves the key.
/// Without a key there are none.
pub proof fn settings_are_kept(
    key: &str,
    base_url: &str,
    made: OpenAiConfig,
    found: Result<OpenAiConfig, Error>,
    missing: Result<OpenAiConfig, Error>,
    moved: OpenAiConfig,
)
    requires
        call_ensures(OpenAiConfig::new, (key,), made),
        call_ensures(OpenAiConfig::from_env, (Some(key),), found),
        call_ensures(OpenAiConfig::from_env, (None,), missing),
        call_ensures(OpenAiConfig::with_base_url, (made, base_url), moved),
    ensures
        made.api_key@ == key@,
        made.base_url@ == "https://api.openai.com"@,
        found matches Ok(cfg) && cfg.api_key@ == key@ && cfg.base_url@ == made.base_url@,
        missing matches Err(e) && e@ == ErrorView::Auth,
        moved.api_key@ == key@,
        moved.base_url@ == base_url@,
{
}

} // verus!
