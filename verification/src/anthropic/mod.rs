//! Anthropic Messages API.

use vstd::prelude::*;

use crate::error::{Error, ErrorView};
use crate::http::ConfigView;

pub mod adapter;
pub mod laws;
pub mod reply_laws;
pub mod request_laws;
pub mod sse;
pub mod stream_laws;
pub mod wire;

pub use adapter::Adapter;

verus! {

/// Where requests go unless another base URL is set.
pub const DEFAULT_BASE_URL: &'static str = "https://api.anthropic.com";

/// Required by Anthropic on every request; pins request/response semantics.
pub const API_VERSION: &'static str = "2023-06-01";

/// Connection settings for Anthropic.
#[derive(Debug, Clone)]
pub struct AnthropicConfig {
    pub api_key: String,
    pub base_url: String,
}

impl View for AnthropicConfig {
    type V = ConfigView;

    open spec fn view(&self) -> ConfigView {
        ConfigView { api_key: self.api_key@, base_url: self.base_url@ }
    }
}

impl AnthropicConfig {
    /// Settings with this key and the default base URL.
    pub fn new(api_key: &str) -> (r: Self)
        ensures
            r@ == (ConfigView { api_key: api_key@, base_url: "https://api.anthropic.com"@ }),
    {
        AnthropicConfig { api_key: api_key.to_owned(), base_url: DEFAULT_BASE_URL.to_owned() }
    }

    /// Settings with the key that the environment variable `ANTHROPIC_API_KEY`
    /// holds; an error where it holds none.
    pub fn from_env(value: Option<&str>) -> (r: Result<Self, Error>)
        ensures
            match value {
                Some(key) => r matches Ok(cfg) && cfg@ == (ConfigView {
                    api_key: key@,
                    base_url: "https://api.anthropic.com"@,
                }),
                None => r matches Err(e) && e@ == ErrorView::Auth,
            },
    {
        match value {
            Some(key) => Ok(AnthropicConfig::new(key)),
            None => Err(Error::Auth),
        }
    }

    /// The settings with another base URL.
    pub fn with_base_url(self, base_url: &str) -> (r: Self)
        ensures
            r@ == (ConfigView { base_url: base_url@, ..self@ }),
    {
        AnthropicConfig { api_key: self.api_key, base_url: base_url.to_owned() }
    }
}

/// Settings hold the key they were made with, whichever way they were made, and
/// the provider's own address until another one is set, which leaves the key.
/// Without a key there are none.
pub proof fn settings_are_kept(
    key: &str,
    base_url: &str,
    made: AnthropicConfig,
    found: Result<AnthropicConfig, Error>,
    missing: Result<AnthropicConfig, Error>,
    moved: AnthropicConfig,
)
    requires
        call_ensures(AnthropicConfig::new, (key,), made),
        call_ensures(AnthropicConfig::from_env, (Some(key),), found),
        call_ensures(AnthropicConfig::from_env, (None,), missing),
        call_ensures(AnthropicConfig::with_base_url, (made, base_url), moved),
    ensures
        made.api_key@ == key@,
        made.base_url@ == "https://api.anthropic.com"@,
        found matches Ok(cfg) && cfg.api_key@ == key@ && cfg.base_url@ == made.base_url@,
        missing matches Err(e) && e@ == ErrorView::Auth,
        moved.api_key@ == key@,
        moved.base_url@ == base_url@,
{
}

} // verus!
