//! xAI, which speaks the Responses API.

use vstd::prelude::*;

use crate::error::{Error, ErrorView};
use crate::http::ConfigView;

pub mod adapter;
pub mod sse;

pub use crate::responses::wire;
pub use adapter::Adapter;

verus! {

/// Where requests go unless another base URL is set.
pub const DEFAULT_BASE_URL: &'static str = "https://api.x.ai";

/// Connection settings for xAI.
#[derive(Debug, Clone)]
pub struct XaiConfig {
    pub api_key: String,
    pub base_url: String,
}

impl View for XaiConfig {
    type V = ConfigView;

    open spec fn view(&self) -> ConfigView {
        ConfigView { api_key: self.api_key@, base_url: self.base_url@ }
    }
}

impl XaiConfig {
    /// Settings with this key and the default base URL.
    pub fn new(api_key: &str) -> (r: Self)
        ensures
            r@ == (ConfigView { api_key: api_key@, base_url: "https://api.x.ai"@ }),
    {
        XaiConfig { api_key: api_key.to_owned(), base_url: DEFAULT_BASE_URL.to_owned() }
    }

    /// Settings with the key that the environment variable `XAI_API_KEY`
    /// holds; an error where it holds none.
    pub fn from_env(value: Option<&str>) -> (r: Result<Self, Error>)
        ensures
            match value {
                Some(key) => r matches Ok(cfg) && cfg@ == (ConfigView {
                    api_key: key@,
                    base_url: "https://api.x.ai"@,
                }),
                None => r matches Err(e) && e@ == ErrorView::Auth,
            },
    {
        match value {
            Some(key) => Ok(XaiConfig::new(key)),
            None => Err(Error::Auth),
        }
    }

    /// The settings with another base URL.
    pub fn with_base_url(self, base_url: &str) -> (r: Self)
        ensures
            r@ == (ConfigView { base_url: base_url@, ..self@ }),
    {
        XaiConfig { api_key: self.api_key, base_url: base_url.to_owned() }
    }
}

/// Settings hold the key they were made with, whichever way they were made, and
/// the provider's own address until another one is set, which leaves the key.
/// Without a key there are none.
pub proof fn settings_are_kept(
    key: &str,
    base_url: &str,
    made: XaiConfig,
    found: Result<XaiConfig, Error>,
    missing: Result<XaiConfig, Error>,
    moved: XaiConfig,
)
    requires
        call_ensures(XaiConfig::new, (key,), made),
        call_ensures(XaiConfig::from_env, (Some(key),), found),
        call_ensures(XaiConfig::from_env, (None,), missing),
        call_ensures(XaiConfig::with_base_url, (made, base_url), moved),
    ensures
        made.api_key@ == key@,
        made.base_url@ == "https://api.x.ai"@,
        found matches Ok(cfg) && cfg.api_key@ == key@ && cfg.base_url@ == made.base_url@,
        missing matches Err(e) && e@ == ErrorView::Auth,
        moved.api_key@ == key@,
        moved.base_url@ == base_url@,
{
}

} // verus!
