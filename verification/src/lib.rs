//! Unified multi-provider LLM client core.
//!
//! One conversation model and request API across Anthropic, OpenAI, and xAI so
//! application code does not fork on provider wire formats. Adapters own the
//! translation; callers stay on shared types.
//!
//! Everything here computes: requests to send, turns and events out of replies,
//! errors out of refusals. Sending and receiving is left to the application.

pub mod anthropic;
pub mod client;
pub mod error;
pub mod http;
pub mod json;
pub mod openai;
pub mod responses;
pub mod text;
pub mod types;
pub mod xai;

pub use anthropic::AnthropicConfig;
pub use client::Client;
pub use error::Error;
pub use openai::OpenAiConfig;
pub use types::{
    ContentBlock, Conversation, Event, Message, ProviderKind, RequestOptions, Response, Role,
    StopReason, ThinkingEffort, ToolDef, ToolOutput, Usage,
};
pub use xai::XaiConfig;
