//! The Responses API, which OpenAI and xAI both speak.

pub mod adapter;
pub mod laws;
pub mod reply_laws;
pub mod request_laws;
pub mod sse;
pub mod stream_laws;
pub mod wire;
