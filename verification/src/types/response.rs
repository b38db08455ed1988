//! Completed turns.

use vstd::prelude::*;

use crate::types::conversation::{Message, MessageView, ProviderKind};

verus! {

/// Completed assistant turn with normalized stop/usage metadata.
#[derive(Debug, Clone, PartialEq)]
pub struct Response {
    pub message: Message,
    pub stop_reason: StopReason,
    pub usage: Usage,
    /// Which backend produced this turn; used to pin the conversation.
    pub provider: ProviderKind,
}

/// Why generation stopped, collapsed from each provider's vocabulary so
/// tool-loop and token-limit handling stay provider-agnostic.
#[derive(Debug, Clone, PartialEq, Eq)]
pub enum StopReason {
    EndTurn,
    ToolUse,
    MaxTokens,
    Refusal,
    Other(String),
}

/// Token counts of one turn. `input_tokens` is what no cache served; the two
/// cache counts come on top of it.
#[derive(Debug, Clone, Copy, PartialEq, Eq, Structural)]
pub struct Usage {
    pub input_tokens: u32,
    pub output_tokens: u32,
    pub cache_creation_input_tokens: u32,
    pub cache_read_input_tokens: u32,
}

/// A stop reason as mathematics sees it.
pub enum StopReasonView {
    EndTurn,
    ToolUse,
    MaxTokens,
    Refusal,
    Other(Seq<char>),
}

impl View for StopReason {
    type V = StopReasonView;

    open spec fn view(&self) -> StopReasonView {
        match *self {
            StopReason::EndTurn => StopReasonView::EndTurn,
            StopReason::ToolUse => StopReasonView::ToolUse,
            StopReason::MaxTokens => StopReasonView::MaxTokens,
            StopReason::Refusal => StopReasonView::Refusal,
            StopReason::Other(s) => StopReasonView::Other(s@),
        }
    }
}

/// A completed turn as mathematics sees it.
pub struct ResponseView {
    pub message: MessageView,
    pub stop_reason: StopReasonView,
    pub usage: Usage,
    pub provider: ProviderKind,
}

impl View for Response {
    type V = ResponseView;

    open spec fn view(&self) -> ResponseView {
        ResponseView {
            message: self.message@,
            stop_reason: self.stop_reason@,
            usage: self.usage,
            provider: self.provider,
        }
    }
}

/// No tokens at all.
pub open spec fn no_usage() -> Usage {
    Usage {
        input_tokens: 0,
        output_tokens: 0,
        cache_creation_input_tokens: 0,
        cache_read_input_tokens: 0,
    }
}

/// Every token of the prompt, cached or not.
pub open spec fn total_input(u: Usage) -> int {
    u.input_tokens + u.cache_creation_input_tokens + u.cache_read_input_tokens
}

impl Default for Usage {
    fn default() -> (r: Self)
        ensures
            r == no_usage(),
    {
        Usage {
            input_tokens: 0,
            output_tokens: 0,
            cache_creation_input_tokens: 0,
            cache_read_input_tokens: 0,
        }
    }
}

impl Usage {
    /// Size of the whole prompt: with caching on, `input_tokens` alone is the
    /// uncached remainder.
    pub fn total_input_tokens(&self) -> (r: u64)
        ensures
            r == total_input(*self),
    {
        self.input_tokens as u64 + self.cache_creation_input_tokens as u64
            + self.cache_read_input_tokens as u64
    }
}

/// The size of a prompt is what no cache served, what the cache took in and what
/// it served; before any reply every count is zero.
pub proof fn prompts_add_up(u: Usage)
    ensures
        total_input(u) == u.input_tokens + u.cache_creation_input_tokens
            + u.cache_read_input_tokens,
        total_input(no_usage()) == 0,
        no_usage().output_tokens == 0,
        no_usage().input_tokens == 0,
        no_usage().cache_creation_input_tokens == 0,
        no_usage().cache_read_input_tokens == 0,
{
}

/// A turn is seen by its message, the reason that it ended for, its counts and
/// its provider.
pub proof fn turns_are_seen_whole(turn: Response)
    ensures
        turn@.message == turn.message@,
        turn@.usage == turn.usage,
        turn@.provider == turn.provider,
        match turn.stop_reason {
            StopReason::EndTurn => turn@.stop_reason is EndTurn,
            StopReason::ToolUse => turn@.stop_reason is ToolUse,
            StopReason::MaxTokens => turn@.stop_reason is MaxTokens,
            StopReason::Refusal => turn@.stop_reason is Refusal,
            StopReason::Other(why) => turn@.stop_reason == StopReasonView::Other(why@),
        },
{
}

} // verus!
