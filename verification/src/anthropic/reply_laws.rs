//! What an Anthropic reply is read as, in terms of its blocks.

use std::time::Duration;

use vstd::prelude::*;

use crate::anthropic::adapter;
use crate::anthropic::wire::{ErrorEnvelope, MessagesResponse, MessagesResponseView};
use crate::error::{Error, ErrorView};
use crate::json::{self, Json};
use crate::types::content::{ContentBlock, ContentBlockView};
use crate::types::conversation::{ProviderKind, Role};
use crate::types::response::{Response, StopReasonView};

verus! {

/// The kinds of blocks differ.
proof fn lemma_kinds_differ()
    ensures
        "text"@.len() == 4,
        "tool_use"@.len() == 8 && "tool_use"@[1] == 'o',
        "thinking"@.len() == 8 && "thinking"@[1] == 'h',
{
    reveal_strlit("text");
    reveal_strlit("tool_use");
    reveal_strlit("thinking");
}

/// A reply makes an assistant turn of this provider, with one block for each of
/// its own, in order: the block that it makes wherever it stands.
pub proof fn replies_become_turns(reply: MessagesResponseView)
    ensures
        ({
            let turn = adapter::response_of(reply);
            &&& turn.provider == ProviderKind::Anthropic
            &&& turn.message.role == Role::Assistant
            &&& turn.stop_reason == adapter::stop_of(reply.stop_reason)
            &&& turn.message.content.len() == reply.content.len()
            &&& forall|i: int|
                0 <= i < reply.content.len() ==> #[trigger] turn.message.content[i]
                    == adapter::block_of(reply.content[i])
        }),
{
}

/// Why a turn ended, in the words that all providers share; a reason that they do
/// not share is told as it was given.
pub proof fn turns_end_as_reported(reply: MessagesResponseView)
    ensures
        ({
            let stop = adapter::response_of(reply).stop_reason;
            &&& stop is EndTurn <==> reply.stop_reason == Some("end_turn"@)
            &&& stop is ToolUse <==> reply.stop_reason == Some("tool_use"@)
            &&& stop is MaxTokens <==> reply.stop_reason == Some("max_tokens"@)
            &&& stop is Refusal <==> reply.stop_reason == Some("refusal"@)
            &&& stop matches StopReasonView::Other(why) ==> match reply.stop_reason {
                Some(reason) => why == reason,
                None => why.len() == 0,
            }
        }),
{
    reveal_strlit("end_turn");
    reveal_strlit("tool_use");
    reveal_strlit("max_tokens");
    reveal_strlit("refusal");
    assert("end_turn"@.len() == 8 && "end_turn"@[0] == 'e');
    assert("tool_use"@.len() == 8 && "tool_use"@[0] == 't');
    assert("max_tokens"@.len() == 10 && "refusal"@.len() == 7);
}

/// The counts of a turn are those of the reply, each in its place.
pub proof fn counts_are_kept(reply: MessagesResponseView)
    ensures
        ({
            let usage = adapter::response_of(reply).usage;
            &&& usage.input_tokens == reply.usage.input_tokens
            &&& usage.output_tokens == reply.usage.output_tokens
            &&& usage.cache_creation_input_tokens == reply.usage.cache_creation_input_tokens
            &&& usage.cache_read_input_tokens == reply.usage.cache_read_input_tokens
        }),
{
}

/// What kind of block a wire block becomes: text becomes text, a call of a tool
/// of the caller a tool call, and anything else, hosted calls and their results
/// among it, is carried along whole.
pub proof fn kinds_are_told_apart(block: Json)
    ensures
        ({
            let kind = json::member(block, "type"@);
            let read = adapter::block_of(block);
            &&& read is Text <==> kind == Some(Json::Str("text"@))
            &&& read is ToolUse <==> kind == Some(Json::Str("tool_use"@))
            &&& !(read is ToolResult)
            &&& match read {
                ContentBlockView::Reasoning { provider, payload, .. } => provider
                    == ProviderKind::Anthropic && payload == block,
                _ => true,
            }
        }),
{
    lemma_kinds_differ();
}

/// A text is read as what it says. Where the block says anything besides, it is
/// kept whole beside the text, and only there.
pub proof fn texts_are_read(block: Json)
    requires
        json::member(block, "type"@) == Some(Json::Str("text"@)),
    ensures
        ({
            let text = match json::member(block, "text"@) {
                Some(Json::Str(text)) => text,
                _ => Seq::empty(),
            };
            adapter::block_of(block) == (ContentBlockView::Text {
                text,
                extras: if block == Json::Object(
                    map!["type"@ => Json::Str("text"@), "text"@ => Json::Str(text)],
                ) {
                    None
                } else {
                    Some(block)
                },
            })
        }),
{
    lemma_kinds_differ();
}

/// A tool call is read under its id and its name, with its input as it is, or
/// null where it has none. Where the block says anything besides, it is kept whole
/// beside the call, and only there.
pub proof fn calls_are_read(block: Json)
    requires
        json::member(block, "type"@) == Some(Json::Str("tool_use"@)),
    ensures
        ({
            let id = match json::member(block, "id"@) {
                Some(Json::Str(id)) => id,
                _ => Seq::empty(),
            };
            let name = match json::member(block, "name"@) {
                Some(Json::Str(name)) => name,
                _ => Seq::empty(),
            };
            let input = match json::member(block, "input"@) {
                Some(input) => input,
                None => Json::Null,
            };
            adapter::block_of(block) == (ContentBlockView::ToolUse {
                id,
                name,
                input,
                extras: if block == Json::Object(
                    map![
                        "type"@ => Json::Str("tool_use"@),
                        "id"@ => Json::Str(id),
                        "name"@ => Json::Str(name),
                        "input"@ => input,
                    ],
                ) {
                    None
                } else {
                    Some(block)
                },
            })
        }),
{
    lemma_kinds_differ();
}

/// What is shown of thinking is the thought itself, where it is not empty.
/// Nothing is shown of any other block that is carried along.
pub proof fn thoughts_are_summed_up(block: Json)
    requires
        json::member(block, "type"@) != Some(Json::Str("text"@)),
        json::member(block, "type"@) != Some(Json::Str("tool_use"@)),
    ensures
        ({
            let thinking = json::member(block, "type"@) == Some(Json::Str("thinking"@));
            adapter::block_of(block) == (ContentBlockView::Reasoning {
                provider: ProviderKind::Anthropic,
                payload: block,
                summary: match json::member(block, "thinking"@) {
                    Some(Json::Str(thought)) => if thinking && thought.len() > 0 {
                        Some(thought)
                    } else {
                        None
                    },
                    _ => None,
                },
            })
        }),
{
    lemma_kinds_differ();
}

/// A refused request is reported in the words of the provider, those of its error
/// where the body holds one, else the body itself; and by its status.
pub proof fn refusals_quote_the_provider(
    status: u16,
    body: &str,
    envelope: ErrorEnvelope,
    retry_after: Option<Duration>,
    r: Error,
    s: Error,
)
    requires
        call_ensures(adapter::map_error, (status, body, Some(envelope), retry_after), r),
        call_ensures(adapter::map_error, (status, body, None, retry_after), s),
    ensures
        status == 400 ==> r@ == ErrorView::InvalidRequest(envelope.error.message@),
        status == 400 ==> s@ == ErrorView::InvalidRequest(body@),
        status == 401 || status == 403 ==> r@ == ErrorView::Auth && s@ == ErrorView::Auth,
        status == 429 ==> r@ == (ErrorView::RateLimited { retry_after }) && s@
            == (ErrorView::RateLimited { retry_after }),
        status != 400 && status != 401 && status != 403 && status != 429 ==> {
            &&& r@ == (ErrorView::Http { status, message: envelope.error.message@ })
            &&& s@ == (ErrorView::Http { status, message: body@ })
        },
{
}

/// Every reply makes a turn, and every block of one a block of that turn.
pub proof fn every_reply_is_read(
    wire: MessagesResponse,
    r: Result<Response, Error>,
    block: serde_json::Value,
    b: Result<ContentBlock, Error>,
)
    requires
        call_ensures(adapter::parse_response, (wire,), r),
        call_ensures(adapter::wire_block_to_agnostic, (block,), b),
    ensures
        r matches Ok(turn) && turn@ == adapter::response_of(wire@),
        b matches Ok(read) && read@ == adapter::block_of(json::json_of(block)),
{
}

} // verus!
