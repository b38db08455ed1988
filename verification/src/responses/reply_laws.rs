//! What a Responses reply is read as, in terms of its items.

use std::time::Duration;

use vstd::prelude::*;

use crate::error::{Error, ErrorView};
use crate::json::{self, Json};
use crate::responses::adapter;
use crate::responses::wire::{ErrorEnvelope, ResponsesResponse, ResponsesResponseView};
use crate::types::content::{ContentBlock, ContentBlockView};
use crate::types::conversation::{ProviderKind, Role};
use crate::types::response::{Response, StopReasonView};

verus! {

/// The kinds of items differ.
proof fn lemma_kinds_differ()
    ensures
        "message"@.len() == 7,
        "reasoning"@.len() == 9,
        "function_call"@.len() == 13,
        "output_text"@.len() == 11,
{
    reveal_strlit("message");
    reveal_strlit("reasoning");
    reveal_strlit("function_call");
    reveal_strlit("output_text");
}

/// A reply makes an assistant turn of the provider that gave it, with one block
/// for each item, in order: the block that the item makes wherever it stands.
pub proof fn replies_become_turns(provider: ProviderKind, reply: ResponsesResponseView)
    ensures
        ({
            let turn = adapter::response_of(provider, reply);
            &&& turn.provider == provider
            &&& turn.message.role == Role::Assistant
            &&& turn.stop_reason == adapter::stop_of(reply)
            &&& turn.usage == adapter::usage_of(reply.usage)
            &&& turn.message.content.len() == reply.output.len()
            &&& forall|i: int|
                0 <= i < reply.output.len() ==> #[trigger] turn.message.content[i]
                    == adapter::block_of(provider, reply.output[i])
        }),
{
}

/// What kind of block an item becomes: a message becomes text, a function call a
/// tool call, and anything else is carried along unread. Whatever it becomes, the
/// whole item stays with it.
pub proof fn items_become_blocks(provider: ProviderKind, item: Json)
    ensures
        ({
            let block = adapter::block_of(provider, item);
            &&& block is Text <==> json::member(item, "type"@) == Some(Json::Str("message"@))
            &&& block is ToolUse <==> json::member(item, "type"@) == Some(
                Json::Str("function_call"@),
            )
            &&& !(block is ToolResult)
            &&& match block {
                ContentBlockView::Text { extras, .. } => extras == Some(item),
                ContentBlockView::ToolUse { extras, .. } => extras == Some(item),
                ContentBlockView::Reasoning { provider: by, payload, .. } => by == provider
                    && payload == item,
                ContentBlockView::ToolResult { .. } => false,
            }
        }),
{
    lemma_kinds_differ();
}

/// A message of one part of output text becomes that text, whatever else the
/// part or the message says.
pub proof fn one_part_is_the_text(
    provider: ProviderKind,
    item: Json,
    part: Json,
    text: Seq<char>,
)
    requires
        json::member(item, "type"@) == Some(Json::Str("message"@)),
        json::member(item, "content"@) == Some(Json::Array(seq![part])),
        json::member(part, "type"@) == Some(Json::Str("output_text"@)),
        json::member(part, "text"@) == Some(Json::Str(text)),
    ensures
        adapter::block_of(provider, item) == (ContentBlockView::Text { text, extras: Some(item) }),
{
    reveal_with_fuel(adapter::joined_text, 2);
    assert(seq![part].drop_last() =~= Seq::empty());
    assert(Seq::<char>::empty() + text =~= text);
}

/// A part that is no output text, or that has no text, adds nothing to a message.
pub proof fn other_parts_are_no_text(provider: ProviderKind, item: Json, part: Json)
    requires
        json::member(item, "type"@) == Some(Json::Str("message"@)),
        json::member(item, "content"@) == Some(Json::Array(seq![part])),
        json::member(part, "type"@) != Some(Json::Str("output_text"@)) || !(json::member(
            part,
            "text"@,
        ) matches Some(Json::Str(_))),
    ensures
        adapter::block_of(provider, item) == (ContentBlockView::Text {
            text: Seq::empty(),
            extras: Some(item),
        }),
{
    reveal_with_fuel(adapter::joined_text, 2);
    assert(seq![part].drop_last() =~= Seq::empty());
    assert(Seq::<char>::empty() + Seq::<char>::empty() =~= Seq::<char>::empty());
}

proof fn lemma_texts_join(a: Seq<Json>, b: Seq<Json>)
    ensures
        adapter::joined_text(a + b) == adapter::joined_text(a) + adapter::joined_text(b),
    decreases b.len(),
{
    if b.len() == 0 {
        assert(a + b =~= a);
        assert(adapter::joined_text(a) + Seq::<char>::empty() =~= adapter::joined_text(a));
    } else {
        lemma_texts_join(a, b.drop_last());
        assert((a + b).drop_last() =~= a + b.drop_last());
        let last = adapter::part_text(b.last());
        assert((adapter::joined_text(a) + adapter::joined_text(b.drop_last())) + last
            =~= adapter::joined_text(a) + (adapter::joined_text(b.drop_last()) + last));
    }
}

/// The text of a message is that of its first parts followed by that of the
/// others, wherever the parts are divided. Without content there is no text.
pub proof fn parts_follow_each_other(
    provider: ProviderKind,
    whole: Json,
    first: Json,
    rest: Json,
    a: Seq<Json>,
    b: Seq<Json>,
)
    requires
        json::member(whole, "type"@) == Some(Json::Str("message"@)),
        json::member(first, "type"@) == Some(Json::Str("message"@)),
        json::member(rest, "type"@) == Some(Json::Str("message"@)),
        json::member(whole, "content"@) == Some(Json::Array(a + b)),
        json::member(first, "content"@) == Some(Json::Array(a)),
        json::member(rest, "content"@) == Some(Json::Array(b)),
    ensures
        ({
            let block = |item: Json| adapter::block_of(provider, item);
            &&& block(whole) is Text && block(first) is Text && block(rest) is Text
            &&& block(whole)->Text_text == block(first)->Text_text + block(rest)->Text_text
        }),
{
    lemma_texts_join(a, b);
}

/// A message without parts, or whose content is no list of parts, has no text.
pub proof fn no_parts_are_no_text(provider: ProviderKind, item: Json)
    requires
        json::member(item, "type"@) == Some(Json::Str("message"@)),
        json::member(item, "content"@) matches Some(Json::Array(parts)) ==> parts.len() == 0,
    ensures
        adapter::block_of(provider, item) == (ContentBlockView::Text {
            text: Seq::empty(),
            extras: Some(item),
        }),
{
    match json::member(item, "content"@) {
        Some(Json::Array(parts)) => {
            assert(parts =~= Seq::empty());
        },
        _ => {},
    }
}

/// A call is read under its call id and its name, with the value that its
/// arguments spell; no arguments spell an object without members, and arguments
/// that are no JSON spell null.
pub proof fn calls_are_read(provider: ProviderKind, item: Json)
    requires
        json::member(item, "type"@) == Some(Json::Str("function_call"@)),
    ensures
        ({
            let block = adapter::block_of(provider, item);
            &&& block is ToolUse
            &&& block->ToolUse_id == match json::member(item, "call_id"@) {
                Some(Json::Str(id)) => id,
                _ => Seq::empty(),
            }
            &&& block->ToolUse_name == match json::member(item, "name"@) {
                Some(Json::Str(name)) => name,
                _ => Seq::empty(),
            }
            &&& match json::member(item, "arguments"@) {
                Some(Json::Str(text)) => match json::json_parse(text) {
                    Ok(value) => block->ToolUse_input == value,
                    Err(_) => block->ToolUse_input == Json::Null,
                },
                _ => block->ToolUse_input == Json::Object(Map::empty()),
            }
        }),
{
    lemma_kinds_differ();
}

/// What is shown of reasoning is the text of the first part of its summary,
/// where it has one that is not empty. Nothing is shown of any other item.
pub proof fn reasoning_is_summed_up(provider: ProviderKind, item: Json)
    requires
        json::member(item, "type"@) != Some(Json::Str("message"@)),
        json::member(item, "type"@) != Some(Json::Str("function_call"@)),
    ensures
        ({
            let block = adapter::block_of(provider, item);
            let reasoning = json::member(item, "type"@) == Some(Json::Str("reasoning"@));
            &&& block is Reasoning
            &&& block->Reasoning_summary matches Some(text) ==> {
                &&& reasoning
                &&& text.len() > 0
                &&& json::member(item, "summary"@) matches Some(Json::Array(parts))
                &&& parts.len() > 0
                &&& json::member(parts[0], "text"@) == Some(Json::Str(text))
            }
            &&& match json::member(item, "summary"@) {
                Some(Json::Array(parts)) => match json::member(parts[0], "text"@) {
                    Some(Json::Str(text)) => reasoning && parts.len() > 0 && text.len() > 0
                        ==> block->Reasoning_summary == Some(text),
                    _ => true,
                },
                _ => true,
            }
        }),
{
    lemma_kinds_differ();
}

/// A turn stops for tools exactly where it holds a tool call for the caller to
/// answer; hosted tools do not count. Without one, a completed turn ends by itself.
pub proof fn tools_are_run_for_calls_alone(provider: ProviderKind, reply: ResponsesResponseView)
    ensures
        ({
            let turn = adapter::response_of(provider, reply);
            let calls = exists|i: int|
                0 <= i < turn.message.content.len() && #[trigger] turn.message.content[i]
                    is ToolUse;
            &&& turn.stop_reason is ToolUse <==> calls
            &&& !calls && reply.status == "completed"@ ==> turn.stop_reason is EndTurn
        }),
{
    lemma_kinds_differ();
    let turn = adapter::response_of(provider, reply);
    assert forall|i: int| 0 <= i < reply.output.len() implies (turn.message.content[i] is ToolUse
        <==> json::string_member(#[trigger] reply.output[i], "type"@) == Some(
        "function_call"@,
    )) by {
        items_become_blocks(provider, reply.output[i]);
    }
    if turn.stop_reason is ToolUse {
        let i = choose|i: int|
            0 <= i < reply.output.len() && json::string_member(
                #[trigger] reply.output[i],
                "type"@,
            ) == Some("function_call"@);
        assert(turn.message.content[i] is ToolUse);
    }
    if exists|i: int|
        0 <= i < turn.message.content.len() && #[trigger] turn.message.content[i] is ToolUse {
        let i = choose|i: int|
            0 <= i < turn.message.content.len() && #[trigger] turn.message.content[i] is ToolUse;
        assert(json::string_member(reply.output[i], "type"@) == Some("function_call"@));
    }
}

/// Why a turn without tool calls ended: a completed one by itself; an incomplete
/// one for the reason that the provider gives; any other is told by its status.
pub proof fn other_turns_end_as_reported(provider: ProviderKind, reply: ResponsesResponseView)
    requires
        !(adapter::response_of(provider, reply).stop_reason is ToolUse),
    ensures
        ({
            let stop = adapter::response_of(provider, reply).stop_reason;
            let partial = reply.status == "incomplete"@;
            &&& stop is EndTurn <==> reply.status == "completed"@
            &&& stop is MaxTokens <==> partial && (reply.incomplete_reason == Some(
                "max_output_tokens"@,
            ) || reply.incomplete_reason == Some("max_tokens"@))
            &&& stop is Refusal <==> partial && reply.incomplete_reason == Some("content_filter"@)
            &&& stop matches StopReasonView::Other(why) ==> why == match reply.incomplete_reason {
                Some(reason) if partial => reason,
                _ => reply.status,
            }
        }),
{
    reveal_strlit("completed");
    reveal_strlit("incomplete");
    reveal_strlit("max_output_tokens");
    reveal_strlit("max_tokens");
    reveal_strlit("content_filter");
    assert("completed"@.len() == 9 && "incomplete"@.len() == 10);
    assert("max_output_tokens"@.len() == 17 && "max_tokens"@.len() == 10);
    assert("content_filter"@.len() == 14);
}

/// The counts of a turn are those of the reply: what the cache served is counted
/// apart, is never more than the prompt, and the rest of the prompt is what it
/// did not serve.
pub proof fn counts_are_split(provider: ProviderKind, reply: ResponsesResponseView)
    ensures
        ({
            let usage = adapter::response_of(provider, reply).usage;
            let cached = reply.usage.input_tokens_details.cached_tokens;
            &&& usage.input_tokens + usage.cache_read_input_tokens == reply.usage.input_tokens
            &&& cached <= reply.usage.input_tokens ==> usage.cache_read_input_tokens == cached
            &&& cached > reply.usage.input_tokens ==> usage.cache_read_input_tokens
                == reply.usage.input_tokens
            &&& usage.cache_creation_input_tokens == 0
            &&& usage.output_tokens == reply.usage.output_tokens
        }),
{
}

/// A refused request is reported in the words of the provider, those of its error
/// where the body holds one, else the body itself; and by its status.
pub proof fn refusals_quote_the_provider(
    status: u16,
    body: &str,
    envelope: ErrorEnvelope,
    retry_after: Option<Duration>,
    r: Error,
    s: Error,
)
    requires
        call_ensures(adapter::map_error, (status, body, Some(envelope), retry_after), r),
        call_ensures(adapter::map_error, (status, body, None, retry_after), s),
    ensures
        status == 400 ==> r@ == ErrorView::InvalidRequest(envelope.error.message@),
        status == 400 ==> s@ == ErrorView::InvalidRequest(body@),
        status == 401 || status == 403 ==> r@ == ErrorView::Auth && s@ == ErrorView::Auth,
        status == 429 ==> r@ == (ErrorView::RateLimited { retry_after }) && s@
            == (ErrorView::RateLimited { retry_after }),
        status != 400 && status != 401 && status != 403 && status != 429 ==> {
            &&& r@ == (ErrorView::Http { status, message: envelope.error.message@ })
            &&& s@ == (ErrorView::Http { status, message: body@ })
        },
{
}

/// Every reply makes a turn, and every item of one a block of that turn.
pub proof fn every_reply_is_read(
    provider: ProviderKind,
    wire: ResponsesResponse,
    r: Result<Response, Error>,
    item: serde_json::Value,
    b: Result<ContentBlock, Error>,
)
    requires
        call_ensures(adapter::parse_response, (provider, wire), r),
        call_ensures(adapter::wire_item_to_agnostic, (provider, item), b),
    ensures
        r matches Ok(turn) && turn@ == adapter::response_of(provider, wire@),
        b matches Ok(read) && read@ == adapter::block_of(provider, json::json_of(item)),
{
}

/// A call takes what its arguments were parsed as for its input: a value as it is,
/// null where they are no JSON, and an object without members where there are none.
pub proof fn calls_take_what_was_parsed(
    item: Json,
    parsed: Option<Result<Json, Seq<char>>>,
)
    ensures
        adapter::call_of(item, parsed) == (ContentBlockView::ToolUse {
            id: match json::member(item, "call_id"@) {
                Some(Json::Str(id)) => id,
                _ => Seq::empty(),
            },
            name: match json::member(item, "name"@) {
                Some(Json::Str(name)) => name,
                _ => Seq::empty(),
            },
            input: match parsed {
                Some(Ok(value)) => value,
                Some(Err(_)) => Json::Null,
                None => Json::Object(Map::empty()),
            },
            extras: Some(item),
        }),
{
}

} // verus!
