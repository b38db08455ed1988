//! What holds of Responses requests, replies and streams as a whole.

use vstd::prelude::*;

use crate::error::ErrorView;
use crate::json::{self, Json};
use crate::responses::adapter;
use crate::responses::sse::{self, AssemblerView, DeltaView, ItemStateView};
use crate::responses::wire::{
    self, ResponsesRequestView, ResponsesResponseView, StreamEventView, WireUsage,
};
use crate::types::content::{ContentBlockView, ToolOutputView};
use crate::types::conversation::{self, ConversationView, MessageView, ProviderKind, Role};
use crate::types::request::{self, RequestOptionsView};
use crate::types::response::{self, StopReasonView};
use crate::types::streaming::EventView;

verus! {

/// Every item of a reply goes back to the provider exactly as it came.
pub proof fn items_round_trip(provider: ProviderKind, item: Json)
    ensures
        adapter::block_item(adapter::block_of(provider, item)) == item,
        !(adapter::block_of(provider, item) is ToolResult),
{
}

/// The input items of a reply's turn are the items of the reply.
proof fn lemma_reply_items(provider: ProviderKind, output: Seq<Json>)
    ensures
        adapter::message_items(Role::Assistant, adapter::blocks_of(provider, output)) == output,
    decreases output.len(),
{
    let blocks = adapter::blocks_of(provider, output);
    if output.len() > 0 {
        lemma_reply_items(provider, output.drop_last());
        assert(blocks.drop_last() =~= adapter::blocks_of(provider, output.drop_last()));
        items_round_trip(provider, output.last());
        assert(output.drop_last().push(output.last()) =~= output);
    } else {
        assert(output =~= Seq::empty());
    }
}

/// One more turn is more input behind the input so far.
proof fn lemma_one_more_turn(messages: Seq<MessageView>, turn: MessageView)
    ensures
        adapter::transcript_items(messages.push(turn)) == adapter::transcript_items(messages)
            + adapter::message_items(turn.role, turn.content),
{
    assert(messages.push(turn).drop_last() =~= messages);
}

/// The input of a transcript in two parts.
proof fn lemma_transcript_parts(before: Seq<MessageView>, after: Seq<MessageView>)
    ensures
        adapter::transcript_items(before + after) == adapter::transcript_items(before)
            + adapter::transcript_items(after),
    decreases after.len(),
{
    if after.len() == 0 {
        assert(before + after =~= before);
        assert(adapter::transcript_items(before) + Seq::<Json>::empty()
            =~= adapter::transcript_items(before));
    } else {
        lemma_transcript_parts(before, after.drop_last());
        assert((before + after).drop_last() =~= before + after.drop_last());
        let last = adapter::message_items(after.last().role, after.last().content);
        assert(adapter::transcript_items(before) + adapter::transcript_items(after.drop_last())
            + last =~= adapter::transcript_items(before) + (adapter::transcript_items(
            after.drop_last(),
        ) + last));
    }
}

/// Wherever a reply stands in a transcript, its items stand in the input of a
/// request exactly as the provider sent them, between the input of what came
/// before and of what came after.
pub proof fn replies_are_echoed(
    provider: ProviderKind,
    before: Seq<MessageView>,
    reply: ResponsesResponseView,
    after: Seq<MessageView>,
)
    ensures
        adapter::transcript_items(
            before.push(adapter::response_of(provider, reply).message) + after,
        ) == adapter::transcript_items(before) + reply.output + adapter::transcript_items(after),
{
    let turn = adapter::response_of(provider, reply).message;
    lemma_transcript_parts(before.push(turn), after);
    lemma_one_more_turn(before, turn);
    lemma_reply_items(provider, reply.output);
}

/// A user text becomes one input item behind all others.
pub proof fn user_texts_are_appended(c: ConversationView, text: Seq<char>)
    ensures
        adapter::transcript_items(c.with_user(text).messages) == adapter::transcript_items(
            c.messages,
        ).push(adapter::user_item(text)),
{
    lemma_one_more_turn(c.messages, conversation::user_text(text));
    reveal_with_fuel(adapter::message_items, 2);
    let blocks = conversation::user_text(text).content;
    assert(blocks.drop_last() =~= Seq::empty());
    assert(adapter::transcript_items(c.messages) + adapter::message_items(Role::User, blocks)
        =~= adapter::transcript_items(c.messages).push(adapter::user_item(text)));
}

/// A tool result becomes one top-level input item behind all others, whether it
/// shares a turn with other results or not.
pub proof fn tool_results_are_top_level(
    c: ConversationView,
    id: Seq<char>,
    output: ToolOutputView,
)
    ensures
        adapter::transcript_items(c.with_tool_result(id, output).messages)
            == adapter::transcript_items(c.messages).push(adapter::result_item(id, output)),
{
    let block = ContentBlockView::ToolResult { id, output };
    let before = adapter::transcript_items(c.messages);
    if c.messages.len() > 0 && conversation::is_tool_only(c.messages.last()) {
        let last = c.messages.last();
        let grown = MessageView { role: Role::User, content: last.content.push(block) };
        lemma_one_more_turn(c.messages.drop_last(), grown);
        assert(last.content.push(block).drop_last() =~= last.content);
        assert(adapter::transcript_items(c.messages.drop_last()) + adapter::message_items(
            Role::User,
            last.content,
        ).push(adapter::result_item(id, output)) =~= before.push(
            adapter::result_item(id, output),
        ));
    } else {
        let turn = MessageView { role: Role::User, content: seq![block] };
        lemma_one_more_turn(c.messages, turn);
        reveal_with_fuel(adapter::message_items, 2);
        assert(turn.content.drop_last() =~= Seq::empty());
        assert(before + adapter::message_items(Role::User, turn.content) =~= before.push(
            adapter::result_item(id, output),
        ));
    }
}

/// Requests of one conversation share their cache key, never ask the provider
/// to keep state, and always ask for the reasoning that the next turn has to
/// give back.
pub proof fn history_stays_with_the_client(
    c: ConversationView,
    opts: RequestOptionsView,
    stream: bool,
)
    ensures
        ({
            let r = adapter::request_view(c, opts, stream);
            &&& r.prompt_cache_key == c.cache_key
            &&& !r.store
            &&& r.includes == seq!["reasoning.encrypted_content"@]
        }),
{
}

/// The volatile mark and a requested cache breakpoint change nothing here: the
/// backends cache by prefix on their own.
pub proof fn cache_marks_do_not_matter(
    c: ConversationView,
    opts: RequestOptionsView,
    mark: Option<usize>,
    from_end: Option<usize>,
    stream: bool,
)
    ensures
        adapter::request_view(
            ConversationView { volatile: mark, ..c },
            RequestOptionsView { cache_breakpoint_from_end: from_end, ..opts },
            stream,
        ) == adapter::request_view(c, opts, stream),
{
}

/// Options that ask for nothing leave everything optional out of the request:
/// instructions, tools, the choice among them, a temperature, streaming.
pub proof fn defaults_leave_options_out(c: ConversationView, model: Seq<char>)
    ensures
        ({
            let opts = RequestOptionsView { model, ..request::default_options() };
            let r = adapter::request_view(c, opts, false);
            &&& r.model == model
            &&& r.max_output_tokens == Some(64_000u32)
            &&& r.instructions is None
            &&& r.tools.len() == 0
            &&& r.tool_choice is None
            &&& r.parallel_tool_calls is None
            &&& r.temperature is None
            &&& r.stream is None
            &&& wire::opt_tools_json(r.tools) is None
        }),
{
}

/// The hosted web search comes behind the caller's tools and changes nothing
/// else.
pub proof fn web_search_only_adds_a_tool(
    c: ConversationView,
    opts: RequestOptionsView,
    stream: bool,
)
    ensures
        ({
            let on = adapter::request_view(
                c,
                RequestOptionsView { web_search: true, ..opts },
                stream,
            );
            let off = adapter::request_view(
                c,
                RequestOptionsView { web_search: false, ..opts },
                stream,
            );
            on == ResponsesRequestView { tools: off.tools.push(adapter::search_tool()), ..off }
        }),
{
}

/// Streaming changes the stream flag of a request and nothing else.
pub proof fn streaming_only_sets_a_flag(c: ConversationView, opts: RequestOptionsView)
    ensures
        adapter::request_view(c, opts, true) == (ResponsesRequestView {
            stream: Some(true),
            ..adapter::request_view(c, opts, false)
        }),
{
}

/// A tool call in a reply means that tools are to be run, whatever else the
/// reply says about its end.
pub proof fn tool_calls_stop_for_tools(reply: ResponsesResponseView, i: int)
    requires
        0 <= i < reply.output.len(),
        json::string_member(reply.output[i], "type"@) == Some("function_call"@),
    ensures
        adapter::stop_of(reply) == StopReasonView::ToolUse,
{
}

/// The counts of a turn add up to the prompt that the provider counted, and no
/// more of it counts as cached than there is.
pub proof fn usage_adds_up(usage: WireUsage)
    ensures
        response::total_input(adapter::usage_of(usage)) == usage.input_tokens,
        adapter::usage_of(usage).cache_read_input_tokens
            <= usage.input_tokens_details.cached_tokens,
        adapter::usage_of(usage).output_tokens == usage.output_tokens,
{
}

/// A stream ends in the turn that its final payload makes, streamed or not the
/// same, whatever deltas came before it.
pub proof fn stream_matches_reply(
    state: AssemblerView,
    reply: ResponsesResponseView,
    ev: StreamEventView,
)
    ensures
        state.after(ev).provider == state.provider,
        state.outcome(StreamEventView::ResponseCompleted { response: reply }) == Ok::<
            Seq<EventView>,
            ErrorView,
        >(seq![EventView::Done(adapter::response_of(state.provider, reply))]),
        state.outcome(StreamEventView::ResponseIncomplete { response: reply })
            == state.outcome(StreamEventView::ResponseCompleted { response: reply }),
{
}

/// However a text is cut into deltas, the item grows by the same text.
pub proof fn fragmentation_does_not_matter(
    state: AssemblerView,
    index: int,
    a: Seq<char>,
    b: Seq<char>,
)
    requires
        0 <= index,
    ensures
        state.with_delta(index, DeltaView::Text(a)).with_delta(index, DeltaView::Text(b))
            == state.with_delta(index, DeltaView::Text(a + b)),
        state.with_delta(index, DeltaView::Reasoning(a)).with_delta(index, DeltaView::Reasoning(b))
            == state.with_delta(index, DeltaView::Reasoning(a + b)),
        state.with_delta(index, DeltaView::Arguments(a)).with_delta(index, DeltaView::Arguments(b))
            == state.with_delta(index, DeltaView::Arguments(a + b)),
{
    if index < state.items.len() {
        match state.items[index] {
            ItemStateView::Message { text } => {
                assert((text + a) + b =~= text + (a + b));
            },
            ItemStateView::Reasoning { summary } => {
                assert((summary + a) + b =~= summary + (a + b));
            },
            ItemStateView::FunctionCall { arguments, .. } => {
                assert((arguments + a) + b =~= arguments + (a + b));
            },
            _ => {},
        }
        assert(state.with_delta(index, DeltaView::Text(a)).with_delta(
            index,
            DeltaView::Text(b),
        ).items =~= state.with_delta(index, DeltaView::Text(a + b)).items);
        assert(state.with_delta(index, DeltaView::Reasoning(a)).with_delta(
            index,
            DeltaView::Reasoning(b),
        ).items =~= state.with_delta(index, DeltaView::Reasoning(a + b)).items);
        assert(state.with_delta(index, DeltaView::Arguments(a)).with_delta(
            index,
            DeltaView::Arguments(b),
        ).items =~= state.with_delta(index, DeltaView::Arguments(a + b)).items);
    }
}

/// An item takes the slot of its number, whether slots before it were skipped or
/// it replaces another, and the deltas of that number go to it. Only a call is
/// announced, by its id and its name.
pub proof fn items_take_their_slot(
    state: AssemblerView,
    index: usize,
    item: Json,
    delta: DeltaView,
)
    ensures
        ({
            let next = state.with_started(index as nat, item);
            &&& index < next.items.len()
            &&& next.items[index as int] == sse::opened(item)
            &&& next.routed(index as int, delta) == sse::delta_events(sse::opened(item), delta)
            &&& next.with_delta(index as int, delta).items[index as int] == sse::grown(
                sse::opened(item),
                delta,
            )
            &&& state.outcome(StreamEventView::OutputItemAdded { output_index: index, item })
                == Ok::<Seq<EventView>, ErrorView>(
                if json::text_member(item, "type"@) == "function_call"@ {
                    seq![
                        EventView::ToolUseStart {
                            id: json::text_member(item, "call_id"@),
                            name: json::text_member(item, "name"@),
                        },
                    ]
                } else {
                    Seq::empty()
                },
            )
        }),
{
    reveal_strlit("message");
    reveal_strlit("reasoning");
    reveal_strlit("function_call");
    assert("message"@.len() == 7 && "reasoning"@.len() == 9 && "function_call"@.len() == 13);
}

/// Opening an item does not matter to the deltas of any other number, whether
/// that has an item, was skipped, or lies behind the end: they are passed on as
/// before and have the effect they had.
pub proof fn other_items_keep_their_deltas(
    state: AssemblerView,
    index: nat,
    item: Json,
    other: nat,
    delta: DeltaView,
)
    requires
        other != index,
    ensures
        state.with_started(index, item).routed(other as int, delta) == state.routed(
            other as int,
            delta,
        ),
        state.with_started(index, item).with_delta(other as int, delta) == state.with_delta(
            other as int,
            delta,
        ).with_started(index, item),
{
    assert(state.with_started(index, item).with_delta(other as int, delta).items
        =~= state.with_delta(other as int, delta).with_started(index, item).items);
}

} // verus!
