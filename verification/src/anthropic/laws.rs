//! What holds of Anthropic requests, replies and streams as a whole.

use vstd::prelude::*;

use crate::anthropic::adapter;
use crate::anthropic::sse::{self, AssemblerView, BlockStateView};
use crate::anthropic::wire::{
    self, DeltaView, MessagesRequestView, MessagesResponseView, StreamEventView, WireUsage,
};
use crate::error::ErrorView;
use crate::json::{self, Json};
use crate::types::content::ContentBlockView;
use crate::types::conversation::ConversationView;
use crate::types::request::{self, RequestOptionsView, ToolChoiceView};
use crate::types::response::{self, ResponseView};
use crate::types::streaming::EventView;

verus! {

/// Every block of a reply goes back to the provider exactly as it came.
pub proof fn blocks_round_trip(block: Json)
    ensures
        adapter::block_json(adapter::block_of(block)) == block,
{
}

/// Keys and kinds that must not be mixed up.
proof fn lemma_names_differ()
    ensures
        "type"@ != "text"@,
        "type"@ != "id"@,
        "type"@ != "name"@,
        "type"@ != "input"@,
        "type"@ != "thinking"@,
        "type"@ != "signature"@,
        "id"@ != "name"@,
        "id"@ != "input"@,
        "name"@ != "input"@,
        "thinking"@ != "signature"@,
        "text"@ != "tool_use"@,
        "text"@ != "thinking"@,
        "tool_use"@ != "thinking"@,
        "type"@ != "citations"@,
        "text"@ != "citations"@,
{
    reveal_strlit("citations");
    assert("citations"@.len() == 9);
    reveal_strlit("type");
    reveal_strlit("text");
    reveal_strlit("id");
    reveal_strlit("name");
    reveal_strlit("input");
    reveal_strlit("thinking");
    reveal_strlit("signature");
    reveal_strlit("tool_use");
    assert("type"@.len() == 4 && "text"@.len() == 4);
    assert("type"@[0] == 't' && "type"@[1] == 'y');
    assert("text"@[1] == 'e');
    assert("name"@[0] == 'n');
    assert("id"@.len() == 2 && "input"@.len() == 5);
    assert("thinking"@.len() == 8 && "signature"@.len() == 9);
    assert("thinking"@[1] == 'h' && "tool_use"@[1] == 'o');
}

/// Text and tool calls that carry no wire form of their own read back as they
/// were written.
pub proof fn shared_blocks_read_back(block: ContentBlockView)
    requires
        block matches ContentBlockView::Text { extras, .. } ==> extras is None,
        block matches ContentBlockView::ToolUse { extras, .. } ==> extras is None,
        block is Text || block is ToolUse,
    ensures
        adapter::block_of(adapter::block_json(block)) == block,
{
    lemma_names_differ();
}

/// In every later request, a reply stands where it was recorded, as an
/// assistant message with all its blocks in order, each as the provider sent it,
/// save that the last one may carry a cache breakpoint.
pub proof fn replies_are_echoed(
    c: ConversationView,
    opts: RequestOptionsView,
    reply: MessagesResponseView,
    at: int,
    i: int,
)
    requires
        0 <= at < c.messages.len(),
        c.messages[at] == adapter::response_of(reply).message,
        0 <= i < reply.content.len(),
    ensures
        ({
            let sent = adapter::request_messages(c, opts)[at];
            let marked = adapter::breakpoint_at(c, opts, at) && i == reply.content.len() - 1;
            &&& sent.role == "assistant"@
            &&& sent.content.len() == reply.content.len()
            &&& sent.content[i] == if marked {
                adapter::with_breakpoint(reply.content[i])
            } else {
                reply.content[i]
            }
        }),
{
    blocks_round_trip(reply.content[i]);
}

/// Tool results of one turn go out together in one user message, each naming
/// the call it answers.
pub proof fn tool_results_name_their_calls(
    c: ConversationView,
    opts: RequestOptionsView,
    at: int,
    i: int,
)
    requires
        0 <= at < c.messages.len(),
        0 <= i < c.messages[at].content.len(),
        c.messages[at].content[i] is ToolResult,
    ensures
        ({
            let block = c.messages[at].content[i];
            let sent = adapter::request_messages(c, opts)[at].content[i];
            &&& json::string_member(sent, "type"@) == Some("tool_result"@)
            &&& json::string_member(sent, "tool_use_id"@) == Some(block->ToolResult_id)
            &&& json::string_member(sent, "content"@) == Some(
                block->ToolResult_output.text(),
            )
            &&& json::member(sent, "is_error"@) == if block->ToolResult_output is Error {
                Some(Json::Bool(true))
            } else {
                None
            }
        }),
{
    reveal_strlit("type");
    reveal_strlit("tool_use_id");
    reveal_strlit("content");
    reveal_strlit("is_error");
    reveal_strlit("cache_control");
    assert("type"@.len() == 4 && "content"@.len() == 7 && "is_error"@.len() == 8);
    assert("tool_use_id"@.len() == 11 && "cache_control"@.len() == 13);
}

/// A cache breakpoint is one more member on the last block and changes nothing
/// else.
pub proof fn breakpoints_only_add_a_marker(blocks: Seq<ContentBlockView>)
    ensures
        ({
            let plain = adapter::content_json(blocks, false);
            let marked = adapter::content_json(blocks, true);
            &&& marked.len() == plain.len()
            &&& forall|i: int| 0 <= i < blocks.len() - 1 ==> #[trigger] marked[i] == plain[i]
            &&& blocks.len() > 0 ==> match plain.last() {
                Json::Object(m) => marked.last() == Json::Object(
                    m.insert("cache_control"@, wire::cache_json("ephemeral"@)),
                ),
                other => marked.last() == other,
            }
        }),
{
}

/// A conversation that is only appended to is cached as a whole, and none of
/// its blocks carries a breakpoint.
pub proof fn append_only_is_cached_whole(
    c: ConversationView,
    opts: RequestOptionsView,
    stream: bool,
    i: int,
)
    requires
        c.volatile is None,
        opts.cache_breakpoint_from_end is None,
        0 <= i < c.messages.len(),
    ensures
        adapter::request_view(c, opts, stream).cache_control == Some("ephemeral"@),
        adapter::request_messages(c, opts)[i] == adapter::message_wire(c.messages[i], false),
{
}

/// While a message is marked volatile, the breakpoint is on the message before
/// it, nowhere else unless the options ask for one more, and the prompt is not
/// cached as a whole.
pub proof fn volatile_tail_is_not_cached(
    c: ConversationView,
    opts: RequestOptionsView,
    stream: bool,
    i: int,
)
    requires
        c.volatile_index() is Some,
        0 <= i < c.messages.len(),
    ensures
        adapter::request_view(c, opts, stream).cache_control is None,
        i + 1 == c.volatile_index()->0 ==> adapter::request_messages(c, opts)[i]
            == adapter::message_wire(c.messages[i], true),
        opts.cache_breakpoint_from_end is None && i + 1 != c.volatile_index()->0
            ==> adapter::request_messages(c, opts)[i] == adapter::message_wire(
            c.messages[i],
            false,
        ),
{
}

/// A breakpoint that the options ask for goes that many messages before the
/// last one and takes the place of the whole-prompt marker; one that points out
/// of the transcript changes nothing.
pub proof fn requested_breakpoint_is_placed(
    c: ConversationView,
    opts: RequestOptionsView,
    stream: bool,
)
    requires
        opts.cache_breakpoint_from_end is Some,
    ensures
        ({
            let n = opts.cache_breakpoint_from_end->0;
            let plain = RequestOptionsView { cache_breakpoint_from_end: None, ..opts };
            &&& n < c.messages.len() ==> {
                let at = c.messages.len() - 1 - n;
                &&& adapter::request_view(c, opts, stream).cache_control is None
                &&& adapter::request_messages(c, opts)[at] == adapter::message_wire(
                    c.messages[at],
                    true,
                )
            }
            &&& n >= c.messages.len() ==> adapter::request_view(c, opts, stream)
                == adapter::request_view(c, plain, stream)
        }),
{
    let n = opts.cache_breakpoint_from_end->0;
    let plain = RequestOptionsView { cache_breakpoint_from_end: None, ..opts };
    if n >= c.messages.len() {
        assert(adapter::request_messages(c, opts) =~= adapter::request_messages(c, plain));
    }
}

/// A turn of the environment loop, a reply and then a rotation, leaves every
/// message before the old state block as it was, and the breakpoint behind them
/// moves on: the cached prefix only grows.
pub proof fn rotation_grows_the_cached_prefix(
    c: ConversationView,
    reply: ResponseView,
    stub: Seq<char>,
    fat: Seq<char>,
    i: int,
)
    requires
        c.well_formed(),
        c.volatile_index() is Some,
        c.messages.len() < usize::MAX,
        0 <= i < c.volatile_index()->0,
    ensures
        ({
            let next = c.with_response(reply).with_rotated(stub, fat);
            &&& adapter::message_wire(next.messages[i], false) == adapter::message_wire(
                c.messages[i],
                false,
            )
            &&& adapter::stable_breakpoint(c.volatile_index()) is Some
            &&& adapter::stable_breakpoint(next.volatile_index()) is Some
            &&& adapter::stable_breakpoint(c.volatile_index())->0 < adapter::stable_breakpoint(
                next.volatile_index(),
            )->0
        }),
{
}

/// Options that ask for nothing leave everything optional out of the request:
/// instructions, tools, the choice among them, a temperature, streaming.
pub proof fn defaults_leave_options_out(c: ConversationView, model: Seq<char>)
    ensures
        ({
            let opts = RequestOptionsView { model, ..request::default_options() };
            let r = adapter::request_view(c, opts, false);
            &&& r.model == model
            &&& r.max_tokens == 64_000
            &&& r.system is None
            &&& r.tools.len() == 0
            &&& r.tool_choice is None
            &&& r.temperature is None
            &&& r.stream is None
            &&& wire::opt_tools_json(r.tools) is None
        }),
{
}

/// The hosted web search comes behind the caller's tools and changes nothing
/// else.
pub proof fn web_search_only_adds_a_tool(
    c: ConversationView,
    opts: RequestOptionsView,
    stream: bool,
)
    ensures
        ({
            let on = adapter::request_view(
                c,
                RequestOptionsView { web_search: true, ..opts },
                stream,
            );
            let off = adapter::request_view(
                c,
                RequestOptionsView { web_search: false, ..opts },
                stream,
            );
            on == MessagesRequestView { tools: off.tools.push(adapter::search_tool()), ..off }
        }),
{
    let on = RequestOptionsView { web_search: true, ..opts };
    let off = RequestOptionsView { web_search: false, ..opts };
    assert(adapter::request_messages(c, on) =~= adapter::request_messages(c, off));
}

/// The tool choice is left out only where it says no more than the provider's
/// default; control over parallel calls always arrives.
pub proof fn tool_choice_is_sent_unless_default(choice: ToolChoiceView, parallel: Option<bool>)
    ensures
        adapter::wire_choice(choice, parallel) is None <==> choice is Auto && parallel is None,
        parallel matches Some(p) ==> adapter::wire_choice(choice, parallel)
            is Some && adapter::wire_choice(choice, parallel)->0.disable_parallel_tool_use == Some(
            !p,
        ),
{
}

/// Streaming changes the stream flag of a request and nothing else.
pub proof fn streaming_only_sets_a_flag(c: ConversationView, opts: RequestOptionsView)
    ensures
        adapter::request_view(c, opts, true) == (MessagesRequestView {
            stream: Some(true),
            ..adapter::request_view(c, opts, false)
        }),
{
}

/// A model is told how to think in one of two ways, never both: by a budget, or
/// by an effort.
pub proof fn thinking_goes_one_way(c: ConversationView, opts: RequestOptionsView, stream: bool)
    ensures
        ({
            let r = adapter::request_view(c, opts, stream);
            &&& r.thinking is Some
            &&& r.thinking->0 is Enabled <==> adapter::extended(opts.model)
            &&& r.thinking->0 is Enabled <==> r.output_config is None
        }),
{
}

/// The counts of a turn add up to the size of its prompt.
pub proof fn usage_adds_up(reply: MessagesResponseView)
    ensures
        response::total_input(adapter::response_of(reply).usage) == reply.usage.input_tokens
            + reply.usage.cache_creation_input_tokens + reply.usage.cache_read_input_tokens,
{
}

/// However a text is cut into deltas, the block grows by the same text.
pub proof fn fragmentation_does_not_matter(
    state: AssemblerView,
    index: int,
    a: Seq<char>,
    b: Seq<char>,
)
    requires
        0 <= index,
    ensures
        state.with_delta(index, DeltaView::TextDelta(a)).with_delta(index, DeltaView::TextDelta(b))
            == state.with_delta(index, DeltaView::TextDelta(a + b)),
        state.with_delta(index, DeltaView::ThinkingDelta(a)).with_delta(
            index,
            DeltaView::ThinkingDelta(b),
        ) == state.with_delta(index, DeltaView::ThinkingDelta(a + b)),
        state.with_delta(index, DeltaView::SignatureDelta(a)).with_delta(
            index,
            DeltaView::SignatureDelta(b),
        ) == state.with_delta(index, DeltaView::SignatureDelta(a + b)),
        state.with_delta(index, DeltaView::InputJsonDelta(a)).with_delta(
            index,
            DeltaView::InputJsonDelta(b),
        ) == state.with_delta(index, DeltaView::InputJsonDelta(a + b)),
{
    if index < state.blocks.len() {
        lemma_deltas_add_up(state, index, DeltaView::TextDelta(a), DeltaView::TextDelta(b));
        lemma_deltas_add_up(state, index, DeltaView::ThinkingDelta(a), DeltaView::ThinkingDelta(b));
        lemma_deltas_add_up(state, index, DeltaView::SignatureDelta(a), DeltaView::SignatureDelta(b));
        lemma_deltas_add_up(state, index, DeltaView::InputJsonDelta(a), DeltaView::InputJsonDelta(b));
    }
}

/// Two deltas of one kind as one.
spec fn joined(a: DeltaView, b: DeltaView) -> DeltaView {
    match (a, b) {
        (DeltaView::TextDelta(x), DeltaView::TextDelta(y)) => DeltaView::TextDelta(x + y),
        (DeltaView::ThinkingDelta(x), DeltaView::ThinkingDelta(y)) => DeltaView::ThinkingDelta(
            x + y,
        ),
        (DeltaView::SignatureDelta(x), DeltaView::SignatureDelta(y)) => DeltaView::SignatureDelta(
            x + y,
        ),
        (DeltaView::InputJsonDelta(x), DeltaView::InputJsonDelta(y)) => DeltaView::InputJsonDelta(
            x + y,
        ),
        _ => DeltaView::Other,
    }
}

proof fn lemma_deltas_add_up(state: AssemblerView, index: int, a: DeltaView, b: DeltaView)
    requires
        0 <= index < state.blocks.len(),
        !(joined(a, b) is Other),
    ensures
        state.with_delta(index, a).with_delta(index, b) == state.with_delta(index, joined(a, b)),
{
    let s = state.blocks[index];
    match (s, a, b) {
        (
            BlockStateView::Text { text: t, .. },
            DeltaView::TextDelta(x),
            DeltaView::TextDelta(y),
        ) => {
            assert((t + x) + y =~= t + (x + y));
        },
        (
            BlockStateView::Thinking { thinking: t, .. },
            DeltaView::ThinkingDelta(x),
            DeltaView::ThinkingDelta(y),
        ) => {
            assert((t + x) + y =~= t + (x + y));
        },
        (
            BlockStateView::Thinking { signature: t, .. },
            DeltaView::SignatureDelta(x),
            DeltaView::SignatureDelta(y),
        ) => {
            assert((t + x) + y =~= t + (x + y));
        },
        (
            BlockStateView::ToolUse { json: t, .. },
            DeltaView::InputJsonDelta(x),
            DeltaView::InputJsonDelta(y),
        ) => {
            assert((t + x) + y =~= t + (x + y));
        },
        (
            BlockStateView::Raw { json: t, .. },
            DeltaView::InputJsonDelta(x),
            DeltaView::InputJsonDelta(y),
        ) => {
            assert((t + x) + y =~= t + (x + y));
        },
        _ => {},
    }
    assert(state.with_delta(index, a).with_delta(index, b).blocks =~= state.with_delta(
        index,
        joined(a, b),
    ).blocks);
}

/// A block that is opened behind the others takes the slot of its number, and
/// its deltas go there, even where numbers before it were skipped. Only a tool
/// call is announced, by its id and its name.
pub proof fn blocks_take_their_slot(
    state: AssemblerView,
    index: usize,
    block: Json,
    delta: DeltaView,
)
    requires
        state.blocks.len() <= index,
    ensures
        ({
            let next = state.with_started(index as nat, block);
            &&& next.blocks.len() == index + 1
            &&& next.blocks[index as int] == sse::opened(block)
            &&& next.with_delta(index as int, delta).blocks[index as int] == sse::grown(
                sse::opened(block),
                delta,
            )
            &&& next.outcome(StreamEventView::ContentBlockDelta { index, delta }) == Ok::<
                Seq<EventView>,
                ErrorView,
            >(sse::delta_events(sse::opened(block), delta))
            &&& state.outcome(StreamEventView::ContentBlockStart { index, content_block: block })
                == Ok::<Seq<EventView>, ErrorView>(
                if json::text_member(block, "type"@) == "tool_use"@ {
                    seq![
                        EventView::ToolUseStart {
                            id: json::text_member(block, "id"@),
                            name: json::text_member(block, "name"@),
                        },
                    ]
                } else {
                    Seq::empty()
                },
            )
        }),
{
    lemma_names_differ();
}

/// Opening a block behind the others does not matter to the deltas of blocks
/// that were opened before: they reach their own block and are passed on as ever.
pub proof fn earlier_blocks_keep_their_deltas(
    state: AssemblerView,
    index: nat,
    block: Json,
    other: usize,
    delta: DeltaView,
)
    requires
        state.blocks.len() <= index,
        other < state.blocks.len(),
    ensures
        state.with_started(index, block).with_delta(other as int, delta) == state.with_delta(
            other as int,
            delta,
        ).with_started(index, block),
        state.with_started(index, block).outcome(
            StreamEventView::ContentBlockDelta { index: other, delta },
        ) == state.outcome(StreamEventView::ContentBlockDelta { index: other, delta }),
{
    assert(state.with_started(index, block).with_delta(other as int, delta).blocks
        =~= state.with_delta(other as int, delta).with_started(index, block).blocks);
}

/// A number that was skipped, or that no block has yet, swallows its deltas:
/// nothing is passed on, and nothing changes.
pub proof fn skipped_numbers_swallow_deltas(
    state: AssemblerView,
    index: nat,
    block: Json,
    skipped: usize,
    delta: DeltaView,
)
    requires
        state.blocks.len() <= skipped,
        skipped != index,
        state.blocks.len() <= index,
    ensures
        ({
            let next = state.with_started(index, block);
            &&& next.with_delta(skipped as int, delta) == next
            &&& next.outcome(StreamEventView::ContentBlockDelta { index: skipped, delta }) == Ok::<
                Seq<EventView>,
                ErrorView,
            >(Seq::empty())
        }),
{
    let next = state.with_started(index, block);
    assert(next.with_delta(skipped as int, delta).blocks =~= next.blocks);
}

/// A stream whose blocks come out as the blocks of a reply ends in the turn that
/// the reply itself would make: streamed or not, the content is the same.
pub proof fn stream_matches_reply(state: AssemblerView, reply: MessagesResponseView)
    requires
        state.blocks.len() == reply.content.len(),
        forall|i: int|
            0 <= i < state.blocks.len() ==> sse::rebuilt(#[trigger] state.blocks[i]) == Ok::<
                Option<Json>,
                Seq<char>,
            >(Some(reply.content[i])),
        state.stop_reason == reply.stop_reason,
        state.usage == adapter::usage_of(reply.usage),
    ensures
        state.outcome(StreamEventView::MessageStop) == Ok::<Seq<EventView>, ErrorView>(
            seq![EventView::Done(adapter::response_of(reply))],
        ),
{
    lemma_reassembled(state.blocks, reply.content);
}

proof fn lemma_reassembled(blocks: Seq<BlockStateView>, content: Seq<Json>)
    requires
        blocks.len() == content.len(),
        forall|i: int|
            0 <= i < blocks.len() ==> sse::rebuilt(#[trigger] blocks[i]) == Ok::<
                Option<Json>,
                Seq<char>,
            >(Some(content[i])),
    ensures
        sse::reassembled(blocks) == Ok::<Seq<Json>, Seq<char>>(content),
    decreases blocks.len(),
{
    if blocks.len() > 0 {
        assert forall|i: int| 0 <= i < blocks.drop_last().len() implies sse::rebuilt(
            #[trigger] blocks.drop_last()[i],
        ) == Ok::<Option<Json>, Seq<char>>(Some(content.drop_last()[i])) by {
            assert(blocks.drop_last()[i] == blocks[i]);
        }
        lemma_reassembled(blocks.drop_last(), content.drop_last());
        assert(content.drop_last().push(content.last()) =~= content);
    } else {
        assert(content =~= Seq::empty());
    }
}

/// The state behind a run of events.
pub open spec fn run(state: AssemblerView, events: Seq<StreamEventView>) -> AssemblerView
    decreases events.len(),
{
    if events.len() == 0 {
        state
    } else {
        run(state, events.drop_last()).after(events.last())
    }
}

/// A block with all its deltas.
pub open spec fn grown_by(state: BlockStateView, deltas: Seq<DeltaView>) -> BlockStateView
    decreases deltas.len(),
{
    if deltas.len() == 0 {
        state
    } else {
        sse::grown(grown_by(state, deltas.drop_last()), deltas.last())
    }
}

/// What deltas add up to: the pieces of each kind, one behind the other.
pub struct Gathered {
    pub said: Seq<char>,
    pub thought: Seq<char>,
    pub signature: Seq<char>,
    pub input: Seq<char>,
    pub citations: Seq<Json>,
}

/// What deltas add up to.
pub open spec fn gathered(deltas: Seq<DeltaView>) -> Gathered
    decreases deltas.len(),
{
    if deltas.len() == 0 {
        Gathered {
            said: Seq::empty(),
            thought: Seq::empty(),
            signature: Seq::empty(),
            input: Seq::empty(),
            citations: Seq::empty(),
        }
    } else {
        let before = gathered(deltas.drop_last());
        match deltas.last() {
            DeltaView::TextDelta(t) => Gathered { said: before.said + t, ..before },
            DeltaView::ThinkingDelta(t) => Gathered { thought: before.thought + t, ..before },
            DeltaView::SignatureDelta(t) => Gathered { signature: before.signature + t, ..before },
            DeltaView::InputJsonDelta(t) => Gathered { input: before.input + t, ..before },
            DeltaView::CitationsDelta(c) => Gathered {
                citations: before.citations.push(c),
                ..before
            },
            DeltaView::Other => before,
        }
    }
}

/// A block gathers the deltas of its kind, however they are cut, and no others.
pub proof fn blocks_gather_their_deltas(block: Json, deltas: Seq<DeltaView>)
    ensures
        grown_by(sse::opened(block), deltas) == (match sse::opened(block) {
            BlockStateView::Text { .. } => BlockStateView::Text {
                block,
                text: gathered(deltas).said,
                citations: gathered(deltas).citations,
            },
            BlockStateView::Thinking { .. } => BlockStateView::Thinking {
                block,
                thinking: gathered(deltas).thought,
                signature: gathered(deltas).signature,
            },
            BlockStateView::ToolUse { id, .. } => BlockStateView::ToolUse {
                block,
                id,
                json: gathered(deltas).input,
            },
            BlockStateView::Raw { .. } => BlockStateView::Raw {
                block,
                json: gathered(deltas).input,
            },
            BlockStateView::Skipped => BlockStateView::Skipped,
        }),
    decreases deltas.len(),
{
    if deltas.len() > 0 {
        blocks_gather_their_deltas(block, deltas.drop_last());
    }
}

/// What has been passed on of a block so far.
pub open spec fn shown(state: BlockStateView) -> Seq<char> {
    match state {
        BlockStateView::Text { text, .. } => text,
        BlockStateView::Thinking { thinking, .. } => thinking,
        BlockStateView::ToolUse { json, .. } => json,
        _ => Seq::empty(),
    }
}

/// The piece of a block that an event carries.
pub open spec fn carried(event: EventView) -> Seq<char> {
    match event {
        EventView::TextDelta(t) => t,
        EventView::ReasoningDelta(t) => t,
        EventView::ToolInputDelta { json_fragment, .. } => json_fragment,
        _ => Seq::empty(),
    }
}

/// The pieces that events carry, one behind the other.
pub open spec fn all_carried(events: Seq<EventView>) -> Seq<char>
    decreases events.len(),
{
    if events.len() == 0 {
        Seq::empty()
    } else {
        all_carried(events.drop_last()) + carried(events.last())
    }
}

/// The state behind deltas on any blocks, in the order in which they come.
pub open spec fn after_deltas(state: AssemblerView, deltas: Seq<(usize, DeltaView)>) -> AssemblerView
    decreases deltas.len(),
{
    if deltas.len() == 0 {
        state
    } else {
        after_deltas(state, deltas.drop_last()).with_delta(
            deltas.last().0 as int,
            deltas.last().1,
        )
    }
}

/// The events that those of the deltas which are meant for the block numbered
/// `index` are passed on as.
pub open spec fn passed_on(state: AssemblerView, deltas: Seq<(usize, DeltaView)>, index: usize) -> Seq<
    EventView,
>
    decreases deltas.len(),
{
    if deltas.len() == 0 {
        Seq::empty()
    } else {
        let before = passed_on(state, deltas.drop_last(), index);
        let (at, delta) = deltas.last();
        let now = after_deltas(state, deltas.drop_last());
        if at == index && index < now.blocks.len() {
            before + sse::delta_events(now.blocks[index as int], delta)
        } else {
            before
        }
    }
}

/// The pieces that are passed on of a block are what the block has gathered of
/// its text, thought or input, whatever other deltas come in between.
pub proof fn events_add_up_to_the_block(
    state: AssemblerView,
    deltas: Seq<(usize, DeltaView)>,
    index: usize,
)
    requires
        index < state.blocks.len(),
    ensures
        after_deltas(state, deltas).blocks.len() == state.blocks.len(),
        shown(after_deltas(state, deltas).blocks[index as int]) == shown(
            state.blocks[index as int],
        ) + all_carried(passed_on(state, deltas, index)),
    decreases deltas.len(),
{
    if deltas.len() == 0 {
        assert(shown(state.blocks[index as int]) + Seq::<char>::empty() =~= shown(
            state.blocks[index as int],
        ));
    } else {
        events_add_up_to_the_block(state, deltas.drop_last(), index);
        let now = after_deltas(state, deltas.drop_last());
        let before = passed_on(state, deltas.drop_last(), index);
        let (at, delta) = deltas.last();
        if at == index {
            let block = now.blocks[index as int];
            let events = sse::delta_events(block, delta);
            if events.len() == 0 {
                assert(before + events =~= before);
            } else {
                assert((before + events).drop_last() =~= before);
                assert((before + events).last() == events[0]);
                assert(shown(state.blocks[index as int]) + (all_carried(before) + carried(
                    events[0],
                )) =~= shown(state.blocks[index as int]) + all_carried(before) + carried(
                    events[0],
                ));
            }
        }
    }
}

/// A delta that fits its block is passed on as one event that carries it as it
/// is; signatures, citations and the input of hosted calls are kept and not
/// shown; any other delta changes nothing.
pub proof fn deltas_fit_or_are_lost(state: BlockStateView, delta: DeltaView)
    ensures
        match delta {
            DeltaView::TextDelta(t) => state is Text ==> sse::delta_events(state, delta) == seq![
                EventView::TextDelta(t),
            ],
            DeltaView::ThinkingDelta(t) => state is Thinking ==> sse::delta_events(state, delta)
                == seq![EventView::ReasoningDelta(t)],
            DeltaView::InputJsonDelta(t) => state matches BlockStateView::ToolUse { id, .. }
                ==> sse::delta_events(state, delta) == seq![
                EventView::ToolInputDelta { id, json_fragment: t },
            ],
            _ => sse::delta_events(state, delta).len() == 0,
        },
        sse::delta_events(state, delta).len() <= 1,
        sse::delta_events(state, delta).len() == 0 ==> {
            ||| sse::grown(state, delta) == state
            ||| state is Thinking && delta is SignatureDelta
            ||| state is Text && delta is CitationsDelta
            ||| state is Raw && delta is InputJsonDelta
        },
{
}

/// An announced block and its deltas bring this block: the announced block,
/// completed by what the deltas add up to. For hosted calls, as for the tool
/// calls of the caller, that is the value of the input.
pub open spec fn brings(announced: Json, deltas: Seq<DeltaView>, block: Json) -> bool {
    let kind = json::text_member(announced, "type"@);
    let sum = gathered(deltas);
    if kind == "text"@ {
        block == sse::text_whole(announced, sum.said, sum.citations)
    } else if kind == "thinking"@ {
        block == sse::thinking_whole(announced, sum.thought, sum.signature)
    } else if kind == "tool_use"@ {
        &&& sse::input_of(sse::parsed_input(sum.input)) matches Ok(input)
        &&& block == json::with_member(announced, "input"@, input)
    } else {
        sse::raw_whole(announced, sse::parsed_input(sum.input)) == Some(block)
    }
}

/// A block comes out of the stream as its announcement and its deltas bring it.
pub proof fn streamed_blocks_are_whole(announced: Json, deltas: Seq<DeltaView>, block: Json)
    requires
        brings(announced, deltas, block),
    ensures
        sse::rebuilt(grown_by(sse::opened(announced), deltas)) == Ok::<Option<Json>, Seq<char>>(
            Some(block),
        ),
{
    blocks_gather_their_deltas(announced, deltas);
}

/// How a block of a reply is streamed: it is announced with something else in
/// the place of its text, its thought and signature, or its input, and the
/// deltas add up to what is missing. Whatever stood in that place, the block
/// comes out as the reply has it, hosted calls with their input as well, and a
/// text with all its citations. A block that no delta is meant for, or of whose
/// hosted input too little arrived to be read, comes out as it was announced.
pub proof fn announcements_are_completed(
    block: Json,
    p: Json,
    q: Json,
    cited: Seq<Json>,
    deltas: Seq<DeltaView>,
)
    ensures
        ({
            let kind = json::text_member(block, "type"@);
            let sum = gathered(deltas);
            let own = kind == "text"@ || kind == "thinking"@ || kind == "tool_use"@;
            &&& kind == "text"@ && json::member(block, "text"@) == Some(Json::Str(sum.said))
                && sum.citations.len() == 0 ==> brings(
                json::with_member(block, "text"@, p),
                deltas,
                block,
            )
            &&& kind == "text"@ && json::member(block, "text"@) == Some(Json::Str(sum.said))
                && json::member(block, "citations"@) == Some(Json::Array(cited + sum.citations))
                ==> brings(
                json::with_member(
                    json::with_member(block, "text"@, p),
                    "citations"@,
                    Json::Array(cited),
                ),
                deltas,
                block,
            )
            &&& kind == "thinking"@ && json::member(block, "thinking"@) == Some(
                Json::Str(sum.thought),
            ) && json::member(block, "signature"@) == Some(Json::Str(sum.signature)) ==> brings(
                json::with_member(json::with_member(block, "thinking"@, p), "signature"@, q),
                deltas,
                block,
            )
            &&& kind == "tool_use"@ && (json::member(block, "input"@) matches Some(v)
                && sse::input_of(sse::parsed_input(sum.input)) == Ok::<Json, Seq<char>>(v))
                ==> brings(json::with_member(block, "input"@, p), deltas, block)
            &&& !own && sum.input.len() > 0 && (json::member(block, "input"@) matches Some(v)
                && json::json_parse(sum.input) == Ok::<Json, Seq<char>>(v)) ==> brings(
                json::with_member(block, "input"@, p),
                deltas,
                block,
            )
            &&& !own && block != Json::Null && (sum.input.len() == 0 || json::json_parse(sum.input)
                is Err) ==> brings(block, deltas, block)
        }),
{
    lemma_names_differ();
    match block {
        Json::Object(m) => {
            lemma_set_back(m, "text"@, p);
            lemma_set_back(m, "input"@, p);
            let shell = m.insert("text"@, p).insert("citations"@, Json::Array(cited));
            assert(m.dom().contains("text"@) && m.dom().contains("citations"@) ==> shell.insert(
                "text"@,
                m["text"@],
            ).insert("citations"@, m["citations"@]) =~= m);
            assert(m.dom().contains("text"@) && m.dom().contains("citations"@) && m["citations"@]
                == Json::Array(cited) ==> shell.insert("text"@, m["text"@]) =~= m);
            assert(cited + Seq::<Json>::empty() =~= cited);
            assert(gathered(deltas).citations.len() == 0 ==> gathered(deltas).citations
                =~= Seq::empty());
            let opened = m.insert("thinking"@, p).insert("signature"@, q);
            assert(m.dom().contains("thinking"@) && m.dom().contains("signature"@) ==> opened.insert(
                "thinking"@,
                m["thinking"@],
            ).insert("signature"@, m["signature"@]) =~= m);
        },
        _ => {},
    }
}

/// A member that is replaced and set back leaves the members as they were.
proof fn lemma_set_back(m: Map<Seq<char>, Json>, key: Seq<char>, v: Json)
    ensures
        m.dom().contains(key) ==> m.insert(key, v).insert(key, m[key]) == m,
{
    if m.dom().contains(key) {
        assert(m.insert(key, v).insert(key, m[key]) =~= m);
    }
}

/// The events that bring the block numbered `index`: its opening, its deltas,
/// its end.
pub open spec fn block_events(index: usize, block: Json, deltas: Seq<DeltaView>) -> Seq<
    StreamEventView,
> {
    (seq![StreamEventView::ContentBlockStart { index, content_block: block }]
        + deltas.map_values(
        |delta: DeltaView| StreamEventView::ContentBlockDelta { index, delta },
    )).push(StreamEventView::ContentBlockStop { index })
}

/// The events that bring these blocks one after the other.
pub open spec fn content_events(blocks: Seq<(Json, Seq<DeltaView>)>) -> Seq<StreamEventView>
    decreases blocks.len(),
{
    if blocks.len() == 0 {
        Seq::empty()
    } else {
        content_events(blocks.drop_last()) + block_events(
            (blocks.len() - 1) as usize,
            blocks.last().0,
            blocks.last().1,
        )
    }
}

/// The events of a whole message.
pub open spec fn message_events(
    usage: WireUsage,
    blocks: Seq<(Json, Seq<DeltaView>)>,
    stop_reason: Option<Seq<char>>,
    last_usage: WireUsage,
) -> Seq<StreamEventView> {
    (seq![StreamEventView::MessageStart { usage }] + content_events(blocks)).push(
        StreamEventView::MessageDelta { stop_reason, usage: Some(last_usage) },
    )
}

proof fn lemma_run_parts(state: AssemblerView, a: Seq<StreamEventView>, b: Seq<StreamEventView>)
    ensures
        run(state, a + b) == run(run(state, a), b),
    decreases b.len(),
{
    if b.len() == 0 {
        assert(a + b =~= a);
    } else {
        lemma_run_parts(state, a, b.drop_last());
        assert((a + b).drop_last() =~= a + b.drop_last());
    }
}

proof fn lemma_run_deltas(state: AssemblerView, index: usize, deltas: Seq<DeltaView>)
    requires
        index < state.blocks.len(),
    ensures
        run(
            state,
            deltas.map_values(
                |delta: DeltaView| StreamEventView::ContentBlockDelta { index, delta },
            ),
        ) == (AssemblerView {
            blocks: state.blocks.update(
                index as int,
                grown_by(state.blocks[index as int], deltas),
            ),
            ..state
        }),
    decreases deltas.len(),
{
    let events = deltas.map_values(
        |delta: DeltaView| StreamEventView::ContentBlockDelta { index, delta },
    );
    let end = state.blocks.update(index as int, grown_by(state.blocks[index as int], deltas));
    if deltas.len() == 0 {
        assert(end =~= state.blocks);
    } else {
        let shorter = deltas.drop_last();
        lemma_run_deltas(state, index, shorter);
        assert(events.drop_last() =~= shorter.map_values(
            |delta: DeltaView| StreamEventView::ContentBlockDelta { index, delta },
        ));
        assert(run(state, events).blocks =~= end);
    }
}

/// The events of a block add that block, with all its deltas, behind the others.
proof fn lemma_run_block(state: AssemblerView, index: usize, block: Json, deltas: Seq<DeltaView>)
    requires
        index == state.blocks.len(),
    ensures
        run(state, block_events(index, block, deltas)) == (AssemblerView {
            blocks: state.blocks.push(grown_by(sse::opened(block), deltas)),
            ..state
        }),
{
    let start = seq![StreamEventView::ContentBlockStart { index, content_block: block }];
    let middle = deltas.map_values(
        |delta: DeltaView| StreamEventView::ContentBlockDelta { index, delta },
    );
    let all = block_events(index, block, deltas);
    assert(all.drop_last() =~= start + middle);
    lemma_run_parts(state, start, middle);
    assert(start.drop_last() =~= Seq::empty());
    reveal_with_fuel(run, 2);
    let opened = state.with_started(index as nat, block);
    assert(run(state, start) == opened);
    lemma_run_deltas(opened, index, deltas);
    assert(run(state, all).blocks =~= state.blocks.push(grown_by(sse::opened(block), deltas)));
}

proof fn lemma_run_content(state: AssemblerView, blocks: Seq<(Json, Seq<DeltaView>)>)
    requires
        state.blocks.len() == 0,
        blocks.len() <= usize::MAX,
    ensures
        run(state, content_events(blocks)) == (AssemblerView {
            blocks: blocks.map_values(
                |b: (Json, Seq<DeltaView>)| grown_by(sse::opened(b.0), b.1),
            ),
            ..state
        }),
    decreases blocks.len(),
{
    let end = blocks.map_values(|b: (Json, Seq<DeltaView>)| grown_by(sse::opened(b.0), b.1));
    if blocks.len() == 0 {
        assert(end =~= state.blocks);
    } else {
        let shorter = blocks.drop_last();
        lemma_run_content(state, shorter);
        let mid = run(state, content_events(shorter));
        let index = (blocks.len() - 1) as usize;
        lemma_run_parts(
            state,
            content_events(shorter),
            block_events(index, blocks.last().0, blocks.last().1),
        );
        lemma_run_block(mid, index, blocks.last().0, blocks.last().1);
        assert(run(state, content_events(blocks)).blocks =~= end);
    }
}

/// A whole message that is streamed, block after block and each in any number
/// of deltas, ends in the turn that the same message makes when it is not
/// streamed, hosted calls among it.
pub proof fn streamed_message_matches_reply(
    blocks: Seq<(Json, Seq<DeltaView>)>,
    reply: MessagesResponseView,
    start: WireUsage,
    end: WireUsage,
)
    requires
        blocks.len() <= usize::MAX,
        blocks.len() == reply.content.len(),
        forall|i: int|
            0 <= i < blocks.len() ==> brings(
                (#[trigger] blocks[i]).0,
                blocks[i].1,
                reply.content[i],
            ),
        reply.usage == (WireUsage { output_tokens: end.output_tokens, ..start }),
    ensures
        run(
            AssemblerView::fresh(),
            message_events(start, blocks, reply.stop_reason, end),
        ).outcome(StreamEventView::MessageStop) == Ok::<Seq<EventView>, ErrorView>(
            seq![EventView::Done(adapter::response_of(reply))],
        ),
{
    let fresh = AssemblerView::fresh();
    let first = seq![StreamEventView::MessageStart { usage: start }];
    let all = message_events(start, blocks, reply.stop_reason, end);
    assert(all.drop_last() =~= first + content_events(blocks));
    lemma_run_parts(fresh, first, content_events(blocks));
    assert(first.drop_last() =~= Seq::empty());
    reveal_with_fuel(run, 2);
    let begun = run(fresh, first);
    assert(begun == fresh.after(first[0]));
    lemma_run_content(begun, blocks);
    let last = run(fresh, all);
    assert forall|i: int| 0 <= i < last.blocks.len() implies sse::rebuilt(
        #[trigger] last.blocks[i],
    ) == Ok::<Option<Json>, Seq<char>>(Some(reply.content[i])) by {
        assert(last.blocks[i] == grown_by(sse::opened(blocks[i].0), blocks[i].1));
        streamed_blocks_are_whole(blocks[i].0, blocks[i].1, reply.content[i]);
    }
    stream_matches_reply(last, reply);
}

/// A block that keeps a turn from being made: a call to a tool of the caller whose
/// input has arrived in part or garbled, so that it is no JSON.
pub open spec fn unreadable(block: BlockStateView) -> bool {
    &&& block matches BlockStateView::ToolUse { json, .. }
    &&& json.len() > 0
    &&& json::json_parse(json) is Err
}

/// A stream ends without a turn exactly where a call to a tool of the caller has
/// an input that is no JSON. Nothing else in it, hosted calls cut off in the
/// middle among it, can cost the turn.
pub proof fn only_unreadable_calls_fail_a_turn(state: AssemblerView)
    ensures
        state.finished() is Err <==> exists|i: int|
            0 <= i < state.blocks.len() && unreadable(#[trigger] state.blocks[i]),
{
    lemma_only_unreadable_calls_fail(state.blocks);
}

proof fn lemma_only_unreadable_calls_fail(blocks: Seq<BlockStateView>)
    ensures
        sse::reassembled(blocks) is Err <==> exists|i: int|
            0 <= i < blocks.len() && unreadable(#[trigger] blocks[i]),
    decreases blocks.len(),
{
    if blocks.len() > 0 {
        let shorter = blocks.drop_last();
        lemma_only_unreadable_calls_fail(shorter);
        assert(unreadable(blocks.last()) <==> sse::rebuilt(blocks.last()) is Err);
        if sse::reassembled(shorter) is Err {
            let i = choose|i: int| 0 <= i < shorter.len() && unreadable(#[trigger] shorter[i]);
            assert(unreadable(blocks[i]));
        }
        if sse::rebuilt(blocks.last()) is Err {
            assert(unreadable(blocks[blocks.len() - 1]));
        }
        assert forall|i: int|
            0 <= i < blocks.len() && unreadable(#[trigger] blocks[i]) implies sse::reassembled(
            blocks,
        ) is Err by {
            if i < blocks.len() - 1 {
                assert(unreadable(shorter[i]));
            }
        }
    }
}

/// Slots that were skipped leave no trace in the content.
pub proof fn skipped_slots_leave_no_trace(blocks: Seq<BlockStateView>, index: nat)
    ensures
        sse::reassembled(sse::padded(blocks, index)) == sse::reassembled(blocks),
    decreases index,
{
    if blocks.len() < index {
        let shorter = (index - 1) as nat;
        skipped_slots_leave_no_trace(blocks, shorter);
        assert(sse::padded(blocks, index).drop_last() =~= sse::padded(blocks, shorter));
        assert(sse::padded(blocks, index).last() == BlockStateView::Skipped);
    }
}

} // verus!
