//! What a stream of Anthropic events is passed on as, and the turn it ends in, in
//! terms of the events.

use vstd::prelude::*;

use crate::anthropic::adapter;
use crate::anthropic::sse::{self, AssemblerView, BlockStateView};
use crate::anthropic::wire::{
    ApiErrorView, DeltaView, MessagesResponseView, StreamEventView, WireUsage,
};
use crate::error::{Error, ErrorView};
use crate::json::{self, Json};
use crate::types::response::ResponseView;
use crate::types::streaming::EventView;

verus! {

/// A stream starts without blocks, without counts and without a reason to end.
pub proof fn streams_start_empty()
    ensures
        ({
            let start = AssemblerView::fresh();
            &&& start.blocks.len() == 0
            &&& start.stop_reason is None
            &&& start.usage.input_tokens == 0
            &&& start.usage.output_tokens == 0
            &&& start.usage.cache_creation_input_tokens == 0
            &&& start.usage.cache_read_input_tokens == 0
        }),
{
}

/// What events that are about no content are passed on as: the end of a block as
/// an end, an error as what the provider says of it, by its kind, and the others
/// as nothing.
pub proof fn plain_events_are_passed_on(
    state: AssemblerView,
    index: usize,
    usage: WireUsage,
    last: Option<WireUsage>,
    stop_reason: Option<Seq<char>>,
    kind: Seq<char>,
    message: Seq<char>,
)
    ensures
        state.outcome(StreamEventView::ContentBlockStop { index }) == Ok::<
            Seq<EventView>,
            ErrorView,
        >(seq![EventView::BlockEnd]),
        state.outcome(StreamEventView::Error { error: ApiErrorView { kind, message } }) == Err::<
            Seq<EventView>,
            ErrorView,
        >(ErrorView::Http { status: 0, message: kind + ": "@ + message }),
        state.outcome(StreamEventView::MessageStart { usage }) == Ok::<Seq<EventView>, ErrorView>(
            Seq::empty(),
        ),
        state.outcome(StreamEventView::MessageDelta { stop_reason, usage: last }) == Ok::<
            Seq<EventView>,
            ErrorView,
        >(Seq::empty()),
        state.outcome(StreamEventView::Ping) == Ok::<Seq<EventView>, ErrorView>(Seq::empty()),
        state.outcome(StreamEventView::Other) == Ok::<Seq<EventView>, ErrorView>(Seq::empty()),
{
}

/// The counts of the prompt come with the start of a message, the count of the
/// output and the reason to end with its last delta; the end of a message leaves
/// no blocks; and the end of a block, a ping, an error or an unknown event leaves
/// everything as it was.
pub proof fn counts_and_reasons_are_kept(
    state: AssemblerView,
    index: usize,
    usage: WireUsage,
    last: Option<WireUsage>,
    stop_reason: Option<Seq<char>>,
    error: ApiErrorView,
)
    ensures
        ({
            let begun = state.after(StreamEventView::MessageStart { usage });
            &&& begun.blocks == state.blocks
            &&& begun.stop_reason == state.stop_reason
            &&& begun.usage.input_tokens == usage.input_tokens
            &&& begun.usage.cache_creation_input_tokens == usage.cache_creation_input_tokens
            &&& begun.usage.cache_read_input_tokens == usage.cache_read_input_tokens
            &&& begun.usage.output_tokens == state.usage.output_tokens
        }),
        ({
            let ended = state.after(StreamEventView::MessageDelta { stop_reason, usage: last });
            &&& ended.blocks == state.blocks
            &&& ended.stop_reason == stop_reason
            &&& ended.usage.input_tokens == state.usage.input_tokens
            &&& ended.usage.cache_creation_input_tokens == state.usage.cache_creation_input_tokens
            &&& ended.usage.cache_read_input_tokens == state.usage.cache_read_input_tokens
            &&& ended.usage.output_tokens == match last {
                Some(u) => u.output_tokens,
                None => state.usage.output_tokens,
            }
        }),
        ({
            let over = state.after(StreamEventView::MessageStop);
            &&& over.blocks.len() == 0
            &&& over.stop_reason == state.stop_reason
            &&& over.usage == state.usage
        }),
        state.after(StreamEventView::ContentBlockStop { index }) == state,
        state.after(StreamEventView::Ping) == state,
        state.after(StreamEventView::Error { error }) == state,
        state.after(StreamEventView::Other) == state,
{
}

/// A block that opens comes behind the others, in the slot of its number where
/// that is free, by its kind and with nothing gathered yet; slots that it skips
/// stay empty, and nothing else changes. Only a tool call is announced, by its id
/// and its name.
pub proof fn openings_are_followed(
    state: AssemblerView,
    index: usize,
    content_block: Json,
    other: int,
)
    ensures
        ({
            let ev = StreamEventView::ContentBlockStart { index, content_block };
            let next = state.after(ev);
            let kind = json::member(content_block, "type"@);
            let id = match json::member(content_block, "id"@) {
                Some(Json::Str(id)) => id,
                _ => Seq::empty(),
            };
            let name = match json::member(content_block, "name"@) {
                Some(Json::Str(name)) => name,
                _ => Seq::empty(),
            };
            &&& next.usage == state.usage
            &&& next.stop_reason == state.stop_reason
            &&& next.blocks.len() == 1 + if index < state.blocks.len() {
                state.blocks.len() as int
            } else {
                index as int
            }
            &&& 0 <= other < state.blocks.len() ==> next.blocks[other] == state.blocks[other]
            &&& state.blocks.len() <= other < next.blocks.len() - 1 ==> next.blocks[other]
                == BlockStateView::Skipped
            &&& next.blocks.last() == if kind == Some(Json::Str("text"@)) {
                BlockStateView::Text {
                    block: content_block,
                    text: Seq::empty(),
                    citations: Seq::empty(),
                }
            } else if kind == Some(Json::Str("thinking"@)) {
                BlockStateView::Thinking {
                    block: content_block,
                    thinking: Seq::empty(),
                    signature: Seq::empty(),
                }
            } else if kind == Some(Json::Str("tool_use"@)) {
                BlockStateView::ToolUse { block: content_block, id, json: Seq::empty() }
            } else {
                BlockStateView::Raw { block: content_block, json: Seq::empty() }
            }
            &&& state.outcome(ev) == Ok::<Seq<EventView>, ErrorView>(
                if kind == Some(Json::Str("tool_use"@)) {
                    seq![EventView::ToolUseStart { id, name }]
                } else {
                    Seq::empty()
                },
            )
        }),
{
    reveal_strlit("text");
    reveal_strlit("tool_use");
    reveal_strlit("thinking");
    assert("text"@.len() == 4);
    assert("tool_use"@.len() == 8 && "tool_use"@[1] == 'o');
    assert("thinking"@.len() == 8 && "thinking"@[1] == 'h');
}

/// A delta changes its own block and no other: it is added behind what the block
/// has gathered of its kind, and nothing else about the block changes. A delta of
/// another kind, or without a block, changes nothing at all.
pub proof fn deltas_are_gathered(state: AssemblerView, index: usize, delta: DeltaView, other: int)
    ensures
        ({
            let next = state.after(StreamEventView::ContentBlockDelta { index, delta });
            &&& next.usage == state.usage
            &&& next.stop_reason == state.stop_reason
            &&& next.blocks.len() == state.blocks.len()
            &&& 0 <= other < state.blocks.len() && other != index ==> next.blocks[other]
                == state.blocks[other]
            &&& index < state.blocks.len() ==> match (
                state.blocks[index as int],
                next.blocks[index as int],
            ) {
                (
                    BlockStateView::Text { block, text, citations },
                    BlockStateView::Text { block: b, text: t, citations: c },
                ) => {
                    &&& b == block
                    &&& t == match delta {
                        DeltaView::TextDelta(piece) => text + piece,
                        _ => text,
                    }
                    &&& c == match delta {
                        DeltaView::CitationsDelta(source) => citations.push(source),
                        _ => citations,
                    }
                },
                (
                    BlockStateView::Thinking { block, thinking, signature },
                    BlockStateView::Thinking { block: b, thinking: t, signature: s },
                ) => {
                    &&& b == block
                    &&& t == match delta {
                        DeltaView::ThinkingDelta(piece) => thinking + piece,
                        _ => thinking,
                    }
                    &&& s == match delta {
                        DeltaView::SignatureDelta(piece) => signature + piece,
                        _ => signature,
                    }
                },
                (
                    BlockStateView::ToolUse { block, id, json },
                    BlockStateView::ToolUse { block: b, id: i, json: j },
                ) => {
                    &&& b == block
                    &&& i == id
                    &&& j == match delta {
                        DeltaView::InputJsonDelta(piece) => json + piece,
                        _ => json,
                    }
                },
                (
                    BlockStateView::Raw { block, json },
                    BlockStateView::Raw { block: b, json: j },
                ) => {
                    &&& b == block
                    &&& j == match delta {
                        DeltaView::InputJsonDelta(piece) => json + piece,
                        _ => json,
                    }
                },
                (BlockStateView::Skipped, BlockStateView::Skipped) => true,
                _ => false,
            }
        }),
{
}

/// A delta that fits its block is passed on as one event with that piece and no
/// more, a piece of input under the id of its call. Any other is passed on as
/// nothing.
pub proof fn deltas_are_passed_on(state: AssemblerView, index: usize, delta: DeltaView)
    ensures
        state.outcome(StreamEventView::ContentBlockDelta { index, delta }) == Ok::<
            Seq<EventView>,
            ErrorView,
        >(
            if index >= state.blocks.len() {
                Seq::empty()
            } else {
                match (delta, state.blocks[index as int]) {
                    (DeltaView::TextDelta(piece), BlockStateView::Text { .. }) => seq![
                        EventView::TextDelta(piece),
                    ],
                    (DeltaView::ThinkingDelta(piece), BlockStateView::Thinking { .. }) => seq![
                        EventView::ReasoningDelta(piece),
                    ],
                    (DeltaView::InputJsonDelta(piece), BlockStateView::ToolUse { id, .. }) => seq![
                        EventView::ToolInputDelta { id, json_fragment: piece },
                    ],
                    _ => Seq::empty(),
                }
            },
        ),
{
}

/// The pieces that deltas bring for the block numbered `index`, of the kind that
/// is shown of such a block, one behind the other.
pub open spec fn brought(
    deltas: Seq<(usize, DeltaView)>,
    index: usize,
    block: BlockStateView,
) -> Seq<char>
    decreases deltas.len(),
{
    if deltas.len() == 0 {
        Seq::empty()
    } else {
        let before = brought(deltas.drop_last(), index, block);
        match deltas.last() {
            (at, DeltaView::TextDelta(piece)) => if at == index && block is Text {
                before + piece
            } else {
                before
            },
            (at, DeltaView::ThinkingDelta(piece)) => if at == index && block is Thinking {
                before + piece
            } else {
                before
            },
            (at, DeltaView::InputJsonDelta(piece)) => if at == index && block is ToolUse {
                before + piece
            } else {
                before
            },
            _ => before,
        }
    }
}

/// The state behind deltas on any blocks, in the order in which they come.
pub open spec fn run_deltas(state: AssemblerView, deltas: Seq<(usize, DeltaView)>) -> AssemblerView
    decreases deltas.len(),
{
    if deltas.len() == 0 {
        state
    } else {
        run_deltas(state, deltas.drop_last()).after(
            StreamEventView::ContentBlockDelta { index: deltas.last().0, delta: deltas.last().1 },
        )
    }
}

/// The pieces that are passed on for the block numbered `index`, one behind the
/// other.
pub open spec fn passed_on(
    state: AssemblerView,
    deltas: Seq<(usize, DeltaView)>,
    index: usize,
) -> Seq<char>
    decreases deltas.len(),
{
    if deltas.len() == 0 {
        Seq::empty()
    } else {
        let before = passed_on(state, deltas.drop_last(), index);
        let (at, delta) = deltas.last();
        let now = run_deltas(state, deltas.drop_last());
        match now.outcome(StreamEventView::ContentBlockDelta { index: at, delta }) {
            Ok(events) => if at == index && events.len() > 0 {
                match events[0] {
                    EventView::TextDelta(piece) => before + piece,
                    EventView::ReasoningDelta(piece) => before + piece,
                    EventView::ToolInputDelta { json_fragment, .. } => before + json_fragment,
                    _ => before,
                }
            } else {
                before
            },
            Err(_) => before,
        }
    }
}

/// Over any run of deltas, what is passed on for a block is what the deltas bring
/// for it, piece by piece and once each.
pub proof fn pieces_add_up(state: AssemblerView, deltas: Seq<(usize, DeltaView)>, index: usize)
    requires
        index < state.blocks.len(),
    ensures
        ({
            let block = state.blocks[index as int];
            let now = run_deltas(state, deltas).blocks[index as int];
            &&& passed_on(state, deltas, index) == brought(deltas, index, block)
            &&& run_deltas(state, deltas).blocks.len() == state.blocks.len()
            &&& now is Text <==> block is Text
            &&& now is Thinking <==> block is Thinking
            &&& now is ToolUse <==> block is ToolUse
        }),
    decreases deltas.len(),
{
    if deltas.len() > 0 {
        pieces_add_up(state, deltas.drop_last(), index);
    }
}

/// The turn of a stream is made of its blocks in order: where the blocks of one
/// stream are those of two, its content is that of the first followed by that of
/// the second, and a block that spoils either spoils the whole, the first that
/// does by what is wrong with it.
pub proof fn blocks_follow_each_other(
    state: AssemblerView,
    a: Seq<BlockStateView>,
    b: Seq<BlockStateView>,
)
    ensures
        ({
            let first = AssemblerView { blocks: a, ..state }.finished();
            let second = AssemblerView { blocks: b, ..state }.finished();
            let whole = AssemblerView { blocks: a + b, ..state }.finished();
            match (first, second) {
                (Err(e), _) => whole == first,
                (Ok(_), Err(e)) => whole == second,
                (Ok(x), Ok(y)) => match whole {
                    Ok(z) => {
                        &&& z.message.content == x.message.content + y.message.content
                        &&& z.message.role == x.message.role
                        &&& z.stop_reason == x.stop_reason
                        &&& z.usage == x.usage
                        &&& z.provider == x.provider
                    },
                    Err(_) => false,
                },
            }
        }),
{
    lemma_content_follows(a, b);
    match (sse::reassembled(a), sse::reassembled(b)) {
        (Ok(x), Ok(y)) => {
            assert(adapter::blocks_of(x + y) =~= adapter::blocks_of(x) + adapter::blocks_of(y));
        },
        _ => {},
    }
}

proof fn lemma_content_follows(a: Seq<BlockStateView>, b: Seq<BlockStateView>)
    ensures
        sse::reassembled(a + b) == match (sse::reassembled(a), sse::reassembled(b)) {
            (Err(e), _) => Err(e),
            (Ok(_), Err(e)) => Err(e),
            (Ok(x), Ok(y)) => Ok(x + y),
        },
    decreases b.len(),
{
    if b.len() == 0 {
        assert(a + b =~= a);
        match sse::reassembled(a) {
            Ok(x) => {
                assert(x + Seq::<Json>::empty() =~= x);
            },
            Err(_) => {},
        }
    } else {
        lemma_content_follows(a, b.drop_last());
        assert((a + b).drop_last() =~= a + b.drop_last());
        match (sse::reassembled(a), sse::reassembled(b.drop_last()), sse::rebuilt(b.last())) {
            (Ok(x), Ok(y), Ok(Some(block))) => {
                assert((x + y).push(block) =~= x + y.push(block));
            },
            _ => {},
        }
    }
}

/// The turn that a reply without any streaming makes of these blocks, with the
/// counts and the reason of the stream.
pub open spec fn unstreamed(state: AssemblerView, content: Seq<Json>) -> MessagesResponseView {
    MessagesResponseView {
        content,
        stop_reason: state.stop_reason,
        usage: WireUsage {
            input_tokens: state.usage.input_tokens,
            output_tokens: state.usage.output_tokens,
            cache_creation_input_tokens: state.usage.cache_creation_input_tokens,
            cache_read_input_tokens: state.usage.cache_read_input_tokens,
        },
    }
}

/// A stream without blocks ends in a turn without content.
pub proof fn no_blocks_are_no_content(state: AssemblerView)
    requires
        state.blocks.len() == 0,
    ensures
        match state.finished() {
            Ok(turn) => {
                &&& turn.message.content.len() == 0
                &&& turn == adapter::response_of(unstreamed(state, Seq::empty()))
            },
            Err(_) => false,
        },
{
    assert(adapter::blocks_of(Seq::empty()) =~= Seq::empty());
}

proof fn lemma_one_block(block: BlockStateView)
    ensures
        sse::reassembled(seq![block]) == match sse::rebuilt(block) {
            Ok(Some(j)) => Ok(seq![j]),
            Ok(None) => Ok(Seq::empty()),
            Err(e) => Err(e),
        },
{
    reveal_with_fuel(sse::reassembled, 2);
    assert(seq![block].drop_last() =~= Seq::empty());
    match sse::rebuilt(block) {
        Ok(Some(j)) => {
            assert(Seq::<Json>::empty().push(j) =~= seq![j]);
        },
        _ => {},
    }
}

/// A stream of one text ends in the turn of the announced block with all that was
/// said as its text. Sources that came with it stand behind those that it was
/// announced with; where none came, nothing is said of sources beyond what the
/// announcement said.
pub proof fn streamed_text_is_whole(
    state: AssemblerView,
    block: Json,
    text: Seq<char>,
    citations: Seq<Json>,
)
    requires
        state.blocks == seq![BlockStateView::Text { block, text, citations }],
    ensures
        ({
            let announced = match json::member(block, "citations"@) {
                Some(Json::Array(items)) => items,
                _ => Seq::empty(),
            };
            let whole = match block {
                Json::Object(m) => if citations.len() == 0 {
                    Json::Object(m.insert("text"@, Json::Str(text)))
                } else {
                    Json::Object(
                        m.insert("text"@, Json::Str(text)).insert(
                            "citations"@,
                            Json::Array(announced + citations),
                        ),
                    )
                },
                other => other,
            };
            state.finished() == Ok::<_, ErrorView>(
                adapter::response_of(unstreamed(state, seq![whole])),
            )
        }),
{
    lemma_one_block(state.blocks[0]);
}

/// A stream of one thought ends in the turn of the announced block with all that
/// was thought and the whole signature.
pub proof fn streamed_thinking_is_whole(
    state: AssemblerView,
    block: Json,
    thinking: Seq<char>,
    signature: Seq<char>,
)
    requires
        state.blocks == seq![BlockStateView::Thinking { block, thinking, signature }],
    ensures
        ({
            let whole = match block {
                Json::Object(m) => Json::Object(
                    m.insert("thinking"@, Json::Str(thinking)).insert(
                        "signature"@,
                        Json::Str(signature),
                    ),
                ),
                other => other,
            };
            state.finished() == Ok::<_, ErrorView>(
                adapter::response_of(unstreamed(state, seq![whole])),
            )
        }),
{
    lemma_one_block(state.blocks[0]);
}

/// A stream of one tool call ends in the turn of the announced block with the
/// value of the input that arrived, and with an object without members where none
/// did. An input that is no JSON leaves no turn, but the parser's message.
pub proof fn streamed_calls_are_whole(
    state: AssemblerView,
    block: Json,
    id: Seq<char>,
    text: Seq<char>,
)
    requires
        state.blocks == seq![BlockStateView::ToolUse { block, id, json: text }],
    ensures
        ({
            let input = if text.len() == 0 {
                Ok(Json::Object(Map::empty()))
            } else {
                json::json_parse(text)
            };
            match (input, block) {
                (Ok(v), Json::Object(m)) => state.finished() == Ok::<_, ErrorView>(
                    adapter::response_of(
                        unstreamed(state, seq![Json::Object(m.insert("input"@, v))]),
                    ),
                ),
                (Ok(_), other) => state.finished() == Ok::<_, ErrorView>(
                    adapter::response_of(unstreamed(state, seq![other])),
                ),
                (Err(e), _) => state.finished() == Err::<ResponseView, _>(
                    ErrorView::Deserialize(e),
                ),
            }
        }),
{
    lemma_one_block(state.blocks[0]);
}

/// A stream of one block that is not interpreted ends in the turn of that block
/// as it was announced, with the value of the input that arrived where it can be
/// read.
pub proof fn streamed_hosted_calls_are_whole(state: AssemblerView, block: Json, text: Seq<char>)
    requires
        state.blocks == seq![BlockStateView::Raw { block, json: text }],
        block != Json::Null,
    ensures
        ({
            let whole = match (block, json::json_parse(text)) {
                (Json::Object(m), Ok(input)) => if text.len() > 0 {
                    Json::Object(m.insert("input"@, input))
                } else {
                    block
                },
                _ => block,
            };
            state.finished() == Ok::<_, ErrorView>(
                adapter::response_of(unstreamed(state, seq![whole])),
            )
        }),
{
    lemma_one_block(state.blocks[0]);
}

/// A skipped slot, and a block that was announced as null, leave nothing in the
/// turn.
pub proof fn empty_slots_are_no_content(state: AssemblerView, text: Seq<char>)
    requires
        state.blocks == seq![BlockStateView::Skipped] || state.blocks == seq![
            BlockStateView::Raw { block: Json::Null, json: text },
        ],
    ensures
        state.finished() == Ok::<_, ErrorView>(
            adapter::response_of(unstreamed(state, Seq::empty())),
        ),
{
    lemma_one_block(state.blocks[0]);
}

/// The end of a message is passed on as the turn that its blocks make, or as the
/// error that keeps them from it.
pub proof fn messages_end_in_their_turn(state: AssemblerView)
    ensures
        state.outcome(StreamEventView::MessageStop) == match state.finished() {
            Ok(turn) => Ok::<Seq<EventView>, ErrorView>(seq![EventView::Done(turn)]),
            Err(e) => Err(e),
        },
{
}


/// A block that closes takes what the text of its input was parsed as. A call of a
/// tool of the caller takes a value as it is, and an object without members where
/// no text arrived, and fails with the parser's message where there is one. Any
/// other block takes a value where there is one, and else stays as it is; null is
/// no block.
pub proof fn closing_blocks_take_their_input(
    block: serde_json::Value,
    parsed: Option<Result<serde_json::Value, String>>,
    r: Result<serde_json::Value, Error>,
    s: Option<serde_json::Value>,
)
    requires
        call_ensures(sse::close_tool_use, (block, parsed), r),
        call_ensures(sse::close_raw, (block, parsed), s),
    ensures
        match parsed {
            Some(Ok(v)) => r matches Ok(whole) && match json::json_of(block) {
                Json::Object(m) => json::json_of(whole) == Json::Object(
                    m.insert("input"@, json::json_of(v)),
                ),
                other => json::json_of(whole) == other,
            },
            Some(Err(message)) => r matches Err(e) && e@ == ErrorView::Deserialize(message@),
            None => r matches Ok(whole) && match json::json_of(block) {
                Json::Object(m) => json::json_of(whole) == Json::Object(
                    m.insert("input"@, Json::Object(Map::empty())),
                ),
                other => json::json_of(whole) == other,
            },
        },
        json::json_of(block) is Null <==> s is None,
        s matches Some(whole) ==> match (json::json_of(block), parsed) {
            (Json::Object(m), Some(Ok(v))) => json::json_of(whole) == Json::Object(
                m.insert("input"@, json::json_of(v)),
            ),
            (other, _) => json::json_of(whole) == other,
        },
{
}

} // verus!
