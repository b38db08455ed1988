//! Anthropic's event stream to shared [`Event`]s.
//!
//! Anthropic emits block start/delta/stop rather than a final full payload, so
//! content is reassembled here for [`Event::Done`].

use vstd::prelude::*;

use crate::anthropic::adapter::{self, map_stop_reason, wire_block_to_agnostic};
use crate::anthropic::wire::{Delta, DeltaView, StreamEvent, StreamEventView};
use crate::error::{Error, ErrorView};
use crate::json::{self, str_field, Json};
use crate::text::{self, same};
use crate::types::content::{self, ContentBlock};
use crate::types::conversation::{Message, MessageView, ProviderKind, Role};
use crate::types::response::{self, Response, ResponseView, Usage};
use crate::types::streaming::{
    self, flatten_step, no_events, one_event, sse_error, Event, EventView, Fault,
};

verus! {

/// A block of which the deltas so far have arrived, with the form in which it
/// was announced.
#[derive(Debug)]
pub enum BlockState {
    Text { block: serde_json::Value, text: String, citations: Vec<serde_json::Value> },
    Thinking { block: serde_json::Value, thinking: String, signature: String },
    ToolUse { block: serde_json::Value, id: String, json: String },
    /// Not interpreted; hosted tools are called with an input all the same.
    Raw { block: serde_json::Value, json: String },
    /// A number that was passed over.
    Skipped,
}

/// Accumulates in-flight blocks so the final message matches a non-stream reply.
#[derive(Debug)]
pub struct Assembler {
    blocks: Vec<BlockState>,
    usage: Usage,
    stop_reason: Option<String>,
}

/// A block in flight as mathematics sees it.
pub enum BlockStateView {
    Text { block: Json, text: Seq<char>, citations: Seq<Json> },
    Thinking { block: Json, thinking: Seq<char>, signature: Seq<char> },
    ToolUse { block: Json, id: Seq<char>, json: Seq<char> },
    Raw { block: Json, json: Seq<char> },
    Skipped,
}

/// The blocks in flight as mathematics sees them.
pub struct AssemblerView {
    pub blocks: Seq<BlockStateView>,
    pub usage: Usage,
    pub stop_reason: Option<Seq<char>>,
}

impl View for BlockState {
    type V = BlockStateView;

    open spec fn view(&self) -> BlockStateView {
        match *self {
            BlockState::Text { block, text, citations } => BlockStateView::Text {
                block: json::json_of(block),
                text: text@,
                citations: json::jsons_of(citations@),
            },
            BlockState::Thinking { block, thinking, signature } => BlockStateView::Thinking {
                block: json::json_of(block),
                thinking: thinking@,
                signature: signature@,
            },
            BlockState::ToolUse { block, id, json } => BlockStateView::ToolUse {
                block: json::json_of(block),
                id: id@,
                json: json@,
            },
            BlockState::Raw { block, json } => BlockStateView::Raw {
                block: json::json_of(block),
                json: json@,
            },
            BlockState::Skipped => BlockStateView::Skipped,
        }
    }
}

/// What each block of a sequence is.
pub open spec fn states_view(blocks: Seq<BlockState>) -> Seq<BlockStateView> {
    blocks.map_values(|b: BlockState| b@)
}

impl View for Assembler {
    type V = AssemblerView;

    closed spec fn view(&self) -> AssemblerView {
        AssemblerView {
            blocks: states_view(self.blocks@),
            usage: self.usage,
            stop_reason: text::opt_text(self.stop_reason),
        }
    }
}

/// A block that has just been opened.
pub open spec fn opened(block: Json) -> BlockStateView {
    let kind = json::text_member(block, "type"@);
    if kind == "text"@ {
        BlockStateView::Text { block, text: Seq::empty(), citations: Seq::empty() }
    } else if kind == "thinking"@ {
        BlockStateView::Thinking { block, thinking: Seq::empty(), signature: Seq::empty() }
    } else if kind == "tool_use"@ {
        BlockStateView::ToolUse {
            block,
            id: json::text_member(block, "id"@),
            json: Seq::empty(),
        }
    } else {
        BlockStateView::Raw { block, json: Seq::empty() }
    }
}

/// What the opening of a block is announced by.
pub open spec fn opening_events(block: Json) -> Seq<EventView> {
    match opened(block) {
        BlockStateView::ToolUse { id, .. } => seq![
            EventView::ToolUseStart { id, name: json::text_member(block, "name"@) },
        ],
        _ => Seq::empty(),
    }
}

/// The blocks with an empty slot for each that was skipped before `index`.
pub open spec fn padded(blocks: Seq<BlockStateView>, index: nat) -> Seq<BlockStateView> {
    if blocks.len() < index {
        blocks + Seq::new(
            (index - blocks.len()) as nat,
            |i: int| BlockStateView::Skipped,
        )
    } else {
        blocks
    }
}

/// A block with one more delta. A delta of another kind is lost on it.
pub open spec fn grown(state: BlockStateView, delta: DeltaView) -> BlockStateView {
    match (state, delta) {
        (BlockStateView::Text { block, text, citations }, DeltaView::TextDelta(t)) => {
            BlockStateView::Text { block, text: text + t, citations }
        },
        (BlockStateView::Text { block, text, citations }, DeltaView::CitationsDelta(c)) => {
            BlockStateView::Text { block, text, citations: citations.push(c) }
        },
        (BlockStateView::Thinking { block, thinking, signature }, DeltaView::ThinkingDelta(t)) => {
            BlockStateView::Thinking { block, thinking: thinking + t, signature }
        },
        (BlockStateView::Thinking { block, thinking, signature }, DeltaView::SignatureDelta(s)) => {
            BlockStateView::Thinking { block, thinking, signature: signature + s }
        },
        (BlockStateView::ToolUse { block, id, json }, DeltaView::InputJsonDelta(j)) => {
            BlockStateView::ToolUse { block, id, json: json + j }
        },
        (BlockStateView::Raw { block, json }, DeltaView::InputJsonDelta(j)) => BlockStateView::Raw {
            block,
            json: json + j,
        },
        _ => state,
    }
}

/// What a delta on a block is passed on as. Signatures, citations and the input
/// of hosted calls are kept, not shown.
pub open spec fn delta_events(state: BlockStateView, delta: DeltaView) -> Seq<EventView> {
    match (state, delta) {
        (BlockStateView::Text { .. }, DeltaView::TextDelta(t)) => seq![EventView::TextDelta(t)],
        (BlockStateView::Thinking { .. }, DeltaView::ThinkingDelta(t)) => seq![
            EventView::ReasoningDelta(t),
        ],
        (BlockStateView::ToolUse { id, .. }, DeltaView::InputJsonDelta(j)) => seq![
            EventView::ToolInputDelta { id, json_fragment: j },
        ],
        _ => Seq::empty(),
    }
}

/// What the text of a tool call's input parses as, where there is any.
pub open spec fn parsed_input(json: Seq<char>) -> Option<Result<Json, Seq<char>>> {
    if json.len() == 0 {
        None
    } else {
        Some(json::json_parse(json))
    }
}

/// The input of a tool call, given what its text parses as. No text at all
/// stands for an object without members.
pub open spec fn input_of(parsed: Option<Result<Json, Seq<char>>>) -> Result<Json, Seq<char>> {
    match parsed {
        Some(result) => result,
        None => Ok(Json::Object(json::no_members())),
    }
}

/// A text as a reply that is not streamed has it: the announced block with all
/// that was said, and with the citations that came behind the announced ones.
pub open spec fn text_whole(block: Json, text: Seq<char>, citations: Seq<Json>) -> Json {
    let said = json::with_member(block, "text"@, Json::Str(text));
    if citations.len() == 0 {
        said
    } else {
        let announced = match json::array_member(block, "citations"@) {
            Some(items) => items,
            None => Seq::empty(),
        };
        json::with_member(said, "citations"@, Json::Array(announced + citations))
    }
}

/// Thinking as a reply that is not streamed has it.
pub open spec fn thinking_whole(block: Json, thinking: Seq<char>, signature: Seq<char>) -> Json {
    let thought = json::with_member(block, "thinking"@, Json::Str(thinking));
    json::with_member(thought, "signature"@, Json::Str(signature))
}

/// A block that is not interpreted, as a reply that is not streamed has it,
/// given what the text of its input parses as: as it was announced, but with
/// that input where one arrived. An input that is cut off is no JSON and is left
/// out: the call is the provider's own, and the rest of the turn stands. Null is
/// no block.
pub open spec fn raw_whole(block: Json, parsed: Option<Result<Json, Seq<char>>>) -> Option<Json> {
    if block == Json::Null {
        None
    } else {
        match parsed {
            Some(Ok(v)) => Some(json::with_member(block, "input"@, v)),
            _ => Some(block),
        }
    }
}

/// The block as a reply that is not streamed has it: none for an empty slot,
/// the parser's message where the input of a call to a tool of the caller is no
/// JSON.
pub open spec fn rebuilt(state: BlockStateView) -> Result<Option<Json>, Seq<char>> {
    match state {
        BlockStateView::Text { block, text, citations } => Ok(
            Some(text_whole(block, text, citations)),
        ),
        BlockStateView::Thinking { block, thinking, signature } => Ok(
            Some(thinking_whole(block, thinking, signature)),
        ),
        BlockStateView::ToolUse { block, json, .. } => match input_of(parsed_input(json)) {
            Ok(input) => Ok(Some(json::with_member(block, "input"@, input))),
            Err(e) => Err(e),
        },
        BlockStateView::Raw { block, json } => Ok(raw_whole(block, parsed_input(json))),
        BlockStateView::Skipped => Ok(None),
    }
}

/// The content as a reply that is not streamed has it, or the message of the
/// first block that cannot be rebuilt.
pub open spec fn reassembled(blocks: Seq<BlockStateView>) -> Result<Seq<Json>, Seq<char>>
    decreases blocks.len(),
{
    if blocks.len() == 0 {
        Ok(Seq::empty())
    } else {
        match reassembled(blocks.drop_last()) {
            Ok(content) => match rebuilt(blocks.last()) {
                Ok(Some(block)) => Ok(content.push(block)),
                Ok(None) => Ok(content),
                Err(e) => Err(e),
            },
            Err(e) => Err(e),
        }
    }
}

impl AssemblerView {
    /// Nothing has arrived yet.
    pub open spec fn fresh() -> Self {
        AssemblerView { blocks: Seq::empty(), usage: response::no_usage(), stop_reason: None }
    }

    pub open spec fn with_started(self, index: nat, block: Json) -> Self {
        AssemblerView { blocks: padded(self.blocks, index).push(opened(block)), ..self }
    }

    pub open spec fn with_delta(self, index: int, delta: DeltaView) -> Self {
        if index < self.blocks.len() {
            AssemblerView {
                blocks: self.blocks.update(index, grown(self.blocks[index], delta)),
                ..self
            }
        } else {
            self
        }
    }

    /// The turn that the blocks make, or the error that keeps them from it.
    pub open spec fn finished(self) -> Result<ResponseView, ErrorView> {
        match reassembled(self.blocks) {
            Ok(content) => Ok(
                ResponseView {
                    message: MessageView {
                        role: Role::Assistant,
                        content: adapter::blocks_of(content),
                    },
                    stop_reason: adapter::stop_of(self.stop_reason),
                    usage: self.usage,
                    provider: ProviderKind::Anthropic,
                },
            ),
            Err(e) => Err(ErrorView::Deserialize(e)),
        }
    }

    /// The state behind an event.
    pub open spec fn after(self, ev: StreamEventView) -> Self {
        match ev {
            StreamEventView::MessageStart { usage } => AssemblerView {
                usage: Usage {
                    input_tokens: usage.input_tokens,
                    cache_creation_input_tokens: usage.cache_creation_input_tokens,
                    cache_read_input_tokens: usage.cache_read_input_tokens,
                    ..self.usage
                },
                ..self
            },
            StreamEventView::ContentBlockStart { index, content_block } => self.with_started(
                index as nat,
                content_block,
            ),
            StreamEventView::ContentBlockDelta { index, delta } => self.with_delta(
                index as int,
                delta,
            ),
            StreamEventView::MessageDelta { stop_reason, usage } => AssemblerView {
                stop_reason,
                usage: match usage {
                    Some(u) => Usage { output_tokens: u.output_tokens, ..self.usage },
                    None => self.usage,
                },
                ..self
            },
            StreamEventView::MessageStop => AssemblerView { blocks: Seq::empty(), ..self },
            _ => self,
        }
    }

    /// What an event is passed on as.
    pub open spec fn outcome(self, ev: StreamEventView) -> streaming::StepOutcome {
        match ev {
            StreamEventView::ContentBlockStart { content_block, .. } => Ok(
                opening_events(content_block),
            ),
            StreamEventView::ContentBlockDelta { index, delta } => if index < self.blocks.len() {
                Ok(delta_events(self.blocks[index as int], delta))
            } else {
                Ok(Seq::empty())
            },
            StreamEventView::ContentBlockStop { .. } => Ok(seq![EventView::BlockEnd]),
            StreamEventView::MessageStop => match self.finished() {
                Ok(response) => Ok(seq![EventView::Done(response)]),
                Err(e) => Err(e),
            },
            StreamEventView::Error { error } => Err(
                ErrorView::Http { status: 0, message: error.kind + ": "@ + error.message },
            ),
            _ => Ok(Seq::empty()),
        }
    }
}

/// What an optional parse result is.
pub open spec fn parsed_view(parsed: Option<Result<serde_json::Value, String>>) -> Option<
    Result<Json, Seq<char>>,
> {
    match parsed {
        Some(Ok(v)) => Some(Ok(json::json_of(v))),
        Some(Err(e)) => Some(Err(e@)),
        None => None,
    }
}

/// What the text of a call's input parses as, where there is any.
fn parse_input(json: &str) -> (r: Option<Result<serde_json::Value, String>>)
    ensures
        parsed_view(r) == parsed_input(json@),
{
    if json.is_empty() {
        None
    } else {
        Some(json::parse(json))
    }
}

/// The wire block of a tool call, given what the text of its input parses as.
pub fn close_tool_use(
    block: serde_json::Value,
    parsed: Option<Result<serde_json::Value, String>>,
) -> (r: Result<serde_json::Value, Error>)
    ensures
        match input_of(parsed_view(parsed)) {
            Ok(input) => r matches Ok(v) && json::json_of(v) == json::with_member(
                json::json_of(block),
                "input"@,
                input,
            ),
            Err(message) => r matches Err(e) && e@ == ErrorView::Deserialize(message),
        },
{
    let input = match parsed {
        Some(Ok(v)) => v,
        Some(Err(e)) => {
            return Err(Error::Deserialize(e));
        },
        None => json::object(serde_json::Map::new()),
    };
    Ok(json::set_member(block, "input", input))
}

/// The wire block of a call that the provider hosts, or of any other block that
/// is not interpreted, given what the text of its input parses as.
pub fn close_raw(
    block: serde_json::Value,
    parsed: Option<Result<serde_json::Value, String>>,
) -> (r: Option<serde_json::Value>)
    ensures
        json::opt_json(r) == raw_whole(json::json_of(block), parsed_view(parsed)),
{
    if block.is_null() {
        return None;
    }
    match parsed {
        Some(Ok(v)) => Some(json::set_member(block, "input", v)),
        _ => Some(block),
    }
}

/// The wire block of a text.
fn close_text(
    block: serde_json::Value,
    text: &str,
    citations: Vec<serde_json::Value>,
) -> (r: serde_json::Value)
    ensures
        json::json_of(r) == text_whole(json::json_of(block), text@, json::jsons_of(citations@)),
{
    let ghost came = json::jsons_of(citations@);
    if citations.len() == 0 {
        return json::set_member(block, "text", json::string(text));
    }
    let mut all: Vec<serde_json::Value> = Vec::new();
    assert(json::jsons_of(all@) =~= Seq::empty());
    match json::get_array(&block, "citations") {
        Some(items) => {
            for i in 0..items.len()
                invariant
                    all@.len() == i,
                    forall|k: int|
                        0 <= k < i ==> json::json_of(#[trigger] all@[k]) == json::json_of(
                            items@[k],
                        ),
            {
                all.push(items[i].clone());
            }
            assert(json::jsons_of(all@) =~= json::jsons_of(items@));
        },
        None => {},
    }
    let ghost announced = json::jsons_of(all@);
    let mut citations = citations;
    all.append(&mut citations);
    assert(json::jsons_of(all@) =~= announced + came);
    let block = json::set_member(block, "text", json::string(text));
    json::set_member(block, "citations", json::array(all))
}

impl BlockState {
    /// The block as a reply that is not streamed has it.
    fn rebuild(self) -> (r: Result<Option<serde_json::Value>, Error>)
        ensures
            match rebuilt(self@) {
                Ok(block) => r matches Ok(v) && json::opt_json(v) == block,
                Err(message) => r matches Err(e) && e@ == ErrorView::Deserialize(message),
            },
    {
        match self {
            BlockState::Text { block, text, citations } => Ok(
                Some(close_text(block, text.as_str(), citations)),
            ),
            BlockState::Thinking { block, thinking, signature } => {
                let block = json::set_member(block, "thinking", json::string(thinking.as_str()));
                Ok(
                    Some(
                        json::set_member(block, "signature", json::string(signature.as_str())),
                    ),
                )
            },
            BlockState::ToolUse { block, json, .. } => {
                let parsed = parse_input(json.as_str());
                match close_tool_use(block, parsed) {
                    Ok(v) => Ok(Some(v)),
                    Err(e) => Err(e),
                }
            },
            BlockState::Raw { block, json } => {
                let parsed = parse_input(json.as_str());
                Ok(close_raw(block, parsed))
            },
            BlockState::Skipped => Ok(None),
        }
    }
}

impl Assembler {
    /// Nothing has arrived yet.
    pub fn new() -> (r: Self)
        ensures
            r@ == AssemblerView::fresh(),
    {
        let r = Assembler { blocks: Vec::new(), usage: Usage::default(), stop_reason: None };
        assert(r@.blocks =~= Seq::empty());
        r
    }

    /// Takes in what the transport brings; hands out the items that this adds to
    /// the event stream. A fault leaves the blocks in flight as they are.
    pub fn step(&mut self, frame: Result<StreamEvent, Fault>) -> (r: Vec<Result<Event, Error>>)
        ensures
            match frame {
                Ok(ev) => {
                    &&& final(self)@ == old(self)@.after(ev@)
                    &&& streaming::items_view(r@) == streaming::stream_items(
                        old(self)@.outcome(ev@),
                    )
                },
                Err(fault) => {
                    &&& final(self)@ == old(self)@
                    &&& streaming::items_view(r@) == streaming::stream_items(
                        Err(streaming::fault_view(fault)),
                    )
                },
            },
    {
        match frame {
            Ok(ev) => flatten_step(self.handle(ev)),
            Err(fault) => flatten_step(Err(sse_error(fault))),
        }
    }

    /// Takes in an event of the provider; hands out what it is passed on as.
    pub fn handle(&mut self, ev: StreamEvent) -> (r: Result<Vec<Event>, Error>)
        ensures
            final(self)@ == old(self)@.after(ev@),
            streaming::outcome_view(r) == old(self)@.outcome(ev@),
    {
        match ev {
            StreamEvent::MessageStart { message } => {
                self.usage.input_tokens = message.usage.input_tokens;
                self.usage.cache_creation_input_tokens = message.usage.cache_creation_input_tokens;
                self.usage.cache_read_input_tokens = message.usage.cache_read_input_tokens;
                Ok(no_events())
            },
            StreamEvent::ContentBlockStart { index, content_block } => Ok(
                self.start_block(index, content_block),
            ),
            StreamEvent::ContentBlockDelta { index, delta } => Ok(self.apply_delta(index, delta)),
            StreamEvent::ContentBlockStop { .. } => Ok(one_event(Event::BlockEnd)),
            StreamEvent::MessageDelta { delta, usage } => {
                self.stop_reason = delta.stop_reason;
                if let Some(u) = usage {
                    self.usage.output_tokens = u.output_tokens;
                }
                Ok(no_events())
            },
            StreamEvent::MessageStop => match self.finish() {
                Ok(response) => Ok(one_event(Event::Done(response))),
                Err(e) => Err(e),
            },
            StreamEvent::Ping => Ok(no_events()),
            StreamEvent::Other => Ok(no_events()),
            StreamEvent::Error { error } => {
                let mut message = error.kind;
                message.append(": ");
                message.append(error.message.as_str());
                Err(Error::Http { status: 0, message })
            },
        }
    }

    /// Opens a block.
    fn start_block(&mut self, index: usize, block: serde_json::Value) -> (r: Vec<Event>)
        ensures
            final(self)@ == old(self)@.with_started(index as nat, json::json_of(block)),
            streaming::events_view(r@) == opening_events(json::json_of(block)),
    {
        let kind = str_field(&block, "type");
        let ghost given = json::json_of(block);
        let (state, events) = if same(kind.as_str(), "text") {
            (
                BlockState::Text { block, text: String::new(), citations: Vec::new() },
                no_events(),
            )
        } else if same(kind.as_str(), "thinking") {
            (
                BlockState::Thinking { block, thinking: String::new(), signature: String::new() },
                no_events(),
            )
        } else if same(kind.as_str(), "tool_use") {
            let id = str_field(&block, "id");
            let name = str_field(&block, "name");
            let ev = Event::ToolUseStart { id: id.clone(), name };
            (BlockState::ToolUse { block, id, json: String::new() }, one_event(ev))
        } else {
            (BlockState::Raw { block, json: String::new() }, no_events())
        };
        assert(Seq::<serde_json::Value>::empty().map_values(
            |v: serde_json::Value| json::json_of(v),
        ) =~= Seq::<Json>::empty());
        assert(state@ == opened(given));
        // Indices are sparse if earlier blocks were skipped; pad so deltas land
        // on the right slot.
        let ghost before = self@;
        while self.blocks.len() < index
            invariant
                before == old(self)@,
                self.usage == old(self).usage,
                self.stop_reason == old(self).stop_reason,
                self.blocks@.len() >= before.blocks.len(),
                self.blocks@.len() <= index || self.blocks@.len() == before.blocks.len(),
                states_view(self.blocks@) == padded(before.blocks, self.blocks@.len()),
            decreases index - self.blocks@.len(),
        {
            let ghost had = self.blocks@;
            self.blocks.push(BlockState::Skipped);
            assert(states_view(self.blocks@) =~= states_view(had).push(BlockStateView::Skipped));
            assert(states_view(self.blocks@) =~= padded(before.blocks, self.blocks@.len()));
        }
        assert(states_view(self.blocks@) =~= padded(before.blocks, index as nat));
        let ghost had = self.blocks@;
        self.blocks.push(state);
        assert(states_view(self.blocks@) =~= states_view(had).push(opened(given)));
        events
    }

    /// Adds a delta to its block. A delta without a block is lost.
    fn apply_delta(&mut self, index: usize, delta: Delta) -> (r: Vec<Event>)
        ensures
            final(self)@ == old(self)@.with_delta(index as int, delta@),
            streaming::outcome_view(Ok(r)) == old(self)@.outcome(
                (StreamEventView::ContentBlockDelta { index, delta: delta@ }),
            ),
    {
        if index >= self.blocks.len() {
            return no_events();
        }
        let ghost before = self@;
        assert(before.blocks[index as int] == self.blocks@[index as int]@);
        let events = match (&mut self.blocks[index], delta) {
            (BlockState::Text { text: said, .. }, Delta::TextDelta { text }) => {
                said.append(text.as_str());
                one_event(Event::TextDelta(text))
            },
            // Sources are not shown to users but belong to the text.
            (BlockState::Text { citations, .. }, Delta::CitationsDelta { citation }) => {
                proof {
                    json::lemma_jsons_push(citations@, citation);
                }
                citations.push(citation);
                no_events()
            },
            (BlockState::Thinking { thinking, .. }, Delta::ThinkingDelta { thinking: t }) => {
                thinking.append(t.as_str());
                one_event(Event::ReasoningDelta(t))
            },
            // Signature is not shown to users but must be complete for round-trip.
            (BlockState::Thinking { signature, .. }, Delta::SignatureDelta { signature: s }) => {
                signature.append(s.as_str());
                no_events()
            },
            (BlockState::ToolUse { id, json, .. }, Delta::InputJsonDelta { partial_json }) => {
                json.append(partial_json.as_str());
                one_event(Event::ToolInputDelta { id: id.clone(), json_fragment: partial_json })
            },
            // The provider runs its own calls, but their input is part of them.
            (BlockState::Raw { json, .. }, Delta::InputJsonDelta { partial_json }) => {
                json.append(partial_json.as_str());
                no_events()
            },
            _ => no_events(),
        };
        assert(self@.blocks =~= before.with_delta(index as int, delta@).blocks);
        events
    }

    /// Closes all blocks and makes a turn of them.
    fn finish(&mut self) -> (r: Result<Response, Error>)
        ensures
            final(self)@ == old(self)@.after(StreamEventView::MessageStop),
            match old(self)@.finished() {
                Ok(response) => r matches Ok(x) && x@ == response,
                Err(error) => r matches Err(e) && e@ == error,
            },
    {
        let mut blocks: Vec<BlockState> = Vec::new();
        std::mem::swap(&mut blocks, &mut self.blocks);
        assert(self@.blocks =~= Seq::empty());
        let ghost states = states_view(blocks@);
        let ghost mut rebuilt_so_far: Seq<Json> = Seq::empty();
        let mut content: Vec<ContentBlock> = Vec::new();
        assert(states.take(0) =~= Seq::empty());
        for state in it: blocks
            invariant
                states == states_view(it.seq()),
                states == old(self)@.blocks,
                self@ == old(self)@.after(StreamEventView::MessageStop),
                reassembled(states.take(it.index() as int)) == Ok::<Seq<Json>, Seq<char>>(
                    rebuilt_so_far,
                ),
                content::blocks_view(content@) == adapter::blocks_of(rebuilt_so_far),
        {
            let ghost i = it.index() as int;
            assert(states[i] == state@);
            assert(states.take(i + 1).drop_last() =~= states.take(i));
            let closed = state.rebuild();
            match closed {
                Ok(Some(block)) => {
                    let ghost j = json::json_of(block);
                    let ghost had = content@;
                    match wire_block_to_agnostic(block) {
                        Ok(b) => content.push(b),
                        Err(e) => {
                            return Err(e);
                        },
                    }
                    proof {
                        assert(content::blocks_view(content@) =~= content::blocks_view(had).push(
                            adapter::block_of(j),
                        ));
                        assert(adapter::blocks_of(rebuilt_so_far.push(j)) =~= adapter::blocks_of(
                            rebuilt_so_far,
                        ).push(adapter::block_of(j)));
                        rebuilt_so_far = rebuilt_so_far.push(j);
                    }
                },
                Ok(None) => {},
                Err(e) => {
                    proof {
                        lemma_failed_stays(states, i + 1);
                    }
                    return Err(e);
                },
            }
        }
        assert(states.take(states.len() as int) =~= states);
        let stop_reason = match &self.stop_reason {
            Some(s) => map_stop_reason(Some(s.as_str())),
            None => map_stop_reason(None),
        };
        Ok(
            Response {
                message: Message { role: Role::Assistant, content },
                stop_reason,
                usage: self.usage,
                provider: ProviderKind::Anthropic,
            },
        )
    }
}

/// A block that cannot be rebuilt is reported, whatever comes behind it.
proof fn lemma_failed_stays(blocks: Seq<BlockStateView>, n: int)
    requires
        0 <= n <= blocks.len(),
        reassembled(blocks.take(n)) is Err,
    ensures
        reassembled(blocks) == reassembled(blocks.take(n)),
    decreases blocks.len() - n,
{
    if n < blocks.len() {
        assert(blocks.take(n + 1).drop_last() =~= blocks.take(n));
        lemma_failed_stays(blocks, n + 1);
    } else {
        assert(blocks.take(n) =~= blocks);
    }
}

/// What a parser made of a text is seen as it is: a value, or its message.
pub proof fn parses_are_seen_whole(v: serde_json::Value, e: String)
    ensures
        parsed_view(Some(Ok(v))) == Some(Ok::<Json, Seq<char>>(json::json_of(v))),
        parsed_view(Some(Err(e))) == Some(Err::<Json, Seq<char>>(e@)),
        parsed_view(None) is None,
{
}

} // verus!
