//! The Responses event stream to shared [`Event`]s.
//!
//! Deltas are emitted live; [`Event::Done`] uses the final `response.completed`
//! payload (not client reassembly) so content matches the non-stream path.

use vstd::prelude::*;

use crate::error::{Error, ErrorView};
use crate::json::{self, str_field, Json};
use crate::responses::adapter::{self, parse_response};
use crate::responses::wire::{self, StreamEvent, StreamEventView};
use crate::text::{concat, same};
use crate::types::conversation::ProviderKind;
use crate::types::streaming::{
    self, flatten_step, no_events, one_event, sse_error, Event, EventView, Fault,
};

verus! {

/// Tracks open items only for routing deltas by `output_index`.
#[derive(Debug)]
pub enum ItemState {
    Message { text: String },
    Reasoning { summary: String },
    FunctionCall { call_id: String, name: String, arguments: String },
    Raw(serde_json::Value),
}

/// Routes deltas to the items they belong to.
#[derive(Debug)]
pub struct Assembler {
    provider: ProviderKind,
    items: Vec<ItemState>,
}

/// An open item as mathematics sees it.
pub enum ItemStateView {
    Message { text: Seq<char> },
    Reasoning { summary: Seq<char> },
    FunctionCall { call_id: Seq<char>, name: Seq<char>, arguments: Seq<char> },
    Raw(Json),
}

/// The open items as mathematics sees them.
pub struct AssemblerView {
    pub provider: ProviderKind,
    pub items: Seq<ItemStateView>,
}

impl View for ItemState {
    type V = ItemStateView;

    open spec fn view(&self) -> ItemStateView {
        match *self {
            ItemState::Message { text } => ItemStateView::Message { text: text@ },
            ItemState::Reasoning { summary } => ItemStateView::Reasoning { summary: summary@ },
            ItemState::FunctionCall { call_id, name, arguments } => ItemStateView::FunctionCall {
                call_id: call_id@,
                name: name@,
                arguments: arguments@,
            },
            ItemState::Raw(v) => ItemStateView::Raw(json::json_of(v)),
        }
    }
}

/// What each item of a sequence is.
pub open spec fn states_view(items: Seq<ItemState>) -> Seq<ItemStateView> {
    items.map_values(|i: ItemState| i@)
}

impl View for Assembler {
    type V = AssemblerView;

    closed spec fn view(&self) -> AssemblerView {
        AssemblerView { provider: self.provider, items: states_view(self.items@) }
    }
}

/// An item that has just been opened.
pub open spec fn opened(item: Json) -> ItemStateView {
    let kind = json::text_member(item, "type"@);
    if kind == "message"@ {
        ItemStateView::Message { text: Seq::empty() }
    } else if kind == "reasoning"@ {
        ItemStateView::Reasoning { summary: Seq::empty() }
    } else if kind == "function_call"@ {
        ItemStateView::FunctionCall {
            call_id: json::text_member(item, "call_id"@),
            name: json::text_member(item, "name"@),
            arguments: Seq::empty(),
        }
    } else {
        ItemStateView::Raw(item)
    }
}

/// What the opening of an item is announced by.
pub open spec fn opening_events(item: Json) -> Seq<EventView> {
    match opened(item) {
        ItemStateView::FunctionCall { call_id, name, .. } => seq![
            EventView::ToolUseStart { id: call_id, name },
        ],
        _ => Seq::empty(),
    }
}

/// The items with an empty slot for each that was skipped before `index`.
pub open spec fn padded(items: Seq<ItemStateView>, index: nat) -> Seq<ItemStateView> {
    if items.len() < index {
        items + Seq::new((index - items.len()) as nat, |i: int| ItemStateView::Raw(Json::Null))
    } else {
        items
    }
}

/// The items with this one in the slot `index`.
pub open spec fn placed(items: Seq<ItemStateView>, index: nat, item: ItemStateView) -> Seq<
    ItemStateView,
> {
    let items = padded(items, index);
    if index == items.len() {
        items.push(item)
    } else {
        items.update(index as int, item)
    }
}

/// A delta, by the kind of item it is meant for.
pub enum DeltaView {
    Text(Seq<char>),
    Reasoning(Seq<char>),
    Arguments(Seq<char>),
}

/// An item with one more delta. A delta of another kind is lost on it.
pub open spec fn grown(state: ItemStateView, delta: DeltaView) -> ItemStateView {
    match (state, delta) {
        (ItemStateView::Message { text }, DeltaView::Text(d)) => ItemStateView::Message {
            text: text + d,
        },
        (ItemStateView::Reasoning { summary }, DeltaView::Reasoning(d)) => {
            ItemStateView::Reasoning { summary: summary + d }
        },
        (ItemStateView::FunctionCall { call_id, name, arguments }, DeltaView::Arguments(d)) => {
            ItemStateView::FunctionCall { call_id, name, arguments: arguments + d }
        },
        _ => state,
    }
}

/// What a delta on an item is passed on as.
pub open spec fn delta_events(state: ItemStateView, delta: DeltaView) -> Seq<EventView> {
    match (state, delta) {
        (ItemStateView::Message { .. }, DeltaView::Text(d)) => seq![EventView::TextDelta(d)],
        (ItemStateView::Reasoning { .. }, DeltaView::Reasoning(d)) => seq![
            EventView::ReasoningDelta(d),
        ],
        (ItemStateView::FunctionCall { call_id, .. }, DeltaView::Arguments(d)) => seq![
            EventView::ToolInputDelta { id: call_id, json_fragment: d },
        ],
        _ => Seq::empty(),
    }
}

impl AssemblerView {
    /// Nothing has arrived yet.
    pub open spec fn fresh(provider: ProviderKind) -> Self {
        AssemblerView { provider, items: Seq::empty() }
    }

    pub open spec fn with_started(self, index: nat, item: Json) -> Self {
        AssemblerView { items: placed(self.items, index, opened(item)), ..self }
    }

    pub open spec fn with_delta(self, index: int, delta: DeltaView) -> Self {
        if index < self.items.len() {
            AssemblerView {
                items: self.items.update(index, grown(self.items[index], delta)),
                ..self
            }
        } else {
            self
        }
    }

    /// What a delta is passed on as. A delta without an item is lost.
    pub open spec fn routed(self, index: int, delta: DeltaView) -> Seq<EventView> {
        if index < self.items.len() {
            delta_events(self.items[index], delta)
        } else {
            Seq::empty()
        }
    }

    /// The state behind an event.
    pub open spec fn after(self, ev: StreamEventView) -> Self {
        match ev {
            StreamEventView::OutputItemAdded { output_index, item } => self.with_started(
                output_index as nat,
                item,
            ),
            StreamEventView::OutputTextDelta { output_index, delta } => self.with_delta(
                output_index as int,
                DeltaView::Text(delta),
            ),
            StreamEventView::ReasoningSummaryTextDelta { output_index, delta } => self.with_delta(
                output_index as int,
                DeltaView::Reasoning(delta),
            ),
            StreamEventView::FunctionCallArgumentsDelta { output_index, delta } => self.with_delta(
                output_index as int,
                DeltaView::Arguments(delta),
            ),
            _ => self,
        }
    }

    /// What an event is passed on as.
    pub open spec fn outcome(self, ev: StreamEventView) -> streaming::StepOutcome {
        match ev {
            StreamEventView::OutputItemAdded { item, .. } => Ok(opening_events(item)),
            StreamEventView::OutputTextDelta { output_index, delta } => Ok(
                self.routed(output_index as int, DeltaView::Text(delta)),
            ),
            StreamEventView::ReasoningSummaryTextDelta { output_index, delta } => Ok(
                self.routed(output_index as int, DeltaView::Reasoning(delta)),
            ),
            StreamEventView::FunctionCallArgumentsDelta { output_index, delta } => Ok(
                self.routed(output_index as int, DeltaView::Arguments(delta)),
            ),
            StreamEventView::OutputItemDone => Ok(seq![EventView::BlockEnd]),
            StreamEventView::ResponseCompleted { response } => Ok(
                seq![EventView::Done(adapter::response_of(self.provider, response))],
            ),
            StreamEventView::ResponseFailed { response } => Err(
                ErrorView::Http { status: 0, message: "response failed: "@ + response.status },
            ),
            // Incomplete still yields a usable partial response for the tool loop.
            StreamEventView::ResponseIncomplete { response } => Ok(
                seq![EventView::Done(adapter::response_of(self.provider, response))],
            ),
            StreamEventView::Error { error } => Err(
                ErrorView::Http { status: 0, message: error.message },
            ),
            StreamEventView::Other => Ok(Seq::empty()),
        }
    }
}

impl Assembler {
    /// Nothing has arrived from this provider yet.
    pub fn new(provider: ProviderKind) -> (r: Self)
        ensures
            r@ == AssemblerView::fresh(provider),
    {
        let r = Assembler { provider, items: Vec::new() };
        assert(r@.items =~= Seq::empty());
        r
    }

    /// Takes in what the transport brings; hands out the items that this adds to
    /// the event stream. A fault leaves the open items as they are.
    pub fn step(&mut self, frame: Result<StreamEvent, Fault>) -> (r: Vec<Result<Event, Error>>)
        ensures
            match frame {
                Ok(ev) => {
                    &&& final(self)@ == old(self)@.after(ev@)
                    &&& streaming::items_view(r@) == streaming::stream_items(
                        old(self)@.outcome(ev@),
                    )
                },
                Err(fault) => {
                    &&& final(self)@ == old(self)@
                    &&& streaming::items_view(r@) == streaming::stream_items(
                        Err(streaming::fault_view(fault)),
                    )
                },
            },
    {
        match frame {
            Ok(ev) => flatten_step(self.handle(ev)),
            Err(fault) => flatten_step(Err(sse_error(fault))),
        }
    }

    /// Takes in an event of the provider; hands out what it is passed on as.
    pub fn handle(&mut self, ev: StreamEvent) -> (r: Result<Vec<Event>, Error>)
        ensures
            final(self)@ == old(self)@.after(ev@),
            streaming::outcome_view(r) == old(self)@.outcome(ev@),
    {
        match ev {
            StreamEvent::OutputItemAdded { output_index, item } => Ok(
                self.start_item(output_index, item),
            ),
            StreamEvent::OutputTextDelta { output_index, delta } => Ok(
                self.apply_text_delta(output_index, delta),
            ),
            StreamEvent::ReasoningSummaryTextDelta { output_index, delta } => Ok(
                self.apply_reasoning_delta(output_index, delta),
            ),
            StreamEvent::FunctionCallArgumentsDelta { output_index, delta } => Ok(
                self.apply_function_args_delta(output_index, delta),
            ),
            StreamEvent::OutputItemDone { .. } => Ok(one_event(Event::BlockEnd)),
            StreamEvent::ResponseCompleted { response } => self.done(response),
            StreamEvent::ResponseFailed { response } => Err(
                Error::Http {
                    status: 0,
                    message: concat("response failed: ", response.status.as_str()),
                },
            ),
            // Incomplete still yields a usable partial response for the tool loop.
            StreamEvent::ResponseIncomplete { response } => self.done(response),
            StreamEvent::Error { error } => Err(Error::Http { status: 0, message: error.message }),
            StreamEvent::ResponseCreated { .. } => Ok(no_events()),
            StreamEvent::ResponseInProgress { .. } => Ok(no_events()),
            StreamEvent::Other => Ok(no_events()),
        }
    }

    /// The turn that the final payload makes.
    fn done(&self, response: wire::ResponsesResponse) -> (r: Result<Vec<Event>, Error>)
        ensures
            streaming::outcome_view(r) == Ok::<Seq<EventView>, ErrorView>(
                seq![EventView::Done(adapter::response_of(self@.provider, response@))],
            ),
    {
        match parse_response(self.provider, response) {
            Ok(turn) => Ok(one_event(Event::Done(turn))),
            Err(e) => Err(e),
        }
    }

    /// Opens an item.
    fn start_item(&mut self, index: usize, item: serde_json::Value) -> (r: Vec<Event>)
        ensures
            final(self)@ == old(self)@.with_started(index as nat, json::json_of(item)),
            streaming::events_view(r@) == opening_events(json::json_of(item)),
    {
        let kind = str_field(&item, "type");
        let ghost given = json::json_of(item);
        let (state, events) = if same(kind.as_str(), "message") {
            (ItemState::Message { text: String::new() }, no_events())
        } else if same(kind.as_str(), "reasoning") {
            (ItemState::Reasoning { summary: String::new() }, no_events())
        } else if same(kind.as_str(), "function_call") {
            let call_id = str_field(&item, "call_id");
            let name = str_field(&item, "name");
            let ev = Event::ToolUseStart { id: call_id.clone(), name: name.clone() };
            (
                ItemState::FunctionCall { call_id, name, arguments: String::new() },
                one_event(ev),
            )
        } else {
            (ItemState::Raw(item), no_events())
        };
        assert(state@ == opened(given));
        // output_index may skip slots; pad or overwrite so deltas hit the right item.
        let ghost before = self@;
        while self.items.len() < index
            invariant
                before == old(self)@,
                self.provider == old(self).provider,
                self.items@.len() >= before.items.len(),
                self.items@.len() <= index || self.items@.len() == before.items.len(),
                states_view(self.items@) == padded(before.items, self.items@.len()),
            decreases index - self.items@.len(),
        {
            let ghost had = self.items@;
            self.items.push(ItemState::Raw(json::null()));
            assert(states_view(self.items@) =~= states_view(had).push(
                ItemStateView::Raw(Json::Null),
            ));
            assert(states_view(self.items@) =~= padded(before.items, self.items@.len()));
        }
        assert(states_view(self.items@) =~= padded(before.items, index as nat));
        let ghost had = self.items@;
        if index == self.items.len() {
            self.items.push(state);
            assert(states_view(self.items@) =~= states_view(had).push(opened(given)));
        } else {
            self.items.set(index, state);
            assert(states_view(self.items@) =~= states_view(had).update(
                index as int,
                opened(given),
            ));
        }
        events
    }

    /// Adds text to its item.
    fn apply_text_delta(&mut self, index: usize, delta: String) -> (r: Vec<Event>)
        ensures
            final(self)@ == old(self)@.with_delta(index as int, DeltaView::Text(delta@)),
            streaming::events_view(r@) == old(self)@.routed(
                index as int,
                DeltaView::Text(delta@),
            ),
    {
        if index >= self.items.len() {
            return no_events();
        }
        let ghost before = self@;
        assert(before.items[index as int] == self.items@[index as int]@);
        let events = match &mut self.items[index] {
            ItemState::Message { text } => {
                text.append(delta.as_str());
                one_event(Event::TextDelta(delta))
            },
            _ => no_events(),
        };
        assert(self@.items =~= before.with_delta(index as int, DeltaView::Text(delta@)).items);
        events
    }

    /// Adds a piece of the summary to its item.
    fn apply_reasoning_delta(&mut self, index: usize, delta: String) -> (r: Vec<Event>)
        ensures
            final(self)@ == old(self)@.with_delta(index as int, DeltaView::Reasoning(delta@)),
            streaming::events_view(r@) == old(self)@.routed(
                index as int,
                DeltaView::Reasoning(delta@),
            ),
    {
        if index >= self.items.len() {
            return no_events();
        }
        let ghost before = self@;
        assert(before.items[index as int] == self.items@[index as int]@);
        let events = match &mut self.items[index] {
            ItemState::Reasoning { summary } => {
                summary.append(delta.as_str());
                one_event(Event::ReasoningDelta(delta))
            },
            _ => no_events(),
        };
        assert(self@.items =~= before.with_delta(index as int, DeltaView::Reasoning(delta@)).items);
        events
    }

    /// Adds a piece of the arguments to its item.
    fn apply_function_args_delta(&mut self, index: usize, delta: String) -> (r: Vec<Event>)
        ensures
            final(self)@ == old(self)@.with_delta(index as int, DeltaView::Arguments(delta@)),
            streaming::events_view(r@) == old(self)@.routed(
                index as int,
                DeltaView::Arguments(delta@),
            ),
    {
        if index >= self.items.len() {
            return no_events();
        }
        let ghost before = self@;
        assert(before.items[index as int] == self.items@[index as int]@);
        let events = match &mut self.items[index] {
            ItemState::FunctionCall { call_id, arguments, .. } => {
                arguments.append(delta.as_str());
                one_event(Event::ToolInputDelta { id: call_id.clone(), json_fragment: delta })
            },
            _ => no_events(),
        };
        assert(self@.items =~= before.with_delta(index as int, DeltaView::Arguments(delta@)).items);
        events
    }
}

} // verus!
