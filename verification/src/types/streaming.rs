//! Incremental stream events.

use vstd::prelude::*;

use crate::error::{Error, ErrorView};
use crate::http::{self, framing_error};
use crate::types::response::{Response, ResponseView};

verus! {

/// Incremental stream events. Shape is fixed so UIs can render without
/// knowing which backend's SSE schema is in use.
#[derive(Debug)]
pub enum Event {
    TextDelta(String),
    ReasoningDelta(String),
    ToolUseStart { id: String, name: String },
    ToolInputDelta { id: String, json_fragment: String },
    BlockEnd,
    /// Terminal event carrying the assembled [`Response`] for `push_response`.
    Done(Response),
}

/// A stream event as mathematics sees it.
pub enum EventView {
    TextDelta(Seq<char>),
    ReasoningDelta(Seq<char>),
    ToolUseStart { id: Seq<char>, name: Seq<char> },
    ToolInputDelta { id: Seq<char>, json_fragment: Seq<char> },
    BlockEnd,
    Done(ResponseView),
}

impl View for Event {
    type V = EventView;

    open spec fn view(&self) -> EventView {
        match *self {
            Event::TextDelta(t) => EventView::TextDelta(t@),
            Event::ReasoningDelta(t) => EventView::ReasoningDelta(t@),
            Event::ToolUseStart { id, name } => EventView::ToolUseStart { id: id@, name: name@ },
            Event::ToolInputDelta { id, json_fragment } => EventView::ToolInputDelta {
                id: id@,
                json_fragment: json_fragment@,
            },
            Event::BlockEnd => EventView::BlockEnd,
            Event::Done(r) => EventView::Done(r@),
        }
    }
}

/// Why the transport brings no event; each with what it says about it.
#[derive(Debug)]
pub enum Fault {
    /// A frame whose data is no event of the provider.
    Malformed(String),
    /// Bytes that are no frame.
    Broken(String),
    /// The exchange itself failed.
    Lost(String),
}

/// The error that a fault comes through as.
pub open spec fn fault_view(fault: Fault) -> ErrorView {
    match fault {
        Fault::Malformed(message) => ErrorView::Deserialize(message@),
        Fault::Broken(detail) => ErrorView::Http {
            status: 0,
            message: http::framing_message(detail@),
        },
        Fault::Lost(message) => ErrorView::Transport(message@),
    }
}

/// What each event of a sequence is.
pub open spec fn events_view(events: Seq<Event>) -> Seq<EventView> {
    events.map_values(|e: Event| e@)
}

/// What one step of a stream brings: events, or an error.
pub type StepOutcome = Result<Seq<EventView>, ErrorView>;

/// What a step's executable result is.
pub open spec fn outcome_view(r: Result<Vec<Event>, Error>) -> StepOutcome {
    match r {
        Ok(events) => Ok(events_view(events@)),
        Err(e) => Err(e@),
    }
}

/// What an item of an event stream is.
pub open spec fn item_view(r: Result<Event, Error>) -> Result<EventView, ErrorView> {
    match r {
        Ok(e) => Ok(e@),
        Err(e) => Err(e@),
    }
}

/// What each item of an event stream is.
pub open spec fn items_view(items: Seq<Result<Event, Error>>) -> Seq<Result<EventView, ErrorView>> {
    items.map_values(|r: Result<Event, Error>| item_view(r))
}

/// The items that a step's outcome adds to the event stream: its events in
/// order, or its error alone.
pub open spec fn stream_items(outcome: StepOutcome) -> Seq<Result<EventView, ErrorView>> {
    match outcome {
        Ok(events) => events.map_values(|e: EventView| Ok::<EventView, ErrorView>(e)),
        Err(e) => seq![Err(e)],
    }
}

/// The error that a fault comes through as.
pub fn sse_error(fault: Fault) -> (r: Error)
    ensures
        r@ == fault_view(fault),
{
    match fault {
        Fault::Malformed(message) => Error::Deserialize(message),
        Fault::Broken(detail) => framing_error(detail.as_str()),
        Fault::Lost(message) => Error::Transport(message),
    }
}

/// No events.
pub(crate) fn no_events() -> (r: Vec<Event>)
    ensures
        events_view(r@) == Seq::<EventView>::empty(),
{
    let events: Vec<Event> = Vec::new();
    assert(events_view(events@) =~= Seq::empty());
    events
}

/// One event.
pub(crate) fn one_event(event: Event) -> (r: Vec<Event>)
    ensures
        events_view(r@) == seq![event@],
{
    let mut events: Vec<Event> = Vec::new();
    events.push(event);
    assert(events_view(events@) =~= seq![event@]);
    events
}

/// The items that a step adds to the event stream.
pub fn flatten_step(step: Result<Vec<Event>, Error>) -> (r: Vec<Result<Event, Error>>)
    ensures
        items_view(r@) == stream_items(outcome_view(step)),
{
    let mut out: Vec<Result<Event, Error>> = Vec::new();
    match step {
        Ok(events) => {
            let ghost all = events@;
            for e in it: events
                invariant
                    it.seq() == all,
                    out@.len() == it.index(),
                    forall|k: int|
                        0 <= k < out@.len() ==> item_view(#[trigger] out@[k]) == Ok::<
                            EventView,
                            ErrorView,
                        >(all[k]@),
            {
                out.push(Ok(e));
            }
            assert(items_view(out@) =~= stream_items(Ok(events_view(all))));
        },
        Err(e) => {
            out.push(Err(e));
            assert(items_view(out@) =~= seq![Err(e@)]);
        },
    }
    out
}

/// An event is seen by its kind and by all it says.
pub proof fn events_are_seen_whole(event: Event)
    ensures
        match event {
            Event::TextDelta(t) => event@ == EventView::TextDelta(t@),
            Event::ReasoningDelta(t) => event@ == EventView::ReasoningDelta(t@),
            Event::ToolUseStart { id, name } => event@ == (EventView::ToolUseStart {
                id: id@,
                name: name@,
            }),
            Event::ToolInputDelta { id, json_fragment } => event@ == (EventView::ToolInputDelta {
                id: id@,
                json_fragment: json_fragment@,
            }),
            Event::BlockEnd => event@ == EventView::BlockEnd,
            Event::Done(turn) => event@ == EventView::Done(turn@),
        },
{
}

/// What the transport reports comes through as it was reported, under an error
/// that says on which level: a frame that is no event, bytes that are no frame, an
/// exchange that failed.
pub proof fn faults_come_through(fault: Fault)
    ensures
        match fault {
            Fault::Malformed(message) => fault_view(fault) == ErrorView::Deserialize(message@),
            Fault::Broken(detail) => fault_view(fault) == (ErrorView::Http {
                status: 0,
                message: "SSE framing error: "@ + detail@,
            }),
            Fault::Lost(message) => fault_view(fault) == ErrorView::Transport(message@),
        },
{
}

/// The events of a step reach the stream one by one, in order and none of them
/// twice; a step that fails adds its error alone.
pub proof fn steps_reach_the_stream(events: Seq<EventView>, error: ErrorView, i: int)
    ensures
        stream_items(Ok(events)).len() == events.len(),
        0 <= i < events.len() ==> stream_items(Ok(events))[i] == Ok::<EventView, ErrorView>(
            events[i],
        ),
        stream_items(Err(error)) == seq![Err::<EventView, ErrorView>(error)],
{
}

/// What a step hands out is seen as it is: its events in order, or its error; and
/// so is what the stream hands out.
pub proof fn outcomes_are_seen_whole(
    events: Vec<Event>,
    error: Error,
    items: Seq<Result<Event, Error>>,
    i: int,
)
    ensures
        match outcome_view(Ok(events)) {
            Ok(seen) => seen.len() == events@.len() && (0 <= i < events@.len() ==> seen[i]
                == events@[i]@),
            Err(_) => false,
        },
        outcome_view(Err(error)) == Err::<Seq<EventView>, ErrorView>(error@),
        items_view(items).len() == items.len(),
        0 <= i < items.len() ==> match items[i] {
            Ok(event) => items_view(items)[i] == Ok::<EventView, ErrorView>(event@),
            Err(e) => items_view(items)[i] == Err::<EventView, ErrorView>(e@),
        },
{
}

} // verus!
