//! What a stream of Responses events is passed on as, in terms of the events.

use vstd::prelude::*;

use crate::error::ErrorView;
use crate::json::{self, Json};
use crate::responses::adapter;
use crate::responses::sse::{AssemblerView, ItemStateView};
use crate::responses::wire::{ApiErrorView, ResponsesResponseView, StreamEventView};
use crate::types::conversation::ProviderKind;
use crate::types::streaming::EventView;

verus! {

/// A stream starts without items.
pub proof fn streams_start_empty(provider: ProviderKind)
    ensures
        AssemblerView::fresh(provider).items.len() == 0,
        AssemblerView::fresh(provider).provider == provider,
{
}

/// A piece of text that is meant for a message is passed on as that piece and no
/// more; one that is meant for anything else is passed on as nothing.
pub proof fn text_is_passed_on(state: AssemblerView, output_index: usize, delta: Seq<char>)
    ensures
        state.outcome(StreamEventView::OutputTextDelta { output_index, delta }) == Ok::<
            Seq<EventView>,
            ErrorView,
        >(
            if output_index < state.items.len() && state.items[output_index as int] is Message {
                seq![EventView::TextDelta(delta)]
            } else {
                Seq::empty()
            },
        ),
{
}

/// A piece of a summary that is meant for reasoning is passed on as that piece
/// and no more; one that is meant for anything else is passed on as nothing.
pub proof fn reasoning_is_passed_on(state: AssemblerView, output_index: usize, delta: Seq<char>)
    ensures
        state.outcome(StreamEventView::ReasoningSummaryTextDelta { output_index, delta }) == Ok::<
            Seq<EventView>,
            ErrorView,
        >(
            if output_index < state.items.len() && state.items[output_index as int] is Reasoning {
                seq![EventView::ReasoningDelta(delta)]
            } else {
                Seq::empty()
            },
        ),
{
}

/// A piece of arguments that is meant for a call is passed on as that piece and
/// no more, under the id of the call; one that is meant for anything else is
/// passed on as nothing.
pub proof fn arguments_are_passed_on(state: AssemblerView, output_index: usize, delta: Seq<char>)
    ensures
        state.outcome(StreamEventView::FunctionCallArgumentsDelta { output_index, delta }) == Ok::<
            Seq<EventView>,
            ErrorView,
        >(
            if output_index < state.items.len() && state.items[output_index as int]
                is FunctionCall {
                seq![
                    EventView::ToolInputDelta {
                        id: state.items[output_index as int]->FunctionCall_call_id,
                        json_fragment: delta,
                    },
                ]
            } else {
                Seq::empty()
            },
        ),
{
}

/// What the other events are passed on as. The end of an item ends a block; a
/// payload that is final ends the stream with the turn it makes; a failure and an
/// error end it with what the provider says of them; and events that no one asked
/// about are passed on as nothing.
pub proof fn other_events_are_passed_on(
    state: AssemblerView,
    response: ResponsesResponseView,
    message: Seq<char>,
    kind: Option<Seq<char>>,
)
    ensures
        state.outcome(StreamEventView::OutputItemDone) == Ok::<Seq<EventView>, ErrorView>(
            seq![EventView::BlockEnd],
        ),
        state.outcome(StreamEventView::ResponseCompleted { response }) == Ok::<
            Seq<EventView>,
            ErrorView,
        >(seq![EventView::Done(adapter::response_of(state.provider, response))]),
        state.outcome(StreamEventView::ResponseIncomplete { response }) == Ok::<
            Seq<EventView>,
            ErrorView,
        >(seq![EventView::Done(adapter::response_of(state.provider, response))]),
        state.outcome(StreamEventView::ResponseFailed { response }) == Err::<
            Seq<EventView>,
            ErrorView,
        >(ErrorView::Http { status: 0, message: "response failed: "@ + response.status }),
        state.outcome(
            StreamEventView::Error {
                error: ApiErrorView { message, kind },
            },
        ) == Err::<Seq<EventView>, ErrorView>(ErrorView::Http { status: 0, message }),
        state.outcome(StreamEventView::Other) == Ok::<Seq<EventView>, ErrorView>(Seq::empty()),
{
}

/// Only openings and deltas leave anything behind, only openings add items, and
/// none of them changes whom the stream is from.
pub proof fn other_events_leave_no_trace(state: AssemblerView, ev: StreamEventView)
    ensures
        state.after(ev).provider == state.provider,
        state.after(ev) == state || ev is OutputItemAdded || ev is OutputTextDelta || ev
            is ReasoningSummaryTextDelta || ev is FunctionCallArgumentsDelta,
        !(ev is OutputItemAdded) ==> state.after(ev).items.len() == state.items.len(),
{
}

/// An item that opens takes its slot, by its kind and with nothing gathered yet:
/// a call under its call id and its name. The slots before it that no item has
/// are filled up, and every other item stays as it was. Only a call is announced.
pub proof fn openings_are_followed(
    state: AssemblerView,
    output_index: usize,
    item: Json,
    other: int,
)
    ensures
        ({
            let next = state.after(StreamEventView::OutputItemAdded { output_index, item });
            let kind = json::member(item, "type"@);
            let id = match json::member(item, "call_id"@) {
                Some(Json::Str(id)) => id,
                _ => Seq::empty(),
            };
            let name = match json::member(item, "name"@) {
                Some(Json::Str(name)) => name,
                _ => Seq::empty(),
            };
            let announced = state.outcome(StreamEventView::OutputItemAdded { output_index, item });
            &&& next.items.len() == if output_index < state.items.len() {
                state.items.len() as int
            } else {
                output_index + 1
            }
            &&& 0 <= other < state.items.len() && other != output_index ==> next.items[other]
                == state.items[other]
            &&& state.items.len() <= other < output_index ==> next.items[other]
                == ItemStateView::Raw(Json::Null)
            &&& if kind == Some(Json::Str("message"@)) {
                &&& next.items[output_index as int] == (ItemStateView::Message {
                    text: Seq::empty(),
                })
                &&& announced == Ok::<Seq<EventView>, ErrorView>(Seq::empty())
            } else if kind == Some(Json::Str("reasoning"@)) {
                &&& next.items[output_index as int] == (ItemStateView::Reasoning {
                    summary: Seq::empty(),
                })
                &&& announced == Ok::<Seq<EventView>, ErrorView>(Seq::empty())
            } else if kind == Some(Json::Str("function_call"@)) {
                &&& next.items[output_index as int] == (ItemStateView::FunctionCall {
                    call_id: id,
                    name,
                    arguments: Seq::empty(),
                })
                &&& announced == Ok::<Seq<EventView>, ErrorView>(
                    seq![EventView::ToolUseStart { id, name }],
                )
            } else {
                &&& next.items[output_index as int] == ItemStateView::Raw(item)
                &&& announced == Ok::<Seq<EventView>, ErrorView>(Seq::empty())
            }
        }),
{
    reveal_strlit("message");
    reveal_strlit("reasoning");
    reveal_strlit("function_call");
    assert("message"@.len() == 7 && "reasoning"@.len() == 9 && "function_call"@.len() == 13);
}

/// The slot that an event brings a piece for, with the kind of the piece: text,
/// a summary, or arguments.
pub open spec fn piece_of(ev: StreamEventView) -> Option<(usize, ItemStateView, Seq<char>)> {
    let none = Seq::<char>::empty();
    match ev {
        StreamEventView::OutputTextDelta { output_index, delta } => Some(
            (output_index, ItemStateView::Message { text: none }, delta),
        ),
        StreamEventView::ReasoningSummaryTextDelta { output_index, delta } => Some(
            (output_index, ItemStateView::Reasoning { summary: none }, delta),
        ),
        StreamEventView::FunctionCallArgumentsDelta { output_index, delta } => Some(
            (
                output_index,
                ItemStateView::FunctionCall { call_id: none, name: none, arguments: none },
                delta,
            ),
        ),
        _ => None,
    }
}

/// Two items are of one kind, and it is one that gathers pieces.
pub open spec fn alike(a: ItemStateView, b: ItemStateView) -> bool {
    ||| a is Message && b is Message
    ||| a is Reasoning && b is Reasoning
    ||| a is FunctionCall && b is FunctionCall
}

/// What the events bring for the item in a slot, one piece behind the other.
pub open spec fn brought(events: Seq<StreamEventView>, index: usize, item: ItemStateView) -> Seq<
    char,
>
    decreases events.len(),
{
    if events.len() == 0 {
        Seq::empty()
    } else {
        let before = brought(events.drop_last(), index, item);
        match piece_of(events.last()) {
            Some((at, kind, piece)) => if at == index && alike(kind, item) {
                before + piece
            } else {
                before
            },
            None => before,
        }
    }
}

/// The state behind a run of events.
pub open spec fn run(state: AssemblerView, events: Seq<StreamEventView>) -> AssemblerView
    decreases events.len(),
{
    if events.len() == 0 {
        state
    } else {
        run(state, events.drop_last()).after(events.last())
    }
}

/// The piece that an event of the caller's stream carries.
pub open spec fn carried(event: EventView) -> Seq<char> {
    match event {
        EventView::TextDelta(t) => t,
        EventView::ReasoningDelta(t) => t,
        EventView::ToolInputDelta { json_fragment, .. } => json_fragment,
        _ => Seq::empty(),
    }
}

/// The pieces that are passed on for the item in a slot over a run of events, one
/// behind the other.
pub open spec fn passed_on(
    state: AssemblerView,
    events: Seq<StreamEventView>,
    index: usize,
) -> Seq<char>
    decreases events.len(),
{
    if events.len() == 0 {
        Seq::empty()
    } else {
        let before = passed_on(state, events.drop_last(), index);
        match (piece_of(events.last()), run(state, events.drop_last()).outcome(events.last())) {
            (Some((at, ..)), Ok(out)) => if at == index && out.len() > 0 {
                before + carried(out[0])
            } else {
                before
            },
            _ => before,
        }
    }
}

/// What an item has gathered.
pub open spec fn gathered(item: ItemStateView) -> Seq<char> {
    match item {
        ItemStateView::Message { text } => text,
        ItemStateView::Reasoning { summary } => summary,
        ItemStateView::FunctionCall { arguments, .. } => arguments,
        ItemStateView::Raw(_) => Seq::empty(),
    }
}

/// Over any run of events, what is passed on for an item is what the events
/// bring for it, piece by piece and once each; the item gathers the same; and
/// nothing else about it changes. That holds until another item takes its slot.
pub proof fn pieces_add_up(state: AssemblerView, events: Seq<StreamEventView>, index: usize)
    requires
        index < state.items.len(),
        forall|i: int|
            0 <= i < events.len() ==> !((#[trigger] events[i]) matches StreamEventView::OutputItemAdded {
                output_index,
                ..
            } && output_index == index),
    ensures
        ({
            let item = state.items[index as int];
            let now = run(state, events).items[index as int];
            let sum = brought(events, index, item);
            &&& run(state, events).items.len() >= state.items.len()
            &&& passed_on(state, events, index) == sum
            &&& gathered(now) == gathered(item) + sum
            &&& alike(now, item) || now == item
            &&& now is FunctionCall ==> now->FunctionCall_call_id == item->FunctionCall_call_id
                && now->FunctionCall_name == item->FunctionCall_name
        }),
    decreases events.len(),
{
    let item = state.items[index as int];
    if events.len() == 0 {
        assert(gathered(item) + Seq::<char>::empty() =~= gathered(item));
    } else {
        let shorter = events.drop_last();
        assert forall|i: int| 0 <= i < shorter.len() implies !((#[trigger] shorter[i]) matches StreamEventView::OutputItemAdded {
            output_index,
            ..
        } && output_index == index) by {
            assert(shorter[i] == events[i]);
        }
        pieces_add_up(state, shorter, index);
        let ev = events.last();
        assert(ev == events[events.len() - 1]);
        let before = run(state, shorter);
        match piece_of(ev) {
            Some((at, kind, piece)) => {
                if at == index && alike(kind, item) {
                    assert((gathered(item) + brought(shorter, index, item)) + piece =~= gathered(
                        item,
                    ) + (brought(shorter, index, item) + piece));
                }
            },
            None => {},
        }
        match ev {
            StreamEventView::OutputItemAdded { output_index, item } => {
                openings_are_followed(before, output_index, item, index as int);
            },
            _ => {},
        }
    }
}

} // verus!
