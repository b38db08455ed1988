//! xAI's event stream to shared [`Event`]s.

use vstd::prelude::*;

use crate::error::Error;
use crate::xai::wire::StreamEvent;
use crate::responses::sse::{self, AssemblerView};
use crate::types::conversation::ProviderKind;
use crate::types::streaming::{self, Event, Fault};

verus! {

/// Routes deltas of xAI's stream to the items they belong to.
#[derive(Debug)]
pub struct Assembler {
    inner: sse::Assembler,
}

impl View for Assembler {
    type V = AssemblerView;

    closed spec fn view(&self) -> AssemblerView {
        self.inner@
    }
}

impl Assembler {
    /// Nothing has arrived yet.
    pub fn new() -> (r: Self)
        ensures
            r@ == AssemblerView::fresh(ProviderKind::Xai),
    {
        Assembler { inner: sse::Assembler::new(ProviderKind::Xai) }
    }

    /// Takes in what the transport brings; hands out the items that this adds to
    /// the event stream. A fault leaves the open items as they are.
    pub fn step(&mut self, frame: Result<StreamEvent, Fault>) -> (r: Vec<Result<Event, Error>>)
        ensures
            match frame {
                Ok(ev) => {
                    &&& final(self)@ == old(self)@.after(ev@)
                    &&& streaming::items_view(r@) == streaming::stream_items(
                        old(self)@.outcome(ev@),
                    )
                },
                Err(fault) => {
                    &&& final(self)@ == old(self)@
                    &&& streaming::items_view(r@) == streaming::stream_items(
                        Err(streaming::fault_view(fault)),
                    )
                },
            },
    {
        self.inner.step(frame)
    }

    /// Takes in an event of the provider; hands out what it is passed on as.
    pub fn handle(&mut self, ev: StreamEvent) -> (r: Result<Vec<Event>, Error>)
        ensures
            final(self)@ == old(self)@.after(ev@),
            streaming::outcome_view(r) == old(self)@.outcome(ev@),
    {
        self.inner.handle(ev)
    }
}

} // verus!
