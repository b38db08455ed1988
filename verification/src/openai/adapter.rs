//! Shared types to OpenAI's and back.

use vstd::prelude::*;

use crate::error::Error;
use crate::http::{ConfigView, HttpRequest};
use crate::json;
use crate::openai::wire::ResponsesResponse;
use crate::openai::OpenAiConfig;
use crate::responses;
use crate::types::content::ContentBlock;
use crate::types::conversation::{Conversation, ProviderKind};
use crate::types::request::RequestOptions;
use crate::types::response::Response;

pub use crate::responses::adapter::{
    block_to_input, build_request, conversation_to_input, map_error, map_stop_reason,
    map_tool_choice, map_usage, message_to_input, DEFAULT_MAX_OUTPUT_TOKENS,
};

verus! {

/// Makes requests for OpenAI.
#[derive(Debug)]
pub struct Adapter {
    cfg: OpenAiConfig,
}

impl View for Adapter {
    type V = ConfigView;

    closed spec fn view(&self) -> ConfigView {
        self.cfg@
    }
}

impl Adapter {
    pub fn new(cfg: OpenAiConfig) -> (r: Self)
        ensures
            r@ == cfg@,
    {
        Adapter { cfg }
    }

    /// The HTTP request for the next turn of a conversation.
    pub fn request(&self, conv: &Conversation, opts: &RequestOptions, stream: bool) -> (r:
        HttpRequest)
        ensures
            r@ == responses::adapter::http_view(self@, conv@, opts@, stream),
    {
        responses::adapter::request(
            self.cfg.api_key.as_str(),
            self.cfg.base_url.as_str(),
            conv,
            opts,
            stream,
        )
    }
}

/// The turn that a reply of OpenAI makes. Every reply makes one.
pub fn parse_response(wire: ResponsesResponse) -> (r: Result<Response, Error>)
    ensures
        r matches Ok(response) && response@ == responses::adapter::response_of(
            ProviderKind::OpenAi,
            wire@,
        ),
{
    responses::adapter::parse_response(ProviderKind::OpenAi, wire)
}

/// An item of a reply of OpenAI as the shared types have it.
pub fn wire_item_to_agnostic(item: serde_json::Value) -> (r: Result<ContentBlock, Error>)
    ensures
        r matches Ok(b) && b@ == responses::adapter::block_of(
            ProviderKind::OpenAi,
            json::json_of(item),
        ),
{
    responses::adapter::wire_item_to_agnostic(ProviderKind::OpenAi, item)
}

/// A reply is read as any Responses reply is, and counts as one of this provider;
/// so is an item of it.
pub proof fn replies_are_its_own(
    wire: ResponsesResponse,
    r: Result<Response, Error>,
    item: serde_json::Value,
    b: Result<ContentBlock, Error>,
)
    requires
        call_ensures(parse_response, (wire,), r),
        call_ensures(wire_item_to_agnostic, (item,), b),
    ensures
        r matches Ok(turn) && turn@.provider == ProviderKind::OpenAi && turn@
            == responses::adapter::response_of(ProviderKind::OpenAi, wire@),
        b matches Ok(block) && block@ == responses::adapter::block_of(
            ProviderKind::OpenAi,
            json::json_of(item),
        ),
{
}

} // verus!
