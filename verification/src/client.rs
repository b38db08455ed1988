//! One client over all providers.

use vstd::prelude::*;

use crate::anthropic::{self, AnthropicConfig};
use crate::error::{Error, ErrorView};
use crate::http::{ConfigView, HttpRequest, HttpRequestView};
use crate::openai::{self, OpenAiConfig};
use crate::responses;
use crate::types::content::ToolOutputView;
use crate::types::conversation::{Conversation, ConversationView, ProviderKind};
use crate::types::request::{RequestOptions, RequestOptionsView};
use crate::types::response::ResponseView;
use crate::xai::{self, XaiConfig};

verus! {

/// Provider-backed client. Constructed for one backend so request routing and
/// auth stay fixed for the lifetime of the handle.
pub struct Client {
    inner: Inner,
}

enum Inner {
    Anthropic(anthropic::Adapter),
    Xai(xai::Adapter),
    OpenAi(openai::Adapter),
}

/// A client as mathematics sees it.
pub struct ClientView {
    pub kind: ProviderKind,
    pub cfg: ConfigView,
}

impl View for Client {
    type V = ClientView;

    closed spec fn view(&self) -> ClientView {
        match self.inner {
            Inner::Anthropic(a) => ClientView { kind: ProviderKind::Anthropic, cfg: a@ },
            Inner::Xai(a) => ClientView { kind: ProviderKind::Xai, cfg: a@ },
            Inner::OpenAi(a) => ClientView { kind: ProviderKind::OpenAi, cfg: a@ },
        }
    }
}

impl ClientView {
    /// Why this client may not take a conversation further, if it may not: its
    /// pin to another provider.
    pub open spec fn mismatch(self, c: ConversationView) -> Option<ErrorView> {
        match c.provider {
            Some(p) if p != self.kind => Some(
                ErrorView::ProviderMismatch { conversation: p, client: self.kind },
            ),
            _ => None,
        }
    }

    /// The HTTP request for the next turn of a conversation.
    pub open spec fn http_view(self, c: ConversationView, opts: RequestOptionsView, stream: bool) ->
        HttpRequestView {
        match self.kind {
            ProviderKind::Anthropic => anthropic::adapter::http_view(self.cfg, c, opts, stream),
            _ => responses::adapter::http_view(self.cfg, c, opts, stream),
        }
    }
}

impl Client {
    pub fn anthropic(cfg: AnthropicConfig) -> (r: Self)
        ensures
            r@ == (ClientView { kind: ProviderKind::Anthropic, cfg: cfg@ }),
    {
        Client { inner: Inner::Anthropic(anthropic::Adapter::new(cfg)) }
    }

    pub fn xai(cfg: XaiConfig) -> (r: Self)
        ensures
            r@ == (ClientView { kind: ProviderKind::Xai, cfg: cfg@ }),
    {
        Client { inner: Inner::Xai(xai::Adapter::new(cfg)) }
    }

    pub fn openai(cfg: OpenAiConfig) -> (r: Self)
        ensures
            r@ == (ClientView { kind: ProviderKind::OpenAi, cfg: cfg@ }),
    {
        Client { inner: Inner::OpenAi(openai::Adapter::new(cfg)) }
    }

    /// Which backend the client talks to.
    pub fn kind(&self) -> (r: ProviderKind)
        ensures
            r == self@.kind,
    {
        match &self.inner {
            Inner::Anthropic(_) => ProviderKind::Anthropic,
            Inner::Xai(_) => ProviderKind::Xai,
            Inner::OpenAi(_) => ProviderKind::OpenAi,
        }
    }

    /// Reject cross-provider use once a conversation has provider-specific
    /// content (reasoning signatures, encrypted blobs) that other backends
    /// cannot accept.
    pub fn check_pinning(&self, conv: &Conversation) -> (r: Result<(), Error>)
        ensures
            match self@.mismatch(conv@) {
                Some(error) => r matches Err(e) && e@ == error,
                None => r is Ok,
            },
    {
        match conv.provider() {
            Some(p) => if p != self.kind() {
                Err(Error::ProviderMismatch { conversation: p, client: self.kind() })
            } else {
                Ok(())
            },
            None => Ok(()),
        }
    }

    /// The HTTP request for the next turn of a conversation, streamed or not. A
    /// conversation that is pinned to another provider makes none.
    pub fn request(&self, conv: &Conversation, opts: &RequestOptions, stream: bool) -> (r: Result<
        HttpRequest,
        Error,
    >)
        ensures
            match self@.mismatch(conv@) {
                Some(error) => r matches Err(e) && e@ == error,
                None => r matches Ok(request) && request@ == self@.http_view(conv@, opts@, stream),
            },
    {
        match self.check_pinning(conv) {
            Ok(()) => {},
            Err(e) => {
                return Err(e);
            },
        }
        match &self.inner {
            Inner::Anthropic(a) => Ok(a.request(conv, opts, stream)),
            Inner::Xai(a) => Ok(a.request(conv, opts, stream)),
            Inner::OpenAi(a) => Ok(a.request(conv, opts, stream)),
        }
    }
}

/// After a response a conversation belongs to the provider that gave it: every
/// other client refuses it, and names both sides.
pub proof fn responses_pin_conversations(
    client: ClientView,
    c: ConversationView,
    resp: ResponseView,
)
    ensures
        client.kind != resp.provider ==> client.mismatch(c.with_response(resp)) == Some(
            ErrorView::ProviderMismatch { conversation: resp.provider, client: client.kind },
        ),
        client.kind == resp.provider ==> client.mismatch(c.with_response(resp)) is None,
{
}

/// A conversation that no provider has answered yet is open to every client,
/// and stays so whatever the caller adds to it.
pub proof fn unpinned_conversations_are_open(
    client: ClientView,
    c: ConversationView,
    text: Seq<char>,
    fat: Seq<char>,
    id: Seq<char>,
    output: ToolOutputView,
)
    requires
        c.provider is None,
    ensures
        client.mismatch(c) is None,
        client.mismatch(c.with_user(text)) is None,
        client.mismatch(c.with_volatile_user(text)) is None,
        client.mismatch(c.with_demoted(text)) is None,
        client.mismatch(c.with_rotated(text, fat)) is None,
        client.mismatch(c.with_tool_result(id, output)) is None,
{
}

/// A client refuses a conversation exactly where another provider has answered it,
/// and names both.
pub proof fn only_other_providers_are_refused(client: ClientView, c: ConversationView)
    ensures
        client.mismatch(c) == match c.provider {
            Some(p) => if p == client.kind {
                None
            } else {
                Some(ErrorView::ProviderMismatch { conversation: p, client: client.kind })
            },
            None => None,
        },
{
}

/// A client sends its requests to its own provider, under its own key: to the
/// Messages endpoint for Anthropic, to the Responses endpoint for the others.
pub proof fn clients_speak_to_their_provider(
    client: ClientView,
    c: ConversationView,
    opts: RequestOptionsView,
    stream: bool,
)
    ensures
        ({
            let request = client.http_view(c, opts, stream);
            if client.kind == ProviderKind::Anthropic {
                &&& request.url == client.cfg.base_url + "/v1/messages"@
                &&& request.headers[0] == ("x-api-key"@, client.cfg.api_key)
                &&& request == anthropic::adapter::http_view(client.cfg, c, opts, stream)
            } else {
                &&& request.url == client.cfg.base_url + "/v1/responses"@
                &&& request.headers == seq![("Authorization"@, "Bearer "@ + client.cfg.api_key)]
                &&& request == responses::adapter::http_view(client.cfg, c, opts, stream)
            }
        }),
{
}

} // verus!
