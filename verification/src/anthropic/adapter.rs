//! Shared types to Anthropic's and back.

use std::time::Duration;

use vstd::prelude::*;

use crate::anthropic::wire::{
    self, CacheControl, Display, Effort, ErrorEnvelope, MessagesRequest, MessagesRequestView,
    MessagesResponse, MessagesResponseView, OutputConfig, Thinking, WireMessage, WireMessageView,
    WireTool, WireToolChoice, WireToolChoiceView, WireToolView, WireUsage,
};
use crate::anthropic::{AnthropicConfig, API_VERSION};
use crate::error::Error;
use crate::http::{self, classify, push_header, ConfigView, HttpRequest, HttpRequestView};
use crate::json::{self, str_field, Json};
use crate::text::{self, concat, contains, copy_filled, same};
use crate::types::content::{
    self, ContentBlock, ContentBlockView, OpaquePayload, ReasoningBlock, TextBlock, ToolOutput,
    ToolUseBlock,
};
use crate::types::conversation::{
    self, Conversation, ConversationView, Message, MessageView, ProviderKind, Role,
};
use crate::types::request::{
    RequestOptions, RequestOptionsView, ThinkingEffort, ToolChoice, ToolChoiceView, ToolDefView,
};
use crate::types::response::{
    Response, ResponseView, StopReason, StopReasonView, Usage,
};

verus! {

// High default so long tool/thinking turns are not truncated by accident when
// the caller omits max_tokens.
pub const DEFAULT_MAX_TOKENS: u32 = 64_000;

/// Makes requests for Anthropic.
#[derive(Debug)]
pub struct Adapter {
    cfg: AnthropicConfig,
}

impl View for Adapter {
    type V = ConfigView;

    closed spec fn view(&self) -> ConfigView {
        self.cfg@
    }
}

impl Adapter {
    pub fn new(cfg: AnthropicConfig) -> (r: Self)
        ensures
            r@ == cfg@,
    {
        Adapter { cfg }
    }

    /// The HTTP request for the next turn of a conversation.
    pub fn request(&self, conv: &Conversation, opts: &RequestOptions, stream: bool) -> (r:
        HttpRequest)
        ensures
            r@ == http_view(self@, conv@, opts@, stream),
    {
        let mut headers: Vec<(String, String)> = Vec::new();
        assert(http::headers_view(headers@) =~= Seq::empty());
        push_header(&mut headers, "x-api-key", self.cfg.api_key.as_str());
        push_header(&mut headers, "anthropic-version", API_VERSION);
        assert(http::headers_view(headers@) =~= http_view(self@, conv@, opts@, stream).headers);
        HttpRequest {
            url: concat(self.cfg.base_url.as_str(), "/v1/messages"),
            headers,
            body: build_request(conv, opts, stream).to_value(),
        }
    }
}

/// How a role is written on the wire.
pub open spec fn role_text(role: Role) -> Seq<char> {
    match role {
        Role::User => "user"@,
        Role::Assistant => "assistant"@,
    }
}

/// A text as a wire block.
pub open spec fn text_json(text: Seq<char>) -> Json {
    Json::Object(map!["type"@ => Json::Str("text"@), "text"@ => Json::Str(text)])
}

/// A tool call as a wire block.
pub open spec fn call_json(id: Seq<char>, name: Seq<char>, input: Json) -> Json {
    Json::Object(
        map![
            "type"@ => Json::Str("tool_use"@),
            "id"@ => Json::Str(id),
            "name"@ => Json::Str(name),
            "input"@ => input,
        ],
    )
}

/// How a content block is written on the wire. What came from the wire goes out
/// as it came in.
pub open spec fn block_json(block: ContentBlockView) -> Json {
    match block {
        ContentBlockView::Text { text, extras } => match extras {
            Some(wire) => wire,
            None => text_json(text),
        },
        ContentBlockView::ToolUse { id, name, input, extras } => match extras {
            Some(wire) => wire,
            None => call_json(id, name, input),
        },
        ContentBlockView::ToolResult { id, output } => {
            let m = map![
                "type"@ => Json::Str("tool_result"@),
                "tool_use_id"@ => Json::Str(id),
                "content"@ => Json::Str(output.text()),
            ];
            if output is Error {
                Json::Object(m.insert("is_error"@, Json::Bool(true)))
            } else {
                Json::Object(m)
            }
        },
        ContentBlockView::Reasoning { payload, .. } => payload,
    }
}

/// A wire block with a cache breakpoint on it. A block that is no object has no
/// place for one.
pub open spec fn with_breakpoint(block: Json) -> Json {
    json::with_member(block, "cache_control"@, wire::cache_json("ephemeral"@))
}

/// How content is written on the wire: block by block, the last one with a
/// cache breakpoint where the message is to carry one.
pub open spec fn content_json(blocks: Seq<ContentBlockView>, breakpoint: bool) -> Seq<Json> {
    Seq::new(
        blocks.len(),
        |i: int|
            if breakpoint && i == blocks.len() - 1 {
                with_breakpoint(block_json(blocks[i]))
            } else {
                block_json(blocks[i])
            },
    )
}

/// How a message is written on the wire.
pub open spec fn message_wire(message: MessageView, breakpoint: bool) -> WireMessageView {
    WireMessageView {
        role: role_text(message.role),
        content: content_json(message.content, breakpoint),
    }
}

/// The message that the options ask to end the cached prefix with, where they
/// point into the transcript.
pub open spec fn requested_breakpoint(count: nat, from_end: Option<usize>) -> Option<int> {
    match from_end {
        Some(n) if n < count => Some(count - 1 - n),
        _ => None,
    }
}

/// The message before the volatile one: the last that will not be rewritten.
pub open spec fn stable_breakpoint(volatile: Option<usize>) -> Option<int> {
    match volatile {
        Some(i) if i > 0 => Some(i - 1),
        _ => None,
    }
}

/// Whether the `i`th message carries a cache breakpoint.
pub open spec fn breakpoint_at(c: ConversationView, opts: RequestOptionsView, i: int) -> bool {
    ||| stable_breakpoint(c.volatile_index()) == Some(i)
    ||| requested_breakpoint(c.messages.len(), opts.cache_breakpoint_from_end) == Some(i)
}

/// Whether the prompt is cached as a whole: nothing in it is volatile, and no
/// breakpoint was asked for.
pub open spec fn cached_whole(c: ConversationView, opts: RequestOptionsView) -> bool {
    &&& c.volatile_index() is None
    &&& requested_breakpoint(c.messages.len(), opts.cache_breakpoint_from_end) is None
}

/// How a tool of the caller is written on the wire.
pub open spec fn function_tool(t: ToolDefView) -> WireToolView {
    WireToolView::Function {
        name: t.name,
        description: t.description,
        input_schema: t.input_schema,
    }
}

/// Anthropic's hosted web search, as it is written on the wire.
pub open spec fn search_tool() -> WireToolView {
    WireToolView::WebSearch { kind: "web_search_20250305"@, name: "web_search"@ }
}

/// The tools of a request: the caller's, then the hosted web search where it is
/// asked for.
pub open spec fn request_tools(opts: RequestOptionsView) -> Seq<WireToolView> {
    let own = opts.tools.map_values(|t: ToolDefView| function_tool(t));
    if opts.web_search {
        own.push(search_tool())
    } else {
        own
    }
}

/// The `tool_choice` object, with the parallel control folded in. Nothing where
/// neither says more than the provider's default.
pub open spec fn wire_choice(choice: ToolChoiceView, parallel: Option<bool>) -> Option<
    WireToolChoiceView,
> {
    if choice is Auto && parallel is None {
        None
    } else {
        Some(
            WireToolChoiceView {
                kind: match choice {
                    ToolChoiceView::Auto => "auto"@,
                    ToolChoiceView::Required => "any"@,
                    ToolChoiceView::Tool(_) => "tool"@,
                    ToolChoiceView::Never => "none"@,
                },
                name: match choice {
                    ToolChoiceView::Tool(name) => Some(name),
                    _ => None,
                },
                disable_parallel_tool_use: match parallel {
                    Some(p) => Some(!p),
                    None => None,
                },
            },
        )
    }
}

/// Haiku 4.5 still uses budget-token extended thinking; newer models use
/// adaptive thinking and an effort instead.
pub open spec fn extended(model: Seq<char>) -> bool {
    text::occurs("haiku-4-5"@, model)
}

/// How many tokens an effort buys where thinking goes by budget.
pub open spec fn budget(effort: ThinkingEffort) -> u32 {
    match effort {
        ThinkingEffort::Low => 4_096,
        ThinkingEffort::Medium => 16_384,
        ThinkingEffort::High => 32_768,
    }
}

/// How an effort is named on the wire.
pub open spec fn wire_effort(effort: ThinkingEffort) -> Effort {
    match effort {
        ThinkingEffort::Low => Effort::Low,
        ThinkingEffort::Medium => Effort::Medium,
        ThinkingEffort::High => Effort::High,
    }
}

/// The thinking control for a model.
pub open spec fn thinking_for(model: Seq<char>, effort: ThinkingEffort) -> Thinking {
    if extended(model) {
        Thinking::Enabled { budget_tokens: budget(effort) }
    } else {
        Thinking::Adaptive { display: Display::Summarized }
    }
}

/// The output configuration for a model.
pub open spec fn output_for(model: Seq<char>, effort: ThinkingEffort) -> Option<OutputConfig> {
    if extended(model) {
        None
    } else {
        Some(OutputConfig { effort: wire_effort(effort) })
    }
}

/// The effort of a request.
pub open spec fn effort_of(opts: RequestOptionsView) -> ThinkingEffort {
    match opts.thinking {
        Some(e) => e,
        None => ThinkingEffort::Medium,
    }
}

/// The wire messages of a request.
pub open spec fn request_messages(c: ConversationView, opts: RequestOptionsView) -> Seq<
    WireMessageView,
> {
    Seq::new(c.messages.len(), |i: int| message_wire(c.messages[i], breakpoint_at(c, opts, i)))
}

/// The request for the next turn of a conversation.
pub open spec fn request_view(
    c: ConversationView,
    opts: RequestOptionsView,
    stream: bool,
) -> MessagesRequestView {
    MessagesRequestView {
        model: opts.model,
        max_tokens: match opts.max_tokens {
            Some(n) => n,
            None => DEFAULT_MAX_TOKENS,
        },
        messages: request_messages(c, opts),
        system: opts.system,
        tools: request_tools(opts),
        tool_choice: wire_choice(opts.tool_choice, opts.parallel_tool_calls),
        temperature: opts.temperature,
        thinking: Some(thinking_for(opts.model, effort_of(opts))),
        output_config: output_for(opts.model, effort_of(opts)),
        cache_control: if cached_whole(c, opts) {
            Some("ephemeral"@)
        } else {
            None
        },
        stream: if stream {
            Some(true)
        } else {
            None
        },
    }
}

/// The HTTP request for the next turn of a conversation.
pub open spec fn http_view(
    cfg: ConfigView,
    c: ConversationView,
    opts: RequestOptionsView,
    stream: bool,
) -> HttpRequestView {
    HttpRequestView {
        url: cfg.base_url + "/v1/messages"@,
        headers: seq![("x-api-key"@, cfg.api_key), ("anthropic-version"@, "2023-06-01"@)],
        body: request_view(c, opts, stream).json(),
    }
}

/// The input of a wire block that calls a tool.
pub open spec fn input_member(block: Json) -> Json {
    match json::member(block, "input"@) {
        Some(v) => v,
        None => Json::Null,
    }
}

/// The wire block, where it is more than what would be written in its place.
pub open spec fn beyond(block: Json, plain: Json) -> Option<Json> {
    if block == plain {
        None
    } else {
        Some(block)
    }
}

/// A block of a reply. A block that says more than the shared types have room
/// for is kept whole, so that the next turn can give it back.
pub open spec fn block_of(block: Json) -> ContentBlockView {
    let kind = json::text_member(block, "type"@);
    if kind == "text"@ {
        let text = json::text_member(block, "text"@);
        ContentBlockView::Text { text, extras: beyond(block, text_json(text)) }
    } else if kind == "tool_use"@ {
        let id = json::text_member(block, "id"@);
        let name = json::text_member(block, "name"@);
        let input = input_member(block);
        ContentBlockView::ToolUse {
            id,
            name,
            input,
            extras: beyond(block, call_json(id, name, input)),
        }
    } else {
        ContentBlockView::Reasoning {
            provider: ProviderKind::Anthropic,
            payload: block,
            summary: if kind == "thinking"@ {
                text::filled(json::string_member(block, "thinking"@))
            } else {
                None
            },
        }
    }
}

/// The blocks of a reply.
pub open spec fn blocks_of(content: Seq<Json>) -> Seq<ContentBlockView> {
    content.map_values(|b: Json| block_of(b))
}

/// Why a reply ended.
pub open spec fn stop_of(reason: Option<Seq<char>>) -> StopReasonView {
    match reason {
        Some(s) => if s == "end_turn"@ {
            StopReasonView::EndTurn
        } else if s == "tool_use"@ {
            StopReasonView::ToolUse
        } else if s == "max_tokens"@ {
            StopReasonView::MaxTokens
        } else if s == "refusal"@ {
            StopReasonView::Refusal
        } else {
            StopReasonView::Other(s)
        },
        None => StopReasonView::Other(Seq::empty()),
    }
}

/// The token counts of a reply: Anthropic counts as [`Usage`] does.
pub open spec fn usage_of(u: WireUsage) -> Usage {
    Usage {
        input_tokens: u.input_tokens,
        output_tokens: u.output_tokens,
        cache_creation_input_tokens: u.cache_creation_input_tokens,
        cache_read_input_tokens: u.cache_read_input_tokens,
    }
}

/// The turn that a reply makes.
pub open spec fn response_of(r: MessagesResponseView) -> ResponseView {
    ResponseView {
        message: MessageView { role: Role::Assistant, content: blocks_of(r.content) },
        stop_reason: stop_of(r.stop_reason),
        usage: usage_of(r.usage),
        provider: ProviderKind::Anthropic,
    }
}

/// The error that a refused request comes back as: its message is what the
/// error envelope in the body says, or the body itself where it holds none.
pub fn map_error(
    status: u16,
    body: &str,
    envelope: Option<ErrorEnvelope>,
    retry_after: Option<Duration>,
) -> (r: Error)
    ensures
        r@ == http::refusal(
            status,
            match wire::envelope_view(envelope) {
                Some(error) => error.message,
                None => body@,
            },
            retry_after,
        ),
{
    let message = match envelope {
        Some(e) => e.error.message,
        None => body.to_owned(),
    };
    classify(status, message, retry_after)
}

/// The tools of a request.
fn tools_to_wire(opts: &RequestOptions) -> (r: Vec<WireTool>)
    ensures
        wire::tools_view(r@) == request_tools(opts@),
{
    let mut tools: Vec<WireTool> = Vec::new();
    for i in 0..opts.tools.len()
        invariant
            tools@.len() == i,
            forall|k: int|
                0 <= k < i ==> (#[trigger] tools@[k])@ == function_tool(opts.tools@[k]@),
    {
        let t = &opts.tools[i];
        tools.push(
            WireTool::function(t.name.clone(), t.description.clone(), t.input_schema.clone()),
        );
    }
    if opts.web_search {
        tools.push(WireTool::web_search());
    }
    assert(wire::tools_view(tools@) =~= request_tools(opts@));
    tools
}

/// The message that the options ask to end the cached prefix with.
fn requested_index(count: usize, from_end: Option<usize>) -> (r: Option<usize>)
    ensures
        match requested_breakpoint(count as nat, from_end) {
            Some(i) => r matches Some(k) && k == i,
            None => r is None,
        },
{
    match from_end {
        Some(n) => if n < count {
            Some(count - 1 - n)
        } else {
            None
        },
        None => None,
    }
}

/// The wire messages of a request.
fn messages_to_wire(conv: &Conversation, opts: &RequestOptions) -> (r: Vec<WireMessage>)
    ensures
        wire::messages_view(r@) == request_messages(conv@, opts@),
{
    let all = conv.messages();
    let volatile = conv.current_mark();
    let requested = requested_index(all.len(), opts.cache_breakpoint_from_end);
    let mut messages: Vec<WireMessage> = Vec::new();
    for i in 0..all.len()
        invariant
            conversation::messages_view(all@) == conv@.messages,
            volatile == conv@.volatile_index(),
            match requested_breakpoint(all@.len(), opts@.cache_breakpoint_from_end) {
                Some(at) => requested matches Some(k) && k == at,
                None => requested is None,
            },
            messages@.len() == i,
            forall|k: int|
                0 <= k < i ==> (#[trigger] messages@[k])@ == message_wire(
                    conv@.messages[k],
                    breakpoint_at(conv@, opts@, k),
                ),
    {
        let before_volatile = match volatile {
            Some(v) => v > 0 && v - 1 == i,
            None => false,
        };
        let asked = match requested {
            Some(k) => k == i,
            None => false,
        };
        assert(conv@.messages[i as int] == all@[i as int]@);
        messages.push(message_to_wire(&all[i], before_volatile || asked));
    }
    assert(wire::messages_view(messages@) =~= request_messages(conv@, opts@));
    messages
}

/// The request for the next turn of a conversation.
pub fn build_request(conv: &Conversation, opts: &RequestOptions, stream: bool) -> (r:
    MessagesRequest)
    ensures
        r@ == request_view(conv@, opts@, stream),
{
    let effort = match opts.thinking {
        Some(e) => e,
        None => ThinkingEffort::Medium,
    };
    let (thinking, output_config) = translate_thinking(opts.model.as_str(), effort);
    let requested = requested_index(conv.messages().len(), opts.cache_breakpoint_from_end);
    let cache_control = if conv.current_mark().is_none() && requested.is_none() {
        Some(CacheControl::ephemeral())
    } else {
        None
    };
    MessagesRequest {
        model: opts.model.clone(),
        max_tokens: match opts.max_tokens {
            Some(n) => n,
            None => DEFAULT_MAX_TOKENS,
        },
        messages: messages_to_wire(conv, opts),
        system: text::copy_opt(&opts.system),
        tools: tools_to_wire(opts),
        tool_choice: map_tool_choice(&opts.tool_choice, opts.parallel_tool_calls),
        temperature: json::copy_opt(&opts.temperature),
        thinking: Some(thinking),
        output_config,
        cache_control,
        stream: if stream {
            Some(true)
        } else {
            None
        },
    }
}

/// Map portable tool_choice + optional parallel control onto Anthropic's
/// `tool_choice` object. `Auto` with unset parallel omits the field entirely
/// (provider default). When `parallel_tool_calls` is set, Anthropic folds it
/// into `disable_parallel_tool_use` on the tool_choice object.
pub fn map_tool_choice(choice: &ToolChoice, parallel_tool_calls: Option<bool>) -> (r: Option<
    WireToolChoice,
>)
    ensures
        wire::choice_view(r) == wire_choice(choice@, parallel_tool_calls),
{
    let disable_parallel_tool_use = match parallel_tool_calls {
        Some(p) => Some(!p),
        None => None,
    };
    let (kind, name) = match choice {
        ToolChoice::Auto => {
            if parallel_tool_calls.is_none() {
                return None;
            }
            ("auto", None)
        },
        ToolChoice::Required => ("any", None),
        ToolChoice::Tool(n) => ("tool", Some(n.clone())),
        ToolChoice::Never => ("none", None),
    };
    Some(WireToolChoice { kind, name, disable_parallel_tool_use })
}

/// Map portable effort onto the thinking API the model actually supports.
pub fn translate_thinking(model: &str, effort: ThinkingEffort) -> (r: (
    Thinking,
    Option<OutputConfig>,
))
    ensures
        r.0 == thinking_for(model@, effort),
        r.1 == output_for(model@, effort),
{
    if uses_extended_thinking(model) {
        (Thinking::Enabled { budget_tokens: extended_thinking_budget(effort) }, None)
    } else {
        let effort = match effort {
            ThinkingEffort::Low => Effort::Low,
            ThinkingEffort::Medium => Effort::Medium,
            ThinkingEffort::High => Effort::High,
        };
        (Thinking::Adaptive { display: Display::Summarized }, Some(OutputConfig { effort }))
    }
}

/// Whether a model thinks by token budget.
pub fn uses_extended_thinking(model: &str) -> (r: bool)
    ensures
        r == extended(model@),
{
    contains(model, "haiku-4-5")
}

/// How many tokens an effort buys where thinking goes by budget.
pub fn extended_thinking_budget(effort: ThinkingEffort) -> (r: u32)
    ensures
        r == budget(effort),
{
    match effort {
        ThinkingEffort::Low => 4_096,
        ThinkingEffort::Medium => 16_384,
        ThinkingEffort::High => 32_768,
    }
}

/// The block with a cache breakpoint on it, where it has a place for one.
fn mark_breakpoint(block: serde_json::Value) -> (r: serde_json::Value)
    ensures
        json::json_of(r) == with_breakpoint(json::json_of(block)),
{
    json::set_member(block, "cache_control", CacheControl::ephemeral().to_value())
}

/// The message as it goes on the wire.
pub fn message_to_wire(msg: &Message, breakpoint: bool) -> (r: WireMessage)
    ensures
        r@ == message_wire(msg@, breakpoint),
{
    let role = match msg.role {
        Role::User => "user",
        Role::Assistant => "assistant",
    };
    let mut content: Vec<serde_json::Value> = Vec::new();
    for i in 0..msg.content.len()
        invariant
            content@.len() == i,
            forall|k: int|
                0 <= k < i ==> json::json_of(#[trigger] content@[k]) == content_json(
                    msg@.content,
                    breakpoint,
                )[k],
    {
        let block = block_to_wire(&msg.content[i]);
        assert(msg@.content[i as int] == msg.content@[i as int]@);
        if breakpoint && i == msg.content.len() - 1 {
            content.push(mark_breakpoint(block));
        } else {
            content.push(block);
        }
    }
    assert(json::jsons_of(content@) =~= content_json(msg@.content, breakpoint));
    WireMessage { role, content }
}

/// The block as it goes on the wire.
pub fn block_to_wire(block: &ContentBlock) -> (r: serde_json::Value)
    ensures
        json::json_of(r) == block_json(block@),
{
    let mut m = serde_json::Map::new();
    match block {
        ContentBlock::Text(t) => {
            if let Some(e) = &t.extras {
                return e.0.clone();
            }
            json::put(&mut m, "type", json::string("text"));
            json::put(&mut m, "text", json::string(t.text.as_str()));
        },
        ContentBlock::ToolUse(t) => {
            if let Some(e) = &t.extras {
                return e.0.clone();
            }
            json::put(&mut m, "type", json::string("tool_use"));
            json::put(&mut m, "id", json::string(t.id.as_str()));
            json::put(&mut m, "name", json::string(t.name.as_str()));
            json::put(&mut m, "input", t.input.clone());
        },
        ContentBlock::ToolResult(t) => {
            let content = t.output.text();
            let is_error = match &t.output {
                ToolOutput::Error(_) => true,
                _ => false,
            };
            json::put(&mut m, "type", json::string("tool_result"));
            json::put(&mut m, "tool_use_id", json::string(t.id.as_str()));
            json::put(&mut m, "content", json::string(content.as_str()));
            if is_error {
                json::put(&mut m, "is_error", json::boolean(true));
            }
        },
        // Echo the original thinking/redacted block; Anthropic verifies signatures.
        ContentBlock::Reasoning(r) => {
            return r.payload.0.clone();
        },
    }
    json::object(m)
}

/// The turn that a reply makes. Every reply makes one.
pub fn parse_response(wire: MessagesResponse) -> (r: Result<Response, Error>)
    ensures
        r matches Ok(response) && response@ == response_of(wire@),
{
    let ghost given = wire.content@;
    let mut content: Vec<ContentBlock> = Vec::new();
    for block in it: wire.content
        invariant
            it.seq() == given,
            content@.len() == it.index(),
            forall|k: int|
                0 <= k < content@.len() ==> (#[trigger] content@[k])@ == block_of(
                    json::json_of(given[k]),
                ),
    {
        match wire_block_to_agnostic(block) {
            Ok(b) => content.push(b),
            Err(e) => {
                return Err(e);
            },
        }
    }
    assert(content::blocks_view(content@) =~= blocks_of(json::jsons_of(given)));
    let stop_reason = match &wire.stop_reason {
        Some(s) => map_stop_reason(Some(s.as_str())),
        None => map_stop_reason(None),
    };
    Ok(
        Response {
            message: Message { role: Role::Assistant, content },
            stop_reason,
            usage: Usage {
                input_tokens: wire.usage.input_tokens,
                output_tokens: wire.usage.output_tokens,
                cache_creation_input_tokens: wire.usage.cache_creation_input_tokens,
                cache_read_input_tokens: wire.usage.cache_read_input_tokens,
            },
            provider: ProviderKind::Anthropic,
        },
    )
}

/// Whether a wire block says nothing but its text.
fn is_plain_text(block: &serde_json::Value) -> (r: bool)
    requires
        json::text_member(json::json_of(*block), "type"@) == "text"@,
    ensures
        r == (json::json_of(*block) == text_json(
            json::text_member(json::json_of(*block), "text"@),
        )),
{
    let ghost j = json::json_of(*block);
    let ghost text = json::text_member(j, "text"@);
    proof {
        lemma_plain_sizes(text, text, Json::Null);
    }
    let pair = match json::member_count(block) {
        Some(n) => n == 2,
        None => false,
    };
    let said = json::get_str(block, "text").is_some();
    let typed = json::get_str(block, "type").is_some();
    proof {
        if pair && said && typed {
            json::lemma_no_other_members(j->Object_0, text_json(text)->Object_0);
        }
    }
    pair && said && typed
}

/// Whether a wire block says nothing but which tool to call, and with what.
fn is_plain_call(block: &serde_json::Value) -> (r: bool)
    requires
        json::text_member(json::json_of(*block), "type"@) == "tool_use"@,
    ensures
        ({
            let j = json::json_of(*block);
            r == (j == call_json(
                json::text_member(j, "id"@),
                json::text_member(j, "name"@),
                input_member(j),
            ))
        }),
{
    let ghost j = json::json_of(*block);
    let ghost id = json::text_member(j, "id"@);
    let ghost name = json::text_member(j, "name"@);
    proof {
        lemma_plain_sizes(id, name, input_member(j));
    }
    let four = match json::member_count(block) {
        Some(n) => n == 4,
        None => false,
    };
    let named = json::get_str(block, "id").is_some() && json::get_str(block, "name").is_some();
    let given = json::get(block, "input").is_some();
    let typed = json::get_str(block, "type").is_some();
    proof {
        if four && named && given && typed {
            json::lemma_no_other_members(
                j->Object_0,
                call_json(id, name, input_member(j))->Object_0,
            );
        }
    }
    four && named && given && typed
}

/// How many members plain blocks have.
proof fn lemma_plain_sizes(a: Seq<char>, b: Seq<char>, input: Json)
    ensures
        text_json(a)->Object_0.dom().finite(),
        text_json(a)->Object_0.dom().len() == 2,
        call_json(a, b, input)->Object_0.dom().finite(),
        call_json(a, b, input)->Object_0.dom().len() == 4,
        json::string_member(text_json(a), "text"@) == Some(a),
        json::string_member(text_json(a), "type"@) is Some,
        json::string_member(call_json(a, b, input), "id"@) == Some(a),
        json::string_member(call_json(a, b, input), "name"@) == Some(b),
        json::string_member(call_json(a, b, input), "type"@) is Some,
        json::member(call_json(a, b, input), "input"@) == Some(input),
{
    reveal_strlit("type");
    reveal_strlit("text");
    reveal_strlit("id");
    reveal_strlit("name");
    reveal_strlit("input");
    assert("type"@[0] == 't' && "type"@[1] == 'y');
    assert("text"@[1] == 'e');
    assert("name"@[0] == 'n');
    assert("id"@.len() == 2 && "input"@.len() == 5);
    assert("type"@.len() == 4 && "name"@.len() == 4);
}

/// The block of a reply, where the shared types leave something of it out.
fn kept(block: serde_json::Value, plain: bool) -> (r: Option<OpaquePayload>)
    ensures
        content::payload_view(r) == if plain {
            None
        } else {
            Some(json::json_of(block))
        },
{
    if plain {
        None
    } else {
        Some(OpaquePayload(block))
    }
}

/// A block of a reply as the shared types have it. They have room for every
/// block.
pub fn wire_block_to_agnostic(block: serde_json::Value) -> (r: Result<ContentBlock, Error>)
    ensures
        r matches Ok(b) && b@ == block_of(json::json_of(block)),
{
    let kind = str_field(&block, "type");
    let shared = if same(kind.as_str(), "text") {
        let text = str_field(&block, "text");
        let plain = is_plain_text(&block);
        ContentBlock::Text(TextBlock { text, extras: kept(block, plain) })
    } else if same(kind.as_str(), "tool_use") {
        let input = match json::get(&block, "input") {
            Some(v) => v.clone(),
            None => json::null(),
        };
        let id = str_field(&block, "id");
        let name = str_field(&block, "name");
        let plain = is_plain_call(&block);
        ContentBlock::ToolUse(ToolUseBlock { id, name, input, extras: kept(block, plain) })
    } else if same(kind.as_str(), "thinking") {
        let summary = copy_filled(json::get_str(&block, "thinking"));
        ContentBlock::Reasoning(reasoning(block, summary))
    } else {
        // Opaque to clients (redacted thinking, hosted tools, block types yet
        // unknown) but still to be returned on the next turn.
        ContentBlock::Reasoning(reasoning(block, None))
    };
    Ok(shared)
}

fn reasoning(block: serde_json::Value, summary: Option<String>) -> (r: ReasoningBlock)
    ensures
        r.provider == ProviderKind::Anthropic,
        r.payload.0 == block,
        r.summary == summary,
{
    ReasoningBlock { provider: ProviderKind::Anthropic, payload: OpaquePayload(block), summary }
}

/// Why a reply ended.
pub fn map_stop_reason(s: Option<&str>) -> (r: StopReason)
    ensures
        r@ == stop_of(text::opt_str(s)),
{
    match s {
        Some(s) => if same(s, "end_turn") {
            StopReason::EndTurn
        } else if same(s, "tool_use") {
            StopReason::ToolUse
        } else if same(s, "max_tokens") {
            StopReason::MaxTokens
        } else if same(s, "refusal") {
            StopReason::Refusal
        } else {
            StopReason::Other(s.to_owned())
        },
        None => StopReason::Other(String::new()),
    }
}

} // verus!
