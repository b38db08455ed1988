//! Shared types to Responses items and back. OpenAI and xAI differ in nothing
//! but who they are.

use std::time::Duration;

use vstd::prelude::*;

use crate::error::Error;
use crate::http::{self, classify, push_header, ConfigView, HttpRequest, HttpRequestView};
use crate::json::{self, str_field, Json};
use crate::responses::wire::{
    self, Effort, ErrorEnvelope, Reasoning, ResponsesRequest, ResponsesRequestView,
    ResponsesResponse, ResponsesResponseView, WireTool, WireToolView, WireUsage,
};
use crate::text::{self, concat, copy_filled, same};
use crate::types::content::{
    self, ContentBlock, ContentBlockView, OpaquePayload, ReasoningBlock, TextBlock,
    ToolOutputView, ToolUseBlock,
};
use crate::types::conversation::{
    self, Conversation, ConversationView, Message, MessageView, ProviderKind, Role,
};
use crate::types::request::{
    RequestOptions, RequestOptionsView, ThinkingEffort, ToolChoice, ToolChoiceView, ToolDefView,
};
use crate::types::response::{Response, ResponseView, StopReason, StopReasonView, Usage};

verus! {

// High default so long tool/reasoning turns are not truncated by accident when
// the caller omits max_tokens.
pub const DEFAULT_MAX_OUTPUT_TOKENS: u32 = 64_000;

/// A user text as an input item.
pub open spec fn user_item(text: Seq<char>) -> Json {
    Json::Object(map!["role"@ => Json::Str("user"@), "content"@ => Json::Str(text)])
}

/// A tool result as an input item.
pub open spec fn result_item(id: Seq<char>, output: ToolOutputView) -> Json {
    Json::Object(
        map![
            "type"@ => Json::Str("function_call_output"@),
            "call_id"@ => Json::Str(id),
            "output"@ => Json::Str(output.text()),
        ],
    )
}

/// An assistant text that no wire item is stored for, as an input item.
pub open spec fn message_item(text: Seq<char>) -> Json {
    let part = Json::Object(
        map!["type"@ => Json::Str("output_text"@), "text"@ => Json::Str(text)],
    );
    Json::Object(
        map![
            "type"@ => Json::Str("message"@),
            "role"@ => Json::Str("assistant"@),
            "status"@ => Json::Str("completed"@),
            "content"@ => Json::Array(seq![part]),
        ],
    )
}

/// A tool call that no wire item is stored for, as an input item.
pub open spec fn call_item(id: Seq<char>, name: Seq<char>, input: Json) -> Json {
    Json::Object(
        map![
            "type"@ => Json::Str("function_call"@),
            "call_id"@ => Json::Str(id),
            "name"@ => Json::Str(name),
            "arguments"@ => Json::Str(json::json_text(input)),
            "status"@ => Json::Str("completed"@),
        ],
    )
}

/// A block of an assistant turn as an input item: the stored wire item where
/// there is one, so that ids, status and encrypted fields survive.
pub open spec fn block_item(block: ContentBlockView) -> Json {
    match block {
        ContentBlockView::Text { text, extras } => match extras {
            Some(item) => item,
            None => message_item(text),
        },
        ContentBlockView::ToolUse { id, name, input, extras } => match extras {
            Some(item) => item,
            None => call_item(id, name, input),
        },
        ContentBlockView::Reasoning { payload, .. } => payload,
        ContentBlockView::ToolResult { .. } => Json::Null,
    }
}

/// The input item that a block makes in a turn of this role, if any: users do
/// not call tools or reason, and assistants do not report results.
pub open spec fn input_item(role: Role, block: ContentBlockView) -> Option<Json> {
    match role {
        Role::User => match block {
            ContentBlockView::Text { text, .. } => Some(user_item(text)),
            ContentBlockView::ToolResult { id, output } => Some(result_item(id, output)),
            _ => None,
        },
        Role::Assistant => if block is ToolResult {
            None
        } else {
            Some(block_item(block))
        },
    }
}

/// The input items of a turn.
pub open spec fn message_items(role: Role, blocks: Seq<ContentBlockView>) -> Seq<Json>
    decreases blocks.len(),
{
    if blocks.len() == 0 {
        Seq::empty()
    } else {
        let before = message_items(role, blocks.drop_last());
        match input_item(role, blocks.last()) {
            Some(item) => before.push(item),
            None => before,
        }
    }
}

/// The input items of a transcript: those of its turns, one behind the other.
pub open spec fn transcript_items(messages: Seq<MessageView>) -> Seq<Json>
    decreases messages.len(),
{
    if messages.len() == 0 {
        Seq::empty()
    } else {
        transcript_items(messages.drop_last()) + message_items(
            messages.last().role,
            messages.last().content,
        )
    }
}

/// How a tool of the caller is written on the wire.
pub open spec fn function_tool(t: ToolDefView) -> WireToolView {
    WireToolView::Function {
        kind: "function"@,
        name: t.name,
        description: t.description,
        parameters: t.input_schema,
    }
}

/// The hosted web search, as it is written on the wire.
pub open spec fn search_tool() -> WireToolView {
    WireToolView::WebSearch { kind: "web_search"@ }
}

/// The tools of a request: the caller's, then the hosted web search where it is
/// asked for.
pub open spec fn request_tools(opts: RequestOptionsView) -> Seq<WireToolView> {
    let own = opts.tools.map_values(|t: ToolDefView| function_tool(t));
    if opts.web_search {
        own.push(search_tool())
    } else {
        own
    }
}

/// The tool choice, where it says more than the provider's default.
pub open spec fn wire_choice(choice: ToolChoiceView) -> Option<Json> {
    match choice {
        ToolChoiceView::Auto => None,
        ToolChoiceView::Required => Some(Json::Str("required"@)),
        ToolChoiceView::Never => Some(Json::Str("none"@)),
        ToolChoiceView::Tool(name) => Some(
            Json::Object(map!["type"@ => Json::Str("function"@), "name"@ => Json::Str(name)]),
        ),
    }
}

/// How an effort is named on the wire.
pub open spec fn wire_effort(effort: Option<ThinkingEffort>) -> Effort {
    match effort {
        Some(ThinkingEffort::Low) => Effort::Low,
        Some(ThinkingEffort::High) => Effort::High,
        _ => Effort::Medium,
    }
}

/// The request for the next turn of a conversation.
pub open spec fn request_view(
    c: ConversationView,
    opts: RequestOptionsView,
    stream: bool,
) -> ResponsesRequestView {
    ResponsesRequestView {
        model: opts.model,
        input: transcript_items(c.messages),
        instructions: opts.system,
        tools: request_tools(opts),
        tool_choice: wire_choice(opts.tool_choice),
        parallel_tool_calls: opts.parallel_tool_calls,
        temperature: opts.temperature,
        max_output_tokens: match opts.max_tokens {
            Some(n) => Some(n),
            None => Some(DEFAULT_MAX_OUTPUT_TOKENS),
        },
        reasoning: Reasoning { effort: wire_effort(opts.thinking) },
        store: false,
        includes: seq!["reasoning.encrypted_content"@],
        prompt_cache_key: c.cache_key,
        stream: if stream {
            Some(true)
        } else {
            None
        },
    }
}

/// The HTTP request for the next turn of a conversation.
pub open spec fn http_view(
    cfg: ConfigView,
    c: ConversationView,
    opts: RequestOptionsView,
    stream: bool,
) -> HttpRequestView {
    HttpRequestView {
        url: cfg.base_url + "/v1/responses"@,
        headers: seq![("Authorization"@, "Bearer "@ + cfg.api_key)],
        body: request_view(c, opts, stream).json(),
    }
}

/// The text of a content part, if it is output text.
pub open spec fn part_text(part: Json) -> Seq<char> {
    if json::string_member(part, "type"@) == Some("output_text"@) {
        json::text_member(part, "text"@)
    } else {
        Seq::empty()
    }
}

/// The output text of content parts, one behind the other.
pub open spec fn joined_text(parts: Seq<Json>) -> Seq<char>
    decreases parts.len(),
{
    if parts.len() == 0 {
        Seq::empty()
    } else {
        joined_text(parts.drop_last()) + part_text(parts.last())
    }
}

/// The text of a message item.
pub open spec fn message_text(item: Json) -> Seq<char> {
    match json::array_member(item, "content"@) {
        Some(parts) => joined_text(parts),
        None => Seq::empty(),
    }
}

/// What the arguments of a call item parse as, where it has any.
pub open spec fn arguments_of(item: Json) -> Option<Result<Json, Seq<char>>> {
    match json::string_member(item, "arguments"@) {
        Some(s) => Some(json::json_parse(s)),
        None => None,
    }
}

/// A call item, given what its arguments parse as. No arguments stand for an
/// object without members; arguments that are no JSON count as null.
pub open spec fn call_of(item: Json, parsed: Option<Result<Json, Seq<char>>>) -> ContentBlockView {
    ContentBlockView::ToolUse {
        id: json::text_member(item, "call_id"@),
        name: json::text_member(item, "name"@),
        input: match parsed {
            Some(Ok(v)) => v,
            Some(Err(_)) => Json::Null,
            None => Json::Object(json::no_members()),
        },
        extras: Some(item),
    }
}

/// The first summary of a reasoning item.
pub open spec fn summary_text(item: Json) -> Option<Seq<char>> {
    match json::array_member(item, "summary"@) {
        Some(parts) if parts.len() > 0 => text::filled(json::string_member(parts[0], "text"@)),
        _ => None,
    }
}

/// An item of a reply. Every item is kept whole, so that the next turn can give
/// it back.
pub open spec fn block_of(provider: ProviderKind, item: Json) -> ContentBlockView {
    let kind = json::text_member(item, "type"@);
    if kind == "message"@ {
        ContentBlockView::Text { text: message_text(item), extras: Some(item) }
    } else if kind == "function_call"@ {
        call_of(item, arguments_of(item))
    } else {
        ContentBlockView::Reasoning {
            provider,
            payload: item,
            summary: if kind == "reasoning"@ {
                summary_text(item)
            } else {
                None
            },
        }
    }
}

/// The items of a reply.
pub open spec fn blocks_of(provider: ProviderKind, output: Seq<Json>) -> Seq<ContentBlockView> {
    output.map_values(|item: Json| block_of(provider, item))
}

/// A reply that asks for tools to be run.
pub open spec fn calls_tools(output: Seq<Json>) -> bool {
    exists|i: int|
        0 <= i < output.len() && json::string_member(#[trigger] output[i], "type"@) == Some(
            "function_call"@,
        )
}

/// Why a reply ended. Responses does not always say; a tool call implies that
/// the model wants tools run before continuing.
pub open spec fn stop_of(r: ResponsesResponseView) -> StopReasonView {
    if calls_tools(r.output) {
        StopReasonView::ToolUse
    } else if r.status == "completed"@ {
        StopReasonView::EndTurn
    } else if r.status == "incomplete"@ {
        match r.incomplete_reason {
            Some(reason) => if reason == "max_output_tokens"@ || reason == "max_tokens"@ {
                StopReasonView::MaxTokens
            } else if reason == "content_filter"@ {
                StopReasonView::Refusal
            } else {
                StopReasonView::Other(reason)
            },
            None => StopReasonView::Other("incomplete"@),
        }
    } else {
        StopReasonView::Other(r.status)
    }
}

/// How much of the prompt a cache served, at most all of it.
pub open spec fn cached_of(u: WireUsage) -> u32 {
    if u.input_tokens_details.cached_tokens < u.input_tokens {
        u.input_tokens_details.cached_tokens
    } else {
        u.input_tokens
    }
}

/// The token counts of a reply, with what a cache served split out of the
/// prompt.
pub open spec fn usage_of(u: WireUsage) -> Usage {
    Usage {
        input_tokens: (u.input_tokens - cached_of(u)) as u32,
        output_tokens: u.output_tokens,
        cache_creation_input_tokens: 0,
        cache_read_input_tokens: cached_of(u),
    }
}

/// The turn that a reply makes.
pub open spec fn response_of(provider: ProviderKind, r: ResponsesResponseView) -> ResponseView {
    ResponseView {
        message: MessageView { role: Role::Assistant, content: blocks_of(provider, r.output) },
        stop_reason: stop_of(r),
        usage: usage_of(r.usage),
        provider,
    }
}

/// The HTTP request for the next turn of a conversation.
pub fn request(
    api_key: &str,
    base_url: &str,
    conv: &Conversation,
    opts: &RequestOptions,
    stream: bool,
) -> (r: HttpRequest)
    ensures
        r@ == http_view(
            (ConfigView { api_key: api_key@, base_url: base_url@ }),
            conv@,
            opts@,
            stream,
        ),
{
    let mut headers: Vec<(String, String)> = Vec::new();
    assert(http::headers_view(headers@) =~= Seq::empty());
    let bearer = concat("Bearer ", api_key);
    push_header(&mut headers, "Authorization", bearer.as_str());
    assert(http::headers_view(headers@) =~= seq![("Authorization"@, "Bearer "@ + api_key@)]);
    HttpRequest {
        url: concat(base_url, "/v1/responses"),
        headers,
        body: build_request(conv, opts, stream).to_value(),
    }
}

/// The error that a refused request comes back as: its message is what the
/// error envelope in the body says, or the body itself where it holds none.
pub fn map_error(
    status: u16,
    body: &str,
    envelope: Option<ErrorEnvelope>,
    retry_after: Option<Duration>,
) -> (r: Error)
    ensures
        r@ == http::refusal(
            status,
            match wire::envelope_view(envelope) {
                Some(error) => error.message,
                None => body@,
            },
            retry_after,
        ),
{
    let message = match envelope {
        Some(e) => e.error.message,
        None => body.to_owned(),
    };
    classify(status, message, retry_after)
}

/// The tools of a request.
fn tools_to_wire(opts: &RequestOptions) -> (r: Vec<WireTool>)
    ensures
        wire::tools_view(r@) == request_tools(opts@),
{
    let mut tools: Vec<WireTool> = Vec::new();
    for i in 0..opts.tools.len()
        invariant
            tools@.len() == i,
            forall|k: int|
                0 <= k < i ==> (#[trigger] tools@[k])@ == function_tool(opts.tools@[k]@),
    {
        let t = &opts.tools[i];
        tools.push(
            WireTool::function(t.name.clone(), t.description.clone(), t.input_schema.clone()),
        );
    }
    if opts.web_search {
        tools.push(WireTool::web_search());
    }
    assert(wire::tools_view(tools@) =~= request_tools(opts@));
    tools
}

/// The request for the next turn of a conversation.
pub fn build_request(conv: &Conversation, opts: &RequestOptions, stream: bool) -> (r:
    ResponsesRequest)
    ensures
        r@ == request_view(conv@, opts@, stream),
{
    let effort = match opts.thinking {
        Some(ThinkingEffort::Low) => Effort::Low,
        Some(ThinkingEffort::High) => Effort::High,
        _ => Effort::Medium,
    };
    // Required so multi-turn can resubmit encrypted reasoning items.
    let mut includes: Vec<&'static str> = Vec::new();
    includes.push("reasoning.encrypted_content");
    assert(wire::names_view(includes@) =~= seq!["reasoning.encrypted_content"@]);
    ResponsesRequest {
        model: opts.model.clone(),
        input: conversation_to_input(conv),
        instructions: text::copy_opt(&opts.system),
        tools: tools_to_wire(opts),
        tool_choice: map_tool_choice(&opts.tool_choice),
        parallel_tool_calls: opts.parallel_tool_calls,
        temperature: json::copy_opt(&opts.temperature),
        max_output_tokens: match opts.max_tokens {
            Some(n) => Some(n),
            None => Some(DEFAULT_MAX_OUTPUT_TOKENS),
        },
        reasoning: Reasoning { effort },
        // Client owns history; store:true would create server-side state we
        // never consult.
        store: false,
        includes,
        prompt_cache_key: conv.cache_key().to_owned(),
        stream: if stream {
            Some(true)
        } else {
            None
        },
    }
}

/// Map portable tool_choice onto Responses API values. `Auto` omits the field
/// (provider default). Specific tools use `{ "type": "function", "name": .. }`.
pub fn map_tool_choice(choice: &ToolChoice) -> (r: Option<serde_json::Value>)
    ensures
        json::opt_json(r) == wire_choice(choice@),
{
    match choice {
        ToolChoice::Auto => None,
        ToolChoice::Required => Some(json::string("required")),
        ToolChoice::Never => Some(json::string("none")),
        ToolChoice::Tool(name) => {
            let mut m = serde_json::Map::new();
            json::put(&mut m, "type", json::string("function"));
            json::put(&mut m, "name", json::string(name.as_str()));
            Some(json::object(m))
        },
    }
}

/// Flatten messages into Responses `input` items (role messages, function
/// calls, and function outputs are separate top-level items).
pub fn conversation_to_input(conv: &Conversation) -> (r: Vec<serde_json::Value>)
    ensures
        json::jsons_of(r@) == transcript_items(conv@.messages),
{
    let messages = conv.messages();
    let ghost all = conv@.messages;
    let mut input: Vec<serde_json::Value> = Vec::new();
    assert(all.take(0) =~= Seq::empty());
    assert(json::jsons_of(input@) =~= Seq::empty());
    for i in 0..messages.len()
        invariant
            all == conversation::messages_view(messages@),
            json::jsons_of(input@) == transcript_items(all.take(i as int)),
    {
        let mut items = message_to_input(&messages[i]);
        let ghost had = input@;
        let ghost added = items@;
        input.append(&mut items);
        assert(json::jsons_of(input@) =~= json::jsons_of(had) + json::jsons_of(added));
        assert(all.take(i + 1).drop_last() =~= all.take(i as int));
        assert(all[i as int] == messages@[i as int]@);
    }
    assert(all.take(all.len() as int) =~= all);
    input
}

/// The input item that a block makes in a turn of this role, if any.
fn block_to_item(role: Role, block: &ContentBlock) -> (r: Option<serde_json::Value>)
    ensures
        json::opt_json(r) == input_item(role, block@),
{
    match role {
        Role::User => match block {
            ContentBlock::Text(t) => {
                let mut m = serde_json::Map::new();
                json::put(&mut m, "role", json::string("user"));
                json::put(&mut m, "content", json::string(t.text.as_str()));
                Some(json::object(m))
            },
            ContentBlock::ToolResult(t) => {
                let output = t.output.text();
                let mut m = serde_json::Map::new();
                json::put(&mut m, "type", json::string("function_call_output"));
                json::put(&mut m, "call_id", json::string(t.id.as_str()));
                json::put(&mut m, "output", json::string(output.as_str()));
                Some(json::object(m))
            },
            _ => None,
        },
        Role::Assistant => match block {
            ContentBlock::ToolResult(_) => None,
            _ => Some(block_to_input(block)),
        },
    }
}

/// The input items of a turn.
pub fn message_to_input(msg: &Message) -> (r: Vec<serde_json::Value>)
    ensures
        json::jsons_of(r@) == message_items(msg@.role, msg@.content),
{
    let ghost all = msg@.content;
    let mut items: Vec<serde_json::Value> = Vec::new();
    assert(all.take(0) =~= Seq::empty());
    assert(json::jsons_of(items@) =~= Seq::empty());
    for i in 0..msg.content.len()
        invariant
            all == msg@.content,
            json::jsons_of(items@) == message_items(msg@.role, all.take(i as int)),
    {
        assert(all.take(i + 1).drop_last() =~= all.take(i as int));
        assert(all[i as int] == msg.content@[i as int]@);
        match block_to_item(msg.role, &msg.content[i]) {
            Some(item) => {
                proof {
                    json::lemma_jsons_push(items@, item);
                }
                items.push(item);
            },
            None => {},
        }
    }
    assert(all.take(all.len() as int) =~= all);
    items
}

/// A block of an assistant turn as an input item. Tool results belong in user
/// turns.
pub fn block_to_input(block: &ContentBlock) -> (r: serde_json::Value)
    requires
        !(block@ is ToolResult),
    ensures
        json::json_of(r) == block_item(block@),
{
    match block {
        // Prefer stored wire form so ids/status/encrypted fields survive.
        ContentBlock::Text(t) => match &t.extras {
            Some(e) => e.0.clone(),
            None => {
                let mut part = serde_json::Map::new();
                json::put(&mut part, "type", json::string("output_text"));
                json::put(&mut part, "text", json::string(t.text.as_str()));
                let mut parts: Vec<serde_json::Value> = Vec::new();
                parts.push(json::object(part));
                assert(json::jsons_of(parts@) =~= seq![json::json_of(parts@[0])]);
                let mut m = serde_json::Map::new();
                json::put(&mut m, "type", json::string("message"));
                json::put(&mut m, "role", json::string("assistant"));
                json::put(&mut m, "status", json::string("completed"));
                json::put(&mut m, "content", json::array(parts));
                json::object(m)
            },
        },
        ContentBlock::ToolUse(t) => match &t.extras {
            Some(e) => e.0.clone(),
            None => {
                let arguments = json::text(&t.input);
                let mut m = serde_json::Map::new();
                json::put(&mut m, "type", json::string("function_call"));
                json::put(&mut m, "call_id", json::string(t.id.as_str()));
                json::put(&mut m, "name", json::string(t.name.as_str()));
                json::put(&mut m, "arguments", json::string(arguments.as_str()));
                json::put(&mut m, "status", json::string("completed"));
                json::object(m)
            },
        },
        ContentBlock::Reasoning(r) => r.payload.0.clone(),
        ContentBlock::ToolResult(_) => json::null(),
    }
}

/// The turn that a reply of this provider makes. Every reply makes one.
pub fn parse_response(provider: ProviderKind, wire: ResponsesResponse) -> (r: Result<
    Response,
    Error,
>)
    ensures
        r matches Ok(response) && response@ == response_of(provider, wire@),
{
    let stop_reason = map_stop_reason(&wire);
    let usage = map_usage(wire.usage);
    let ghost given = wire.output@;
    let mut content: Vec<ContentBlock> = Vec::new();
    for item in it: wire.output
        invariant
            it.seq() == given,
            content@.len() == it.index(),
            forall|k: int|
                0 <= k < content@.len() ==> (#[trigger] content@[k])@ == block_of(
                    provider,
                    json::json_of(given[k]),
                ),
    {
        match wire_item_to_agnostic(provider, item) {
            Ok(b) => content.push(b),
            Err(e) => {
                return Err(e);
            },
        }
    }
    assert(content::blocks_view(content@) =~= blocks_of(provider, json::jsons_of(given)));
    Ok(Response { message: Message { role: Role::Assistant, content }, stop_reason, usage, provider })
}

/// Map Responses usage onto the Anthropic-shaped [`Usage`] fields.
///
/// The backends bill `input_tokens` as the full prompt (cached subset included)
/// and report cache hits in `input_tokens_details.cached_tokens`. Split them so
/// `input_tokens` is the uncached remainder and `cache_read_input_tokens` is
/// the hit; then [`Usage::total_input_tokens`] stays additive.
pub fn map_usage(wire: WireUsage) -> (r: Usage)
    ensures
        r == usage_of(wire),
{
    let cached: u32 = if wire.input_tokens_details.cached_tokens < wire.input_tokens {
        wire.input_tokens_details.cached_tokens
    } else {
        wire.input_tokens
    };
    Usage {
        input_tokens: wire.input_tokens - cached,
        output_tokens: wire.output_tokens,
        cache_creation_input_tokens: 0,
        cache_read_input_tokens: cached,
    }
}

/// The text of a message item.
fn text_of_message(item: &serde_json::Value) -> (r: String)
    ensures
        r@ == message_text(json::json_of(*item)),
{
    let parts = match json::get_array(item, "content") {
        Some(parts) => parts,
        None => {
            return String::new();
        },
    };
    let ghost all = json::jsons_of(parts@);
    let mut out = String::new();
    assert(all.take(0) =~= Seq::empty());
    for i in 0..parts.len()
        invariant
            all == json::jsons_of(parts@),
            out@ == joined_text(all.take(i as int)),
    {
        assert(all.take(i + 1).drop_last() =~= all.take(i as int));
        assert(all[i as int] == json::json_of(parts@[i as int]));
        let is_text = match json::get_str(&parts[i], "type") {
            Some(kind) => same(kind, "output_text"),
            None => false,
        };
        if is_text {
            out.append(str_field(&parts[i], "text").as_str());
        } else {
            assert(out@ + Seq::<char>::empty() =~= out@);
        }
    }
    assert(all.take(all.len() as int) =~= all);
    out
}

/// A call item as the shared types have it, given what its arguments parse as.
pub fn tool_call(
    item: serde_json::Value,
    parsed: Option<Result<serde_json::Value, String>>,
) -> (r: ToolUseBlock)
    ensures
        ContentBlock::ToolUse(r)@ == call_of(
            json::json_of(item),
            match parsed {
                Some(Ok(v)) => Some(Ok(json::json_of(v))),
                Some(Err(e)) => Some(Err(e@)),
                None => None,
            },
        ),
{
    let input = match parsed {
        Some(Ok(v)) => v,
        Some(Err(_)) => json::null(),
        None => json::object(serde_json::Map::new()),
    };
    ToolUseBlock {
        id: str_field(&item, "call_id"),
        name: str_field(&item, "name"),
        input,
        extras: Some(OpaquePayload(item)),
    }
}

/// The first summary of a reasoning item.
fn summary_of(item: &serde_json::Value) -> (r: Option<String>)
    ensures
        text::opt_text(r) == summary_text(json::json_of(*item)),
{
    match json::get_array(item, "summary") {
        Some(parts) => if parts.len() > 0 {
            assert(json::jsons_of(parts@)[0] == json::json_of(parts@[0]));
            copy_filled(json::get_str(&parts[0], "text"))
        } else {
            None
        },
        None => None,
    }
}

/// An item of a reply as the shared types have it. They have room for every
/// item.
pub fn wire_item_to_agnostic(provider: ProviderKind, item: serde_json::Value) -> (r: Result<
    ContentBlock,
    Error,
>)
    ensures
        r matches Ok(b) && b@ == block_of(provider, json::json_of(item)),
{
    let kind = str_field(&item, "type");
    let shared = if same(kind.as_str(), "message") {
        let text = text_of_message(&item);
        // Keep full item in extras for faithful multi-turn resubmission.
        ContentBlock::Text(TextBlock { text, extras: Some(OpaquePayload(item)) })
    } else if same(kind.as_str(), "function_call") {
        let parsed = match json::get_str(&item, "arguments") {
            Some(arguments) => Some(json::parse(arguments)),
            None => None,
        };
        ContentBlock::ToolUse(tool_call(item, parsed))
    } else if same(kind.as_str(), "reasoning") {
        let summary = summary_of(&item);
        ContentBlock::Reasoning(reasoning(provider, item, summary))
    } else {
        // Preserve unknown item types rather than dropping them mid-history.
        ContentBlock::Reasoning(reasoning(provider, item, None))
    };
    Ok(shared)
}

fn reasoning(provider: ProviderKind, item: serde_json::Value, summary: Option<String>) -> (r:
    ReasoningBlock)
    ensures
        r.provider == provider,
        r.payload.0 == item,
        r.summary == summary,
{
    ReasoningBlock { provider, payload: OpaquePayload(item), summary }
}

/// Whether a reply asks for tools to be run.
fn has_tool_call(output: &Vec<serde_json::Value>) -> (r: bool)
    ensures
        r == calls_tools(json::jsons_of(output@)),
{
    let ghost all = json::jsons_of(output@);
    for i in 0..output.len()
        invariant
            all == json::jsons_of(output@),
            forall|k: int|
                0 <= k < i ==> json::string_member(#[trigger] all[k], "type"@) != Some(
                    "function_call"@,
                ),
    {
        assert(all[i as int] == json::json_of(output@[i as int]));
        let is_call = match json::get_str(&output[i], "type") {
            Some(kind) => same(kind, "function_call"),
            None => false,
        };
        if is_call {
            return true;
        }
    }
    false
}

/// Why a reply ended.
pub fn map_stop_reason(wire: &ResponsesResponse) -> (r: StopReason)
    ensures
        r@ == stop_of(wire@),
{
    if has_tool_call(&wire.output) {
        return StopReason::ToolUse;
    }
    let status = wire.status.as_str();
    if same(status, "completed") {
        StopReason::EndTurn
    } else if same(status, "incomplete") {
        match &wire.incomplete_details {
            Some(d) => {
                let reason = d.reason.as_str();
                if same(reason, "max_output_tokens") || same(reason, "max_tokens") {
                    StopReason::MaxTokens
                } else if same(reason, "content_filter") {
                    StopReason::Refusal
                } else {
                    StopReason::Other(reason.to_owned())
                }
            },
            None => StopReason::Other("incomplete".to_owned()),
        }
    } else {
        StopReason::Other(status.to_owned())
    }
}

} // verus!
