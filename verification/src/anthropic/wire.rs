//! Shapes of Anthropic's Messages HTTP API.
//!
//! Kept apart so the shared types stay free of Anthropic field names and
//! versioning quirks.

use vstd::prelude::*;

use crate::json::{self, Json};
use crate::text;

verus! {

/// The body of a request.
#[derive(Debug)]
pub struct MessagesRequest {
    pub model: String,
    pub max_tokens: u32,
    pub messages: Vec<WireMessage>,
    pub system: Option<String>,
    pub tools: Vec<WireTool>,
    pub tool_choice: Option<WireToolChoice>,
    pub temperature: Option<serde_json::Value>,
    pub thinking: Option<Thinking>,
    pub output_config: Option<OutputConfig>,
    /// Caches the whole prompt. Left out when a content block carries the
    /// breakpoint, or when the tail of the prompt is about to be rewritten.
    pub cache_control: Option<CacheControl>,
    pub stream: Option<bool>,
}

/// Anthropic `tool_choice` object (`type` + optional name / parallel flag).
#[derive(Debug, Clone)]
pub struct WireToolChoice {
    pub kind: &'static str,
    pub name: Option<String>,
    pub disable_parallel_tool_use: Option<bool>,
}

/// Prompt-cache marker; ephemeral matches Anthropic's default caching tier.
#[derive(Debug, Clone, Copy)]
pub struct CacheControl {
    pub kind: &'static str,
}

#[derive(Debug)]
pub struct OutputConfig {
    pub effort: Effort,
}

#[derive(Debug, Clone, Copy, PartialEq, Eq, Structural)]
pub enum Effort {
    Low,
    Medium,
    High,
}

#[derive(Debug)]
pub struct WireMessage {
    pub role: &'static str,
    pub content: Vec<serde_json::Value>,
}

/// Function tools and Anthropic-hosted server tools share the `tools` array.
#[derive(Debug)]
pub enum WireTool {
    Function { name: String, description: String, input_schema: serde_json::Value },
    /// Hosted web search (`web_search_20250305` + name `web_search`).
    WebSearch { kind: &'static str, name: &'static str },
}

/// Anthropic has two thinking control planes depending on model generation.
#[derive(Debug)]
pub enum Thinking {
    Adaptive { display: Display },
    Enabled { budget_tokens: u32 },
}

#[derive(Debug, Clone, Copy, PartialEq, Eq, Structural)]
pub enum Display {
    Summarized,
}

/// The body of a reply.
#[derive(Debug)]
pub struct MessagesResponse {
    pub content: Vec<serde_json::Value>,
    pub stop_reason: Option<String>,
    pub usage: WireUsage,
}

/// Token counts: `input_tokens` is what no cache served.
#[derive(Debug, Clone, Copy, PartialEq, Eq, Structural)]
pub struct WireUsage {
    pub input_tokens: u32,
    pub output_tokens: u32,
    pub cache_creation_input_tokens: u32,
    pub cache_read_input_tokens: u32,
}

/// The body of a reply that reports an error.
#[derive(Debug)]
pub struct ErrorEnvelope {
    pub error: ApiError,
}

#[derive(Debug)]
pub struct ApiError {
    pub kind: String,
    pub message: String,
}

/// One event of a streamed reply.
#[derive(Debug)]
pub enum StreamEvent {
    MessageStart { message: StreamMessageStart },
    ContentBlockStart { index: usize, content_block: serde_json::Value },
    ContentBlockDelta { index: usize, delta: Delta },
    ContentBlockStop { index: usize },
    MessageDelta { delta: MessageDeltaBody, usage: Option<WireUsage> },
    MessageStop,
    Ping,
    Error { error: ApiError },
    Other,
}

#[derive(Debug)]
pub struct StreamMessageStart {
    pub usage: WireUsage,
}

#[derive(Debug)]
pub enum Delta {
    TextDelta { text: String },
    ThinkingDelta { thinking: String },
    /// Signature fragments must be reassembled for multi-turn thinking.
    SignatureDelta { signature: String },
    InputJsonDelta { partial_json: String },
    /// A source of a text, kept with it and not shown.
    CitationsDelta { citation: serde_json::Value },
    Other,
}

#[derive(Debug)]
pub struct MessageDeltaBody {
    pub stop_reason: Option<String>,
}

/// A tool choice object as mathematics sees it.
pub struct WireToolChoiceView {
    pub kind: Seq<char>,
    pub name: Option<Seq<char>>,
    pub disable_parallel_tool_use: Option<bool>,
}

/// An error of the API as mathematics sees it.
pub struct ApiErrorView {
    pub kind: Seq<char>,
    pub message: Seq<char>,
}

/// A wire message as mathematics sees it.
pub struct WireMessageView {
    pub role: Seq<char>,
    pub content: Seq<Json>,
}

/// A wire tool as mathematics sees it.
pub enum WireToolView {
    Function { name: Seq<char>, description: Seq<char>, input_schema: Json },
    WebSearch { kind: Seq<char>, name: Seq<char> },
}

/// A request body as mathematics sees it.
pub struct MessagesRequestView {
    pub model: Seq<char>,
    pub max_tokens: u32,
    pub messages: Seq<WireMessageView>,
    pub system: Option<Seq<char>>,
    pub tools: Seq<WireToolView>,
    pub tool_choice: Option<WireToolChoiceView>,
    pub temperature: Option<Json>,
    pub thinking: Option<Thinking>,
    pub output_config: Option<OutputConfig>,
    pub cache_control: Option<Seq<char>>,
    pub stream: Option<bool>,
}

/// A reply body as mathematics sees it.
pub struct MessagesResponseView {
    pub content: Seq<Json>,
    pub stop_reason: Option<Seq<char>>,
    pub usage: WireUsage,
}

/// A delta as mathematics sees it.
pub enum DeltaView {
    TextDelta(Seq<char>),
    ThinkingDelta(Seq<char>),
    SignatureDelta(Seq<char>),
    InputJsonDelta(Seq<char>),
    CitationsDelta(Json),
    Other,
}

/// A stream event as mathematics sees it.
pub enum StreamEventView {
    MessageStart { usage: WireUsage },
    ContentBlockStart { index: usize, content_block: Json },
    ContentBlockDelta { index: usize, delta: DeltaView },
    ContentBlockStop { index: usize },
    MessageDelta { stop_reason: Option<Seq<char>>, usage: Option<WireUsage> },
    MessageStop,
    Ping,
    Error { error: ApiErrorView },
    Other,
}

impl View for WireToolChoice {
    type V = WireToolChoiceView;

    open spec fn view(&self) -> WireToolChoiceView {
        WireToolChoiceView {
            kind: self.kind@,
            name: text::opt_text(self.name),
            disable_parallel_tool_use: self.disable_parallel_tool_use,
        }
    }
}

/// The error that an envelope reports, where there is an envelope.
pub open spec fn envelope_view(envelope: Option<ErrorEnvelope>) -> Option<ApiErrorView> {
    match envelope {
        Some(e) => Some(e.error@),
        None => None,
    }
}

impl View for ApiError {
    type V = ApiErrorView;

    open spec fn view(&self) -> ApiErrorView {
        ApiErrorView { kind: self.kind@, message: self.message@ }
    }
}

impl View for WireMessage {
    type V = WireMessageView;

    open spec fn view(&self) -> WireMessageView {
        WireMessageView { role: self.role@, content: json::jsons_of(self.content@) }
    }
}

impl View for WireTool {
    type V = WireToolView;

    open spec fn view(&self) -> WireToolView {
        match *self {
            WireTool::Function { name, description, input_schema } => WireToolView::Function {
                name: name@,
                description: description@,
                input_schema: json::json_of(input_schema),
            },
            WireTool::WebSearch { kind, name } => WireToolView::WebSearch {
                kind: kind@,
                name: name@,
            },
        }
    }
}

/// What each wire message of a sequence is.
pub open spec fn messages_view(messages: Seq<WireMessage>) -> Seq<WireMessageView> {
    messages.map_values(|m: WireMessage| m@)
}

/// What each wire tool of a sequence is.
pub open spec fn tools_view(tools: Seq<WireTool>) -> Seq<WireToolView> {
    tools.map_values(|t: WireTool| t@)
}

/// What an optional tool choice object is.
pub open spec fn choice_view(c: Option<WireToolChoice>) -> Option<WireToolChoiceView> {
    match c {
        Some(c) => Some(c@),
        None => None,
    }
}

impl View for MessagesRequest {
    type V = MessagesRequestView;

    open spec fn view(&self) -> MessagesRequestView {
        MessagesRequestView {
            model: self.model@,
            max_tokens: self.max_tokens,
            messages: messages_view(self.messages@),
            system: text::opt_text(self.system),
            tools: tools_view(self.tools@),
            tool_choice: choice_view(self.tool_choice),
            temperature: json::opt_json(self.temperature),
            thinking: self.thinking,
            output_config: self.output_config,
            cache_control: match self.cache_control {
                Some(c) => Some(c.kind@),
                None => None,
            },
            stream: self.stream,
        }
    }
}

impl View for MessagesResponse {
    type V = MessagesResponseView;

    open spec fn view(&self) -> MessagesResponseView {
        MessagesResponseView {
            content: json::jsons_of(self.content@),
            stop_reason: text::opt_text(self.stop_reason),
            usage: self.usage,
        }
    }
}

impl View for Delta {
    type V = DeltaView;

    open spec fn view(&self) -> DeltaView {
        match *self {
            Delta::TextDelta { text } => DeltaView::TextDelta(text@),
            Delta::ThinkingDelta { thinking } => DeltaView::ThinkingDelta(thinking@),
            Delta::SignatureDelta { signature } => DeltaView::SignatureDelta(signature@),
            Delta::InputJsonDelta { partial_json } => DeltaView::InputJsonDelta(partial_json@),
            Delta::CitationsDelta { citation } => DeltaView::CitationsDelta(
                json::json_of(citation),
            ),
            Delta::Other => DeltaView::Other,
        }
    }
}

impl View for StreamEvent {
    type V = StreamEventView;

    open spec fn view(&self) -> StreamEventView {
        match *self {
            StreamEvent::MessageStart { message } => StreamEventView::MessageStart {
                usage: message.usage,
            },
            StreamEvent::ContentBlockStart { index, content_block } => {
                StreamEventView::ContentBlockStart {
                    index,
                    content_block: json::json_of(content_block),
                }
            },
            StreamEvent::ContentBlockDelta { index, delta } => StreamEventView::ContentBlockDelta {
                index,
                delta: delta@,
            },
            StreamEvent::ContentBlockStop { index } => StreamEventView::ContentBlockStop { index },
            StreamEvent::MessageDelta { delta, usage } => StreamEventView::MessageDelta {
                stop_reason: text::opt_text(delta.stop_reason),
                usage,
            },
            StreamEvent::MessageStop => StreamEventView::MessageStop,
            StreamEvent::Ping => StreamEventView::Ping,
            StreamEvent::Error { error } => StreamEventView::Error { error: error@ },
            StreamEvent::Other => StreamEventView::Other,
        }
    }
}

/// How an effort is written on the wire.
pub open spec fn effort_text(effort: Effort) -> Seq<char> {
    match effort {
        Effort::Low => "low"@,
        Effort::Medium => "medium"@,
        Effort::High => "high"@,
    }
}

/// How a thinking control is written on the wire.
pub open spec fn thinking_json(thinking: Thinking) -> Json {
    match thinking {
        Thinking::Adaptive { display: Display::Summarized } => Json::Object(
            map!["type"@ => Json::Str("adaptive"@), "display"@ => Json::Str("summarized"@)],
        ),
        Thinking::Enabled { budget_tokens } => Json::Object(
            map!["type"@ => Json::Str("enabled"@), "budget_tokens"@ => Json::Int(
                budget_tokens as int,
            )],
        ),
    }
}

/// How a thinking control is written on the wire, where there is one.
pub open spec fn opt_thinking_json(thinking: Option<Thinking>) -> Option<Json> {
    match thinking {
        Some(t) => Some(thinking_json(t)),
        None => None,
    }
}

/// How an output configuration is written on the wire, where there is one.
pub open spec fn opt_output_json(config: Option<OutputConfig>) -> Option<Json> {
    match config {
        Some(c) => Some(Json::Object(map!["effort"@ => Json::Str(effort_text(c.effort))])),
        None => None,
    }
}

/// How a cache marker of this kind is written on the wire.
pub open spec fn cache_json(kind: Seq<char>) -> Json {
    Json::Object(map!["type"@ => Json::Str(kind)])
}

/// How a cache marker is written on the wire, where there is one.
pub open spec fn opt_cache_json(kind: Option<Seq<char>>) -> Option<Json> {
    match kind {
        Some(k) => Some(cache_json(k)),
        None => None,
    }
}

impl WireMessageView {
    /// How the message is written on the wire.
    pub open spec fn json(self) -> Json {
        Json::Object(
            map!["role"@ => Json::Str(self.role), "content"@ => Json::Array(self.content)],
        )
    }
}

impl WireToolView {
    /// How the tool is written on the wire: a hosted tool has a type, a
    /// function tool a schema.
    pub open spec fn json(self) -> Json {
        match self {
            WireToolView::Function { name, description, input_schema } => Json::Object(
                map![
                    "name"@ => Json::Str(name),
                    "description"@ => Json::Str(description),
                    "input_schema"@ => input_schema,
                ],
            ),
            WireToolView::WebSearch { kind, name } => Json::Object(
                map!["type"@ => Json::Str(kind), "name"@ => Json::Str(name)],
            ),
        }
    }
}

impl WireToolChoiceView {
    /// How the tool choice is written on the wire.
    pub open spec fn json(self) -> Json {
        let m = map!["type"@ => Json::Str(self.kind)];
        let m = json::with_opt(m, "name"@, json::opt_string(self.name));
        Json::Object(
            json::with_opt(
                m,
                "disable_parallel_tool_use"@,
                json::opt_bool(self.disable_parallel_tool_use),
            ),
        )
    }
}

/// How a tool choice is written on the wire, where there is one.
pub open spec fn opt_choice_json(choice: Option<WireToolChoiceView>) -> Option<Json> {
    match choice {
        Some(c) => Some(c.json()),
        None => None,
    }
}

/// How messages are written on the wire.
pub open spec fn messages_json(messages: Seq<WireMessageView>) -> Seq<Json> {
    messages.map_values(|m: WireMessageView| m.json())
}

/// How tools are written on the wire.
pub open spec fn tools_json(tools: Seq<WireToolView>) -> Seq<Json> {
    tools.map_values(|t: WireToolView| t.json())
}

/// How the tools member is written on the wire: not at all where it is empty.
pub open spec fn opt_tools_json(tools: Seq<WireToolView>) -> Option<Json> {
    if tools.len() == 0 {
        None
    } else {
        Some(Json::Array(tools_json(tools)))
    }
}

impl MessagesRequestView {
    /// How the request body is written on the wire: what is not set is left out.
    pub open spec fn json(self) -> Json {
        let m = map![
            "model"@ => Json::Str(self.model),
            "max_tokens"@ => Json::Int(self.max_tokens as int),
            "messages"@ => Json::Array(messages_json(self.messages)),
        ];
        let m = json::with_opt(m, "system"@, json::opt_string(self.system));
        let m = json::with_opt(m, "tools"@, opt_tools_json(self.tools));
        let m = json::with_opt(m, "tool_choice"@, opt_choice_json(self.tool_choice));
        let m = json::with_opt(m, "temperature"@, self.temperature);
        let m = json::with_opt(m, "thinking"@, opt_thinking_json(self.thinking));
        let m = json::with_opt(m, "output_config"@, opt_output_json(self.output_config));
        let m = json::with_opt(m, "cache_control"@, opt_cache_json(self.cache_control));
        Json::Object(json::with_opt(m, "stream"@, json::opt_bool(self.stream)))
    }
}

impl CacheControl {
    /// The ephemeral caching tier.
    pub fn ephemeral() -> (r: Self)
        ensures
            r.kind@ == "ephemeral"@,
    {
        CacheControl { kind: "ephemeral" }
    }

    /// The marker as it is written on the wire.
    pub fn to_value(&self) -> (r: serde_json::Value)
        ensures
            json::json_of(r) == cache_json(self.kind@),
    {
        let mut m = serde_json::Map::new();
        json::put(&mut m, "type", json::string(self.kind));
        json::object(m)
    }
}

impl WireTool {
    /// A tool that the caller runs.
    pub fn function(name: String, description: String, input_schema: serde_json::Value) -> (r: Self)
        ensures
            r@ == (WireToolView::Function {
                name: name@,
                description: description@,
                input_schema: json::json_of(input_schema),
            }),
    {
        WireTool::Function { name, description, input_schema }
    }

    /// Anthropic's hosted web search.
    pub fn web_search() -> (r: Self)
        ensures
            r@ == (WireToolView::WebSearch { kind: "web_search_20250305"@, name: "web_search"@ }),
    {
        WireTool::WebSearch { kind: "web_search_20250305", name: "web_search" }
    }

    /// The tool as it is written on the wire.
    pub fn to_value(&self) -> (r: serde_json::Value)
        ensures
            json::json_of(r) == self@.json(),
    {
        let mut m = serde_json::Map::new();
        match self {
            WireTool::Function { name, description, input_schema } => {
                json::put(&mut m, "name", json::string(name.as_str()));
                json::put(&mut m, "description", json::string(description.as_str()));
                json::put(&mut m, "input_schema", input_schema.clone());
            },
            WireTool::WebSearch { kind, name } => {
                json::put(&mut m, "type", json::string(kind));
                json::put(&mut m, "name", json::string(name));
            },
        }
        json::object(m)
    }
}

impl WireToolChoice {
    /// The tool choice as it is written on the wire.
    pub fn to_value(&self) -> (r: serde_json::Value)
        ensures
            json::json_of(r) == self@.json(),
    {
        let mut m = serde_json::Map::new();
        json::put(&mut m, "type", json::string(self.kind));
        json::put_opt(&mut m, "name", json::from_opt_string(&self.name));
        json::put_opt(
            &mut m,
            "disable_parallel_tool_use",
            json::from_opt_bool(self.disable_parallel_tool_use),
        );
        json::object(m)
    }
}

impl Thinking {
    /// The thinking control as it is written on the wire.
    pub fn to_value(&self) -> (r: serde_json::Value)
        ensures
            json::json_of(r) == thinking_json(*self),
    {
        let mut m = serde_json::Map::new();
        match self {
            Thinking::Adaptive { display: Display::Summarized } => {
                json::put(&mut m, "type", json::string("adaptive"));
                json::put(&mut m, "display", json::string("summarized"));
            },
            Thinking::Enabled { budget_tokens } => {
                json::put(&mut m, "type", json::string("enabled"));
                json::put(&mut m, "budget_tokens", json::number(*budget_tokens));
            },
        }
        json::object(m)
    }
}

impl OutputConfig {
    /// The output configuration as it is written on the wire.
    pub fn to_value(&self) -> (r: serde_json::Value)
        ensures
            Some(json::json_of(r)) == opt_output_json(Some(*self)),
    {
        let effort = match self.effort {
            Effort::Low => "low",
            Effort::Medium => "medium",
            Effort::High => "high",
        };
        let mut m = serde_json::Map::new();
        json::put(&mut m, "effort", json::string(effort));
        json::object(m)
    }
}

impl WireMessage {
    /// The message as it is written on the wire.
    pub fn to_value(&self) -> (r: serde_json::Value)
        ensures
            json::json_of(r) == self@.json(),
    {
        let mut items: Vec<serde_json::Value> = Vec::new();
        for i in 0..self.content.len()
            invariant
                items@.len() == i,
                forall|k: int|
                    0 <= k < i ==> json::json_of(#[trigger] items@[k]) == json::json_of(
                        self.content@[k],
                    ),
        {
            items.push(self.content[i].clone());
        }
        assert(json::jsons_of(items@) =~= json::jsons_of(self.content@));
        let mut m = serde_json::Map::new();
        json::put(&mut m, "role", json::string(self.role));
        json::put(&mut m, "content", json::array(items));
        json::object(m)
    }
}

impl MessagesRequest {
    /// The tools member as it is written on the wire, where there is one.
    fn tools_value(&self) -> (r: Option<serde_json::Value>)
        ensures
            json::opt_json(r) == opt_tools_json(self@.tools),
    {
        if self.tools.len() == 0 {
            return None;
        }
        let mut items: Vec<serde_json::Value> = Vec::new();
        for i in 0..self.tools.len()
            invariant
                items@.len() == i,
                forall|k: int|
                    0 <= k < i ==> json::json_of(#[trigger] items@[k]) == self.tools@[k]@.json(),
        {
            items.push(self.tools[i].to_value());
        }
        assert(json::jsons_of(items@) =~= tools_json(self@.tools));
        Some(json::array(items))
    }

    /// The request body as it is written on the wire.
    pub fn to_value(&self) -> (r: serde_json::Value)
        ensures
            json::json_of(r) == self@.json(),
    {
        let mut messages: Vec<serde_json::Value> = Vec::new();
        for i in 0..self.messages.len()
            invariant
                messages@.len() == i,
                forall|k: int|
                    0 <= k < i ==> json::json_of(#[trigger] messages@[k])
                        == self.messages@[k]@.json(),
        {
            messages.push(self.messages[i].to_value());
        }
        assert(json::jsons_of(messages@) =~= messages_json(self@.messages));
        let mut m = serde_json::Map::new();
        json::put(&mut m, "model", json::string(self.model.as_str()));
        json::put(&mut m, "max_tokens", json::number(self.max_tokens));
        json::put(&mut m, "messages", json::array(messages));
        json::put_opt(&mut m, "system", json::from_opt_string(&self.system));
        json::put_opt(&mut m, "tools", self.tools_value());
        let choice = match &self.tool_choice {
            Some(c) => Some(c.to_value()),
            None => None,
        };
        json::put_opt(&mut m, "tool_choice", choice);
        json::put_opt(&mut m, "temperature", json::copy_opt(&self.temperature));
        let thinking = match &self.thinking {
            Some(t) => Some(t.to_value()),
            None => None,
        };
        json::put_opt(&mut m, "thinking", thinking);
        let config = match &self.output_config {
            Some(c) => Some(c.to_value()),
            None => None,
        };
        json::put_opt(&mut m, "output_config", config);
        let cache = match &self.cache_control {
            Some(c) => Some(c.to_value()),
            None => None,
        };
        json::put_opt(&mut m, "cache_control", cache);
        json::put_opt(&mut m, "stream", json::from_opt_bool(self.stream));
        json::object(m)
    }
}

impl Default for WireUsage {
    fn default() -> (r: Self)
        ensures
            r == (WireUsage {
                input_tokens: 0,
                output_tokens: 0,
                cache_creation_input_tokens: 0,
                cache_read_input_tokens: 0,
            }),
    {
        WireUsage {
            input_tokens: 0,
            output_tokens: 0,
            cache_creation_input_tokens: 0,
            cache_read_input_tokens: 0,
        }
    }
}

/// An event is seen by its kind and by all of it that is read.
pub proof fn events_are_seen_whole(ev: StreamEvent)
    ensures
        match ev {
            StreamEvent::MessageStart { message } => ev@ == (StreamEventView::MessageStart {
                usage: message.usage,
            }),
            StreamEvent::ContentBlockStart { index, content_block } => ev@
                == (StreamEventView::ContentBlockStart {
                index,
                content_block: json::json_of(content_block),
            }),
            StreamEvent::ContentBlockDelta { index, delta } => ev@
                == (StreamEventView::ContentBlockDelta { index, delta: delta@ }),
            StreamEvent::ContentBlockStop { index } => ev@ == (StreamEventView::ContentBlockStop {
                index,
            }),
            StreamEvent::MessageDelta { delta, usage } => ev@ == (StreamEventView::MessageDelta {
                stop_reason: match delta.stop_reason {
                    Some(reason) => Some(reason@),
                    None => None,
                },
                usage,
            }),
            StreamEvent::MessageStop => ev@ is MessageStop,
            StreamEvent::Ping => ev@ is Ping,
            StreamEvent::Error { error } => ev@ == (StreamEventView::Error {
                error: ApiErrorView { kind: error.kind@, message: error.message@ },
            }),
            StreamEvent::Other => ev@ is Other,
        },
{
}

/// A delta is seen by its kind and by the piece it brings.
pub proof fn deltas_are_seen_whole(delta: Delta)
    ensures
        match delta {
            Delta::TextDelta { text } => delta@ == DeltaView::TextDelta(text@),
            Delta::ThinkingDelta { thinking } => delta@ == DeltaView::ThinkingDelta(thinking@),
            Delta::SignatureDelta { signature } => delta@ == DeltaView::SignatureDelta(signature@),
            Delta::InputJsonDelta { partial_json } => delta@ == DeltaView::InputJsonDelta(
                partial_json@,
            ),
            Delta::CitationsDelta { citation } => delta@ == DeltaView::CitationsDelta(
                json::json_of(citation),
            ),
            Delta::Other => delta@ is Other,
        },
{
}

/// A reply is seen by its blocks in order, the reason that it ended for and its
/// counts.
pub proof fn replies_are_seen_whole(reply: MessagesResponse, i: int)
    ensures
        reply@.content.len() == reply.content@.len(),
        0 <= i < reply.content@.len() ==> reply@.content[i] == json::json_of(reply.content@[i]),
        reply@.stop_reason == match reply.stop_reason {
            Some(reason) => Some(reason@),
            None => None,
        },
        reply@.usage == reply.usage,
{
}

/// An envelope is seen by the error in it.
pub proof fn envelopes_are_seen_whole(envelope: ErrorEnvelope)
    ensures
        envelope_view(Some(envelope)) == Some(
            ApiErrorView { kind: envelope.error.kind@, message: envelope.error.message@ },
        ),
        envelope_view(None) is None,
{
}

/// The body of a request is seen by all it says: its messages and tools one by
/// one, in order.
pub proof fn requests_are_seen_whole(request: MessagesRequest, at: int, i: int)
    ensures
        request@.model == request.model@,
        request@.max_tokens == request.max_tokens,
        request@.messages.len() == request.messages@.len(),
        0 <= at < request.messages@.len() ==> {
            let seen = request@.messages[at];
            &&& seen.role == request.messages@[at].role@
            &&& seen.content.len() == request.messages@[at].content@.len()
            &&& 0 <= i < seen.content.len() ==> seen.content[i] == json::json_of(
                request.messages@[at].content@[i],
            )
        },
        request@.system == match request.system {
            Some(text) => Some(text@),
            None => None,
        },
        request@.tools.len() == request.tools@.len(),
        0 <= i < request.tools@.len() ==> match request.tools@[i] {
            WireTool::Function { name, description, input_schema } => request@.tools[i]
                == (WireToolView::Function {
                name: name@,
                description: description@,
                input_schema: json::json_of(input_schema),
            }),
            WireTool::WebSearch { kind, name } => request@.tools[i] == (WireToolView::WebSearch {
                kind: kind@,
                name: name@,
            }),
        },
        match (request.tool_choice, request@.tool_choice) {
            (Some(choice), Some(seen)) => {
                &&& seen.kind == choice.kind@
                &&& seen.name == match choice.name {
                    Some(name) => Some(name@),
                    None => None,
                }
                &&& seen.disable_parallel_tool_use == choice.disable_parallel_tool_use
            },
            (None, None) => true,
            _ => false,
        },
        request@.temperature == match request.temperature {
            Some(v) => Some(json::json_of(v)),
            None => None,
        },
        request@.thinking == request.thinking,
        request@.output_config == request.output_config,
        request@.cache_control == match request.cache_control {
            Some(marker) => Some(marker.kind@),
            None => None,
        },
        request@.stream == request.stream,
{
}

} // verus!
