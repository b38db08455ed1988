//! Shapes of the Responses HTTP API, which OpenAI and xAI both speak.
//!
//! Kept apart so the shared types do not leak Responses-specific item layouts.

use vstd::prelude::*;

use crate::json::{self, Json};
use crate::text;

verus! {

/// The body of a request.
#[derive(Debug)]
pub struct ResponsesRequest {
    pub model: String,
    pub input: Vec<serde_json::Value>,
    pub instructions: Option<String>,
    pub tools: Vec<WireTool>,
    /// `"auto"` / `"required"` / `"none"` or `{ "type": "function", "name": .. }`.
    pub tool_choice: Option<serde_json::Value>,
    pub parallel_tool_calls: Option<bool>,
    pub temperature: Option<serde_json::Value>,
    pub max_output_tokens: Option<u32>,
    pub reasoning: Reasoning,
    /// Keep conversation state client-side; we resend full history each turn.
    pub store: bool,
    /// What the reply is to carry beyond its default fields.
    pub includes: Vec<&'static str>,
    pub prompt_cache_key: String,
    pub stream: Option<bool>,
}

#[derive(Debug, Clone, Copy, PartialEq, Eq, Structural)]
pub struct Reasoning {
    pub effort: Effort,
}

#[derive(Debug, Clone, Copy, PartialEq, Eq, Structural)]
pub enum Effort {
    Low,
    Medium,
    High,
}

/// Function tools and hosted tools (e.g. `web_search`) share the `tools` array.
#[derive(Debug)]
pub enum WireTool {
    Function {
        kind: &'static str,
        name: String,
        description: String,
        parameters: serde_json::Value,
    },
    WebSearch { kind: &'static str },
}

/// The body of a reply.
#[derive(Debug)]
pub struct ResponsesResponse {
    pub output: Vec<serde_json::Value>,
    pub status: String,
    pub usage: WireUsage,
    pub incomplete_details: Option<IncompleteDetails>,
}

/// Token counts: `input_tokens` is the full prompt, cached subset included.
#[derive(Debug, Clone, Copy, PartialEq, Eq, Structural)]
pub struct WireUsage {
    pub input_tokens: u32,
    pub output_tokens: u32,
    pub input_tokens_details: InputTokensDetails,
}

/// How much of the prompt a cache served.
#[derive(Debug, Clone, Copy, PartialEq, Eq, Structural)]
pub struct InputTokensDetails {
    pub cached_tokens: u32,
}

#[derive(Debug)]
pub struct IncompleteDetails {
    pub reason: String,
}

/// The body of a reply that reports an error.
#[derive(Debug)]
pub struct ErrorEnvelope {
    pub error: ApiError,
}

#[derive(Debug)]
pub struct ApiError {
    pub message: String,
    pub kind: Option<String>,
}

/// One event of a streamed reply.
#[derive(Debug)]
pub enum StreamEvent {
    ResponseCreated { response: Option<serde_json::Value> },
    ResponseInProgress { response: Option<serde_json::Value> },
    OutputItemAdded { output_index: usize, item: serde_json::Value },
    OutputTextDelta { output_index: usize, delta: String },
    ReasoningSummaryTextDelta { output_index: usize, delta: String },
    FunctionCallArgumentsDelta { output_index: usize, delta: String },
    OutputItemDone { output_index: usize, item: serde_json::Value },
    ResponseCompleted { response: ResponsesResponse },
    ResponseFailed { response: ResponsesResponse },
    ResponseIncomplete { response: ResponsesResponse },
    Error { error: ApiError },
    Other,
}

/// A wire tool as mathematics sees it.
pub enum WireToolView {
    Function { kind: Seq<char>, name: Seq<char>, description: Seq<char>, parameters: Json },
    WebSearch { kind: Seq<char> },
}

/// An error of the API as mathematics sees it.
pub struct ApiErrorView {
    pub message: Seq<char>,
    pub kind: Option<Seq<char>>,
}

/// A request body as mathematics sees it.
pub struct ResponsesRequestView {
    pub model: Seq<char>,
    pub input: Seq<Json>,
    pub instructions: Option<Seq<char>>,
    pub tools: Seq<WireToolView>,
    pub tool_choice: Option<Json>,
    pub parallel_tool_calls: Option<bool>,
    pub temperature: Option<Json>,
    pub max_output_tokens: Option<u32>,
    pub reasoning: Reasoning,
    pub store: bool,
    pub includes: Seq<Seq<char>>,
    pub prompt_cache_key: Seq<char>,
    pub stream: Option<bool>,
}

/// A reply body as mathematics sees it.
pub struct ResponsesResponseView {
    pub output: Seq<Json>,
    pub status: Seq<char>,
    pub usage: WireUsage,
    pub incomplete_reason: Option<Seq<char>>,
}

/// A stream event as mathematics sees it, without what no one reads.
pub enum StreamEventView {
    OutputItemAdded { output_index: usize, item: Json },
    OutputTextDelta { output_index: usize, delta: Seq<char> },
    ReasoningSummaryTextDelta { output_index: usize, delta: Seq<char> },
    FunctionCallArgumentsDelta { output_index: usize, delta: Seq<char> },
    OutputItemDone,
    ResponseCompleted { response: ResponsesResponseView },
    ResponseFailed { response: ResponsesResponseView },
    ResponseIncomplete { response: ResponsesResponseView },
    Error { error: ApiErrorView },
    Other,
}

impl View for WireTool {
    type V = WireToolView;

    open spec fn view(&self) -> WireToolView {
        match *self {
            WireTool::Function { kind, name, description, parameters } => WireToolView::Function {
                kind: kind@,
                name: name@,
                description: description@,
                parameters: json::json_of(parameters),
            },
            WireTool::WebSearch { kind } => WireToolView::WebSearch { kind: kind@ },
        }
    }
}

/// The error that an envelope reports, where there is an envelope.
pub open spec fn envelope_view(envelope: Option<ErrorEnvelope>) -> Option<ApiErrorView> {
    match envelope {
        Some(e) => Some(e.error@),
        None => None,
    }
}

impl View for ApiError {
    type V = ApiErrorView;

    open spec fn view(&self) -> ApiErrorView {
        ApiErrorView { message: self.message@, kind: text::opt_text(self.kind) }
    }
}

/// What each wire tool of a sequence is.
pub open spec fn tools_view(tools: Seq<WireTool>) -> Seq<WireToolView> {
    tools.map_values(|t: WireTool| t@)
}

/// What each name of a sequence is.
pub open spec fn names_view(names: Seq<&'static str>) -> Seq<Seq<char>> {
    names.map_values(|n: &'static str| n@)
}

impl View for ResponsesRequest {
    type V = ResponsesRequestView;

    open spec fn view(&self) -> ResponsesRequestView {
        ResponsesRequestView {
            model: self.model@,
            input: json::jsons_of(self.input@),
            instructions: text::opt_text(self.instructions),
            tools: tools_view(self.tools@),
            tool_choice: json::opt_json(self.tool_choice),
            parallel_tool_calls: self.parallel_tool_calls,
            temperature: json::opt_json(self.temperature),
            max_output_tokens: self.max_output_tokens,
            reasoning: self.reasoning,
            store: self.store,
            includes: names_view(self.includes@),
            prompt_cache_key: self.prompt_cache_key@,
            stream: self.stream,
        }
    }
}

impl View for ResponsesResponse {
    type V = ResponsesResponseView;

    open spec fn view(&self) -> ResponsesResponseView {
        ResponsesResponseView {
            output: json::jsons_of(self.output@),
            status: self.status@,
            usage: self.usage,
            incomplete_reason: match self.incomplete_details {
                Some(d) => Some(d.reason@),
                None => None,
            },
        }
    }
}

impl View for StreamEvent {
    type V = StreamEventView;

    open spec fn view(&self) -> StreamEventView {
        match *self {
            StreamEvent::OutputItemAdded { output_index, item } => {
                StreamEventView::OutputItemAdded { output_index, item: json::json_of(item) }
            },
            StreamEvent::OutputTextDelta { output_index, delta } => {
                StreamEventView::OutputTextDelta { output_index, delta: delta@ }
            },
            StreamEvent::ReasoningSummaryTextDelta { output_index, delta } => {
                StreamEventView::ReasoningSummaryTextDelta { output_index, delta: delta@ }
            },
            StreamEvent::FunctionCallArgumentsDelta { output_index, delta } => {
                StreamEventView::FunctionCallArgumentsDelta { output_index, delta: delta@ }
            },
            StreamEvent::OutputItemDone { .. } => StreamEventView::OutputItemDone,
            StreamEvent::ResponseCompleted { response } => StreamEventView::ResponseCompleted {
                response: response@,
            },
            StreamEvent::ResponseFailed { response } => StreamEventView::ResponseFailed {
                response: response@,
            },
            StreamEvent::ResponseIncomplete { response } => StreamEventView::ResponseIncomplete {
                response: response@,
            },
            StreamEvent::Error { error } => StreamEventView::Error { error: error@ },
            _ => StreamEventView::Other,
        }
    }
}

/// How an effort is written on the wire.
pub open spec fn effort_text(effort: Effort) -> Seq<char> {
    match effort {
        Effort::Low => "low"@,
        Effort::Medium => "medium"@,
        Effort::High => "high"@,
    }
}

impl WireToolView {
    /// How the tool is written on the wire.
    pub open spec fn json(self) -> Json {
        match self {
            WireToolView::Function { kind, name, description, parameters } => Json::Object(
                map![
                    "type"@ => Json::Str(kind),
                    "name"@ => Json::Str(name),
                    "description"@ => Json::Str(description),
                    "parameters"@ => parameters,
                ],
            ),
            WireToolView::WebSearch { kind } => Json::Object(map!["type"@ => Json::Str(kind)]),
        }
    }
}

/// How tools are written on the wire.
pub open spec fn tools_json(tools: Seq<WireToolView>) -> Seq<Json> {
    tools.map_values(|t: WireToolView| t.json())
}

/// How the tools member is written on the wire: not at all where it is empty.
pub open spec fn opt_tools_json(tools: Seq<WireToolView>) -> Option<Json> {
    if tools.len() == 0 {
        None
    } else {
        Some(Json::Array(tools_json(tools)))
    }
}

/// How names are written on the wire.
pub open spec fn names_json(names: Seq<Seq<char>>) -> Seq<Json> {
    names.map_values(|n: Seq<char>| Json::Str(n))
}

/// A number where there is one.
pub open spec fn opt_number(n: Option<u32>) -> Option<Json> {
    match n {
        Some(n) => Some(Json::Int(n as int)),
        None => None,
    }
}

impl ResponsesRequestView {
    /// How the request body is written on the wire: what is not set is left out.
    pub open spec fn json(self) -> Json {
        let m = map![
            "model"@ => Json::Str(self.model),
            "input"@ => Json::Array(self.input),
        ];
        let m = json::with_opt(m, "instructions"@, json::opt_string(self.instructions));
        let m = json::with_opt(m, "tools"@, opt_tools_json(self.tools));
        let m = json::with_opt(m, "tool_choice"@, self.tool_choice);
        let m = json::with_opt(m, "parallel_tool_calls"@, json::opt_bool(self.parallel_tool_calls));
        let m = json::with_opt(m, "temperature"@, self.temperature);
        let m = json::with_opt(m, "max_output_tokens"@, opt_number(self.max_output_tokens));
        let m = m.insert(
            "reasoning"@,
            Json::Object(map!["effort"@ => Json::Str(effort_text(self.reasoning.effort))]),
        );
        let m = m.insert("store"@, Json::Bool(self.store));
        let m = m.insert("include"@, Json::Array(names_json(self.includes)));
        let m = m.insert("prompt_cache_key"@, Json::Str(self.prompt_cache_key));
        Json::Object(json::with_opt(m, "stream"@, json::opt_bool(self.stream)))
    }
}

impl WireTool {
    /// A tool that the caller runs.
    pub fn function(name: String, description: String, parameters: serde_json::Value) -> (r: Self)
        ensures
            r@ == (WireToolView::Function {
                kind: "function"@,
                name: name@,
                description: description@,
                parameters: json::json_of(parameters),
            }),
    {
        WireTool::Function { kind: "function", name, description, parameters }
    }

    /// The provider's hosted web search.
    pub fn web_search() -> (r: Self)
        ensures
            r@ == (WireToolView::WebSearch { kind: "web_search"@ }),
    {
        WireTool::WebSearch { kind: "web_search" }
    }

    /// The tool as it is written on the wire.
    pub fn to_value(&self) -> (r: serde_json::Value)
        ensures
            json::json_of(r) == self@.json(),
    {
        let mut m = serde_json::Map::new();
        match self {
            WireTool::Function { kind, name, description, parameters } => {
                json::put(&mut m, "type", json::string(kind));
                json::put(&mut m, "name", json::string(name.as_str()));
                json::put(&mut m, "description", json::string(description.as_str()));
                json::put(&mut m, "parameters", parameters.clone());
            },
            WireTool::WebSearch { kind } => {
                json::put(&mut m, "type", json::string(kind));
            },
        }
        json::object(m)
    }
}

impl Reasoning {
    /// The reasoning control as it is written on the wire.
    pub fn to_value(&self) -> (r: serde_json::Value)
        ensures
            json::json_of(r) == Json::Object(
                map!["effort"@ => Json::Str(effort_text(self.effort))],
            ),
    {
        let effort = match self.effort {
            Effort::Low => "low",
            Effort::Medium => "medium",
            Effort::High => "high",
        };
        let mut m = serde_json::Map::new();
        json::put(&mut m, "effort", json::string(effort));
        json::object(m)
    }
}

impl ResponsesRequest {
    /// The tools member as it is written on the wire, where there is one.
    fn tools_value(&self) -> (r: Option<serde_json::Value>)
        ensures
            json::opt_json(r) == opt_tools_json(self@.tools),
    {
        if self.tools.len() == 0 {
            return None;
        }
        let mut items: Vec<serde_json::Value> = Vec::new();
        for i in 0..self.tools.len()
            invariant
                items@.len() == i,
                forall|k: int|
                    0 <= k < i ==> json::json_of(#[trigger] items@[k]) == self.tools@[k]@.json(),
        {
            items.push(self.tools[i].to_value());
        }
        assert(json::jsons_of(items@) =~= tools_json(self@.tools));
        Some(json::array(items))
    }

    /// The request body as it is written on the wire.
    pub fn to_value(&self) -> (r: serde_json::Value)
        ensures
            json::json_of(r) == self@.json(),
    {
        let mut input: Vec<serde_json::Value> = Vec::new();
        for i in 0..self.input.len()
            invariant
                input@.len() == i,
                forall|k: int|
                    0 <= k < i ==> json::json_of(#[trigger] input@[k]) == json::json_of(
                        self.input@[k],
                    ),
        {
            input.push(self.input[i].clone());
        }
        assert(json::jsons_of(input@) =~= self@.input);
        let mut includes: Vec<serde_json::Value> = Vec::new();
        for i in 0..self.includes.len()
            invariant
                includes@.len() == i,
                forall|k: int|
                    0 <= k < i ==> json::json_of(#[trigger] includes@[k]) == Json::Str(
                        self.includes@[k]@,
                    ),
        {
            includes.push(json::string(self.includes[i]));
        }
        assert(json::jsons_of(includes@) =~= names_json(self@.includes));
        let max_output_tokens = match self.max_output_tokens {
            Some(n) => Some(json::number(n)),
            None => None,
        };
        let mut m = serde_json::Map::new();
        json::put(&mut m, "model", json::string(self.model.as_str()));
        json::put(&mut m, "input", json::array(input));
        json::put_opt(&mut m, "instructions", json::from_opt_string(&self.instructions));
        json::put_opt(&mut m, "tools", self.tools_value());
        json::put_opt(&mut m, "tool_choice", json::copy_opt(&self.tool_choice));
        json::put_opt(
            &mut m,
            "parallel_tool_calls",
            json::from_opt_bool(self.parallel_tool_calls),
        );
        json::put_opt(&mut m, "temperature", json::copy_opt(&self.temperature));
        json::put_opt(&mut m, "max_output_tokens", max_output_tokens);
        json::put(&mut m, "reasoning", self.reasoning.to_value());
        json::put(&mut m, "store", json::boolean(self.store));
        json::put(&mut m, "include", json::array(includes));
        json::put(&mut m, "prompt_cache_key", json::string(self.prompt_cache_key.as_str()));
        json::put_opt(&mut m, "stream", json::from_opt_bool(self.stream));
        json::object(m)
    }
}

impl Default for InputTokensDetails {
    fn default() -> (r: Self)
        ensures
            r == (InputTokensDetails { cached_tokens: 0 }),
    {
        InputTokensDetails { cached_tokens: 0 }
    }
}

impl Default for WireUsage {
    fn default() -> (r: Self)
        ensures
            r == (WireUsage {
                input_tokens: 0,
                output_tokens: 0,
                input_tokens_details: InputTokensDetails { cached_tokens: 0 },
            }),
    {
        WireUsage {
            input_tokens: 0,
            output_tokens: 0,
            input_tokens_details: InputTokensDetails { cached_tokens: 0 },
        }
    }
}

/// An event is seen by its kind and by all of it that is read.
pub proof fn events_are_seen_whole(ev: StreamEvent)
    ensures
        match ev {
            StreamEvent::OutputItemAdded { output_index, item } => ev@
                == (StreamEventView::OutputItemAdded { output_index, item: json::json_of(item) }),
            StreamEvent::OutputTextDelta { output_index, delta } => ev@
                == (StreamEventView::OutputTextDelta { output_index, delta: delta@ }),
            StreamEvent::ReasoningSummaryTextDelta { output_index, delta } => ev@
                == (StreamEventView::ReasoningSummaryTextDelta { output_index, delta: delta@ }),
            StreamEvent::FunctionCallArgumentsDelta { output_index, delta } => ev@
                == (StreamEventView::FunctionCallArgumentsDelta { output_index, delta: delta@ }),
            StreamEvent::OutputItemDone { .. } => ev@ is OutputItemDone,
            StreamEvent::ResponseCompleted { response } => ev@
                == (StreamEventView::ResponseCompleted { response: response@ }),
            StreamEvent::ResponseFailed { response } => ev@ == (StreamEventView::ResponseFailed {
                response: response@,
            }),
            StreamEvent::ResponseIncomplete { response } => ev@
                == (StreamEventView::ResponseIncomplete { response: response@ }),
            StreamEvent::Error { error } => {
                &&& ev@ matches StreamEventView::Error { error: seen }
                &&& seen.message == error.message@
                &&& seen.kind == match error.kind {
                    Some(kind) => Some(kind@),
                    None => None,
                }
            },
            StreamEvent::ResponseCreated { .. } => ev@ is Other,
            StreamEvent::ResponseInProgress { .. } => ev@ is Other,
            StreamEvent::Other => ev@ is Other,
        },
{
}

/// A reply is seen by its items in order, its status, the reason that it is
/// incomplete for and its counts.
pub proof fn replies_are_seen_whole(reply: ResponsesResponse, i: int)
    ensures
        reply@.output.len() == reply.output@.len(),
        0 <= i < reply.output@.len() ==> reply@.output[i] == json::json_of(reply.output@[i]),
        reply@.status == reply.status@,
        reply@.incomplete_reason == match reply.incomplete_details {
            Some(details) => Some(details.reason@),
            None => None,
        },
        reply@.usage == reply.usage,
{
}

/// An envelope is seen by the error in it.
pub proof fn envelopes_are_seen_whole(envelope: ErrorEnvelope)
    ensures
        match envelope_view(Some(envelope)) {
            Some(seen) => {
                &&& seen.message == envelope.error.message@
                &&& seen.kind == match envelope.error.kind {
                    Some(kind) => Some(kind@),
                    None => None,
                }
            },
            None => false,
        },
        envelope_view(None) is None,
{
}

/// The body of a request is seen by all it says: its items, tools and names one by
/// one, in order.
pub proof fn requests_are_seen_whole(request: ResponsesRequest, i: int)
    ensures
        request@.model == request.model@,
        request@.input.len() == request.input@.len(),
        0 <= i < request.input@.len() ==> request@.input[i] == json::json_of(request.input@[i]),
        request@.instructions == match request.instructions {
            Some(text) => Some(text@),
            None => None,
        },
        request@.tools.len() == request.tools@.len(),
        0 <= i < request.tools@.len() ==> match request.tools@[i] {
            WireTool::Function { kind, name, description, parameters } => request@.tools[i]
                == (WireToolView::Function {
                kind: kind@,
                name: name@,
                description: description@,
                parameters: json::json_of(parameters),
            }),
            WireTool::WebSearch { kind } => request@.tools[i] == (WireToolView::WebSearch {
                kind: kind@,
            }),
        },
        request@.tool_choice == match request.tool_choice {
            Some(v) => Some(json::json_of(v)),
            None => None,
        },
        request@.parallel_tool_calls == request.parallel_tool_calls,
        request@.temperature == match request.temperature {
            Some(v) => Some(json::json_of(v)),
            None => None,
        },
        request@.max_output_tokens == request.max_output_tokens,
        request@.reasoning == request.reasoning,
        request@.store == request.store,
        request@.includes.len() == request.includes@.len(),
        0 <= i < request.includes@.len() ==> request@.includes[i] == request.includes@[i]@,
        request@.prompt_cache_key == request.prompt_cache_key@,
        request@.stream == request.stream,
{
}

} // verus!
