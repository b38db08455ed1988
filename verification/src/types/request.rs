//! Per-request knobs.

use vstd::prelude::*;

use crate::json::{self, Json};
use crate::text;

verus! {

/// Per-request knobs shared across providers. Adapters map these onto each
/// backend's fields (e.g. thinking effort to budget vs adaptive).
#[derive(Debug, Clone)]
pub struct RequestOptions {
    pub model: String,
    pub system: Option<String>,
    pub tools: Vec<ToolDef>,
    pub max_tokens: Option<u32>,
    /// Sampling temperature, as the JSON number to put on the wire.
    pub temperature: Option<serde_json::Value>,
    pub thinking: Option<ThinkingEffort>,
    /// When true, adapters attach that provider's hosted web-search tool
    /// (Anthropic server tool; OpenAI/xAI Responses `web_search`). Default off.
    /// No provider-specific search knobs or citation surface.
    pub web_search: bool,
    /// Whether / which tool the model must call. Default [`ToolChoice::Auto`].
    pub tool_choice: ToolChoice,
    /// `None` leaves the provider default untouched. `Some(false)` disables
    /// parallel tool calls when the backend supports it.
    pub parallel_tool_calls: Option<bool>,
    /// Place the prompt-cache breakpoint this many messages from the end,
    /// instead of implicitly at the end of the whole prompt.
    ///
    /// `Some(1)` marks the second-to-last message. That is what a rewriting
    /// loop needs: if the tail message is rebuilt every turn, an implicit
    /// end-of-prompt breakpoint caches a prefix that never matches again, so
    /// every turn is a full cache miss *and* a full cache write. Marking the
    /// last message that will not change keeps the cached prefix growing
    /// monotonically.
    ///
    /// Anthropic only; ignored by backends that cache automatically.
    pub cache_breakpoint_from_end: Option<usize>,
}

/// Portable control over whether the model may / must / must-not call tools.
#[derive(Debug, Clone, PartialEq)]
pub enum ToolChoice {
    /// Model decides.
    Auto,
    /// Must call some tool.
    Required,
    /// Must call this specific tool.
    Tool(String),
    /// Tools may be visible but not callable.
    Never,
}

#[derive(Debug, Clone)]
pub struct ToolDef {
    pub name: String,
    pub description: String,
    pub input_schema: serde_json::Value,
}

/// Relative reasoning budget. Exact token budgets / modes differ by provider
/// and model; this is the portable control surface.
#[derive(Debug, Clone, Copy, PartialEq, Eq, Structural)]
pub enum ThinkingEffort {
    Low,
    Medium,
    High,
}

/// A tool choice as mathematics sees it.
pub enum ToolChoiceView {
    Auto,
    Required,
    Tool(Seq<char>),
    Never,
}

/// A tool definition as mathematics sees it.
pub struct ToolDefView {
    pub name: Seq<char>,
    pub description: Seq<char>,
    pub input_schema: Json,
}

/// Request options as mathematics sees them.
pub struct RequestOptionsView {
    pub model: Seq<char>,
    pub system: Option<Seq<char>>,
    pub tools: Seq<ToolDefView>,
    pub max_tokens: Option<u32>,
    pub temperature: Option<Json>,
    pub thinking: Option<ThinkingEffort>,
    pub web_search: bool,
    pub tool_choice: ToolChoiceView,
    pub parallel_tool_calls: Option<bool>,
    pub cache_breakpoint_from_end: Option<usize>,
}

impl View for ToolChoice {
    type V = ToolChoiceView;

    open spec fn view(&self) -> ToolChoiceView {
        match *self {
            ToolChoice::Auto => ToolChoiceView::Auto,
            ToolChoice::Required => ToolChoiceView::Required,
            ToolChoice::Tool(name) => ToolChoiceView::Tool(name@),
            ToolChoice::Never => ToolChoiceView::Never,
        }
    }
}

impl View for ToolDef {
    type V = ToolDefView;

    open spec fn view(&self) -> ToolDefView {
        ToolDefView {
            name: self.name@,
            description: self.description@,
            input_schema: json::json_of(self.input_schema),
        }
    }
}

/// What each tool definition of a sequence is.
pub open spec fn tools_view(tools: Seq<ToolDef>) -> Seq<ToolDefView> {
    tools.map_values(|t: ToolDef| t@)
}

impl View for RequestOptions {
    type V = RequestOptionsView;

    open spec fn view(&self) -> RequestOptionsView {
        RequestOptionsView {
            model: self.model@,
            system: text::opt_text(self.system),
            tools: tools_view(self.tools@),
            max_tokens: self.max_tokens,
            temperature: json::opt_json(self.temperature),
            thinking: self.thinking,
            web_search: self.web_search,
            tool_choice: self.tool_choice@,
            parallel_tool_calls: self.parallel_tool_calls,
            cache_breakpoint_from_end: self.cache_breakpoint_from_end,
        }
    }
}

/// The options that ask for nothing in particular.
pub open spec fn default_options() -> RequestOptionsView {
    RequestOptionsView {
        model: Seq::empty(),
        system: None,
        tools: Seq::empty(),
        max_tokens: None,
        temperature: None,
        thinking: None,
        web_search: false,
        tool_choice: ToolChoiceView::Auto,
        parallel_tool_calls: None,
        cache_breakpoint_from_end: None,
    }
}

impl Default for ToolChoice {
    fn default() -> (r: Self)
        ensures
            r@ == ToolChoiceView::Auto,
    {
        ToolChoice::Auto
    }
}

impl Default for RequestOptions {
    fn default() -> (r: Self)
        ensures
            r@ == default_options(),
    {
        let r = RequestOptions {
            model: String::new(),
            system: None,
            tools: Vec::new(),
            max_tokens: None,
            temperature: None,
            thinking: None,
            web_search: false,
            tool_choice: ToolChoice::Auto,
            parallel_tool_calls: None,
            cache_breakpoint_from_end: None,
        };
        assert(tools_view(r.tools@) =~= Seq::empty());
        r
    }
}

/// Options that are not set ask for nothing: no instructions, no tools of any
/// kind, no limit, no temperature, no effort, no say in the choice of tools, and no
/// breakpoint.
pub proof fn defaults_ask_for_nothing()
    ensures
        ({
            let opts = default_options();
            &&& opts.model.len() == 0
            &&& opts.system is None
            &&& opts.tools.len() == 0
            &&& opts.max_tokens is None
            &&& opts.temperature is None
            &&& opts.thinking is None
            &&& !opts.web_search
            &&& opts.tool_choice is Auto
            &&& opts.parallel_tool_calls is None
            &&& opts.cache_breakpoint_from_end is None
        }),
{
}

/// Options are seen as they were set, the tools one by one and in order.
pub proof fn options_are_seen_whole(opts: RequestOptions, i: int)
    ensures
        opts@.model == opts.model@,
        opts@.system == match opts.system {
            Some(text) => Some(text@),
            None => None,
        },
        opts@.tools.len() == opts.tools@.len(),
        0 <= i < opts.tools@.len() ==> opts@.tools[i] == (ToolDefView {
            name: opts.tools@[i].name@,
            description: opts.tools@[i].description@,
            input_schema: json::json_of(opts.tools@[i].input_schema),
        }),
        opts@.max_tokens == opts.max_tokens,
        opts@.temperature == match opts.temperature {
            Some(v) => Some(json::json_of(v)),
            None => None,
        },
        opts@.thinking == opts.thinking,
        opts@.web_search == opts.web_search,
        match opts.tool_choice {
            ToolChoice::Auto => opts@.tool_choice is Auto,
            ToolChoice::Required => opts@.tool_choice is Required,
            ToolChoice::Tool(name) => opts@.tool_choice == ToolChoiceView::Tool(name@),
            ToolChoice::Never => opts@.tool_choice is Never,
        },
        opts@.parallel_tool_calls == opts.parallel_tool_calls,
        opts@.cache_breakpoint_from_end == opts.cache_breakpoint_from_end,
{
}

} // verus!
