//! Message content.

use vstd::prelude::*;

use crate::json::{self, Json};
use crate::text;
use crate::types::conversation::ProviderKind;

verus! {

/// Provider wire JSON we do not interpret, kept so multi-turn requests can
/// echo fields (ids, signatures, encrypted reasoning) the backend requires.
#[derive(Debug, Clone, PartialEq)]
pub struct OpaquePayload(pub serde_json::Value);

impl View for OpaquePayload {
    type V = Json;

    open spec fn view(&self) -> Json {
        json::json_of(self.0)
    }
}

/// One unit of message content. Variants cover the shared surface; anything
/// provider-private is carried as [`ContentBlock::Reasoning`] or in `extras` so
/// it still round-trips.
#[derive(Debug, Clone, PartialEq)]
pub enum ContentBlock {
    Text(TextBlock),
    ToolUse(ToolUseBlock),
    ToolResult(ToolResultBlock),
    Reasoning(ReasoningBlock),
}

#[derive(Debug, Clone, PartialEq)]
pub struct TextBlock {
    pub text: String,
    /// Original wire item when present (e.g. OpenAI message ids/status, Anthropic
    /// citations).
    pub extras: Option<OpaquePayload>,
}

#[derive(Debug, Clone, PartialEq)]
pub struct ToolUseBlock {
    pub id: String,
    pub name: String,
    pub input: serde_json::Value,
    /// Original wire item when present (call_id, status, etc.).
    pub extras: Option<OpaquePayload>,
}

#[derive(Debug, Clone, PartialEq)]
pub struct ToolResultBlock {
    pub id: String,
    pub output: ToolOutput,
}

#[derive(Debug, Clone, PartialEq)]
pub enum ToolOutput {
    Text(String),
    Json(serde_json::Value),
    Error(String),
}

/// Thinking/reasoning from the model. Payload stays opaque because each
/// provider signs or encrypts it and rejects hand-edited substitutes.
#[derive(Debug, Clone, PartialEq)]
pub struct ReasoningBlock {
    pub provider: ProviderKind,
    pub payload: OpaquePayload,
    pub summary: Option<String>,
}

/// A tool's output as mathematics sees it.
pub enum ToolOutputView {
    Text(Seq<char>),
    Json(Json),
    Error(Seq<char>),
}

/// A content block as mathematics sees it.
pub enum ContentBlockView {
    Text { text: Seq<char>, extras: Option<Json> },
    ToolUse { id: Seq<char>, name: Seq<char>, input: Json, extras: Option<Json> },
    ToolResult { id: Seq<char>, output: ToolOutputView },
    Reasoning { provider: ProviderKind, payload: Json, summary: Option<Seq<char>> },
}

/// What an optional payload holds.
pub open spec fn payload_view(p: Option<OpaquePayload>) -> Option<Json> {
    match p {
        Some(p) => Some(p@),
        None => None,
    }
}

impl ToolOutputView {
    /// What the tool put out, as the one text that the wires have room for.
    pub open spec fn text(self) -> Seq<char> {
        match self {
            ToolOutputView::Text(s) => s,
            ToolOutputView::Json(v) => json::json_text(v),
            ToolOutputView::Error(s) => s,
        }
    }
}

impl View for ToolOutput {
    type V = ToolOutputView;

    open spec fn view(&self) -> ToolOutputView {
        match *self {
            ToolOutput::Text(s) => ToolOutputView::Text(s@),
            ToolOutput::Json(v) => ToolOutputView::Json(json::json_of(v)),
            ToolOutput::Error(s) => ToolOutputView::Error(s@),
        }
    }
}

impl View for ContentBlock {
    type V = ContentBlockView;

    open spec fn view(&self) -> ContentBlockView {
        match *self {
            ContentBlock::Text(t) => ContentBlockView::Text {
                text: t.text@,
                extras: payload_view(t.extras),
            },
            ContentBlock::ToolUse(t) => ContentBlockView::ToolUse {
                id: t.id@,
                name: t.name@,
                input: json::json_of(t.input),
                extras: payload_view(t.extras),
            },
            ContentBlock::ToolResult(t) => ContentBlockView::ToolResult {
                id: t.id@,
                output: t.output@,
            },
            ContentBlock::Reasoning(r) => ContentBlockView::Reasoning {
                provider: r.provider,
                payload: r.payload@,
                summary: text::opt_text(r.summary),
            },
        }
    }
}

/// What each block of a sequence is.
pub open spec fn blocks_view(blocks: Seq<ContentBlock>) -> Seq<ContentBlockView> {
    blocks.map_values(|b: ContentBlock| b@)
}

/// A plain text block.
pub open spec fn plain_text(text: Seq<char>) -> ContentBlockView {
    ContentBlockView::Text { text, extras: None }
}

impl TextBlock {
    /// Construct a plain text block. `extras` is empty (provider wire echo is
    /// only set when parsing a response).
    pub fn new(text: &str) -> (r: Self)
        ensures
            r.text@ == text@,
            r.extras is None,
    {
        TextBlock { text: text.to_owned(), extras: None }
    }
}

impl ToolUseBlock {
    /// Construct a tool call without provider wire echo.
    pub fn new(id: &str, name: &str, input: serde_json::Value) -> (r: Self)
        ensures
            r.id@ == id@,
            r.name@ == name@,
            r.input == input,
            r.extras is None,
    {
        ToolUseBlock { id: id.to_owned(), name: name.to_owned(), input, extras: None }
    }
}

impl ToolResultBlock {
    /// Construct a tool-result block for a caller-built user turn.
    pub fn new(id: &str, output: ToolOutput) -> (r: Self)
        ensures
            r.id@ == id@,
            r.output == output,
    {
        ToolResultBlock { id: id.to_owned(), output }
    }
}

impl ToolOutput {
    /// What the tool put out, as the one text that the wires have room for.
    pub fn text(&self) -> (r: String)
        ensures
            r@ == self@.text(),
    {
        match self {
            ToolOutput::Text(s) => s.clone(),
            ToolOutput::Json(v) => json::text(v),
            ToolOutput::Error(s) => s.clone(),
        }
    }
}

impl ReasoningBlock {
    /// Human-readable summary when the provider exposes one; never the full
    /// private chain-of-thought.
    pub fn summary(&self) -> (r: Option<&str>)
        ensures
            text::opt_str(r) == text::opt_text(self.summary),
    {
        match &self.summary {
            Some(s) => Some(s.as_str()),
            None => None,
        }
    }
}

/// A block is seen by its kind and by all it says.
pub proof fn blocks_are_seen_whole(block: ContentBlock)
    ensures
        match block {
            ContentBlock::Text(t) => block@ == (ContentBlockView::Text {
                text: t.text@,
                extras: match t.extras {
                    Some(p) => Some(json::json_of(p.0)),
                    None => None,
                },
            }),
            ContentBlock::ToolUse(t) => block@ == (ContentBlockView::ToolUse {
                id: t.id@,
                name: t.name@,
                input: json::json_of(t.input),
                extras: match t.extras {
                    Some(p) => Some(json::json_of(p.0)),
                    None => None,
                },
            }),
            ContentBlock::ToolResult(t) => block@ == (ContentBlockView::ToolResult {
                id: t.id@,
                output: match t.output {
                    ToolOutput::Text(s) => ToolOutputView::Text(s@),
                    ToolOutput::Json(v) => ToolOutputView::Json(json::json_of(v)),
                    ToolOutput::Error(s) => ToolOutputView::Error(s@),
                },
            }),
            ContentBlock::Reasoning(r) => block@ == (ContentBlockView::Reasoning {
                provider: r.provider,
                payload: json::json_of(r.payload.0),
                summary: match r.summary {
                    Some(s) => Some(s@),
                    None => None,
                },
            }),
        },
{
}

/// Blocks are seen one by one, in order.
pub proof fn blocks_are_seen_in_order(blocks: Seq<ContentBlock>, i: int)
    ensures
        blocks_view(blocks).len() == blocks.len(),
        0 <= i < blocks.len() ==> blocks_view(blocks)[i] == blocks[i]@,
{
}

/// What a tool put out is told in its own words, error or not; a value is told by
/// its JSON text.
pub proof fn outputs_are_told(output: ToolOutputView)
    ensures
        output matches ToolOutputView::Text(s) ==> output.text() == s,
        output matches ToolOutputView::Error(s) ==> output.text() == s,
        output matches ToolOutputView::Json(v) ==> output.text() == json::json_text(v),
{
}

} // verus!
