//! What a Responses request says, member by member of its body, in terms of the
//! conversation and the options that it is made of.

use vstd::prelude::*;

use crate::http::ConfigView;
use crate::json::{self, Json};
use crate::responses::adapter;
use crate::responses::wire::{self, Effort, ResponsesRequestView, WireToolView};
use crate::types::content::{ContentBlockView, ToolOutputView};
use crate::types::conversation::{ConversationView, MessageView, Role};
use crate::types::request::{RequestOptionsView, ThinkingEffort, ToolChoiceView};

verus! {

/// The members of a body have different names.
proof fn lemma_names_differ()
    ensures
        "model"@.len() == 5 && "model"@[0] == 'm',
        "input"@.len() == 5 && "input"@[0] == 'i',
        "tools"@.len() == 5 && "tools"@[0] == 't',
        "store"@.len() == 5 && "store"@[0] == 's',
        "stream"@.len() == 6,
        "include"@.len() == 7,
        "reasoning"@.len() == 9,
        "tool_choice"@.len() == 11 && "tool_choice"@[1] == 'o',
        "temperature"@.len() == 11 && "temperature"@[1] == 'e',
        "instructions"@.len() == 12,
        "prompt_cache_key"@.len() == 16,
        "max_output_tokens"@.len() == 17,
        "parallel_tool_calls"@.len() == 19,
{
    reveal_strlit("model");
    reveal_strlit("input");
    reveal_strlit("tools");
    reveal_strlit("store");
    reveal_strlit("stream");
    reveal_strlit("include");
    reveal_strlit("reasoning");
    reveal_strlit("tool_choice");
    reveal_strlit("temperature");
    reveal_strlit("instructions");
    reveal_strlit("prompt_cache_key");
    reveal_strlit("max_output_tokens");
    reveal_strlit("parallel_tool_calls");
}

/// A request is sent to the Responses endpoint of its server, under the key of
/// the caller, and what it asks does not depend on either.
pub proof fn requests_are_addressed(
    cfg: ConfigView,
    other: ConfigView,
    c: ConversationView,
    opts: RequestOptionsView,
    stream: bool,
)
    ensures
        ({
            let request = adapter::http_view(cfg, c, opts, stream);
            &&& request.url == cfg.base_url + "/v1/responses"@
            &&& request.headers == seq![("Authorization"@, "Bearer "@ + cfg.api_key)]
            &&& request.body == adapter::http_view(other, c, opts, stream).body
        }),
{
}

/// What the caller chose stands in the body as it was chosen, under the name
/// that the API has for it; what was left open is left out, save for the limit
/// on the output, which has a default.
pub proof fn options_are_sent(
    cfg: ConfigView,
    c: ConversationView,
    opts: RequestOptionsView,
    stream: bool,
)
    ensures
        ({
            let body = adapter::http_view(cfg, c, opts, stream).body;
            &&& json::member(body, "model"@) == Some(Json::Str(opts.model))
            &&& json::member(body, "instructions"@) == match opts.system {
                Some(text) => Some(Json::Str(text)),
                None => None,
            }
            &&& json::member(body, "temperature"@) == opts.temperature
            &&& json::member(body, "max_output_tokens"@) == Some(
                Json::Int(
                    match opts.max_tokens {
                        Some(n) => n as int,
                        None => 64_000,
                    },
                ),
            )
            &&& json::member(body, "parallel_tool_calls"@) == match opts.parallel_tool_calls {
                Some(b) => Some(Json::Bool(b)),
                None => None,
            }
            &&& json::member(body, "stream"@) == if stream {
                Some(Json::Bool(true))
            } else {
                None
            }
        }),
{
    lemma_names_differ();
}

/// The choice among the tools is named as the API names it; a tool that is asked
/// for by name is asked for by that name. A choice that is the model's own is
/// left out.
pub proof fn tool_choice_is_sent(
    cfg: ConfigView,
    c: ConversationView,
    opts: RequestOptionsView,
    stream: bool,
)
    ensures
        json::member(adapter::http_view(cfg, c, opts, stream).body, "tool_choice"@)
            == match opts.tool_choice {
            ToolChoiceView::Auto => None,
            ToolChoiceView::Required => Some(Json::Str("required"@)),
            ToolChoiceView::Never => Some(Json::Str("none"@)),
            ToolChoiceView::Tool(name) => Some(
                Json::Object(map!["type"@ => Json::Str("function"@), "name"@ => Json::Str(name)]),
            ),
        },
{
    lemma_names_differ();
}

/// The effort to think with is the one that the caller chose, and a medium one
/// where none was chosen.
pub proof fn effort_is_sent(
    cfg: ConfigView,
    c: ConversationView,
    opts: RequestOptionsView,
    stream: bool,
)
    ensures
        json::member(adapter::http_view(cfg, c, opts, stream).body, "reasoning"@) == Some(
            Json::Object(
                map![
                    "effort"@ => Json::Str(match opts.thinking {
                        Some(ThinkingEffort::Low) => "low"@,
                        Some(ThinkingEffort::Medium) => "medium"@,
                        Some(ThinkingEffort::High) => "high"@,
                        None => "medium"@,
                    }),
                ],
            ),
        ),
{
    lemma_names_differ();
}

/// The provider is never asked to keep the conversation, always asked for the
/// reasoning in a form that can be given back, and told the cache key of the
/// conversation.
pub proof fn state_is_not_kept(
    cfg: ConfigView,
    c: ConversationView,
    opts: RequestOptionsView,
    stream: bool,
)
    ensures
        ({
            let body = adapter::http_view(cfg, c, opts, stream).body;
            &&& json::member(body, "store"@) == Some(Json::Bool(false))
            &&& json::member(body, "include"@) == Some(
                Json::Array(seq![Json::Str("reasoning.encrypted_content"@)]),
            )
            &&& json::member(body, "prompt_cache_key"@) == Some(Json::Str(c.cache_key))
        }),
{
    lemma_names_differ();
    let names = adapter::request_view(c, opts, stream).includes;
    assert(wire::names_json(names) =~= seq![
        Json::Str("reasoning.encrypted_content"@),
    ]);
}

/// A body says nothing beyond what the laws above and below tell of.
pub proof fn nothing_else_is_sent(
    cfg: ConfigView,
    c: ConversationView,
    opts: RequestOptionsView,
    stream: bool,
    key: Seq<char>,
)
    requires
        json::member(adapter::http_view(cfg, c, opts, stream).body, key) is Some,
    ensures
        key == "model"@ || key == "input"@ || key == "instructions"@ || key == "tools"@ || key
            == "tool_choice"@ || key == "parallel_tool_calls"@ || key == "temperature"@ || key
            == "max_output_tokens"@ || key == "reasoning"@ || key == "store"@ || key == "include"@
            || key == "prompt_cache_key"@ || key == "stream"@,
{
}

/// Every tool of the caller is part of the request, in order, under its own
/// name, with its own description and schema, and as a function; the hosted web
/// search stands behind them where it is asked for; and there are no others.
pub proof fn tools_are_requested(
    c: ConversationView,
    opts: RequestOptionsView,
    stream: bool,
)
    ensures
        ({
            let tools = adapter::request_view(c, opts, stream).tools;
            &&& !opts.web_search ==> tools.len() == opts.tools.len()
            &&& opts.web_search ==> tools.len() == opts.tools.len() + 1
            &&& opts.web_search ==> tools.last() == (WireToolView::WebSearch { kind: "web_search"@ })
            &&& forall|i: int|
                0 <= i < opts.tools.len() ==> #[trigger] tools[i] == (WireToolView::Function {
                    kind: "function"@,
                    name: opts.tools[i].name,
                    description: opts.tools[i].description,
                    parameters: opts.tools[i].input_schema,
                })
        }),
{
}

/// The body lists one tool for each of the caller's, in order and as a function
/// with that tool's name, description and schema, and behind them the hosted web
/// search where it is asked for. Without a tool there is no list.
pub proof fn tools_are_sent(
    cfg: ConfigView,
    c: ConversationView,
    opts: RequestOptionsView,
    stream: bool,
)
    ensures
        match json::member(adapter::http_view(cfg, c, opts, stream).body, "tools"@) {
            Some(Json::Array(sent)) => {
                &&& sent.len() > 0
                &&& sent.len() == opts.tools.len() + (if opts.web_search {
                    1int
                } else {
                    0int
                })
                &&& opts.web_search ==> sent.last() == Json::Object(
                    map!["type"@ => Json::Str("web_search"@)],
                )
                &&& forall|i: int|
                    0 <= i < opts.tools.len() ==> #[trigger] sent[i] == Json::Object(
                        map![
                            "type"@ => Json::Str("function"@),
                            "name"@ => Json::Str(opts.tools[i].name),
                            "description"@ => Json::Str(opts.tools[i].description),
                            "parameters"@ => opts.tools[i].input_schema,
                        ],
                    )
            },
            Some(_) => false,
            None => opts.tools.len() == 0 && !opts.web_search,
        },
{
    lemma_names_differ();
}

/// The input of the body depends on the transcript and on nothing else: neither
/// the options nor marks, pins or keys of the conversation change it.
pub proof fn input_is_the_transcript(
    cfg: ConfigView,
    c: ConversationView,
    d: ConversationView,
    opts: RequestOptionsView,
    other: RequestOptionsView,
    stream: bool,
)
    requires
        c.messages == d.messages,
    ensures
        json::member(adapter::http_view(cfg, c, opts, stream).body, "input"@) == Some(
            Json::Array(adapter::transcript_items(c.messages)),
        ),
        json::member(adapter::http_view(cfg, c, opts, stream).body, "input"@) == json::member(
            adapter::http_view(cfg, d, other, !stream).body,
            "input"@,
        ),
{
    lemma_names_differ();
}

/// The items of a transcript are those of its turns, one turn behind the other;
/// a transcript without turns has none.
pub proof fn turns_follow_each_other(before: Seq<MessageView>, after: Seq<MessageView>)
    ensures
        adapter::transcript_items(before + after) == adapter::transcript_items(before)
            + adapter::transcript_items(after),
        adapter::transcript_items(Seq::empty()).len() == 0,
    decreases after.len(),
{
    if after.len() == 0 {
        assert(before + after =~= before);
        assert(adapter::transcript_items(before) + Seq::<Json>::empty()
            =~= adapter::transcript_items(before));
    } else {
        turns_follow_each_other(before, after.drop_last());
        assert((before + after).drop_last() =~= before + after.drop_last());
        let last = adapter::message_items(after.last().role, after.last().content);
        assert(adapter::transcript_items(before) + adapter::transcript_items(after.drop_last())
            + last =~= adapter::transcript_items(before) + (adapter::transcript_items(
            after.drop_last(),
        ) + last));
    }
}

/// A turn, taken alone, is written as it is in a transcript.
pub proof fn turns_stand_alone(role: Role, content: Seq<ContentBlockView>)
    ensures
        adapter::transcript_items(seq![MessageView { role, content }]) == adapter::message_items(
            role,
            content,
        ),
{
    let turn = seq![MessageView { role, content }];
    reveal_with_fuel(adapter::transcript_items, 2);
    assert(turn.drop_last() =~= Seq::empty());
    assert(Seq::<Json>::empty() + adapter::message_items(role, content)
        =~= adapter::message_items(role, content));
}

/// The items of a turn are those of its blocks, one behind the other; a turn
/// without blocks has none.
pub proof fn blocks_follow_each_other(
    role: Role,
    before: Seq<ContentBlockView>,
    after: Seq<ContentBlockView>,
)
    ensures
        adapter::transcript_items(seq![MessageView { role, content: before + after }])
            == adapter::transcript_items(seq![MessageView { role, content: before }])
            + adapter::transcript_items(seq![MessageView { role, content: after }]),
        adapter::transcript_items(seq![MessageView { role, content: Seq::empty() }]).len() == 0,
    decreases after.len(),
{
    turns_stand_alone(role, before + after);
    turns_stand_alone(role, before);
    turns_stand_alone(role, after);
    turns_stand_alone(role, Seq::empty());
    let first = adapter::message_items(role, before);
    if after.len() == 0 {
        assert(before + after =~= before);
        assert(first + Seq::<Json>::empty() =~= first);
    } else {
        blocks_follow_each_other(role, before, after.drop_last());
        turns_stand_alone(role, before + after.drop_last());
        turns_stand_alone(role, after.drop_last());
        assert((before + after).drop_last() =~= before + after.drop_last());
        match adapter::input_item(role, after.last()) {
            Some(item) => {
                let middle = adapter::message_items(role, after.drop_last());
                assert((first + middle).push(item) =~= first + middle.push(item));
            },
            None => {},
        }
    }
}

/// A block of an assistant turn, taken alone, is written as it is in the input;
/// a tool result, which has no place there, is written as nothing.
pub proof fn assistant_blocks_stand_alone(block: ContentBlockView)
    ensures
        block is ToolResult ==> adapter::block_item(block) == Json::Null,
        !(block is ToolResult) ==> adapter::transcript_items(
            seq![MessageView { role: Role::Assistant, content: seq![block] }],
        ) == seq![adapter::block_item(block)],
{
    blocks_become_items(Role::Assistant, block);
}

/// What one block of a turn makes of itself in the input. The user's texts go
/// out as they are and tool results under the id of their call; what the
/// provider sent goes back as it came; and a text or a call of the assistant
/// that no provider sent is written out in full. A block that its turn has no
/// business with makes nothing.
pub proof fn blocks_become_items(role: Role, block: ContentBlockView)
    ensures
        adapter::transcript_items(seq![MessageView { role, content: seq![block] }]) == match role {
            Role::User => match block {
                ContentBlockView::Text { text, .. } => seq![
                    Json::Object(
                        map!["role"@ => Json::Str("user"@), "content"@ => Json::Str(text)],
                    ),
                ],
                ContentBlockView::ToolResult { id, output } => seq![
                    Json::Object(
                        map![
                            "type"@ => Json::Str("function_call_output"@),
                            "call_id"@ => Json::Str(id),
                            "output"@ => Json::Str(match output {
                                ToolOutputView::Text(s) => s,
                                ToolOutputView::Error(s) => s,
                                ToolOutputView::Json(v) => json::json_text(v),
                            }),
                        ],
                    ),
                ],
                _ => Seq::empty(),
            },
            Role::Assistant => match block {
                ContentBlockView::Text { extras: Some(item), .. } => seq![item],
                ContentBlockView::ToolUse { extras: Some(item), .. } => seq![item],
                ContentBlockView::Reasoning { payload, .. } => seq![payload],
                ContentBlockView::Text { text, extras: None } => seq![
                    Json::Object(
                        map![
                            "type"@ => Json::Str("message"@),
                            "role"@ => Json::Str("assistant"@),
                            "status"@ => Json::Str("completed"@),
                            "content"@ => Json::Array(
                                seq![
                                    Json::Object(
                                        map![
                                            "type"@ => Json::Str("output_text"@),
                                            "text"@ => Json::Str(text),
                                        ],
                                    ),
                                ],
                            ),
                        ],
                    ),
                ],
                ContentBlockView::ToolUse { id, name, input, extras: None } => seq![
                    Json::Object(
                        map![
                            "type"@ => Json::Str("function_call"@),
                            "call_id"@ => Json::Str(id),
                            "name"@ => Json::Str(name),
                            "arguments"@ => Json::Str(json::json_text(input)),
                            "status"@ => Json::Str("completed"@),
                        ],
                    ),
                ],
                ContentBlockView::ToolResult { .. } => Seq::empty(),
            },
        },
{
    turns_stand_alone(role, seq![block]);
    reveal_with_fuel(adapter::message_items, 2);
    assert(seq![block].drop_last() =~= Seq::empty());
    match adapter::input_item(role, block) {
        Some(item) => {
            assert(Seq::<Json>::empty().push(item) =~= seq![item]);
        },
        None => {},
    }
}

/// Any body that is put together by hand is written in the same way: every member
/// that is set, as it is set, and none that is not.
pub proof fn bodies_are_written_whole(r: ResponsesRequestView, i: int)
    ensures
        json::member(r.json(), "model"@) == Some(Json::Str(r.model)),
        json::member(r.json(), "input"@) == Some(Json::Array(r.input)),
        json::member(r.json(), "instructions"@) == match r.instructions {
            Some(text) => Some(Json::Str(text)),
            None => None,
        },
        match json::member(r.json(), "tools"@) {
            Some(Json::Array(sent)) => {
                &&& sent.len() == r.tools.len() && sent.len() > 0
                &&& 0 <= i < r.tools.len() ==> sent[i] == match r.tools[i] {
                    WireToolView::Function { kind, name, description, parameters } => Json::Object(
                        map![
                            "type"@ => Json::Str(kind),
                            "name"@ => Json::Str(name),
                            "description"@ => Json::Str(description),
                            "parameters"@ => parameters,
                        ],
                    ),
                    WireToolView::WebSearch { kind } => Json::Object(
                        map!["type"@ => Json::Str(kind)],
                    ),
                }
            },
            Some(_) => false,
            None => r.tools.len() == 0,
        },
        json::member(r.json(), "tool_choice"@) == r.tool_choice,
        json::member(r.json(), "parallel_tool_calls"@) == match r.parallel_tool_calls {
            Some(b) => Some(Json::Bool(b)),
            None => None,
        },
        json::member(r.json(), "temperature"@) == r.temperature,
        json::member(r.json(), "max_output_tokens"@) == match r.max_output_tokens {
            Some(n) => Some(Json::Int(n as int)),
            None => None,
        },
        json::member(r.json(), "reasoning"@) == Some(
            Json::Object(
                map![
                    "effort"@ => Json::Str(match r.reasoning.effort {
                        Effort::Low => "low"@,
                        Effort::Medium => "medium"@,
                        Effort::High => "high"@,
                    }),
                ],
            ),
        ),
        json::member(r.json(), "store"@) == Some(Json::Bool(r.store)),
        match json::member(r.json(), "include"@) {
            Some(Json::Array(names)) => {
                &&& names.len() == r.includes.len()
                &&& 0 <= i < r.includes.len() ==> names[i] == Json::Str(r.includes[i])
            },
            _ => false,
        },
        json::member(r.json(), "prompt_cache_key"@) == Some(Json::Str(r.prompt_cache_key)),
        json::member(r.json(), "stream"@) == match r.stream {
            Some(b) => Some(Json::Bool(b)),
            None => None,
        },
{
    lemma_names_differ();
}

} // verus!
