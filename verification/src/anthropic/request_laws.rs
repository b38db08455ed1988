//! What an Anthropic request says, member by member of its body, in terms of the
//! conversation and the options that it is made of.

use vstd::prelude::*;

use crate::anthropic::adapter;
use crate::anthropic::wire::{Effort, MessagesRequestView, Thinking, WireToolView};
use crate::http::ConfigView;
use crate::json::{self, Json};
use crate::text;
use crate::types::content::{ContentBlockView, ToolOutputView};
use crate::types::conversation::{ConversationView, Role};
use crate::types::request::{RequestOptionsView, ThinkingEffort, ToolChoiceView};

verus! {

/// The members of a body have different names.
proof fn lemma_names_differ()
    ensures
        "model"@.len() == 5 && "model"@[0] == 'm',
        "tools"@.len() == 5 && "tools"@[0] == 't',
        "system"@.len() == 6 && "system"@[1] == 'y',
        "stream"@.len() == 6 && "stream"@[1] == 't',
        "messages"@.len() == 8 && "messages"@[0] == 'm',
        "thinking"@.len() == 8 && "thinking"@[0] == 't',
        "max_tokens"@.len() == 10,
        "tool_choice"@.len() == 11 && "tool_choice"@[1] == 'o',
        "temperature"@.len() == 11 && "temperature"@[1] == 'e',
        "output_config"@.len() == 13 && "output_config"@[0] == 'o',
        "cache_control"@.len() == 13 && "cache_control"@[0] == 'c',
{
    reveal_strlit("model");
    reveal_strlit("tools");
    reveal_strlit("system");
    reveal_strlit("stream");
    reveal_strlit("messages");
    reveal_strlit("thinking");
    reveal_strlit("max_tokens");
    reveal_strlit("tool_choice");
    reveal_strlit("temperature");
    reveal_strlit("output_config");
    reveal_strlit("cache_control");
}

/// A request is sent to the Messages endpoint of its server, under the key of
/// the caller and for the version of the API that is spoken here, and what it
/// asks does not depend on where it is sent.
pub proof fn requests_are_addressed(
    cfg: ConfigView,
    other: ConfigView,
    c: ConversationView,
    opts: RequestOptionsView,
    stream: bool,
)
    ensures
        ({
            let request = adapter::http_view(cfg, c, opts, stream);
            &&& request.url == cfg.base_url + "/v1/messages"@
            &&& request.headers == seq![
                ("x-api-key"@, cfg.api_key),
                ("anthropic-version"@, "2023-06-01"@),
            ]
            &&& request.body == adapter::http_view(other, c, opts, stream).body
        }),
{
}

/// What the caller chose stands in the body as it was chosen, under the name
/// that the API has for it; what was left open is left out, save for the limit
/// on the output, which has a default.
pub proof fn options_are_sent(
    cfg: ConfigView,
    c: ConversationView,
    opts: RequestOptionsView,
    stream: bool,
)
    ensures
        ({
            let body = adapter::http_view(cfg, c, opts, stream).body;
            &&& json::member(body, "model"@) == Some(Json::Str(opts.model))
            &&& json::member(body, "max_tokens"@) == Some(
                Json::Int(
                    match opts.max_tokens {
                        Some(n) => n as int,
                        None => 64_000,
                    },
                ),
            )
            &&& json::member(body, "system"@) == match opts.system {
                Some(text) => Some(Json::Str(text)),
                None => None,
            }
            &&& json::member(body, "temperature"@) == opts.temperature
            &&& json::member(body, "stream"@) == if stream {
                Some(Json::Bool(true))
            } else {
                None
            }
        }),
{
    lemma_names_differ();
}

/// The choice among the tools is sent where the caller made one, or has a say in
/// parallel calls: by the name that the API has for it, with the name of the
/// tool where one is asked for, and with parallel calls off exactly where the
/// caller turned them off.
pub proof fn tool_choice_is_sent(
    cfg: ConfigView,
    c: ConversationView,
    opts: RequestOptionsView,
    stream: bool,
    key: Seq<char>,
)
    ensures
        match json::member(adapter::http_view(cfg, c, opts, stream).body, "tool_choice"@) {
            None => opts.tool_choice is Auto && opts.parallel_tool_calls is None,
            Some(sent) => {
                &&& !(opts.tool_choice is Auto && opts.parallel_tool_calls is None)
                &&& json::member(sent, "type"@) == Some(
                    Json::Str(
                        match opts.tool_choice {
                            ToolChoiceView::Auto => "auto"@,
                            ToolChoiceView::Required => "any"@,
                            ToolChoiceView::Tool(_) => "tool"@,
                            ToolChoiceView::Never => "none"@,
                        },
                    ),
                )
                &&& json::member(sent, "name"@) == match opts.tool_choice {
                    ToolChoiceView::Tool(name) => Some(Json::Str(name)),
                    _ => None,
                }
                &&& json::member(sent, "disable_parallel_tool_use"@)
                    == match opts.parallel_tool_calls {
                    Some(parallel) => Some(Json::Bool(!parallel)),
                    None => None,
                }
                &&& json::member(sent, key) is Some ==> key == "type"@ || key == "name"@ || key
                    == "disable_parallel_tool_use"@
            },
        },
{
    lemma_names_differ();
    reveal_strlit("type");
    reveal_strlit("name");
    reveal_strlit("disable_parallel_tool_use");
    assert("type"@.len() == 4 && "type"@[0] == 't');
    assert("name"@.len() == 4 && "name"@[0] == 'n');
    assert("disable_parallel_tool_use"@.len() == 25);
}

/// How to think is said in the way that the model understands: by a number of
/// tokens to a model whose name has `haiku-4-5` somewhere in it, by an effort to
/// any other. Where the caller chose no effort it is a medium one.
pub proof fn thinking_is_sent(
    cfg: ConfigView,
    c: ConversationView,
    opts: RequestOptionsView,
    stream: bool,
    before: Seq<char>,
    after: Seq<char>,
)
    ensures
        ({
            let body = adapter::http_view(cfg, c, opts, stream).body;
            let by_budget = Some(
                Json::Object(
                    map![
                        "type"@ => Json::Str("enabled"@),
                        "budget_tokens"@ => Json::Int(match opts.thinking {
                            Some(ThinkingEffort::Low) => 4_096,
                            Some(ThinkingEffort::Medium) => 16_384,
                            Some(ThinkingEffort::High) => 32_768,
                            None => 16_384,
                        }),
                    ],
                ),
            );
            let by_effort = Some(
                Json::Object(
                    map![
                        "type"@ => Json::Str("adaptive"@),
                        "display"@ => Json::Str("summarized"@),
                    ],
                ),
            );
            let effort = Some(
                Json::Object(
                    map![
                        "effort"@ => Json::Str(match opts.thinking {
                            Some(ThinkingEffort::Low) => "low"@,
                            Some(ThinkingEffort::Medium) => "medium"@,
                            Some(ThinkingEffort::High) => "high"@,
                            None => "medium"@,
                        }),
                    ],
                ),
            );
            &&& opts.model == before + "haiku-4-5"@ + after ==> {
                &&& json::member(body, "thinking"@) == by_budget
                &&& json::member(body, "output_config"@) is None
            }
            &&& (forall|a: Seq<char>, b: Seq<char>| #[trigger]
                (a + "haiku-4-5"@ + b) != opts.model) ==> {
                &&& json::member(body, "thinking"@) == by_effort
                &&& json::member(body, "output_config"@) == effort
            }
        }),
{
    lemma_names_differ();
    let needle = "haiku-4-5"@;
    if opts.model == before + needle + after {
        let i = before.len() as int;
        assert(opts.model.subrange(i, i + needle.len()) =~= needle);
        assert(text::occurs(needle, opts.model));
    }
    if text::occurs(needle, opts.model) {
        let i = choose|i: int|
            0 <= i && i + needle.len() <= opts.model.len() && #[trigger] opts.model.subrange(
                i,
                i + needle.len(),
            ) == needle;
        let a = opts.model.subrange(0, i);
        let b = opts.model.subrange(i + needle.len(), opts.model.len() as int);
        assert(a + needle + b =~= opts.model);
    }
}

/// The prompt as a whole is marked for the cache exactly where no message of the
/// transcript is volatile and the caller asked for no breakpoint within it.
pub proof fn whole_prompts_are_cached(
    cfg: ConfigView,
    c: ConversationView,
    opts: RequestOptionsView,
    stream: bool,
)
    ensures
        ({
            let open = match c.volatile {
                Some(i) => i >= c.messages.len(),
                None => true,
            } && match opts.cache_breakpoint_from_end {
                Some(n) => n >= c.messages.len(),
                None => true,
            };
            json::member(adapter::http_view(cfg, c, opts, stream).body, "cache_control"@)
                == if open {
                Some(Json::Object(map!["type"@ => Json::Str("ephemeral"@)]))
            } else {
                None
            }
        }),
{
    lemma_names_differ();
}

/// A body says nothing beyond what the laws here tell of.
pub proof fn nothing_else_is_sent(
    cfg: ConfigView,
    c: ConversationView,
    opts: RequestOptionsView,
    stream: bool,
    key: Seq<char>,
)
    requires
        json::member(adapter::http_view(cfg, c, opts, stream).body, key) is Some,
    ensures
        key == "model"@ || key == "max_tokens"@ || key == "messages"@ || key == "system"@ || key
            == "tools"@ || key == "tool_choice"@ || key == "temperature"@ || key == "thinking"@
            || key == "output_config"@ || key == "cache_control"@ || key == "stream"@,
{
}

/// Every tool of the caller is part of the request, in order, under its own
/// name, with its own description and schema; the hosted web search stands behind
/// them where it is asked for; and there are no others.
pub proof fn tools_are_requested(c: ConversationView, opts: RequestOptionsView, stream: bool)
    ensures
        ({
            let tools = adapter::request_view(c, opts, stream).tools;
            &&& !opts.web_search ==> tools.len() == opts.tools.len()
            &&& opts.web_search ==> tools.len() == opts.tools.len() + 1
            &&& opts.web_search ==> tools.last() == (WireToolView::WebSearch {
                kind: "web_search_20250305"@,
                name: "web_search"@,
            })
            &&& forall|i: int|
                0 <= i < opts.tools.len() ==> #[trigger] tools[i] == (WireToolView::Function {
                    name: opts.tools[i].name,
                    description: opts.tools[i].description,
                    input_schema: opts.tools[i].input_schema,
                })
        }),
{
}

/// The body lists one tool for each of the caller's, in order and with that
/// tool's name, description and schema, and behind them the hosted web search
/// where it is asked for. Without a tool there is no list.
pub proof fn tools_are_sent(
    cfg: ConfigView,
    c: ConversationView,
    opts: RequestOptionsView,
    stream: bool,
)
    ensures
        match json::member(adapter::http_view(cfg, c, opts, stream).body, "tools"@) {
            Some(Json::Array(sent)) => {
                &&& sent.len() > 0
                &&& sent.len() == opts.tools.len() + (if opts.web_search {
                    1int
                } else {
                    0int
                })
                &&& opts.web_search ==> sent.last() == Json::Object(
                    map![
                        "type"@ => Json::Str("web_search_20250305"@),
                        "name"@ => Json::Str("web_search"@),
                    ],
                )
                &&& forall|i: int|
                    0 <= i < opts.tools.len() ==> #[trigger] sent[i] == Json::Object(
                        map![
                            "name"@ => Json::Str(opts.tools[i].name),
                            "description"@ => Json::Str(opts.tools[i].description),
                            "input_schema"@ => opts.tools[i].input_schema,
                        ],
                    )
            },
            Some(_) => false,
            None => opts.tools.len() == 0 && !opts.web_search,
        },
{
    lemma_names_differ();
}

/// The body holds every message of the conversation, in order and no others: each
/// under the role of its turn, with one wire block for each block of the turn.
pub proof fn messages_are_sent(
    cfg: ConfigView,
    c: ConversationView,
    opts: RequestOptionsView,
    stream: bool,
)
    ensures
        match json::member(adapter::http_view(cfg, c, opts, stream).body, "messages"@) {
            Some(Json::Array(sent)) => {
                &&& sent.len() == c.messages.len()
                &&& forall|i: int|
                    0 <= i < c.messages.len() ==> {
                        &&& json::member(#[trigger] sent[i], "role"@) == Some(
                            Json::Str(
                                match c.messages[i].role {
                                    Role::User => "user"@,
                                    Role::Assistant => "assistant"@,
                                },
                            ),
                        )
                        &&& match json::member(sent[i], "content"@) {
                            Some(Json::Array(blocks)) => blocks.len()
                                == c.messages[i].content.len(),
                            _ => false,
                        }
                        &&& forall|key: Seq<char>| #[trigger]
                            json::member(sent[i], key) is Some ==> key == "role"@ || key
                                == "content"@
                    }
            },
            _ => false,
        },
{
    lemma_names_differ();
    reveal_strlit("role");
    reveal_strlit("content");
    assert("role"@.len() == 4 && "content"@.len() == 7);
}

/// What each block of each message is sent as: what the provider sent goes back
/// as it came, and what it did not send is written out in full, a tool result
/// under the id of its call. The last block of a message carries a cache
/// breakpoint where the message stands right before the volatile one, or where
/// the caller asked for one that far from the end; no other block does.
pub proof fn blocks_are_sent(
    cfg: ConfigView,
    c: ConversationView,
    opts: RequestOptionsView,
    stream: bool,
    at: int,
    i: int,
)
    requires
        0 <= at < c.messages.len(),
        0 <= i < c.messages[at].content.len(),
    ensures
        ({
            let plain = match c.messages[at].content[i] {
                ContentBlockView::Text { extras: Some(wire), .. } => wire,
                ContentBlockView::ToolUse { extras: Some(wire), .. } => wire,
                ContentBlockView::Reasoning { payload, .. } => payload,
                ContentBlockView::Text { text, extras: None } => Json::Object(
                    map!["type"@ => Json::Str("text"@), "text"@ => Json::Str(text)],
                ),
                ContentBlockView::ToolUse { id, name, input, extras: None } => Json::Object(
                    map![
                        "type"@ => Json::Str("tool_use"@),
                        "id"@ => Json::Str(id),
                        "name"@ => Json::Str(name),
                        "input"@ => input,
                    ],
                ),
                ContentBlockView::ToolResult { id, output: ToolOutputView::Text(s) } => {
                    Json::Object(
                        map![
                            "type"@ => Json::Str("tool_result"@),
                            "tool_use_id"@ => Json::Str(id),
                            "content"@ => Json::Str(s),
                        ],
                    )
                },
                ContentBlockView::ToolResult { id, output: ToolOutputView::Json(v) } => {
                    Json::Object(
                        map![
                            "type"@ => Json::Str("tool_result"@),
                            "tool_use_id"@ => Json::Str(id),
                            "content"@ => Json::Str(json::json_text(v)),
                        ],
                    )
                },
                ContentBlockView::ToolResult { id, output: ToolOutputView::Error(s) } => {
                    Json::Object(
                        map![
                            "type"@ => Json::Str("tool_result"@),
                            "tool_use_id"@ => Json::Str(id),
                            "content"@ => Json::Str(s),
                            "is_error"@ => Json::Bool(true),
                        ],
                    )
                },
            };
            let before_volatile = match c.volatile {
                Some(v) => v < c.messages.len() && at + 1 == v,
                None => false,
            };
            let asked_for = match opts.cache_breakpoint_from_end {
                Some(n) => at + 1 + n == c.messages.len(),
                None => false,
            };
            let last = i + 1 == c.messages[at].content.len();
            match json::member(adapter::http_view(cfg, c, opts, stream).body, "messages"@) {
                Some(Json::Array(messages)) => match json::member(messages[at], "content"@) {
                    Some(Json::Array(blocks)) => blocks[i] == if last && (before_volatile
                        || asked_for) {
                        match plain {
                            Json::Object(m) => Json::Object(
                                m.insert(
                                    "cache_control"@,
                                    Json::Object(map!["type"@ => Json::Str("ephemeral"@)]),
                                ),
                            ),
                            other => other,
                        }
                    } else {
                        plain
                    },
                    _ => false,
                },
                _ => false,
            }
        }),
{
    lemma_names_differ();
    reveal_strlit("role");
    reveal_strlit("content");
    assert("role"@.len() == 4 && "content"@.len() == 7);
}

/// Any body that is put together by hand is written in the same way: every member
/// that is set, as it is set, and none that is not.
pub proof fn bodies_are_written_whole(r: MessagesRequestView, i: int)
    ensures
        json::member(r.json(), "model"@) == Some(Json::Str(r.model)),
        json::member(r.json(), "max_tokens"@) == Some(Json::Int(r.max_tokens as int)),
        match json::member(r.json(), "messages"@) {
            Some(Json::Array(sent)) => {
                &&& sent.len() == r.messages.len()
                &&& 0 <= i < r.messages.len() ==> sent[i] == Json::Object(
                    map![
                        "role"@ => Json::Str(r.messages[i].role),
                        "content"@ => Json::Array(r.messages[i].content),
                    ],
                )
            },
            _ => false,
        },
        json::member(r.json(), "system"@) == match r.system {
            Some(text) => Some(Json::Str(text)),
            None => None,
        },
        match json::member(r.json(), "tools"@) {
            Some(Json::Array(sent)) => {
                &&& sent.len() == r.tools.len() && sent.len() > 0
                &&& 0 <= i < r.tools.len() ==> sent[i] == match r.tools[i] {
                    WireToolView::Function { name, description, input_schema } => Json::Object(
                        map![
                            "name"@ => Json::Str(name),
                            "description"@ => Json::Str(description),
                            "input_schema"@ => input_schema,
                        ],
                    ),
                    WireToolView::WebSearch { kind, name } => Json::Object(
                        map!["type"@ => Json::Str(kind), "name"@ => Json::Str(name)],
                    ),
                }
            },
            Some(_) => false,
            None => r.tools.len() == 0,
        },
        match (json::member(r.json(), "tool_choice"@), r.tool_choice) {
            (Some(sent), Some(choice)) => {
                &&& json::member(sent, "type"@) == Some(Json::Str(choice.kind))
                &&& json::member(sent, "name"@) == match choice.name {
                    Some(name) => Some(Json::Str(name)),
                    None => None,
                }
                &&& json::member(sent, "disable_parallel_tool_use"@)
                    == match choice.disable_parallel_tool_use {
                    Some(b) => Some(Json::Bool(b)),
                    None => None,
                }
            },
            (None, None) => true,
            _ => false,
        },
        json::member(r.json(), "temperature"@) == r.temperature,
        json::member(r.json(), "thinking"@) == match r.thinking {
            Some(Thinking::Adaptive { .. }) => Some(
                Json::Object(
                    map![
                        "type"@ => Json::Str("adaptive"@),
                        "display"@ => Json::Str("summarized"@),
                    ],
                ),
            ),
            Some(Thinking::Enabled { budget_tokens }) => Some(
                Json::Object(
                    map![
                        "type"@ => Json::Str("enabled"@),
                        "budget_tokens"@ => Json::Int(budget_tokens as int),
                    ],
                ),
            ),
            None => None,
        },
        json::member(r.json(), "output_config"@) == match r.output_config {
            Some(config) => Some(
                Json::Object(
                    map![
                        "effort"@ => Json::Str(match config.effort {
                            Effort::Low => "low"@,
                            Effort::Medium => "medium"@,
                            Effort::High => "high"@,
                        }),
                    ],
                ),
            ),
            None => None,
        },
        json::member(r.json(), "cache_control"@) == match r.cache_control {
            Some(kind) => Some(Json::Object(map!["type"@ => Json::Str(kind)])),
            None => None,
        },
        json::member(r.json(), "stream"@) == match r.stream {
            Some(b) => Some(Json::Bool(b)),
            None => None,
        },
{
    lemma_names_differ();
    reveal_strlit("type");
    reveal_strlit("name");
    reveal_strlit("disable_parallel_tool_use");
    assert("type"@.len() == 4 && "type"@[0] == 't');
    assert("name"@.len() == 4 && "name"@[0] == 'n');
    assert("disable_parallel_tool_use"@.len() == 25);
}

/// A model thinks by a budget exactly where its name has `haiku-4-5` somewhere in
/// it, and then by twice the medium budget for a high effort and by a quarter of it
/// for a low one.
pub proof fn budgets_are_for_one_model(model: Seq<char>, before: Seq<char>, after: Seq<char>)
    ensures
        adapter::extended(before + "haiku-4-5"@ + after),
        adapter::extended(model) ==> exists|a: Seq<char>, b: Seq<char>| #[trigger]
            (a + "haiku-4-5"@ + b) == model,
        adapter::budget(ThinkingEffort::Medium) == 16_384,
        adapter::budget(ThinkingEffort::High) == 2 * adapter::budget(ThinkingEffort::Medium),
        4 * adapter::budget(ThinkingEffort::Low) == adapter::budget(ThinkingEffort::Medium),
{
    text::occurrences_split_a_text("haiku-4-5"@, model, before, after);
}

/// A message, taken alone, is written as it is in a request, with a breakpoint or
/// without; and so is a block.
pub proof fn messages_stand_alone(
    cfg: ConfigView,
    c: ConversationView,
    opts: RequestOptionsView,
    stream: bool,
    at: int,
    i: int,
)
    requires
        0 <= at < c.messages.len(),
    ensures
        ({
            let plain = adapter::message_wire(c.messages[at], false);
            let marked = adapter::message_wire(c.messages[at], true);
            match json::member(adapter::http_view(cfg, c, opts, stream).body, "messages"@) {
                Some(Json::Array(sent)) => sent[at] == Json::Object(
                    if adapter::breakpoint_at(c, opts, at) {
                        map![
                            "role"@ => Json::Str(marked.role),
                            "content"@ => Json::Array(marked.content),
                        ]
                    } else {
                        map![
                            "role"@ => Json::Str(plain.role),
                            "content"@ => Json::Array(plain.content),
                        ]
                    },
                ),
                _ => false,
            }
        }),
        0 <= i < c.messages[at].content.len() ==> adapter::message_wire(
            c.messages[at],
            false,
        ).content[i] == adapter::block_json(c.messages[at].content[i]),
{
    lemma_names_differ();
}

/// How a choice of tools and a say in parallel calls are put together: by the
/// provider's name for the choice, with the name of the tool that is asked for, and
/// with parallel calls off where they are not wanted.
pub proof fn choices_are_named(choice: ToolChoiceView, parallel: Option<bool>)
    ensures
        match adapter::wire_choice(choice, parallel) {
            None => choice is Auto && parallel is None,
            Some(sent) => {
                &&& choice is Auto ==> parallel is Some && sent.kind == "auto"@
                &&& choice is Required ==> sent.kind == "any"@
                &&& choice is Tool ==> sent.kind == "tool"@ && sent.name == Some(choice->Tool_0)
                &&& choice is Never ==> sent.kind == "none"@
                &&& !(choice is Tool) ==> sent.name is None
                &&& parallel == Some(true) <==> sent.disable_parallel_tool_use == Some(false)
                &&& parallel == Some(false) <==> sent.disable_parallel_tool_use == Some(true)
            },
        },
{
}

/// How an effort is put to a model: as a budget to one that thinks by a budget, as
/// an effort of that name to any other.
pub proof fn efforts_are_translated(model: Seq<char>, effort: ThinkingEffort)
    ensures
        adapter::extended(model) ==> {
            &&& adapter::thinking_for(model, effort) == (Thinking::Enabled {
                budget_tokens: adapter::budget(effort),
            })
            &&& adapter::output_for(model, effort) is None
        },
        !adapter::extended(model) ==> {
            &&& adapter::thinking_for(model, effort) is Adaptive
            &&& adapter::output_for(model, effort) matches Some(config) && {
                &&& effort is Low <==> config.effort is Low
                &&& effort is Medium <==> config.effort is Medium
                &&& effort is High <==> config.effort is High
            }
        },
{
}

} // verus!
