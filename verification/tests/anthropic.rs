use hydrogen::anthropic::adapter::{
    block_to_wire, build_request, map_error, map_stop_reason, message_to_wire, parse_response,
    wire_block_to_agnostic,
};
use hydrogen::anthropic::sse::{close_raw, close_tool_use, Assembler};
use hydrogen::anthropic::wire;
use hydrogen::types::content::{
    ContentBlock, OpaquePayload, ReasoningBlock, TextBlock, ToolOutput, ToolResultBlock,
    ToolUseBlock,
};
use hydrogen::types::conversation::{Conversation, Message, ProviderKind, Role};
use hydrogen::types::request::{RequestOptions, ThinkingEffort, ToolChoice, ToolDef};
use hydrogen::types::response::StopReason;
use hydrogen::types::streaming::{Event, Fault};
use hydrogen::Error;

fn value(text: &str) -> serde_json::Value {
    serde_json::from_str(text).unwrap()
}

fn fresh() -> Conversation {
    Conversation::new(1_700_000_000_000_000_000, 0)
}

fn opts(model: &str) -> RequestOptions {
    RequestOptions {
        model: model.into(),
        thinking: Some(ThinkingEffort::High),
        ..Default::default()
    }
}

fn tool(name: &str) -> ToolDef {
    ToolDef {
        name: name.into(),
        description: "d".into(),
        input_schema: value("{\"type\": \"object\"}"),
    }
}

fn feed(assembler: &mut Assembler, events: Vec<wire::StreamEvent>) -> Vec<Event> {
    let mut out = Vec::new();
    for ev in events {
        out.extend(assembler.handle(ev).unwrap());
    }
    out
}

fn envelope(kind: &str, message: &str) -> Option<wire::ErrorEnvelope> {
    Some(wire::ErrorEnvelope {
        error: wire::ApiError {
            kind: kind.into(),
            message: message.into(),
        },
    })
}

fn input_delta(index: usize, text: &str) -> wire::StreamEvent {
    wire::StreamEvent::ContentBlockDelta {
        index,
        delta: wire::Delta::InputJsonDelta {
            partial_json: text.into(),
        },
    }
}

fn start(index: usize, block: &str) -> wire::StreamEvent {
    wire::StreamEvent::ContentBlockStart {
        index,
        content_block: value(block),
    }
}

/// Anthropic verifies thinking signatures on the next turn. Dropping or
/// reshaping the block is a multi-turn footgun that only surfaces as a
/// cryptic 400 from the API.
#[test]
fn thinking_block_round_trips_verbatim_including_signature() {
    let wire = value(
        "{\"type\": \"thinking\", \"thinking\": \"plan the steps\", \"signature\": \"sig-abc-123\"}",
    );
    let block = wire_block_to_agnostic(wire.clone()).unwrap();
    match &block {
        ContentBlock::Reasoning(r) => {
            assert_eq!(r.provider, ProviderKind::Anthropic);
            assert_eq!(r.summary.as_deref(), Some("plan the steps"));
            assert_eq!(r.summary(), Some("plan the steps"));
            assert_eq!(r.payload.0, wire);
        }
        other => panic!("expected reasoning, got {other:?}"),
    }
    assert_eq!(block_to_wire(&block), wire);
}

#[test]
fn redacted_thinking_is_preserved_opaque() {
    let wire = value("{\"type\": \"redacted_thinking\", \"data\": \"encrypted-blob\"}");
    let block = wire_block_to_agnostic(wire.clone()).unwrap();
    assert!(matches!(&block, ContentBlock::Reasoning(r) if r.summary.is_none()));
    assert_eq!(block_to_wire(&block), wire);
}

#[test]
fn unknown_block_types_are_preserved_not_dropped() {
    let wire = value("{\"type\": \"server_tool_use\", \"id\": \"x\", \"name\": \"web\"}");
    let block = wire_block_to_agnostic(wire.clone()).unwrap();
    assert_eq!(block_to_wire(&block), wire);
}

#[test]
fn tool_result_error_sets_is_error_flag() {
    let block = ContentBlock::ToolResult(ToolResultBlock {
        id: "toolu_1".into(),
        output: ToolOutput::Error("nope".into()),
    });
    let wire = block_to_wire(&block);
    assert_eq!(wire["type"], "tool_result");
    assert_eq!(wire["tool_use_id"], "toolu_1");
    assert_eq!(wire["content"], "nope");
    assert_eq!(wire["is_error"], true);
}

#[test]
fn tool_result_json_is_stringified_without_error_flag() {
    let block = ContentBlock::ToolResult(ToolResultBlock {
        id: "toolu_2".into(),
        output: ToolOutput::Json(value("{\"n\": 1}")),
    });
    let wire = block_to_wire(&block);
    assert_eq!(wire["content"], "{\"n\":1}");
    assert!(wire.get("is_error").is_none());
}

/// Haiku 4.5 still speaks budget-token extended thinking; sending adaptive
/// + output_config.effort is a silent protocol mismatch.
#[test]
fn haiku_4_5_uses_extended_thinking_budget() {
    let conv = fresh();
    let body = build_request(&conv, &opts("vendor-haiku-4-5-20251001"), false);
    match body.thinking {
        Some(wire::Thinking::Enabled { budget_tokens }) => {
            assert_eq!(budget_tokens, 32_768); // High
        }
        other => panic!("expected Enabled thinking, got {other:?}"),
    }
    assert!(body.output_config.is_none());
}

#[test]
fn non_haiku_uses_adaptive_thinking_and_effort() {
    let conv = fresh();
    let body = build_request(&conv, &opts("vendor-sonnet-4-20250514"), false);
    assert!(matches!(
        body.thinking,
        Some(wire::Thinking::Adaptive {
            display: wire::Display::Summarized
        })
    ));
    assert!(matches!(
        body.output_config,
        Some(wire::OutputConfig {
            effort: wire::Effort::High
        })
    ));
}

#[test]
fn efforts_map_onto_budgets_and_levels() {
    let conv = fresh();
    let cases = [
        (Some(ThinkingEffort::Low), 4_096, "low"),
        (Some(ThinkingEffort::Medium), 16_384, "medium"),
        (None, 16_384, "medium"),
        (Some(ThinkingEffort::High), 32_768, "high"),
    ];
    for (thinking, budget, level) in cases {
        let mut o = opts("haiku-4-5");
        o.thinking = thinking;
        let body = build_request(&conv, &o, false).to_value();
        assert_eq!(body["thinking"]["type"], "enabled");
        assert_eq!(body["thinking"]["budget_tokens"], budget);
        assert!(body.get("output_config").is_none());

        o.model = "haiku-4".into();
        let body = build_request(&conv, &o, false).to_value();
        assert_eq!(body["thinking"]["type"], "adaptive");
        assert_eq!(body["thinking"]["display"], "summarized");
        assert_eq!(body["output_config"]["effort"], level);
    }
}

#[test]
fn multi_turn_request_echoes_thinking_and_coalesced_tool_results() {
    let mut conv = fresh();
    conv.push_user("use the tool");

    let resp = parse_response(wire::MessagesResponse {
        content: vec![
            value(
                "{\"type\": \"thinking\", \"thinking\": \"need tool\", \"signature\": \"sig-1\"}",
            ),
            value(
                "{\"type\": \"tool_use\", \"id\": \"toolu_1\", \"name\": \"lookup\", \"input\": {\"q\": \"x\"}}",
            ),
        ],
        stop_reason: Some("tool_use".into()),
        usage: wire::WireUsage {
            input_tokens: 10,
            output_tokens: 5,
            ..Default::default()
        },
    })
    .unwrap();
    assert_eq!(resp.stop_reason, StopReason::ToolUse);
    assert_eq!(resp.usage.input_tokens, 10);
    assert_eq!(resp.usage.output_tokens, 5);
    conv.push_response(resp);
    conv.push_tool_result("toolu_1", ToolOutput::Text("answer".into()));
    conv.push_tool_result("toolu_2", ToolOutput::Text("more".into()));

    let body = build_request(
        &conv,
        &RequestOptions {
            model: "vendor-sonnet-4-20250514".into(),
            tools: vec![tool("lookup")],
            ..Default::default()
        },
        false,
    );

    // user, assistant (thinking+tool), user (two results)
    assert_eq!(body.messages.len(), 3);
    assert_eq!(body.messages[1].role, "assistant");
    assert_eq!(
        body.messages[1].content[0],
        value("{\"type\": \"thinking\", \"thinking\": \"need tool\", \"signature\": \"sig-1\"}")
    );
    assert_eq!(body.messages[2].role, "user");
    assert_eq!(body.messages[2].content.len(), 2);
    assert_eq!(body.messages[2].content[0]["tool_use_id"], "toolu_1");
    assert_eq!(body.messages[2].content[1]["tool_use_id"], "toolu_2");
}

#[test]
fn map_error_classifies_auth_rate_limit_and_invalid() {
    assert!(matches!(map_error(401, "{}", None, None), Error::Auth));
    assert!(matches!(
        map_error(
            429,
            r#"{"error":{"type":"rate","message":"slow"}}"#,
            envelope("rate", "slow"),
            None
        ),
        Error::RateLimited { .. }
    ));
    match map_error(
        400,
        r#"{"error":{"type":"invalid_request_error","message":"bad schema"}}"#,
        envelope("invalid_request_error", "bad schema"),
        None,
    ) {
        Error::InvalidRequest(m) => assert_eq!(m, "bad schema"),
        other => panic!("expected InvalidRequest, got {other:?}"),
    }
}

#[test]
fn refusals_without_an_envelope_keep_their_body() {
    for body in ["not json", "", "[]", r#"{"error":"x"}"#] {
        assert!(
            matches!(map_error(500, body, None, None), Error::Http { status: 500, message } if message == body)
        );
    }
    assert!(
        matches!(map_error(500, "b", envelope("t", "m"), None), Error::Http { message, .. } if message == "m")
    );
    let wait = Some(std::time::Duration::from_secs(12));
    assert!(
        matches!(map_error(429, "b", None, wait), Error::RateLimited { retry_after } if retry_after == wait)
    );
}

/// Hosted web search must serialize as Anthropic's server tool, not a
/// client function tool, and sit alongside any caller ToolDefs.
#[test]
fn web_search_emits_hosted_tool_alongside_function_tools() {
    let conv = fresh();

    let off = build_request(
        &conv,
        &RequestOptions {
            model: "vendor-sonnet-4-20250514".into(),
            tools: vec![tool("lookup")],
            web_search: false,
            ..Default::default()
        },
        false,
    );
    let off_json = off.to_value()["tools"].clone();
    assert_eq!(off_json.as_array().unwrap().len(), 1);
    assert_eq!(off_json[0]["name"], "lookup");
    assert!(off_json[0].get("type").is_none());

    let on = build_request(
        &conv,
        &RequestOptions {
            model: "vendor-sonnet-4-20250514".into(),
            tools: vec![tool("lookup")],
            web_search: true,
            ..Default::default()
        },
        false,
    );
    let on_json = on.to_value()["tools"].clone();
    assert_eq!(on_json.as_array().unwrap().len(), 2);
    assert_eq!(on_json[0]["name"], "lookup");
    assert_eq!(on_json[1]["type"], "web_search_20250305");
    assert_eq!(on_json[1]["name"], "web_search");
    // No client-style input_schema on the hosted tool.
    assert!(on_json[1].get("input_schema").is_none());
}

#[test]
fn web_search_off_emits_no_search_tool_when_tools_empty() {
    let conv = fresh();
    let body = build_request(
        &conv,
        &RequestOptions {
            model: "vendor-sonnet-4-20250514".into(),
            web_search: false,
            ..Default::default()
        },
        false,
    );
    assert!(body.tools.is_empty());
}

/// Default Auto + unset parallel omits tool_choice so existing callers
/// keep the historical wire shape (provider default = auto).
#[test]
fn tool_choice_auto_default_omits_field() {
    let conv = fresh();
    let body = build_request(
        &conv,
        &RequestOptions {
            model: "vendor-sonnet-4-20250514".into(),
            tools: vec![tool("play_move")],
            tool_choice: ToolChoice::Auto,
            parallel_tool_calls: None,
            ..Default::default()
        },
        false,
    );
    assert!(body.tool_choice.is_none());
    let json = body.to_value();
    assert!(json.get("tool_choice").is_none());
}

#[test]
fn tool_choice_tool_with_parallel_disabled() {
    let conv = fresh();
    let body = build_request(
        &conv,
        &RequestOptions {
            model: "vendor-sonnet-4-20250514".into(),
            tools: vec![tool("play_move")],
            tool_choice: ToolChoice::Tool("play_move".into()),
            parallel_tool_calls: Some(false),
            ..Default::default()
        },
        false,
    );
    let tc = body.tool_choice.as_ref().expect("tool_choice present");
    assert_eq!(tc.kind, "tool");
    assert_eq!(tc.name.as_deref(), Some("play_move"));
    assert_eq!(tc.disable_parallel_tool_use, Some(true));

    let json = body.to_value();
    assert_eq!(json["tool_choice"]["type"], "tool");
    assert_eq!(json["tool_choice"]["name"], "play_move");
    assert_eq!(json["tool_choice"]["disable_parallel_tool_use"], true);
}

#[test]
fn tool_choice_required_maps_to_any() {
    let conv = fresh();
    let body = build_request(
        &conv,
        &RequestOptions {
            model: "vendor-sonnet-4-20250514".into(),
            tool_choice: ToolChoice::Required,
            ..Default::default()
        },
        false,
    );
    let tc = body.tool_choice.expect("tool_choice present");
    assert_eq!(tc.kind, "any");
    assert!(tc.name.is_none());
    assert!(tc.disable_parallel_tool_use.is_none());
}

#[test]
fn tool_choice_none_and_auto_with_parallel_override() {
    let conv = fresh();
    let none_body = build_request(
        &conv,
        &RequestOptions {
            model: "vendor-sonnet-4-20250514".into(),
            tool_choice: ToolChoice::Never,
            ..Default::default()
        },
        false,
    );
    assert_eq!(none_body.tool_choice.as_ref().map(|t| t.kind), Some("none"));

    // Auto + parallel override still emits tool_choice so disable_parallel lands.
    let auto_parallel = build_request(
        &conv,
        &RequestOptions {
            model: "vendor-sonnet-4-20250514".into(),
            tool_choice: ToolChoice::Auto,
            parallel_tool_calls: Some(false),
            ..Default::default()
        },
        false,
    );
    let tc = auto_parallel.tool_choice.expect("tool_choice present");
    assert_eq!(tc.kind, "auto");
    assert_eq!(tc.disable_parallel_tool_use, Some(true));
}

/// Anthropic requires server_tool_use + web_search_tool_result (with
/// encrypted_content) echoed byte-faithfully on the next turn.
#[test]
fn multi_turn_resubmits_web_search_server_artifacts() {
    let mut conv = fresh();
    conv.push_user("latest news?");

    let server_tool_use = value(
        "{\"type\": \"server_tool_use\", \"id\": \"srvtoolu_1\", \"name\": \"web_search\", \"input\": {\"query\": \"latest news\"}}",
    );
    let search_result = value(
        "{\"type\": \"web_search_tool_result\", \"tool_use_id\": \"srvtoolu_1\", \"content\": [{\"type\": \"web_search_result\", \"url\": \"https://example.com\", \"title\": \"Example\", \"encrypted_content\": \"enc-search-blob-xyz\", \"page_age\": \"April 30, 2025\"}]}",
    );

    let resp = parse_response(wire::MessagesResponse {
        content: vec![
            server_tool_use.clone(),
            search_result.clone(),
            value("{\"type\": \"text\", \"text\": \"Here is the news.\"}"),
        ],
        stop_reason: Some("end_turn".into()),
        usage: wire::WireUsage::default(),
    })
    .unwrap();

    // Opaque reasoning path, not client tool_use / tool_result.
    assert!(matches!(
        &resp.message.content[0],
        ContentBlock::Reasoning(_)
    ));
    assert!(matches!(
        &resp.message.content[1],
        ContentBlock::Reasoning(_)
    ));

    // Round-trip each block through block_to_wire before multi-turn build.
    assert_eq!(block_to_wire(&resp.message.content[0]), server_tool_use);
    assert_eq!(block_to_wire(&resp.message.content[1]), search_result);

    conv.push_response(resp);
    conv.push_user("tell me more");

    let body = build_request(
        &conv,
        &RequestOptions {
            model: "vendor-sonnet-4-20250514".into(),
            web_search: true,
            ..Default::default()
        },
        false,
    );

    assert_eq!(body.messages.len(), 3);
    assert_eq!(body.messages[1].role, "assistant");
    assert_eq!(body.messages[1].content[0], server_tool_use);
    assert_eq!(body.messages[1].content[1], search_result);
    // encrypted_content must survive intact.
    assert_eq!(
        body.messages[1].content[1]["content"][0]["encrypted_content"],
        "enc-search-blob-xyz"
    );
    let tools_json = body.to_value()["tools"].clone();
    assert_eq!(tools_json[0]["type"], "web_search_20250305");
}

/// Signature fragments arrive separately from thinking text. Incomplete
/// reassembly only fails on the *next* turn with an opaque API 400.
#[test]
fn assembles_thinking_signature_and_text_into_done() {
    let mut assembler = Assembler::new();
    let events = feed(
        &mut assembler,
        vec![
            wire::StreamEvent::MessageStart {
                message: wire::StreamMessageStart {
                    usage: wire::WireUsage {
                        input_tokens: 12,
                        output_tokens: 0,
                        ..Default::default()
                    },
                },
            },
            start(0, "{\"type\": \"thinking\"}"),
            wire::StreamEvent::ContentBlockDelta {
                index: 0,
                delta: wire::Delta::ThinkingDelta {
                    thinking: "step ".into(),
                },
            },
            wire::StreamEvent::ContentBlockDelta {
                index: 0,
                delta: wire::Delta::ThinkingDelta {
                    thinking: "one".into(),
                },
            },
            wire::StreamEvent::ContentBlockDelta {
                index: 0,
                delta: wire::Delta::SignatureDelta {
                    signature: "sig-".into(),
                },
            },
            wire::StreamEvent::ContentBlockDelta {
                index: 0,
                delta: wire::Delta::SignatureDelta {
                    signature: "final".into(),
                },
            },
            wire::StreamEvent::ContentBlockStop { index: 0 },
            start(1, "{\"type\": \"text\"}"),
            wire::StreamEvent::ContentBlockDelta {
                index: 1,
                delta: wire::Delta::TextDelta {
                    text: "hello".into(),
                },
            },
            wire::StreamEvent::ContentBlockStop { index: 1 },
            wire::StreamEvent::MessageDelta {
                delta: wire::MessageDeltaBody {
                    stop_reason: Some("end_turn".into()),
                },
                usage: Some(wire::WireUsage {
                    input_tokens: 0,
                    output_tokens: 9,
                    ..Default::default()
                }),
            },
            wire::StreamEvent::MessageStop,
        ],
    );

    let deltas: Vec<&str> = events
        .iter()
        .filter_map(|e| match e {
            Event::TextDelta(t) => Some(t.as_str()),
            Event::ReasoningDelta(t) => Some(t.as_str()),
            _ => None,
        })
        .collect();
    assert_eq!(deltas, ["step ", "one", "hello"]);

    let Event::Done(resp) = events.last().unwrap() else {
        panic!("expected Done");
    };
    assert_eq!(resp.provider, ProviderKind::Anthropic);
    assert_eq!(resp.stop_reason, StopReason::EndTurn);
    assert_eq!(resp.usage.input_tokens, 12);
    assert_eq!(resp.usage.output_tokens, 9);
    assert_eq!(resp.message.content.len(), 2);

    match &resp.message.content[0] {
        ContentBlock::Reasoning(r) => {
            assert_eq!(r.summary.as_deref(), Some("step one"));
            assert_eq!(r.payload.0["signature"], "sig-final");
            assert_eq!(r.payload.0["thinking"], "step one");
        }
        other => panic!("expected thinking, got {other:?}"),
    }
    match &resp.message.content[1] {
        ContentBlock::Text(t) => assert_eq!(t.text, "hello"),
        other => panic!("expected text, got {other:?}"),
    }
}

#[test]
fn assembles_fragmented_tool_input_json() {
    let mut assembler = Assembler::new();
    let events = feed(
        &mut assembler,
        vec![
            wire::StreamEvent::MessageStart {
                message: wire::StreamMessageStart {
                    usage: wire::WireUsage::default(),
                },
            },
            start(
                0,
                "{\"type\": \"tool_use\", \"id\": \"toolu_9\", \"name\": \"search\"}",
            ),
            wire::StreamEvent::ContentBlockDelta {
                index: 0,
                delta: wire::Delta::InputJsonDelta {
                    partial_json: r#"{"q":""#.into(),
                },
            },
            wire::StreamEvent::ContentBlockDelta {
                index: 0,
                delta: wire::Delta::InputJsonDelta {
                    partial_json: r#"hi"}"#.into(),
                },
            },
            wire::StreamEvent::ContentBlockStop { index: 0 },
            wire::StreamEvent::MessageDelta {
                delta: wire::MessageDeltaBody {
                    stop_reason: Some("tool_use".into()),
                },
                usage: None,
            },
            wire::StreamEvent::MessageStop,
        ],
    );

    assert!(matches!(
        &events[0],
        Event::ToolUseStart { id, name }
            if id == "toolu_9" && name == "search"
    ));
    assert!(matches!(
        &events[1],
        Event::ToolInputDelta { id, json_fragment }
            if id == "toolu_9" && json_fragment == r#"{"q":""#
    ));

    let Event::Done(resp) = events.last().unwrap() else {
        panic!("expected Done");
    };
    assert_eq!(resp.stop_reason, StopReason::ToolUse);
    match &resp.message.content[0] {
        ContentBlock::ToolUse(t) => {
            assert_eq!(t.id, "toolu_9");
            assert_eq!(t.name, "search");
            assert_eq!(t.input, value("{\"q\": \"hi\"}"));
        }
        other => panic!("expected tool_use, got {other:?}"),
    }
}

#[test]
fn stream_error_event_surfaces_as_http_error() {
    let mut assembler = Assembler::new();
    let err = assembler
        .handle(wire::StreamEvent::Error {
            error: wire::ApiError {
                kind: "overloaded_error".into(),
                message: "try again".into(),
            },
        })
        .unwrap_err();
    match err {
        Error::Http { message, .. } => {
            assert!(message.contains("overloaded_error"));
            assert!(message.contains("try again"));
            assert_eq!(message, "overloaded_error: try again");
        }
        other => panic!("expected Http, got {other:?}"),
    }
}

#[test]
fn tool_input_may_be_empty_but_not_broken() {
    let mut assembler = Assembler::new();
    feed(
        &mut assembler,
        vec![start(0, "{\"type\": \"tool_use\", \"id\": \"t\", \"name\": \"n\"}")],
    );
    let events = feed(&mut assembler, vec![wire::StreamEvent::MessageStop]);
    let Event::Done(resp) = &events[0] else {
        panic!("expected Done");
    };
    assert!(
        matches!(&resp.message.content[0], ContentBlock::ToolUse(t) if t.input == value("{}"))
    );
    assert_eq!(resp.stop_reason, StopReason::Other(String::new()));

    let mut assembler = Assembler::new();
    feed(
        &mut assembler,
        vec![
            start(0, "{\"type\": \"tool_use\", \"id\": \"t\", \"name\": \"n\"}"),
            wire::StreamEvent::ContentBlockDelta {
                index: 0,
                delta: wire::Delta::InputJsonDelta {
                    partial_json: "{\"q\":".into(),
                },
            },
        ],
    );
    assert!(matches!(
        assembler.handle(wire::StreamEvent::MessageStop),
        Err(Error::Deserialize(_))
    ));
    // The blocks are gone with the failed turn.
    let events = feed(&mut assembler, vec![wire::StreamEvent::MessageStop]);
    assert!(matches!(&events[0], Event::Done(r) if r.message.content.is_empty()));
}

#[test]
fn closing_a_tool_call_depends_on_its_parsed_input() {
    let announced = || {
        value("{\"type\":\"tool_use\",\"caller\":\"direct\",\"id\":\"i\",\"name\":\"n\",\"input\":{\"a\":0}}")
    };
    let ok = close_tool_use(announced(), Some(Ok(value("[1]")))).unwrap();
    assert_eq!(
        ok,
        value(
            "{\"type\":\"tool_use\",\"caller\":\"direct\",\"id\":\"i\",\"name\":\"n\",\"input\":[1]}"
        )
    );
    assert!(matches!(
        close_tool_use(announced(), Some(Err("eof".into()))),
        Err(Error::Deserialize(m)) if m == "eof"
    ));
    let empty = close_tool_use(announced(), None).unwrap();
    assert_eq!(empty["input"], value("{}"));
}

#[test]
fn skipped_and_misdirected_stream_parts_are_dropped() {
    let mut assembler = Assembler::new();
    let raw = "{\"type\": \"server_tool_use\", \"id\": \"s\"}";
    let events = feed(
        &mut assembler,
        vec![
            start(2, "{\"type\": \"text\"}"),
            start(3, raw),
            // No such block, and a delta of another kind.
            wire::StreamEvent::ContentBlockDelta {
                index: 9,
                delta: wire::Delta::TextDelta { text: "lost".into() },
            },
            wire::StreamEvent::ContentBlockDelta {
                index: 2,
                delta: wire::Delta::ThinkingDelta {
                    thinking: "lost".into(),
                },
            },
            wire::StreamEvent::ContentBlockDelta {
                index: 2,
                delta: wire::Delta::TextDelta { text: "kept".into() },
            },
            wire::StreamEvent::ContentBlockDelta {
                index: 0,
                delta: wire::Delta::Other,
            },
            wire::StreamEvent::Ping,
            wire::StreamEvent::Other,
            wire::StreamEvent::MessageStop,
        ],
    );
    assert_eq!(events.len(), 2);
    assert!(matches!(&events[0], Event::TextDelta(t) if t == "kept"));
    let Event::Done(resp) = &events[1] else {
        panic!("expected Done");
    };
    assert_eq!(resp.message.content.len(), 2);
    assert!(matches!(&resp.message.content[0], ContentBlock::Text(t) if t.text == "kept"));
    assert_eq!(block_to_wire(&resp.message.content[1]), value(raw));
}

#[test]
fn streamed_and_whole_replies_make_the_same_turn() {
    let whole = parse_response(wire::MessagesResponse {
        content: vec![
            value("{\"type\":\"thinking\",\"thinking\":\"ab\",\"signature\":\"xy\"}"),
            value("{\"type\":\"text\",\"text\":\"hello\"}"),
            value("{\"type\":\"tool_use\",\"id\":\"t\",\"name\":\"n\",\"input\":{\"q\":[1,2]}}"),
        ],
        stop_reason: Some("max_tokens".into()),
        usage: wire::WireUsage {
            input_tokens: 1,
            output_tokens: 2,
            cache_creation_input_tokens: 3,
            cache_read_input_tokens: 4,
        },
    })
    .unwrap();

    let mut assembler = Assembler::new();
    let mut items = assembler.step(Ok(wire::StreamEvent::MessageStart {
        message: wire::StreamMessageStart {
            usage: wire::WireUsage {
                input_tokens: 1,
                output_tokens: 0,
                cache_creation_input_tokens: 3,
                cache_read_input_tokens: 4,
            },
        },
    }));
    assert!(items.is_empty());
    let rest = vec![
        start(0, "{\"type\":\"thinking\",\"thinking\":\"\",\"signature\":\"\"}"),
        wire::StreamEvent::ContentBlockDelta {
            index: 0,
            delta: wire::Delta::ThinkingDelta { thinking: "a".into() },
        },
        start(1, "{\"type\":\"text\",\"text\":\"\"}"),
        wire::StreamEvent::ContentBlockDelta {
            index: 0,
            delta: wire::Delta::SignatureDelta { signature: "x".into() },
        },
        wire::StreamEvent::ContentBlockDelta {
            index: 1,
            delta: wire::Delta::TextDelta { text: "hel".into() },
        },
        wire::StreamEvent::ContentBlockDelta {
            index: 0,
            delta: wire::Delta::ThinkingDelta { thinking: "b".into() },
        },
        wire::StreamEvent::ContentBlockDelta {
            index: 0,
            delta: wire::Delta::SignatureDelta { signature: "y".into() },
        },
        wire::StreamEvent::ContentBlockDelta {
            index: 1,
            delta: wire::Delta::TextDelta { text: "lo".into() },
        },
        start(2, "{\"type\":\"tool_use\",\"id\":\"t\",\"name\":\"n\",\"input\":{}}"),
        wire::StreamEvent::ContentBlockDelta {
            index: 2,
            delta: wire::Delta::InputJsonDelta { partial_json: "{\"q\":[1".into() },
        },
        wire::StreamEvent::ContentBlockDelta {
            index: 2,
            delta: wire::Delta::InputJsonDelta { partial_json: ",2]}".into() },
        },
        wire::StreamEvent::MessageDelta {
            delta: wire::MessageDeltaBody { stop_reason: Some("max_tokens".into()) },
            usage: Some(wire::WireUsage { output_tokens: 2, ..Default::default() }),
        },
        wire::StreamEvent::MessageStop,
    ];
    for ev in rest {
        items.extend(assembler.step(Ok(ev)));
    }
    match items.pop() {
        Some(Ok(Event::Done(resp))) => assert_eq!(resp, whole),
        other => panic!("expected Done, got {other:?}"),
    }
    assert_eq!(whole.usage.total_input_tokens(), 8);
}

#[test]
fn faults_do_not_disturb_the_blocks_in_flight() {
    let mut assembler = Assembler::new();
    assembler.step(Ok(start(0, "{\"type\":\"text\"}")));
    let items = assembler.step(Err(Fault::Malformed("bad".into())));
    assert!(matches!(&items[..], [Err(Error::Deserialize(m))] if m == "bad"));
    assembler.step(Ok(wire::StreamEvent::ContentBlockDelta {
        index: 0,
        delta: wire::Delta::TextDelta { text: "on".into() },
    }));
    let items = assembler.step(Ok(wire::StreamEvent::MessageStop));
    match &items[..] {
        [Ok(Event::Done(r))] => {
            assert!(matches!(&r.message.content[0], ContentBlock::Text(t) if t.text == "on"))
        }
        other => panic!("expected Done, got {other:?}"),
    }
    let items = assembler.step(Ok(wire::StreamEvent::ContentBlockStop { index: 0 }));
    assert!(matches!(&items[..], [Ok(Event::BlockEnd)]));
}

#[test]
fn stop_reasons_are_collapsed() {
    assert_eq!(map_stop_reason(Some("end_turn")), StopReason::EndTurn);
    assert_eq!(map_stop_reason(Some("tool_use")), StopReason::ToolUse);
    assert_eq!(map_stop_reason(Some("max_tokens")), StopReason::MaxTokens);
    assert_eq!(map_stop_reason(Some("refusal")), StopReason::Refusal);
    assert_eq!(map_stop_reason(Some("pause_turn")), StopReason::Other("pause_turn".into()));
    assert_eq!(map_stop_reason(None), StopReason::Other(String::new()));
}

#[test]
fn incomplete_wire_blocks_are_filled_in() {
    let text = wire_block_to_agnostic(value("{\"type\":\"text\"}")).unwrap();
    assert!(matches!(&text, ContentBlock::Text(t) if t.text.is_empty()));
    assert_eq!(block_to_wire(&text), value("{\"type\":\"text\"}"));
    let call = wire_block_to_agnostic(value("{\"type\":\"tool_use\"}")).unwrap();
    assert!(
        matches!(&call, ContentBlock::ToolUse(t) if t.id.is_empty() && t.name.is_empty() && t.input.is_null())
    );
    assert_eq!(block_to_wire(&call), value("{\"type\":\"tool_use\"}"));
    let thinking = wire_block_to_agnostic(value("{\"type\":\"thinking\",\"thinking\":\"\"}")).unwrap();
    assert!(matches!(&thinking, ContentBlock::Reasoning(r) if r.summary.is_none()));
    // Not even an object: kept all the same.
    let odd = wire_block_to_agnostic(value("7")).unwrap();
    assert_eq!(block_to_wire(&odd), value("7"));
}

#[test]
fn whole_request_has_the_documented_shape() {
    let mut conv = fresh();
    conv.push_user("hi");
    let body = build_request(
        &conv,
        &RequestOptions {
            model: "opus".into(),
            system: Some("be brief".into()),
            tools: vec![tool("lookup")],
            max_tokens: Some(10),
            temperature: Some(value("0.5")),
            ..Default::default()
        },
        true,
    )
    .to_value();
    assert_eq!(
        body,
        value(
            "{\"model\":\"opus\",\"max_tokens\":10,\
             \"messages\":[{\"role\":\"user\",\"content\":[{\"type\":\"text\",\"text\":\"hi\"}]}],\
             \"system\":\"be brief\",\
             \"tools\":[{\"name\":\"lookup\",\"description\":\"d\",\"input_schema\":{\"type\":\"object\"}}],\
             \"temperature\":0.5,\
             \"thinking\":{\"type\":\"adaptive\",\"display\":\"summarized\"},\
             \"output_config\":{\"effort\":\"medium\"},\
             \"cache_control\":{\"type\":\"ephemeral\"},\
             \"stream\":true}"
        )
    );
}

#[test]
fn default_options_keep_the_plain_wire_shape() {
    let body = build_request(&fresh(), &RequestOptions::default(), false).to_value();
    assert_eq!(
        body,
        value(
            "{\"model\":\"\",\"max_tokens\":64000,\"messages\":[],\
             \"thinking\":{\"type\":\"adaptive\",\"display\":\"summarized\"},\
             \"output_config\":{\"effort\":\"medium\"},\
             \"cache_control\":{\"type\":\"ephemeral\"}}"
        )
    );
}

#[test]
fn volatile_mark_moves_the_cache_breakpoint_before_it() {
    let mut conv = fresh();
    conv.push_user("rules");
    conv.push_volatile_user("FAT 1").unwrap();
    let marker = value("{\"type\":\"ephemeral\"}");

    let body = build_request(&conv, &RequestOptions::default(), false);
    assert!(body.cache_control.is_none());
    assert_eq!(body.messages[0].content[0]["cache_control"], marker);
    assert_eq!(body.messages[0].content[0]["text"], "rules");
    assert!(body.messages[1].content[0].get("cache_control").is_none());
    assert!(body.to_value().get("cache_control").is_none());

    // The breakpoint moves on with the tail.
    conv.push_user("reply stands here");
    conv.rotate_volatile_user("stub 1", "FAT 2");
    let body = build_request(&conv, &RequestOptions::default(), false);
    assert!(body.messages[0].content[0].get("cache_control").is_none());
    assert_eq!(body.messages[1].content[0]["text"], "stub 1");
    assert_eq!(body.messages[2].content[0]["cache_control"], marker);
    assert!(body.messages[3].content[0].get("cache_control").is_none());

    // A volatile message at the very start has nothing before it.
    let mut conv = fresh();
    conv.push_volatile_user("FAT").unwrap();
    let body = build_request(&conv, &RequestOptions::default(), false);
    assert!(body.cache_control.is_none());
    assert!(body.messages[0].content[0].get("cache_control").is_none());

    // Without a mark the whole prompt is cached again.
    conv.demote_volatile("stub").unwrap();
    let body = build_request(&conv, &RequestOptions::default(), false);
    assert_eq!(body.cache_control.map(|c| c.kind), Some("ephemeral"));
}

#[test]
fn requested_breakpoint_counts_from_the_end() {
    let mut conv = fresh();
    conv.push_user("a");
    conv.push_user("b");
    conv.push_user("c");
    let ask = |n: usize| RequestOptions {
        cache_breakpoint_from_end: Some(n),
        ..Default::default()
    };
    for n in 0..3 {
        let body = build_request(&conv, &ask(n), false);
        assert!(body.cache_control.is_none());
        for i in 0..3 {
            assert_eq!(
                body.messages[i].content[0].get("cache_control").is_some(),
                i == 2 - n
            );
        }
    }
    // Out of range: the whole prompt, as if nothing had been asked for.
    for n in [3, usize::MAX] {
        let body = build_request(&conv, &ask(n), false);
        assert_eq!(
            body.to_value(),
            build_request(&conv, &RequestOptions::default(), false).to_value()
        );
    }
}

#[test]
fn breakpoints_go_on_the_last_block_of_a_message() {
    let payload = value("{\"type\":\"thinking\",\"thinking\":\"t\",\"signature\":\"s\"}");
    let message = Message {
        role: Role::Assistant,
        content: vec![
            ContentBlock::Text(TextBlock::new("one")),
            ContentBlock::Reasoning(ReasoningBlock {
                provider: ProviderKind::Anthropic,
                payload: OpaquePayload(payload.clone()),
                summary: None,
            }),
        ],
    };
    let plain = message_to_wire(&message, false);
    assert_eq!(plain.role, "assistant");
    assert_eq!(plain.content[1], payload);
    let marked = message_to_wire(&message, true);
    assert_eq!(marked.content[0], plain.content[0]);
    assert_eq!(
        marked.content[1],
        value(
            "{\"type\":\"thinking\",\"thinking\":\"t\",\"signature\":\"s\",\"cache_control\":{\"type\":\"ephemeral\"}}"
        )
    );
    // A message without blocks, and a block that is no object, have no place
    // for one.
    let empty = Message { role: Role::User, content: vec![] };
    assert!(message_to_wire(&empty, true).content.is_empty());
    let odd = Message {
        role: Role::Assistant,
        content: vec![wire_block_to_agnostic(value("\"x\"")).unwrap()],
    };
    assert_eq!(message_to_wire(&odd, true).content[0], value("\"x\""));
}

#[test]
fn streaming_adds_one_member_to_a_request() {
    let mut conv = fresh();
    conv.push_user("hi");
    let whole = build_request(&conv, &opts("vendor-sonnet-4-20250514"), false).to_value();
    let mut streamed = build_request(&conv, &opts("vendor-sonnet-4-20250514"), true).to_value();
    assert_eq!(streamed["stream"], true);
    streamed.as_object_mut().unwrap().remove("stream");
    assert_eq!(streamed, whole);
}

#[test]
fn resubmitted_blocks_are_understood_as_before() {
    let blocks = [
        "{\"type\":\"text\",\"text\":\"t\",\"citations\":[1]}",
        "{\"type\":\"tool_use\",\"id\":\"i\",\"name\":\"n\",\"input\":{\"a\":1},\"extra\":2}",
        "{\"type\":\"thinking\",\"thinking\":\"t\",\"signature\":\"s\"}",
        "{\"no\":\"type\"}",
        "null",
    ];
    for text in blocks {
        let once = wire_block_to_agnostic(value(text)).unwrap();
        assert_eq!(block_to_wire(&once), value(text));
        let twice = wire_block_to_agnostic(block_to_wire(&once)).unwrap();
        assert_eq!(once, twice);
    }
}

#[test]
fn parallel_control_always_arrives() {
    let conv = fresh();
    let choices = [
        (ToolChoice::Auto, "auto"),
        (ToolChoice::Required, "any"),
        (ToolChoice::Tool("t".into()), "tool"),
        (ToolChoice::Never, "none"),
    ];
    for (choice, kind) in choices {
        for parallel in [true, false] {
            let o = RequestOptions {
                tool_choice: choice.clone(),
                parallel_tool_calls: Some(parallel),
                ..Default::default()
            };
            let tc = build_request(&conv, &o, false).tool_choice.unwrap();
            assert_eq!(tc.kind, kind);
            assert_eq!(tc.disable_parallel_tool_use, Some(!parallel));
        }
    }
}

#[test]
fn both_breakpoints_may_stand_side_by_side() {
    let mut conv = fresh();
    conv.push_user("a");
    conv.push_user("b");
    conv.push_user("c");
    conv.push_volatile_user("FAT").unwrap();
    let o = RequestOptions {
        cache_breakpoint_from_end: Some(3),
        ..Default::default()
    };
    let body = build_request(&conv, &o, false);
    assert!(body.cache_control.is_none());
    let marked: Vec<bool> = body
        .messages
        .iter()
        .map(|m| m.content[0].get("cache_control").is_some())
        .collect();
    assert_eq!(marked, [true, false, true, false]);
}

/// The model's family is told by a part of its name, wherever it stands.
#[test]
fn budget_models_are_told_by_a_part_of_their_name() {
    let conv = fresh();
    for model in [
        "haiku-4-5",
        "vendor-haiku-4-5-20251001",
        "eu.vendor.haiku-4-5-v1:0",
        "x-haiku-4-haiku-4-5",
    ] {
        let body = build_request(&conv, &opts(model), false);
        assert!(matches!(
            body.thinking,
            Some(wire::Thinking::Enabled {
                budget_tokens: 32_768
            })
        ));
    }
    for model in ["", "haiku-4", "haiku-4.5", "vendor-haiku-4-6", "aiku-4-5"] {
        let body = build_request(&conv, &opts(model), false);
        assert!(matches!(body.thinking, Some(wire::Thinking::Adaptive { .. })));
    }
}

/// A call that the provider hosts goes back with the input it was made with.
#[test]
fn streamed_hosted_calls_keep_their_input() {
    let call = "{\"type\":\"server_tool_use\",\"id\":\"srvtoolu_1\",\"name\":\"web_search\",\"input\":{\"query\":\"latest news\"}}";
    let result = "{\"type\":\"web_search_tool_result\",\"tool_use_id\":\"srvtoolu_1\",\"content\":[{\"encrypted_content\":\"enc\"}]}";
    let whole = parse_response(wire::MessagesResponse {
        content: vec![value(call), value(result)],
        stop_reason: Some("end_turn".into()),
        usage: wire::WireUsage::default(),
    })
    .unwrap();

    let mut assembler = Assembler::new();
    let events = feed(
        &mut assembler,
        vec![
            start(
                0,
                "{\"type\":\"server_tool_use\",\"id\":\"srvtoolu_1\",\"name\":\"web_search\",\"input\":{}}",
            ),
            input_delta(0, ""),
            input_delta(0, "{\"query\":\"late"),
            input_delta(0, "st news\"}"),
            wire::StreamEvent::ContentBlockStop { index: 0 },
            start(1, result),
            wire::StreamEvent::ContentBlockStop { index: 1 },
            wire::StreamEvent::MessageDelta {
                delta: wire::MessageDeltaBody {
                    stop_reason: Some("end_turn".into()),
                },
                usage: None,
            },
            wire::StreamEvent::MessageStop,
        ],
    );
    // The provider runs the call itself: nothing of it is passed on.
    assert_eq!(events.len(), 3);
    assert!(matches!(&events[0], Event::BlockEnd));
    let Event::Done(resp) = &events[2] else {
        panic!("expected Done");
    };
    assert_eq!(resp, &whole);

    let mut conv = fresh();
    conv.push_response(resp.clone());
    let body = build_request(&conv, &RequestOptions::default(), false);
    assert_eq!(body.messages[0].content[0], value(call));
    assert_eq!(body.messages[0].content[1], value(result));
}

/// A turn that is cut off inside a hosted call is still a turn; one that is cut
/// off inside a call to the caller's own tool is not.
#[test]
fn hosted_calls_that_are_cut_off_do_not_cost_the_turn() {
    let announced = "{\"type\":\"server_tool_use\",\"id\":\"s\",\"input\":{}}";
    let mut assembler = Assembler::new();
    let events = feed(
        &mut assembler,
        vec![
            start(0, "{\"type\":\"text\"}"),
            wire::StreamEvent::ContentBlockDelta {
                index: 0,
                delta: wire::Delta::TextDelta { text: "let me look".into() },
            },
            start(1, announced),
            input_delta(1, "{\"query\":"),
            start(2, "null"),
            input_delta(2, "{"),
            wire::StreamEvent::MessageDelta {
                delta: wire::MessageDeltaBody {
                    stop_reason: Some("max_tokens".into()),
                },
                usage: None,
            },
            wire::StreamEvent::MessageStop,
        ],
    );
    let Event::Done(resp) = events.last().unwrap() else {
        panic!("expected Done");
    };
    assert_eq!(resp.stop_reason, StopReason::MaxTokens);
    assert_eq!(resp.message.content.len(), 2);
    assert!(matches!(&resp.message.content[0], ContentBlock::Text(t) if t.text == "let me look"));
    assert_eq!(block_to_wire(&resp.message.content[1]), value(announced));

    let mut assembler = Assembler::new();
    feed(
        &mut assembler,
        vec![
            start(0, announced),
            start(1, "{\"type\":\"tool_use\",\"id\":\"t\",\"name\":\"n\"}"),
            input_delta(1, "{\"query\":"),
        ],
    );
    assert!(matches!(
        assembler.handle(wire::StreamEvent::MessageStop),
        Err(Error::Deserialize(_))
    ));
}

#[test]
fn closing_a_hosted_call_depends_on_its_parsed_input() {
    let block = || value("{\"type\":\"server_tool_use\",\"input\":{}}");
    assert_eq!(close_raw(block(), None), Some(block()));
    assert_eq!(
        close_raw(block(), Some(Ok(value("3")))),
        Some(value("{\"type\":\"server_tool_use\",\"input\":3}"))
    );
    assert_eq!(close_raw(block(), Some(Err("eof".into()))), Some(block()));
    assert_eq!(close_raw(value("7"), Some(Ok(value("3")))), Some(value("7")));
    assert_eq!(close_raw(value("null"), None), None);
    assert_eq!(close_raw(value("null"), Some(Ok(value("3")))), None);
}

/// Members beyond the shared ones belong to the provider and come back to it,
/// streamed or not.
#[test]
fn citations_and_other_members_round_trip() {
    let text = "{\"type\":\"text\",\"text\":\"sky\",\"citations\":[{\"n\":1},{\"n\":2}]}";
    let call = "{\"type\":\"tool_use\",\"id\":\"t\",\"name\":\"n\",\"input\":{\"a\":1},\"caller\":{\"type\":\"direct\"}}";
    let whole = parse_response(wire::MessagesResponse {
        content: vec![value(text), value(call)],
        stop_reason: None,
        usage: wire::WireUsage::default(),
    })
    .unwrap();
    assert!(
        matches!(&whole.message.content[0], ContentBlock::Text(t) if t.text == "sky" && t.extras.is_some())
    );
    assert_eq!(block_to_wire(&whole.message.content[0]), value(text));
    assert_eq!(block_to_wire(&whole.message.content[1]), value(call));

    let mut assembler = Assembler::new();
    let cite = |n: &str| wire::StreamEvent::ContentBlockDelta {
        index: 0,
        delta: wire::Delta::CitationsDelta { citation: value(n) },
    };
    let events = feed(
        &mut assembler,
        vec![
            start(0, "{\"type\":\"text\",\"text\":\"\",\"citations\":[]}"),
            cite("{\"n\":1}"),
            wire::StreamEvent::ContentBlockDelta {
                index: 0,
                delta: wire::Delta::TextDelta { text: "sky".into() },
            },
            cite("{\"n\":2}"),
            start(
                1,
                "{\"type\":\"tool_use\",\"id\":\"t\",\"name\":\"n\",\"input\":{},\"caller\":{\"type\":\"direct\"}}",
            ),
            input_delta(1, "{\"a\":1}"),
            wire::StreamEvent::MessageStop,
        ],
    );
    let Event::Done(resp) = events.last().unwrap() else {
        panic!("expected Done");
    };
    assert_eq!(resp, &whole);
}

#[test]
fn plain_blocks_carry_no_wire_form() {
    let text = wire_block_to_agnostic(value("{\"type\":\"text\",\"text\":\"t\"}")).unwrap();
    assert_eq!(text, ContentBlock::Text(TextBlock::new("t")));
    let call = wire_block_to_agnostic(value(
        "{\"type\":\"tool_use\",\"id\":\"i\",\"name\":\"n\",\"input\":null}",
    ))
    .unwrap();
    assert_eq!(
        call,
        ContentBlock::ToolUse(ToolUseBlock::new("i", "n", serde_json::Value::Null))
    );
}

#[test]
fn what_is_passed_on_adds_up_to_the_blocks() {
    let mut assembler = Assembler::new();
    let text = |t: &str| wire::StreamEvent::ContentBlockDelta {
        index: 0,
        delta: wire::Delta::TextDelta { text: t.into() },
    };
    let events = feed(
        &mut assembler,
        vec![
            start(0, "{\"type\":\"text\"}"),
            start(1, "{\"type\":\"tool_use\",\"id\":\"t\",\"name\":\"n\"}"),
            text("a"),
            input_delta(1, "[1,"),
            text("b"),
            input_delta(1, "2]"),
            input_delta(0, "lost"),
            text("c"),
            wire::StreamEvent::MessageStop,
        ],
    );
    let mut said = String::new();
    let mut input = String::new();
    for event in &events {
        match event {
            Event::TextDelta(t) => said.push_str(t),
            Event::ToolInputDelta { json_fragment, .. } => input.push_str(json_fragment),
            _ => {}
        }
    }
    let Event::Done(resp) = events.last().unwrap() else {
        panic!("expected Done");
    };
    assert!(matches!(&resp.message.content[0], ContentBlock::Text(t) if t.text == said));
    assert!(
        matches!(&resp.message.content[1], ContentBlock::ToolUse(t) if t.input == value(&input))
    );
}
