use hydrogen::openai::adapter::{
    block_to_input, build_request, map_error, map_stop_reason, message_to_input, parse_response,
    wire_item_to_agnostic,
};
use hydrogen::openai::sse::Assembler;
use hydrogen::openai::wire;
use hydrogen::responses::adapter::tool_call;
use hydrogen::types::content::{ContentBlock, TextBlock, ToolOutput, ToolUseBlock};
use hydrogen::types::conversation::{Conversation, Message, ProviderKind, Role};
use hydrogen::types::request::{RequestOptions, ThinkingEffort, ToolDef};
use hydrogen::types::response::StopReason;
use hydrogen::types::streaming::{Event, Fault};
use hydrogen::Error;

fn value(text: &str) -> serde_json::Value {
    serde_json::from_str(text).unwrap()
}

fn fresh() -> Conversation {
    Conversation::new(1_700_000_000_000_000_000, 0)
}

fn gpt() -> RequestOptions {
    RequestOptions {
        model: "gpt-5".into(),
        ..Default::default()
    }
}

fn reply(output: Vec<serde_json::Value>, status: &str, reason: Option<&str>) -> wire::ResponsesResponse {
    wire::ResponsesResponse {
        output,
        status: status.into(),
        usage: wire::WireUsage::default(),
        incomplete_details: reason.map(|r| wire::IncompleteDetails { reason: r.into() }),
    }
}

fn feed(assembler: &mut Assembler, events: Vec<wire::StreamEvent>) -> Vec<Event> {
    let mut out = Vec::new();
    for ev in events {
        out.extend(assembler.handle(ev).unwrap());
    }
    out
}

fn added(output_index: usize, item: &str) -> wire::StreamEvent {
    wire::StreamEvent::OutputItemAdded {
        output_index,
        item: value(item),
    }
}

/// Encrypted reasoning must be resubmitted byte-for-byte. Rebuilding from a
/// summary alone fails on the next turn with opaque provider errors.
#[test]
fn reasoning_item_round_trips_via_payload() {
    let wire = value(
        "{\"type\": \"reasoning\", \"id\": \"rs_1\", \"encrypted_content\": \"enc-blob\", \"summary\": [{\"type\": \"summary_text\", \"text\": \"brief\"}]}",
    );
    let block = wire_item_to_agnostic(wire.clone()).unwrap();
    match &block {
        ContentBlock::Reasoning(r) => {
            assert_eq!(r.provider, ProviderKind::OpenAi);
            assert_eq!(r.summary.as_deref(), Some("brief"));
            assert_eq!(r.payload.0, wire);
        }
        other => panic!("expected reasoning, got {other:?}"),
    }
    assert_eq!(block_to_input(&block), wire);
}

#[test]
fn message_and_function_call_prefer_stored_extras_on_resubmit() {
    let msg_wire = value(
        "{\"type\": \"message\", \"id\": \"msg_1\", \"role\": \"assistant\", \"status\": \"completed\", \"content\": [{\"type\": \"output_text\", \"text\": \"hi\"}]}",
    );
    let fc_wire = value(
        "{\"type\": \"function_call\", \"id\": \"fc_1\", \"call_id\": \"call_1\", \"name\": \"lookup\", \"arguments\": \"{\\\"q\\\":\\\"x\\\"}\", \"status\": \"completed\"}",
    );

    let msg = wire_item_to_agnostic(msg_wire.clone()).unwrap();
    let fc = wire_item_to_agnostic(fc_wire.clone()).unwrap();

    match &msg {
        ContentBlock::Text(t) => assert_eq!(t.text, "hi"),
        other => panic!("expected text, got {other:?}"),
    }
    match &fc {
        ContentBlock::ToolUse(t) => {
            assert_eq!(t.id, "call_1");
            assert_eq!(t.input, value("{\"q\": \"x\"}"));
        }
        other => panic!("expected tool use, got {other:?}"),
    }

    // Round-trip must use extras, not a reconstructed skeleton missing ids.
    assert_eq!(block_to_input(&msg), msg_wire);
    assert_eq!(block_to_input(&fc), fc_wire);
}

/// Tool loop layout is easy to get wrong: function_call_output is a top-level
/// input item (not nested under a user role message).
#[test]
fn multi_turn_input_flattens_tool_results_and_preserves_reasoning() {
    let mut conv = fresh();
    conv.push_user("search something");

    let resp = parse_response(wire::ResponsesResponse {
        output: vec![
            value("{\"type\": \"reasoning\", \"id\": \"rs_1\", \"encrypted_content\": \"enc\", \"summary\": []}"),
            value("{\"type\": \"function_call\", \"call_id\": \"call_9\", \"name\": \"search\", \"arguments\": \"{\\\"q\\\":\\\"rust\\\"}\", \"status\": \"completed\"}"),
        ],
        status: "completed".into(),
        usage: wire::WireUsage {
            input_tokens: 3,
            output_tokens: 7,
            ..Default::default()
        },
        incomplete_details: None,
    })
    .unwrap();

    assert_eq!(resp.stop_reason, StopReason::ToolUse);
    assert_eq!(resp.provider, ProviderKind::OpenAi);
    conv.push_response(resp);
    conv.push_tool_result("call_9", ToolOutput::Text("docs".into()));

    let body = build_request(&conv, &gpt(), false);

    // user text, reasoning, function_call, function_call_output
    assert_eq!(body.input.len(), 4);
    assert_eq!(body.input[0]["role"], "user");
    assert_eq!(body.input[1]["type"], "reasoning");
    assert_eq!(body.input[1]["encrypted_content"], "enc");
    assert_eq!(body.input[2]["type"], "function_call");
    assert_eq!(body.input[2]["call_id"], "call_9");
    assert_eq!(body.input[3]["type"], "function_call_output");
    assert_eq!(body.input[3]["call_id"], "call_9");
    assert_eq!(body.input[3]["output"], "docs");

    assert!(!body.store);
    assert!(body.includes.contains(&"reasoning.encrypted_content"));
    assert_eq!(body.prompt_cache_key, conv.cache_key());
}

#[test]
fn stop_reason_incomplete_max_tokens() {
    let wire = wire::ResponsesResponse {
        output: vec![value(
            "{\"type\": \"message\", \"role\": \"assistant\", \"content\": [{\"type\": \"output_text\", \"text\": \"partial\"}]}",
        )],
        status: "incomplete".into(),
        usage: wire::WireUsage::default(),
        incomplete_details: Some(wire::IncompleteDetails {
            reason: "max_output_tokens".into(),
        }),
    };
    assert_eq!(map_stop_reason(&wire), StopReason::MaxTokens);
}

#[test]
fn function_call_forces_tool_use_even_when_status_completed() {
    let wire = wire::ResponsesResponse {
        output: vec![value(
            "{\"type\": \"function_call\", \"call_id\": \"c\", \"name\": \"f\", \"arguments\": \"{}\"}",
        )],
        status: "completed".into(),
        usage: wire::WireUsage::default(),
        incomplete_details: None,
    };
    assert_eq!(map_stop_reason(&wire), StopReason::ToolUse);
}

#[test]
fn tool_result_error_becomes_function_call_output_string() {
    // Via conversation path so we exercise message_to_input, not just block_to_input.
    let mut conv = fresh();
    conv.push_tool_result("call_err", ToolOutput::Error("failed".into()));
    // Also cover Json stringify on the same path with a second result.
    conv.push_tool_result("call_json", ToolOutput::Json(value("{\"a\": 1}")));
    let body = build_request(&conv, &gpt(), false);
    assert_eq!(body.input[0]["output"], "failed");
    assert_eq!(body.input[1]["output"], "{\"a\":1}");
}

/// Live deltas must keep `output_index` aligned with item starts; Done must
/// come from the completed payload (not our partial buffers) so stream and
/// non-stream content stay consistent.
#[test]
fn stream_emits_deltas_and_done_from_completed_payload() {
    let mut assembler = Assembler::new();
    let completed = wire::ResponsesResponse {
        output: vec![
            value("{\"type\": \"message\", \"role\": \"assistant\", \"status\": \"completed\", \"content\": [{\"type\": \"output_text\", \"text\": \"hello world\"}]}"),
            value("{\"type\": \"function_call\", \"call_id\": \"call_1\", \"name\": \"ping\", \"arguments\": \"{\\\"n\\\":1}\", \"status\": \"completed\"}"),
        ],
        status: "completed".into(),
        usage: wire::WireUsage {
            input_tokens: 1,
            output_tokens: 2,
            ..Default::default()
        },
        incomplete_details: None,
    };

    let events = feed(
        &mut assembler,
        vec![
            added(0, "{\"type\": \"message\"}"),
            wire::StreamEvent::OutputTextDelta {
                output_index: 0,
                delta: "hello ".into(),
            },
            wire::StreamEvent::OutputTextDelta {
                output_index: 0,
                delta: "world".into(),
            },
            wire::StreamEvent::OutputItemDone {
                output_index: 0,
                item: value("{\"type\": \"message\"}"),
            },
            added(1, "{\"type\": \"function_call\", \"call_id\": \"call_1\", \"name\": \"ping\"}"),
            wire::StreamEvent::FunctionCallArgumentsDelta {
                output_index: 1,
                delta: r#"{"n":"#.into(),
            },
            wire::StreamEvent::FunctionCallArgumentsDelta {
                output_index: 1,
                delta: "1}".into(),
            },
            wire::StreamEvent::OutputItemDone {
                output_index: 1,
                item: value("{\"type\": \"function_call\"}"),
            },
            wire::StreamEvent::ResponseCompleted {
                response: completed,
            },
        ],
    );

    assert!(matches!(&events[0], Event::TextDelta(t) if t == "hello "));
    assert!(matches!(&events[1], Event::TextDelta(t) if t == "world"));
    assert!(matches!(events[2], Event::BlockEnd));
    assert!(matches!(
        &events[3],
        Event::ToolUseStart { id, name } if id == "call_1" && name == "ping"
    ));
    assert!(matches!(
        &events[4],
        Event::ToolInputDelta { id, json_fragment }
            if id == "call_1" && json_fragment == r#"{"n":"#
    ));

    let Event::Done(resp) = events.last().unwrap() else {
        panic!("expected Done");
    };
    assert_eq!(resp.provider, ProviderKind::OpenAi);
    assert_eq!(resp.stop_reason, StopReason::ToolUse);
    assert_eq!(resp.message.content.len(), 2);
    match &resp.message.content[0] {
        ContentBlock::Text(t) => assert_eq!(t.text, "hello world"),
        other => panic!("expected text from completed payload, got {other:?}"),
    }
    match &resp.message.content[1] {
        ContentBlock::ToolUse(t) => assert_eq!(t.input, value("{\"n\": 1}")),
        other => panic!("expected tool use, got {other:?}"),
    }
}

#[test]
fn response_failed_is_an_error_not_done() {
    let mut assembler = Assembler::new();
    let err = assembler
        .handle(wire::StreamEvent::ResponseFailed {
            response: wire::ResponsesResponse {
                output: vec![],
                status: "failed".into(),
                usage: wire::WireUsage::default(),
                incomplete_details: None,
            },
        })
        .unwrap_err();
    assert!(matches!(err, Error::Http { .. }));
    assert!(
        matches!(err, Error::Http { status: 0, message } if message == "response failed: failed")
    );
}

#[test]
fn stream_error_event_keeps_the_message() {
    let mut assembler = Assembler::new();
    let err = assembler
        .handle(wire::StreamEvent::Error {
            error: wire::ApiError {
                message: "slow down".into(),
                kind: Some("rate".into()),
            },
        })
        .unwrap_err();
    assert!(matches!(err, Error::Http { status: 0, message } if message == "slow down"));
}

#[test]
fn incomplete_streams_still_end_in_a_turn() {
    let mut assembler = Assembler::new();
    let events = feed(
        &mut assembler,
        vec![
            wire::StreamEvent::ResponseCreated { response: None },
            wire::StreamEvent::ResponseInProgress { response: None },
            wire::StreamEvent::Other,
            wire::StreamEvent::ResponseIncomplete {
                response: reply(vec![], "incomplete", Some("content_filter")),
            },
        ],
    );
    assert_eq!(events.len(), 1);
    assert!(matches!(&events[0], Event::Done(r) if r.stop_reason == StopReason::Refusal));
}

#[test]
fn items_may_skip_and_reuse_slots() {
    let mut assembler = Assembler::new();
    let text = |output_index: usize, delta: &str| wire::StreamEvent::OutputTextDelta {
        output_index,
        delta: delta.into(),
    };
    let events = feed(
        &mut assembler,
        vec![
            text(0, "too early"),
            added(2, "{\"type\": \"message\"}"),
            text(0, "skipped slot"),
            text(2, "a"),
            // The same slot again, now reasoning.
            added(2, "{\"type\": \"reasoning\"}"),
            text(2, "wrong kind"),
            wire::StreamEvent::ReasoningSummaryTextDelta {
                output_index: 2,
                delta: "because".into(),
            },
            added(0, "{\"type\": \"message\"}"),
            text(0, "b"),
            wire::StreamEvent::FunctionCallArgumentsDelta {
                output_index: 1,
                delta: "{".into(),
            },
        ],
    );
    assert_eq!(events.len(), 3);
    assert!(matches!(&events[0], Event::TextDelta(t) if t == "a"));
    assert!(matches!(&events[1], Event::ReasoningDelta(t) if t == "because"));
    assert!(matches!(&events[2], Event::TextDelta(t) if t == "b"));
}

#[test]
fn stream_faults_are_single_items() {
    let mut assembler = Assembler::new();
    let items = assembler.step(Err(Fault::Broken("x".into())));
    assert!(matches!(
        &items[..],
        [Err(Error::Http { status: 0, message })] if message == "SSE framing error: x"
    ));
    let items = assembler.step(Ok(added(
        0,
        "{\"type\": \"function_call\", \"call_id\": \"c\", \"name\": \"n\"}",
    )));
    assert!(
        matches!(&items[..], [Ok(Event::ToolUseStart { id, name })] if id == "c" && name == "n")
    );
}

#[test]
fn reply_ends_are_collapsed() {
    let stop = |status: &str, reason: Option<&str>| map_stop_reason(&reply(vec![], status, reason));
    assert_eq!(stop("completed", None), StopReason::EndTurn);
    assert_eq!(stop("incomplete", Some("max_tokens")), StopReason::MaxTokens);
    assert_eq!(stop("incomplete", Some("content_filter")), StopReason::Refusal);
    assert_eq!(stop("incomplete", Some("odd")), StopReason::Other("odd".into()));
    assert_eq!(stop("incomplete", None), StopReason::Other("incomplete".into()));
    assert_eq!(stop("queued", None), StopReason::Other("queued".into()));
}

#[test]
fn message_text_joins_output_parts_only() {
    let item = value(
        "{\"type\":\"message\",\"content\":[{\"type\":\"output_text\",\"text\":\"a\"},{\"type\":\"refusal\",\"text\":\"no\"},{\"type\":\"output_text\"},{\"type\":\"output_text\",\"text\":\"b\"}]}",
    );
    assert!(
        matches!(wire_item_to_agnostic(item).unwrap(), ContentBlock::Text(t) if t.text == "ab")
    );
    let item = value("{\"type\":\"message\"}");
    assert!(matches!(wire_item_to_agnostic(item).unwrap(), ContentBlock::Text(t) if t.text.is_empty()));
}

#[test]
fn unreadable_arguments_count_as_null() {
    let input = |item: &str| match wire_item_to_agnostic(value(item)).unwrap() {
        ContentBlock::ToolUse(t) => t.input,
        other => panic!("expected tool use, got {other:?}"),
    };
    assert_eq!(input("{\"type\":\"function_call\",\"arguments\":\"{\"}"), value("null"));
    // Missing arguments stand for none.
    assert_eq!(input("{\"type\":\"function_call\"}"), value("{}"));
    assert_eq!(input("{\"type\":\"function_call\",\"arguments\":\"[1]\"}"), value("[1]"));

    let item = value("{\"call_id\":\"c\",\"name\":\"n\"}");
    let call = tool_call(item.clone(), Some(Err("bad".into())));
    assert_eq!((call.id.as_str(), call.name.as_str()), ("c", "n"));
    assert_eq!(call.input, value("null"));
    assert_eq!(call.extras.unwrap().0, item);
    assert_eq!(tool_call(item.clone(), Some(Ok(value("3")))).input, value("3"));
    assert_eq!(tool_call(item, None).input, value("{}"));
}

#[test]
fn blocks_without_wire_form_get_a_skeleton() {
    let text = ContentBlock::Text(TextBlock::new("hi"));
    assert_eq!(
        block_to_input(&text),
        value(
            "{\"type\":\"message\",\"role\":\"assistant\",\"status\":\"completed\",\"content\":[{\"type\":\"output_text\",\"text\":\"hi\"}]}"
        )
    );
    let call = ContentBlock::ToolUse(ToolUseBlock::new("c", "n", value("{\"a\": [1, 2]}")));
    assert_eq!(
        block_to_input(&call),
        value(
            "{\"type\":\"function_call\",\"call_id\":\"c\",\"name\":\"n\",\"arguments\":\"{\\\"a\\\":[1,2]}\",\"status\":\"completed\"}"
        )
    );
}

#[test]
fn turns_leave_out_blocks_that_are_not_theirs() {
    let text = ContentBlock::Text(TextBlock::new("t"));
    let call = ContentBlock::ToolUse(ToolUseBlock::new("c", "n", value("{}")));
    let result = ContentBlock::ToolResult(hydrogen::types::content::ToolResultBlock::new(
        "c",
        ToolOutput::Text("r".into()),
    ));
    let content = vec![text, call, result];
    let user = message_to_input(&Message { role: Role::User, content: content.clone() });
    assert_eq!(user.len(), 2);
    assert_eq!(user[0], value("{\"role\":\"user\",\"content\":\"t\"}"));
    assert_eq!(
        user[1],
        value("{\"type\":\"function_call_output\",\"call_id\":\"c\",\"output\":\"r\"}")
    );
    let assistant = message_to_input(&Message { role: Role::Assistant, content });
    assert_eq!(assistant.len(), 2);
    assert_eq!(assistant[0]["type"], "message");
    assert_eq!(assistant[1]["type"], "function_call");
}

#[test]
fn refusals_are_told_by_their_envelope_or_their_body() {
    let envelope = |kind: Option<&str>| wire::ErrorEnvelope {
        error: wire::ApiError {
            message: "too long".into(),
            kind: kind.map(String::from),
        },
    };
    for kind in [None, Some("invalid_request_error")] {
        assert!(
            matches!(map_error(400, "{}", Some(envelope(kind)), None), Error::InvalidRequest(m) if m == "too long")
        );
    }
    assert!(
        matches!(map_error(502, "<html>", None, None), Error::Http { status: 502, message } if message == "<html>")
    );
    let wait = Some(std::time::Duration::from_secs(12));
    assert!(
        matches!(map_error(429, "", Some(envelope(None)), wait), Error::RateLimited { retry_after } if retry_after == wait)
    );
    assert!(matches!(map_error(403, "", None, wait), Error::Auth));
}

#[test]
fn responses_request_has_the_documented_shape() {
    let mut conv = fresh();
    conv.push_user("hi");
    let body = build_request(
        &conv,
        &RequestOptions {
            model: "gpt-5".into(),
            system: Some("be brief".into()),
            tools: vec![ToolDef {
                name: "lookup".into(),
                description: "d".into(),
                input_schema: value("{\"type\": \"object\"}"),
            }],
            max_tokens: Some(10),
            temperature: Some(value("0.5")),
            thinking: Some(ThinkingEffort::Low),
            web_search: true,
            parallel_tool_calls: Some(false),
            cache_breakpoint_from_end: Some(0),
            ..Default::default()
        },
        true,
    )
    .to_value();
    let mut expected = value(
        "{\"model\":\"gpt-5\",\"input\":[{\"role\":\"user\",\"content\":\"hi\"}],\
         \"instructions\":\"be brief\",\
         \"tools\":[{\"type\":\"function\",\"name\":\"lookup\",\"description\":\"d\",\"parameters\":{\"type\":\"object\"}},{\"type\":\"web_search\"}],\
         \"parallel_tool_calls\":false,\
         \"temperature\":0.5,\"max_output_tokens\":10,\
         \"reasoning\":{\"effort\":\"low\"},\
         \"store\":false,\"include\":[\"reasoning.encrypted_content\"],\
         \"stream\":true}",
    );
    expected["prompt_cache_key"] = serde_json::Value::from(conv.cache_key());
    assert_eq!(body, expected);
}

#[test]
fn efforts_default_to_medium() {
    let effort = |thinking: Option<ThinkingEffort>| {
        let o = RequestOptions { thinking, ..Default::default() };
        build_request(&fresh(), &o, false).to_value()["reasoning"]["effort"].clone()
    };
    assert_eq!(effort(None), "medium");
    assert_eq!(effort(Some(ThinkingEffort::Low)), "low");
    assert_eq!(effort(Some(ThinkingEffort::Medium)), "medium");
    assert_eq!(effort(Some(ThinkingEffort::High)), "high");
    let body = build_request(&fresh(), &RequestOptions::default(), false).to_value();
    assert_eq!(body["max_output_tokens"], 64_000);
    assert!(body.get("tools").is_none());
    assert!(body.get("instructions").is_none());
    assert!(body.get("temperature").is_none());
    assert!(body.get("stream").is_none());
}

#[test]
fn the_input_only_grows_as_the_conversation_does() {
    let mut conv = fresh();
    let mut before: Vec<serde_json::Value> = vec![];
    let items = [
        "{\"type\":\"reasoning\",\"id\":\"r\"}",
        "{\"type\":\"function_call\",\"call_id\":\"c\",\"arguments\":\"{}\"}",
        "{\"type\":\"web_search_call\",\"id\":\"w\"}",
    ];
    for step in 0..4 {
        match step {
            0 => conv.push_user("hi"),
            1 => {
                let output = items.iter().map(|i| value(i)).collect();
                conv.push_response(parse_response(reply(output, "completed", None)).unwrap());
            }
            2 => conv.push_tool_result("c", ToolOutput::Text("1".into())),
            _ => conv.push_tool_result("d", ToolOutput::Text("2".into())),
        }
        let now = build_request(&conv, &gpt(), false).input;
        assert_eq!(&now[..before.len()], &before[..]);
        before = now;
    }
    // One user text, the items of the reply as they came, two results.
    assert_eq!(before.len(), 6);
    for (sent, item) in before[1..4].iter().zip(items) {
        assert_eq!(sent, &value(item));
    }
    assert_eq!(before[5]["call_id"], "d");
}

#[test]
fn cache_marks_leave_the_request_alone() {
    let mut plain = fresh();
    plain.push_user("a");
    plain.push_user("b");
    let mut marked = fresh();
    marked.push_user("a");
    marked.push_volatile_user("b").unwrap();
    let asked = RequestOptions {
        cache_breakpoint_from_end: Some(1),
        ..gpt()
    };
    assert_eq!(
        build_request(&plain, &gpt(), false).to_value(),
        build_request(&marked, &asked, false).to_value()
    );
}
