use hydrogen::types::content::{ContentBlock, ToolOutput};
use hydrogen::types::conversation::{Conversation, ProviderKind};
use hydrogen::types::request::{RequestOptions, ToolChoice, ToolDef};
use hydrogen::types::response::StopReason;
use hydrogen::types::streaming::Event;
use hydrogen::xai::adapter::{
    block_to_input, build_request, map_usage, parse_response, wire_item_to_agnostic,
};
use hydrogen::xai::sse::Assembler;
use hydrogen::xai::wire;

fn value(text: &str) -> serde_json::Value {
    serde_json::from_str(text).unwrap()
}

fn fresh() -> Conversation {
    Conversation::new(1_700_000_000_000_000_000, 0)
}

fn grok() -> RequestOptions {
    RequestOptions {
        model: "grok-4".into(),
        ..Default::default()
    }
}

fn tool(name: &str) -> ToolDef {
    ToolDef {
        name: name.into(),
        description: "d".into(),
        input_schema: value("{\"type\": \"object\"}"),
    }
}

/// xAI mirrors OpenAI Responses closely; lock the few places drift hurts:
/// provider pin + encrypted reasoning resubmit on multi-turn tool loops.
#[test]
fn multi_turn_preserves_encrypted_reasoning_and_pins_xai() {
    let mut conv = fresh();
    conv.push_user("think then call");

    let resp = parse_response(wire::ResponsesResponse {
        output: vec![
            value("{\"type\": \"reasoning\", \"id\": \"rs_x\", \"encrypted_content\": \"xai-enc\", \"summary\": [{\"type\": \"summary_text\", \"text\": \"plan\"}]}"),
            value("{\"type\": \"function_call\", \"call_id\": \"call_x\", \"name\": \"tool\", \"arguments\": \"{}\", \"status\": \"completed\"}"),
        ],
        status: "completed".into(),
        usage: wire::WireUsage::default(),
        incomplete_details: None,
    })
    .unwrap();

    assert_eq!(resp.provider, ProviderKind::Xai);
    assert_eq!(resp.stop_reason, StopReason::ToolUse);
    match &resp.message.content[0] {
        ContentBlock::Reasoning(r) => {
            assert_eq!(r.provider, ProviderKind::Xai);
            assert_eq!(r.summary.as_deref(), Some("plan"));
        }
        other => panic!("expected reasoning, got {other:?}"),
    }

    conv.push_response(resp);
    assert_eq!(conv.provider(), Some(ProviderKind::Xai));
    conv.push_tool_result("call_x", ToolOutput::Text("ok".into()));

    let body = build_request(&conv, &grok(), true);

    assert_eq!(body.stream, Some(true));
    assert_eq!(body.input[1]["encrypted_content"], "xai-enc");
    assert_eq!(body.input[2]["type"], "function_call");
    assert_eq!(body.input[3]["type"], "function_call_output");
    assert_eq!(body.includes, vec!["reasoning.encrypted_content"]);
}

/// Hosted web_search must appear as type-only tool, next to function tools.
#[test]
fn adapter_web_search_emits_hosted_tool_alongside_function_tools() {
    let conv = fresh();

    let off = build_request(
        &conv,
        &RequestOptions {
            model: "grok-4".into(),
            tools: vec![tool("lookup")],
            web_search: false,
            ..Default::default()
        },
        false,
    );
    let off_json = off.to_value()["tools"].clone();
    assert_eq!(off_json.as_array().unwrap().len(), 1);
    assert_eq!(off_json[0]["type"], "function");
    assert_eq!(off_json[0]["name"], "lookup");

    let on = build_request(
        &conv,
        &RequestOptions {
            model: "grok-4".into(),
            tools: vec![tool("lookup")],
            web_search: true,
            ..Default::default()
        },
        false,
    );
    let on_json = on.to_value()["tools"].clone();
    assert_eq!(on_json.as_array().unwrap().len(), 2);
    assert_eq!(on_json[0]["type"], "function");
    assert_eq!(on_json[1]["type"], "web_search");
    assert!(on_json[1].get("name").is_none());
    assert!(on_json[1].get("parameters").is_none());
}

#[test]
fn adapter_web_search_off_emits_no_search_tool_when_tools_empty() {
    let conv = fresh();
    let body = build_request(
        &conv,
        &RequestOptions {
            model: "grok-4".into(),
            web_search: false,
            ..Default::default()
        },
        false,
    );
    assert!(body.tools.is_empty());
}

/// Default Auto + unset parallel omits both fields (provider defaults).
#[test]
fn tool_choice_auto_default_omits_fields() {
    let conv = fresh();
    let body = build_request(
        &conv,
        &RequestOptions {
            model: "grok-4".into(),
            tools: vec![tool("play_move")],
            tool_choice: ToolChoice::Auto,
            parallel_tool_calls: None,
            ..Default::default()
        },
        false,
    );
    assert!(body.tool_choice.is_none());
    assert!(body.parallel_tool_calls.is_none());
    let json = body.to_value();
    assert!(json.get("tool_choice").is_none());
    assert!(json.get("parallel_tool_calls").is_none());
}

#[test]
fn adapter_tool_choice_tool_with_parallel_disabled() {
    let conv = fresh();
    let body = build_request(
        &conv,
        &RequestOptions {
            model: "grok-4".into(),
            tool_choice: ToolChoice::Tool("play_move".into()),
            parallel_tool_calls: Some(false),
            ..Default::default()
        },
        false,
    );
    assert_eq!(
        body.tool_choice,
        Some(value("{\"type\": \"function\", \"name\": \"play_move\"}"))
    );
    assert_eq!(body.parallel_tool_calls, Some(false));

    let json = body.to_value();
    assert_eq!(json["tool_choice"]["type"], "function");
    assert_eq!(json["tool_choice"]["name"], "play_move");
    assert_eq!(json["parallel_tool_calls"], false);
}

#[test]
fn tool_choice_required_and_none() {
    let conv = fresh();
    let required = build_request(
        &conv,
        &RequestOptions {
            model: "grok-4".into(),
            tool_choice: ToolChoice::Required,
            ..Default::default()
        },
        false,
    );
    assert_eq!(required.tool_choice, Some(value("\"required\"")));

    let none = build_request(
        &conv,
        &RequestOptions {
            model: "grok-4".into(),
            tool_choice: ToolChoice::Never,
            parallel_tool_calls: Some(true),
            ..Default::default()
        },
        false,
    );
    assert_eq!(none.tool_choice, Some(value("\"none\"")));
    assert_eq!(none.parallel_tool_calls, Some(true));
}

/// web_search_call items must reappear in the next request input unchanged.
#[test]
fn multi_turn_resubmits_web_search_call_item() {
    let mut conv = fresh();
    conv.push_user("latest news?");

    let search_call = value(
        "{\"type\": \"web_search_call\", \"id\": \"ws_xai_1\", \"status\": \"completed\", \"action\": {\"type\": \"search\", \"query\": \"latest news about AI\"}}",
    );
    let message = value(
        "{\"type\": \"message\", \"id\": \"msg_x\", \"role\": \"assistant\", \"status\": \"completed\", \"content\": [{\"type\": \"output_text\", \"text\": \"Here is the news.\"}]}",
    );

    let resp = parse_response(wire::ResponsesResponse {
        output: vec![search_call.clone(), message],
        status: "completed".into(),
        usage: wire::WireUsage::default(),
        incomplete_details: None,
    })
    .unwrap();

    assert_eq!(resp.provider, ProviderKind::Xai);
    assert!(matches!(
        &resp.message.content[0],
        ContentBlock::Reasoning(r) if r.provider == ProviderKind::Xai
    ));
    assert_eq!(block_to_input(&resp.message.content[0]), search_call);

    conv.push_response(resp);
    conv.push_user("more?");

    let body = build_request(
        &conv,
        &RequestOptions {
            model: "grok-4".into(),
            web_search: true,
            ..Default::default()
        },
        false,
    );

    assert_eq!(body.input[1], search_call);
    assert_eq!(body.input[1]["type"], "web_search_call");
    assert_eq!(body.input[1]["id"], "ws_xai_1");
    let tools_json = body.to_value()["tools"].clone();
    assert_eq!(tools_json[0]["type"], "web_search");
}

/// xAI reports full input_tokens with cached as a subset; split so totals
/// stay additive and match Anthropic-shaped telemetry.
#[test]
fn map_usage_splits_cached_tokens_out_of_input() {
    let usage = map_usage(wire::WireUsage {
        input_tokens: 1192,
        output_tokens: 174,
        input_tokens_details: wire::InputTokensDetails {
            cached_tokens: 256,
        },
    });
    assert_eq!(usage.input_tokens, 936);
    assert_eq!(usage.cache_read_input_tokens, 256);
    assert_eq!(usage.cache_creation_input_tokens, 0);
    assert_eq!(usage.output_tokens, 174);
    assert_eq!(usage.total_input_tokens(), 1192);
}

#[test]
fn map_usage_caps_cached_at_input_total() {
    let usage = map_usage(wire::WireUsage {
        input_tokens: 100,
        output_tokens: 1,
        input_tokens_details: wire::InputTokensDetails {
            cached_tokens: 999,
        },
    });
    assert_eq!(usage.input_tokens, 0);
    assert_eq!(usage.cache_read_input_tokens, 100);
    assert_eq!(usage.total_input_tokens(), 100);
}

#[test]
fn parse_response_surfaces_cached_tokens() {
    let resp = parse_response(wire::ResponsesResponse {
        output: vec![value(
            "{\"type\": \"message\", \"role\": \"assistant\", \"status\": \"completed\", \"content\": [{\"type\": \"output_text\", \"text\": \"ok\"}]}",
        )],
        status: "completed".into(),
        usage: wire::WireUsage {
            input_tokens: 500,
            output_tokens: 10,
            input_tokens_details: wire::InputTokensDetails {
                cached_tokens: 400,
            },
        },
        incomplete_details: None,
    })
    .unwrap();
    assert_eq!(resp.usage.input_tokens, 100);
    assert_eq!(resp.usage.cache_read_input_tokens, 400);
    assert_eq!(resp.usage.total_input_tokens(), 500);
}

#[test]
fn volatile_turns_change_content_and_nothing_else() {
    let mut conv = fresh();
    conv.push_user("rules");
    conv.push_volatile_user("FAT").unwrap();
    let marked = build_request(&conv, &grok(), false).to_value();
    assert!(marked.get("cache_control").is_none());
    assert_eq!(marked["prompt_cache_key"], conv.cache_key());
    conv.rotate_volatile_user("stub", "FAT 2");
    let next = build_request(&conv, &grok(), false).to_value();
    assert_eq!(next["input"][0], marked["input"][0]);
    assert_eq!(next["input"][1]["content"], "stub");
    assert_eq!(next["input"][2]["content"], "FAT 2");
    assert_eq!(next["prompt_cache_key"], marked["prompt_cache_key"]);
}

#[test]
fn xai_streams_end_in_xai_turns() {
    let mut assembler = Assembler::new();
    let events = assembler
        .handle(wire::StreamEvent::ResponseCompleted {
            response: wire::ResponsesResponse {
                output: vec![],
                status: "completed".into(),
                usage: wire::WireUsage::default(),
                incomplete_details: None,
            },
        })
        .unwrap();
    assert!(matches!(&events[0], Event::Done(r) if r.provider == ProviderKind::Xai));
    let item = wire_item_to_agnostic(value("{\"type\":\"x\"}")).unwrap();
    assert!(matches!(&item, ContentBlock::Reasoning(r) if r.provider == ProviderKind::Xai));
}
