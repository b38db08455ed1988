use hydrogen::types::content::{ContentBlock, TextBlock, ToolOutput, ToolResultBlock, ToolUseBlock};
use hydrogen::types::conversation::{new_cache_key, Conversation, Message, ProviderKind, Role};
use hydrogen::types::response::{Response, StopReason, Usage};
use hydrogen::Error;

fn value(text: &str) -> serde_json::Value {
    serde_json::from_str(text).unwrap()
}

fn fresh() -> Conversation {
    Conversation::new(1_700_000_000_000_000_000, 0)
}

fn assistant_response(provider: ProviderKind, text: &str) -> Response {
    Response {
        message: Message {
            role: Role::Assistant,
            content: vec![ContentBlock::Text(TextBlock {
                text: text.to_string(),
                extras: None,
            })],
        },
        stop_reason: StopReason::EndTurn,
        usage: Usage::default(),
        provider,
    }
}

fn refusal(r: Result<(), Error>) -> String {
    match r {
        Err(Error::InvalidRequest(message)) => message,
        other => panic!("expected InvalidRequest, got {other:?}"),
    }
}

/// Multi-tool turns must land as one user message with several tool_result
/// blocks; providers reject (or mis-order) interleaved user turns.
#[test]
fn push_tool_result_coalesces_into_tool_only_user_turn() {
    let mut conv = fresh();
    conv.push_tool_result("call_1", ToolOutput::Text("a".into()));
    conv.push_tool_result("call_2", ToolOutput::Json(value("{\"ok\": true}")));

    assert_eq!(conv.messages().len(), 1);
    let msg = &conv.messages()[0];
    assert_eq!(msg.role, Role::User);
    assert_eq!(msg.content.len(), 2);
    match &msg.content[0] {
        ContentBlock::ToolResult(t) => {
            assert_eq!(t.id, "call_1");
            assert_eq!(t.output, ToolOutput::Text("a".into()));
        }
        other => panic!("expected tool_result, got {other:?}"),
    }
    match &msg.content[1] {
        ContentBlock::ToolResult(t) => assert_eq!(t.id, "call_2"),
        other => panic!("expected tool_result, got {other:?}"),
    }
}

#[test]
fn push_tool_result_starts_new_turn_after_text_user_message() {
    let mut conv = fresh();
    conv.push_user("hello");
    conv.push_tool_result("call_1", ToolOutput::Text("out".into()));

    assert_eq!(conv.messages().len(), 2);
    assert!(matches!(
        conv.messages()[1].content.as_slice(),
        [ContentBlock::ToolResult(_)]
    ));
}

#[test]
fn push_tool_result_starts_new_turn_after_assistant() {
    let mut conv = fresh();
    conv.push_user("hello");
    conv.push_response(assistant_response(ProviderKind::Anthropic, "hi"));
    conv.push_tool_result("call_1", ToolOutput::Error("boom".into()));

    assert_eq!(conv.messages().len(), 3);
    assert_eq!(conv.messages()[2].role, Role::User);
}

#[test]
fn push_response_pins_provider() {
    let mut conv = fresh();
    assert_eq!(conv.provider(), None);
    conv.push_response(assistant_response(ProviderKind::OpenAi, "ok"));
    assert_eq!(conv.provider(), Some(ProviderKind::OpenAi));
    // Later responses overwrite the pin (same-provider turns in practice).
    conv.push_response(assistant_response(ProviderKind::OpenAi, "again"));
    assert_eq!(conv.provider(), Some(ProviderKind::OpenAi));
    assert_eq!(conv.messages().len(), 2);
}

#[test]
fn push_response_hands_back_the_recorded_turn() {
    let mut conv = fresh();
    let msg = conv.push_response(assistant_response(ProviderKind::Xai, "done"));
    assert_eq!(msg.role, Role::Assistant);
    assert!(matches!(&msg.content[0], ContentBlock::Text(t) if t.text == "done"));
}

#[test]
fn cache_key_is_stable_for_conversation_lifetime() {
    let conv = Conversation::new(1_700_000_000_000_000_000, 0);
    let k1 = conv.cache_key().to_string();
    let k2 = conv.cache_key().to_string();
    assert_eq!(k1, k2);
    assert!(k1.starts_with("lab9-"));
    // Distinct conversations get distinct keys (prompt-cache isolation).
    let other = Conversation::new(1_700_000_000_000_000_000, 1);
    assert_ne!(conv.cache_key(), other.cache_key());
}

#[test]
fn cache_key_is_time_and_serial_in_hexadecimal() {
    assert_eq!(new_cache_key(0, 0), "lab9-0-0");
    assert_eq!(new_cache_key(255, 16), "lab9-ff-10");
    assert_eq!(new_cache_key(0xdead_beef_0123, 9), "lab9-deadbeef0123-9");
    assert_eq!(
        new_cache_key(u128::MAX, u64::MAX),
        format!("lab9-{:x}-{:x}", u128::MAX, u64::MAX)
    );
}

#[test]
fn push_user_does_not_set_volatile_mark() {
    let mut conv = fresh();
    conv.push_user("hello");
    assert_eq!(conv.volatile_index(), None);
}

#[test]
fn single_slot_enforcement_second_push_volatile_fails() {
    let mut conv = fresh();
    conv.push_volatile_user("FAT 1").unwrap();
    assert_eq!(conv.volatile_index(), Some(0));
    let err = conv.push_volatile_user("FAT 2").unwrap_err();
    assert!(matches!(err, Error::InvalidRequest(_)));
    assert_eq!(conv.messages().len(), 1);
    assert_eq!(conv.volatile_index(), Some(0));
}

#[test]
fn demote_is_content_only_and_clears_mark() {
    let mut conv = fresh();
    conv.push_volatile_user("FAT board …").unwrap();
    conv.push_response(assistant_response(ProviderKind::Anthropic, "ok"));
    let len_before = conv.messages().len();
    let roles_before: Vec<Role> = conv.messages().iter().map(|m| m.role).collect();
    let key_before = conv.cache_key().to_string();

    conv.demote_volatile("Move 1 — you played Q16.").unwrap();

    assert_eq!(conv.messages().len(), len_before);
    let roles_after: Vec<Role> = conv.messages().iter().map(|m| m.role).collect();
    assert_eq!(roles_after, roles_before);
    assert_eq!(conv.volatile_index(), None);
    assert_eq!(conv.cache_key(), key_before);
    match &conv.messages()[0].content[..] {
        [ContentBlock::Text(t)] => assert_eq!(t.text, "Move 1 — you played Q16."),
        other => panic!("expected demoted text, got {other:?}"),
    }
    // Assistant still present above the demoted user turn.
    assert_eq!(conv.messages()[1].role, Role::Assistant);
}

#[test]
fn demote_without_mark_fails() {
    let mut conv = fresh();
    conv.push_user("stable");
    assert!(matches!(
        conv.demote_volatile("stub"),
        Err(Error::InvalidRequest(_))
    ));
}

#[test]
fn rotate_after_response_rewrites_marked_user_not_assistant() {
    let mut conv = fresh();
    conv.push_volatile_user("FAT 1").unwrap();
    conv.push_response(assistant_response(ProviderKind::Anthropic, "I play Q16"));
    let key_before = conv.cache_key().to_string();

    conv.rotate_volatile_user("Move 1 — you played Q16.", "FAT 2");

    assert_eq!(conv.messages().len(), 3);
    assert_eq!(conv.volatile_index(), Some(2), "new mark is the new tail");
    assert_eq!(conv.cache_key(), key_before);
    match &conv.messages()[0].content[..] {
        [ContentBlock::Text(t)] => assert_eq!(t.text, "Move 1 — you played Q16."),
        other => panic!("expected demoted stub, got {other:?}"),
    }
    assert_eq!(conv.messages()[1].role, Role::Assistant);
    match &conv.messages()[2].content[..] {
        [ContentBlock::Text(t)] => assert_eq!(t.text, "FAT 2"),
        other => panic!("expected new fat, got {other:?}"),
    }
}

#[test]
fn rotate_without_prior_volatile_only_pushes() {
    let mut conv = fresh();
    conv.rotate_volatile_user("ignored stub", "FAT first");
    assert_eq!(conv.messages().len(), 1);
    assert_eq!(conv.volatile_index(), Some(0));
    match &conv.messages()[0].content[..] {
        [ContentBlock::Text(t)] => assert_eq!(t.text, "FAT first"),
        other => panic!("expected fat text, got {other:?}"),
    }
}

#[test]
fn demote_rejects_tool_result_kind_for_user_only_ship() {
    let mut conv = fresh();
    conv.push_tool_result("t1", ToolOutput::Text("FAT".into()));
    // Manually mark a tool_result as volatile: the operations never do, but
    // demote must refuse corruption.
    conv.set_volatile(Some(0));
    let err = conv.demote_volatile("stub").unwrap_err();
    assert!(matches!(err, Error::InvalidRequest(_)));
    assert_eq!(conv.volatile_index(), Some(0));
}

#[test]
fn every_refusal_says_why() {
    let mut conv = fresh();
    assert_eq!(refusal(conv.demote_volatile("s")), "no volatile message to demote");

    conv.set_volatile(Some(7));
    assert_eq!(refusal(conv.demote_volatile("s")), "volatile index is out of range");
    // The stale mark is gone.
    assert_eq!(refusal(conv.demote_volatile("s")), "no volatile message to demote");

    conv.push_response(assistant_response(ProviderKind::Xai, "hi"));
    conv.set_volatile(Some(0));
    assert_eq!(refusal(conv.demote_volatile("s")), "volatile message is not a user turn");

    conv.push_tool_result("t1", ToolOutput::Text("x".into()));
    conv.set_volatile(Some(1));
    assert_eq!(
        refusal(conv.demote_volatile("s")),
        "volatile message is not user text; kind-preserving tool_result demotion is not shipped yet"
    );
    assert_eq!(
        refusal(conv.push_volatile_user("f")),
        "volatile message already set; demote or rotate before pushing another"
    );
}

#[test]
fn asking_for_the_volatile_message_clears_a_stale_mark() {
    let mut conv = fresh();
    conv.push_user("a");
    conv.set_volatile(Some(1));
    assert_eq!(conv.volatile_index(), None);
    assert_eq!(conv.messages().len(), 1);
    assert_eq!(refusal(conv.demote_volatile("s")), "no volatile message to demote");

    conv.set_volatile(Some(0));
    assert_eq!(conv.volatile_index(), Some(0));
    assert!(conv.demote_volatile("s").is_ok());
}

#[test]
fn appending_brings_no_stale_mark_back() {
    for step in 0..3 {
        let mut conv = fresh();
        conv.set_volatile(Some(0));
        match step {
            0 => conv.push_user("a"),
            1 => conv.push_tool_result("t", ToolOutput::Text("x".into())),
            _ => {
                conv.push_response(assistant_response(ProviderKind::Xai, "hi"));
            }
        }
        assert_eq!(conv.messages().len(), 1);
        assert_eq!(conv.volatile_index(), None);
    }
}

#[test]
fn stale_marks_do_not_block_the_next_state_block() {
    let mut conv = fresh();
    conv.set_volatile(Some(3));
    conv.push_volatile_user("FAT").unwrap();
    assert_eq!(conv.volatile_index(), Some(0));

    let mut conv = fresh();
    conv.set_volatile(Some(3));
    conv.rotate_volatile_user("stub", "FAT");
    assert_eq!(conv.volatile_index(), Some(0));
    assert_eq!(conv.messages().len(), 1);
}

#[test]
fn restored_conversations_carry_no_mark() {
    let mut conv = fresh();
    conv.push_volatile_user("FAT").unwrap();
    let mut loaded = Conversation::restore(
        conv.messages().to_vec(),
        conv.provider(),
        conv.cache_key().to_string(),
    );
    assert_eq!(loaded.volatile_index(), None);
    assert_eq!(loaded.messages(), conv.messages());
    assert_eq!(loaded.cache_key(), conv.cache_key());
}

#[test]
fn caller_built_blocks_carry_no_wire_form() {
    let text = TextBlock::new("hi");
    assert_eq!(text.text, "hi");
    assert!(text.extras.is_none());

    let call = ToolUseBlock::new("c1", "lookup", value("{\"q\":1}"));
    assert_eq!((call.id.as_str(), call.name.as_str()), ("c1", "lookup"));
    assert_eq!(call.input, value("{\"q\":1}"));
    assert!(call.extras.is_none());

    let result = ToolResultBlock::new("c1", ToolOutput::Error("no".into()));
    assert_eq!(result.id, "c1");
    assert_eq!(result.output, ToolOutput::Error("no".into()));
}

#[test]
fn prompt_size_counts_cached_tokens_too() {
    let usage = Usage {
        input_tokens: 2,
        output_tokens: 9,
        cache_creation_input_tokens: 30,
        cache_read_input_tokens: 400,
    };
    assert_eq!(usage.total_input_tokens(), 432);
    let full = Usage {
        input_tokens: u32::MAX,
        output_tokens: 0,
        cache_creation_input_tokens: u32::MAX,
        cache_read_input_tokens: u32::MAX,
    };
    assert_eq!(full.total_input_tokens(), 3 * (u32::MAX as u64));
    assert_eq!(Usage::default().total_input_tokens(), 0);
}
