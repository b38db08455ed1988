use std::time::Duration;

use hydrogen::http::{classify, framing_error, is_success, parse_retry_after};
use hydrogen::types::content::TextBlock;
use hydrogen::types::streaming::{sse_error, Fault};
use hydrogen::{
    AnthropicConfig, Client, ContentBlock, Conversation, Error, Message, OpenAiConfig,
    ProviderKind, RequestOptions, Response, Role, StopReason, Usage, XaiConfig,
};

fn fresh() -> Conversation {
    Conversation::new(1_700_000_000_000_000_000, 0)
}

fn pinned(provider: ProviderKind) -> Conversation {
    let mut conv = fresh();
    conv.push_response(Response {
        message: Message {
            role: Role::Assistant,
            content: vec![ContentBlock::Text(TextBlock {
                text: "hi".into(),
                extras: None,
            })],
        },
        stop_reason: StopReason::EndTurn,
        usage: Usage::default(),
        provider,
    });
    conv
}

/// Cross-provider reuse of a pinned conversation would resubmit foreign
/// reasoning blobs and fail deep in the HTTP layer.
#[test]
fn check_pinning_rejects_mismatched_provider() {
    let client = Client::openai(OpenAiConfig::new("sk-test"));
    let conv = pinned(ProviderKind::Anthropic);
    let err = client.check_pinning(&conv).unwrap_err();
    match err {
        Error::ProviderMismatch {
            conversation,
            client: c,
        } => {
            assert_eq!(conversation, ProviderKind::Anthropic);
            assert_eq!(c, ProviderKind::OpenAi);
        }
        other => panic!("expected ProviderMismatch, got {other:?}"),
    }
}

#[test]
fn check_pinning_allows_unpinned_and_matching() {
    let client = Client::xai(XaiConfig::new("xai-test"));
    assert!(client.check_pinning(&fresh()).is_ok());
    assert!(client.check_pinning(&pinned(ProviderKind::Xai)).is_ok());
}

#[test]
fn pinned_conversations_make_no_request_elsewhere() {
    let client = Client::anthropic(AnthropicConfig::new("k"));
    let opts = RequestOptions::default();
    assert!(matches!(
        client.request(&pinned(ProviderKind::Xai), &opts, false),
        Err(Error::ProviderMismatch {
            conversation: ProviderKind::Xai,
            client: ProviderKind::Anthropic,
        })
    ));
    assert!(client.request(&pinned(ProviderKind::Anthropic), &opts, false).is_ok());
}

#[test]
fn requests_are_addressed_and_authorised_per_provider() {
    let mut conv = fresh();
    conv.push_user("hi");
    let opts = RequestOptions {
        model: "m".into(),
        ..Default::default()
    };

    let client = Client::anthropic(AnthropicConfig::new("ka"));
    assert_eq!(client.kind(), ProviderKind::Anthropic);
    let r = client.request(&conv, &opts, true).unwrap();
    assert_eq!(r.url, "https://api.anthropic.com/v1/messages");
    assert_eq!(
        r.headers,
        vec![
            ("x-api-key".to_string(), "ka".to_string()),
            ("anthropic-version".to_string(), "2023-06-01".to_string()),
        ]
    );
    assert_eq!(r.body["stream"], true);
    assert_eq!(r.body["messages"][0]["content"][0]["text"], "hi");

    let client = Client::openai(OpenAiConfig::new("ko"));
    assert_eq!(client.kind(), ProviderKind::OpenAi);
    let r = client.request(&conv, &opts, false).unwrap();
    assert_eq!(r.url, "https://api.openai.com/v1/responses");
    assert_eq!(
        r.headers,
        vec![("Authorization".to_string(), "Bearer ko".to_string())]
    );
    assert!(r.body.get("stream").is_none());
    assert_eq!(r.body["input"][0]["content"], "hi");

    let client = Client::xai(XaiConfig::new("kx").with_base_url("http://localhost:1"));
    assert_eq!(client.kind(), ProviderKind::Xai);
    let r = client.request(&conv, &opts, false).unwrap();
    assert_eq!(r.url, "http://localhost:1/v1/responses");
    assert_eq!(r.headers[0].1, "Bearer kx");
    assert_eq!(r.body["model"], "m");
}

#[test]
fn configs_come_from_the_environment_or_fail() {
    let cfg = AnthropicConfig::from_env(Some("a")).unwrap();
    assert_eq!((cfg.api_key.as_str(), cfg.base_url.as_str()), ("a", "https://api.anthropic.com"));
    let cfg = OpenAiConfig::from_env(Some("o")).unwrap();
    assert_eq!((cfg.api_key.as_str(), cfg.base_url.as_str()), ("o", "https://api.openai.com"));
    let cfg = XaiConfig::from_env(Some("x")).unwrap();
    assert_eq!((cfg.api_key.as_str(), cfg.base_url.as_str()), ("x", "https://api.x.ai"));
    assert!(matches!(AnthropicConfig::from_env(None), Err(Error::Auth)));
    assert!(matches!(OpenAiConfig::from_env(None), Err(Error::Auth)));
    assert!(matches!(XaiConfig::from_env(None), Err(Error::Auth)));
    let cfg = AnthropicConfig::new("a").with_base_url("b");
    assert_eq!((cfg.api_key.as_str(), cfg.base_url.as_str()), ("a", "b"));
}

#[test]
fn retry_after_is_whole_seconds() {
    assert_eq!(parse_retry_after(Some("30")), Some(Duration::from_secs(30)));
    assert_eq!(parse_retry_after(Some("+7")), Some(Duration::from_secs(7)));
    assert_eq!(parse_retry_after(Some("007")), Some(Duration::from_secs(7)));
    assert_eq!(
        parse_retry_after(Some("18446744073709551615")),
        Some(Duration::from_secs(u64::MAX))
    );
    assert_eq!(parse_retry_after(Some("18446744073709551616")), None);
    assert_eq!(parse_retry_after(Some("")), None);
    assert_eq!(parse_retry_after(Some("+")), None);
    assert_eq!(parse_retry_after(Some("-1")), None);
    assert_eq!(parse_retry_after(Some(" 5")), None);
    assert_eq!(parse_retry_after(Some("1.5")), None);
    assert_eq!(parse_retry_after(Some("Wed, 21 Oct 2015 07:28:00 GMT")), None);
    assert_eq!(parse_retry_after(None), None);
}

#[test]
fn only_the_two_hundreds_are_success() {
    assert!(is_success(200));
    assert!(is_success(204));
    assert!(is_success(299));
    assert!(!is_success(199));
    assert!(!is_success(300));
    assert!(!is_success(404));
}

#[test]
fn refusals_are_classified_by_status() {
    let wait = Some(Duration::from_secs(3));
    assert!(matches!(classify(401, "m".into(), None), Error::Auth));
    assert!(matches!(classify(403, "m".into(), None), Error::Auth));
    assert!(
        matches!(classify(429, "m".into(), wait), Error::RateLimited { retry_after } if retry_after == wait)
    );
    assert!(matches!(classify(400, "m".into(), None), Error::InvalidRequest(m) if m == "m"));
    assert!(
        matches!(classify(529, "m".into(), None), Error::Http { status: 529, message } if message == "m")
    );
}

#[test]
fn stream_faults_come_through_as_errors() {
    assert!(
        matches!(sse_error(Fault::Lost("reset".into())), Error::Transport(m) if m == "reset")
    );
    assert!(
        matches!(sse_error(Fault::Malformed("bad".into())), Error::Deserialize(m) if m == "bad")
    );
    assert!(matches!(
        sse_error(Fault::Broken("UTF8".into())),
        Error::Http { status: 0, message } if message == "SSE framing error: UTF8"
    ));
    assert!(
        matches!(framing_error("x"), Error::Http { status: 0, message } if message == "SSE framing error: x")
    );
}
