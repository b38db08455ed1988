# hydrogen

Unified multi-provider LLM client for Rust: one conversation model and request
API across **Anthropic**, **OpenAI**, and **xAI**. The library in `src/` is
verified with Verus; it computes and does no I/O.

- `types/`: conversations, content, request options, responses, stream events.
- `anthropic/`: the Messages API. `responses/`: the Responses API, which
  `openai/` and `xai/` both speak. Each has the wire shapes (`wire`), the
  translation of requests and replies (`adapter`), the stream state machine
  (`sse`), and what holds of them as a whole (`laws`).
- `client`: one handle over all providers, with provider pinning.
- `http`, `json`, `text`: requests and refusals, JSON values, text.

JSON is carried as `serde_json::Value`. `json` holds the model of such a value
and, but for one function of `std` in `http`, everything that is taken on trust:
each item says which outside function it stands for and what it claims of it.

`app/` is the application side: HTTP, event streams, environment variables, the
clock, and saved conversations.
