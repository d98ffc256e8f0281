# regolo

The Regolo proxy lets an Anthropic Messages API client talk to Regolo.ai's
OpenAI-compatible Chat Completions API. This crate holds its logic, verified
with Verus, and the command line around it.

- `src/json.rs` — the JSON documents the translation reads and writes, their
  mathematical model, field lookup, and the calls into `serde_json`.
- `src/request.rs` — Anthropic request → chat request: messages, tool use,
  tool results, tool definitions.
- `src/response.rs` — chat response → Anthropic reply.
- `src/proxy.rs` — what each HTTP endpoint answers, step by step.
- `src/auth.rs`, `src/cli.rs` — API keys, the auth file, addresses, the
  launched client's environment, the model list.
- `src/text.rs` — joining texts and decimal numbers.
- `src/laws.rs` — properties across functions (the round trip of an answer
  through the client, stop reasons, key precedence).
- `app/` — the `regolo` program: HTTP server and client, files, prompts; it
  hands plain values to the library and does the I/O. `app/standalone.rs`
  holds the standalone proxy (its key read on each request, 401 without
  one) as a module with its own `main`; no subcommand starts it.
