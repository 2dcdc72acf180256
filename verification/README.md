# copilot_proxy

An OpenAI-compatible HTTP proxy in front of the Copilot chat WebSocket protocol,
with its logic verified in Verus.

- `src/` — the verified library: request checks and OpenAI response bodies
  (`chat`, `image`), prompt building (`adapter`), the Copilot event protocol
  (`protocol`, `ws`), streaming and collecting completions (`stream`), model names
  (`model`), errors (`error`), API-key checks (`auth`), request headers and the
  anonymous cookie (`requests`), the session pool (`session`), identifiers and
  timestamps (`id`), and string helpers (`text`).
- `app/` — the binary: command line, logging, the axum server, and the network
  I/O (reqwest, tokio-tungstenite) that drives the library's step functions.
- `tests/` — tests of the library on concrete values.
