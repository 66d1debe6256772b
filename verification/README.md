# animus

The verified core of Animus, a local role-play chat server that talks to an Ollama
model and keeps its data in SQLite.

`src/` is the library, written in Verus and proved against its contracts:

- `domain`: personas, messages, conversations, summaries, content ratings, settings and
  the import of Character Card v2 files.
- `llm`: prompt assembly (placeholders, templates, the structured system block, the
  message list sent to the model), the plain-text prompt of `/api/generate`, and the
  reading of the chat stream. `llm::placeholders` proves that resolving a template
  leaves no known placeholder behind.
- `db`: how values are written to and read back from the database rows.
- `server`: the decisions of each HTTP endpoint: validation, which message may be
  regenerated or edited, settings updates, the server-sent events of a streamed reply,
  summaries and persona images.
- `text`, `ids`: character-level text operations and UUIDs.

`app/` is the server around it: configuration, the SQLite repositories, the Ollama HTTP
client, and the axum routes, which call the library for every decision.

`tests/` exercises the library on concrete values.
