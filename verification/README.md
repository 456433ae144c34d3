# mini-chat-llm

The provider side of a small chat service, with its behaviour stated and proved in Verus.

- `src/` is the library. `json`, `text`, `order`, `double`, `headers` and `outbound` are the
  ground that the rest stands on; the calls into `serde_json` and `http` are in `json`,
  `headers` and `outbound`. `request` and `llm` hold what all adapters share. `anthropic` is the
  adapter for the Messages and Files APIs, `azure` the knowledge retriever. `attachment` and
  `migrations` are the records that are kept of attachments.
- `app/` runs the library: it sends requests through the gateway, writes the log and talks to the
  database.
- `tests/` runs the library on given values.

Functions that clean up messages before users see them are handed in by the caller. Doubles are
held as JSON numbers, and scores as the bits of their single-precision form.
