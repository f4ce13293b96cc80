# just_llm_client

A provider-neutral LLM client core, verified with Verus.

The library (`src/`) holds the logic: the normalized generation types (messages, requests,
responses, streaming events), the conversions between them and the wire shapes of three
provider protocols (chat completions, the Responses API, the Messages API), stateful
conversation continuation, stream assembly, server-sent-events framing, the body-size cap and
the error taxonomy with its rendered messages. Every function carries a contract over
mathematical views of these types, and the laws that span functions are stated and proved as
`law_*` proof functions.

`app/` is the runtime around it: HTTP clients and requests, the async backends and
conversation driver, the tool dispatcher, and the JSON (serde) shapes of the wire types.

`tests/` exercises the library on concrete values.

| Module | Contents |
| --- | --- |
| `types` | normalized messages, requests, responses, events |
| `client` | conversation continuation and stream assembly; per-call client defaults; the backend factory's family table |
| `provider` | conversions for each protocol; request validation |
| `wire` | the protocols' wire shapes |
| `error`, `error_text` | error taxonomy, captured bodies, provider rejections, messages |
| `transport`, `sse` | body cap and decoding, endpoint URL resolution, the bearer authorization header, event-stream framing |
| `tools` | tool registry, tool errors, tool definitions |
| `json`, `text` | JSON queries answered by `serde_json`; whitespace trimming answered by std |
