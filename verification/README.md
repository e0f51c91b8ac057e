# rmcp

A Model Context Protocol (MCP) SDK whose protocol logic is written in Verus and
proved against its contracts.

## Layout

- `src/` — the verified library.
  - `text`, `assoc`, `json`: decimal numbers, text search and replacement,
    small maps kept as vectors, and the JSON values the protocol logic reads.
  - `mcp_core`: content with annotations, prompts, resources, handler errors
    and the JSON-RPC messages of the first-generation crates.
  - `mcp_server`: router errors, the request router (capabilities, tool and
    resource handling, prompt argument checks and placeholder filling) and the
    decisions of the server loop.
  - `mcp_client`: client state, request framing, answer checking, and the keys
    under which the stdio transport pairs answers with requests.
  - `model`: protocol versions and their order, error data, completion
    helpers, references, content and tool results, generic JSON-RPC messages.
  - `service`: protocol version negotiation, the initialization handshake,
    elicitation checks.
  - `handler`: prompt and tool routes, progress subscriptions, request routing.
  - `macros`: what the attribute macros decide (names, descriptions from doc
    comments, schemas, arguments read from a parameters schema, routed
    functions, generated handler methods).
  - `transport`: the streamable HTTP session (event ids, replay caches,
    routing of messages to streams), the HTTP handlers' refusals, the tower
    adapter's state machine and the SSE client's endpoint discovery.
- `tests/` — tests run against the compiled library.
- `app/` — the program side: `serde_json` conversion, displayable errors, the
  stdio server loop, the server handshake driver and the client's request
  plumbing.
