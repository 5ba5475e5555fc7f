# matrix-mcp

A Matrix bot that sends Markdown messages to rooms, the MCP server that
offers this as a tool, and two relays that fetch a generated message from
another MCP server and send it on.

- `src/` is the verified library: recovery-key handling, room target
  parsing and the send/login step functions (`matrix/`), the MCP tool's
  answer (`mcp`) and its HTTP allow-lists (`mcp_server`), the language
  model request layout (`sampling`), the relay's report layout (`relay`,
  `matrix_relay`, `generate`), and text helpers (`text`).
- `app/` drives those step functions against the Matrix SDK, the MCP SDK
  and the language model server, and holds the programs' entry points.
- `tests/` runs the library on concrete values.
