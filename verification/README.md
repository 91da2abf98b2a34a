# mcp-server-gpt-chat

An MCP server (stdio, JSON-RPC 2.0) that relays four tools to the OpenAI
API: `chat`, `chat_with_vision`, `embedding` and `list_models`.

- `src/` is the verified library: the request bodies and how they are built
  from the tool parameters, the refusals of bad parameters, the
  classification of HTTP answers, the rendering of answers as text, and the
  location of the configuration file. It is checked with Verus.
  - `text.rs`: decimal rendering, joining and splitting lines, prefixes.
  - `json.rs`: JSON values, parsed and pretty-printed through `serde_json`.
  - `status.rs`: HTTP status codes (through `reqwest`).
  - `api.rs`: API client data, request/response bodies, errors, renderers.
  - `params.rs`: the tool parameters.
  - `server.rs`: what each tool sends and answers.
  - `config.rs`: where the configuration lives.
- `app/` is the program around it: reading the configuration file, the HTTP
  calls, serde and JSON-schema faces of the library's types, the MCP
  plumbing, and the temperature range test (floating point).
- `tests/` exercises the library on concrete values.

Configuration: `~/.config/mcp-server-gpt-chat/config.toml` with
`api_key = "sk-..."`.
