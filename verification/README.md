# docuglot

An interface with any number of language servers. A client hands in transmissions (a document was
opened or closed, its symbols are wanted, the server shall shut down) and gets receptions back;
docuglot initializes the language server of each language when it is first needed, speaks JSON-RPC
and the language server protocol with it, and keeps what comes too early until the server is ready.

`src/` is the verified library. Its functions state what they return in `ensures`, and Verus proves
it from the bodies and from what the library takes on trust of other crates.

- `text`, `json`: byte strings, decimal numbers and JSON values.
- `message`, `error_message`: the framing of messages, and the lines of an error output.
- `json_rpc`: JSON-RPC objects, the client that matches responses to requests, and the server that
  hands requests to their handlers.
- `protocol`, `lsp`: the parameters of the language server protocol, the directives to a server, the
  states of a client, and how requests and responses are handled in them.
- `tool`: the client of one language server.
- `tongue`: the clients of all language servers, and what follows from each of their events.
- `exchange`, `lifecycle`: what holds of every exchange, and of the life of every tool, as public
  proof functions. Further ones stand in `message`, `error_message` and `tongue`.

What the library takes from `serde_json`, `lsp_types` and `core` is declared in `json`, `protocol`
and `message`; the comment above each such item says what is taken on trust.

`app/` is ordinary Rust around the library: processes, channels, the thread between them, and the
JSON form of JSON-RPC objects.
