# mcp_sdk

Clients and servers of the Model Context Protocol, verified with Verus: the messages and
their texts, the sessions on both sides, the managers of tools, prompts and resources,
validation by JSON Schema, and what goes over text streams and HTTP.

Whatever waits or touches the world outside is a step here. A function takes the state and
what happened, and tells the next state and what is to be done. Programs do it and hand
back what came of it.

- `src/json.rs`, `src/double.rs`, `src/wire.rs`, `src/types/`: values, and how they are written and read
- `src/jsonrpc.rs`, `src/protocol/`: messages, methods, versions and endpoints
- `src/session.rs`, `src/client/`, `src/server/`: requests and their answers
- `src/transport/`: lines, events, HTTP requests and responses, and encryption
- `src/schema.rs`, `src/sampling_validation.rs`, `src/auth.rs`, `src/log.rs`: rules of their own
- `app/`: runs all this on `tokio`, `axum` and `reqwest`
- `tests/`: examples, up to whole sessions between a client and a server

Contracts speak of views: a text is a `Seq<char>`, a value of JSON a `JsonView`, a message a
`MessageView`. Public proof functions state what holds over several calls. Calls into other
crates stand behind functions marked `external_body`; the comment above each says what is
taken from that crate without proof.
