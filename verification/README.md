# a2a_rs

A verified core of an A2A (agent-to-agent) protocol library.

- `src/` is verified with Verus:
  - `domain` — messages, parts, tasks, artifacts, agent cards, push
    notification settings and errors, each with a mathematical view;
  - `proto` — the protocol buffer (`a2a.v1`) messages as plain types;
  - `convert` — conversions between the two, with exact contracts;
  - `laws` — round-trip and part-by-part laws of the conversions;
  - `processor` — the default JSON-RPC request processor: which handler call
    answers each request, which handler makes it, and how its outcome becomes
    the reply;
  - `client` — the requests the gRPC client sends and what it makes of the
    responses;
  - `server` — the gRPC server's decisions: task resource names, message
    calls, listing pages and the status that answers each error;
  - `demo` — the decisions of the reimbursement demo: run modes, URLs,
    tokens, messages and the calls that send them, the chat page, the steps
    after sending and the start-up summary;
  - `encoding`, `ids`, `json` — the calls into `base64`, `uuid`,
    `serde_json` and `prost-types`.
- `app/` is ordinary Rust: the asynchronous handler traits, the JSON forms of
  the domain types, JSON-RPC parsing and the processing loop that awaits the
  handlers, the gRPC client connection and the answers of the gRPC server.
- `tests/` runs the library on concrete values.
