# tfmcp

The decision logic of a Model Context Protocol server for Terraform, written in
Verus and proved against its contracts.

- `src/` is the verified library: deployment controls and rate limiting, transport
  settings, tool filtering, tool descriptions, metrics, Terraform Registry response
  handling and request plans, and the server's routing, resources and stdio session.
- `tests/` exercises the library on concrete values.
- `app/` holds what runs around it: the environment, HTTP calls, JSON parsing with
  serde, and the process-wide metrics store.
