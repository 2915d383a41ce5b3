# hone_server

The request-handling core of the Hone personal-finance server, written in
Verus. Every function in `src/` carries a contract; Verus proves each of
them except the small trusted wrappers around outside crates named below,
whose contracts are taken as given.

- `src/` — the library: authentication (`auth`, `net`, `config`, `jwt`),
  JSON member lookup (`json`),
  the MCP resource-server surface (`oauth`, `mcp`), explore sessions
  (`explore`), imports and merchant normalization (`imports`, `merchants`,
  `tagging`), reporting periods (`periods`), pagination (`paging`), backups
  (`scheduler`, `handlers::backup`), the HTTP policy (`router`), and the
  per-endpoint request types and checks under `handlers`.
- `tests/` — tests of the library on concrete values.
- `app/` — what stays outside the verified library: the axum middleware,
  fetching published signing keys, environment and network access, serde
  forms of the library's types, and the floating-point metrics.

The handlers' database work and the AI backend calls belong to the
project's core crate, which this crate does not include; `src/` holds the
checks and decisions around them.

Calls into outside crates (`chrono`, `sha2`, `serde_json`, `base64`,
`ipnet`, `subtle`, `jsonwebtoken`) go through small trusted wrappers
whose contracts state what those crates do.
