# backend

The server side of a small ActivityPub service: accounts, profiles, follows,
posts, WebFinger, NodeInfo and signed delivery of activities.

- `src/` is the library, verified with Verus. It holds the documents the
  server answers with (actor documents, WebFinger, NodeInfo, host-meta), the
  activities it sends (`Follow`, `Accept`), the HTTP signature headers of a
  delivery, the errors and their responses, and the decision each request
  handler takes (session checks, signup, login, the steps of a follow).
  Calls into `rsa`, `sha256`, `base64`, `bcrypt`, `reqwest::Url`, `chrono`,
  `rand` and `uuid` go through small trusted functions whose contracts are
  written next to them.
- `app/` is the actix-web program around it: configuration, sessions in
  Redis, the PostgreSQL repositories, outgoing HTTP requests, JSON and
  OpenAPI types, and the handlers that perform the steps the library names.
  `app --schema <file>` writes the OpenAPI description.
- `tests/` runs the library against the real outside crates.
