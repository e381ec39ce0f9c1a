# sandwich_service

A small sandwich service in the hexagonal style, verified with Verus.

- `src/domain`: the sandwich entity (with its rules as a type invariant) and the domain
  operations.
- `src/driven/repository`: the MongoDB store: object identifiers and their hex form, the
  stored form of a sandwich, the search filter, the connection URI, and what each store
  operation makes of the database's reply (including the step function that walks a cursor).
- `src/driving/rest_handler`: REST errors (their text, status and payload), requests and
  responses, and what each handler answers.
- `src/config.rs`: the store settings.
- `app/`: the HTTP server, the database calls, and serde forms of the library's types.
