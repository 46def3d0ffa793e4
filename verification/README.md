# todo_api

The core of a todo-list web service with accounts, verified with Verus.

- `src/` — the verified library: request validation (`validate`), page
  resolution and counting (`pagination`), the reply envelope (`resp`),
  authentication from the `Authorization` header (`middleware`), the
  decisions of the todo handlers (`handlers`) and of registration and login
  (`auth`), identifiers (`ids`), instants (`time`), text helpers (`text`)
  and the in-memory store (`store`). Each handler is split where it waits
  on the database: a step takes what the database answered and returns the
  reply or the next database action.
- `app/` — the HTTP server: routes, database access, token signing and
  decoding, JSON forms of the library's types, and schema migrations.
- `tests/` — tests of the library on concrete values.
