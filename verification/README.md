# delta_command_api

The command layer of a JSON API for a chat client, verified with Verus.

A request names a command id and an invocation id; every answer is a JSON
object that carries the invocation id back, with either the command's
`result` or an error `kind` and `message`.

- `src/` — the verified library: the wire framing (`commands`), error kinds
  (`error`), event records (`event`), request routing per connection
  (`connection`), and the account commands (`account`): the command table,
  chat and chat-list records, and the step-by-step fetch of a chat-list entry.
- `app/` — what cannot be verified: serde parsing and serialisation of the
  library's types, and the asynchronous calls into the chat core.
- `tests/` — tests of the library.
