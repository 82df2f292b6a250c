# ScreenGuard

ScreenGuard limits the time that the users of a household's computers spend at
them. A server keeps profiles with weekly windows, daily limits, adjustments and
block lists; an agent on each machine measures use, warns and locks.

`src/` is the verified library, the rules of both:

- `agent/`: sessions and usage timers, lock flows and warnings, what is stored of
  each message of the server and what is done about it once it was, the steps of
  a tick and its heartbeat, how a list of things is done up to the first that
  fails (`agenda`), and what the machine says of itself.
- `api/`: how the server answers its administrators, step by step: signing in,
  one's own account, managing accounts, the routes, passwords and tokens.
- `db/`: the statements that the server sends to its database (`write`, and one
  module for each kind of row), what they mean for the tables (`tables`), what
  comes back (`answers`, `models`), the schema and its migrations, and what holds
  of the store as a whole (`laws`, `list_laws`, `sums`).
- `text`, `ids`, `clock`: text, identifiers, dates and times.

No function of the library performs I/O. Where it needs another crate to compute
something (a UUID, a password hash, a token, a date), the call stands in a small
function whose doc comment names the other crate's function and says what is
believed of it.

`app/` is ordinary Rust round the library: the database driver, the HTTP server
and the agent's loop. `tests/` runs the library, with the store's statements on
an SQLite database in memory.
