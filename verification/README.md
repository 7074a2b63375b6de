# worker_client

The request logic of a workflow worker's client, written and verified in Verus: what each request to
the server holds, how a completion that is too large is split into pages and sent, and what a client
remembers of the heartbeats of its workers.

- `src/` is the verified library. Messages that it only hands on are held in wire form.
  - `client`, `poll`, `respond`: the requests that a worker makes.
  - `versioning`, `uuid_text`, `query`: parts of them.
  - `pagination`, `size`, `wire`: splitting a completion by its encoded size.
  - `send`, `status`: sending pages, and sending them again when the server lost them.
  - `heartbeat`: heartbeats and what they are counted from.
  - `message`: the messages themselves.
  - the modules that end in `_laws`: what holds of all of these, as proofs.
- `tests/` runs the library.
- `app/` makes the calls: it holds the connection, reads the clock and hands answers back.
