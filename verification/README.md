# eventstore

The commands of an EventStoreDB client, as a library verified with Verus: what each command puts
on the wire, what it makes of the server's answer, and when it retries or gives up.

- `src/options.rs`, `src/settings.rs`: what commands can be asked for.
- `src/request.rs`: the metadata of a request: who runs it, whether the leader must, the name of
  the connection, and the timeout.
- `src/wire/`: the messages.
- `src/commands/`: the commands. A command that waits for the server is a state machine: it is told
  what happened and says what to do next.
- `src/text.rs`, `src/ids.rs`, `src/time.rs`, `src/string_map.rs`, `src/types.rs`: what the rest is
  built on.

`app/` carries the commands out over a connection. The encoding of the messages, the selection of a
node and the HTTP interface of older servers are traits there.
