# rustservant

A companion bot for Rust game servers: it connects to a server over the
Rust+ websocket protocol, answers team-chat commands (`!time`, `!pop`,
`!showevents`, ...), and runs a Discord bot for pairing and managing the
configured servers.

- `src/` is the verified library (Verus). It holds the bot's decisions and
  texts: integer parsing with std's semantics, the saved-server bookkeeping,
  chat and slash command handling, marker reports, grid and region names,
  the reconnection policy and the pairing-helper protocol. Laws about them
  are public proof functions next to the code they speak of.
- `app/` is the program around it: websocket and Discord I/O, JSON files,
  the Rust+ protobuf messages, and the `f32` map and clock arithmetic.
- `tests/` runs the library on concrete values.
