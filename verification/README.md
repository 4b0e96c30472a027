# butlerd

A client for itch.io's butler daemon (butlerd), split in two:

- `src/` is the library, verified with Verus: the JSON body and path of every API call
  (`calls`), the reading of butlerd's JSON-RPC answers (`rpc`), JSON text (`json`), the
  daemon's paths, command line and startup message and the connection it describes
  (`startup`), the steps of installing a game and of driving downloads (`install`), the
  response types (`responses`, `packaged`), errors (`error`) and text helpers (`text`).
- `app/` starts the daemon, carries requests over HTTP with reqwest, reads and writes the
  messages' JSON with serde, and exposes the `Butler` client.
