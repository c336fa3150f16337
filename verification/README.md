# flowy_sync

Synchronisation of documents between clients and a server, verified with Verus.

- `src/web_socket`: the client side. `editor` opens the web socket of a document and makes
  its two tasks; `stream` handles the messages that come in, `sink` sends those that go out.
- `src/server`: the server side. `manager` keeps the open documents, `handle` builds commands
  for one of them, `queue` carries them out, and `editor` holds who is connected.
- `src/registry`, `src/payload`, `src/channels`: what both sides share over `dashmap`, `bytes`
  and `tokio`. `web_socket/signals` and `server/calls` state what is taken from tokio's
  channels.
- The `laws` files prove what holds over several calls: the order of messages and commands,
  who hears a stop, over which way an answer goes back, which revisions a synchronizer is asked
  for, that open documents keep apart.
- `app`: the tasks themselves, which wait on tokio and ask the library what to do next.
