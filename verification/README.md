# socketio-rs

A socket.io client over websockets.

- `src/` is the library, verified with Verus: the packet codec (`parser`), the packet, protocol
  and connection enums, the socket builder and its query parsing, and the decisions of the
  socket's workers (`socket::worker`, `socket::ping`, `socket::reconnect`, `socket::events`,
  `socket::handshake`). It also reads proxy URLs, writes `CONNECT` requests and reads the
  proxy's answer (`util::proxy`). JSON goes through `serde_json` and URLs through `url`,
  behind a few trusted wrappers whose contracts name what those crates return.
- `app/` is the asynchronous client around it: it opens the TCP, proxy and websocket
  connections, runs the workers on tokio and calls the listeners, doing what the library
  decides.
- `tests/` runs the library on concrete values.
