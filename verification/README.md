# autopush

The verified core of the autopush WebPush servers, written in Verus.

`src/` is the library. Its functions are proved by Verus against their
contracts; the small wrappers around calls into other crates (uuid, fernet,
bytes, openssl, std) carry contracts that are taken on trust from those
crates' sources, and the shared cell of `rc` has no contract on what it
holds, since Verus cannot see into a `RefCell`:

- `unidentified`, `protocol`, `uaid`: the WebPush handshake. A client's
  `Hello` becomes the request for the message store, and the store's answer
  becomes the server's `Hello`.
- `handler`: the User-Agent of a connection, the check of its first
  message, and what the session loop does on each event.
- `ws_error`: the handler's errors and the Close frame for each.
- `app_state`: the application state and the parsing of the crypto key
  setting into Fernet keys.
- `webpush_io`: replaying already-read header bytes before reading a
  connection.
- `rc`, `routers`, `fcm`, `tls`: shared handles, router selection, FCM
  settings, the choice of TLS files and the TLS acceptor built from them.
- `text`: white space, trimming and character conversions.

`app/` is the server around it: actix-web routing, the WebSocket session
loop, reading the TLS files, JSON settings and the message store interface.
