# nubila

The verified core of the Nubila web client, a WebSocket and HTTP client that
runs in the browser over its own transport.

- `src/` is the library, proved with Verus:
  - `handshake`: the headers of the WebSocket upgrade request and the checks
    on the server's answer (status 101, `Upgrade: websocket`,
    `Connection: Upgrade`, compared without regard to ASCII case);
  - `frame`: the frames the client writes for `send` and `close`, and what the
    reader does with each frame it receives;
  - `tls`: a read that ends with the peer's TLS `close_notify` counts as end
    of file;
  - `error`: the client's error type.
- `app/` holds the browser, network and runtime glue around it.
- `tests/` runs the library on concrete values.
