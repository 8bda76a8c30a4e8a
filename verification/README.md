# thru

A QUIC tunnel for TCP and UDP, e.g.

    thru -t tcp://127.0.0.1:4242==quic://example.com:4242 --peer-cert root.pem

`src/` is the verified library (Verus):

- `tunnel` — endpoint URLs (`scheme://host:port`) and `from==to` tunnel arguments;
- `transport` — transport kinds, the TCP client, the choice of an IPv4 address;
- `config` — the settings and their defaults;
- `quic` — QUIC transport parameters, the TLS server name of an address, and the client's
  connection monitor (connect, watch, wait, retry);
- `sessions` — the UDP server's table of one session per peer;
- `idle` — when an idle UDP stream times out;
- `pem` — certificates and keys from PEM text;
- `stream`, `text`, `error` — a read/write pair, string helpers, the error type.

`app/` is the program around it: argument parsing, sockets, QUIC endpoints, tasks and timers.
