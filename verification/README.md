# irpc

A lightweight streaming rpc system: a service is an enum of requests, each request has a pair of
channels, and the channels are either local or go over a stream pair of a QUIC connection.

`src/` is the library, written in Rust and verified with Verus. It holds what does not touch the
network:

- `util`: varints, length-prefixed frames, streams of items with an explicit end, trusted certificates.
- `channel`: the `mpsc`, `oneshot` and `none` channels, with filters and maps on both ends.
- `rpc`: what goes over a stream: framing of messages, reading them back, requests on the side of
  the server, connections that are made when they are first needed.
- `client`: clients, requests with their channels, and the steps of a remote call.
- `iroh_transport`: listeners with connection filters and request filters.
- `uds`: fake addresses, the plaintext handshake and the checksums of packets of Unix datagram
  sockets.
- `derive`: what the `rpc_requests` macro generates for a protocol enum.
- `bench`: what the benchmark computes.

The functions of the library take the results of reads, writes and connection attempts as values,
and say what to do next. `app/` performs those steps with noq, iroh, tokio and serde, and renders
what the macro plans as code. `tests/` runs the library on concrete values.

Functions whose names start with `law_` are theorems. They relate several functions: that a message
comes back as it was sent, that a stream which was cut off gives a prefix of the messages, that a
request is sent again at most once.
