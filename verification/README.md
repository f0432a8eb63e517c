# octoproxy

A load balancing proxy. A client takes proxy requests, picks one of its backends and opens a
tunnel through it, over HTTP/2 or QUIC with mutual TLS; a server on the other side connects the
tunnel to its target. A certificate tool issues and shows certificates, and a terminal interface
watches and steers a running client.

The logic is a library under `src/`, verified with Verus:

- `proxy`, `proxy_client`, `uri`, `addr`, `config`, `text`: the head that opens a tunnel, addresses
  and the values that configuration files give as text.
- `metric`: what is known of a backend.
- `tls`, `handshake`: keys, certificates and TLS configurations, and how a QUIC connection begins.
- `client`: host rules, load balancing, the state of backends and of the connections to them, the
  course of a tunnel, and the metric service.
- `server`: its configuration, and what it does with connections and streams.
- `easycert`: issuing and showing certificates.
- `tui`: the state of the terminal interface and what it shows.

What is left is ordinary Rust under `app/`: the command line, files, sockets, the runtime and the
terminal. It asks the library what to do next, does it, and hands back what came of it. The load of
a backend is an average in floating point and is kept there, too.

Outside crates are called from the library through functions marked
`#[verifier::external_body]`. The comment above each one names what it calls and says what is taken
on trust.
