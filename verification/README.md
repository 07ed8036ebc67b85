# cronet

Rust bindings for Chromium's Cronet networking stack, with the decision
logic verified by Verus.

- `src/` is the verified core: engine and request configuration (including
  the JSON experimental options), native result, status and error codes,
  the socket-like bidirectional stream state machine and its deadlines, the
  Naive padding protocol and CONNECT handshake, Naive client planning
  (authorization, connection pools, DNS redirects and ECH), IP literals, the DNS name
  rules, the DNS query handling for server redirects and ECH (messages are
  decoded and encoded with `hickory-proto`), the in-memory upload body, and
  the collector that turns request callbacks into one response.
- `app/` is the native layer around it: declarations of the Cronet C API,
  engines, requests, executors, callback trampolines, socket hooks, the DNS
  proxy and the blocking and async clients.
- `tests/` exercises the verified core on concrete values.
