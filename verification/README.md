# mavrouter

A MAVLink router. The library (`src/`) holds the router's logic, verified
with Verus: configuration parsing, merging and validation; per-endpoint
message filters; payload de-duplication over a time wheel; framing of
MAVLink v1/v2 packets out of byte streams and datagrams; the target a
message is addressed to; the routing table
learned from traffic; the ingress and egress decisions of an endpoint; the
plan of tasks a configuration starts; the stats query protocol and the
telemetry log format.

The program (`app/`) runs the transports around that logic: UDP, TCP and
serial endpoints, the message bus, supervision and shutdown of tasks, and
the stats socket.

Layout:

- `src/config*` — the TOML schema, defaults, directory merging, validation.
- `src/filter.rs`, `src/dedup.rs` — filters and de-duplication.
- `src/framing.rs` — the stream parser and datagram decoding.
- `src/mavlink_utils.rs` — header values and the message-target rule.
- `src/routing.rs` — the routing table.
- `src/endpoint_core.rs`, `src/endpoints/` — endpoint decisions and formats.
- `src/orchestration*` — task planning and the stats protocol.
- `tests/` — tests of the library.
