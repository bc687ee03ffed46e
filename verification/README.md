# masaka

An MQTT client (v3.1.1 and v5.0) whose decisions are verified with Verus.

The library in `src/` is sans-I/O: every operation of the client is a step
that takes the current state (and, where it matters, the time or the packet
the broker sent) and returns the packets to send. Its behaviour is stated in
`requires`/`ensures` contracts and proved.

- `types`: QoS levels, packet identifiers, topic names and filters.
- `config`, `protocol_config`: client, reconnect, publish and transport
  settings; MQTT v3.1.1 and v5.0 protocol settings; validation.
- `error`, `text`: error types and their messages.
- `packet`: the packets the client sends and receives, as plain values.
- `handler`: building the packets of each protocol version and reading what
  received packets mean (with MQTT v5.0 topic aliases).
- `session`: the `SessionState` trait that a storage backend implements
  (packet identifiers, messages awaiting acknowledgment, releases and
  subscriptions), and `InMemorySession`, which implements it.
- `state`: the connection state machine, the receive queue and statistics.
- `engine`: keep-alive timing and the QoS 1 / QoS 2 acknowledgment and
  retransmission rules.
- `client`: connecting, reconnecting with backoff, publishing, subscribing,
  polling and disconnecting.
- `transport`: a mock transport for tests.

Calls into `mqtt-proto` (packet identifier arithmetic, variable byte
integers, topic validity, codec error texts) and `hashbrown` (the session's
maps and sets) stand behind small trusted wrappers whose contracts say what
those crates do.

`app/` is the async runtime around the library: a Tokio TCP transport, the
clock, the wire codec (encoding and decoding with `mqtt-proto`) and the
async client that runs the library's steps over the network.

`tests/` holds the tests.
