# udp-wiremock

Black-box testing of programs that send UDP packets. A mock server records every
datagram it receives; a registered mock says how many packets it expects and
which matchers decide whether a packet is one it expects (a `Mock` needs
every matcher to accept each packet, a `MockTest` at least one); when the server goes away the packets
are checked against the mock.

Layout:

- `src/` is the verified library: the mocks and their builders (`mock.rs`,
  `mock/test.rs`), the shared server states and the receive loop's step function
  (`mock/state.rs`, `mock_server.rs`, `background_task.rs`), the matcher trait,
  the matching rules and their laws (`matcher.rs`), and the error with its text
  (`error.rs`).
- `app/` holds the sockets, tokio tasks, locks, the postcard/serde matcher and
  the `thiserror` copy of the error; it hands every event and every check to the
  library.
- `tests/` exercises the library on concrete packets.
