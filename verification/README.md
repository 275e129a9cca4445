# clash_lib

The decisions of a rule-based proxy, verified with Verus.

- `src/rules/`: routing rules over the domain name of a destination (`Domain`,
  `DomainKeyword`, `DomainSuffix`), and in `laws.rs` what holds between them.
- `src/tuic/`: the TUIC outbound. `types.rs` holds addresses and protocol settings,
  `options.rs` the configuration, `handler.rs` the outbound's description, `init.rs`
  the stages in which an outbound is built, `outbound.rs` the shared outbound and its
  streams, `datagram.rs` UDP packets, `laws.rs` what holds of the whole.
- `src/session.rs`, `src/text.rs`: sessions and addresses; text and its bytes.
- `app/`: network, TLS and time around the library, on the Wind crates.

The library does no I/O. Where an outbound needs something done, a stage or a step
says what, and is left with what came of it.
