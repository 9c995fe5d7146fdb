# emulator_service

The types that a client of a machine manager exchanges with it (requests for sessions,
runs, logged steps, memory reads and writes, proofs, and their answers), with verified
conversions to and from the manager's interface messages.

- `src/word.rs`: the eight-byte words of logged accesses.
- `src/hash.rs`: 256-bit hashes.
- `src/cartesi_machine.rs`, `src/machine_manager.rs`: the interface messages, as plain values,
  with checks of their well-formedness.
- `src/emulator_service.rs`: the client's types and their conversions; each conversion's
  contract gives its result exactly, over the types' views.
- `src/laws.rs`: the round trips between the two sides.
- `app/`: encoding and decoding of the messages' bytes with protobuf, and the copies between
  the generated messages and the plain ones.
