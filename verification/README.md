# m2pa

An M2PA (RFC 4165, MTP2 Peer-to-Peer Adaptation Layer) codec and link state
machine, written in Verus: every function of the library carries a contract
that Verus proves.

- `src/header.rs` — the common message header and the M2PA header, kept as
  their eight wire octets, with validation.
- `src/user_data.rs`, `src/link_status.rs` — the two message bodies.
- `src/message.rs` — whole-message encode/decode, and the proofs that decoding
  an encoding gives the message back, that the length field matches the
  octets, and that canonical octet strings survive decode then encode.
- `src/state_machine.rs` — the RFC 4165 §4 link lifecycle and its laws.
- `src/wire.rs`, `src/text.rs` — big-endian octet and decimal text helpers.
- `app/` — the error type's messages and the Python bindings (PyO3).
