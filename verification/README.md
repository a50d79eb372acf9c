# cashcode

A driver for CashCode bill validators speaking the CCNET serial protocol,
with its protocol logic verified in Verus.

- `src/` is the verified library: CRC-16/KERMIT, frame encoding and
  decoding, the byte-level frame receiver, command encoding and bill masks,
  POLL status parsing, bill table and identification parsing, and the
  decisions the device loop takes (ACK/NAK, waiting for readiness).
  The proof functions named `lemma_*` state the library's laws, among them
  the encode/decode round trips, detection of every single corrupted byte,
  and noise tolerance of the receiver.
- `app/` holds what touches the serial port: `CashcodeDevice`, the
  error type with the port's failures, the demo program, and a raw
  purchase sequence.
- `tests/` runs the library on concrete frames and responses.
