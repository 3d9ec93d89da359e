# vocoder-rs

A vocoder service with gRPC interfaces (loopback control, transmit and receive
algorithm selection, packet streaming) and a G.711 codec, written in Verus.

## Layout

- `src/g711.rs` — G.711 mu-law and A-law coding of 16-bit samples, with the
  quantisation laws (round trip, error bound, monotonicity, re-encoding, sign symmetry).
- `src/vocoder.rs` — the algorithms and their wire codes, and the vocoder control
  state with its selection rules and laws.
- `src/packets.rs` — the decisions of the streaming endpoints: produced packet count
  and frames, and the step-by-step counting and answering of consumed streams.
- `src/messages.rs` — the plain request and reply messages.
- `app/` — the server program: the async lock around the state, the gRPC services,
  their protobuf wire types and routing, and `main`.
- `tests/` — tests of the library.

The proofs are checked by running Verus on `src/lib.rs`.
