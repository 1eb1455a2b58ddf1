# ironrdp_client

Verified client-side logic of an RDP connection, written in Verus.

- `src/quantization.rs` — RemoteFX dequantization of a 64x64 tile of
  wavelet coefficients, with its subband layout as a specification.
- `src/static_channels.rs` — the static virtual channels of a connection, a
  map from channel name to MCS channel id.
- `src/connection_sequence.rs` — what the client accepts from the server at
  each step of the connection sequence (MCS connect, attach user, channel
  join, licensing, capability exchange, finalization) and what it sends next.
- `src/display.rs` — the handler of the display control channel.
- `src/pdu.rs` — the calls into `ironrdp-pdu` and `ironrdp-displaycontrol`
  that decode server PDUs; their results are named, not proved.
- `src/error.rs` — the errors.
- `app/` — the reads and writes around the library (TLS, CredSSP, the
  transports) and the conversions between `ironrdp-pdu`'s PDUs and the
  library's values.
