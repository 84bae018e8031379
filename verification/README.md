# rcli

A command-line toolbox: Base64 encoding and decoding, signing and verifying
text with a keyed BLAKE3 hash or Ed25519, key generation, and a small static
file server.

- `src/` is the library, verified with Verus. `encoding.rs` states Base64
  (RFC 4648) as a spec function and proves that decoding inverts encoding;
  `crypto.rs` names the results of BLAKE3 and Ed25519; `cli/` holds the
  command-line options and the checks on arguments; `process/` holds what
  each command computes once its input has been read.
- `app/` is the program: argument parsing with clap, reading and writing
  files, printing, and the HTTP server.
- `tests/` runs the library on concrete values.
