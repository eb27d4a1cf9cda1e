# bc_harness

Request handling for two conformance-test harnesses that drive the Bouncy Castle
Rust implementations of ML-KEM (FIPS 203) and ML-DSA (FIPS 204) over a JSON-lines
protocol, written in Verus and proved against its contracts.

- `src/` — the verified library:
  - `protocol` — requests and responses, reading named inputs (hexadecimal byte
    strings) and parameters, building answers;
  - `hexcodec` — what hexadecimal decoding and encoding (the `hex` crate) compute;
  - `decimal`, `text` — the decimal numerals and texts of messages;
  - `poly` — the wire form of a polynomial (256 coefficients, 2 bytes each,
    little-endian);
  - `mldsa`, `mlkem` — which request asks for what: `handle` answers a request
    or names the outside work (`Task`), `resume` takes what came of that work
    (`Event`) to the next step; the laws of each exchange are proved beside them.
- `app/` — the program: the JSON-lines loop on stdin/stdout and the calls into
  the Bouncy Castle crates, which run each task. Its first argument, `ml-dsa` or
  `ml-kem`, picks the harness; without one, a program name holding `kem` runs
  the ML-KEM harness and any other the ML-DSA one.
- `tests/` — tests of the library on concrete requests.
