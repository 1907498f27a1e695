# bincode serializer core, verified with Verus

`src/` is the verified library:

- `config` — byte order (`Endian`), the size budget (`SizeLimit`, with `add`) and `Options`.
- `error` — `ErrorKind`, the ways serializing can fail.
- `format` — the mathematical model: `Token` (one step of the serde data model),
  `encoding` (the bytes written for a step), `charges` (the byte counts the size
  checker charges), and the runs over several steps.
- `ser` — `Serializer`, which appends encodings to a byte buffer, `SizeChecker`,
  which charges sizes against the budget, and `encode_utf8`.
- `laws` — proof functions relating the two: the size checker accepts exactly what
  fits, integers and length prefixes read back, characters decode.
- `order` — the trusted calls into `byteorder` and `char::encode_utf8`.

`app/` implements `serde::Serializer` on top of the library: it walks values through
their `Serialize` impls, writes the produced bytes to an `io::Write`, and encodes
floats by their bits.
