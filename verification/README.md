# sodex

A verified library for trading on the SoDEX spot and perpetuals venues: credentials and
their redaction, the venue's enumerations and permission masks, decimal normalisation,
validated order and cancel requests whose exact JSON bytes are specified, EIP-712 digests
and signatures, nonces, the REST envelope, bar intervals and candle/kline conversion,
instrument loading and the numeric symbol map, stream keepalive and subscription
bookkeeping, and the submit/cancel decisions of an execution client.

Every function in `src/` is verified by Verus, and all but the two that read the clock
(`now_ms` and `NonceGenerator::new`) state in their contract what they return. Hashing, signing, key
generation, decimal parsing, the clock and UTF-8 decoding are the outside calls; each sits
behind a small trusted wrapper whose contract names or states what the call returns.

`app/` is the I/O edge: JSON decoding of venue payloads into the library's types, the
environment, and driving requests and stream frames over a transport supplied by the
embedding application. `tests/` exercises the library on the venue's documented examples.
