# connect_preflight

What a host checks before it connects: that it holds an access pass the program will accept, and
that it can show a signed proof of the address it connects from. The decisions are verified with
Verus.

- `src/access_pass.rs`: whether the caller holds a usable pass, over closures that read the ledger.
- `src/client.rs`, `src/exchange.rs`: a request for a proof, as a sequence of due steps: build a
  client, send, read the answer, pause, send again.
- `src/wire.rs`: what the service's answers mean.
- `src/error.rs`: why no proof is available, and what the operator reads.
- `src/keys.rs`: keys, and the base58 text that `solana_sdk` gives them. Its four calls into that
  crate are trusted.
- `src/text.rs`: trimming, cutting and numerals.
- `src/laws.rs`: what holds of every exchange and of every check.
- `app/`: HTTP, JSON and the address type of the standard library.
- `tests/`: scenarios.
