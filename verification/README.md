# musyboard_wasm

Verified pieces of the MusyBoard end-to-end encryption bridge for iOS.

- `src/keys.rs`: `PublicKey` and `Identity`, 32-byte X25519 key material.
- `src/rng.rs`: `SeedSlot`, the one-shot slot through which the host hands
  over the seed of each operation, and the ChaCha20 generator built from it.
- `src/codec.rs`: the tag bytes that open each encoded incoming item.
- `src/hex.rs`: lower-case hexadecimal rendering of bytes.
- `src/fixtures.rs`: the deterministic identities, keys and generators used
  by the tests.
- `app/`: the process-wide seed slot behind the free functions `rng::seed`
  and `rng::take`.
