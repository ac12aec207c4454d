# miraculix

Token-gated x86 SIMD operations with machine-checked contracts.

Each instruction-set extension is a zero-sized token (`Sse2`, `Avx512BwVl`, `Gfni`, ...) that
can only be obtained from a `FeatureSet` holding the features it needs. The integer, bitwise,
cryptographic and mask operations on those tokens are written as plain lane loops in Verus and
proved against lane-by-lane specifications: every public function states, for every input it
accepts, exactly what it returns.

## Layout

- `src/x86/feature.rs`, `feature_set.rs`, `tiers.rs`, `shortpath.rs`: the feature flags, the
  feature bitset viewed as a set, the x86-64 micro-architecture levels and the startup
  dispatch decisions.
- `src/x86/ops/`: the tokens and their operations, by extension (`mmx`, `sse/`, `avx512/`,
  `other/` for AES, SHA, CRC-32C, GFNI, carry-less multiply, POPCNT and the AMD extras).
  `lanes.rs`, `lane_ops.rs`, `chunk.rs` and `wide.rs` hold the shared lane specifications and
  helpers.
- Laws are public proof functions next to the operations they relate, for example the AES
  round inverses (`other/aes.rs`), the GF(2^8) field laws (`other/gfni.rs`), CRC-32C
  concatenation (`sse/crc32c.rs`), the SHA message schedules (`other/sha.rs`) and the k-mask
  round trips (`avx512/kmask/mod.rs`).
- `tests/`: executable tests of the library, on concrete values.
- `app/`: what stays outside the proofs: CPU probing (`Token::detect()`), the compile-time
  feature floor, hardware transactional memory, and the floating-point lane operations.
