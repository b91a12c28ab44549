# ark-hybrid-compression

Hybrid compression of a zk statement into three field elements
`(alpha, beta, gamma)`: `alpha` is an out-of-circuit hash of the statement
(Keccak-256, as Solidity computes it), `beta` a circuit-friendly hash
(Poseidon), and `gamma` a universal (polynomial) hash of the statement seeded
with `alpha + beta`. The verifier, given `beta`, recomputes `alpha` and
`gamma`.

Layout:

- `src/` — the library, verified with Verus over the scalar field of the
  Baby Jubjub curve (`ark_ed_on_bn254::Fr`):
  - `field.rs`: canonical field elements; addition, multiplication and byte
    conversions are `ark_ff`'s, behind trusted wrappers with exact contracts.
  - `uhf.rs`: the universal hash, proved equal to polynomial evaluation.
  - `crh.rs`: the hash-scheme trait; `keccak.rs` and `poseidon.rs` implement it.
  - `hybrid_compression.rs`: the prover and verifier computations, with the
    law that the verifier recomputes the prover's `gamma`.
  - `circuit.rs`: compressing a flattened statement into `Compressed`.
  - `test_utils.rs`: Poseidon parameters for tests.
- `app/` — the constraint-system side (`ark_relations` / `ark_r1cs_std`):
  in-circuit gadgets, the compressible-circuit traits and the
  `ConstraintSynthesizer` wiring.
- `tests/` — tests of the library.
