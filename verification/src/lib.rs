//! Hybrid compression of public statements over the scalar field of the
//! Baby Jubjub curve (`ark_ed_on_bn254::Fr`): an out-of-circuit hash `alpha`,
//! a circuit-friendly hash `beta` and a universal hash `gamma` seeded with
//! `alpha + beta`.

pub mod circuit;
pub mod crh;
pub mod field;
pub mod hybrid_compression;
pub mod keccak;
pub mod poseidon;
pub mod test_utils;
pub mod uhf;

pub use keccak::KeccakCRH;
