use ark_ed_on_bn254::Fr;
use ark_ff::{PrimeField, UniformRand};
use ark_hybrid_compression::circuit::{compress, CompressError, CompressedCircuit, SynthesisFailure};
use ark_hybrid_compression::field::FieldElement;
use ark_hybrid_compression::poseidon::PoseidonCRH;
use ark_hybrid_compression::test_utils::poseidon_params;
use ark_hybrid_compression::uhf::uhf;

fn from_ark(x: Fr) -> FieldElement {
    FieldElement::from_canonical_limbs(x.into_bigint().0).unwrap()
}

/// The flattened statement of the example circuit: `a, b, c` and their sum.
fn test_statement(rng: &mut impl ark_std::rand::Rng) -> Vec<FieldElement> {
    let a = Fr::rand(rng);
    let b = Fr::rand(rng);
    let c = Fr::rand(rng);
    vec![from_ark(a), from_ark(b), from_ark(c), from_ark(a + b + c)]
}

#[test]
fn test_compress_matches_native() {
    let mut rng = ark_std::test_rng();
    let params = poseidon_params();
    let stmt = test_statement(&mut rng);

    let circuit = CompressedCircuit::<_, PoseidonCRH, PoseidonCRH>::new(
        poseidon_params(),
        poseidon_params(),
        (),
    );
    let compressed = circuit.compress_statement(stmt.clone(), ()).unwrap();

    let (alpha, beta, gamma) = compress::<PoseidonCRH, PoseidonCRH>(&params, &params, &stmt).unwrap();
    assert_eq!(compressed.statement_raw, stmt);
    assert_eq!(compressed.alpha, alpha);
    assert_eq!(compressed.beta, beta);
    assert_eq!(compressed.gamma, gamma);
}

#[test]
fn compressed_gamma_is_seeded_with_alpha_plus_beta() {
    let mut rng = ark_std::test_rng();
    let params = poseidon_params();
    let stmt = test_statement(&mut rng);
    let (alpha, beta, gamma) = compress::<PoseidonCRH, PoseidonCRH>(&params, &params, &stmt).unwrap();
    assert_eq!(alpha, beta);
    assert_eq!(gamma, uhf(alpha.add(&beta), &stmt));
}

#[test]
fn keccak_circuit_keeps_statement() {
    let circuit = CompressedCircuit::<_, _, PoseidonCRH>::new_keccak(poseidon_params(), "inner");
    assert_eq!(circuit.inner, "inner");
    let stmt = vec![FieldElement::from_u64(1), FieldElement::from_u64(2)];
    let compressed = circuit.compress_statement(stmt.clone(), 7u8).unwrap();
    assert_eq!(compressed.statement, 7u8);
    assert_eq!(compressed.statement_raw, stmt);
}

#[test]
fn compression_error_becomes_unsatisfiable() {
    let e = CompressError::Compression("bad hash".to_string());
    assert_eq!(e.into_synthesis_failure(), SynthesisFailure::Unsatisfiable);
    let e = CompressError::Synthesis(SynthesisFailure::AssignmentMissing);
    assert_eq!(e.into_synthesis_failure(), SynthesisFailure::AssignmentMissing);
}
