use ark_ed_on_bn254::Fr;
use ark_ff::{PrimeField, UniformRand};
use ark_hybrid_compression::circuit::{Compressed, CompressedCircuit};
use ark_hybrid_compression::field::FieldElement;
use ark_hybrid_compression::hybrid_compression;
use ark_hybrid_compression::poseidon::PoseidonCRH;
use ark_hybrid_compression::test_utils::poseidon_params;
use ark_hybrid_compression::KeccakCRH;

fn from_ark(x: Fr) -> FieldElement {
    FieldElement::from_canonical_limbs(x.into_bigint().0).unwrap()
}

fn compressed() -> Compressed<()> {
    let mut rng = ark_std::test_rng();
    let a = Fr::rand(&mut rng);
    let b = Fr::rand(&mut rng);
    let c = Fr::rand(&mut rng);
    let stmt = vec![from_ark(a), from_ark(b), from_ark(c), from_ark(a + b + c)];

    let circuit = CompressedCircuit::<_, _, PoseidonCRH>::new_keccak(poseidon_params(), ());
    circuit.compress_statement(stmt, ()).unwrap()
}

#[test]
fn verifier_matches_prover() {
    let compressed = compressed();

    let (alpha, gamma) = hybrid_compression::verifier_compute::<KeccakCRH>(
        &(),
        compressed.beta,
        &compressed.statement_raw,
    )
    .unwrap();

    assert_eq!(alpha, compressed.alpha);
    assert_eq!(gamma, compressed.gamma);
}

#[test]
fn verifier_rejects_tampered_statement() {
    let compressed = compressed();

    let mut tampered = compressed.statement_raw.clone();
    tampered[0] = tampered[0].add(&FieldElement::from_u64(1));

    let (alpha, gamma) =
        hybrid_compression::verifier_compute::<KeccakCRH>(&(), compressed.beta, &tampered).unwrap();

    assert_ne!(alpha, compressed.alpha);
    assert_ne!(gamma, compressed.gamma);
}
