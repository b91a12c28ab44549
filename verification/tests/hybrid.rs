use ark_hybrid_compression::field::FieldElement;
use ark_hybrid_compression::hybrid_compression::{prover, verifier_compute};
use ark_hybrid_compression::poseidon::PoseidonCRH;
use ark_hybrid_compression::test_utils::poseidon_params;
use ark_hybrid_compression::uhf::uhf;
use ark_hybrid_compression::KeccakCRH;

fn stmt() -> Vec<FieldElement> {
    (0..10u64).map(FieldElement::from_u64).collect()
}

#[test]
fn prover_gamma_is_uhf_of_alpha_plus_beta() {
    let params = poseidon_params();
    let alpha = FieldElement::from_u64(42);
    let x = stmt();
    let (beta, gamma) = prover::<PoseidonCRH>(&params, alpha, &x).unwrap();
    assert_eq!(beta, PoseidonCRH::evaluate(&params, &x).unwrap());
    assert_eq!(gamma, uhf(alpha.add(&beta), &x));
}

#[test]
fn verifier_gamma_is_uhf_of_beta_plus_alpha() {
    let beta = FieldElement::from_u64(42);
    let x = stmt();
    let (alpha, gamma) = verifier_compute::<KeccakCRH>(&(), beta, &x).unwrap();
    assert_eq!(alpha, KeccakCRH::evaluate(&(), &x).unwrap());
    assert_eq!(gamma, uhf(beta.add(&alpha), &x));
}

#[test]
fn prover_and_verifier_agree() {
    let params = poseidon_params();
    let x = stmt();
    let alpha = KeccakCRH::evaluate(&(), &x).unwrap();
    let (beta, gamma) = prover::<PoseidonCRH>(&params, alpha, &x).unwrap();
    let (alpha2, gamma2) = verifier_compute::<KeccakCRH>(&(), beta, &x).unwrap();
    assert_eq!(alpha2, alpha);
    assert_eq!(gamma2, gamma);
}

#[test]
fn empty_statement_has_zero_gamma() {
    let (alpha, gamma) = verifier_compute::<KeccakCRH>(&(), FieldElement::from_u64(3), &[]).unwrap();
    assert_eq!(alpha, KeccakCRH::evaluate(&(), &[]).unwrap());
    assert_eq!(gamma, FieldElement::zero());
}
