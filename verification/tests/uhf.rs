use ark_hybrid_compression::field::FieldElement;
use ark_hybrid_compression::uhf::uhf;

fn fe(n: u64) -> FieldElement {
    FieldElement::from_u64(n)
}

#[test]
fn test_empty_input() {
    let sigma = fe(7);
    assert_eq!(uhf(sigma, &[]), FieldElement::zero());
}

#[test]
fn test_known_vector() {
    // UHF(sigma, [x1, x2, x3]) = x1 + x2*sigma + x3*sigma^2
    let sigma = fe(2);
    let x = [fe(3), fe(5), fe(7)];
    assert_eq!(uhf(sigma, &x), fe(3 + 5 * 2 + 7 * 4));
}

#[test]
fn uhf_single_value_is_the_value() {
    assert_eq!(uhf(fe(123), &[fe(9)]), fe(9));
}

#[test]
fn uhf_seed_zero_is_constant_coefficient() {
    assert_eq!(uhf(fe(0), &[fe(11), fe(5), fe(8)]), fe(11));
}

#[test]
fn uhf_seed_one_is_sum() {
    assert_eq!(uhf(fe(1), &[fe(1), fe(2), fe(3), fe(4)]), fe(10));
}

#[test]
fn uhf_reduces_modulo_field_order() {
    // sigma = p - 1 = -1, so UHF = x0 - x1 + x2.
    let p_minus_one = FieldElement::from_canonical_limbs([
        0x677297dc392126f0,
        0xab3eedb83920ee0a,
        0x370a08b6d0302b0b,
        0x060c89ce5c263405,
    ])
    .unwrap();
    assert_eq!(uhf(p_minus_one, &[fe(10), fe(3), fe(5)]), fe(12));
}
