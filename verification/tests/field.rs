use ark_ed_on_bn254::Fr;
use ark_ff::{BigInteger, PrimeField, UniformRand};
use ark_hybrid_compression::field::FieldElement;

fn from_ark(x: Fr) -> FieldElement {
    FieldElement::from_canonical_limbs(x.into_bigint().0).unwrap()
}

const P_LIMBS: [u64; 4] = [
    0x677297dc392126f1,
    0xab3eedb83920ee0a,
    0x370a08b6d0302b0b,
    0x060c89ce5c263405,
];

#[test]
fn modulus_is_not_canonical() {
    assert!(FieldElement::from_canonical_limbs(P_LIMBS).is_none());
    assert!(FieldElement::from_canonical_limbs([u64::MAX; 4]).is_none());
    let mut above = P_LIMBS;
    above[0] += 1;
    assert!(FieldElement::from_canonical_limbs(above).is_none());
}

#[test]
fn modulus_minus_one_is_canonical() {
    let mut below = P_LIMBS;
    below[0] -= 1;
    let x = FieldElement::from_canonical_limbs(below).unwrap();
    assert_eq!(x.to_limbs(), below);
    let mut top_below = P_LIMBS;
    top_below[3] -= 1;
    top_below[0] = u64::MAX;
    assert!(FieldElement::from_canonical_limbs(top_below).is_some());
}

#[test]
fn limbs_round_trip() {
    let mut rng = ark_std::test_rng();
    for _ in 0..20 {
        let x = from_ark(Fr::rand(&mut rng));
        assert_eq!(FieldElement::from_canonical_limbs(x.to_limbs()), Some(x));
    }
}

#[test]
fn add_wraps_at_modulus() {
    let mut below = P_LIMBS;
    below[0] -= 1;
    let minus_one = FieldElement::from_canonical_limbs(below).unwrap();
    assert_eq!(minus_one.add(&FieldElement::from_u64(5)), FieldElement::from_u64(4));
    assert_eq!(FieldElement::from_u64(2).add(&FieldElement::from_u64(3)), FieldElement::from_u64(5));
}

#[test]
fn mul_matches_integers_and_wraps() {
    assert_eq!(FieldElement::from_u64(6).mul(&FieldElement::from_u64(7)), FieldElement::from_u64(42));
    let mut below = P_LIMBS;
    below[0] -= 1;
    let minus_one = FieldElement::from_canonical_limbs(below).unwrap();
    assert_eq!(minus_one.mul(&minus_one), FieldElement::one());
}

#[test]
fn add_and_mul_agree_with_ark() {
    let mut rng = ark_std::test_rng();
    for _ in 0..20 {
        let a = Fr::rand(&mut rng);
        let b = Fr::rand(&mut rng);
        assert_eq!(from_ark(a).add(&from_ark(b)), from_ark(a + b));
        assert_eq!(from_ark(a).mul(&from_ark(b)), from_ark(a * b));
    }
}

#[test]
fn to_bytes_be_is_big_endian() {
    let bytes = FieldElement::from_u64(0x0102).to_bytes_be();
    assert_eq!(bytes.len(), 32);
    assert_eq!(bytes[30], 0x01);
    assert_eq!(bytes[31], 0x02);
    assert!(bytes[..30].iter().all(|b| *b == 0));
    let mut rng = ark_std::test_rng();
    let a = Fr::rand(&mut rng);
    assert_eq!(from_ark(a).to_bytes_be(), a.into_bigint().to_bytes_be());
}

#[test]
fn from_be_bytes_reduces() {
    let mut word = [0u8; 32];
    word[31] = 7;
    assert_eq!(FieldElement::from_be_bytes_mod_order(&word), FieldElement::from_u64(7));
    let all_ones = [0xffu8; 32];
    assert_eq!(
        FieldElement::from_be_bytes_mod_order(&all_ones),
        from_ark(Fr::from_be_bytes_mod_order(&all_ones))
    );
    assert_ne!(FieldElement::from_be_bytes_mod_order(&all_ones), FieldElement::zero());
}

#[test]
fn bytes_round_trip() {
    let mut rng = ark_std::test_rng();
    for _ in 0..20 {
        let x = from_ark(Fr::rand(&mut rng));
        let bytes: [u8; 32] = x.to_bytes_be().try_into().unwrap();
        assert_eq!(FieldElement::from_be_bytes_mod_order(&bytes), x);
    }
}
