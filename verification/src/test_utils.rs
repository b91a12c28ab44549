//! Fixtures shared by tests and examples.

use vstd::prelude::*;

use ark_crypto_primitives::sponge::poseidon::find_poseidon_ark_and_mds;
use ark_ed_on_bn254::Fr as ArkFr;
use ark_ff::PrimeField;

use crate::field::FieldElement;
use crate::poseidon::{matrix_values, PoseidonParams};

verus! {

/// The round constants and MDS matrix that the Grain LFSR of
/// `find_poseidon_ark_and_mds` yields for the field.
pub uninterp spec fn grain_ark_and_mds(
    rate: nat,
    full_rounds: nat,
    partial_rounds: nat,
    skip_matrices: nat,
) -> (Seq<Seq<nat>>, Seq<Seq<nat>>);

/// `ark_crypto_primitives::sponge::poseidon::find_poseidon_ark_and_mds` for
/// `ark_ed_on_bn254::Fr` with the field's bit size: one row of `rate + 1` round
/// constants per round and a square MDS matrix of side `rate + 1`, whose
/// values are named by `grain_ark_and_mds`. Whether the MDS search succeeds is
/// not stated in general, so only the configuration of `poseidon_params` is
/// admitted.
#[verifier::external_body]
fn find_ark_and_mds(rate: usize, full_rounds: u64, partial_rounds: u64, skip_matrices: u64) -> (r: (
    Vec<Vec<FieldElement>>,
    Vec<Vec<FieldElement>>,
))
    requires
        rate == 2,
        full_rounds == 8,
        partial_rounds == 24,
        skip_matrices == 0,
    ensures
        (matrix_values(r.0@), matrix_values(r.1@)) == grain_ark_and_mds(
            rate as nat,
            full_rounds as nat,
            partial_rounds as nat,
            skip_matrices as nat,
        ),
        r.0@.len() == full_rounds + partial_rounds,
        forall|i: int| 0 <= i < r.0@.len() ==> #[trigger] r.0@[i]@.len() == rate + 1,
        r.1@.len() == rate + 1,
        forall|i: int| 0 <= i < r.1@.len() ==> #[trigger] r.1@[i]@.len() == rate + 1,
{
    let (ark, mds) = find_poseidon_ark_and_mds::<ArkFr>(ArkFr::MODULUS_BIT_SIZE as u64, rate, full_rounds, partial_rounds, skip_matrices);
    let conv = |m: Vec<Vec<ArkFr>>| -> Vec<Vec<FieldElement>> {
        m.iter().map(|row| row.iter().map(|x| FieldElement { limbs: x.into_bigint().0 }).collect()).collect()
    };
    (conv(ark), conv(mds))
}

/// Poseidon parameters for tests: rate 2, capacity 1, 8 full and 24 partial
/// rounds, S-box exponent 31, constants from the Grain LFSR.
pub fn poseidon_params() -> (p: PoseidonParams)
    ensures
        p.valid(),
        p.full_rounds == 8,
        p.partial_rounds == 24,
        p.alpha == 31,
        p.rate == 2,
        p.capacity == 1,
        (matrix_values(p.ark@), matrix_values(p.mds@)) == grain_ark_and_mds(2, 8, 24, 0),
{
    let (ark, mds) = find_ark_and_mds(2, 8, 24, 0);
    PoseidonParams { full_rounds: 8, partial_rounds: 24, alpha: 31, ark, mds, rate: 2, capacity: 1 }
}

} // verus!
