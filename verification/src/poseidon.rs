//! The Poseidon sponge hash of `ark_crypto_primitives`, used as the
//! circuit-friendly hash.

use vstd::prelude::*;

use ark_crypto_primitives::crh::poseidon::CRH as ArkPoseidonCRH;
use ark_crypto_primitives::crh::CRHScheme;
use ark_crypto_primitives::sponge::poseidon::PoseidonConfig;
use ark_ed_on_bn254::Fr as ArkFr;
use ark_ff::{BigInt, PrimeField};

use crate::crh::FieldCrh;
use crate::field::{field_values, FieldElement};

verus! {

/// The values of a matrix of field elements, row by row.
pub open spec fn matrix_values(m: Seq<Vec<FieldElement>>) -> Seq<Seq<nat>> {
    m.map_values(|row: Vec<FieldElement>| field_values(row@))
}

/// Parameters of the Poseidon sponge.
pub struct PoseidonParams {
    /// Number of rounds in a full-round operation.
    pub full_rounds: usize,
    /// Number of rounds in a partial-round operation.
    pub partial_rounds: usize,
    /// Exponent used in S-boxes.
    pub alpha: u64,
    /// Additive round keys, indexed by round and then by state element.
    pub ark: Vec<Vec<FieldElement>>,
    /// Maximally distance separating matrix.
    pub mds: Vec<Vec<FieldElement>>,
    /// The rate, in field elements.
    pub rate: usize,
    /// The capacity, in field elements.
    pub capacity: usize,
}

impl PoseidonParams {
    /// The shape the sponge needs: one round-key row per round, a square
    /// MDS matrix, every row as wide as the state, and a positive rate.
    pub open spec fn valid(&self) -> bool {
        &&& self.rate >= 1
        &&& self.ark@.len() == self.full_rounds + self.partial_rounds
        &&& forall|i: int|
            0 <= i < self.ark@.len() ==> #[trigger] self.ark@[i]@.len() == self.rate + self.capacity
        &&& self.mds@.len() == self.rate + self.capacity
        &&& forall|i: int|
            0 <= i < self.mds@.len() ==> #[trigger] self.mds@[i]@.len() == self.rate + self.capacity
    }

    /// Checks that the parameters have the shape the sponge needs.
    pub fn is_valid(&self) -> (r: bool)
        ensures
            r == self.valid(),
    {
        let rows = self.ark.len();
        let width = self.mds.len();
        if self.rate == 0 || self.rate > width || width - self.rate != self.capacity {
            return false;
        }
        if self.full_rounds > rows || rows - self.full_rounds != self.partial_rounds {
            return false;
        }
        let mut i: usize = 0;
        while i < self.ark.len()
            invariant
                i <= self.ark@.len(),
                width == self.rate + self.capacity,
                forall|k: int| 0 <= k < i ==> #[trigger] self.ark@[k]@.len() == width,
            decreases self.ark@.len() - i,
        {
            if self.ark[i].len() != width {
                return false;
            }
            i = i + 1;
        }
        let mut j: usize = 0;
        while j < self.mds.len()
            invariant
                j <= self.mds@.len(),
                width == self.rate + self.capacity,
                forall|k: int| 0 <= k < j ==> #[trigger] self.mds@[k]@.len() == width,
            decreases self.mds@.len() - j,
        {
            if self.mds[j].len() != width {
                return false;
            }
            j = j + 1;
        }
        true
    }
}

/// The output of the Poseidon sponge with the given parameters after
/// absorbing `input` and squeezing one field element.
pub uninterp spec fn poseidon_sponge_hash(
    full_rounds: nat,
    partial_rounds: nat,
    alpha: nat,
    ark: Seq<Seq<nat>>,
    mds: Seq<Seq<nat>>,
    rate: nat,
    capacity: nat,
    input: Seq<nat>,
) -> nat;

/// The Poseidon hash of the values `input` under `params`.
pub open spec fn poseidon_hash(params: PoseidonParams, input: Seq<nat>) -> nat {
    poseidon_sponge_hash(
        params.full_rounds as nat,
        params.partial_rounds as nat,
        params.alpha as nat,
        matrix_values(params.ark@),
        matrix_values(params.mds@),
        params.rate as nat,
        params.capacity as nat,
        input,
    )
}

/// The Poseidon hash absorbs the whole input, whatever its length: it is the
/// sponge's output for exactly these parameters and exactly this input.
pub proof fn lemma_poseidon_hashes_whole_input(params: PoseidonParams, input: Seq<nat>)
    ensures
        PoseidonCRH::hash(&params, input) == Ok::<nat, String>(
            poseidon_sponge_hash(
                params.full_rounds as nat,
                params.partial_rounds as nat,
                params.alpha as nat,
                matrix_values(params.ark@),
                matrix_values(params.mds@),
                params.rate as nat,
                params.capacity as nat,
                input,
            ),
        ),
{
}

/// `ark_crypto_primitives::crh::poseidon::CRH::evaluate` over
/// `ark_ed_on_bn254::Fr`: the sponge's squeezed element, named by
/// `poseidon_sponge_hash`. Its source always returns `Ok`.
#[verifier::external_body]
fn ark_poseidon_evaluate(params: &PoseidonParams, input: &[FieldElement]) -> (r: Result<FieldElement, String>)
    requires
        params.valid(),
    ensures
        r is Ok,
        r matches Ok(h) ==> h@ == poseidon_sponge_hash(
            params.full_rounds as nat,
            params.partial_rounds as nat,
            params.alpha as nat,
            matrix_values(params.ark@),
            matrix_values(params.mds@),
            params.rate as nat,
            params.capacity as nat,
            field_values(input@),
        ),
{
    let fr = |x: &FieldElement| ArkFr::from(BigInt::new(x.limbs));
    let mat = |m: &Vec<Vec<FieldElement>>| m.iter().map(|row| row.iter().map(fr).collect()).collect();
    let &PoseidonParams { full_rounds, partial_rounds, alpha, ref ark, ref mds, rate, capacity } = params;
    let config = PoseidonConfig { full_rounds, partial_rounds, alpha, ark: mat(ark), mds: mat(mds), rate, capacity };
    let xs: Vec<ArkFr> = input.iter().map(fr).collect();
    match ArkPoseidonCRH::<ArkFr>::evaluate(&config, xs.as_slice()) {
        Ok(h) => Ok(FieldElement { limbs: h.into_bigint().0 }),
        Err(e) => Err(e.to_string()),
    }
}

/// The Poseidon sponge as a hash scheme.
pub struct PoseidonCRH;

impl PoseidonCRH {
    /// Absorbs `input` into a fresh sponge and squeezes one element.
    pub fn evaluate(params: &PoseidonParams, input: &[FieldElement]) -> (r: Result<FieldElement, String>)
        requires
            params.valid(),
        ensures
            r matches Ok(h) && h@ == poseidon_hash(*params, field_values(input@)),
    {
        ark_poseidon_evaluate(params, input)
    }
}

impl FieldCrh for PoseidonCRH {
    type Parameters = PoseidonParams;

    open spec fn params_valid(params: &PoseidonParams) -> bool {
        params.valid()
    }

    open spec fn hash(params: &PoseidonParams, input: Seq<nat>) -> Result<nat, String> {
        Ok(poseidon_hash(*params, input))
    }

    fn check_params(params: &PoseidonParams) -> (r: bool) {
        params.is_valid()
    }

    fn evaluate(params: &PoseidonParams, input: &[FieldElement]) -> (r: Result<FieldElement, String>) {
        PoseidonCRH::evaluate(params, input)
    }
}

} // verus!
