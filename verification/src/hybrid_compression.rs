//! Native hybrid compression: one party hashes the statement with its own
//! hash, adds the other party's hash, and seeds the universal hash with the
//! sum.

use vstd::prelude::*;

use crate::crh::FieldCrh;
use crate::field::{field_values, modulus, FieldElement};
use crate::uhf::{uhf, uhf_spec};

verus! {

/// The pair `(computed, gamma)` for a party that knows `known`: `computed`
/// is the hash of `stmt` and `gamma` the universal hash of `stmt` seeded with
/// `known + computed`. Where the hash reports an error, that error.
pub open spec fn hybrid_spec<H: FieldCrh>(
    params: &H::Parameters,
    known: nat,
    stmt: Seq<nat>,
) -> Result<(nat, nat), String> {
    match H::hash(params, stmt) {
        Ok(computed) => Ok((computed, uhf_spec((known + computed) % modulus(), stmt))),
        Err(e) => Err(e),
    }
}

/// Computes `(computed, gamma)`: hashes `stmt` with `H`, then takes the
/// universal hash of `stmt` seeded with `known + computed`.
pub fn hybrid_compression<H: FieldCrh>(
    params: &H::Parameters,
    known: FieldElement,
    stmt: &[FieldElement],
) -> (r: Result<(FieldElement, FieldElement), String>)
    requires
        H::params_valid(params),
    ensures
        match hybrid_spec::<H>(params, known@, field_values(stmt@)) {
            Ok((c, g)) => r matches Ok((computed, gamma)) && computed@ == c && gamma@ == g,
            Err(e) => r == Err::<(FieldElement, FieldElement), String>(e),
        },
{
    let computed = match H::evaluate(params, stmt) {
        Ok(h) => h,
        Err(e) => return Err(e),
    };
    let gamma = uhf(known.add(&computed), stmt);
    Ok((computed, gamma))
}

/// Computes `(beta, gamma)` for the given `alpha`: `beta` is the
/// circuit-friendly hash of `stmt`, `gamma` its universal hash seeded with
/// `alpha + beta`.
pub fn prover<B: FieldCrh>(
    beta_params: &B::Parameters,
    alpha: FieldElement,
    stmt: &[FieldElement],
) -> (r: Result<(FieldElement, FieldElement), String>)
    requires
        B::params_valid(beta_params),
    ensures
        match hybrid_spec::<B>(beta_params, alpha@, field_values(stmt@)) {
            Ok((beta, g)) => r matches Ok((b, gamma)) && b@ == beta && gamma@ == g,
            Err(e) => r == Err::<(FieldElement, FieldElement), String>(e),
        },
{
    hybrid_compression::<B>(beta_params, alpha, stmt)
}

/// Computes `(alpha, gamma)` from the `beta` the prover sent: `alpha` is the
/// out-of-circuit hash of `stmt`, `gamma` its universal hash seeded with
/// `beta + alpha`.
pub fn verifier_compute<A: FieldCrh>(
    alpha_params: &A::Parameters,
    beta: FieldElement,
    stmt: &[FieldElement],
) -> (r: Result<(FieldElement, FieldElement), String>)
    requires
        A::params_valid(alpha_params),
    ensures
        match hybrid_spec::<A>(alpha_params, beta@, field_values(stmt@)) {
            Ok((alpha, g)) => r matches Ok((a, gamma)) && a@ == alpha && gamma@ == g,
            Err(e) => r == Err::<(FieldElement, FieldElement), String>(e),
        },
{
    hybrid_compression::<A>(alpha_params, beta, stmt)
}

/// What one party computes: `computed` is the party's hash of the whole
/// statement, and `gamma` is the universal hash (`uhf`) of the whole
/// statement seeded with `known + computed` in the field. A hash error is
/// passed on unchanged.
pub proof fn lemma_hybrid_is_hash_then_uhf<H: FieldCrh>(
    params: &H::Parameters,
    known: nat,
    stmt: Seq<nat>,
)
    ensures
        H::hash(params, stmt) matches Ok(c) ==> hybrid_spec::<H>(params, known, stmt) == Ok::<
            (nat, nat),
            String,
        >((c, uhf_spec((known + c) % modulus(), stmt))),
        H::hash(params, stmt) matches Err(e) ==> hybrid_spec::<H>(params, known, stmt) == Err::<
            (nat, nat),
            String,
        >(e),
{
}

/// The verifier recomputes the prover's `gamma`: when the prover is given
/// the out-of-circuit hash `alpha` of the statement and answers `beta`, the
/// verifier, given `beta`, recovers the same `alpha` and the same `gamma`.
pub proof fn lemma_verifier_matches_prover<A: FieldCrh, B: FieldCrh>(
    alpha_params: &A::Parameters,
    beta_params: &B::Parameters,
    stmt: Seq<nat>,
)
    requires
        A::hash(alpha_params, stmt) is Ok,
        B::hash(beta_params, stmt) is Ok,
    ensures
        ({
            let alpha = A::hash(alpha_params, stmt)->Ok_0;
            let beta = B::hash(beta_params, stmt)->Ok_0;
            let proved = hybrid_spec::<B>(beta_params, alpha, stmt);
            let verified = hybrid_spec::<A>(alpha_params, beta, stmt);
            &&& proved matches Ok((b, _)) && b == beta
            &&& verified matches Ok((a, _)) && a == alpha
            &&& (proved->Ok_0).1 == (verified->Ok_0).1
        }),
{
}

} // verus!
