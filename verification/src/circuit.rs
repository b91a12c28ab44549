//! Compressing a circuit's public statement into `(alpha, beta, gamma)`.

use vstd::prelude::*;

use crate::crh::FieldCrh;
use crate::field::{field_values, modulus, FieldElement};
use crate::hybrid_compression::{hybrid_spec, prover};
use crate::uhf::uhf_spec;
use crate::keccak::KeccakCRH;
use crate::poseidon::{PoseidonCRH, PoseidonParams};

verus! {

/// A compressed public statement.
#[derive(Clone, Debug, Default, PartialEq, Eq)]
pub struct Compressed<S> {
    /// Public: the out-of-circuit hash of the statement.
    pub alpha: FieldElement,
    /// Public: the circuit-friendly hash of the statement.
    pub beta: FieldElement,
    /// Public: the universal hash of the statement, seeded with `alpha + beta`.
    pub gamma: FieldElement,
    /// The statement as flat field values, in flattening order.
    pub statement_raw: Vec<FieldElement>,
    /// The inner circuit's structured statement.
    pub statement: S,
}

/// Why synthesising a constraint system failed.
#[derive(Clone, Copy, Debug, PartialEq, Eq)]
pub enum SynthesisFailure {
    /// A variable was allocated without a constraint system.
    MissingCS,
    /// A variable's assignment could not be computed.
    AssignmentMissing,
    /// Synthesis divided by zero.
    DivisionByZero,
    /// The constraint system is unsatisfiable.
    Unsatisfiable,
    /// A polynomial's degree is too large.
    PolynomialDegreeTooLarge,
    /// A predicate name matches no predicate.
    PredicateNotFound,
    /// A predicate got the wrong number of inputs.
    ArityMismatch,
}

/// Why compressing a statement failed.
#[derive(Debug)]
pub enum CompressError {
    /// Synthesising the inner circuit failed.
    Synthesis(SynthesisFailure),
    /// A hash reported an error; its message.
    Compression(String),
}

impl CompressError {
    /// The synthesis failure this error stands for: a failed hash makes the
    /// constraint system unsatisfiable.
    pub fn into_synthesis_failure(self) -> (r: SynthesisFailure)
        ensures
            match self {
                CompressError::Synthesis(s) => r == s,
                CompressError::Compression(_) => r == SynthesisFailure::Unsatisfiable,
            },
    {
        match self {
            CompressError::Synthesis(s) => s,
            CompressError::Compression(_) => SynthesisFailure::Unsatisfiable,
        }
    }
}

/// The triple `(alpha, beta, gamma)` that compresses `stmt`: `alpha` and
/// `beta` are the two hashes of `stmt` and `gamma` its universal hash seeded
/// with `alpha + beta`. Where a hash reports an error, that error, the
/// alpha hash's first.
pub open spec fn compress_spec<A: FieldCrh, B: FieldCrh>(
    alpha_params: &A::Parameters,
    beta_params: &B::Parameters,
    stmt: Seq<nat>,
) -> Result<(nat, nat, nat), String> {
    match A::hash(alpha_params, stmt) {
        Ok(alpha) => match hybrid_spec::<B>(beta_params, alpha, stmt) {
            Ok((beta, gamma)) => Ok((alpha, beta, gamma)),
            Err(e) => Err(e),
        },
        Err(e) => Err(e),
    }
}

/// Off-circuit hybrid compression: folds `stmt` into `(alpha, beta, gamma)`.
pub fn compress<A: FieldCrh, B: FieldCrh>(
    alpha_params: &A::Parameters,
    beta_params: &B::Parameters,
    stmt: &[FieldElement],
) -> (r: Result<(FieldElement, FieldElement, FieldElement), String>)
    requires
        A::params_valid(alpha_params),
        B::params_valid(beta_params),
    ensures
        match compress_spec::<A, B>(alpha_params, beta_params, field_values(stmt@)) {
            Ok((alpha, beta, gamma)) => r matches Ok((a, b, g)) && a@ == alpha && b@ == beta
                && g@ == gamma,
            Err(e) => r == Err::<(FieldElement, FieldElement, FieldElement), String>(e),
        },
{
    let alpha = match A::evaluate(alpha_params, stmt) {
        Ok(a) => a,
        Err(e) => return Err(e),
    };
    match prover::<B>(beta_params, alpha, stmt) {
        Ok((beta, gamma)) => Ok((alpha, beta, gamma)),
        Err(e) => Err(e),
    }
}

/// What compression yields: `alpha` is the alpha hash of the statement,
/// `beta` the beta hash of the statement, and `gamma` the universal hash of
/// the whole statement seeded with `alpha + beta` in the field. It succeeds
/// exactly when both hashes do, and otherwise reports the alpha hash's error
/// if it has one, else the beta hash's.
pub proof fn lemma_compress_is_both_hashes_then_uhf<A: FieldCrh, B: FieldCrh>(
    alpha_params: &A::Parameters,
    beta_params: &B::Parameters,
    stmt: Seq<nat>,
)
    ensures
        A::hash(alpha_params, stmt) is Ok && B::hash(beta_params, stmt) is Ok ==> ({
            let a = A::hash(alpha_params, stmt)->Ok_0;
            let b = B::hash(beta_params, stmt)->Ok_0;
            compress_spec::<A, B>(alpha_params, beta_params, stmt) == Ok::<(nat, nat, nat), String>(
                (a, b, uhf_spec((a + b) % modulus(), stmt)),
            )
        }),
        A::hash(alpha_params, stmt) is Err ==> compress_spec::<A, B>(
            alpha_params,
            beta_params,
            stmt,
        ) == Err::<(nat, nat, nat), String>(A::hash(alpha_params, stmt)->Err_0),
        A::hash(alpha_params, stmt) is Ok && B::hash(beta_params, stmt) is Err
            ==> compress_spec::<A, B>(alpha_params, beta_params, stmt) == Err::<
            (nat, nat, nat),
            String,
        >(B::hash(beta_params, stmt)->Err_0),
{
}

/// A compressed statement always passes the verifier: given the compressed
/// `beta`, the verifier recomputes the compressed `alpha` and `gamma`.
pub proof fn lemma_compressed_passes_verifier<A: FieldCrh, B: FieldCrh>(
    alpha_params: &A::Parameters,
    beta_params: &B::Parameters,
    stmt: Seq<nat>,
)
    requires
        compress_spec::<A, B>(alpha_params, beta_params, stmt) is Ok,
    ensures
        ({
            let (alpha, beta, gamma) = compress_spec::<A, B>(alpha_params, beta_params, stmt)->Ok_0;
            hybrid_spec::<A>(alpha_params, beta, stmt) == Ok::<(nat, nat), String>((alpha, gamma))
        }),
{
}

/// With Keccak as the out-of-circuit hash and Poseidon as the
/// circuit-friendly hash, every statement compresses: compression reads only
/// the flattened values, whatever relation the inner circuit enforces on them.
pub proof fn lemma_keccak_poseidon_compression_succeeds(beta_params: &PoseidonParams, stmt: Seq<nat>)
    ensures
        compress_spec::<KeccakCRH, PoseidonCRH>(&(), beta_params, stmt) is Ok,
{
}

/// The parameters of the two hashes that compress an inner circuit's
/// statement, with the inner circuit.
pub struct CompressedCircuit<C, A: FieldCrh, B: FieldCrh> {
    /// Parameters of the out-of-circuit hash.
    pub alpha_params: A::Parameters,
    /// Parameters of the circuit-friendly hash.
    pub beta_params: B::Parameters,
    /// The inner circuit.
    pub inner: C,
}

impl<C, A: FieldCrh, B: FieldCrh> CompressedCircuit<C, A, B> {
    /// Constructs a circuit using the given alpha and beta hashes.
    pub fn new(alpha_params: A::Parameters, beta_params: B::Parameters, inner: C) -> (r: Self)
        ensures
            r.alpha_params == alpha_params,
            r.beta_params == beta_params,
            r.inner == inner,
    {
        CompressedCircuit { alpha_params, beta_params, inner }
    }

    /// Compresses a statement given as its flat field values and its
    /// structured form.
    pub fn compress_statement<S>(&self, statement_raw: Vec<FieldElement>, statement: S) -> (r:
        Result<Compressed<S>, CompressError>)
        requires
            A::params_valid(&self.alpha_params),
            B::params_valid(&self.beta_params),
        ensures
            match compress_spec::<A, B>(
                &self.alpha_params,
                &self.beta_params,
                field_values(statement_raw@),
            ) {
                Ok((alpha, beta, gamma)) => r matches Ok(c) && c.alpha@ == alpha && c.beta@
                    == beta && c.gamma@ == gamma && c.statement_raw@ == statement_raw@
                    && c.statement == statement,
                Err(e) => r matches Err(CompressError::Compression(m)) && m == e,
            },
    {
        match compress::<A, B>(&self.alpha_params, &self.beta_params, statement_raw.as_slice()) {
            Ok((alpha, beta, gamma)) => Ok(Compressed { alpha, beta, gamma, statement_raw, statement }),
            Err(e) => Err(CompressError::Compression(e)),
        }
    }
}

impl<C, B: FieldCrh> CompressedCircuit<C, KeccakCRH, B> {
    /// Constructs a circuit using `KeccakCRH` as the alpha hash, matching
    /// Solidity's `LibHybridCompression.hash`.
    pub fn new_keccak(beta_params: B::Parameters, inner: C) -> (r: Self)
        ensures
            r.beta_params == beta_params,
            r.inner == inner,
    {
        Self::new((), beta_params, inner)
    }
}

} // verus!
