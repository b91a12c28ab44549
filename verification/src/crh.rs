//! Collision-resistant hashes from a list of field elements to one field
//! element.

use vstd::prelude::*;

use crate::field::{field_values, FieldElement};

verus! {

/// A collision-resistant hash scheme from field elements to a field element.
pub trait FieldCrh {
    /// The public parameters the scheme is evaluated with.
    type Parameters;

    /// Parameters that the scheme can be evaluated with.
    spec fn params_valid(params: &Self::Parameters) -> bool;

    /// The hash of the values `input` under `params`, or the error the scheme
    /// reports for them.
    spec fn hash(params: &Self::Parameters, input: Seq<nat>) -> Result<nat, String>;

    /// Whether `params` can be used to evaluate the scheme.
    fn check_params(params: &Self::Parameters) -> (r: bool)
        ensures
            r == Self::params_valid(params),
    ;

    /// Hashes `input`.
    fn evaluate(params: &Self::Parameters, input: &[FieldElement]) -> (r: Result<FieldElement, String>)
        requires
            Self::params_valid(params),
        ensures
            match Self::hash(params, field_values(input@)) {
                Ok(h) => r matches Ok(v) && v@ == h,
                Err(e) => r == Err::<FieldElement, String>(e),
            },
    ;
}

} // verus!
