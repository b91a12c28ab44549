//! The universal hash function: a polynomial in the seed whose coefficients
//! are the hashed values.

use vstd::prelude::*;
use vstd::arithmetic::power::pow;
use vstd::arithmetic::div_mod::{
    lemma_add_mod_noop_right, lemma_mul_mod_noop_left, lemma_mul_mod_noop_right,
};

use crate::field::{field_values, modulus, FieldElement};

verus! {

/// `xs[0] + xs[1] * sigma + ... + xs[n-1] * sigma^(n-1)` over the integers.
pub open spec fn poly_eval(sigma: int, xs: Seq<nat>) -> int
    decreases xs.len(),
{
    if xs.len() == 0 {
        0
    } else {
        poly_eval(sigma, xs.drop_last()) + xs.last() * pow(sigma, (xs.len() - 1) as nat)
    }
}

/// The universal hash of the values `xs` seeded with `sigma`: the polynomial
/// with coefficients `xs` evaluated at `sigma` in the field.
pub open spec fn uhf_spec(sigma: nat, xs: Seq<nat>) -> nat {
    (poly_eval(sigma as int, xs) % (modulus() as int)) as nat
}

/// Horner's rule: the polynomial is its constant coefficient plus `sigma`
/// times the polynomial of the remaining coefficients.
pub proof fn lemma_poly_eval_horner(sigma: int, xs: Seq<nat>)
    requires
        xs.len() > 0,
    ensures
        poly_eval(sigma, xs) == xs[0] + sigma * poly_eval(sigma, xs.drop_first()),
    decreases xs.len(),
{
    reveal(pow);
    if xs.len() == 1 {
        assert(poly_eval(sigma, xs.drop_last()) == 0);
        assert(poly_eval(sigma, xs.drop_first()) == 0);
    } else {
        let ys = xs.drop_last();
        let n = xs.len();
        lemma_poly_eval_horner(sigma, ys);
        assert(xs.drop_first().drop_last() =~= ys.drop_first());
        let rest = poly_eval(sigma, ys.drop_first());
        let t = xs.last() * pow(sigma, (n - 2) as nat);
        assert(sigma * t == xs.last() * pow(sigma, (n - 1) as nat)) by (nonlinear_arith)
            requires
                t == xs.last() * pow(sigma, (n - 2) as nat),
                pow(sigma, (n - 1) as nat) == sigma * pow(sigma, (n - 2) as nat),
        ;
        assert(sigma * (rest + t) == sigma * rest + sigma * t) by (nonlinear_arith);
    }
}

/// The universal hash of no values is zero, whatever the seed.
pub proof fn lemma_uhf_empty(sigma: nat)
    ensures
        uhf_spec(sigma, Seq::empty()) == 0,
{
}

/// The universal hash of a single value is that value in the field,
/// whatever the seed.
pub proof fn lemma_uhf_single(sigma: nat, x: nat)
    ensures
        uhf_spec(sigma, seq![x]) == x % modulus(),
{
    lemma_uhf_horner(sigma, x, Seq::empty());
    assert(seq![x] + Seq::<nat>::empty() =~= seq![x]);
    assert(uhf_spec(sigma, Seq::empty()) == 0);
    assert(sigma * 0 == 0) by (nonlinear_arith);
}

/// Horner's law for the universal hash, for statements of every length:
/// hashing `x0` followed by `rest` is `x0` plus the seed times the hash of
/// `rest`, in the field. With `lemma_uhf_empty` this fixes the hash of every
/// statement: every value is a coefficient, the `i`-th one of `sigma^i`.
pub proof fn lemma_uhf_horner(sigma: nat, x0: nat, rest: Seq<nat>)
    ensures
        uhf_spec(sigma, seq![x0] + rest) == (x0 + sigma * uhf_spec(sigma, rest)) % modulus(),
{
    let xs = seq![x0] + rest;
    let m = modulus() as int;
    let s = sigma as int;
    assert(xs.drop_first() =~= rest);
    lemma_poly_eval_horner(s, xs);
    let p = poly_eval(s, rest);
    lemma_mul_mod_noop_right(s, p, m);
    lemma_add_mod_noop_right(x0 as int, s * p, m);
    lemma_add_mod_noop_right(x0 as int, s * (p % m), m);
    assert(uhf_spec(sigma, rest) as int == p % m);
}

/// Universal hash function: evaluates the polynomial whose coefficients are
/// `x` (constant coefficient first) at `sigma`, by Horner's rule from the
/// last coefficient.
pub fn uhf(sigma: FieldElement, x: &[FieldElement]) -> (r: FieldElement)
    ensures
        r@ == uhf_spec(sigma@, field_values(x@)),
{
    let ghost xs = field_values(x@);
    let n = x.len();
    let mut acc = FieldElement::zero();
    let mut i = n;
    while i > 0
        invariant
            i <= n == x@.len() == xs.len(),
            xs == field_values(x@),
            acc@ == poly_eval(sigma@ as int, xs.subrange(i as int, n as int)) % (modulus() as int),
        decreases i,
    {
        let prod = acc.mul(&sigma);
        acc = prod.add(&x[i - 1]);
        proof {
            let m = modulus() as int;
            let s = sigma@ as int;
            let seg = xs.subrange(i - 1, n as int);
            let p = poly_eval(s, xs.subrange(i as int, n as int));
            assert(seg.drop_first() =~= xs.subrange(i as int, n as int));
            lemma_poly_eval_horner(s, seg);
            lemma_mul_mod_noop_left(p, s, m);
            lemma_add_mod_noop_right(x@[i - 1]@ as int, p * s, m);
            assert(s * p == p * s) by (nonlinear_arith);
        }
        i = i - 1;
    }
    proof {
        assert(xs.subrange(0, n as int) =~= xs);
    }
    acc
}

} // verus!
