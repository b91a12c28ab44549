//! Elements of the prime field `ark_ed_on_bn254::Fr`, held as their canonical
//! little-endian limbs, with the field operations taken from `ark_ff`.

use vstd::prelude::*;
use vstd::arithmetic::div_mod::{lemma_mod_breakdown, lemma_small_mod};

use ark_ed_on_bn254::Fr as ArkFr;
use ark_ff::{BigInt, BigInteger, PrimeField};

verus! {

/// The order of the field: the prime subgroup order of the Baby Jubjub curve.
pub open spec fn modulus() -> nat {
    2736030358979909402780800718157159386076813972158567259200215660948447373041nat
}

/// The integer held by four little-endian 64-bit limbs.
pub open spec fn limbs_value(l: [u64; 4]) -> nat {
    l[0] as nat + l[1] as nat * 18446744073709551616nat + l[2] as nat
        * 340282366920938463463374607431768211456nat + l[3] as nat
        * 6277101735386680763835789423207666416102355444464034512896nat
}

/// The integer whose big-endian base-256 digits are `bytes`.
pub open spec fn be_value(bytes: Seq<u8>) -> nat
    decreases bytes.len(),
{
    if bytes.len() == 0 {
        0
    } else {
        be_value(bytes.drop_last()) * 256 + bytes.last() as nat
    }
}

/// The `n` big-endian base-256 digits of `v` (the value taken modulo `256^n`).
pub open spec fn be_bytes(v: nat, n: nat) -> Seq<u8>
    decreases n,
{
    if n == 0 {
        Seq::empty()
    } else {
        be_bytes(v / 256, (n - 1) as nat).push((v % 256) as u8)
    }
}

/// `be_bytes(v, n)` has `n` digits.
pub proof fn lemma_be_bytes_len(v: nat, n: nat)
    ensures
        be_bytes(v, n).len() == n,
    decreases n,
{
    if n > 0 {
        lemma_be_bytes_len(v / 256, (n - 1) as nat);
    }
}

/// `256^n`.
pub open spec fn byte_radix(n: nat) -> nat
    decreases n,
{
    if n == 0 {
        1
    } else {
        256 * byte_radix((n - 1) as nat)
    }
}

/// Reading `n` big-endian digits back gives the value modulo `256^n`.
pub proof fn lemma_be_value_of_be_bytes(v: nat, n: nat)
    ensures
        be_value(be_bytes(v, n)) == v % byte_radix(n),
    decreases n,
{
    if n == 0 {
        assert(v % 1 == 0);
    } else {
        let r = byte_radix((n - 1) as nat);
        lemma_be_value_of_be_bytes(v / 256, (n - 1) as nat);
        lemma_byte_radix_positive((n - 1) as nat);
        assert(be_bytes(v, n).drop_last() == be_bytes(v / 256, (n - 1) as nat));
        lemma_mod_breakdown(v as int, 256, r as int);
        assert(byte_radix(n) == 256 * r);
    }
}

/// `256^n` is positive.
pub proof fn lemma_byte_radix_positive(n: nat)
    ensures
        byte_radix(n) > 0,
    decreases n,
{
    if n > 0 {
        lemma_byte_radix_positive((n - 1) as nat);
    }
}

/// Every field element fits in a 32-byte word.
pub proof fn lemma_modulus_below_word()
    ensures
        modulus() < byte_radix(32),
{
    reveal_with_fuel(byte_radix, 33);
}

/// The 32 big-endian bytes of a field element read back as the element,
/// also after reduction modulo the field's order.
pub proof fn lemma_be_bytes_round_trip(v: nat)
    requires
        v < modulus(),
    ensures
        be_value(be_bytes(v, 32)) == v,
        be_value(be_bytes(v, 32)) % modulus() == v,
{
    lemma_be_value_of_be_bytes(v, 32);
    lemma_modulus_below_word();
    lemma_small_mod(v, byte_radix(32));
    lemma_small_mod(v, modulus());
}

/// The values of a sequence of field elements.
pub open spec fn field_values(xs: Seq<FieldElement>) -> Seq<nat> {
    xs.map_values(|x: FieldElement| x@)
}

/// An element of the field, in canonical form.
#[derive(Clone, Copy, Debug, PartialEq, Eq, Hash, Default)]
pub struct FieldElement {
    pub(crate) limbs: [u64; 4],
}

impl View for FieldElement {
    type V = nat;

    closed spec fn view(&self) -> nat {
        limbs_value(self.limbs) % modulus()
    }
}

/// Every field element's value is below the modulus.
pub proof fn lemma_value_below_modulus(x: FieldElement)
    ensures
        x@ < modulus(),
{
}

impl FieldElement {
    #[verifier::type_invariant]
    spec fn is_canonical(self) -> bool {
        limbs_value(self.limbs) < modulus()
    }

    /// The additive identity.
    pub fn zero() -> (r: Self)
        ensures
            r@ == 0,
    {
        FieldElement { limbs: [0, 0, 0, 0] }
    }

    /// The multiplicative identity.
    pub fn one() -> (r: Self)
        ensures
            r@ == 1,
    {
        FieldElement { limbs: [1, 0, 0, 0] }
    }

    /// The field element `n` (every `u64` is below the modulus).
    pub fn from_u64(n: u64) -> (r: Self)
        ensures
            r@ == n,
    {
        FieldElement { limbs: [n, 0, 0, 0] }
    }

    /// The field element whose canonical little-endian limbs are `limbs`, or
    /// `None` when they hold an integer not below the modulus.
    pub fn from_canonical_limbs(limbs: [u64; 4]) -> (r: Option<Self>)
        ensures
            match r {
                Some(x) => limbs_value(limbs) < modulus() && x@ == limbs_value(limbs),
                None => limbs_value(limbs) >= modulus(),
            },
    {
        let m3: u64 = 0x060c89ce5c263405;
        let m2: u64 = 0x370a08b6d0302b0b;
        let m1: u64 = 0xab3eedb83920ee0a;
        let m0: u64 = 0x677297dc392126f1;
        let below = if limbs[3] != m3 {
            limbs[3] < m3
        } else if limbs[2] != m2 {
            limbs[2] < m2
        } else if limbs[1] != m1 {
            limbs[1] < m1
        } else {
            limbs[0] < m0
        };
        proof {
            assert(limbs_value([m0, m1, m2, m3]) == modulus());
        }
        if below {
            proof {
                lemma_small_mod(limbs_value(limbs), modulus());
            }
            Some(FieldElement { limbs })
        } else {
            None
        }
    }

    /// `self + other` in the field.
    pub fn add(&self, other: &Self) -> (r: Self)
        ensures
            r@ == (self@ + other@) % modulus(),
    {
        proof {
            use_type_invariant(self);
            use_type_invariant(other);
        }
        ark_add(self, other)
    }

    /// `self * other` in the field.
    pub fn mul(&self, other: &Self) -> (r: Self)
        ensures
            r@ == (self@ * other@) % modulus(),
    {
        proof {
            use_type_invariant(self);
            use_type_invariant(other);
        }
        ark_mul(self, other)
    }

    /// The 32 big-endian bytes of this element's canonical integer.
    pub fn to_bytes_be(&self) -> (r: Vec<u8>)
        ensures
            r@ == be_bytes(self@, 32),
    {
        bigint_to_bytes_be(self)
    }

    /// The element congruent to the big-endian integer held by the 32 bytes
    /// `bytes`.
    pub fn from_be_bytes_mod_order(bytes: &[u8; 32]) -> (r: Self)
        ensures
            r@ == be_value(bytes@) % modulus(),
    {
        ark_from_be_bytes_mod_order(bytes)
    }

    /// The canonical little-endian limbs of this element.
    pub fn to_limbs(&self) -> (r: [u64; 4])
        ensures
            limbs_value(r) == self@,
    {
        proof {
            use_type_invariant(self);
            lemma_small_mod(limbs_value(self.limbs), modulus());
        }
        self.limbs
    }
}

/// `ark_ff` addition in `ark_ed_on_bn254::Fr` (`Fp::add`): the sum of the
/// two residues, reduced modulo the field's order.
#[verifier::external_body]
fn ark_add(a: &FieldElement, b: &FieldElement) -> (r: FieldElement)
    requires
        a@ < modulus(),
        b@ < modulus(),
    ensures
        r@ == (a@ + b@) % modulus(),
{
    let s = ArkFr::from(BigInt::new(a.limbs)) + ArkFr::from(BigInt::new(b.limbs));
    FieldElement { limbs: s.into_bigint().0 }
}

/// `ark_ff` multiplication in `ark_ed_on_bn254::Fr` (`Fp::mul`): the product
/// of the two residues, reduced modulo the field's order.
#[verifier::external_body]
fn ark_mul(a: &FieldElement, b: &FieldElement) -> (r: FieldElement)
    requires
        a@ < modulus(),
        b@ < modulus(),
    ensures
        r@ == (a@ * b@) % modulus(),
{
    let s = ArkFr::from(BigInt::new(a.limbs)) * ArkFr::from(BigInt::new(b.limbs));
    FieldElement { limbs: s.into_bigint().0 }
}

/// `ark_ff::BigInteger::to_bytes_be` on a four-limb `BigInt`: the limbs' 32
/// bytes, most significant first.
#[verifier::external_body]
fn bigint_to_bytes_be(x: &FieldElement) -> (r: Vec<u8>)
    ensures
        r@ == be_bytes(x@, 32),
{
    BigInt::new(x.limbs).to_bytes_be()
}

/// `ark_ff::PrimeField::from_be_bytes_mod_order` for `ark_ed_on_bn254::Fr`:
/// the big-endian integer held by the bytes, reduced modulo the field's order.
#[verifier::external_body]
fn ark_from_be_bytes_mod_order(bytes: &[u8; 32]) -> (r: FieldElement)
    ensures
        r@ == be_value(bytes@) % modulus(),
{
    FieldElement { limbs: ArkFr::from_be_bytes_mod_order(bytes).into_bigint().0 }
}

} // verus!
