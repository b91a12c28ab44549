//! The Keccak-256 hash of a statement, matching Solidity's
//! `keccak256(abi.encodePacked(x)) % field`.

use vstd::prelude::*;

use crate::crh::FieldCrh;
use crate::field::{
    be_bytes, be_value, field_values, lemma_be_bytes_len, lemma_be_bytes_round_trip, modulus,
    FieldElement,
};

verus! {

/// Solidity's `abi.encodePacked(uint256[])`: each value as a 32-byte
/// big-endian word, concatenated with no length prefix.
pub open spec fn encode_packed(xs: Seq<nat>) -> Seq<u8>
    decreases xs.len(),
{
    if xs.len() == 0 {
        Seq::empty()
    } else {
        encode_packed(xs.drop_last()) + be_bytes(xs.last(), 32)
    }
}

/// The packed encoding has one 32-byte word per value.
pub proof fn lemma_encode_packed_len(xs: Seq<nat>)
    ensures
        encode_packed(xs).len() == 32 * xs.len(),
    decreases xs.len(),
{
    if xs.len() > 0 {
        lemma_encode_packed_len(xs.drop_last());
        lemma_be_bytes_len(xs.last(), 32);
    }
}

/// The packed encoding of field values is injective: two statements with the
/// same encoding are the same statement, so a changed statement is hashed
/// from a changed input.
pub proof fn lemma_encode_packed_injective(xs: Seq<nat>, ys: Seq<nat>)
    requires
        forall|i: int| 0 <= i < xs.len() ==> #[trigger] xs[i] < modulus(),
        forall|i: int| 0 <= i < ys.len() ==> #[trigger] ys[i] < modulus(),
        encode_packed(xs) == encode_packed(ys),
    ensures
        xs == ys,
    decreases xs.len(),
{
    lemma_encode_packed_len(xs);
    lemma_encode_packed_len(ys);
    assert(xs.len() == ys.len());
    if xs.len() > 0 {
        let n = xs.len() as int;
        let ex = encode_packed(xs.drop_last());
        let ey = encode_packed(ys.drop_last());
        let bx = be_bytes(xs.last(), 32);
        let by = be_bytes(ys.last(), 32);
        lemma_encode_packed_len(xs.drop_last());
        lemma_encode_packed_len(ys.drop_last());
        lemma_be_bytes_len(xs.last(), 32);
        lemma_be_bytes_len(ys.last(), 32);
        let whole = encode_packed(xs);
        assert(whole =~= ex + bx);
        assert(whole =~= ey + by);
        assert(ex =~= whole.subrange(0, 32 * (n - 1)));
        assert(ey =~= whole.subrange(0, 32 * (n - 1)));
        assert(bx =~= whole.subrange(32 * (n - 1), 32 * n));
        assert(by =~= whole.subrange(32 * (n - 1), 32 * n));
        lemma_be_bytes_round_trip(xs.last());
        lemma_be_bytes_round_trip(ys.last());
        lemma_encode_packed_injective(xs.drop_last(), ys.drop_last());
        assert(xs =~= xs.drop_last().push(xs.last()));
        assert(ys =~= ys.drop_last().push(ys.last()));
    }
}

/// The Keccak-256 digest of `data`, as `alloy_primitives::keccak256` computes it.
pub uninterp spec fn keccak256_digest(data: Seq<u8>) -> Seq<u8>;

/// The Keccak hash of the values `xs`: the big-endian digest of their packed
/// encoding, reduced modulo the field's order.
pub open spec fn keccak_field_hash(xs: Seq<nat>) -> nat {
    be_value(keccak256_digest(encode_packed(xs))) % modulus()
}

/// `alloy_primitives::keccak256`: the 32-byte Keccak-256 digest of `data`.
/// Its value is named by `keccak256_digest` and not stated further.
#[verifier::external_body]
fn keccak256(data: &[u8]) -> (r: [u8; 32])
    ensures
        r@ == keccak256_digest(data@),
{
    alloy_primitives::keccak256(data).0
}

/// Word `i` of the packed encoding is the 32-byte big-endian word of value
/// `i`, for statements of every length.
pub proof fn lemma_encode_packed_word(xs: Seq<nat>, i: int)
    requires
        0 <= i < xs.len(),
    ensures
        encode_packed(xs).subrange(32 * i, 32 * i + 32) == be_bytes(xs[i], 32),
    decreases xs.len(),
{
    let n = xs.len() as int;
    lemma_encode_packed_len(xs.drop_last());
    lemma_be_bytes_len(xs.last(), 32);
    let pre = encode_packed(xs.drop_last());
    let w = be_bytes(xs.last(), 32);
    assert(encode_packed(xs) == pre + w);
    if i == n - 1 {
        assert(encode_packed(xs).subrange(32 * i, 32 * i + 32) =~= w);
    } else {
        lemma_encode_packed_word(xs.drop_last(), i);
        assert(encode_packed(xs).subrange(32 * i, 32 * i + 32) =~= pre.subrange(32 * i, 32 * i + 32));
    }
}

/// What the Keccak hash of a statement hashes: the Keccak-256 digest of
/// `32 * n` bytes, one word per value, in which every word reads back as the
/// full value of its element; the digest's big-endian integer, reduced
/// modulo the field's order, is the hash.
pub proof fn lemma_keccak_hashes_full_values(xs: Seq<nat>)
    requires
        forall|i: int| 0 <= i < xs.len() ==> #[trigger] xs[i] < modulus(),
    ensures
        ({
            let bytes = encode_packed(xs);
            &&& bytes.len() == 32 * xs.len()
            &&& forall|i: int|
                0 <= i < xs.len() ==> be_value(#[trigger] bytes.subrange(32 * i, 32 * i + 32))
                    == xs[i]
            &&& KeccakCRH::hash(&(), xs) == Ok::<nat, String>(
                be_value(keccak256_digest(bytes)) % modulus(),
            )
        }),
{
    lemma_encode_packed_len(xs);
    assert forall|i: int| 0 <= i < xs.len() implies be_value(
        #[trigger] encode_packed(xs).subrange(32 * i, 32 * i + 32),
    ) == xs[i] by {
        lemma_encode_packed_word(xs, i);
        lemma_be_bytes_round_trip(xs[i]);
    }
}

/// Keccak-256 based hash scheme, matching `LibHybridCompression.hash` in
/// Solidity: `keccak256(abi.encodePacked(x)) % field`.
pub struct KeccakCRH;

impl KeccakCRH {
    /// The scheme needs no parameters.
    pub fn setup() -> (r: Result<(), String>)
        ensures
            r == Ok::<(), String>(()),
    {
        Ok(())
    }

    /// The packed encoding of `input`: each element as a 32-byte big-endian
    /// word, concatenated.
    pub fn encode(input: &[FieldElement]) -> (bytes: Vec<u8>)
        ensures
            bytes@ == encode_packed(field_values(input@)),
    {
        let ghost xs = field_values(input@);
        let mut bytes: Vec<u8> = Vec::new();
        let n = input.len();
        let mut i: usize = 0;
        while i < n
            invariant
                i <= n == input@.len() == xs.len(),
                xs == field_values(input@),
                bytes@ == encode_packed(xs.take(i as int)),
            decreases n - i,
        {
            let be = input[i].to_bytes_be();
            proof {
                lemma_be_bytes_len(input@[i as int]@, 32);
            }
            let mut word = [0u8; 32];
            let start: usize = 32 - be.len();
            let mut j: usize = 0;
            while j < be.len()
                invariant
                    start == 0,
                    be@.len() == 32,
                    j <= 32,
                    forall|k: int| 0 <= k < j ==> word@[k] == be@[k],
                decreases 32 - j,
            {
                word[start + j] = be[j];
                j = j + 1;
            }
            proof {
                assert(word@ =~= be@);
                assert(xs.take(i + 1).drop_last() =~= xs.take(i as int));
                assert(xs.take(i + 1).last() == input@[i as int]@);
            }
            let ghost before = bytes@;
            bytes.extend_from_slice(&word);
            proof {
                assert(bytes@ =~= before + word@);
            }
            i = i + 1;
        }
        proof {
            assert(xs.take(n as int) =~= xs);
        }
        bytes
    }

    /// Hashes `input`: `keccak256(abi.encodePacked(input)) % field`.
    pub fn evaluate(params: &(), input: &[FieldElement]) -> (r: Result<FieldElement, String>)
        ensures
            r matches Ok(h) && h@ == keccak_field_hash(field_values(input@)),
    {
        let bytes = Self::encode(input);
        let digest = keccak256(bytes.as_slice());
        Ok(FieldElement::from_be_bytes_mod_order(&digest))
    }
}

impl FieldCrh for KeccakCRH {
    type Parameters = ();

    open spec fn params_valid(params: &()) -> bool {
        true
    }

    open spec fn hash(params: &(), input: Seq<nat>) -> Result<nat, String> {
        Ok(keccak_field_hash(input))
    }

    fn check_params(params: &()) -> (r: bool) {
        true
    }

    fn evaluate(params: &(), input: &[FieldElement]) -> (r: Result<FieldElement, String>) {
        KeccakCRH::evaluate(params, input)
    }
}

} // verus!
