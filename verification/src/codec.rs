//! The fixed binary codec for state values: BCS, as the `bcs` crate writes it.
//!
//! A state value is an opaque byte blob. Its encoding is the blob's length
//! in ULEB128 followed by the blob itself, and nothing else decodes.

use vstd::prelude::*;

verus! {

/// The longest byte blob that the codec accepts: 2^31 - 1 bytes.
pub const MAX_VALUE_LENGTH: usize = 2_147_483_647;

/// The ULEB128 encoding of `n`: base-128 digits, least significant first,
/// each with its high bit set but the last.
pub open spec fn uleb128(n: nat) -> Seq<u8>
    decreases n,
{
    if n < 128 {
        seq![n as u8]
    } else {
        seq![(128 + n % 128) as u8] + uleb128(n / 128)
    }
}

/// The encoding of the byte blob `value`.
pub open spec fn value_encoding(value: Seq<u8>) -> Seq<u8> {
    uleb128(value.len()) + value
}

/// Whether the codec can encode `value`.
pub open spec fn encodable(value: Seq<u8>) -> bool {
    value.len() <= MAX_VALUE_LENGTH
}

/// Whether `bytes` is the encoding of `value`.
pub open spec fn is_encoding_of(bytes: Seq<u8>, value: Seq<u8>) -> bool {
    encodable(value) && bytes == value_encoding(value)
}

/// The byte blob that `bytes` decodes to, if it is the encoding of one.
pub open spec fn decode_value(bytes: Seq<u8>) -> Option<Seq<u8>> {
    if exists|value: Seq<u8>| is_encoding_of(bytes, value) {
        Some(choose|value: Seq<u8>| is_encoding_of(bytes, value))
    } else {
        None
    }
}

/// A ULEB128 encoding is never empty.
pub proof fn lemma_uleb128_nonempty(n: nat)
    ensures
        uleb128(n).len() >= 1,
    decreases n,
{
    if n >= 128 {
        lemma_uleb128_nonempty(n / 128);
    }
}

/// A larger number has no shorter ULEB128 encoding.
pub proof fn lemma_uleb128_len_monotonic(n: nat, m: nat)
    requires
        n <= m,
    ensures
        uleb128(n).len() <= uleb128(m).len(),
    decreases m,
{
    if m < 128 {
    } else if n < 128 {
        lemma_uleb128_nonempty(m / 128);
    } else {
        lemma_uleb128_len_monotonic(n / 128, m / 128);
    }
}

/// Two byte blobs with the same encoding are the same blob.
pub proof fn lemma_value_encoding_injective(a: Seq<u8>, b: Seq<u8>)
    requires
        value_encoding(a) == value_encoding(b),
    ensures
        a == b,
{
    let ea = value_encoding(a);
    let eb = value_encoding(b);
    if a.len() < b.len() {
        lemma_uleb128_len_monotonic(a.len(), b.len());
        assert(ea.len() < eb.len());
    } else if b.len() < a.len() {
        lemma_uleb128_len_monotonic(b.len(), a.len());
        assert(eb.len() < ea.len());
    } else {
        let k = uleb128(a.len()).len() as int;
        assert(a =~= ea.subrange(k, ea.len() as int));
        assert(b =~= eb.subrange(k, eb.len() as int));
    }
}

/// Decoding undoes encoding.
pub proof fn lemma_decode_encoded(value: Seq<u8>)
    requires
        encodable(value),
    ensures
        decode_value(value_encoding(value)) == Some(value),
{
    let bytes = value_encoding(value);
    assert(is_encoding_of(bytes, value));
    let chosen = choose|v: Seq<u8>| is_encoding_of(bytes, v);
    lemma_value_encoding_injective(chosen, value);
}

/// What decodes, decodes to the one blob that it encodes.
pub proof fn lemma_decode_unique(bytes: Seq<u8>, value: Seq<u8>)
    requires
        is_encoding_of(bytes, value),
    ensures
        decode_value(bytes) == Some(value),
{
    lemma_decode_encoded(value);
}

/// `bcs::to_bytes` on a byte vector: it writes the length in ULEB128 and
/// then the bytes, and refuses only a vector of more than
/// `MAX_VALUE_LENGTH` bytes. A refusal comes back as its message.
#[verifier::external_body]
pub(crate) fn bcs_to_bytes(value: &Vec<u8>) -> (r: Result<Vec<u8>, String>)
    ensures
        r is Ok <==> encodable(value@),
        r matches Ok(bytes) ==> bytes@ == value_encoding(value@),
{
    match bcs::to_bytes(value) {
        Ok(bytes) => Ok(bytes),
        Err(e) => Err(e.to_string()),
    }
}

/// `bcs::from_bytes` to a byte vector: it accepts exactly the encodings of
/// byte vectors, with the length in its shortest form and no byte left
/// over, and returns the vector encoded. A refusal comes back as its
/// message.
#[verifier::external_body]
pub(crate) fn bcs_from_bytes(bytes: &Vec<u8>) -> (r: Result<Vec<u8>, String>)
    ensures
        r matches Ok(value) ==> is_encoding_of(bytes@, value@),
        r is Err ==> forall|value: Seq<u8>| !is_encoding_of(bytes@, value),
{
    match bcs::from_bytes::<Vec<u8>>(bytes) {
        Ok(value) => Ok(value),
        Err(e) => Err(e.to_string()),
    }
}

} // verus!
