//! Outcome codes and the fixed 33-byte result layout.

use vstd::prelude::*;

verus! {

/// Length in bytes of a digest.
pub const DIGEST_LEN: usize = 32;

/// Length in bytes of an encoded result: one outcome byte, then a digest.
pub const OUTPUT_LEN: usize = 33;

/// Outcome of checking one payload.
#[derive(Clone, Copy, Debug, PartialEq, Eq, Structural)]
pub enum ResultCode {
    /// The digest of the preimage equals the expected digest.
    Valid,
    /// The digest of the preimage differs from the expected digest.
    Invalid,
    /// The payload is too short to hold a digest and a preimage.
    ErrorPayloadTooShort,
}

impl ResultCode {
    /// The byte that stands for this outcome on the wire.
    pub open spec fn tag_spec(self) -> u8 {
        match self {
            ResultCode::Valid => 0x01,
            ResultCode::Invalid => 0x00,
            ResultCode::ErrorPayloadTooShort => 0xE1,
        }
    }

    /// The byte that stands for this outcome on the wire.
    #[verifier::when_used_as_spec(tag_spec)]
    pub fn tag(self) -> (byte: u8)
        ensures
            byte == self.tag_spec(),
    {
        match self {
            ResultCode::Valid => 0x01,
            ResultCode::Invalid => 0x00,
            ResultCode::ErrorPayloadTooShort => 0xE1,
        }
    }
}

/// Thirty-two zero bytes: the digest field of a result that carries no digest.
pub open spec fn zero_digest() -> Seq<u8> {
    Seq::new(DIGEST_LEN as nat, |i: int| 0u8)
}

/// The bytes that fill the digest field of a result.
pub open spec fn digest_field(digest: Option<[u8; 32]>) -> Seq<u8> {
    match digest {
        Some(bytes) => bytes@,
        None => zero_digest(),
    }
}

/// The wire form of a result: the outcome byte followed by the digest field.
pub open spec fn encoded(code: ResultCode, digest: Option<[u8; 32]>) -> Seq<u8> {
    seq![code.tag()] + digest_field(digest)
}

/// Encodes an outcome and an optional digest as a 33-byte result. Without a
/// digest the digest field is zero-filled.
pub fn encode_result(code: ResultCode, digest: Option<[u8; 32]>) -> (output: Vec<u8>)
    ensures
        output@ == encoded(code, digest),
        output@.len() == OUTPUT_LEN,
        output@[0] == code.tag(),
{
    let field: [u8; 32] = match digest {
        Some(bytes) => bytes,
        None => [0u8; 32],
    };
    let mut output: Vec<u8> = Vec::with_capacity(OUTPUT_LEN);
    output.push(code.tag());
    output.extend_from_slice(&field);
    output
}

/// Different outcomes have different tags.
pub proof fn law_tag_is_injective(first: ResultCode, second: ResultCode)
    ensures
        first.tag() == second.tag() ==> first == second,
{
}

/// Every result is 33 bytes long and starts with the tag of its outcome, so
/// the first byte alone tells the outcome.
pub proof fn law_first_byte_tells_outcome(
    first: ResultCode,
    first_digest: Option<[u8; 32]>,
    second: ResultCode,
    second_digest: Option<[u8; 32]>,
)
    ensures
        encoded(first, first_digest).len() == OUTPUT_LEN,
        encoded(first, first_digest)[0] == first.tag(),
        encoded(first, first_digest)[0] == encoded(second, second_digest)[0] ==> first == second,
{
}

/// Results that are equal byte for byte carry the same outcome and the same
/// digest field.
pub proof fn law_encoding_is_injective(
    first: ResultCode,
    first_digest: Option<[u8; 32]>,
    second: ResultCode,
    second_digest: Option<[u8; 32]>,
)
    requires
        encoded(first, first_digest) == encoded(second, second_digest),
    ensures
        first == second,
        digest_field(first_digest) == digest_field(second_digest),
{
    let one = encoded(first, first_digest);
    let other = encoded(second, second_digest);
    assert(one[0] == first.tag());
    assert(other[0] == second.tag());
    assert(digest_field(first_digest) =~= one.subrange(1, OUTPUT_LEN as int));
    assert(digest_field(second_digest) =~= other.subrange(1, OUTPUT_LEN as int));
}

} // verus!
