//! 128-bit identifiers and their fixed 16-byte store encoding.

use vstd::prelude::*;

verus! {

/// A 128-bit identifier (a UUID).
#[derive(Clone, Copy, Debug, PartialEq, Eq, Structural)]
pub struct Id {
    pub value: u128,
}

/// Raised when a byte sequence is not a 16-byte identifier encoding.
#[derive(Clone, Copy, Debug, PartialEq, Eq, Structural)]
pub struct MalformedIdentifier {
    /// The length of the rejected input.
    pub len: usize,
}

/// The big-endian bytes of `v`, most significant first.
pub open spec fn be_bytes(v: u128) -> Seq<u8> {
    seq![
        (v >> 120u128) as u8, (v >> 112u128) as u8, (v >> 104u128) as u8, (v >> 96u128) as u8,
        (v >> 88u128) as u8, (v >> 80u128) as u8, (v >> 72u128) as u8, (v >> 64u128) as u8,
        (v >> 56u128) as u8, (v >> 48u128) as u8, (v >> 40u128) as u8, (v >> 32u128) as u8,
        (v >> 24u128) as u8, (v >> 16u128) as u8, (v >> 8u128) as u8, v as u8,
    ]
}

/// The value of 16 bytes read big-endian.
pub open spec fn be_value(b: Seq<u8>) -> u128
    recommends
        b.len() == 16,
{
    (b[0] as u128) << 120u128 | (b[1] as u128) << 112u128 | (b[2] as u128) << 104u128
        | (b[3] as u128) << 96u128 | (b[4] as u128) << 88u128 | (b[5] as u128) << 80u128
        | (b[6] as u128) << 72u128 | (b[7] as u128) << 64u128 | (b[8] as u128) << 56u128
        | (b[9] as u128) << 48u128 | (b[10] as u128) << 40u128 | (b[11] as u128) << 32u128
        | (b[12] as u128) << 24u128 | (b[13] as u128) << 16u128 | (b[14] as u128) << 8u128
        | (b[15] as u128)
}

/// Whether `v` carries the version (4, random) and variant (RFC 4122) bits
/// of a randomly generated UUID.
pub open spec fn is_random_uuid(v: u128) -> bool {
    (v >> 76u128) & 0xfu128 == 4 && (v >> 62u128) & 0x3u128 == 2
}

/// Relies on uuid::Uuid::new_v4: a random value with the version-4 and
/// RFC 4122 variant bits set.
#[verifier::external_body]
fn uuid_new_v4() -> (r: u128)
    ensures
        is_random_uuid(r),
{
    uuid::Uuid::new_v4().as_u128()
}

/// Relies on uuid::Uuid::from_u128: the UUID's bytes are the value's
/// big-endian bytes.
#[verifier::external_body]
fn uuid_bytes_of(v: u128) -> (r: Vec<u8>)
    ensures
        r@ == be_bytes(v),
{
    uuid::Uuid::from_u128(v).as_bytes().to_vec()
}

/// Relies on uuid::Uuid::from_slice: an error unless the input has exactly
/// 16 bytes, which are otherwise the UUID's bytes (read back big-endian).
#[verifier::external_body]
fn uuid_from_slice(b: &[u8]) -> (r: Result<u128, uuid::Error>)
    ensures
        r is Ok <==> b@.len() == 16,
        r matches Ok(v) ==> v == be_value(b@),
{
    uuid::Uuid::from_slice(b).map(|u| u.as_u128())
}

#[verifier::external_type_specification]
#[verifier::external_body]
pub struct ExUuidError(uuid::Error);

/// Decoding the store encoding of any identifier gives the same identifier.
pub proof fn lemma_decode_encode(id: Id)
    ensures
        be_bytes(id.value).len() == 16,
        be_value(be_bytes(id.value)) == id.value,
{
    let v = id.value;
    let b = be_bytes(v);
    assert(b[0] == (v >> 120u128) as u8 && b[1] == (v >> 112u128) as u8 && b[2] == (v >> 104u128) as u8
        && b[3] == (v >> 96u128) as u8 && b[4] == (v >> 88u128) as u8 && b[5] == (v >> 80u128) as u8
        && b[6] == (v >> 72u128) as u8 && b[7] == (v >> 64u128) as u8 && b[8] == (v >> 56u128) as u8
        && b[9] == (v >> 48u128) as u8 && b[10] == (v >> 40u128) as u8 && b[11] == (v >> 32u128) as u8
        && b[12] == (v >> 24u128) as u8 && b[13] == (v >> 16u128) as u8 && b[14] == (v >> 8u128) as u8
        && b[15] == v as u8);
    assert(((v >> 120u128) as u8 as u128) << 120u128 | ((v >> 112u128) as u8 as u128) << 112u128
        | ((v >> 104u128) as u8 as u128) << 104u128 | ((v >> 96u128) as u8 as u128) << 96u128
        | ((v >> 88u128) as u8 as u128) << 88u128 | ((v >> 80u128) as u8 as u128) << 80u128
        | ((v >> 72u128) as u8 as u128) << 72u128 | ((v >> 64u128) as u8 as u128) << 64u128
        | ((v >> 56u128) as u8 as u128) << 56u128 | ((v >> 48u128) as u8 as u128) << 48u128
        | ((v >> 40u128) as u8 as u128) << 40u128 | ((v >> 32u128) as u8 as u128) << 32u128
        | ((v >> 24u128) as u8 as u128) << 24u128 | ((v >> 16u128) as u8 as u128) << 16u128
        | ((v >> 8u128) as u8 as u128) << 8u128 | (v as u8 as u128) == v) by (bit_vector);
}

impl Id {
    /// A fresh random identifier.
    pub fn generate() -> (r: Id)
        ensures
            is_random_uuid(r.value),
    {
        Id { value: uuid_new_v4() }
    }

    /// The 16-byte store encoding of the identifier.
    pub fn encode(&self) -> (r: Vec<u8>)
        ensures
            r@ == be_bytes(self.value),
            r@.len() == 16,
    {
        uuid_bytes_of(self.value)
    }

    /// Reads an identifier back from its 16-byte store encoding.
    pub fn decode(bytes: &[u8]) -> (r: Result<Id, MalformedIdentifier>)
        ensures
            r is Ok <==> bytes@.len() == 16,
            r matches Ok(id) ==> id.value == be_value(bytes@),
            r matches Err(e) ==> e.len == bytes@.len(),
    {
        match uuid_from_slice(bytes) {
            Ok(v) => Ok(Id { value: v }),
            Err(_) => Err(MalformedIdentifier { len: bytes.len() }),
        }
    }
}

} // verus!
