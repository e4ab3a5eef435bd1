//! Identifiers of bones and shapes.
use vstd::prelude::*;
use crate::text::hex_digits;

verus! {

/// Identifier of a shape: the 128-bit value of its UUID.
#[derive(Debug, Clone, Copy, PartialEq, Eq, Hash, Structural)]
pub struct ShapeId(pub u128);

/// Identifier of a bone: the 128-bit value of its UUID.
#[derive(Debug, Clone, Copy, PartialEq, Eq, Hash, Structural)]
pub struct BoneId(pub u128);

/// The value is a version-4 (random) UUID of the RFC 4122 variant.
pub open spec fn is_random_uuid(v: u128) -> bool {
    &&& v & 0xf000_0000_0000_0000_0000 == 0x4000_0000_0000_0000_0000
    &&& v & 0xc000_0000_0000_0000 == 0x8000_0000_0000_0000
}

/// `uuid::Uuid::new_v4` taken as its 128-bit value.  The crate draws 128
/// random bits and then forces the version field to 4 and the variant field
/// to RFC 4122; nothing else of the result is determined.
#[verifier::external_body]
fn new_random_uuid() -> (r: u128)
    ensures
        is_random_uuid(r),
{
    uuid::Uuid::new_v4().as_u128()
}

/// A random UUID is never the nil UUID.
pub proof fn lemma_random_uuid_not_nil(v: u128)
    requires
        is_random_uuid(v),
    ensures
        v != 0,
{
    assert(v & 0xf000_0000_0000_0000_0000 == 0x4000_0000_0000_0000_0000 ==> v != 0) by (bit_vector);
}

/// The text of a UUID value: lower-case hexadecimal in groups of 8, 4, 4, 4 and 12
/// digits separated by `-`.
pub open spec fn uuid_text_spec(v: u128) -> Seq<char> {
    hex_digits((v / 0x1_0000_0000_0000_0000_0000_0000) as nat, 8) + "-"@
        + hex_digits((v / 0x1_0000_0000_0000_0000_0000) as nat, 4) + "-"@
        + hex_digits((v / 0x1_0000_0000_0000_0000) as nat, 4) + "-"@
        + hex_digits((v / 0x1_0000_0000_0000) as nat, 4) + "-"@
        + hex_digits(v as nat, 12)
}

/// `uuid::Uuid`'s `Display` text of the UUID with value `v`: the hyphenated lower-case
/// form that the crate writes digit by digit from the big-endian bytes.
#[verifier::external_body]
pub(crate) fn uuid_text(v: u128) -> (r: String)
    ensures
        r@ == uuid_text_spec(v),
{
    uuid::Uuid::from_u128(v).to_string()
}

impl ShapeId {
    /// A fresh random identifier.
    pub fn fresh() -> (r: Self)
        ensures
            is_random_uuid(r.0),
    {
        ShapeId(new_random_uuid())
    }
}

impl BoneId {
    /// The identifier of every scene's root bone: the nil UUID.
    pub fn root() -> (r: Self)
        ensures
            r.0 == 0,
    {
        BoneId(0)
    }

    /// Whether this is the root bone's identifier.
    pub fn is_root(&self) -> (r: bool)
        ensures
            r == (self.0 == 0),
    {
        self.0 == 0
    }

    /// A fresh random identifier, never the root's.
    pub fn fresh() -> (r: Self)
        ensures
            is_random_uuid(r.0),
            r.0 != 0,
    {
        let v = new_random_uuid();
        proof { lemma_random_uuid_not_nil(v); }
        BoneId(v)
    }
}

} // verus!
