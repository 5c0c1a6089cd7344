//! Long ids: 128-bit UUIDs, either random (version 4) or derived from bytes
//! in a fixed namespace (version 5).
use vstd::prelude::*;

verus! {

/// The 4-bit version field of a UUID held as a `u128` (most significant byte
/// first).
pub open spec fn uuid_version(bits: u128) -> u128 {
    (bits >> 76u128) & 0xf
}

/// The 2-bit variant field of a UUID held as a `u128`; RFC 4122 ids hold 2.
pub open spec fn uuid_variant(bits: u128) -> u128 {
    (bits >> 62u128) & 0x3
}

/// Clears the version and variant fields of a UUID.
pub const RANDOM_MASK: u128 = 0xFFFF_FFFF_FFFF_4FFF_BFFF_FFFF_FFFF_FFFF;

/// Sets version 4 and the RFC 4122 variant once the mask has cleared them.
pub const RANDOM_STAMP: u128 = 0x4000_8000_0000_0000_0000;

/// The version-4 UUID made from the random bits `bits`.
pub open spec fn random_id_bits(bits: u128) -> u128 {
    (bits & RANDOM_MASK) | RANDOM_STAMP
}

/// The version-5 UUID of `name` in the namespace of ISO object ids.
pub uninterp spec fn uuid_v5_oid_of(name: Seq<u8>) -> u128;

/// Relies on `uuid::Uuid::new_v5` with `uuid::Uuid::NAMESPACE_OID`, and on
/// `uuid::Uuid::as_u128`: the SHA-1 digest of the namespace followed by
/// `name`, with the version set to 5 and the variant to RFC 4122, read most
/// significant byte first.
#[verifier::external_body]
fn uuid_v5_oid_bits(name: &[u8]) -> (r: u128)
    ensures
        r == uuid_v5_oid_of(name@),
        uuid_version(r) == 5,
        uuid_variant(r) == 2,
{
    uuid::Uuid::new_v5(&uuid::Uuid::NAMESPACE_OID, name).as_u128()
}

/// A long id: stable across game sessions, compared, ordered and hashed by
/// its 128 bits.
#[derive(Debug, Clone, Copy, PartialEq, Eq, PartialOrd, Ord, Hash, Structural)]
pub struct Oid {
    pub bits: u128,
}

impl View for Oid {
    type V = u128;

    open spec fn view(&self) -> u128 {
        self.bits
    }
}

impl Oid {
    /// The id whose bits are those of a UUID, most significant byte first.
    pub fn from_uuid(bits: u128) -> (r: Oid)
        ensures
            r@ == bits,
    {
        Oid { bits }
    }

    /// The 128 bits of the id.
    pub fn to_bits(&self) -> (r: u128)
        ensures
            r == self@,
    {
        self.bits
    }

    /// The id with all bits clear, which names no object.
    pub fn nil() -> (r: Oid)
        ensures
            r@ == 0,
    {
        Oid { bits: 0 }
    }

    /// The random id (a version-4 UUID) made from 128 random bits that the
    /// caller has drawn: the version and variant fields are overwritten, the
    /// other 122 bits are kept.
    pub fn from_random_bits(bits: u128) -> (r: Oid)
        ensures
            r@ == random_id_bits(bits),
            uuid_version(r@) == 4,
            uuid_variant(r@) == 2,
    {
        let v = (bits & RANDOM_MASK) | RANDOM_STAMP;
        assert((((bits & 0xFFFF_FFFF_FFFF_4FFF_BFFF_FFFF_FFFF_FFFFu128) | 0x4000_8000_0000_0000_0000u128)
            >> 76u128) & 0xf == 4 && (((bits & 0xFFFF_FFFF_FFFF_4FFF_BFFF_FFFF_FFFF_FFFFu128)
            | 0x4000_8000_0000_0000_0000u128) >> 62u128) & 0x3 == 2) by (bit_vector);
        Oid { bits: v }
    }

    /// The id derived from `data`: the version-5 UUID of `data` in the
    /// namespace of ISO object ids. Equal bytes give equal ids.
    pub fn v5(data: &[u8]) -> (r: Oid)
        ensures
            r@ == uuid_v5_oid_of(data@),
            uuid_version(r@) == 5,
            uuid_variant(r@) == 2,
    {
        Oid { bits: uuid_v5_oid_bits(data) }
    }

    /// The UUID version of the id: 4 for random ids, 5 for derived ones.
    pub fn version(&self) -> (r: u8)
        ensures
            r == uuid_version(self@),
    {
        let v = self.bits;
        assert((v >> 76u128) & 0xf <= 0xf) by (bit_vector);
        ((v >> 76u128) & 0xf) as u8
    }
}

impl Default for Oid {
    /// The nil id.
    fn default() -> (r: Oid)
        ensures
            r@ == 0,
    {
        Oid::nil()
    }
}

/// Deriving an id is a function of the bytes alone: equal bytes give equal
/// ids.
pub proof fn lemma_derived_ids_deterministic(a: Seq<u8>, b: Seq<u8>)
    requires
        a == b,
    ensures
        uuid_v5_oid_of(a) == uuid_v5_oid_of(b),
{
}

/// A derived id never equals a random one: their version fields differ.
pub proof fn lemma_derived_differs_from_random(data: Seq<u8>, bits: u128, derived: Oid)
    requires
        derived@ == uuid_v5_oid_of(data),
        uuid_version(derived@) == 5,
    ensures
        derived@ != random_id_bits(bits),
{
    assert((((bits & 0xFFFF_FFFF_FFFF_4FFF_BFFF_FFFF_FFFF_FFFFu128) | 0x4000_8000_0000_0000_0000u128)
        >> 76u128) & 0xf == 4) by (bit_vector);
}

} // verus!
