//! Stars: their categories, the check of a generated mass, and the canonical
//! record from which a star's long id is derived.
//!
//! Physical quantities are held as the bit patterns of IEEE-754 single
//! precision numbers. For numbers without the sign bit the order of the values
//! is the order of their bit patterns, and every NaN lies above every finite
//! number, which is what the range checks here rely on.
use vstd::prelude::*;

use crate::oid::{uuid_v5_oid_of, Oid};

verus! {

/// Bits of the smallest mass a generated star may have: 0.1 solar masses.
pub const MIN_MASS_BITS: u32 = 0x3DCC_CCCD;

/// Bits of the largest mass a generated star may have: 300 solar masses.
pub const MAX_MASS_BITS: u32 = 0x4396_0000;

/// Bits of the mass from which a main-sequence star burns by the
/// carbon-nitrogen-oxygen cycle: 1.5 solar masses.
pub const CNO_MASS_BITS: u32 = 0x3FC0_0000;

/// The category of a star.
#[derive(Debug, Clone, Copy, PartialEq, Eq, Hash, Structural)]
pub enum StarCategory {
    /// A main-sequence star whose core fuses by the proton-proton chain.
    MainSeqPp,
    /// A main-sequence star whose core fuses by the carbon-nitrogen-oxygen
    /// cycle.
    MainSeqCno,
    /// A giant star below 1380 solar luminosities.
    Giant,
    /// A giant star between 1380 and 138000 solar luminosities.
    SuperGiant,
    /// A giant star above 138000 solar luminosities.
    HyperGiant,
    /// A compact star below the Chandrasekhar limit (1.4 solar masses).
    WhiteDwarf,
    /// A compact star between the Chandrasekhar limit and the
    /// Tolman-Oppenheimer-Volkoff limit (2.2 solar masses).
    NeutronStar,
    /// A compact star between 2.2 and 3.0 solar masses.
    QuarkStar,
    /// A compact star above 3 solar masses.
    BlackHole,
}

/// The index of a category in the canonical encoding, in declaration order.
pub open spec fn category_index(c: StarCategory) -> u8 {
    match c {
        StarCategory::MainSeqPp => 0,
        StarCategory::MainSeqCno => 1,
        StarCategory::Giant => 2,
        StarCategory::SuperGiant => 3,
        StarCategory::HyperGiant => 4,
        StarCategory::WhiteDwarf => 5,
        StarCategory::NeutronStar => 6,
        StarCategory::QuarkStar => 7,
        StarCategory::BlackHole => 8,
    }
}

impl StarCategory {
    /// Whether the star fuses hydrogen into helium in a hot, dense core.
    pub fn main_sequence(&self) -> (r: bool)
        ensures
            r == (*self is MainSeqPp || *self is MainSeqCno),
    {
        match self {
            StarCategory::MainSeqPp | StarCategory::MainSeqCno => true,
            _ => false,
        }
    }

    /// Whether the star is a giant of any luminosity class.
    pub fn giant(&self) -> (r: bool)
        ensures
            r == (*self is Giant || *self is SuperGiant || *self is HyperGiant),
    {
        match self {
            StarCategory::Giant | StarCategory::SuperGiant | StarCategory::HyperGiant => true,
            _ => false,
        }
    }

    /// Whether the star is a compact star other than a black hole.
    pub fn degenerate(&self) -> (r: bool)
        ensures
            r == (*self is WhiteDwarf || *self is NeutronStar || *self is QuarkStar),
    {
        match self {
            StarCategory::WhiteDwarf | StarCategory::NeutronStar | StarCategory::QuarkStar => true,
            _ => false,
        }
    }

    /// Whether the star is a remnant at the end of stellar evolution: a
    /// degenerate star or a black hole.
    pub fn compact(&self) -> (r: bool)
        ensures
            r == (*self is BlackHole || *self is WhiteDwarf || *self is NeutronStar
                || *self is QuarkStar),
    {
        match self {
            StarCategory::BlackHole => true,
            _ => self.degenerate(),
        }
    }

    /// The index of the category in the canonical encoding.
    pub fn index(&self) -> (r: u8)
        ensures
            r == category_index(*self),
    {
        match self {
            StarCategory::MainSeqPp => 0,
            StarCategory::MainSeqCno => 1,
            StarCategory::Giant => 2,
            StarCategory::SuperGiant => 3,
            StarCategory::HyperGiant => 4,
            StarCategory::WhiteDwarf => 5,
            StarCategory::NeutronStar => 6,
            StarCategory::QuarkStar => 7,
            StarCategory::BlackHole => 8,
        }
    }

    /// The category whose canonical index is `i`, if there is one.
    pub fn from_index(i: u8) -> (r: Option<StarCategory>)
        ensures
            match r {
                Some(c) => category_index(c) == i,
                None => i > 8,
            },
    {
        match i {
            0 => Some(StarCategory::MainSeqPp),
            1 => Some(StarCategory::MainSeqCno),
            2 => Some(StarCategory::Giant),
            3 => Some(StarCategory::SuperGiant),
            4 => Some(StarCategory::HyperGiant),
            5 => Some(StarCategory::WhiteDwarf),
            6 => Some(StarCategory::NeutronStar),
            7 => Some(StarCategory::QuarkStar),
            8 => Some(StarCategory::BlackHole),
            _ => None,
        }
    }
}

/// A mass handed to the generator outside the range it supports.
#[derive(Debug, Clone, Copy, PartialEq, Eq, Structural)]
pub enum MassError {
    /// Below 0.1 solar masses, negative, or negative zero.
    OutOfRange,
}

/// Whether `bits` is a mass the main-sequence relations accept: a number in
/// [0.1, 300] solar masses (no sign bit, no NaN).
pub open spec fn mass_in_range(bits: u32) -> bool {
    MIN_MASS_BITS <= bits <= MAX_MASS_BITS
}

/// The main-sequence category of a star of mass `bits`.
pub open spec fn main_sequence_category(bits: u32) -> StarCategory {
    if bits < CNO_MASS_BITS {
        StarCategory::MainSeqPp
    } else {
        StarCategory::MainSeqCno
    }
}

/// The category of a main-sequence star of the mass whose bits are
/// `mass_bits`: the proton-proton chain below 1.5 solar masses, the
/// carbon-nitrogen-oxygen cycle from there on. A mass outside [0.1, 300] is
/// refused, not clamped.
pub fn main_sequence_category_of(mass_bits: u32) -> (r: Result<StarCategory, MassError>)
    ensures
        mass_in_range(mass_bits) ==> r == Ok::<StarCategory, MassError>(
            main_sequence_category(mass_bits),
        ),
        !mass_in_range(mass_bits) ==> r == Err::<StarCategory, MassError>(MassError::OutOfRange),
{
    if mass_bits < MIN_MASS_BITS || mass_bits > MAX_MASS_BITS {
        Err(MassError::OutOfRange)
    } else if mass_bits < CNO_MASS_BITS {
        Ok(StarCategory::MainSeqPp)
    } else {
        Ok(StarCategory::MainSeqCno)
    }
}

/// The four bytes of `x`, least significant first.
pub open spec fn le_bytes(x: u32) -> Seq<u8> {
    seq![(x & 0xff) as u8, ((x >> 8u32) & 0xff) as u8, ((x >> 16u32) & 0xff) as u8, ((x >> 24u32) & 0xff) as u8]
}

/// The properties that define a star and from which its long id is derived:
/// mass (solar masses), radius (solar radii), luminosity (solar
/// luminosities) and surface temperature (kelvin), each as the bits of a
/// single precision number, and its category.
#[derive(Debug, Clone, Copy, PartialEq, Eq, Hash, Structural)]
pub struct StarRecord {
    pub mass_bits: u32,
    pub radius_bits: u32,
    pub luminosity_bits: u32,
    pub temperature_bits: u32,
    pub category: StarCategory,
}

/// The canonical encoding of a record: each quantity as four bytes, least
/// significant first, in the order mass, radius, luminosity, temperature,
/// then the category's index as one byte. This layout is frozen: every id
/// derived from a record depends on it.
pub open spec fn record_bytes(r: StarRecord) -> Seq<u8> {
    le_bytes(r.mass_bits) + le_bytes(r.radius_bits) + le_bytes(r.luminosity_bits) + le_bytes(
        r.temperature_bits,
    ) + seq![category_index(r.category)]
}

/// Appends the four bytes of `x`, least significant first.
fn push_le(out: &mut Vec<u8>, x: u32)
    ensures
        final(out)@ == old(out)@ + le_bytes(x),
{
    assert((x & 0xff) <= 0xff && ((x >> 8u32) & 0xff) <= 0xff && ((x >> 16u32) & 0xff) <= 0xff
        && ((x >> 24u32) & 0xff) <= 0xff) by (bit_vector);
    out.push((x & 0xff) as u8);
    out.push(((x >> 8u32) & 0xff) as u8);
    out.push(((x >> 16u32) & 0xff) as u8);
    out.push(((x >> 24u32) & 0xff) as u8);
    assert(final(out)@ =~= old(out)@ + le_bytes(x));
}

impl StarRecord {
    /// The canonical bytes of the record.
    pub fn canonical_bytes(&self) -> (r: Vec<u8>)
        ensures
            r@ == record_bytes(*self),
            r@.len() == 17,
    {
        let mut out: Vec<u8> = Vec::new();
        push_le(&mut out, self.mass_bits);
        push_le(&mut out, self.radius_bits);
        push_le(&mut out, self.luminosity_bits);
        push_le(&mut out, self.temperature_bits);
        out.push(self.category.index());
        assert(out@ =~= record_bytes(*self));
        out
    }

    /// The long id of the star: the version-5 id of its canonical bytes.
    /// Stars with equal records share one id.
    pub fn long_id(&self) -> (r: Oid)
        ensures
            r@ == uuid_v5_oid_of(record_bytes(*self)),
    {
        let bytes = self.canonical_bytes();
        Oid::v5(bytes.as_slice())
    }
}

/// The number read from `b[at..at + 4]`, least significant byte first.
fn read_le(b: &[u8], at: usize) -> (r: u32)
    requires
        at + 4 <= b@.len(),
    ensures
        le_bytes(r) == b@.subrange(at as int, at + 4),
{
    let b0 = b[at];
    let b1 = b[at + 1];
    let b2 = b[at + 2];
    let b3 = b[at + 3];
    let r = (b0 as u32) | ((b1 as u32) << 8u32) | ((b2 as u32) << 16u32) | ((b3 as u32) << 24u32);
    assert((r & 0xff) as u8 == b0 && ((r >> 8u32) & 0xff) as u8 == b1 && ((r >> 16u32) & 0xff) as u8
        == b2 && ((r >> 24u32) & 0xff) as u8 == b3) by (bit_vector)
        requires
            r == (b0 as u32) | ((b1 as u32) << 8u32) | ((b2 as u32) << 16u32) | ((b3 as u32)
                << 24u32),
    ;
    assert(le_bytes(r) =~= b@.subrange(at as int, at + 4));
    r
}

/// Numbers with equal bytes are equal.
proof fn lemma_le_bytes_injective(x: u32, y: u32)
    requires
        le_bytes(x) == le_bytes(y),
    ensures
        x == y,
{
    assert(le_bytes(x)[0] == le_bytes(y)[0] && le_bytes(x)[1] == le_bytes(y)[1] && le_bytes(x)[2]
        == le_bytes(y)[2] && le_bytes(x)[3] == le_bytes(y)[3]);
    assert(x == y) by (bit_vector)
        requires
            (x & 0xff) as u8 == (y & 0xff) as u8,
            ((x >> 8u32) & 0xff) as u8 == ((y >> 8u32) & 0xff) as u8,
            ((x >> 16u32) & 0xff) as u8 == ((y >> 16u32) & 0xff) as u8,
            ((x >> 24u32) & 0xff) as u8 == ((y >> 24u32) & 0xff) as u8,
    ;
}

/// Two records with the same canonical bytes are the same record, so that
/// two stars share a long id exactly when their records are equal, up to the
/// digest behind the id.
pub proof fn lemma_record_bytes_injective(a: StarRecord, b: StarRecord)
    requires
        record_bytes(a) == record_bytes(b),
    ensures
        a == b,
{
    let (ba, bb) = (record_bytes(a), record_bytes(b));
    assert(le_bytes(a.mass_bits) =~= ba.subrange(0, 4));
    assert(le_bytes(b.mass_bits) =~= bb.subrange(0, 4));
    assert(le_bytes(a.radius_bits) =~= ba.subrange(4, 8));
    assert(le_bytes(b.radius_bits) =~= bb.subrange(4, 8));
    assert(le_bytes(a.luminosity_bits) =~= ba.subrange(8, 12));
    assert(le_bytes(b.luminosity_bits) =~= bb.subrange(8, 12));
    assert(le_bytes(a.temperature_bits) =~= ba.subrange(12, 16));
    assert(le_bytes(b.temperature_bits) =~= bb.subrange(12, 16));
    lemma_le_bytes_injective(a.mass_bits, b.mass_bits);
    lemma_le_bytes_injective(a.radius_bits, b.radius_bits);
    lemma_le_bytes_injective(a.luminosity_bits, b.luminosity_bits);
    lemma_le_bytes_injective(a.temperature_bits, b.temperature_bits);
    assert(ba[16] == category_index(a.category));
    assert(bb[16] == category_index(b.category));
}

impl StarRecord {
    /// The record whose canonical bytes are `b`, or nothing where no record
    /// has those bytes.
    pub fn from_canonical_bytes(b: &[u8]) -> (r: Option<StarRecord>)
        ensures
            match r {
                Some(rec) => record_bytes(rec) == b@,
                None => forall|rec: StarRecord| #[trigger] record_bytes(rec) != b@,
            },
    {
        if b.len() != 17 {
            assert forall|rec: StarRecord| record_bytes(rec) != b@ by {
                assert(record_bytes(rec).len() == 17);
            }
            return None;
        }
        match StarCategory::from_index(b[16]) {
            None => {
                assert forall|rec: StarRecord| record_bytes(rec) != b@ by {
                    assert(record_bytes(rec)[16] == category_index(rec.category));
                }
                None
            },
            Some(category) => {
                let rec = StarRecord {
                    mass_bits: read_le(b, 0),
                    radius_bits: read_le(b, 4),
                    luminosity_bits: read_le(b, 8),
                    temperature_bits: read_le(b, 12),
                    category,
                };
                assert(record_bytes(rec) =~= b@);
                Some(rec)
            },
        }
    }
}

/// Decoding the canonical bytes of a record gives that record back: `r` is
/// any result that [`StarRecord::from_canonical_bytes`] may give on them.
pub proof fn lemma_record_round_trip(rec: StarRecord, r: Option<StarRecord>)
    requires
        match r {
            Some(d) => record_bytes(d) == record_bytes(rec),
            None => forall|x: StarRecord| #[trigger] record_bytes(x) != record_bytes(rec),
        },
    ensures
        r == Some(rec),
{
    if r is None {
        let x = rec;
        assert(record_bytes(x) != record_bytes(rec));
    } else {
        lemma_record_bytes_injective(r->Some_0, rec);
    }
}

} // verus!
