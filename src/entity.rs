//! The host runtime's handle of a live object.
use vstd::prelude::*;

verus! {

/// A handle that the host runtime gives a live object, as its 64 raw bits.
/// A handle may outlive its object: the host may destroy the object and later
/// reuse the handle's slot.
#[derive(Debug, Clone, Copy, PartialEq, Eq, Hash, Structural)]
pub struct Entity {
    pub bits: u64,
}

impl View for Entity {
    type V = u64;

    open spec fn view(&self) -> u64 {
        self.bits
    }
}

impl Entity {
    /// The handle whose raw bits are `bits`.
    pub fn from_bits(bits: u64) -> (r: Entity)
        ensures
            r@ == bits,
    {
        Entity { bits }
    }

    /// The raw bits of the handle.
    pub fn to_bits(&self) -> (r: u64)
        ensures
            r == self@,
    {
        self.bits
    }

    /// The handle that names no object; it is handed out where a handle
    /// cannot be recovered.
    pub fn invalid() -> (r: Entity)
        ensures
            r@ == u64::MAX,
    {
        Entity { bits: u64::MAX }
    }

    /// Whether this is the handle that names no object.
    pub fn is_invalid(&self) -> (r: bool)
        ensures
            r == (self@ == u64::MAX),
    {
        self.bits == u64::MAX
    }
}

/// A link from one object to the object whose state it follows.
#[derive(Debug, Clone, Copy, PartialEq, Eq, Hash, Structural)]
pub struct SyncTo(pub Entity);

impl SyncTo {
    /// A link to `entity`.
    pub fn new(entity: Entity) -> (r: SyncTo)
        ensures
            r.0 == entity,
    {
        SyncTo(entity)
    }
}

impl From<SyncTo> for Entity {
    fn from(value: SyncTo) -> (r: Entity)
        ensures
            r == value.0,
    {
        value.0
    }
}

impl vstd::std_specs::convert::FromSpecImpl<SyncTo> for Entity {
    open spec fn obeys_from_spec() -> bool {
        true
    }

    open spec fn from_spec(v: SyncTo) -> Entity {
        v.0
    }
}

} // verus!
