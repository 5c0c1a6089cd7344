//! Fleets and their ships.
use vstd::prelude::*;

verus! {

/// The size or technology class of a ship.
#[derive(Debug, Clone, Copy, PartialEq, Eq, Hash, Structural)]
pub enum ShipClass {
    /// A military escort.
    Frigate,
    /// A military destroyer.
    Destroyer,
    /// A military cruiser.
    Cruiser,
    /// A military capital ship.
    Battleship,
    /// A civil transport.
    LargeCarrier,
    /// A civil ship of several uses.
    MultiPurpose,
    /// A ship of special purpose.
    Special,
}

} // verus!
