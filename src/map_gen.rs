//! The parameters of a randomly generated galaxy map.
use vstd::prelude::*;

verus! {

/// The overall shape of a generated galaxy.
#[derive(Debug, Clone, Copy, PartialEq, Eq, Hash, Structural)]
pub enum GalaxyShape {
    PARTIAL,
    DISC,
}

/// The parameters for generating a map at random.
#[derive(Debug, Clone, Copy, PartialEq, Eq, Hash, Structural)]
pub struct MapGenArgs {
    /// The seed of the random generator.
    pub seed: u64,
    /// The shape of the galaxy.
    pub galaxy_shape: GalaxyShape,
    /// The number of solar systems.
    pub galaxy_size: u32,
}

} // verus!
