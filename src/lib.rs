//! Identity, indexing and procedural-generation core of a spatial strategy
//! game simulation.
//!
//! - [`object_id`]: packed 32-bit ids (an 8-bit kind and a 24-bit counter)
//!   and their per-kind counters.
//! - [`object_id_table`]: the index from packed ids to live handles.
//! - [`oid`]: 128-bit long ids, random or derived from bytes.
//! - [`oid_table`]: the index from long ids to live handles.
//! - [`star`]: star categories and the canonical record behind a star's id.
//! - [`collider`]: handles kept in collider user data, and intersecting pairs.
//! - [`entity`]: the host runtime's object handles.
//! - [`fleet`], [`map_gen`]: ship classes and map generation parameters.
pub mod collider;
pub mod entity;
pub mod fleet;
pub mod map_gen;
pub mod object_id;
pub mod object_id_table;
pub mod oid;
pub mod oid_table;
pub mod star;

pub use entity::{Entity, SyncTo};
pub use fleet::ShipClass;
pub use map_gen::{GalaxyShape, MapGenArgs};
pub use object_id_table::ObjectIdTable;
pub use oid::Oid;
pub use oid_table::OidTable;
pub use star::{StarCategory, StarRecord};
pub use object_id::{IdGenerator, ObjectId, SolarSystemIdGenerator};
