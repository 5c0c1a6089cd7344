//! The part of the spatial engine that is plain data: how an object's handle
//! is kept in a collider's 128-bit user-data slot and recovered from it, and
//! how the pairs of intersecting colliders become pairs of handles.
use vstd::prelude::*;

use crate::entity::Entity;

verus! {

/// The tag in bit 64 of a user-data value that holds a handle. A zeroed or
/// foreign value lacks it and decodes to the invalid handle.
pub const HANDLE_TAG: u128 = 0x1_0000_0000_0000_0000;

/// The user-data value that holds the handle with bits `bits`.
pub open spec fn user_data_of(bits: u64) -> u128 {
    HANDLE_TAG | bits as u128
}

/// The handle that the user-data value `data` holds: the low 64 bits when
/// only the tag is set above them, the invalid handle otherwise.
pub open spec fn handle_of(data: u128) -> u64 {
    if data >> 64u128 == 1 {
        data as u64
    } else {
        u64::MAX
    }
}

/// The user-data value that keeps `e` in a collider.
pub fn encode_user_data(e: Entity) -> (r: u128)
    ensures
        r == user_data_of(e@),
{
    HANDLE_TAG | e.to_bits() as u128
}

/// The handle kept in the user-data value `data`; a value that holds none
/// gives the invalid handle.
pub fn decode_user_data(data: u128) -> (r: Entity)
    ensures
        r@ == handle_of(data),
{
    if data >> 64u128 == 1 {
        Entity::from_bits(data as u64)
    } else {
        Entity::invalid()
    }
}

/// The handle of a collider as the engine reports it: the user data of a
/// collider that is registered, nothing for a stale collider handle.
pub open spec fn collider_handle_of(data: Option<u128>) -> u64 {
    match data {
        Some(d) => handle_of(d),
        None => u64::MAX,
    }
}

/// One edge of the engine's intersection graph: the user data of each of its
/// two colliders (nothing for a collider that is not registered) and whether
/// the two shapes intersect.
#[derive(Debug, Clone, Copy, PartialEq, Eq, Structural)]
pub struct ContactEdge {
    pub first: Option<u128>,
    pub second: Option<u128>,
    pub intersecting: bool,
}

/// The pairs of handles that `edges` reports, in order: one pair for each
/// intersecting edge, the others left out.
pub open spec fn intersecting_pairs(edges: Seq<ContactEdge>) -> Seq<(u64, u64)>
    decreases edges.len(),
{
    if edges.len() == 0 {
        Seq::empty()
    } else {
        let last = edges.last();
        let init = intersecting_pairs(edges.drop_last());
        if last.intersecting {
            init.push((collider_handle_of(last.first), collider_handle_of(last.second)))
        } else {
            init
        }
    }
}

/// The handle of a collider whose user data is `data`, if it is registered.
pub fn collider_handle(data: Option<u128>) -> (r: Entity)
    ensures
        r@ == collider_handle_of(data),
{
    match data {
        Some(d) => decode_user_data(d),
        None => Entity::invalid(),
    }
}

/// The pairs of handles of the objects whose colliders intersect, one pair
/// per intersecting edge in the order of `edges`. A collider that holds no
/// handle contributes the invalid handle.
pub fn intersections(edges: &Vec<ContactEdge>) -> (r: Vec<(Entity, Entity)>)
    ensures
        r@.len() == intersecting_pairs(edges@).len(),
        forall|k: int|
            0 <= k < r@.len() ==> (#[trigger] r@[k]).0@ == intersecting_pairs(edges@)[k].0
                && r@[k].1@ == intersecting_pairs(edges@)[k].1,
{
    let mut out: Vec<(Entity, Entity)> = Vec::new();
    let mut i: usize = 0;
    while i < edges.len()
        invariant
            i <= edges@.len(),
            out@.len() == intersecting_pairs(edges@.subrange(0, i as int)).len(),
            forall|k: int|
                0 <= k < out@.len() ==> (#[trigger] out@[k]).0@ == intersecting_pairs(
                    edges@.subrange(0, i as int),
                )[k].0 && out@[k].1@ == intersecting_pairs(edges@.subrange(0, i as int))[k].1,
        decreases edges@.len() - i,
    {
        let edge = edges[i];
        proof {
            let s = edges@.subrange(0, i + 1);
            assert(s.drop_last() =~= edges@.subrange(0, i as int));
            assert(s.last() == edge);
        }
        if edge.intersecting {
            let a = collider_handle(edge.first);
            let b = collider_handle(edge.second);
            out.push((a, b));
        }
        i = i + 1;
    }
    assert(edges@.subrange(0, edges@.len() as int) =~= edges@);
    out
}

/// A handle kept in a collider's user data comes back unchanged, and a zeroed
/// user-data value gives the invalid handle.
pub proof fn lemma_user_data_round_trip(bits: u64)
    ensures
        handle_of(user_data_of(bits)) == bits,
        handle_of(0) == u64::MAX,
{
    assert((0x1_0000_0000_0000_0000u128 | bits as u128) >> 64u128 == 1) by (bit_vector);
    assert((0x1_0000_0000_0000_0000u128 | bits as u128) as u64 == bits) by (bit_vector);
    assert(0u128 >> 64u128 == 0) by (bit_vector);
}

/// An intersecting edge between the colliders of `h1` and `h2` is reported
/// as the pair `(h1, h2)`.
pub proof fn lemma_intersecting_edge_reported(edges: Seq<ContactEdge>, k: int, h1: u64, h2: u64)
    requires
        0 <= k < edges.len(),
        edges[k] == (ContactEdge {
            first: Some(user_data_of(h1)),
            second: Some(user_data_of(h2)),
            intersecting: true,
        }),
    ensures
        intersecting_pairs(edges).contains((h1, h2)),
    decreases edges.len(),
{
    lemma_user_data_round_trip(h1);
    lemma_user_data_round_trip(h2);
    let init = edges.drop_last();
    if k == edges.len() - 1 {
        let p = intersecting_pairs(edges);
        assert(p.last() == (h1, h2));
        assert(p[p.len() - 1] == (h1, h2));
    } else {
        assert(init[k] == edges[k]);
        lemma_intersecting_edge_reported(init, k, h1, h2);
        let j = choose|j: int| 0 <= j < intersecting_pairs(init).len() && intersecting_pairs(init)[j] == (h1, h2);
        if edges.last().intersecting {
            assert(intersecting_pairs(edges)[j] == (h1, h2));
        }
    }
}

/// Every reported pair comes from an edge flagged as intersecting whose
/// colliders hold those handles; so colliders whose shapes do not intersect
/// are never reported together.
pub proof fn lemma_reported_pair_has_intersecting_edge(edges: Seq<ContactEdge>, a: u64, b: u64)
    requires
        intersecting_pairs(edges).contains((a, b)),
    ensures
        exists|k: int|
            0 <= k < edges.len() && (#[trigger] edges[k]).intersecting && collider_handle_of(
                edges[k].first,
            ) == a && collider_handle_of(edges[k].second) == b,
    decreases edges.len(),
{
    let init = edges.drop_last();
    let last = edges.last();
    let n = edges.len() - 1;
    let j = choose|j: int| 0 <= j < intersecting_pairs(edges).len() && intersecting_pairs(edges)[j] == (a, b);
    if last.intersecting && j == intersecting_pairs(edges).len() - 1 {
        assert(edges[n] == last);
    } else {
        assert(intersecting_pairs(init)[j] == (a, b));
        lemma_reported_pair_has_intersecting_edge(init, a, b);
        let k = choose|k: int|
            0 <= k < init.len() && (#[trigger] init[k]).intersecting && collider_handle_of(
                init[k].first,
            ) == a && collider_handle_of(init[k].second) == b;
        assert(edges[k] == init[k]);
    }
}

} // verus!
