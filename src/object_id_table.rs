//! The index from packed ids to the handles of the objects that carry them.
use std::collections::HashMap;
use vstd::prelude::*;

use crate::entity::Entity;
use crate::object_id::ObjectId;

verus! {

broadcast use vstd::std_specs::hash::group_hash_axioms;

/// The index `m` after inserting each pair of `added` in order.
pub open spec fn with_added(m: Map<u32, Entity>, added: Seq<(Entity, ObjectId)>) -> Map<
    u32,
    Entity,
>
    decreases added.len(),
{
    if added.len() == 0 {
        m
    } else {
        let last = added.last();
        with_added(m, added.drop_last()).insert(last.1@, last.0)
    }
}

/// The index `m` after applying each pair of `changed` in order: a pair whose
/// id is the invalid id drops that id's entry, any other pair is inserted.
pub open spec fn with_changed(m: Map<u32, Entity>, changed: Seq<(Entity, ObjectId)>) -> Map<
    u32,
    Entity,
>
    decreases changed.len(),
{
    if changed.len() == 0 {
        m
    } else {
        let last = changed.last();
        let prev = with_changed(m, changed.drop_last());
        if last.1@ == u32::MAX {
            prev.remove(last.1@)
        } else {
            prev.insert(last.1@, last.0)
        }
    }
}

/// The mapping from packed ids to handles; it is rebuilt on reload.
#[derive(Debug, Clone)]
pub struct ObjectIdTable {
    data: HashMap<u32, Entity>,
}

impl ObjectIdTable {
    /// The entries, keyed by the raw packed id.
    pub closed spec fn entries(&self) -> Map<u32, Entity> {
        self.data@
    }

    /// An empty table.
    pub fn new() -> (r: ObjectIdTable)
        ensures
            r.entries() == Map::<u32, Entity>::empty(),
    {
        ObjectIdTable { data: HashMap::new() }
    }

    /// The handle recorded for `id`, if any.
    pub fn query(&self, id: &ObjectId) -> (r: Option<Entity>)
        ensures
            r == (if self.entries().contains_key(id@) {
                Some(self.entries()[id@])
            } else {
                None
            }),
    {
        let key = id.id();
        match self.data.get(&key) {
            Some(e) => Some(*e),
            None => None,
        }
    }

    /// Records `entity` for `id`, replacing any handle it had.
    pub fn insert(&mut self, id: ObjectId, entity: Entity)
        ensures
            final(self).entries() == old(self).entries().insert(id@, entity),
    {
        let key = id.id();
        self.data.insert(key, entity);
    }

    /// Drops the entry of `id`, for an object that has gone.
    pub fn remove(&mut self, id: ObjectId)
        ensures
            final(self).entries() == old(self).entries().remove(id@),
    {
        let key = id.id();
        self.data.remove(&key);
    }

    /// Drops every entry, for a reload.
    pub fn reset(&mut self)
        ensures
            final(self).entries() == Map::<u32, Entity>::empty(),
    {
        self.data.clear();
    }
}

impl Default for ObjectIdTable {
    /// An empty table.
    fn default() -> (r: ObjectIdTable)
        ensures
            r.entries() == Map::<u32, Entity>::empty(),
    {
        ObjectIdTable::new()
    }
}

/// The per-tick update: inserts each newly observed (handle, id) pair, then
/// applies each changed pair, where a change to the invalid id drops that id.
pub fn object_id_table_update_system(
    added: &Vec<(Entity, ObjectId)>,
    changed: &Vec<(Entity, ObjectId)>,
    table: &mut ObjectIdTable,
)
    ensures
        final(table).entries() == with_changed(with_added(old(table).entries(), added@), changed@),
{
    let invalid = ObjectId::invalid();
    let mut i: usize = 0;
    while i < added.len()
        invariant
            i <= added@.len(),
            table.entries() == with_added(old(table).entries(), added@.subrange(0, i as int)),
        decreases added@.len() - i,
    {
        let (eid, oid) = added[i];
        table.insert(oid, eid);
        proof {
            let s = added@.subrange(0, i + 1);
            assert(s.drop_last() =~= added@.subrange(0, i as int));
        }
        i = i + 1;
    }
    assert(added@.subrange(0, added@.len() as int) =~= added@);
    let ghost base = table.entries();
    let mut j: usize = 0;
    while j < changed.len()
        invariant
            j <= changed@.len(),
            invalid@ == u32::MAX,
            table.entries() == with_changed(base, changed@.subrange(0, j as int)),
        decreases changed@.len() - j,
    {
        let (eid, oid) = changed[j];
        if oid.id() == invalid.id() {
            table.remove(oid);
        } else {
            table.insert(oid, eid);
        }
        proof {
            let s = changed@.subrange(0, j + 1);
            assert(s.drop_last() =~= changed@.subrange(0, j as int));
        }
        j = j + 1;
    }
    assert(changed@.subrange(0, changed@.len() as int) =~= changed@);
}

} // verus!
