//! The reverse index from long ids to the handles of live objects, with
//! deferred removal and a rebuild once stale entries outnumber live ones.
use std::collections::HashMap;
use vstd::prelude::*;

use crate::entity::Entity;
use crate::oid::Oid;

verus! {

broadcast use vstd::std_specs::hash::group_hash_axioms;

/// The index that inserting `pairs` one after another into an empty index
/// yields: each id maps to the handle of its last pair.
pub open spec fn index_of(pairs: Seq<(Entity, Oid)>) -> Map<u128, Entity>
    decreases pairs.len(),
{
    if pairs.len() == 0 {
        Map::empty()
    } else {
        let last = pairs.last();
        index_of(pairs.drop_last()).insert(last.1@, last.0)
    }
}

/// The mapping from long ids to handles. Removals are not applied one by one:
/// they are only counted, and once the count exceeds the number of entries
/// the caller rebuilds the index from the pairs that are live.
#[derive(Debug, Clone)]
pub struct OidTable {
    data: HashMap<u128, Entity>,
    rebuild_counter: usize,
}

impl OidTable {
    /// The entries, keyed by the bits of the long id.
    pub closed spec fn entries(&self) -> Map<u128, Entity> {
        self.data@
    }

    /// The number of removals recorded since the last rebuild.
    pub closed spec fn stale(&self) -> nat {
        self.rebuild_counter as nat
    }

    /// What a query of `id` finds.
    pub open spec fn query_spec(&self, id: Oid) -> Option<Entity> {
        if self.entries().contains_key(id@) {
            Some(self.entries()[id@])
        } else {
            None
        }
    }

    /// Whether stale entries outnumber the entries.
    pub open spec fn should_rebuild_spec(&self) -> bool {
        self.stale() > self.entries().len()
    }

    /// What one call of [`OidTable::remove_entry`] with `n` does: the entries
    /// stay, the stale count grows by `n` and stops at `usize::MAX`.
    pub open spec fn removal_step(before: OidTable, after: OidTable, n: usize) -> bool {
        &&& after.entries() == before.entries()
        &&& after.stale() == (if before.stale() + n <= usize::MAX {
            before.stale() + n
        } else {
            usize::MAX as int
        })
    }

    /// An empty index.
    pub fn new() -> (r: OidTable)
        ensures
            r.entries() == Map::<u128, Entity>::empty(),
            r.stale() == 0,
    {
        OidTable { data: HashMap::new(), rebuild_counter: 0 }
    }

    /// The handle last inserted for `id`, if any.
    pub fn query(&self, id: &Oid) -> (r: Option<Entity>)
        ensures
            r == self.query_spec(*id),
    {
        let key = id.to_bits();
        match self.data.get(&key) {
            Some(e) => Some(*e),
            None => None,
        }
    }

    /// Maps `id` to `entity`, replacing any handle it had.
    pub fn insert(&mut self, id: Oid, entity: Entity)
        ensures
            final(self).entries() == old(self).entries().insert(id@, entity),
            final(self).stale() == old(self).stale(),
    {
        let key = id.to_bits();
        self.data.insert(key, entity);
    }

    /// Records that `i` more entries have gone stale; the entries stay until
    /// the next rebuild. The count stops at `usize::MAX`.
    pub fn remove_entry(&mut self, i: usize)
        ensures
            Self::removal_step(*old(self), *final(self), i),
    {
        self.rebuild_counter = self.rebuild_counter.saturating_add(i);
    }

    /// The number of entries.
    pub fn len(&self) -> (r: usize)
        ensures
            r == self.entries().len(),
    {
        self.data.len()
    }

    /// Whether stale entries outnumber the entries in the index.
    pub fn should_rebuild(&self) -> (r: bool)
        ensures
            r == self.should_rebuild_spec(),
    {
        self.rebuild_counter > self.data.len()
    }

    /// Clears the index, inserts every pair of `live` in order, and clears
    /// the count of stale entries.
    pub fn rebuild(&mut self, live: &Vec<(Entity, Oid)>)
        ensures
            final(self).entries() == index_of(live@),
            final(self).stale() == 0,
    {
        self.data.clear();
        self.rebuild_counter = 0;
        let mut i: usize = 0;
        while i < live.len()
            invariant
                i <= live@.len(),
                self.entries() == index_of(live@.subrange(0, i as int)),
                self.stale() == 0,
            decreases live@.len() - i,
        {
            let (eid, oid) = live[i];
            self.insert(oid, eid);
            proof {
                let s = live@.subrange(0, i + 1);
                assert(s.drop_last() =~= live@.subrange(0, i as int));
            }
            i = i + 1;
        }
        assert(live@.subrange(0, live@.len() as int) =~= live@);
    }
}

impl Default for OidTable {
    /// An empty index.
    fn default() -> (r: OidTable)
        ensures
            r.entries() == Map::<u128, Entity>::empty(),
            r.stale() == 0,
    {
        OidTable::new()
    }
}

/// The per-tick update: records the (handle, id) pairs that appeared or
/// changed, then counts `removed` stale entries.
pub fn system_oid_table_update(table: &mut OidTable, changed: &Vec<(Entity, Oid)>, removed: usize)
    ensures
        final(table).entries() == old(table).entries().union_prefer_right(index_of(changed@)),
        final(table).stale() == (if old(table).stale() + removed <= usize::MAX {
            old(table).stale() + removed
        } else {
            usize::MAX as int
        }),
{
    let mut i: usize = 0;
    while i < changed.len()
        invariant
            i <= changed@.len(),
            table.entries() == old(table).entries().union_prefer_right(
                index_of(changed@.subrange(0, i as int)),
            ),
            table.stale() == old(table).stale(),
        decreases changed@.len() - i,
    {
        let (eid, oid) = changed[i];
        table.insert(oid, eid);
        proof {
            let s = changed@.subrange(0, i + 1);
            assert(s.drop_last() =~= changed@.subrange(0, i as int));
            assert(table.entries() =~= old(table).entries().union_prefer_right(index_of(s)));
        }
        i = i + 1;
    }
    assert(changed@.subrange(0, changed@.len() as int) =~= changed@);
    table.remove_entry(removed);
}

/// Rebuilds the index from `all`, the live pairs, when stale entries
/// outnumber the entries; otherwise leaves it as it is.
pub fn system_oid_table_rebuild(table: &mut OidTable, all: &Vec<(Entity, Oid)>)
    ensures
        if old(table).stale() > old(table).entries().len() {
            final(table).entries() == index_of(all@) && final(table).stale() == 0
        } else {
            *final(table) == *old(table)
        },
{
    if table.should_rebuild() {
        table.rebuild(all);
    }
}

/// After `insert(id, h)` a query of `id` finds `h`; once the removals
/// recorded since the last rebuild outnumber the entries, a rebuild is called
/// for; and after a rebuild from live pairs among which `id` is missing, a
/// query of `id` finds nothing. Each state is the one that the named call
/// leaves, as its contract states it.
pub proof fn lemma_index_round_trip(
    before: OidTable,
    inserted: OidTable,
    marked: OidTable,
    n: usize,
    rebuilt: OidTable,
    id: Oid,
    h: Entity,
    live: Seq<(Entity, Oid)>,
)
    requires
        inserted.entries() == before.entries().insert(id@, h),
        OidTable::removal_step(inserted, marked, n),
        inserted.stale() + n > inserted.entries().len(),
        inserted.entries().len() < usize::MAX,
        rebuilt.entries() == index_of(live),
        forall|k: int| 0 <= k < live.len() ==> live[k].1@ != id@,
    ensures
        inserted.query_spec(id) == Some(h),
        marked.should_rebuild_spec(),
        rebuilt.query_spec(id) is None,
{
    lemma_index_keys(live, id);
}

/// The sum of `counts`.
pub open spec fn total(counts: Seq<usize>) -> int
    decreases counts.len(),
{
    if counts.len() == 0 {
        0
    } else {
        total(counts.drop_last()) + counts.last()
    }
}

/// However many calls of [`OidTable::remove_entry`] follow one another
/// (`steps[k]` is the index before the `k`-th call, `steps[k + 1]` after it,
/// `counts[k]` its count), once the removals recorded in all exceed the number
/// of entries a rebuild is called for.
pub proof fn lemma_removals_call_for_rebuild(steps: Seq<OidTable>, counts: Seq<usize>)
    requires
        steps.len() == counts.len() + 1,
        forall|k: int|
            0 <= k < counts.len() ==> #[trigger] OidTable::removal_step(
                steps[k],
                steps[k + 1],
                counts[k],
            ),
        steps[0].stale() + total(counts) > steps[0].entries().len(),
        steps[0].entries().len() < usize::MAX,
    ensures
        steps.last().should_rebuild_spec(),
{
    let n = counts.len() as int;
    lemma_removals_accumulate(steps, counts, n);
    assert(counts.subrange(0, n) =~= counts);
    assert(steps.last() == steps[n]);
}

/// After the first `j` calls the entries are unchanged and the stale count is
/// the recorded total, or `usize::MAX` where that total does not fit.
proof fn lemma_removals_accumulate(steps: Seq<OidTable>, counts: Seq<usize>, j: int)
    requires
        steps.len() == counts.len() + 1,
        forall|k: int|
            0 <= k < counts.len() ==> #[trigger] OidTable::removal_step(
                steps[k],
                steps[k + 1],
                counts[k],
            ),
        0 <= j <= counts.len(),
    ensures
        steps[j].entries() == steps[0].entries(),
        steps[j].stale() == (if steps[0].stale() + total(counts.subrange(0, j)) <= usize::MAX {
            steps[0].stale() + total(counts.subrange(0, j))
        } else {
            usize::MAX as int
        }),
    decreases j,
{
    if j == 0 {
        assert(counts.subrange(0, 0).len() == 0);
    } else {
        lemma_removals_accumulate(steps, counts, j - 1);
        let k = j - 1;
        assert(OidTable::removal_step(steps[k], steps[k + 1], counts[k]));
        assert(counts.subrange(0, j).drop_last() =~= counts.subrange(0, k));
        lemma_total_nonneg(counts.subrange(0, k));
    }
}

proof fn lemma_total_nonneg(counts: Seq<usize>)
    ensures
        total(counts) >= 0,
    decreases counts.len(),
{
    if counts.len() > 0 {
        lemma_total_nonneg(counts.drop_last());
    }
}

/// Every key of `index_of(pairs)` is the id of one of the pairs.
pub proof fn lemma_index_keys(pairs: Seq<(Entity, Oid)>, id: Oid)
    requires
        forall|k: int| 0 <= k < pairs.len() ==> pairs[k].1@ != id@,
    ensures
        !index_of(pairs).contains_key(id@),
    decreases pairs.len(),
{
    if pairs.len() > 0 {
        let init = pairs.drop_last();
        assert forall|k: int| 0 <= k < init.len() implies init[k].1@ != id@ by {
            assert(init[k] == pairs[k]);
        }
        lemma_index_keys(init, id);
        assert(pairs.last() == pairs[pairs.len() - 1]);
    }
}

} // verus!
