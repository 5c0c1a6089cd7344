//! Packed object ids: 8 bits of kind and 24 bits of dense counter in one `u32`.
use vstd::prelude::*;

verus! {

/// Number of distinct counters of one kind: the counter holds 24 bits.
pub const COUNTER_LIMIT: u32 = 0x100_0000;

/// The raw value of the packed id made of `kind` and `counter`.
pub open spec fn packed(kind: u32, counter: u32) -> u32 {
    (kind << 24u32) | counter
}

/// An id that is stable for the whole run of the simulation: the upper 8 bits
/// name the kind of object, the lower 24 bits its counter.
#[derive(Debug, Clone, Copy, PartialEq, Eq, Hash, Structural)]
pub struct ObjectId(pub u32);

impl View for ObjectId {
    type V = u32;

    open spec fn view(&self) -> u32 {
        self.0
    }
}

impl ObjectId {
    /// Packs `kind` into the upper 8 bits and `sub_id` into the lower bits.
    pub fn new(kind: u32, sub_id: u32) -> (r: ObjectId)
        ensures
            r@ == packed(kind, sub_id),
            kind < 0x100 && sub_id < COUNTER_LIMIT ==> r.kind_spec() == kind && r.sub_id_spec()
                == sub_id,
    {
        let r = ObjectId((kind << 24u32) | sub_id);
        proof {
            if kind < 0x100 && sub_id < COUNTER_LIMIT {
                assert(((kind << 24u32) | sub_id) >> 24u32 == kind && ((kind << 24u32) | sub_id)
                    & 0xff_ffff == sub_id) by (bit_vector)
                    requires
                        kind < 0x100,
                        sub_id < 0x100_0000,
                ;
            }
        }
        r
    }

    /// Wraps a raw 32-bit value.
    pub fn from_raw(bits: u32) -> (r: ObjectId)
        ensures
            r@ == bits,
    {
        ObjectId(bits)
    }

    /// The id that never names an object: all bits set.
    pub fn invalid() -> (r: ObjectId)
        ensures
            r@ == u32::MAX,
    {
        ObjectId(u32::MAX)
    }

    /// The kind stored in the upper 8 bits.
    pub open spec fn kind_spec(self) -> u32 {
        self@ >> 24u32
    }

    /// The counter stored in the lower 24 bits.
    pub open spec fn sub_id_spec(self) -> u32 {
        self@ & 0xff_ffff
    }

    /// The lowest 8 bits, for kinds with at most 256 objects.
    pub fn sub_id_u8(&self) -> (r: u8)
        ensures
            r == self@ & 0xff,
    {
        let v = self.0;
        assert(v & 0xff <= 0xff) by (bit_vector);
        (v & 0xff) as u8
    }

    /// The lowest 16 bits, for kinds with at most 65536 objects.
    pub fn sub_id_u16(&self) -> (r: u16)
        ensures
            r == self@ & 0xffff,
    {
        let v = self.0;
        assert(v & 0xffff <= 0xffff) by (bit_vector);
        (v & 0xffff) as u16
    }

    /// The 24-bit counter part.
    pub fn sub_id(&self) -> (r: u32)
        ensures
            r == self.sub_id_spec(),
    {
        self.0 & 0xff_ffff
    }

    /// The 8-bit kind part.
    pub fn kind(&self) -> (r: u8)
        ensures
            r == self.kind_spec(),
    {
        let v = self.0;
        assert(v >> 24u32 <= 0xff) by (bit_vector);
        (v >> 24u32) as u8
    }

    /// The whole raw value.
    pub fn id(&self) -> (r: u32)
        ensures
            r == self@,
    {
        self.0
    }
}

/// The counters of one kind of object. Counters start at 0, grow by one per
/// call and are never handed out twice; once all 24-bit counters are used up
/// no further one is handed out.
#[derive(Debug)]
pub struct IdGenerator {
    kind: u8,
    next: u32,
}

impl IdGenerator {
    /// The kind whose counters this generator hands out.
    pub closed spec fn kind_spec(&self) -> u8 {
        self.kind
    }

    /// The counter that the next call hands out.
    pub closed spec fn next_spec(&self) -> u32 {
        self.next
    }

    /// The next counter stays within the 24-bit budget, or just past it.
    pub closed spec fn wf(&self) -> bool {
        self.next <= COUNTER_LIMIT
    }

    /// What one call of [`IdGenerator::next_counter`] does: it hands out the
    /// next counter and moves past it, or, with all counters used up, hands out
    /// nothing and changes nothing.
    pub open spec fn counter_step(before: IdGenerator, after: IdGenerator, r: Option<u32>) -> bool {
        &&& after.wf()
        &&& after.kind_spec() == before.kind_spec()
        &&& match r {
            Some(c) => {
                &&& c == before.next_spec()
                &&& c < COUNTER_LIMIT
                &&& after.next_spec() == c + 1
            },
            None => {
                &&& before.next_spec() == COUNTER_LIMIT
                &&& after.next_spec() == before.next_spec()
            },
        }
    }

    /// A generator for `kind` whose first counter is 0.
    pub fn new(kind: u8) -> (r: IdGenerator)
        ensures
            r.wf(),
            r.kind_spec() == kind,
            r.next_spec() == 0,
    {
        IdGenerator { kind, next: 0 }
    }

    /// The kind of the ids that this generator makes.
    pub fn kind(&self) -> (r: u8)
        ensures
            r == self.kind_spec(),
    {
        self.kind
    }

    /// Hands out the next unused counter.
    pub fn next_counter(&mut self) -> (r: Option<u32>)
        requires
            old(self).wf(),
        ensures
            Self::counter_step(*old(self), *final(self), r),
    {
        if self.next < COUNTER_LIMIT {
            let c = self.next;
            self.next = c + 1;
            Some(c)
        } else {
            None
        }
    }

    /// Makes the id of the next object of this kind.
    pub fn spawn(&mut self) -> (r: Option<ObjectId>)
        requires
            old(self).wf(),
        ensures
            final(self).wf(),
            final(self).kind_spec() == old(self).kind_spec(),
            match r {
                Some(id) => {
                    &&& old(self).next_spec() < COUNTER_LIMIT
                    &&& final(self).next_spec() == old(self).next_spec() + 1
                    &&& id.kind_spec() == old(self).kind_spec()
                    &&& id.sub_id_spec() == old(self).next_spec()
                    &&& id@ == packed(old(self).kind_spec() as u32, old(self).next_spec())
                },
                None => old(self).next_spec() == COUNTER_LIMIT && final(self).next_spec()
                    == COUNTER_LIMIT,
            },
    {
        match self.next_counter() {
            Some(c) => Some(ObjectId::new(self.kind as u32, c)),
            None => None,
        }
    }
}

/// The kind of a solar system's id.
pub const SOLAR_SYSTEM_KIND: u8 = 0x01;

/// Hands out the ids of solar systems.
#[derive(Debug)]
pub struct SolarSystemIdGenerator {
    counters: IdGenerator,
}

impl SolarSystemIdGenerator {
    /// The counters are those of solar systems, within their budget.
    pub closed spec fn wf(&self) -> bool {
        &&& self.counters.wf()
        &&& self.counters.kind_spec() == SOLAR_SYSTEM_KIND
    }

    /// The counter of the next solar system.
    pub closed spec fn next_spec(&self) -> u32 {
        self.counters.next_spec()
    }

    /// A generator whose first id is `0x01000000`.
    pub fn new() -> (r: SolarSystemIdGenerator)
        ensures
            r.wf(),
            r.next_spec() == 0,
    {
        SolarSystemIdGenerator { counters: IdGenerator::new(SOLAR_SYSTEM_KIND) }
    }

    /// The kind that every id of this generator carries.
    pub fn prefix() -> (r: u8)
        ensures
            r == SOLAR_SYSTEM_KIND,
    {
        SOLAR_SYSTEM_KIND
    }

    /// Makes the id of the next solar system.
    pub fn spawn(&mut self) -> (r: Option<ObjectId>)
        requires
            old(self).wf(),
        ensures
            final(self).wf(),
            match r {
                Some(id) => {
                    &&& old(self).next_spec() < COUNTER_LIMIT
                    &&& final(self).next_spec() == old(self).next_spec() + 1
                    &&& id.kind_spec() == SOLAR_SYSTEM_KIND
                    &&& id.sub_id_spec() == old(self).next_spec()
                },
                None => old(self).next_spec() == COUNTER_LIMIT && final(self).next_spec()
                    == COUNTER_LIMIT,
            },
    {
        self.counters.spawn()
    }
}

impl Default for SolarSystemIdGenerator {
    /// A generator whose first id is `0x01000000`.
    fn default() -> (r: SolarSystemIdGenerator)
        ensures
            r.wf(),
            r.next_spec() == 0,
    {
        SolarSystemIdGenerator::new()
    }
}

/// Two successive calls of [`IdGenerator::next_counter`] on one generator that
/// both hand out a counter hand out strictly increasing counters.
pub proof fn lemma_successive_counters_increase(
    g0: IdGenerator,
    g1: IdGenerator,
    g2: IdGenerator,
    a: u32,
    b: u32,
)
    requires
        IdGenerator::counter_step(g0, g1, Some(a)),
        IdGenerator::counter_step(g1, g2, Some(b)),
    ensures
        a < b,
{
}

/// No counter is handed out twice: once a call has handed out `a`, every
/// counter that a later call hands out is greater, however many calls lie in
/// between (`steps[k]` is the state before the `k`-th call, `steps[k + 1]`
/// the state after it, and `outs[k]` its result).
pub proof fn lemma_counters_unique(steps: Seq<IdGenerator>, outs: Seq<Option<u32>>, i: int, j: int)
    requires
        steps.len() == outs.len() + 1,
        forall|k: int|
            0 <= k < outs.len() ==> #[trigger] IdGenerator::counter_step(
                steps[k],
                steps[k + 1],
                outs[k],
            ),
        0 <= i < j < outs.len(),
        outs[i] is Some,
        outs[j] is Some,
    ensures
        outs[i]->Some_0 < outs[j]->Some_0,
{
    assert(IdGenerator::counter_step(steps[i], steps[i + 1], outs[i]));
    assert(IdGenerator::counter_step(steps[j], steps[j + 1], outs[j]));
    lemma_next_never_decreases(steps, outs, i + 1, j);
}

proof fn lemma_next_never_decreases(steps: Seq<IdGenerator>, outs: Seq<Option<u32>>, i: int, j: int)
    requires
        steps.len() == outs.len() + 1,
        forall|k: int|
            0 <= k < outs.len() ==> #[trigger] IdGenerator::counter_step(
                steps[k],
                steps[k + 1],
                outs[k],
            ),
        0 < i <= j < steps.len(),
    ensures
        steps[i].next_spec() <= steps[j].next_spec(),
    decreases j - i,
{
    if i < j {
        let k = j - 1;
        assert(IdGenerator::counter_step(steps[k], steps[k + 1], outs[k]));
        lemma_next_never_decreases(steps, outs, i, j - 1);
    }
}

} // verus!
