use interstellar::object_id::{IdGenerator, COUNTER_LIMIT};
use interstellar::ObjectIdTable;
use interstellar::object_id_table::object_id_table_update_system;
use interstellar::{Entity, ObjectId, SolarSystemIdGenerator};

#[test]
fn id_object_id() {
    let mut gen = SolarSystemIdGenerator::new();
    let id1 = gen.spawn().unwrap();
    let id2 = gen.spawn().unwrap();

    assert_eq!(id1.kind(), 0x01);
    assert_eq!(id2.kind(), 0x01);
    assert_eq!(id1.id(), 0x01000000);

    assert_ne!(id1, id2);
}

#[test]
fn object_id_object_id() {
    let id = ObjectId::from_raw(0x5678abcd);
    let id2 = ObjectId::new(0x56, 0x78abcd);

    assert_eq!(id, id2);

    assert_eq!(0x5678abcd, id.id());
    assert_eq!(0x00000056, id.kind());
    assert_eq!(0x0078abcd, id.sub_id());
    assert_eq!(0x0000abcd, id.sub_id_u16());
    assert_eq!(0x000000cd, id.sub_id_u8());
}

#[test]
fn invalid_id_has_all_bits_set() {
    assert_eq!(ObjectId::invalid().id(), u32::MAX);
    assert_eq!(ObjectId::invalid().kind(), 0xff);
    assert_eq!(ObjectId::invalid().sub_id(), 0xffffff);
}

#[test]
fn solar_system_prefix_is_one() {
    assert_eq!(SolarSystemIdGenerator::prefix(), 0x01);
}

#[test]
fn counters_increase_and_start_at_zero() {
    let mut gen = IdGenerator::new(0x07);
    assert_eq!(gen.kind(), 0x07);
    let mut last = None;
    for expected in 0..1000u32 {
        let c = gen.next_counter().unwrap();
        assert_eq!(c, expected);
        if let Some(prev) = last {
            assert!(c > prev);
        }
        last = Some(c);
    }
    let id = gen.spawn().unwrap();
    assert_eq!(id.id(), 0x0700_0000 | 1000);
}

#[test]
fn counters_run_out_after_24_bits() {
    let mut gen = IdGenerator::new(0x02);
    let mut n: u32 = 0;
    while let Some(c) = gen.next_counter() {
        assert_eq!(c, n);
        n += 1;
    }
    assert_eq!(n, COUNTER_LIMIT);
    assert_eq!(gen.next_counter(), None);
    assert_eq!(gen.spawn(), None);
}

#[test]
fn object_id_table_insert_query_remove() {
    let mut table = ObjectIdTable::new();
    let id = ObjectId::new(0x01, 5);
    let e = Entity::from_bits(42);
    assert_eq!(table.query(&id), None);
    table.insert(id, e);
    assert_eq!(table.query(&id), Some(e));
    table.insert(id, Entity::from_bits(43));
    assert_eq!(table.query(&id), Some(Entity::from_bits(43)));
    table.remove(id);
    assert_eq!(table.query(&id), None);
    table.insert(id, e);
    table.reset();
    assert_eq!(table.query(&id), None);
}

#[test]
fn object_id_table_update_applies_changes() {
    let mut table = ObjectIdTable::new();
    let a = ObjectId::new(0x01, 1);
    let b = ObjectId::new(0x01, 2);
    let added = vec![(Entity::from_bits(10), a), (Entity::from_bits(11), b)];
    let changed = vec![(Entity::from_bits(12), a)];
    object_id_table_update_system(&added, &changed, &mut table);
    assert_eq!(table.query(&a), Some(Entity::from_bits(12)));
    assert_eq!(table.query(&b), Some(Entity::from_bits(11)));

    let invalid = ObjectId::invalid();
    let mut t2 = ObjectIdTable::new();
    t2.insert(invalid, Entity::from_bits(1));
    object_id_table_update_system(&vec![], &vec![(Entity::from_bits(3), invalid)], &mut t2);
    assert_eq!(t2.query(&invalid), None);
}
