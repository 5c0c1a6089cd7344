use interstellar::oid_table::{system_oid_table_rebuild, system_oid_table_update};
use interstellar::{Entity, Oid, OidTable};
use sha1::Digest;
use uuid::Uuid;

#[test]
fn v5_matches_uuid_in_oid_namespace() {
    let id = Oid::v5(b"a star");
    assert_eq!(id.to_bits(), Uuid::new_v5(&Uuid::NAMESPACE_OID, b"a star").as_u128());
    assert_eq!(id.version(), 5);
}

#[test]
fn v5_is_deterministic_and_depends_on_bytes() {
    assert_eq!(Oid::v5(&[1, 2, 3]), Oid::v5(&[1, 2, 3]));
    assert_ne!(Oid::v5(&[1, 2, 3]), Oid::v5(&[1, 2, 4]));
}

#[test]
fn v5_hashes_namespace_then_bytes() {
    let data = b"abc";
    let mut hasher = sha1::Sha1::new();
    hasher.update(Uuid::NAMESPACE_OID.as_bytes());
    hasher.update(data);
    let digest = hasher.finalize();
    let mut bytes = [0u8; 16];
    bytes.copy_from_slice(&digest[..16]);
    bytes[6] = (bytes[6] & 0x0f) | 0x50;
    bytes[8] = (bytes[8] & 0x3f) | 0x80;
    assert_eq!(Oid::v5(data).to_bits(), u128::from_be_bytes(bytes));
    assert_ne!(Oid::v5(data).to_bits(), u128::from_be_bytes(digest[..16].try_into().unwrap()));
}

#[test]
fn random_bits_get_version_four() {
    assert_eq!(Oid::from_random_bits(0).to_bits(), 0x4000_8000_0000_0000_0000);
    assert_eq!(Oid::from_random_bits(u128::MAX).to_bits(), 0xFFFF_FFFF_FFFF_4FFF_BFFF_FFFF_FFFF_FFFF);
    let bits: u128 = 0x0123_4567_89ab_cdef_0123_4567_89ab_cdef;
    let id = Oid::from_random_bits(bits);
    assert_eq!(id.version(), 4);
    assert_eq!((id.to_bits() >> 62) & 0x3, 2);
    assert_eq!(id.to_bits(), Uuid::from_u128(bits & 0xFFFF_FFFF_FFFF_4FFF_BFFF_FFFF_FFFF_FFFF | 0x4000_8000_0000_0000_0000).as_u128());
    assert_ne!(Oid::from_random_bits(1), Oid::from_random_bits(2));
    assert_ne!(Oid::from_random_bits(0), Oid::v5(&[]));
}

#[test]
fn nil_and_from_uuid() {
    assert_eq!(Oid::nil().to_bits(), 0);
    assert_eq!(Oid::default(), Oid::nil());
    assert_eq!(Oid::from_uuid(0x1234).to_bits(), 0x1234);
}

#[test]
fn table_insert_then_query() {
    let mut t = OidTable::new();
    let id = Oid::from_uuid(77);
    assert_eq!(t.query(&id), None);
    t.insert(id, Entity::from_bits(5));
    assert_eq!(t.query(&id), Some(Entity::from_bits(5)));
    t.insert(id, Entity::from_bits(6));
    assert_eq!(t.query(&id), Some(Entity::from_bits(6)));
    assert_eq!(t.len(), 1);
}

#[test]
fn table_rebuild_after_enough_removals() {
    let mut t = OidTable::new();
    let gone = Oid::from_uuid(1);
    let kept = Oid::from_uuid(2);
    t.insert(gone, Entity::from_bits(10));
    t.insert(kept, Entity::from_bits(20));
    assert!(!t.should_rebuild());
    t.remove_entry(2);
    assert!(!t.should_rebuild());
    t.remove_entry(0);
    assert!(!t.should_rebuild());
    t.remove_entry(1);
    assert!(t.should_rebuild());
    t.rebuild(&vec![(Entity::from_bits(20), kept)]);
    assert_eq!(t.query(&gone), None);
    assert_eq!(t.query(&kept), Some(Entity::from_bits(20)));
    assert!(!t.should_rebuild());
    assert_eq!(t.len(), 1);
}

#[test]
fn table_removal_count_saturates() {
    let mut t = OidTable::new();
    t.remove_entry(usize::MAX);
    t.remove_entry(5);
    assert!(t.should_rebuild());
    t.rebuild(&vec![]);
    assert!(!t.should_rebuild());
}

#[test]
fn table_systems_update_and_rebuild() {
    let mut t = OidTable::new();
    let a = Oid::from_uuid(3);
    let b = Oid::from_uuid(4);
    system_oid_table_update(&mut t, &vec![(Entity::from_bits(1), a), (Entity::from_bits(2), b)], 0);
    assert_eq!(t.query(&a), Some(Entity::from_bits(1)));
    system_oid_table_rebuild(&mut t, &vec![]);
    assert_eq!(t.query(&a), Some(Entity::from_bits(1)));
    system_oid_table_update(&mut t, &vec![], 3);
    system_oid_table_rebuild(&mut t, &vec![(Entity::from_bits(2), b)]);
    assert_eq!(t.query(&a), None);
    assert_eq!(t.query(&b), Some(Entity::from_bits(2)));
}
