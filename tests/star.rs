use interstellar::star::{main_sequence_category_of, MassError};
use interstellar::{Oid, StarCategory, StarRecord};

#[test]
fn category_predicates() {
    assert!(StarCategory::MainSeqPp.main_sequence());
    assert!(StarCategory::MainSeqCno.main_sequence());
    assert!(!StarCategory::Giant.main_sequence());
    assert!(StarCategory::SuperGiant.giant());
    assert!(!StarCategory::BlackHole.giant());
    assert!(StarCategory::WhiteDwarf.degenerate());
    assert!(!StarCategory::BlackHole.degenerate());
    assert!(StarCategory::BlackHole.compact());
    assert!(StarCategory::QuarkStar.compact());
    assert!(!StarCategory::HyperGiant.compact());
}

#[test]
fn category_index_round_trip() {
    for i in 0..=8u8 {
        assert_eq!(StarCategory::from_index(i).unwrap().index(), i);
    }
    assert_eq!(StarCategory::from_index(9), None);
    assert_eq!(StarCategory::MainSeqCno.index(), 1);
}

#[test]
fn sun_mass_is_proton_proton_chain() {
    assert_eq!(main_sequence_category_of(1.0f32.to_bits()), Ok(StarCategory::MainSeqPp));
}

#[test]
fn mass_threshold_and_range() {
    assert_eq!(main_sequence_category_of(1.4999f32.to_bits()), Ok(StarCategory::MainSeqPp));
    assert_eq!(main_sequence_category_of(1.5f32.to_bits()), Ok(StarCategory::MainSeqCno));
    assert_eq!(main_sequence_category_of(0.1f32.to_bits()), Ok(StarCategory::MainSeqPp));
    assert_eq!(main_sequence_category_of(300.0f32.to_bits()), Ok(StarCategory::MainSeqCno));
    assert_eq!(main_sequence_category_of(0.09f32.to_bits()), Err(MassError::OutOfRange));
    assert_eq!(main_sequence_category_of(300.5f32.to_bits()), Err(MassError::OutOfRange));
    assert_eq!(main_sequence_category_of((-1.0f32).to_bits()), Err(MassError::OutOfRange));
    assert_eq!(main_sequence_category_of(f32::NAN.to_bits()), Err(MassError::OutOfRange));
}

fn sun() -> StarRecord {
    StarRecord {
        mass_bits: 1.0f32.to_bits(),
        radius_bits: 1.0f32.to_bits(),
        luminosity_bits: 1.0f32.to_bits(),
        temperature_bits: 5778.0f32.to_bits(),
        category: StarCategory::MainSeqPp,
    }
}

#[test]
fn canonical_bytes_match_postcard_layout() {
    let rec = sun();
    let expected = postcard::to_allocvec(&(1.0f32, 1.0f32, 1.0f32, 5778.0f32, 0u32)).unwrap();
    assert_eq!(rec.canonical_bytes(), expected);
    assert_eq!(
        rec.canonical_bytes(),
        vec![0, 0, 0x80, 0x3f, 0, 0, 0x80, 0x3f, 0, 0, 0x80, 0x3f, 0, 0x90, 0xb4, 0x45, 0]
    );
}

#[test]
fn long_id_is_v5_of_canonical_bytes() {
    let rec = sun();
    assert_eq!(rec.long_id(), Oid::v5(&rec.canonical_bytes()));
    assert_eq!(rec.long_id(), sun().long_id());
    let mut other = sun();
    other.category = StarCategory::MainSeqCno;
    assert_ne!(rec.long_id(), other.long_id());
}
