use rtps::element::{Count_t, FragmentNumber_t};
use rtps::guid::{
    EntityId_t, EntityKind_t, GUIDPrefix_t, GUID_t, ENTITY_KIND_READER_WITH_KEY_BUILT_IN,
    ENTITY_KIND_WRITER_NO_KEY,
};
use rtps::types::{ReliabilityKind_t, SequenceNumber_t, Time_t, TopicKind_t, VendorId_t};

#[test]
fn entity_kind_keeps_low_six_bits() {
    assert_eq!(EntityKind_t::new(0xc2), EntityKind_t(0x02));
    assert_eq!(EntityKind_t::new(0x3f), EntityKind_t(0x3f));
    assert_eq!(EntityKind_t::new(0x40), EntityKind_t(0));
}

#[test]
fn generated_entity_ids_avoid_reserved_keys() {
    let kind = EntityKind_t(ENTITY_KIND_WRITER_NO_KEY);
    let mut keys = Vec::new();
    for _ in 0..200 {
        let id = EntityId_t::new(kind);
        keys.push(id.key);
        assert_eq!(id.kind, kind);
        assert!(id.key[0] < 255);
        assert!(id.key[1] >= 3 && id.key[1] < 255);
        assert!(id.key[2] >= 5 && id.key[2] < 255);
        assert_eq!(id.size(), 4);
    }
    // the keys are drawn, not the low ends of their ranges
    assert!(keys.iter().any(|k| k != &[0, 3, 5]));
}

#[test]
fn entity_id_from_key_bytes_checks_ranges() {
    let kind = EntityKind_t(ENTITY_KIND_WRITER_NO_KEY);
    let id = EntityId_t::from_key_bytes(0, 3, 5, kind).unwrap();
    assert_eq!(id.key, [0, 3, 5]);
    assert!(EntityId_t::from_key_bytes(0, 2, 5, kind).is_none());
    assert!(EntityId_t::from_key_bytes(255, 3, 5, kind).is_none());
    assert!(EntityId_t::from_key_bytes(0, 3, 4, kind).is_none());
}

#[test]
fn well_known_entity_ids() {
    let r = EntityId_t::sedp_builtin_publications_reader();
    assert_eq!(r.key, [0, 0, 3]);
    assert_eq!(r.kind, EntityKind_t(ENTITY_KIND_READER_WITH_KEY_BUILT_IN));
    assert_eq!(EntityId_t::participant().key, [0, 0, 1]);
    assert_eq!(EntityId_t::participant().kind, EntityKind_t(0xc1));
    assert_eq!(EntityId_t::sedp_builtin_participant_message_writer().key, [0, 2, 0]);
    assert_eq!(EntityId_t::unknown().kind, EntityKind_t(0));
}

#[test]
fn guid_prefix_generation() {
    let p = GUIDPrefix_t::new();
    assert_eq!(p.vendor_id, VendorId_t(0));
    assert_ne!(p, GUIDPrefix_t::new());
    assert_eq!(p.size(), 12);
    let q = GUIDPrefix_t::with_bytes(VendorId_t(1), [4; 10]);
    assert_eq!(q, GUIDPrefix_t::with_bytes(VendorId_t(1), [4; 10]));
    assert_ne!(q, GUIDPrefix_t::with_bytes(VendorId_t(2), [4; 10]));
    assert_ne!(q, GUIDPrefix_t::with_bytes(VendorId_t(1), [4, 4, 4, 4, 4, 4, 4, 4, 4, 5]));
}

#[test]
fn guid_equality_and_size() {
    let prefix = GUIDPrefix_t::with_bytes(VendorId_t(1), [9; 10]);
    let a = GUID_t::new(prefix, EntityId_t::participant());
    let b = GUID_t::new(prefix, EntityId_t::participant());
    let c = GUID_t::new(prefix, EntityId_t::sedp_builtin_topic_writer());
    assert_eq!(a, b);
    assert_ne!(a, c);
    assert_eq!(a.size(), 16);
    assert_eq!(GUID_t::unknown().prefix, GUIDPrefix_t::unknown());
}

#[test]
fn element_sizes() {
    assert_eq!(VendorId_t(1).size(), 2);
    assert_eq!(rtps::types::ProtocolVersion_t::current().size(), 2);
    assert_eq!(SequenceNumber_t(1).size(), 8);
    assert_eq!(FragmentNumber_t(1).size(), 4);
    assert_eq!(Count_t(1).size(), 4);
    assert_eq!(Time_t::infinite().size(), 8);
    assert_eq!(SequenceNumber_t::unknown(), SequenceNumber_t(-1));
    assert_eq!(SequenceNumber_t::from(7), SequenceNumber_t(7));
}

#[test]
fn kind_codes() {
    assert_eq!(TopicKind_t::NO_KEY.code(), 1);
    assert_eq!(TopicKind_t::WITH_KEY.code(), 2);
    assert_eq!(ReliabilityKind_t::BEST_EFFORT.code(), 1);
    assert_eq!(ReliabilityKind_t::RELIABLE.code(), 3);
    assert_eq!(Time_t::invalid(), Time_t::new(-1, 0xffff_ffff));
}
