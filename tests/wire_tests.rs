use rtps::data::{Data, DataFragment};
use rtps::element::{
    Count_t, FragmentNumberSet, FragmentNumber_t, LocatorList, Parameter, ParameterId_t,
    ParameterList, SequenceNumberSet, SetError,
};
use rtps::guid::{EntityId_t, GUIDPrefix_t};
use rtps::submessage::{
    AckNack, Gap, Header, Heartbeat, HeartbeatFrag, InfoDestination, InfoReply, InfoSource,
    InfoTimestamp, NackFrag, Pad, SubmessageHeader, SubmessageKind,
};
use rtps::types::{Locator_t, ProtocolVersion_t, SequenceNumber_t, Time_t, VendorId_t};

fn eid() -> EntityId_t {
    EntityId_t::participant()
}

fn sn_set(base: i64, offsets: &[u32]) -> SequenceNumberSet {
    SequenceNumberSet::new(SequenceNumber_t(base), offsets).unwrap()
}

#[test]
fn seq_num_set_round_trip() {
    let s = sn_set(1000, &[0, 3, 9, 255]);
    let back: Vec<i64> = s.to_seq_nums().iter().map(|x| x.0).collect();
    assert_eq!(back, vec![1000, 1003, 1009, 1255]);
    assert_eq!(s.num_bits, 256);
    assert_eq!(s.bitmap.len(), 8);
    assert_eq!(s.size(), 8 + 32);
}

#[test]
fn seq_num_set_bit_layout() {
    let s = sn_set(1, &[0, 33]);
    assert_eq!(s.num_bits, 34);
    assert_eq!(s.bitmap, vec![0x8000_0000, 0x4000_0000]);
    assert_eq!(s.size(), 8 + 8);
}

#[test]
fn seq_num_set_partial_last_word_and_order() {
    let s = sn_set(7, &[4, 1, 4]);
    assert_eq!(s.num_bits, 5);
    assert_eq!(s.bitmap.len(), 1);
    let back: Vec<i64> = s.to_seq_nums().iter().map(|x| x.0).collect();
    assert_eq!(back, vec![8, 11]);
}

#[test]
fn seq_num_set_empty() {
    let s = sn_set(5, &[]);
    assert_eq!(s.num_bits, 0);
    assert!(s.bitmap.is_empty());
    assert!(s.to_seq_nums().is_empty());
    assert_eq!(s.size(), 8);
}

#[test]
fn seq_num_set_errors() {
    assert_eq!(
        SequenceNumberSet::new(SequenceNumber_t(1), &[3, 256]).err(),
        Some(SetError::OffsetOutOfRange)
    );
    assert_eq!(
        SequenceNumberSet::new(SequenceNumber_t(i64::MAX - 1), &[1, 2]).err(),
        Some(SetError::ValueOverflow)
    );
    assert!(SequenceNumberSet::new(SequenceNumber_t(i64::MAX - 1), &[1]).is_ok());
}

#[test]
fn fragment_number_set_round_trip_and_size() {
    let f = FragmentNumberSet::new(FragmentNumber_t(10), &[0, 31, 32]).unwrap();
    let back: Vec<u32> = f.to_fragment_nums().iter().map(|x| x.0).collect();
    assert_eq!(back, vec![10, 41, 42]);
    assert_eq!(f.size(), 4 + 8);
    assert_eq!(
        FragmentNumberSet::new(FragmentNumber_t(u32::MAX), &[1]).err(),
        Some(SetError::ValueOverflow)
    );
    assert_eq!(
        FragmentNumberSet::new(FragmentNumber_t(0), &[300]).err(),
        Some(SetError::OffsetOutOfRange)
    );
}

#[test]
fn locator_sizes() {
    assert_eq!(Locator_t::invalid().size(), 4);
    assert_eq!(Locator_t::UDP_V4 { port: 7400, address: [127, 0, 0, 1] }.size(), 10);
    assert_eq!(Locator_t::UDP_V6 { port: 7400, address: [0; 16] }.size(), 22);
    let l = LocatorList::new(vec![
        Locator_t::invalid(),
        Locator_t::UDP_V4 { port: 1, address: [1, 2, 3, 4] },
        Locator_t::UDP_V6 { port: 1, address: [0; 16] },
    ])
    .unwrap();
    assert_eq!(l.size(), 4 + 36);
    assert_eq!(LocatorList::new(vec![]).unwrap().size(), 4);
    assert!(LocatorList::new(vec![Locator_t::invalid(); 20000]).is_none());
    // 16382 invalid locators take 65528 bytes: with the count, 65532
    assert!(LocatorList::new(vec![Locator_t::invalid(); 16382]).is_some());
    assert!(LocatorList::new(vec![Locator_t::invalid(); 16383]).is_none());
}

#[test]
fn parameter_is_padded_to_four_bytes() {
    let p = Parameter::new(ParameterId_t(0x50), vec![1, 2, 3, 4, 5]).unwrap();
    assert_eq!(p.value, vec![1, 2, 3, 4, 5, 0, 0, 0]);
    assert_eq!(p.length, 8);
    assert_eq!(p.size(), 12);
    let q = Parameter::new(ParameterId_t(0x51), vec![9; 4]).unwrap();
    assert_eq!(q.value.len(), 4);
    assert_eq!(q.size(), 8);
    assert!(Parameter::new(ParameterId_t(1), vec![0; 40000]).is_none());
    let list = ParameterList::new(vec![p, q]).unwrap();
    assert_eq!(list.size(), 4 + 20);
}

#[test]
fn heartbeat_flags() {
    let hb = Heartbeat::new(
        true,
        false,
        eid(),
        eid(),
        SequenceNumber_t(1),
        SequenceNumber_t(9),
        Count_t(1),
    );
    assert!(hb.is_final());
    assert!(!hb.has_liveliness());
    assert_eq!(hb.header.flags & 0x02, 0x02);
    assert_eq!(hb.header.flags & 0x04, 0);
    assert_eq!(hb.header.flags & 0x01, 0x01);
    assert_eq!(hb.header.submessage_id, 0x07);
    assert_eq!(hb.header.submessage_length, 28);
    let live = Heartbeat::new(
        false,
        true,
        eid(),
        eid(),
        SequenceNumber_t(1),
        SequenceNumber_t(1),
        Count_t(2),
    );
    assert!(!live.is_final());
    assert!(live.has_liveliness());
    assert_eq!(live.header.flags, 0x05);
}

#[test]
fn acknack_length_and_final_flag() {
    let a = AckNack::new(true, eid(), eid(), sn_set(1, &[0, 40]), Count_t(3));
    assert!(a.is_final());
    assert_eq!(a.header.flags, 0x03);
    assert_eq!(a.header.submessage_id, 0x06);
    assert_eq!(a.header.submessage_length, 4 + 4 + 16 + 4);
    let b = AckNack::new(false, eid(), eid(), sn_set(1, &[]), Count_t(3));
    assert!(!b.is_final());
    assert_eq!(b.header.submessage_length, 4 + 4 + 8 + 4);
}

#[test]
fn gap_and_nack_frag_lengths() {
    let g = Gap::new(eid(), eid(), SequenceNumber_t(3), sn_set(5, &[2]));
    assert_eq!(g.header.submessage_id, 0x08);
    assert_eq!(g.header.flags, 0x01);
    assert_eq!(g.header.submessage_length, 4 + 4 + 8 + 12);
    let f = FragmentNumberSet::new(FragmentNumber_t(1), &[64]).unwrap();
    let n = NackFrag::new(eid(), eid(), SequenceNumber_t(3), f, Count_t(1));
    assert_eq!(n.header.submessage_id, 0x12);
    assert_eq!(n.header.submessage_length, 4 + 4 + 8 + (4 + 12) + 4);
    let h = HeartbeatFrag::new(eid(), eid(), SequenceNumber_t(3), FragmentNumber_t(4), Count_t(1));
    assert_eq!(h.header.submessage_id, 0x13);
    assert_eq!(h.header.submessage_length, 24);
}

#[test]
fn info_submessages() {
    let prefix = GUIDPrefix_t::with_bytes(VendorId_t(3), [1; 10]);
    let d = InfoDestination::new(prefix);
    assert_eq!(d.header.submessage_id, 0x0e);
    assert_eq!(d.header.submessage_length, 12);
    let s = InfoSource::new(ProtocolVersion_t::current(), VendorId_t(3), prefix);
    assert_eq!(s.header.submessage_id, 0x0c);
    assert_eq!(s.header.submessage_length, 16);
    let t = InfoTimestamp::new(true, Time_t::new(5, 6));
    assert!(t.invalidates());
    assert_eq!(t.header.submessage_length, 8);
    assert!(!InfoTimestamp::new(false, Time_t::zero()).invalidates());
    let uni = LocatorList::new(vec![Locator_t::UDP_V4 { port: 1, address: [1, 1, 1, 1] }]).unwrap();
    let multi = LocatorList::new(vec![Locator_t::UDP_V6 { port: 1, address: [2; 16] }]).unwrap();
    let r = InfoReply::new(true, uni, multi);
    assert!(r.has_multicast());
    assert_eq!(r.header.submessage_id, 0x0f);
    assert_eq!(r.header.submessage_length, (4 + 10) + (4 + 22));
    let p = Pad::new(12);
    assert_eq!(p.header.submessage_id, 0x01);
    assert_eq!(p.header.submessage_length, 12);
}

#[test]
fn data_length_counts_optional_parts() {
    let d = Data::new(false, true, false, eid(), eid(), SequenceNumber_t(1), None, Some(vec![0; 10]));
    assert_eq!(d.header.submessage_id, 0x15);
    assert_eq!(d.header.submessage_length, 26);
    assert_eq!(d.octets_to_inline_qos, 16);
    assert!(d.has_data());
    assert!(!d.has_key());
    assert!(!d.has_inline_qos());
    let qos = ParameterList::new(vec![Parameter::new(ParameterId_t(2), vec![1]).unwrap()]).unwrap();
    let k = Data::new(true, false, true, eid(), eid(), SequenceNumber_t(1), Some(qos), None);
    assert_eq!(k.header.submessage_length, 16 + 4 + 8);
    assert!(k.has_inline_qos());
    assert!(k.has_key());
    assert!(!k.has_data());
    assert_eq!(k.header.flags, 0x0b);
    let bare = Data::new(false, false, false, eid(), eid(), SequenceNumber_t(1), None, None);
    assert_eq!(bare.header.submessage_length, 16);
}

#[test]
fn data_fragment_length() {
    let f = DataFragment::new(
        false,
        true,
        false,
        eid(),
        eid(),
        SequenceNumber_t(2),
        FragmentNumber_t(1),
        2,
        4000,
        1000,
        None,
        Some(vec![0; 100]),
    );
    assert_eq!(f.data_header.header.submessage_id, 0x16);
    assert_eq!(f.data_header.header.submessage_length, 28 + 100);
    assert!(f.has_data());
    assert!(!f.has_key());
    assert!(!f.has_inline_qos());
    assert_eq!(f.fragment_size, 1000);
}

#[test]
fn submessage_kind_ids() {
    assert_eq!(SubmessageKind::Pad.id(), 0x01);
    assert_eq!(SubmessageKind::InfoReplyIp4.id(), 0x0d);
    assert_eq!(SubmessageKind::DataFrag.id(), 0x16);
    assert_eq!(SubmessageKind::from_id(0x15), Some(SubmessageKind::Data));
    assert_eq!(SubmessageKind::from_id(0x02), None);
    let h = SubmessageHeader { submessage_id: 0x15, flags: 0x01, submessage_length: 0 };
    assert!(h.is_big_endian());
}

#[test]
fn header_starts_with_rtps() {
    let h = Header::new(ProtocolVersion_t::current(), VendorId_t(0), GUIDPrefix_t::unknown());
    assert_eq!(&h.protocol_id, b"RTPS");
    assert_eq!(h.protocol_version, ProtocolVersion_t::new(2, 2));
}
