use rtps::decode::{read_header, read_submessage_header, submessage_positions, DecodeError};
use rtps::element::SequenceNumberSet;
use rtps::types::SequenceNumber_t;

fn datagram(subs: &[&[u8]]) -> Vec<u8> {
    let mut b = vec![b'R', b'T', b'P', b'S', 2, 2, 0x01, 0x0f];
    b.extend_from_slice(&[1, 2, 3, 4, 5, 6, 7, 8, 9, 10]);
    b.extend_from_slice(&[0, 0]);
    for s in subs {
        b.extend_from_slice(s);
    }
    b
}

#[test]
fn header_is_read() {
    let b = datagram(&[]);
    let h = read_header(&b).unwrap();
    assert_eq!(&h.protocol_id, b"RTPS");
    assert_eq!(h.protocol_version.major, 2);
    assert_eq!(h.vendor_id.0, 0x010f);
    assert_eq!(h.guid_prefix.bytes, [1, 2, 3, 4, 5, 6, 7, 8, 9, 10]);
}

#[test]
fn header_errors() {
    let mut b = datagram(&[]);
    assert_eq!(read_header(&b[..19]).err(), Some(DecodeError::Truncated));
    b[0] = b'X';
    assert_eq!(read_header(&b).err(), Some(DecodeError::NotRtps));
}

#[test]
fn unknown_kinds_are_skipped_by_length() {
    // a Pad with 4 bytes, a kind 0x7f unknown to the engine with 2 bytes,
    // and a little-endian Heartbeat-shaped header with 0 bytes
    let b = datagram(&[&[0x01, 0x01, 0, 4, 0, 0, 0, 0], &[0x7f, 0x01, 0, 2, 9, 9], &[0x07, 0x00, 0, 0]]);
    let starts = submessage_positions(&b).unwrap();
    assert_eq!(starts, vec![20, 28, 34]);
    let h = read_submessage_header(&b, 28).unwrap();
    assert_eq!(h.submessage_id, 0x7f);
    assert_eq!(h.submessage_length, 2);
}

#[test]
fn length_byte_order_follows_flag() {
    let b = datagram(&[&[0x15, 0x00, 3, 0, 1, 2, 3]]);
    let h = read_submessage_header(&b, 20).unwrap();
    assert_eq!(h.submessage_length, 3);
    assert_eq!(submessage_positions(&b).unwrap(), vec![20]);
}

#[test]
fn truncated_submessage_drops_datagram() {
    let b = datagram(&[&[0x01, 0x01, 0, 4, 0, 0, 0, 0], &[0x7f, 0x01, 0, 9, 1]]);
    assert_eq!(submessage_positions(&b).err(), Some(DecodeError::Truncated));
    let c = datagram(&[&[0x01, 0x01]]);
    assert_eq!(submessage_positions(&c).err(), Some(DecodeError::Truncated));
    assert_eq!(submessage_positions(&datagram(&[])).unwrap(), Vec::<usize>::new());
}

#[test]
fn seq_num_set_from_parts_checks_bitmap() {
    let s = SequenceNumberSet::from_parts(SequenceNumber_t(10), 33, vec![0x8000_0000, 0x8000_0000]).unwrap();
    let back: Vec<i64> = s.to_seq_nums().iter().map(|x| x.0).collect();
    assert_eq!(back, vec![10, 42]);
    // highest bit not set
    assert_eq!(
        SequenceNumberSet::from_parts(SequenceNumber_t(10), 2, vec![0x8000_0000]).err(),
        Some(DecodeError::InvalidBitmap)
    );
    // wrong word count
    assert_eq!(
        SequenceNumberSet::from_parts(SequenceNumber_t(10), 1, vec![0x8000_0000, 0]).err(),
        Some(DecodeError::InvalidBitmap)
    );
    // too many bits
    assert_eq!(
        SequenceNumberSet::from_parts(SequenceNumber_t(10), 257, vec![u32::MAX; 9]).err(),
        Some(DecodeError::InvalidBitmap)
    );
    assert!(SequenceNumberSet::from_parts(SequenceNumber_t(10), 0, vec![]).is_ok());
}
