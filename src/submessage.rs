//! Message and submessage framing. Every submessage starts with a header
//! holding its kind, its flags and the exact byte count of what follows,
//! so that a receiver can skip a kind it does not know.
use vstd::prelude::*;
use crate::element::{
    Count, EntityId, FragmentNumber, FragmentNumberSet, GUIDPrefix, LocatorList, ProtocolVersion,
    SequenceNumber, SequenceNumberSet, Timestamp, VendorId, locator_list_size,
};
use crate::bitmap::words_for;

verus! {

/// First bytes of every datagram: the protocol id "RTPS", the protocol
/// version, the vendor id and the GUID prefix of the sender.
pub struct Header {
    pub protocol_id: [u8; 4],
    pub protocol_version: ProtocolVersion,
    pub vendor_id: VendorId,
    pub guid_prefix: GUIDPrefix,
}

impl Header {
    pub fn new(protocol_version: ProtocolVersion, vendor_id: VendorId, guid_prefix: GUIDPrefix) -> (r:
        Header)
        ensures
            r.protocol_id@ == seq![0x52u8, 0x54, 0x50, 0x53],
            r.protocol_version == protocol_version,
            r.vendor_id == vendor_id,
            r.guid_prefix == guid_prefix,
    {
        let r = Header { protocol_id: [0x52, 0x54, 0x50, 0x53], protocol_version, vendor_id, guid_prefix };
        assert(r.protocol_id@ =~= seq![0x52u8, 0x54, 0x50, 0x53]);
        r
    }
}

/// Precedes every submessage. Bit 0 of the flags is always set; the other
/// bits mean what the kind says. The length counts the bytes up to the
/// next submessage header.
pub struct SubmessageHeader {
    pub submessage_id: u8,
    pub flags: u8,
    pub submessage_length: u16,
}

impl SubmessageHeader {
    /// Whether bit 0 of the flags is set.
    pub fn is_big_endian(&self) -> (r: bool)
        ensures
            r == (self.flags & 0x01 != 0),
    {
        self.flags & 0x01 != 0
    }
}

/// The kinds of submessage.
#[derive(Copy, Clone, Debug, PartialEq, Eq, Structural)]
pub enum SubmessageKind {
    Pad,
    AckNack,
    Heartbeat,
    Gap,
    InfoTimestamp,
    InfoSource,
    InfoReplyIp4,
    InfoDestination,
    InfoReply,
    NackFrag,
    HeartbeatFrag,
    Data,
    DataFrag,
}

/// The id of each kind on the wire.
pub open spec fn kind_id(k: SubmessageKind) -> u8 {
    match k {
        SubmessageKind::Pad => 0x01,
        SubmessageKind::AckNack => 0x06,
        SubmessageKind::Heartbeat => 0x07,
        SubmessageKind::Gap => 0x08,
        SubmessageKind::InfoTimestamp => 0x09,
        SubmessageKind::InfoSource => 0x0c,
        SubmessageKind::InfoReplyIp4 => 0x0d,
        SubmessageKind::InfoDestination => 0x0e,
        SubmessageKind::InfoReply => 0x0f,
        SubmessageKind::NackFrag => 0x12,
        SubmessageKind::HeartbeatFrag => 0x13,
        SubmessageKind::Data => 0x15,
        SubmessageKind::DataFrag => 0x16,
    }
}

impl SubmessageKind {
    /// The id of the kind on the wire.
    pub fn id(&self) -> (r: u8)
        ensures
            r == kind_id(*self),
    {
        match *self {
            SubmessageKind::Pad => 0x01,
            SubmessageKind::AckNack => 0x06,
            SubmessageKind::Heartbeat => 0x07,
            SubmessageKind::Gap => 0x08,
            SubmessageKind::InfoTimestamp => 0x09,
            SubmessageKind::InfoSource => 0x0c,
            SubmessageKind::InfoReplyIp4 => 0x0d,
            SubmessageKind::InfoDestination => 0x0e,
            SubmessageKind::InfoReply => 0x0f,
            SubmessageKind::NackFrag => 0x12,
            SubmessageKind::HeartbeatFrag => 0x13,
            SubmessageKind::Data => 0x15,
            SubmessageKind::DataFrag => 0x16,
        }
    }

    /// The kind with wire id `id`; `None` for an id no kind has.
    pub fn from_id(id: u8) -> (r: Option<SubmessageKind>)
        ensures
            r matches Some(k) ==> kind_id(k) == id,
            r is None ==> forall|k: SubmessageKind| kind_id(k) != id,
    {
        match id {
            0x01 => Some(SubmessageKind::Pad),
            0x06 => Some(SubmessageKind::AckNack),
            0x07 => Some(SubmessageKind::Heartbeat),
            0x08 => Some(SubmessageKind::Gap),
            0x09 => Some(SubmessageKind::InfoTimestamp),
            0x0c => Some(SubmessageKind::InfoSource),
            0x0d => Some(SubmessageKind::InfoReplyIp4),
            0x0e => Some(SubmessageKind::InfoDestination),
            0x0f => Some(SubmessageKind::InfoReply),
            0x12 => Some(SubmessageKind::NackFrag),
            0x13 => Some(SubmessageKind::HeartbeatFrag),
            0x15 => Some(SubmessageKind::Data),
            0x16 => Some(SubmessageKind::DataFrag),
            _ => None,
        }
    }
}

/// 1 for a set flag, 0 for a clear one.
pub open spec fn flag_bit(b: bool) -> u8 {
    if b {
        1
    } else {
        0
    }
}

/// The flags byte with bit 0 set and bits 1 to 3 as given.
pub open spec fn flag_byte(b1: bool, b2: bool, b3: bool) -> u8 {
    1u8 | (flag_bit(b1) << 1u8) | (flag_bit(b2) << 2u8) | (flag_bit(b3) << 3u8)
}

/// Packs the flags: bit 0 set, bits 1 to 3 from `b1` to `b3`.
pub fn pack_flags(b1: bool, b2: bool, b3: bool) -> (r: u8)
    ensures
        r == flag_byte(b1, b2, b3),
        r & 0x01 != 0,
        (r & 0x02 != 0) == b1,
        (r & 0x04 != 0) == b2,
        (r & 0x08 != 0) == b3,
        r & 0xf0 == 0,
{
    let x1: u8 = if b1 { 1 } else { 0 };
    let x2: u8 = if b2 { 1 } else { 0 };
    let x3: u8 = if b3 { 1 } else { 0 };
    let r: u8 = 1u8 | (x1 << 1u8) | (x2 << 2u8) | (x3 << 3u8);
    assert(r & 0x01 != 0 && ((r & 0x02 != 0) == (x1 == 1)) && ((r & 0x04 != 0) == (x2 == 1)) && ((
    r & 0x08 != 0) == (x3 == 1)) && r & 0xf0 == 0) by (bit_vector)
        requires
            x1 <= 1 && x2 <= 1 && x3 <= 1,
            r == 1u8 | (x1 << 1u8) | (x2 << 2u8) | (x3 << 3u8),
    ;
    r
}

/// Sent by a reader to a writer: which sequence numbers it has received,
/// and which it still misses.
pub struct AckNack {
    pub header: SubmessageHeader,
    pub reader_id: EntityId,
    pub writer_id: EntityId,
    pub reader_sn_state: SequenceNumberSet,
    pub count: Count,
}

impl AckNack {
    /// `is_final` tells the writer that no reply is needed; every sequence
    /// number below the base of `r_sn_state` is acknowledged, those in it
    /// are missing.
    pub fn new(is_final: bool, rid: EntityId, wid: EntityId, r_sn_state: SequenceNumberSet, c: Count) -> (r:
        AckNack)
        requires
            r_sn_state.wf(),
        ensures
            r.header.submessage_id == kind_id(SubmessageKind::AckNack),
            r.header.flags == flag_byte(is_final, false, false),
            r.header.submessage_length == 4 + 4 + (8 + 4 * words_for(r_sn_state.num_bits as int)) + 4,
            r.reader_id == rid,
            r.writer_id == wid,
            r.reader_sn_state == r_sn_state,
            r.count == c,
    {
        let flags = pack_flags(is_final, false, false);
        let msg_len: u16 = rid.size() + wid.size() + r_sn_state.size() + c.size();
        let header = SubmessageHeader {
            submessage_id: SubmessageKind::AckNack.id(),
            flags,
            submessage_length: msg_len,
        };
        AckNack { header, reader_id: rid, writer_id: wid, reader_sn_state: r_sn_state, count: c }
    }

    /// Whether the reader expects no reply.
    pub fn is_final(&self) -> (r: bool)
        ensures
            r == (self.header.flags & 0x02 != 0),
    {
        self.header.flags & 0x02 != 0
    }
}

/// Sent by a writer: a set of sequence numbers that are no longer relevant.
pub struct Gap {
    pub header: SubmessageHeader,
    pub reader_id: EntityId,
    pub writer_id: EntityId,
    pub gap_start: SequenceNumber,
    pub gap_list: SequenceNumberSet,
}

impl Gap {
    /// The numbers from `gap_start` up to the base of `gap_list`, and
    /// those in `gap_list`, are irrelevant to the reader `rid`.
    pub fn new(rid: EntityId, wid: EntityId, gap_start: SequenceNumber, gap_list: SequenceNumberSet) -> (r:
        Gap)
        requires
            gap_list.wf(),
        ensures
            r.header.submessage_id == kind_id(SubmessageKind::Gap),
            r.header.flags == flag_byte(false, false, false),
            r.header.submessage_length == 4 + 4 + 8 + (8 + 4 * words_for(gap_list.num_bits as int)),
            r.reader_id == rid,
            r.writer_id == wid,
            r.gap_start == gap_start,
            r.gap_list == gap_list,
    {
        let flags = pack_flags(false, false, false);
        let msg_len: u16 = rid.size() + wid.size() + gap_start.size() + gap_list.size();
        let header = SubmessageHeader {
            submessage_id: SubmessageKind::Gap.id(),
            flags,
            submessage_length: msg_len,
        };
        Gap { header, reader_id: rid, writer_id: wid, gap_start, gap_list }
    }
}

/// Sent by a writer: the range of sequence numbers it has available.
pub struct Heartbeat {
    pub header: SubmessageHeader,
    pub reader_id: EntityId,
    pub writer_id: EntityId,
    pub first_sn: SequenceNumber,
    pub last_sn: SequenceNumber,
    pub count: Count,
}

impl Heartbeat {
    /// `is_final` tells the reader that no reply is needed;
    /// `has_liveliness` that the writer asserted its liveliness by hand.
    pub fn new(
        is_final: bool,
        has_liveliness: bool,
        rid: EntityId,
        wid: EntityId,
        first_sn: SequenceNumber,
        last_sn: SequenceNumber,
        count: Count,
    ) -> (r: Heartbeat)
        ensures
            r.header.submessage_id == kind_id(SubmessageKind::Heartbeat),
            r.header.flags == flag_byte(is_final, has_liveliness, false),
            (r.header.flags & 0x02 != 0) == is_final,
            (r.header.flags & 0x04 != 0) == has_liveliness,
            r.header.submessage_length == 4 + 4 + 8 + 8 + 4,
            r.reader_id == rid,
            r.writer_id == wid,
            r.first_sn == first_sn,
            r.last_sn == last_sn,
            r.count == count,
    {
        let flags = pack_flags(is_final, has_liveliness, false);
        let msg_len: u16 = rid.size() + wid.size() + first_sn.size() + last_sn.size() + count.size();
        let header = SubmessageHeader {
            submessage_id: SubmessageKind::Heartbeat.id(),
            flags,
            submessage_length: msg_len,
        };
        Heartbeat { header, reader_id: rid, writer_id: wid, first_sn, last_sn, count }
    }

    /// Whether the writer expects no reply.
    pub fn is_final(&self) -> (r: bool)
        ensures
            r == (self.header.flags & 0x02 != 0),
    {
        self.header.flags & 0x02 != 0
    }

    /// Whether the writer asserted its liveliness by hand.
    pub fn has_liveliness(&self) -> (r: bool)
        ensures
            r == (self.header.flags & 0x04 != 0),
    {
        self.header.flags & 0x04 != 0
    }
}

/// Sent by a writer: the fragments of one change it has available.
pub struct HeartbeatFrag {
    pub header: SubmessageHeader,
    pub reader_id: EntityId,
    pub writer_id: EntityId,
    pub writer_sn: SequenceNumber,
    pub last_fragment_num: FragmentNumber,
    pub count: Count,
}

impl HeartbeatFrag {
    /// Every fragment of change `writer_sn` up to `last_frag_num` is
    /// available.
    pub fn new(
        rid: EntityId,
        wid: EntityId,
        writer_sn: SequenceNumber,
        last_frag_num: FragmentNumber,
        count: Count,
    ) -> (r: HeartbeatFrag)
        ensures
            r.header.submessage_id == kind_id(SubmessageKind::HeartbeatFrag),
            r.header.flags == flag_byte(false, false, false),
            r.header.submessage_length == 4 + 4 + 8 + 4 + 4,
            r.reader_id == rid,
            r.writer_id == wid,
            r.writer_sn == writer_sn,
            r.last_fragment_num == last_frag_num,
            r.count == count,
    {
        let flags = pack_flags(false, false, false);
        let msg_len: u16 = rid.size() + wid.size() + writer_sn.size() + last_frag_num.size()
            + count.size();
        let header = SubmessageHeader {
            submessage_id: SubmessageKind::HeartbeatFrag.id(),
            flags,
            submessage_length: msg_len,
        };
        HeartbeatFrag {
            header,
            reader_id: rid,
            writer_id: wid,
            writer_sn,
            last_fragment_num: last_frag_num,
            count,
        }
    }
}

/// Sets the GUID prefix for the reader ids of the submessages that follow.
pub struct InfoDestination {
    pub header: SubmessageHeader,
    pub guid_prefix: GUIDPrefix,
}

impl InfoDestination {
    pub fn new(guid_prefix: GUIDPrefix) -> (r: InfoDestination)
        ensures
            r.header.submessage_id == kind_id(SubmessageKind::InfoDestination),
            r.header.flags == flag_byte(false, false, false),
            r.header.submessage_length == 12,
            r.guid_prefix == guid_prefix,
    {
        let flags = pack_flags(false, false, false);
        let msg_len: u16 = guid_prefix.size();
        let header = SubmessageHeader {
            submessage_id: SubmessageKind::InfoDestination.id(),
            flags,
            submessage_length: msg_len,
        };
        InfoDestination { header, guid_prefix }
    }
}

/// Where to send replies to the submessages that follow.
pub struct InfoReply {
    pub header: SubmessageHeader,
    pub unicast_locator_list: LocatorList,
    pub multicast_locator_list: LocatorList,
}

impl InfoReply {
    /// `has_multicast` tells that the lists hold multicast addresses.
    pub fn new(
        has_multicast: bool,
        unicast_locator_list: LocatorList,
        multicast_locator_list: LocatorList,
    ) -> (r: InfoReply)
        requires
            unicast_locator_list.wf(),
            multicast_locator_list.wf(),
            locator_list_size(unicast_locator_list.0@) + locator_list_size(multicast_locator_list.0@)
                <= u16::MAX,
        ensures
            r.header.submessage_id == kind_id(SubmessageKind::InfoReply),
            r.header.flags == flag_byte(has_multicast, false, false),
            r.header.submessage_length == locator_list_size(unicast_locator_list.0@) + locator_list_size(
                multicast_locator_list.0@,
            ),
            r.unicast_locator_list == unicast_locator_list,
            r.multicast_locator_list == multicast_locator_list,
    {
        let flags = pack_flags(has_multicast, false, false);
        let msg_len: u16 = unicast_locator_list.size() + multicast_locator_list.size();
        let header = SubmessageHeader {
            submessage_id: SubmessageKind::InfoReply.id(),
            flags,
            submessage_length: msg_len,
        };
        InfoReply { header, unicast_locator_list, multicast_locator_list }
    }

    /// Whether the locator lists hold multicast addresses.
    pub fn has_multicast(&self) -> (r: bool)
        ensures
            r == (self.header.flags & 0x02 != 0),
    {
        self.header.flags & 0x02 != 0
    }
}

/// The sender of the submessages that follow.
pub struct InfoSource {
    pub header: SubmessageHeader,
    pub protocol_version: ProtocolVersion,
    pub vendor_id: VendorId,
    pub guid_prefix: GUIDPrefix,
}

impl InfoSource {
    pub fn new(protocol_version: ProtocolVersion, vendor_id: VendorId, guid_prefix: GUIDPrefix) -> (r:
        InfoSource)
        ensures
            r.header.submessage_id == kind_id(SubmessageKind::InfoSource),
            r.header.flags == flag_byte(false, false, false),
            r.header.submessage_length == 2 + 2 + 12,
            r.protocol_version == protocol_version,
            r.vendor_id == vendor_id,
            r.guid_prefix == guid_prefix,
    {
        let flags = pack_flags(false, false, false);
        let msg_len: u16 = protocol_version.size() + vendor_id.size() + guid_prefix.size();
        let header = SubmessageHeader {
            submessage_id: SubmessageKind::InfoSource.id(),
            flags,
            submessage_length: msg_len,
        };
        InfoSource { header, protocol_version, vendor_id, guid_prefix }
    }
}

/// The source timestamp of the submessages that follow.
pub struct InfoTimestamp {
    pub header: SubmessageHeader,
    pub timestamp: Timestamp,
}

impl InfoTimestamp {
    /// `invalidates` tells whether the submessages that follow carry a
    /// timestamp.
    pub fn new(invalidates: bool, timestamp: Timestamp) -> (r: InfoTimestamp)
        ensures
            r.header.submessage_id == kind_id(SubmessageKind::InfoTimestamp),
            r.header.flags == flag_byte(invalidates, false, false),
            r.header.submessage_length == 8,
            r.timestamp == timestamp,
    {
        let flags = pack_flags(invalidates, false, false);
        let msg_len: u16 = timestamp.size();
        let header = SubmessageHeader {
            submessage_id: SubmessageKind::InfoTimestamp.id(),
            flags,
            submessage_length: msg_len,
        };
        InfoTimestamp { header, timestamp }
    }

    /// Whether the invalidate flag is set.
    pub fn invalidates(&self) -> (r: bool)
        ensures
            r == (self.header.flags & 0x02 != 0),
    {
        self.header.flags & 0x02 != 0
    }
}

/// Sent by a reader: the fragments of one change it still misses.
pub struct NackFrag {
    pub header: SubmessageHeader,
    pub reader_id: EntityId,
    pub writer_id: EntityId,
    pub writer_sn: SequenceNumber,
    pub fragment_number_state: FragmentNumberSet,
    pub count: Count,
}

impl NackFrag {
    pub fn new(
        rid: EntityId,
        wid: EntityId,
        writer_sn: SequenceNumber,
        fn_state: FragmentNumberSet,
        count: Count,
    ) -> (r: NackFrag)
        requires
            fn_state.wf(),
        ensures
            r.header.submessage_id == kind_id(SubmessageKind::NackFrag),
            r.header.flags == flag_byte(false, false, false),
            r.header.submessage_length == 4 + 4 + 8 + (4 + 4 * words_for(fn_state.num_bits as int))
                + 4,
            r.reader_id == rid,
            r.writer_id == wid,
            r.writer_sn == writer_sn,
            r.fragment_number_state == fn_state,
            r.count == count,
    {
        let flags = pack_flags(false, false, false);
        let msg_len: u16 = rid.size() + wid.size() + writer_sn.size() + fn_state.size()
            + count.size();
        let header = SubmessageHeader {
            submessage_id: SubmessageKind::NackFrag.id(),
            flags,
            submessage_length: msg_len,
        };
        NackFrag {
            header,
            reader_id: rid,
            writer_id: wid,
            writer_sn,
            fragment_number_state: fn_state,
            count,
        }
    }
}

/// Padding, for alignment.
pub struct Pad {
    pub header: SubmessageHeader,
}

impl Pad {
    /// `pad_length` zero bytes of padding.
    pub fn new(pad_length: u16) -> (r: Pad)
        ensures
            r.header.submessage_id == kind_id(SubmessageKind::Pad),
            r.header.flags == flag_byte(false, false, false),
            r.header.submessage_length == pad_length,
    {
        let flags = pack_flags(false, false, false);
        let header = SubmessageHeader {
            submessage_id: SubmessageKind::Pad.id(),
            flags,
            submessage_length: pad_length,
        };
        Pad { header }
    }
}

} // verus!
