//! Submessages that carry a change: whole, or split into fragments.
use vstd::prelude::*;
use crate::element::{
    EntityId, FragmentNumber, ParameterList, SequenceNumber, SerializedPayload, parameter_list_size,
};
use crate::submessage::{flag_byte, kind_id, pack_flags, SubmessageHeader, SubmessageKind};

verus! {

/// Bytes of the optional parts of a submessage: the inline QoS and the
/// payload, each 0 when absent.
pub open spec fn optional_size(i_qos: Option<ParameterList>, data: Option<SerializedPayload>) -> nat {
    (match i_qos {
        Some(q) => parameter_list_size(q.0@),
        None => 0,
    }) + (match data {
        Some(d) => d@.len(),
        None => 0,
    })
}

/// Whether the inline QoS, when present, is a well-formed list.
pub open spec fn qos_wf(i_qos: Option<ParameterList>) -> bool {
    i_qos matches Some(q) ==> q.wf()
}

/// `fixed` plus the sizes of the optional parts, or `None` past `u16::MAX`.
fn framed_length(fixed: u16, i_qos: &Option<ParameterList>, data: &Option<SerializedPayload>) -> (r:
    Option<u16>)
    requires
        qos_wf(*i_qos),
    ensures
        r matches Some(n) ==> n == fixed + optional_size(*i_qos, *data),
        r is None <==> fixed + optional_size(*i_qos, *data) > u16::MAX,
{
    let mut msg_len: u16 = fixed;
    if let Some(qos) = i_qos {
        let q = qos.size();
        if msg_len > u16::MAX - q {
            return None;
        }
        msg_len = msg_len + q;
    }
    if let Some(d) = data {
        if d.len() > (u16::MAX - msg_len) as usize {
            return None;
        }
        msg_len = msg_len + d.len() as u16;
    }
    Some(msg_len)
}

/// A change to a data object of a writer: its value, or its lifecycle.
pub struct Data {
    pub header: SubmessageHeader,
    pub extra_flags: u16,
    pub octets_to_inline_qos: u16,
    pub reader_id: EntityId,
    pub writer_id: EntityId,
    pub writer_sn: SequenceNumber,
    pub inline_qos: Option<ParameterList>,
    pub serialized_payload: Option<SerializedPayload>,
}

impl Data {
    /// The flags tell whether inline QoS is present, whether the payload
    /// is the data value, and whether it is the instance key. The length
    /// covers the ids and sequence number, then whichever of inline QoS and
    /// payload is present; it must fit in 16 bits.
    pub fn new(
        has_inline_qos: bool,
        has_data: bool,
        has_key: bool,
        rid: EntityId,
        wid: EntityId,
        w_sn: SequenceNumber,
        i_qos: Option<ParameterList>,
        data: Option<SerializedPayload>,
    ) -> (r: Data)
        requires
            qos_wf(i_qos),
            16 + optional_size(i_qos, data) <= u16::MAX,
        ensures
            r.header.submessage_id == kind_id(SubmessageKind::Data),
            r.header.flags == flag_byte(has_inline_qos, has_data, has_key),
            r.header.submessage_length == 16 + optional_size(i_qos, data),
            r.extra_flags == 0,
            r.octets_to_inline_qos == 16,
            r.reader_id == rid,
            r.writer_id == wid,
            r.writer_sn == w_sn,
            r.inline_qos == i_qos,
            r.serialized_payload == data,
    {
        let flags = pack_flags(has_inline_qos, has_data, has_key);
        let fixed: u16 = rid.size() + wid.size() + w_sn.size();
        let msg_len = framed_length(fixed, &i_qos, &data).unwrap();
        let header = SubmessageHeader {
            submessage_id: SubmessageKind::Data.id(),
            flags,
            submessage_length: msg_len,
        };
        Data {
            header,
            extra_flags: 0,
            octets_to_inline_qos: fixed,
            reader_id: rid,
            writer_id: wid,
            writer_sn: w_sn,
            inline_qos: i_qos,
            serialized_payload: data,
        }
    }

    /// Whether inline QoS is present.
    pub fn has_inline_qos(&self) -> (r: bool)
        ensures
            r == (self.header.flags & 0x02 != 0),
    {
        self.header.flags & 0x02 != 0
    }

    /// Whether the payload is the value of the data object.
    pub fn has_data(&self) -> (r: bool)
        ensures
            r == (self.header.flags & 0x04 != 0),
    {
        self.header.flags & 0x04 != 0
    }

    /// Whether the payload is the key of the instance.
    pub fn has_key(&self) -> (r: bool)
        ensures
            r == (self.header.flags & 0x08 != 0),
    {
        self.header.flags & 0x08 != 0
    }
}

/// One run of fragments of a change too large for one datagram.
pub struct DataFragment {
    pub data_header: Data,
    pub fragment_starting_num: FragmentNumber,
    pub fragments_in_submessage: u16,
    pub data_size: u32,
    pub fragment_size: u16,
}

impl DataFragment {
    /// As `Data::new`, for the fragments from `frag_starting_num` on,
    /// `frags_in_msg` of them, of `frag_size` bytes each, of a change of
    /// `data_size` bytes. The length adds the fragment number and the
    /// 8 bytes of the three counts.
    pub fn new(
        has_inline_qos: bool,
        has_data: bool,
        has_key: bool,
        rid: EntityId,
        wid: EntityId,
        w_sn: SequenceNumber,
        frag_starting_num: FragmentNumber,
        frags_in_msg: u16,
        data_size: u32,
        frag_size: u16,
        i_qos: Option<ParameterList>,
        data: Option<SerializedPayload>,
    ) -> (r: DataFragment)
        requires
            qos_wf(i_qos),
            28 + optional_size(i_qos, data) <= u16::MAX,
        ensures
            r.data_header.header.submessage_id == kind_id(SubmessageKind::DataFrag),
            r.data_header.header.flags == flag_byte(has_inline_qos, has_data, has_key),
            r.data_header.header.submessage_length == 28 + optional_size(i_qos, data),
            r.data_header.extra_flags == 0,
            r.data_header.octets_to_inline_qos == 16,
            r.data_header.reader_id == rid,
            r.data_header.writer_id == wid,
            r.data_header.writer_sn == w_sn,
            r.data_header.inline_qos == i_qos,
            r.data_header.serialized_payload == data,
            r.fragment_starting_num == frag_starting_num,
            r.fragments_in_submessage == frags_in_msg,
            r.data_size == data_size,
            r.fragment_size == frag_size,
    {
        let flags = pack_flags(has_inline_qos, has_data, has_key);
        let fixed: u16 = rid.size() + wid.size() + w_sn.size();
        let msg_len = framed_length(fixed + frag_starting_num.size() + 8, &i_qos, &data).unwrap();
        let header = SubmessageHeader {
            submessage_id: SubmessageKind::DataFrag.id(),
            flags,
            submessage_length: msg_len,
        };
        let data_header = Data {
            header,
            extra_flags: 0,
            octets_to_inline_qos: fixed,
            reader_id: rid,
            writer_id: wid,
            writer_sn: w_sn,
            inline_qos: i_qos,
            serialized_payload: data,
        };
        DataFragment {
            data_header,
            fragment_starting_num: frag_starting_num,
            fragments_in_submessage: frags_in_msg,
            data_size,
            fragment_size: frag_size,
        }
    }

    /// Whether inline QoS is present.
    pub fn has_inline_qos(&self) -> (r: bool)
        ensures
            r == (self.data_header.header.flags & 0x02 != 0),
    {
        self.data_header.header.flags & 0x02 != 0
    }

    /// Whether the payload is the value of the data object.
    pub fn has_data(&self) -> (r: bool)
        ensures
            r == (self.data_header.header.flags & 0x04 != 0),
    {
        self.data_header.header.flags & 0x04 != 0
    }

    /// Whether the payload is the key of the instance.
    pub fn has_key(&self) -> (r: bool)
        ensures
            r == (self.data_header.header.flags & 0x08 != 0),
    {
        self.data_header.header.flags & 0x08 != 0
    }
}

} // verus!
