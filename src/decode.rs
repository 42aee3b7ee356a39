//! Reading the framing of a received datagram: the message header, then
//! one submessage header after another. A submessage of a kind this engine
//! does not know is skipped by its declared length; a length that runs past
//! the datagram makes the whole datagram untrustworthy.
use vstd::prelude::*;
use crate::guid::GUIDPrefix_t;
use crate::submessage::{Header, SubmessageHeader};
use crate::types::{ProtocolVersion_t, VendorId_t};

verus! {

/// Why received bytes could not be read.
#[derive(Copy, Clone, Debug, PartialEq, Eq, Structural)]
pub enum DecodeError {
    /// The datagram does not start with the protocol id "RTPS".
    NotRtps,
    /// The bytes end before a header, or before the body it announces.
    Truncated,
    /// A number set whose bitmap does not have the shape its bit count
    /// asks for.
    InvalidBitmap,
}

/// Bytes in a message header.
pub const HEADER_SIZE: usize = 20;

/// Bytes in a submessage header.
pub const SUBMESSAGE_HEADER_SIZE: usize = 4;

/// The 16-bit value of two bytes, most significant first.
pub open spec fn be_u16(hi: u8, lo: u8) -> u16 {
    (hi as int * 256 + lo as int) as u16
}

/// The length field of the submessage header at `pos`: most significant
/// byte first when bit 0 of the flags is set, last otherwise.
pub open spec fn length_at(buf: Seq<u8>, pos: int) -> u16 {
    if buf[pos + 1] & 0x01 != 0 {
        be_u16(buf[pos + 2], buf[pos + 3])
    } else {
        be_u16(buf[pos + 3], buf[pos + 2])
    }
}

/// Whether a whole submessage, header and body, starts at `pos`.
pub open spec fn fits_at(buf: Seq<u8>, pos: int) -> bool {
    &&& pos + SUBMESSAGE_HEADER_SIZE <= buf.len()
    &&& pos + SUBMESSAGE_HEADER_SIZE + length_at(buf, pos) <= buf.len()
}

/// The position just past the submessage at `pos`.
pub open spec fn end_at(buf: Seq<u8>, pos: int) -> int {
    pos + SUBMESSAGE_HEADER_SIZE + length_at(buf, pos)
}

fn read_u16(hi: u8, lo: u8) -> (r: u16)
    ensures
        r == be_u16(hi, lo),
{
    (hi as u16) * 256 + lo as u16
}

/// Reads the message header at the start of `buf`.
pub fn read_header(buf: &[u8]) -> (r: Result<Header, DecodeError>)
    ensures
        r == Err::<Header, DecodeError>(DecodeError::Truncated) <==> buf@.len() < HEADER_SIZE,
        r == Err::<Header, DecodeError>(DecodeError::NotRtps) <==> (buf@.len() >= HEADER_SIZE
            && buf@.take(4) != seq![0x52u8, 0x54, 0x50, 0x53]),
        r matches Ok(h) ==> {
            &&& h.protocol_id@ == buf@.take(4)
            &&& h.protocol_version == ProtocolVersion_t { major: buf@[4], minor: buf@[5] }
            &&& h.vendor_id == VendorId_t(be_u16(buf@[6], buf@[7]))
            &&& h.guid_prefix.vendor_id == h.vendor_id
            &&& h.guid_prefix.bytes@ == buf@.subrange(8, 18)
        },
{
    if buf.len() < HEADER_SIZE {
        return Err(DecodeError::Truncated);
    }
    if !(buf[0] == 0x52 && buf[1] == 0x54 && buf[2] == 0x50 && buf[3] == 0x53) {
        proof {
            if buf@.take(4) == seq![0x52u8, 0x54, 0x50, 0x53] {
                assert(buf@.take(4)[0] == 0x52 && buf@.take(4)[1] == 0x54);
                assert(buf@.take(4)[2] == 0x50 && buf@.take(4)[3] == 0x53);
            }
        }
        return Err(DecodeError::NotRtps);
    }
    let vendor_id = VendorId_t(read_u16(buf[6], buf[7]));
    let bytes: [u8; 10] = [buf[8], buf[9], buf[10], buf[11], buf[12], buf[13], buf[14], buf[15], buf[16], buf[17]];
    let h = Header {
        protocol_id: [buf[0], buf[1], buf[2], buf[3]],
        protocol_version: ProtocolVersion_t { major: buf[4], minor: buf[5] },
        vendor_id,
        guid_prefix: GUIDPrefix_t { vendor_id, bytes },
    };
    assert(h.protocol_id@ =~= buf@.take(4));
    assert(h.guid_prefix.bytes@ =~= buf@.subrange(8, 18));
    Ok(h)
}

/// Reads the submessage header at `pos`, and checks that the body it
/// announces lies within `buf`.
pub fn read_submessage_header(buf: &[u8], pos: usize) -> (r: Result<SubmessageHeader, DecodeError>)
    ensures
        r is Err <==> !fits_at(buf@, pos as int),
        r is Err ==> r == Err::<SubmessageHeader, DecodeError>(DecodeError::Truncated),
        r matches Ok(h) ==> {
            &&& h.submessage_id == buf@[pos as int]
            &&& h.flags == buf@[pos + 1]
            &&& h.submessage_length == length_at(buf@, pos as int)
        },
{
    if pos > buf.len() || buf.len() - pos < SUBMESSAGE_HEADER_SIZE {
        return Err(DecodeError::Truncated);
    }
    let flags = buf[pos + 1];
    let len = if flags & 0x01 != 0 {
        read_u16(buf[pos + 2], buf[pos + 3])
    } else {
        read_u16(buf[pos + 3], buf[pos + 2])
    };
    if buf.len() - pos - SUBMESSAGE_HEADER_SIZE < len as usize {
        return Err(DecodeError::Truncated);
    }
    Ok(SubmessageHeader { submessage_id: buf[pos], flags, submessage_length: len })
}

/// Whether `starts` are the successive submessage positions of `buf`
/// from `first` on: each one ends where the next begins, and the last one
/// ends at the end of `buf`.
pub open spec fn chained(buf: Seq<u8>, first: int, starts: Seq<usize>) -> bool {
    &&& forall|k: int| 0 <= k < starts.len() ==> fits_at(buf, #[trigger] starts[k] as int)
    &&& starts.len() > 0 ==> starts[0] == first
    &&& forall|k: int|
        0 <= k < starts.len() - 1 ==> #[trigger] starts[k + 1] == end_at(buf, starts[k] as int)
    &&& starts.len() == 0 ==> first == buf.len()
    &&& starts.len() > 0 ==> end_at(buf, starts[starts.len() - 1] as int) == buf.len()
}

/// Two chains from `first` agree wherever both have a position.
proof fn lemma_chains_agree(buf: Seq<u8>, first: int, a: Seq<usize>, b: Seq<usize>, k: int)
    requires
        a.len() > 0 ==> a[0] == first,
        b.len() > 0 ==> b[0] == first,
        forall|j: int| 0 <= j < a.len() - 1 ==> #[trigger] a[j + 1] == end_at(buf, a[j] as int),
        forall|j: int| 0 <= j < b.len() - 1 ==> #[trigger] b[j + 1] == end_at(buf, b[j] as int),
        0 <= k < a.len(),
        k < b.len(),
    ensures
        a[k] == b[k],
    decreases k,
{
    if k > 0 {
        lemma_chains_agree(buf, first, a, b, k - 1);
        let j = k - 1;
        assert(a[j + 1] == end_at(buf, a[j] as int));
        assert(b[j + 1] == end_at(buf, b[j] as int));
    }
}

/// Once the positions followed so far lead to a `pos` short of the end
/// where no whole submessage fits, no chain covers the datagram.
proof fn lemma_no_chain(buf: Seq<u8>, starts: Seq<usize>, pos: int, s: Seq<usize>)
    requires
        HEADER_SIZE <= pos < buf.len(),
        !fits_at(buf, pos),
        starts.len() > 0 ==> starts[0] == HEADER_SIZE,
        forall|k: int|
            0 <= k < starts.len() - 1 ==> #[trigger] starts[k + 1] == end_at(buf, starts[k] as int),
        forall|k: int| 0 <= k < starts.len() ==> #[trigger] starts[k] < pos,
        starts.len() == 0 ==> pos == HEADER_SIZE,
        starts.len() > 0 ==> end_at(buf, starts[starts.len() - 1] as int) == pos,
    ensures
        !chained(buf, HEADER_SIZE as int, s),
{
    if chained(buf, HEADER_SIZE as int, s) {
        let n = starts.len() as int;
        if s.len() == 0 {
            if n > 0 {
                assert(starts[0] < pos);
            }
        } else if s.len() <= n {
            let m = s.len() - 1;
            lemma_chains_agree(buf, HEADER_SIZE as int, s, starts, m);
            if m < n - 1 {
                assert(starts[m + 1] == end_at(buf, starts[m] as int));
                assert(starts[m + 1] < pos);
            }
        } else {
            if n > 0 {
                lemma_chains_agree(buf, HEADER_SIZE as int, s, starts, n - 1);
                let j = n - 1;
                assert(s[j + 1] == end_at(buf, s[j] as int));
            }
            assert(s[n] == pos);
            assert(fits_at(buf, s[n] as int));
        }
    }
}

/// The positions of the submessages of a datagram, whatever their kind,
/// found by following the declared lengths from just past the message
/// header. `Truncated` when a header or a body runs past the end: then
/// no length after it can be trusted.
pub fn submessage_positions(buf: &[u8]) -> (r: Result<Vec<usize>, DecodeError>)
    requires
        buf@.len() >= HEADER_SIZE,
    ensures
        r matches Ok(starts) ==> chained(buf@, HEADER_SIZE as int, starts@),
        r is Ok <==> exists|s: Seq<usize>| chained(buf@, HEADER_SIZE as int, s),
        r is Err ==> r == Err::<Vec<usize>, DecodeError>(DecodeError::Truncated),
{
    let mut starts: Vec<usize> = Vec::new();
    let mut pos: usize = HEADER_SIZE;
    while pos < buf.len()
        invariant
            HEADER_SIZE <= pos <= buf@.len(),
            forall|k: int| 0 <= k < starts@.len() ==> fits_at(buf@, #[trigger] starts@[k] as int),
            starts@.len() > 0 ==> starts@[0] == HEADER_SIZE,
            forall|k: int|
                0 <= k < starts@.len() - 1 ==> #[trigger] starts@[k + 1] == end_at(
                    buf@,
                    starts@[k] as int,
                ),
            forall|k: int| 0 <= k < starts@.len() ==> #[trigger] starts@[k] < pos,
            starts@.len() == 0 ==> pos == HEADER_SIZE,
            starts@.len() > 0 ==> end_at(buf@, starts@[starts@.len() - 1] as int) == pos,
        decreases buf@.len() - pos,
    {
        let h = read_submessage_header(buf, pos);
        match h {
            Ok(header) => {
                let ghost before = starts@;
                starts.push(pos);
                proof {
                    assert forall|k: int| 0 <= k < starts@.len() - 1 implies #[trigger] starts@[k + 1]
                        == end_at(buf@, starts@[k] as int) by {
                        if k < before.len() - 1 {
                            assert(starts@[k + 1] == before[k + 1]);
                        }
                    }
                }
                pos = pos + SUBMESSAGE_HEADER_SIZE + header.submessage_length as usize;
            },
            Err(e) => {
                proof {
                    assert forall|s: Seq<usize>| !chained(buf@, HEADER_SIZE as int, s) by {
                        lemma_no_chain(buf@, starts@, pos as int, s);
                    }
                }
                return Err(e);
            },
        }
    }
    assert(chained(buf@, HEADER_SIZE as int, starts@));
    Ok(starts)
}

} // verus!
