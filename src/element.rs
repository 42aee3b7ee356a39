//! Submessage elements: the values submessages are made of, each with its
//! size on the wire, so that a submessage's length is a sum of sizes.
use vstd::prelude::*;
use crate::bitmap::{
    bit_set, bitmap_wf, decode_offsets, encode_offsets, has_offset, words_for, MAX_BITS,
};
use crate::decode::DecodeError;
use crate::guid::{EntityId_t, GUIDPrefix_t, GUID_t};
use crate::types::{
    locator_wire_size, Locator_t, ProtocolVersion_t, SequenceNumber_t, Time_t, VendorId_t,
};

verus! {

/// Encoded as 4 bytes: the key, then the kind.
pub type EntityId = EntityId_t;

/// Encoded as 12 bytes: the vendor id, then the 10 generated bytes.
pub type GUIDPrefix = GUIDPrefix_t;

/// Encoded as 2 bytes.
pub type VendorId = VendorId_t;

/// Encoded as 2 bytes: major, then minor.
pub type ProtocolVersion = ProtocolVersion_t;

/// Encoded as 8 bytes.
pub type SequenceNumber = SequenceNumber_t;

/// Encoded as 8 bytes: seconds, then fraction.
pub type Timestamp = Time_t;

/// Payload bytes, produced and read by the application's codecs.
pub type SerializedPayload = Vec<u8>;

impl VendorId {
    pub fn size(&self) -> (r: u16)
        ensures
            r == 2,
    {
        2
    }
}

impl ProtocolVersion {
    pub fn size(&self) -> (r: u16)
        ensures
            r == 2,
    {
        2
    }
}

impl SequenceNumber {
    pub fn size(&self) -> (r: u16)
        ensures
            r == 8,
    {
        8
    }
}

impl Timestamp {
    pub fn size(&self) -> (r: u16)
        ensures
            r == 8,
    {
        8
    }
}

/// Number of a fragment of a change that was split up.
#[derive(Copy, Clone, Debug, PartialEq, Eq, Structural)]
pub struct FragmentNumber_t(pub u32);

/// Encoded as 4 bytes.
pub type FragmentNumber = FragmentNumber_t;

impl FragmentNumber {
    pub fn size(&self) -> (r: u16)
        ensures
            r == 4,
    {
        4
    }
}

/// Lets a receiver spot a submessage that reached it twice.
#[derive(Copy, Clone, Debug, PartialEq, Eq, Structural)]
pub struct Count_t(pub i32);

/// Encoded as 4 bytes.
pub type Count = Count_t;

impl Count {
    pub fn size(&self) -> (r: u16)
        ensures
            r == 4,
    {
        4
    }
}

/// Why a number set could not be built.
#[derive(Copy, Clone, Debug, PartialEq, Eq, Structural)]
pub enum SetError {
    /// An offset lies beyond the last bit a bitmap can hold.
    OffsetOutOfRange,
    /// Base plus an offset does not fit the number type.
    ValueOverflow,
}

/// Whether some offset is past the last bit of a bitmap.
pub open spec fn some_offset_out_of_range(offsets: Seq<u32>) -> bool {
    exists|k: int| 0 <= k < offsets.len() && offsets[k] >= MAX_BITS
}

/// The values `base + o` for each offset `o`.
pub open spec fn offset_image(base: int, offsets: Seq<u32>) -> Set<int> {
    Set::new(|v: int| has_offset(offsets, v - base))
}

/// Whether every one of `offsets` lies below `MAX_BITS`.
fn check_offsets(offsets: &[u32]) -> (r: bool)
    ensures
        r == !some_offset_out_of_range(offsets@),
{
    let mut k: usize = 0;
    while k < offsets.len()
        invariant
            0 <= k <= offsets@.len(),
            forall|j: int| 0 <= j < k ==> offsets@[j] < MAX_BITS,
        decreases offsets@.len() - k,
    {
        if offsets[k] >= MAX_BITS {
            return false;
        }
        k += 1;
    }
    true
}

/// Whether `bitmap` has the shape that `num_bits` asks for.
fn valid_bitmap(bitmap: &Vec<u32>, num_bits: u32) -> (r: bool)
    ensures
        r == bitmap_wf(bitmap@, num_bits as int),
{
    if num_bits > MAX_BITS || bitmap.len() != ((num_bits + 31) / 32) as usize {
        return false;
    }
    if num_bits == 0 {
        return true;
    }
    let i = num_bits - 1;
    proof {
        assert(i / 32 < bitmap@.len());
    }
    (bitmap[(i / 32) as usize] >> (31 - i % 32)) & 1u32 == 1u32
}

/// A set of sequence numbers as a base and a bitmap of up to 256 bits:
/// bit `i` stands for `base + i`.
pub struct SequenceNumberSet {
    pub bitmap_base: SequenceNumber_t,
    pub num_bits: u32,
    pub bitmap: Vec<u32>,
}

impl SequenceNumberSet {
    /// The bitmap has the wire shape and every member fits in 64 bits.
    pub open spec fn wf(&self) -> bool {
        &&& bitmap_wf(self.bitmap@, self.num_bits as int)
        &&& self.num_bits > 0 ==> self.bitmap_base.0 + self.num_bits - 1 <= i64::MAX
    }

    /// The sequence numbers the set holds.
    pub open spec fn members(&self) -> Set<int> {
        Set::new(
            |v: int|
                0 <= v - self.bitmap_base.0 < self.num_bits && bit_set(
                    self.bitmap@,
                    v - self.bitmap_base.0,
                ),
        )
    }

    /// The set `{base + o | o in offsets}`. Fails with `OffsetOutOfRange`
    /// when an offset is 256 or more, and otherwise with `ValueOverflow`
    /// when `base + o` exceeds the largest sequence number.
    pub fn new(bitmap_base: SequenceNumber_t, offsets: &[u32]) -> (r: Result<
        SequenceNumberSet,
        SetError,
    >)
        ensures
            r == Err::<SequenceNumberSet, SetError>(SetError::OffsetOutOfRange)
                <==> some_offset_out_of_range(offsets@),
            r == Err::<SequenceNumberSet, SetError>(SetError::ValueOverflow) <==> (
            !some_offset_out_of_range(offsets@) && exists|k: int|
                0 <= k < offsets@.len() && bitmap_base.0 + offsets@[k] > i64::MAX),
            r matches Ok(s) ==> s.wf() && s.bitmap_base == bitmap_base && s.members()
                == offset_image(bitmap_base.0 as int, offsets@),
    {
        if !check_offsets(offsets) {
            return Err(SetError::OffsetOutOfRange);
        }
        let (num_bits, bitmap) = encode_offsets(offsets);
        if num_bits > 0 && bitmap_base.0 > i64::MAX - (num_bits - 1) as i64 {
            proof {
                assert(has_offset(offsets@, num_bits - 1));
                let k = choose|k: int| 0 <= k < offsets@.len() && #[trigger] offsets@[k] == num_bits - 1;
                assert(bitmap_base.0 + offsets@[k] > i64::MAX);
            }
            return Err(SetError::ValueOverflow);
        }
        let s = SequenceNumberSet { bitmap_base, num_bits, bitmap };
        proof {
            assert forall|k: int| 0 <= k < offsets@.len() implies bitmap_base.0 + offsets@[k]
                <= i64::MAX by {}
            assert(s.members() =~= offset_image(bitmap_base.0 as int, offsets@));
        }
        Ok(s)
    }

    /// The set as read off the wire. Fails with `InvalidBitmap` unless
    /// there are at most 256 bits, one word per 32 of them, the highest bit
    /// set, and every member fits in 64 bits.
    pub fn from_parts(bitmap_base: SequenceNumber_t, num_bits: u32, bitmap: Vec<u32>) -> (r: Result<
        SequenceNumberSet,
        DecodeError,
    >)
        ensures
            r is Ok <==> (SequenceNumberSet { bitmap_base, num_bits, bitmap }).wf(),
            r matches Ok(s) ==> s.bitmap_base == bitmap_base && s.num_bits == num_bits && s.bitmap@
                == bitmap@,
            r is Err ==> r == Err::<SequenceNumberSet, DecodeError>(DecodeError::InvalidBitmap),
    {
        if !valid_bitmap(&bitmap, num_bits) {
            return Err(DecodeError::InvalidBitmap);
        }
        if num_bits > 0 && bitmap_base.0 > i64::MAX - (num_bits - 1) as i64 {
            return Err(DecodeError::InvalidBitmap);
        }
        Ok(SequenceNumberSet { bitmap_base, num_bits, bitmap })
    }

    /// The members, in ascending order.
    pub fn to_seq_nums(&self) -> (r: Vec<SequenceNumber_t>)
        requires
            self.wf(),
        ensures
            lists_exactly(r@, self.members()),
    {
        let offsets = decode_offsets(&self.bitmap, self.num_bits);
        let mut r: Vec<SequenceNumber_t> = Vec::new();
        let mut k: usize = 0;
        while k < offsets.len()
            invariant
                self.wf(),
                0 <= k <= offsets@.len(),
                r@.len() == k,
                forall|j: int| 0 <= j < offsets@.len() ==> offsets@[j] < self.num_bits,
                forall|j: int| 0 <= j < k ==> r@[j].0 == self.bitmap_base.0 + offsets@[j],
            decreases offsets@.len() - k,
        {
            r.push(SequenceNumber_t(self.bitmap_base.0 + offsets[k] as i64));
            k += 1;
        }
        proof {
            assert forall|v: int| self.members().contains(v) implies exists|k: int|
                0 <= k < r@.len() && r@[k].0 == v by {
                let j = choose|j: int|
                    0 <= j < offsets@.len() && #[trigger] offsets@[j] == v - self.bitmap_base.0;
                assert(r@[j].0 == v);
            }
        }
        r
    }

    /// Bytes on the wire: the 8-byte base and 4 bytes per bitmap word.
    pub fn size(&self) -> (r: u16)
        requires
            self.wf(),
        ensures
            r == 8 + 4 * words_for(self.num_bits as int),
    {
        8 + (self.bitmap.len() * 4) as u16
    }
}

/// Whether `decoded` lists, in ascending order, exactly the members of
/// `members`: what `to_seq_nums` returns.
pub open spec fn lists_exactly(decoded: Seq<SequenceNumber_t>, members: Set<int>) -> bool {
    &&& forall|k: int| 0 <= k < decoded.len() ==> members.contains(decoded[k].0 as int)
    &&& forall|v: int| members.contains(v) ==> lists_value(decoded, v)
    &&& forall|a: int, b: int| 0 <= a < b < decoded.len() ==> decoded[a].0 < decoded[b].0
}

/// Whether `decoded` holds the value `v`.
pub open spec fn lists_value(decoded: Seq<SequenceNumber_t>, v: int) -> bool {
    exists|j: int| 0 <= j < decoded.len() && decoded[j].0 == v
}

/// Encoding then decoding a sequence-number set gives back exactly the
/// values `base + o` for the offsets it was built from, in ascending
/// order, and no other value.
pub proof fn lemma_seq_num_set_round_trip(
    base: SequenceNumber_t,
    offsets: Seq<u32>,
    s: SequenceNumberSet,
    decoded: Seq<SequenceNumber_t>,
)
    requires
        s.wf(),
        s.bitmap_base == base,
        s.members() == offset_image(base.0 as int, offsets),
        lists_exactly(decoded, s.members()),
    ensures
        forall|k: int| 0 <= k < decoded.len() ==> has_offset(offsets, decoded[k].0 - base.0),
        forall|k: int| 0 <= k < offsets.len() ==> lists_value(decoded, base.0 + #[trigger] offsets[k]),
        forall|a: int, b: int| 0 <= a < b < decoded.len() ==> decoded[a].0 < decoded[b].0,
{
    assert forall|k: int| 0 <= k < offsets.len() implies lists_value(
        decoded,
        base.0 + #[trigger] offsets[k],
    ) by {
        let v = base.0 + offsets[k];
        assert(offsets[k] == v - base.0);
        assert(has_offset(offsets, v - base.0));
        assert(offset_image(base.0 as int, offsets).contains(v));
        assert(s.members().contains(v));
    }
    assert forall|k: int| 0 <= k < decoded.len() implies has_offset(
        offsets,
        decoded[k].0 - base.0,
    ) by {
        assert(offset_image(base.0 as int, offsets).contains(decoded[k].0 as int));
    }
}

/// A set of fragment numbers as a base and a bitmap of up to 256 bits:
/// bit `i` stands for `base + i`.
pub struct FragmentNumberSet {
    pub bitmap_base: FragmentNumber_t,
    pub num_bits: u32,
    pub bitmap: Vec<u32>,
}

impl FragmentNumberSet {
    /// The bitmap has the wire shape and every member fits in 32 bits.
    pub open spec fn wf(&self) -> bool {
        &&& bitmap_wf(self.bitmap@, self.num_bits as int)
        &&& self.num_bits > 0 ==> self.bitmap_base.0 + self.num_bits - 1 <= u32::MAX
    }

    /// The fragment numbers the set holds.
    pub open spec fn members(&self) -> Set<int> {
        Set::new(
            |v: int|
                0 <= v - self.bitmap_base.0 < self.num_bits && bit_set(
                    self.bitmap@,
                    v - self.bitmap_base.0,
                ),
        )
    }

    /// The set `{base + o | o in offsets}`. Fails with `OffsetOutOfRange`
    /// when an offset is 256 or more, and otherwise with `ValueOverflow`
    /// when `base + o` exceeds the largest fragment number.
    pub fn new(bitmap_base: FragmentNumber_t, offsets: &[u32]) -> (r: Result<
        FragmentNumberSet,
        SetError,
    >)
        ensures
            r == Err::<FragmentNumberSet, SetError>(SetError::OffsetOutOfRange)
                <==> some_offset_out_of_range(offsets@),
            r == Err::<FragmentNumberSet, SetError>(SetError::ValueOverflow) <==> (
            !some_offset_out_of_range(offsets@) && exists|k: int|
                0 <= k < offsets@.len() && bitmap_base.0 + offsets@[k] > u32::MAX),
            r matches Ok(s) ==> s.wf() && s.bitmap_base == bitmap_base && s.members()
                == offset_image(bitmap_base.0 as int, offsets@),
    {
        if !check_offsets(offsets) {
            return Err(SetError::OffsetOutOfRange);
        }
        let (num_bits, bitmap) = encode_offsets(offsets);
        if num_bits > 0 && bitmap_base.0 > u32::MAX - (num_bits - 1) {
            proof {
                assert(has_offset(offsets@, num_bits - 1));
                let k = choose|k: int| 0 <= k < offsets@.len() && #[trigger] offsets@[k] == num_bits - 1;
                assert(bitmap_base.0 + offsets@[k] > u32::MAX);
            }
            return Err(SetError::ValueOverflow);
        }
        let s = FragmentNumberSet { bitmap_base, num_bits, bitmap };
        proof {
            assert(s.members() =~= offset_image(bitmap_base.0 as int, offsets@));
        }
        Ok(s)
    }

    /// The members, in ascending order.
    pub fn to_fragment_nums(&self) -> (r: Vec<FragmentNumber_t>)
        requires
            self.wf(),
        ensures
            forall|k: int| 0 <= k < r@.len() ==> self.members().contains(r@[k].0 as int),
            forall|v: int|
                self.members().contains(v) ==> exists|k: int| 0 <= k < r@.len() && r@[k].0 == v,
            forall|a: int, b: int| 0 <= a < b < r@.len() ==> r@[a].0 < r@[b].0,
    {
        let offsets = decode_offsets(&self.bitmap, self.num_bits);
        let mut r: Vec<FragmentNumber_t> = Vec::new();
        let mut k: usize = 0;
        while k < offsets.len()
            invariant
                self.wf(),
                0 <= k <= offsets@.len(),
                r@.len() == k,
                forall|j: int| 0 <= j < offsets@.len() ==> offsets@[j] < self.num_bits,
                forall|j: int| 0 <= j < k ==> r@[j].0 == self.bitmap_base.0 + offsets@[j],
            decreases offsets@.len() - k,
        {
            r.push(FragmentNumber_t(self.bitmap_base.0 + offsets[k]));
            k += 1;
        }
        proof {
            assert forall|v: int| self.members().contains(v) implies exists|k: int|
                0 <= k < r@.len() && r@[k].0 == v by {
                let j = choose|j: int|
                    0 <= j < offsets@.len() && #[trigger] offsets@[j] == v - self.bitmap_base.0;
                assert(r@[j].0 == v);
            }
        }
        r
    }

    /// Bytes on the wire: the 4-byte base and 4 bytes per bitmap word.
    pub fn size(&self) -> (r: u16)
        requires
            self.wf(),
        ensures
            r == 4 + 4 * words_for(self.num_bits as int),
    {
        4 + (self.bitmap.len() * 4) as u16
    }
}

/// Bytes that the locators of `s` take on the wire.
pub open spec fn locators_size(s: Seq<Locator_t>) -> nat
    decreases s.len(),
{
    if s.len() == 0 {
        0
    } else {
        locators_size(s.drop_last()) + locator_wire_size(s.last())
    }
}

proof fn lemma_locators_size_prefix(s: Seq<Locator_t>, i: int)
    requires
        0 <= i <= s.len(),
    ensures
        locators_size(s.take(i)) <= locators_size(s),
    decreases s.len() - i,
{
    if i < s.len() {
        lemma_locators_size_prefix(s, i + 1);
        assert(s.take(i + 1).drop_last() =~= s.take(i));
    } else {
        assert(s.take(i) =~= s);
    }
}

/// Bytes of a locator list on the wire: the 4-byte count, then the
/// locators.
pub open spec fn locator_list_size(s: Seq<Locator_t>) -> nat {
    4 + locators_size(s)
}

/// Wire size of the list of `s`, or `None` once it passes `u16::MAX`.
fn sum_locator_sizes(s: &Vec<Locator_t>) -> (r: Option<u16>)
    ensures
        r matches Some(n) ==> n == locator_list_size(s@),
        r is None <==> locator_list_size(s@) > u16::MAX,
{
    let mut total: u16 = 4;
    let mut i: usize = 0;
    while i < s.len()
        invariant
            0 <= i <= s@.len(),
            total == 4 + locators_size(s@.take(i as int)),
        decreases s@.len() - i,
    {
        proof {
            assert(s@.take(i + 1).drop_last() =~= s@.take(i as int));
        }
        let n = s[i].size();
        if total > u16::MAX - n {
            proof {
                lemma_locators_size_prefix(s@, i + 1);
            }
            return None;
        }
        total = total + n;
        i += 1;
    }
    proof {
        assert(s@.take(s@.len() as int) =~= s@);
    }
    Some(total)
}

/// Locators as they go on the wire, preceded by their count, in at most
/// `u16::MAX` bytes so that a submessage can frame them.
pub struct LocatorList(pub Vec<Locator_t>);

impl LocatorList {
    pub open spec fn wf(&self) -> bool {
        locator_list_size(self.0@) <= u16::MAX
    }

    /// The list of `locators`; `None` when the count and the locators take
    /// more than `u16::MAX` bytes.
    pub fn new(locators: Vec<Locator_t>) -> (r: Option<LocatorList>)
        ensures
            r is None <==> locator_list_size(locators@) > u16::MAX,
            r matches Some(l) ==> l.wf() && l.0@ == locators@,
    {
        match sum_locator_sizes(&locators) {
            Some(_) => Some(LocatorList(locators)),
            None => None,
        }
    }

    /// Bytes on the wire: the 4-byte count, then the locators.
    pub fn size(&self) -> (r: u16)
        requires
            self.wf(),
        ensures
            r == locator_list_size(self.0@),
    {
        sum_locator_sizes(&self.0).unwrap()
    }
}

/// Identifies the kind of a parameter.
#[derive(Copy, Clone, Debug, PartialEq, Eq, Structural)]
pub struct ParameterId_t(pub i16);

/// Parameter id of padding that aligns a parameter list.
pub const PID_PAD: i16 = 0;

/// Parameter id that ends a parameter list.
pub const PID_SENTINEL: i16 = 1;

/// Length of `n` value bytes once padded to a multiple of 4.
pub open spec fn padded_len(n: int) -> int {
    if n % 4 == 0 {
        n
    } else {
        n + 4 - n % 4
    }
}

/// The largest padded value length that a parameter's length field holds.
pub const MAX_PARAMETER_LEN: usize = 32764;

/// One QoS parameter: an id, a length, and a value padded with zero bytes
/// to a multiple of 4.
pub struct Parameter {
    pub parameter_id: ParameterId_t,
    pub length: i16,
    pub value: Vec<u8>,
}

impl Parameter {
    pub open spec fn wf(&self) -> bool {
        &&& self.value@.len() % 4 == 0
        &&& self.value@.len() <= MAX_PARAMETER_LEN
        &&& self.length == self.value@.len()
    }

    /// The parameter `id` with `value`, padded with zero bytes to a
    /// multiple of 4. `None` when the padded length would not fit the
    /// length field, that is above `MAX_PARAMETER_LEN`.
    pub fn new(parameter_id: ParameterId_t, value: Vec<u8>) -> (r: Option<Parameter>)
        ensures
            r is None <==> padded_len(value@.len() as int) > MAX_PARAMETER_LEN,
            r matches Some(p) ==> {
                &&& p.wf()
                &&& p.parameter_id == parameter_id
                &&& p.value@.len() == padded_len(value@.len() as int)
                &&& p.value@.take(value@.len() as int) == value@
                &&& forall|i: int| value@.len() <= i < p.value@.len() ==> p.value@[i] == 0u8
            },
    {
        if value.len() > MAX_PARAMETER_LEN {
            return None;
        }
        let mut v = value;
        let ghost original = v@;
        while v.len() % 4 != 0
            invariant
                v@.len() <= padded_len(original.len() as int),
                padded_len(v@.len() as int) == padded_len(original.len() as int),
                original.len() <= v@.len(),
                v@.take(original.len() as int) == original,
                forall|i: int| original.len() <= i < v@.len() ==> v@[i] == 0u8,
            decreases padded_len(original.len() as int) - v@.len(),
        {
            v.push(0u8);
            assert(v@.take(original.len() as int) =~= original);
        }
        let n = v.len();
        Some(Parameter { parameter_id, length: n as i16, value: v })
    }

    /// Bytes on the wire: id and length, then the value.
    pub fn size(&self) -> (r: u16)
        requires
            self.wf(),
        ensures
            r == 4 + self.value@.len(),
    {
        4 + self.value.len() as u16
    }
}

/// Bytes that the parameters of `s` take on the wire.
pub open spec fn parameters_size(s: Seq<Parameter>) -> nat
    decreases s.len(),
{
    if s.len() == 0 {
        0
    } else {
        parameters_size(s.drop_last()) + 4 + s.last().value@.len()
    }
}

proof fn lemma_parameters_size_prefix(s: Seq<Parameter>, i: int)
    requires
        0 <= i <= s.len(),
    ensures
        parameters_size(s.take(i)) <= parameters_size(s),
    decreases s.len() - i,
{
    if i < s.len() {
        lemma_parameters_size_prefix(s, i + 1);
        assert(s.take(i + 1).drop_last() =~= s.take(i));
    } else {
        assert(s.take(i) =~= s);
    }
}

/// Bytes of a parameter list on the wire: the 4-byte count, then the
/// parameters.
pub open spec fn parameter_list_size(s: Seq<Parameter>) -> nat {
    4 + parameters_size(s)
}

/// Wire size of the list of `s`, or `None` once it passes `u16::MAX`.
fn sum_parameter_sizes(s: &Vec<Parameter>) -> (r: Option<u16>)
    requires
        forall|i: int| 0 <= i < s@.len() ==> (#[trigger] s@[i]).wf(),
    ensures
        r matches Some(n) ==> n == parameter_list_size(s@),
        r is None <==> parameter_list_size(s@) > u16::MAX,
{
    let mut total: u16 = 4;
    let mut i: usize = 0;
    while i < s.len()
        invariant
            0 <= i <= s@.len(),
            forall|i: int| 0 <= i < s@.len() ==> (#[trigger] s@[i]).wf(),
            total == 4 + parameters_size(s@.take(i as int)),
        decreases s@.len() - i,
    {
        proof {
            assert(s@.take(i + 1).drop_last() =~= s@.take(i as int));
        }
        let n = s[i].size();
        if total > u16::MAX - n {
            proof {
                lemma_parameters_size_prefix(s@, i + 1);
            }
            return None;
        }
        total = total + n;
        i += 1;
    }
    proof {
        assert(s@.take(s@.len() as int) =~= s@);
    }
    Some(total)
}

/// Parameters as they go on the wire, preceded by their count, in at
/// most `u16::MAX` bytes so that a submessage can frame them.
pub struct ParameterList(pub Vec<Parameter>);

impl ParameterList {
    pub open spec fn wf(&self) -> bool {
        &&& forall|i: int| 0 <= i < self.0@.len() ==> (#[trigger] self.0@[i]).wf()
        &&& parameter_list_size(self.0@) <= u16::MAX
    }

    /// The list of `parameters`; `None` when the count and the parameters
    /// take more than `u16::MAX` bytes.
    pub fn new(parameters: Vec<Parameter>) -> (r: Option<ParameterList>)
        requires
            forall|i: int| 0 <= i < parameters@.len() ==> (#[trigger] parameters@[i]).wf(),
        ensures
            r is None <==> parameter_list_size(parameters@) > u16::MAX,
            r matches Some(l) ==> l.wf() && l.0@ == parameters@,
    {
        match sum_parameter_sizes(&parameters) {
            Some(_) => Some(ParameterList(parameters)),
            None => None,
        }
    }

    /// Bytes on the wire: the 4-byte count, then the parameters.
    pub fn size(&self) -> (r: u16)
        requires
            self.wf(),
        ensures
            r == parameter_list_size(self.0@),
    {
        sum_parameter_sizes(&self.0).unwrap()
    }
}

/// Hash of the key of a data instance.
#[derive(Copy, Clone, Debug, PartialEq, Eq)]
pub struct KeyHash_t(pub [u8; 16]);

/// Lifecycle flags of a data instance.
#[derive(Copy, Clone, Debug, PartialEq, Eq)]
pub struct StatusInfo_t(pub [u8; 4]);

/// Describes a content-filtered topic. Every name takes 256 bytes on the
/// wire; the filter expression has a length of its own.
pub struct ContentFilterProperty_t {
    pub content_filtered_topic_name: String,
    pub related_topic_name: String,
    pub filter_class_name: String,
    pub filter_expression: String,
    pub expression_parameters: Vec<String>,
}

/// Result of each filter applied to a change.
pub struct FilterResult_t(pub Vec<i32>);

/// Signature of one filter.
#[derive(Copy, Clone, Debug, PartialEq, Eq)]
pub struct FilterSignature_t(pub [i32; 4]);

/// Which filters were applied to a change, and with what result.
pub struct ContentFilterInfo_t {
    pub filter_result: FilterResult_t,
    pub filter_signatures: Vec<FilterSignature_t>,
}

/// A name and a value.
pub struct Property_t {
    pub name: String,
    pub value: String,
}

/// Name of an entity.
pub struct EntityName_t(pub String);

/// The writer and sequence number a forwarded change first came from.
pub struct OriginalWriterInfo_t {
    pub original_writer_guid: GUID_t,
    pub original_writer_sn: SequenceNumber_t,
}

/// Set of built-in endpoints a participant has, one bit each.
#[derive(Copy, Clone, Debug, PartialEq, Eq, Structural)]
pub struct BuiltinEndpointSet_t(pub u32);

pub const DISC_BUILTIN_ENDPOINT_PARTICIPANT_ANNOUNCER: u32 = 0x0000_0001;
pub const DISC_BUILTIN_ENDPOINT_PARTICIPANT_DETECTOR: u32 = 0x0000_0002;
pub const DISC_BUILTIN_ENDPOINT_PUBLICATION_ANNOUNCER: u32 = 0x0000_0004;
pub const DISC_BUILTIN_ENDPOINT_PUBLICATION_DETECTOR: u32 = 0x0000_0008;
pub const DISC_BUILTIN_ENDPOINT_SUBSCRIPTION_ANNOUNCER: u32 = 0x0000_0010;
pub const DISC_BUILTIN_ENDPOINT_SUBSCRIPTION_DETECTOR: u32 = 0x0000_0020;
pub const DISC_BUILTIN_ENDPOINT_PARTICIPANT_PROXY_ANNOUNCER: u32 = 0x0000_0040;
pub const DISC_BUILTIN_ENDPOINT_PARTICIPANT_PROXY_DETECTOR: u32 = 0x0000_0080;
pub const DISC_BUILTIN_ENDPOINT_PARTICIPANT_STATE_ANNOUNCER: u32 = 0x0000_0100;
pub const DISC_BUILTIN_ENDPOINT_PARTICIPANT_STATE_DETECTOR: u32 = 0x0000_0200;
pub const BUILTIN_ENDPOINT_PARTICIPANT_MESSAGE_DATA_WRITER: u32 = 0x0000_0400;
pub const BUILTIN_ENDPOINT_PARTICIPANT_MESSAGE_DATA_READER: u32 = 0x0000_0800;

} // verus!
