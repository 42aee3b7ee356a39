//! Plain protocol values shared by every part of the engine.
use vstd::prelude::*;

verus! {

/// Two-byte value identifying the vendor of an RTPS implementation.
#[derive(Copy, Clone, Debug, PartialEq, Eq, Structural)]
pub struct VendorId_t(pub u16);

impl VendorId_t {
    /// The vendor id used until one is allocated.
    pub fn unknown() -> (r: VendorId_t)
        ensures
            r.0 == 0,
    {
        VendorId_t(0)
    }
}

/// Signed 64-bit sequence number; -1 is reserved for "unknown".
#[derive(Copy, Clone, Debug, PartialEq, Eq, Structural, PartialOrd, Ord)]
pub struct SequenceNumber_t(pub i64);

impl SequenceNumber_t {
    /// The sentinel for an unknown sequence number.
    pub fn unknown() -> (r: SequenceNumber_t)
        ensures
            r.0 == -1,
    {
        SequenceNumber_t(-1)
    }
}

impl From<i64> for SequenceNumber_t {
    fn from(sn: i64) -> (r: SequenceNumber_t)
        ensures
            r.0 == sn,
    {
        SequenceNumber_t(sn)
    }
}

impl vstd::std_specs::convert::FromSpecImpl<i64> for SequenceNumber_t {
    open spec fn obeys_from_spec() -> bool {
        true
    }

    open spec fn from_spec(sn: i64) -> SequenceNumber_t {
        SequenceNumber_t(sn)
    }
}

/// Transport address of a remote endpoint.
#[derive(Copy, Clone, Debug, PartialEq, Eq)]
pub enum Locator_t {
    Invalid(i32),
    UDP_V4 { port: u16, address: [u8; 4] },
    UDP_V6 { port: u16, address: [u8; 16] },
}

/// Number of bytes a locator occupies on the wire.
pub open spec fn locator_wire_size(l: Locator_t) -> nat {
    match l {
        Locator_t::Invalid(_) => 4,
        Locator_t::UDP_V4 { .. } => 10,
        Locator_t::UDP_V6 { .. } => 22,
    }
}

impl Locator_t {
    /// The locator that addresses nothing.
    pub fn invalid() -> (r: Locator_t)
        ensures
            r == Locator_t::Invalid(-1i32),
    {
        Locator_t::Invalid(-1)
    }

    pub fn size(&self) -> (r: u16)
        ensures
            r == locator_wire_size(*self),
    {
        match *self {
            Locator_t::UDP_V4 { .. } => 10,
            Locator_t::UDP_V6 { .. } => 22,
            Locator_t::Invalid(_) => 4,
        }
    }
}

/// Whether the data type of a topic has key fields.
#[derive(Copy, Clone, Debug, PartialEq, Eq, Structural)]
pub enum TopicKind_t {
    NO_KEY,
    WITH_KEY,
}

impl TopicKind_t {
    /// The protocol's numeric code of the kind.
    pub fn code(&self) -> (r: u8)
        ensures
            r == (match *self {
                TopicKind_t::NO_KEY => 1u8,
                TopicKind_t::WITH_KEY => 2u8,
            }),
    {
        match *self {
            TopicKind_t::NO_KEY => 1,
            TopicKind_t::WITH_KEY => 2,
        }
    }
}

/// What happened to a data instance.
#[derive(Copy, Clone, Debug, PartialEq, Eq, Structural)]
pub enum ChangeKind_t {
    ALIVE,
    NOT_ALIVE_DISPOSED,
    NOT_ALIVE_UNREGISTERED,
}

/// The reliability an endpoint supports.
#[derive(Copy, Clone, Debug, PartialEq, Eq, Structural)]
pub enum ReliabilityKind_t {
    BEST_EFFORT,
    RELIABLE,
}

impl ReliabilityKind_t {
    /// The protocol's numeric code of the kind.
    pub fn code(&self) -> (r: u8)
        ensures
            r == (match *self {
                ReliabilityKind_t::BEST_EFFORT => 1u8,
                ReliabilityKind_t::RELIABLE => 3u8,
            }),
    {
        match *self {
            ReliabilityKind_t::BEST_EFFORT => 1,
            ReliabilityKind_t::RELIABLE => 3,
        }
    }
}

/// Identifies one data instance of a keyed topic.
#[derive(Copy, Clone, Debug, PartialEq, Eq, Structural)]
pub struct InstanceHandle_t(pub i64);

/// Revision of the protocol.
#[derive(Copy, Clone, Debug, PartialEq, Eq, Structural)]
pub struct ProtocolVersion_t {
    pub major: u8,
    pub minor: u8,
}

impl ProtocolVersion_t {
    pub fn new(major: u8, minor: u8) -> (r: ProtocolVersion_t)
        ensures
            r.major == major,
            r.minor == minor,
    {
        ProtocolVersion_t { major, minor }
    }

    /// The revision this engine speaks.
    pub fn current() -> (r: ProtocolVersion_t)
        ensures
            r.major == 2,
            r.minor == 2,
    {
        ProtocolVersion_t { major: 2, minor: 2 }
    }
}

/// Delivery status of one change with respect to one remote reader.
#[derive(Copy, Clone, Debug, PartialEq, Eq, Structural)]
pub enum ChangeForReaderStatusKind {
    UNSENT,
    UNACKNOWLEDGED,
    REQUESTED,
    ACKNOWLEDGED,
    UNDERWAY,
}

/// Reception status of one change with respect to one remote writer.
#[derive(Copy, Clone, Debug, PartialEq, Eq, Structural)]
pub enum ChangeFromWriterStatusKind {
    LOST,
    MISSING,
    RECEIVED,
    UNKNOWN,
}

/// Time as in NTP: `seconds + fraction / 2^32`, counted from the Unix epoch.
#[derive(Copy, Clone, Debug, PartialEq, Eq, Structural)]
pub struct Time_t {
    pub seconds: i32,
    pub fraction: u32,
}

/// A span of time, written as a `Time_t`.
pub type Duration_t = Time_t;

impl Time_t {
    pub fn new(seconds: i32, fraction: u32) -> (r: Time_t)
        ensures
            r.seconds == seconds,
            r.fraction == fraction,
    {
        Time_t { seconds, fraction }
    }

    /// The epoch itself.
    pub fn zero() -> (r: Time_t)
        ensures
            r.seconds == 0 && r.fraction == 0,
    {
        Time_t { seconds: 0, fraction: 0 }
    }

    /// The value that stands for "no valid time".
    pub fn invalid() -> (r: Time_t)
        ensures
            r.seconds == -1 && r.fraction == 0xffff_ffff,
    {
        Time_t { seconds: -1, fraction: 0xffff_ffff }
    }

    /// The value that stands for an unbounded time.
    pub fn infinite() -> (r: Time_t)
        ensures
            r.seconds == 0x7fff_ffff && r.fraction == 0xffff_ffff,
    {
        Time_t { seconds: 0x7fff_ffff, fraction: 0xffff_ffff }
    }
}

} // verus!
