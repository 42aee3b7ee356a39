//! Globally unique identifiers of protocol entities.
//!
//! A GUID is a 12-byte prefix, shared by every entity of one participant,
//! followed by a 4-byte entity id: a 3-byte key and a 1-byte kind.
use vstd::prelude::*;
use crate::types::VendorId_t;

verus! {

broadcast use vstd::array::group_array_axioms;

/// Kind of a user-defined writer whose topic has a key.
pub const ENTITY_KIND_WRITER_WITH_KEY: u8 = 0x02;
/// Kind of a user-defined writer whose topic has no key.
pub const ENTITY_KIND_WRITER_NO_KEY: u8 = 0x03;
/// Kind of a user-defined reader whose topic has no key.
pub const ENTITY_KIND_READER_NO_KEY: u8 = 0x04;
/// Kind of a user-defined reader whose topic has a key.
pub const ENTITY_KIND_READER_WITH_KEY: u8 = 0x07;
/// Kind of the built-in participant entity.
pub const ENTITY_KIND_PARTICIPANT_BUILT_IN: u8 = 0xc1;
/// Kind of a built-in writer whose topic has a key.
pub const ENTITY_KIND_WRITER_WITH_KEY_BUILT_IN: u8 = 0xc2;
/// Kind of a built-in writer whose topic has no key.
pub const ENTITY_KIND_WRITER_NO_KEY_BUILT_IN: u8 = 0xc3;
/// Kind of a built-in reader whose topic has no key.
pub const ENTITY_KIND_READER_NO_KEY_BUILT_IN: u8 = 0xc4;
/// Kind of a built-in reader whose topic has a key.
pub const ENTITY_KIND_READER_WITH_KEY_BUILT_IN: u8 = 0xc7;

/// Compares two byte arrays element by element.
fn bytes_equal<const N: usize>(a: &[u8; N], b: &[u8; N]) -> (r: bool)
    ensures
        r == (*a == *b),
{
    let mut i: usize = 0;
    while i < N
        invariant
            0 <= i <= N,
            a@.len() == N,
            b@.len() == N,
            forall|j: int| 0 <= j < i ==> a@[j] == b@[j],
        decreases N - i,
    {
        if a[i] != b[i] {
            return false;
        }
        i += 1;
    }
    assert(*a =~= *b);
    true
}

/// Relies on rand's `thread_rng` and `Rng::gen_range`: a value drawn from
/// `low..high`, which holds whatever is drawn.
#[verifier::external_body]
fn random_u8_in(low: u8, high: u8) -> (r: u8)
    requires
        low < high,
    ensures
        low <= r < high,
{
    let mut rng = rand::thread_rng();
    rand::Rng::gen_range(&mut rng, low..high)
}

/// Relies on rand's `thread_rng` and `RngCore::fill_bytes`: ten random bytes.
#[verifier::external_body]
fn random_bytes10() -> (r: [u8; 10]) {
    let mut b = [0u8; 10];
    let mut rng = rand::thread_rng();
    rand::RngCore::fill_bytes(&mut rng, &mut b);
    b
}

/// Role of an entity; the low 6 bits of user kinds, the top 2 reserved.
#[derive(Copy, Clone, Debug, PartialEq, Eq, Structural)]
pub struct EntityKind_t(pub u8);

impl EntityKind_t {
    /// A user-defined kind: only the low 6 bits of `kind` are kept.
    pub fn new(kind: u8) -> (r: EntityKind_t)
        ensures
            r.0 == kind & 0x3f,
            r.0 < 64,
    {
        assert(kind & 0x3f < 64 && 0x3f & kind == kind & 0x3f) by (bit_vector);
        EntityKind_t(kind & 0x3f)
    }
}

/// Whether a key lies in the range that the well-known built-in
/// entities use.
pub open spec fn is_reserved_key(key: Seq<u8>) -> bool {
    key[0] == 0 && key[1] < 3
}

/// Identifies an entity within its participant: a 3-byte key and a kind.
#[derive(Copy, Clone, Debug, Eq)]
pub struct EntityId_t {
    pub key: [u8; 3],
    pub kind: EntityKind_t,
}

impl PartialEq for EntityId_t {
    fn eq(&self, o: &EntityId_t) -> (r: bool) {
        self.kind == o.kind && bytes_equal(&self.key, &o.key)
    }
}

impl vstd::std_specs::cmp::PartialEqSpecImpl for EntityId_t {
    open spec fn obeys_eq_spec() -> bool {
        true
    }

    open spec fn eq_spec(&self, o: &EntityId_t) -> bool {
        *self == *o
    }
}

impl EntityId_t {
    /// An entity id from key bytes that a generator could draw: `None`
    /// unless `k1 < 255`, `3 <= k2 < 255` and `5 <= k3 < 255`. Such a key
    /// never collides with a well-known built-in entity.
    pub fn from_key_bytes(k1: u8, k2: u8, k3: u8, kind_val: EntityKind_t) -> (r: Option<
        EntityId_t,
    >)
        ensures
            r.is_some() <==> (k1 < 255 && 3 <= k2 < 255 && 5 <= k3 < 255),
            r matches Some(id) ==> id.key@ == seq![k1, k2, k3] && id.kind == kind_val
                && !is_reserved_key(id.key@),
    {
        if k1 < 255 && 3 <= k2 && k2 < 255 && 5 <= k3 && k3 < 255 {
            let id = EntityId_t { key: [k1, k2, k3], kind: kind_val };
            assert(id.key@ =~= seq![k1, k2, k3]);
            Some(id)
        } else {
            None
        }
    }

    /// A fresh entity id of the given kind, its key drawn at random from
    /// ranges that avoid the well-known built-in ids. Nothing guarantees
    /// that two calls give different ids.
    pub fn new(kind_val: EntityKind_t) -> (r: EntityId_t)
        ensures
            r.kind == kind_val,
            r.key[0] < 255,
            3 <= r.key[1] < 255,
            5 <= r.key[2] < 255,
            !is_reserved_key(r.key@),
    {
        let k1 = random_u8_in(0, 255);
        let k2 = random_u8_in(3, 255);
        let k3 = random_u8_in(5, 255);
        let r = Self::from_key_bytes(k1, k2, k3, kind_val);
        r.unwrap()
    }

    pub fn size(&self) -> (r: u16)
        ensures
            r == 4,
    {
        4
    }

    /// A well-known id of the built-in entities.
    fn reserved(k1: u8, k2: u8, k3: u8, kind: u8) -> (r: EntityId_t)
        ensures
            r.key@ == seq![k1, k2, k3],
            r.kind.0 == kind,
    {
        let r = EntityId_t { key: [k1, k2, k3], kind: EntityKind_t(kind) };
        assert(r.key@ =~= seq![k1, k2, k3]);
        r
    }

    pub fn unknown() -> (r: EntityId_t)
        ensures
            r.key@ == seq![0u8, 0, 0] && r.kind.0 == 0,
    {
        Self::reserved(0, 0, 0, 0)
    }

    pub fn participant() -> (r: EntityId_t)
        ensures
            r.key@ == seq![0u8, 0, 1] && r.kind.0 == ENTITY_KIND_PARTICIPANT_BUILT_IN,
    {
        Self::reserved(0, 0, 1, ENTITY_KIND_PARTICIPANT_BUILT_IN)
    }

    pub fn sedp_builtin_topic_writer() -> (r: EntityId_t)
        ensures
            r.key@ == seq![0u8, 0, 2] && r.kind.0 == ENTITY_KIND_WRITER_WITH_KEY_BUILT_IN,
    {
        Self::reserved(0, 0, 2, ENTITY_KIND_WRITER_WITH_KEY_BUILT_IN)
    }

    pub fn sedp_builtin_topic_reader() -> (r: EntityId_t)
        ensures
            r.key@ == seq![0u8, 0, 2] && r.kind.0 == ENTITY_KIND_READER_WITH_KEY_BUILT_IN,
    {
        Self::reserved(0, 0, 2, ENTITY_KIND_READER_WITH_KEY_BUILT_IN)
    }

    pub fn sedp_builtin_publications_writer() -> (r: EntityId_t)
        ensures
            r.key@ == seq![0u8, 0, 3] && r.kind.0 == ENTITY_KIND_WRITER_WITH_KEY_BUILT_IN,
    {
        Self::reserved(0, 0, 3, ENTITY_KIND_WRITER_WITH_KEY_BUILT_IN)
    }

    pub fn sedp_builtin_publications_reader() -> (r: EntityId_t)
        ensures
            r.key@ == seq![0u8, 0, 3] && r.kind.0 == ENTITY_KIND_READER_WITH_KEY_BUILT_IN,
    {
        Self::reserved(0, 0, 3, ENTITY_KIND_READER_WITH_KEY_BUILT_IN)
    }

    pub fn sedp_builtin_subscriptions_writer() -> (r: EntityId_t)
        ensures
            r.key@ == seq![0u8, 0, 4] && r.kind.0 == ENTITY_KIND_WRITER_WITH_KEY_BUILT_IN,
    {
        Self::reserved(0, 0, 4, ENTITY_KIND_WRITER_WITH_KEY_BUILT_IN)
    }

    pub fn sedp_builtin_subscriptions_reader() -> (r: EntityId_t)
        ensures
            r.key@ == seq![0u8, 0, 4] && r.kind.0 == ENTITY_KIND_READER_WITH_KEY_BUILT_IN,
    {
        Self::reserved(0, 0, 4, ENTITY_KIND_READER_WITH_KEY_BUILT_IN)
    }

    pub fn sedp_builtin_participant_writer() -> (r: EntityId_t)
        ensures
            r.key@ == seq![0u8, 1, 0] && r.kind.0 == ENTITY_KIND_WRITER_WITH_KEY_BUILT_IN,
    {
        Self::reserved(0, 1, 0, ENTITY_KIND_WRITER_WITH_KEY_BUILT_IN)
    }

    pub fn sedp_builtin_participant_reader() -> (r: EntityId_t)
        ensures
            r.key@ == seq![0u8, 1, 0] && r.kind.0 == ENTITY_KIND_READER_WITH_KEY_BUILT_IN,
    {
        Self::reserved(0, 1, 0, ENTITY_KIND_READER_WITH_KEY_BUILT_IN)
    }

    pub fn sedp_builtin_participant_message_writer() -> (r: EntityId_t)
        ensures
            r.key@ == seq![0u8, 2, 0] && r.kind.0 == ENTITY_KIND_WRITER_WITH_KEY_BUILT_IN,
    {
        Self::reserved(0, 2, 0, ENTITY_KIND_WRITER_WITH_KEY_BUILT_IN)
    }

    pub fn sedp_builtin_participant_message_reader() -> (r: EntityId_t)
        ensures
            r.key@ == seq![0u8, 2, 0] && r.kind.0 == ENTITY_KIND_READER_WITH_KEY_BUILT_IN,
    {
        Self::reserved(0, 2, 0, ENTITY_KIND_READER_WITH_KEY_BUILT_IN)
    }
}

/// The first 12 bytes of every GUID of one participant: a vendor id and
/// 10 bytes drawn once for the participant.
#[derive(Copy, Clone, Debug, Eq)]
pub struct GUIDPrefix_t {
    pub vendor_id: VendorId_t,
    pub bytes: [u8; 10],
}

impl PartialEq for GUIDPrefix_t {
    fn eq(&self, o: &GUIDPrefix_t) -> (r: bool) {
        self.vendor_id == o.vendor_id && bytes_equal(&self.bytes, &o.bytes)
    }
}

impl vstd::std_specs::cmp::PartialEqSpecImpl for GUIDPrefix_t {
    open spec fn obeys_eq_spec() -> bool {
        true
    }

    open spec fn eq_spec(&self, o: &GUIDPrefix_t) -> bool {
        *self == *o
    }
}

impl GUIDPrefix_t {
    /// A prefix with the given bytes.
    pub fn with_bytes(vendor_id: VendorId_t, bytes: [u8; 10]) -> (r: GUIDPrefix_t)
        ensures
            r.vendor_id == vendor_id,
            r.bytes == bytes,
    {
        GUIDPrefix_t { vendor_id, bytes }
    }

    /// A fresh prefix of 10 random bytes, under the unknown vendor id.
    /// Draw it once per participant and share it among its entities.
    pub fn new() -> (r: GUIDPrefix_t)
        ensures
            r.vendor_id.0 == 0,
    {
        let b = random_bytes10();
        Self::with_bytes(VendorId_t::unknown(), b)
    }

    /// The prefix of no known participant: all zero.
    pub fn unknown() -> (r: GUIDPrefix_t)
        ensures
            r.vendor_id.0 == 0,
            forall|i: int| 0 <= i < 10 ==> r.bytes[i] == 0,
    {
        Self::with_bytes(VendorId_t::unknown(), [0u8; 10])
    }

    pub fn size(&self) -> (r: u16)
        ensures
            r == 12,
    {
        12
    }
}

/// Globally unique identity of an entity: a prefix and an entity id.
#[derive(Copy, Clone, Debug, Eq)]
pub struct GUID_t {
    pub prefix: GUIDPrefix_t,
    pub entity_id: EntityId_t,
}

impl PartialEq for GUID_t {
    fn eq(&self, o: &GUID_t) -> (r: bool) {
        self.prefix == o.prefix && self.entity_id == o.entity_id
    }
}

impl vstd::std_specs::cmp::PartialEqSpecImpl for GUID_t {
    open spec fn obeys_eq_spec() -> bool {
        true
    }

    open spec fn eq_spec(&self, o: &GUID_t) -> bool {
        *self == *o
    }
}

impl GUID_t {
    pub fn new(prefix_val: GUIDPrefix_t, entity_id_val: EntityId_t) -> (r: GUID_t)
        ensures
            r.prefix == prefix_val,
            r.entity_id == entity_id_val,
    {
        GUID_t { prefix: prefix_val, entity_id: entity_id_val }
    }

    /// The GUID of no entity.
    pub fn unknown() -> (r: GUID_t)
        ensures
            r.prefix.vendor_id.0 == 0,
            forall|i: int| 0 <= i < 10 ==> r.prefix.bytes[i] == 0,
            r.entity_id.key@ == seq![0u8, 0, 0] && r.entity_id.kind.0 == 0,
    {
        GUID_t { prefix: GUIDPrefix_t::unknown(), entity_id: EntityId_t::unknown() }
    }

    pub fn size(&self) -> (r: u16)
        ensures
            r == 16,
    {
        16
    }
}

} // verus!
