//! One recorded mutation of a data instance.
use vstd::prelude::*;
use crate::guid::GUID_t;
use crate::types::{ChangeKind_t, InstanceHandle_t, SequenceNumber_t};

verus! {

/// A change made by one writer to one data instance, tagged with the
/// writer's sequence number. Immutable once made; shared read-only between
/// the writer's history cache and its reader proxies.
pub struct CacheChange {
    pub kind: ChangeKind_t,
    pub writer_guid: GUID_t,
    pub instance_handle: InstanceHandle_t,
    pub sequence_number: SequenceNumber_t,
    pub data_value: Vec<u8>,
}

/// Equality of changes: all but the payload.
pub open spec fn same_change(a: CacheChange, b: CacheChange) -> bool {
    &&& a.kind == b.kind
    &&& a.writer_guid == b.writer_guid
    &&& a.instance_handle == b.instance_handle
    &&& a.sequence_number == b.sequence_number
}

impl PartialEq for CacheChange {
    fn eq(&self, other: &CacheChange) -> (r: bool) {
        self.kind == other.kind && self.writer_guid == other.writer_guid
            && self.instance_handle == other.instance_handle
            && self.sequence_number == other.sequence_number
    }
}

impl vstd::std_specs::cmp::PartialEqSpecImpl for CacheChange {
    open spec fn obeys_eq_spec() -> bool {
        true
    }

    open spec fn eq_spec(&self, other: &CacheChange) -> bool {
        same_change(*self, *other)
    }
}

impl CacheChange {
    /// Whether `self` orders before `other`: changes are ordered by their
    /// sequence numbers alone.
    pub fn precedes(&self, other: &CacheChange) -> (r: bool)
        ensures
            r == (self.sequence_number.0 < other.sequence_number.0),
    {
        self.sequence_number.0 < other.sequence_number.0
    }
}

} // verus!
