//! The roles every protocol actor plays.
use vstd::prelude::*;
use crate::guid::GUID_t;
use crate::types::{Locator_t, ProtocolVersion_t, ReliabilityKind_t, TopicKind_t, VendorId_t};

verus! {

/// Any actor of the protocol.
pub trait Entity {
    /// Identifies the entity within the whole domain.
    fn guid(&self) -> &GUID_t;
}

/// An entity that sends or receives changes: a writer or a reader.
pub trait Endpoint: Entity {
    /// Unicast addresses to send to the endpoint; may be empty.
    fn unicast_locator_list(&self) -> &Vec<Locator_t>;

    /// Multicast addresses to send to the endpoint; may be empty.
    fn multicast_locator_list(&self) -> &Vec<Locator_t>;

    /// The reliability the endpoint supports.
    fn reliability_level(&self) -> &ReliabilityKind_t;

    /// Whether the endpoint's data type has key fields.
    fn topic_kind(&self) -> &TopicKind_t;
}

/// The container of the endpoints of one node.
pub trait Participant: Entity {
    /// Unicast addresses used for endpoints that name none of their own.
    fn default_unicast_locator_list(&self) -> &Vec<Locator_t>;

    /// Multicast addresses used for endpoints that name none of their own.
    fn default_multicast_locator_list(&self) -> &Vec<Locator_t>;

    /// The protocol revision the participant speaks.
    fn protocol_version(&self) -> &ProtocolVersion_t;

    /// The vendor of the implementation the participant runs.
    fn vendor_id(&self) -> &VendorId_t;

    /// The GUIDs of the endpoints the participant contains.
    fn endpoints(&self) -> Vec<GUID_t>;
}

} // verus!
