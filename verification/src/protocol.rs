//! The closed set of messaging topologies a session can speak, and its 1:1
//! mapping to the transport's numeric protocol identifiers.
//!
//! The transport numbers each scalability protocol as `major * 16 + minor`;
//! this layer adds no semantics of its own to the choice of topology, it only
//! carries the identifier to the handle at creation time.

use vstd::prelude::*;

verus! {

/// A messaging topology: pairwise (two versions), publish/subscribe,
/// request/reply, survey, pipeline push/pull, and bus.
#[derive(Clone, Copy, Debug, PartialEq, Eq, Structural)]
pub enum ProtocolType {
    Pair0,
    Pair1,
    Pub0,
    Sub0,
    Req0,
    Rep0,
    Surveyor0,
    Push0,
    Pull0,
    Bus0,
}

impl ProtocolType {
    /// The transport-level protocol number this topology stands for,
    /// `major * 16 + minor` in the transport's numbering.
    pub open spec fn transport_id_spec(self) -> u16 {
        match self {
            ProtocolType::Pair0 => 0x10,
            ProtocolType::Pair1 => 0x11,
            ProtocolType::Pub0 => 0x20,
            ProtocolType::Sub0 => 0x21,
            ProtocolType::Req0 => 0x30,
            ProtocolType::Rep0 => 0x31,
            ProtocolType::Surveyor0 => 0x62,
            ProtocolType::Push0 => 0x50,
            ProtocolType::Pull0 => 0x51,
            ProtocolType::Bus0 => 0x70,
        }
    }

    /// Map this topology to the transport's numeric protocol identifier.
    pub fn transport_id(&self) -> (r: u16)
        ensures
            r == self.transport_id_spec(),
    {
        match self {
            ProtocolType::Pair0 => 0x10,
            ProtocolType::Pair1 => 0x11,
            ProtocolType::Pub0 => 0x20,
            ProtocolType::Sub0 => 0x21,
            ProtocolType::Req0 => 0x30,
            ProtocolType::Rep0 => 0x31,
            ProtocolType::Surveyor0 => 0x62,
            ProtocolType::Push0 => 0x50,
            ProtocolType::Pull0 => 0x51,
            ProtocolType::Bus0 => 0x70,
        }
    }
}

/// The mapping from topology to transport identifier is 1:1: two topologies
/// with the same identifier are the same topology.
pub proof fn lemma_transport_id_injective(a: ProtocolType, b: ProtocolType)
    ensures
        a.transport_id_spec() == b.transport_id_spec() ==> a == b,
{
}

} // verus!
