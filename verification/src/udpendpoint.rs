//! The logical channel a session runs on.

use vstd::prelude::*;

verus! {

/// A unidirectional UDP channel: an optional source filter, the destination
/// address, and the destination port. Addresses are carried as text; the
/// socket layer that resolves them lives outside the library.
#[derive(Clone, Debug, PartialEq, Eq, Hash)]
pub struct UDPEndpoint {
    /// Accept packets only from this source, when set.
    pub source_address: Option<String>,
    /// Destination (often multicast) address.
    pub destination_group_address: String,
    /// Destination port.
    pub port: u16,
}

impl UDPEndpoint {
    /// Build an endpoint.
    pub fn new(source_address: Option<String>, destination_group_address: String, port: u16) -> (r:
        UDPEndpoint)
        ensures
            r.source_address == source_address,
            r.destination_group_address == destination_group_address,
            r.port == port,
    {
        UDPEndpoint { source_address, destination_group_address, port }
    }
}

} // verus!
