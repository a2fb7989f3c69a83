//! Minimal ALC packet view handed to the block decoders.

use vstd::prelude::*;

verus! {

/// A received ALC packet: the raw datagram plus the offset where the
/// encoding-symbol payload starts (after the LCT header and payload id).
#[derive(Debug)]
pub struct AlcPkt {
    /// The raw datagram bytes.
    pub data: Vec<u8>,
    /// Offset of the first payload byte within `data`.
    pub data_payload_offset: usize,
}

impl AlcPkt {
    /// The packet is well formed when the payload offset lies within the data.
    pub open spec fn wf(&self) -> bool {
        self.data_payload_offset <= self.data@.len()
    }

    /// The encoding-symbol payload carried by this packet.
    pub open spec fn payload(&self) -> Seq<u8> {
        self.data@.skip(self.data_payload_offset as int)
    }
}

/// The decoded ALC payload id: which symbol of which block this packet carries.
#[derive(Debug, Clone, Copy)]
pub struct PayloadID {
    /// Source Block Number.
    pub sbn: u32,
    /// Encoding Symbol Identifier.
    pub esi: u32,
    /// Number of source symbols of the block, when the scheme encodes it.
    pub source_block_length: Option<u32>,
}

} // verus!
