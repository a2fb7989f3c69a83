//! Internal representation of one ALC/LCT packet after parsing.

use crate::lct;
use vstd::prelude::*;

verus! {

/// One parsed packet: the encoding symbol plus everything the receiver needs
/// to route it.
#[derive(Debug)]
pub struct Pkt {
    /// Encoding symbol payload.
    pub payload: Vec<u8>,
    /// Total length of the transport object, in bytes.
    pub transfer_length: u64,
    /// Encoding Symbol Identifier: the symbol's position within its block.
    pub esi: u32,
    /// Source Block Number: which block the symbol belongs to.
    pub sbn: u32,
    /// Transport Object Identifier; 0 is reserved for FDT instances.
    pub toi: u128,
    /// FDT instance id, when the packet carries an FDT.
    pub fdt_id: Option<u32>,
    /// Content encoding of the object.
    pub cenc: lct::Cenc,
    /// Whether the content encoding was signalled in-band (EXT_CENC).
    pub inband_cenc: bool,
    /// Close-object flag.
    pub close_object: bool,
    /// Number of source symbols in the block the symbol belongs to.
    pub source_block_length: u32,
    /// Whether the sender includes its current time (EXT_TIME).
    pub sender_current_time: bool,
}

} // verus!
