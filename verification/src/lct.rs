//! LCT-level enumerations shared across the stack.

use vstd::prelude::*;

verus! {

/// Content encoding of a transport object, as carried by EXT_CENC or the FDT.
#[derive(Clone, Copy, Debug, PartialEq, Eq, Structural)]
pub enum Cenc {
    /// Raw bytes; symbols pass through to the sink unchanged.
    Null,
    /// RFC 1950 stream.
    Zlib,
    /// RFC 1951 raw stream.
    Deflate,
    /// RFC 1952 stream.
    Gzip,
}

} // verus!
