//! Error taxonomy of the delivery stack.
//!
//! Every fallible operation reports one of these kinds; the core never panics
//! on network input, so a malformed packet or a failed decode surfaces here.

use vstd::prelude::*;

verus! {

/// The class of a failure.
#[derive(Clone, Copy, Debug, PartialEq, Eq, Structural)]
pub enum ErrorKind {
    /// Malformed LCT/ALC/FDT input; the packet is dropped, the session continues.
    Parse,
    /// A packet for an object that no FDT entry and no inline OTI describes.
    UnknownToi,
    /// An FEC decoder failed or was constructed with unusable parameters.
    Codec,
    /// A digest of the delivered bytes disagrees with the announced one.
    Integrity,
    /// The downstream sink refused a write.
    Writer,
    /// Invalid OTI or builder arguments; reported at construction.
    Config,
}

/// Error value carried by every fallible operation of the library.
#[derive(Clone, Debug)]
pub struct FluteError {
    pub kind: ErrorKind,
    pub message: String,
}

impl FluteError {
    /// Build an error of the given kind.
    pub fn new(kind: ErrorKind, message: &str) -> (r: FluteError)
        ensures
            r.kind == kind,
            r.message@ == message@,
    {
        FluteError { kind, message: message.to_owned() }
    }
}

} // verus!
